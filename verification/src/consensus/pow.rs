//! Proof-of-work difficulty targets.
use vstd::prelude::*;

verus! {

/// A difficulty target in compact form. A header meets the target when its
/// proof-of-work hash is small enough; a smaller target is harder to meet.
#[derive(Clone, Copy, Debug, PartialEq, Eq, Hash)]
pub struct Difficulty(pub u32);

impl DeepView for Difficulty {
    type V = Difficulty;

    open spec fn deep_view(&self) -> Difficulty {
        *self
    }
}

impl Difficulty {
    /// Whether two targets are the same.
    pub fn same(&self, other: &Difficulty) -> (r: bool)
        ensures
            r == (*self == *other),
    {
        self.0 == other.0
    }
}


/// The proof-of-work rules: how much work a target stands for, when a header
/// meets its target, and how the target is adjusted.
///
/// Each rule is a function of its arguments alone, named by a specification
/// function of the trait.
pub trait PowRules {
    /// The work that a header with this target stands for: about `2^256`
    /// divided by the target.
    open spec fn spec_power(target: Difficulty) -> u128 {
        arbitrary()
    }

    /// Whether the proof-of-work hash of `header` under `key` meets the
    /// header's target.
    open spec fn spec_meets_target(header: crate::types::Header, key: Seq<u8>) -> bool {
        arbitrary()
    }

    /// The target of the next period, from the proof of work of the last
    /// block of the period that ends (`last`) and of its first (`first`).
    open spec fn spec_calc_pow_difficulty(
        interval: u64,
        block_time: usize,
        minimum: Difficulty,
        last: crate::types::ProofOfWork,
        first: crate::types::ProofOfWork,
    ) -> Difficulty {
        arbitrary()
    }

    fn power(target: &Difficulty) -> (power: u128)
        ensures
            power == Self::spec_power(*target),
    ;

    fn meets_target(header: &crate::types::Header, key: &Vec<u8>) -> (ok: bool)
        ensures
            ok == Self::spec_meets_target(*header, key@),
    ;

    fn calc_pow_difficulty(
        interval: u64,
        block_time: usize,
        minimum: Difficulty,
        last: &crate::types::ProofOfWork,
        first: &crate::types::ProofOfWork,
    ) -> (target: Difficulty)
        ensures
            target == Self::spec_calc_pow_difficulty(interval, block_time, minimum, *last, *first),
    ;
}

} // verus!
