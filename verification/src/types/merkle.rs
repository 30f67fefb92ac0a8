//! The hash tree over the transactions of a block.
use crate::types::{Block, MerkleTree, MerkleTreeView, TransactionView};
use vstd::prelude::*;

verus! {

/// The hash of the `i`-th pair of a level. The last node of a level of odd
/// length is paired with itself.
pub open spec fn pair_hash<H: crate::types::hash::Hash>(level: Seq<[u8; 32]>, i: int) -> [u8; 32] {
    H::spec_hash(
        level[2 * i]@ + level[if 2 * i + 1 < level.len() {
            2 * i + 1
        } else {
            2 * i
        }]@,
    )
}

/// The level above `level`: the hashes of its pairs.
pub open spec fn merkle_level<H: crate::types::hash::Hash>(level: Seq<[u8; 32]>) -> Seq<[u8; 32]> {
    Seq::new(((level.len() + 1) / 2) as nat, |i: int| pair_hash::<H>(level, i))
}

/// The root of the tree over `leaves`: the only node of the last level, or
/// the hash of nothing if there are no leaves.
pub open spec fn merkle_root<H: crate::types::hash::Hash>(leaves: Seq<[u8; 32]>) -> [u8; 32]
    decreases leaves.len(),
{
    if leaves.len() == 0 {
        H::spec_hash(Seq::empty())
    } else if leaves.len() == 1 {
        leaves[0]
    } else {
        merkle_root::<H>(merkle_level::<H>(leaves))
    }
}

/// The leaves of the tree of a block: the digests of its transactions.
pub open spec fn body_leaves<D: crate::types::hash::Digests>(body: Seq<TransactionView>) -> Seq<
    [u8; 32],
> {
    Seq::new(body.len(), |i: int| D::spec_transaction_digest(body[i]))
}

/// The tree of a block.
pub open spec fn merkle_tree_of<P: crate::types::hash::Hash + crate::types::hash::Digests>(
    body: Seq<TransactionView>,
) -> MerkleTreeView {
    MerkleTreeView {
        root: merkle_root::<P>(body_leaves::<P>(body)),
        leaves: body_leaves::<P>(body),
    }
}

fn join(a: &[u8; 32], b: &[u8; 32]) -> (joined: Vec<u8>)
    ensures
        joined@ == a@ + b@,
{
    let mut joined: Vec<u8> = Vec::new();
    let mut i: usize = 0;
    while i < 32
        invariant
            i <= 32,
            joined@ == a@.subrange(0, i as int),
        decreases 32 - i,
    {
        joined.push(a[i]);
        i += 1;
    }
    let mut j: usize = 0;
    while j < 32
        invariant
            j <= 32,
            joined@ == a@ + b@.subrange(0, j as int),
        decreases 32 - j,
    {
        joined.push(b[j]);
        j += 1;
    }
    assert(b@.subrange(0, 32) =~= b@);
    joined
}

/// The root of the tree over `leaves`.
pub fn compute_root<H: crate::types::hash::Hash>(leaves: &Vec<[u8; 32]>) -> (root: [u8; 32])
    ensures
        root == merkle_root::<H>(leaves@),
{
    if leaves.len() == 0 {
        let nothing: Vec<u8> = Vec::new();
        return H::hash(nothing.as_slice());
    }
    let mut level: Vec<[u8; 32]> = Vec::new();
    let mut k: usize = 0;
    while k < leaves.len()
        invariant
            k <= leaves.len(),
            level@ == leaves@.subrange(0, k as int),
        decreases leaves.len() - k,
    {
        level.push(leaves[k]);
        k += 1;
    }
    assert(level@ =~= leaves@);
    while level.len() > 1
        invariant
            level.len() >= 1,
            merkle_root::<H>(level@) == merkle_root::<H>(leaves@),
        decreases level.len(),
    {
        let pairs = level.len() / 2 + level.len() % 2;
        let mut next: Vec<[u8; 32]> = Vec::new();
        let mut i: usize = 0;
        while i < pairs
            invariant
                i <= pairs,
                pairs == (level.len() + 1) / 2,
                level.len() > 1,
                next.len() == i,
                forall|j: int| 0 <= j < i ==> next@[j] == pair_hash::<H>(level@, j),
            decreases pairs - i,
        {
            let left = &level[2 * i];
            let right = if 2 * i + 1 < level.len() {
                &level[2 * i + 1]
            } else {
                &level[2 * i]
            };
            let joined = join(left, right);
            next.push(H::hash(joined.as_slice()));
            i += 1;
        }
        assert(next@ =~= merkle_level::<H>(level@));
        level = next;
    }
    level[0]
}

impl Block {
    /// The hash tree over the block's transactions.
    pub fn merkle_tree<P: crate::types::hash::Hash + crate::types::hash::Digests>(&self) -> (tree:
        MerkleTree)
        ensures
            tree.deep_view() == merkle_tree_of::<P>(self.deep_view().body),
    {
        let mut leaves: Vec<[u8; 32]> = Vec::new();
        let mut i: usize = 0;
        while i < self.body.len()
            invariant
                i <= self.body.len(),
                leaves.len() == i,
                forall|j: int|
                    0 <= j < i ==> leaves@[j] == P::spec_transaction_digest(
                        self.body@[j].deep_view(),
                    ),
            decreases self.body.len() - i,
        {
            leaves.push(P::transaction_digest(&self.body[i]));
            i += 1;
        }
        assert(leaves@ =~= body_leaves::<P>(self.deep_view().body));
        let root = compute_root::<P>(&leaves);
        MerkleTree { root, leaves }
    }
}

} // verus!
