//! Fork choice: whether a sequence of headers, attached to the chain at some
//! height, would make a chain of more cumulative power.
use crate::blockchain::model::{
    header_of, height_of, median_timestamp_of, pow_key_of, power_at, power_of, Config, Outcome,
};
use crate::blockchain::read::{
    get_header, get_height, get_power, get_power_at, median_timestamp, pow_key,
};
use crate::blockchain::{BlockchainConfig, BlockchainError, Primitives};
use crate::db::{KvStore, StoreView};
use crate::types::{Header, ProofOfWork};
use crate::utils::bytes_eq;
use vstd::prelude::*;

verus! {

/// Where the check of a sequence of headers stands: the cumulative power so
/// far, the last header accepted, and the proof of work that fixes the
/// target of the current period.
pub struct ExtendState {
    pub power: u128,
    pub last_header: Header,
    pub last_pow: ProofOfWork,
}

/// The check of one header `h` that is to follow `st.last_header`, on a
/// chain `s` to which the headers attach at height `from`.
pub open spec fn header_step<P: Primitives>(
    cfg: Config,
    s: StoreView,
    from: u64,
    check_pow: bool,
    st: ExtendState,
    h: Header,
) -> Outcome<ExtendState> {
    let retarget = h.number % cfg.difficulty_calc_interval == 0;
    if retarget && h.proof_of_work.target != P::spec_calc_pow_difficulty(
        cfg.difficulty_calc_interval,
        cfg.block_time,
        cfg.minimum_pow_difficulty,
        st.last_header.proof_of_work,
        st.last_pow,
    ) {
        Err(BlockchainError::DifficultyTargetWrong)
    } else {
        let last_pow = if retarget {
            h.proof_of_work
        } else {
            st.last_pow
        };
        match pow_key_of::<P>(cfg, s, h.number) {
            Err(e) => Err(e),
            Ok(key) => match median_timestamp_of(cfg, s, (from - 1) as u64) {
                Err(e) => Err(e),
                Ok(median) => if h.proof_of_work.timestamp < median {
                    Err(BlockchainError::InvalidTimestamp)
                } else if last_pow.target != h.proof_of_work.target {
                    Err(BlockchainError::DifficultyTargetWrong)
                } else if check_pow && !P::spec_meets_target(h, key) {
                    Err(BlockchainError::DifficultyTargetUnmet)
                } else if h.number != st.last_header.number + 1 {
                    Err(BlockchainError::InvalidBlockNumber)
                } else if h.parent_hash != P::spec_header_digest(st.last_header) {
                    Err(BlockchainError::InvalidParentHash)
                } else if st.power + P::spec_power(h.proof_of_work.target) > u128::MAX {
                    Err(BlockchainError::Inconsistency)
                } else {
                    Ok(
                        ExtendState {
                            power: (st.power + P::spec_power(h.proof_of_work.target)) as u128,
                            last_header: h,
                            last_pow,
                        },
                    )
                },
            },
        }
    }
}

/// The check of the first `n` headers of `headers`.
pub open spec fn headers_fold<P: Primitives>(
    cfg: Config,
    s: StoreView,
    from: u64,
    check_pow: bool,
    start: ExtendState,
    headers: Seq<Header>,
    n: nat,
) -> Outcome<ExtendState>
    decreases n,
{
    if n == 0 || n > headers.len() {
        Ok(start)
    } else {
        match headers_fold::<P>(cfg, s, from, check_pow, start, headers, (n - 1) as nat) {
            Err(e) => Err(e),
            Ok(st) => header_step::<P>(cfg, s, from, check_pow, st, headers[n - 1]),
        }
    }
}

/// Where the check of headers that attach at height `from` starts: at the
/// cumulative power and the header of block `from - 1`.
pub open spec fn extend_start(cfg: Config, s: StoreView, from: u64) -> Outcome<ExtendState> {
    match power_at(s, (from - 1) as u64) {
        Err(e) => Err(e),
        Ok(power) => match header_of(s, (from - 1) as u64) {
            Err(e) => Err(e),
            Ok(last_header) => match header_of(
                s,
                (last_header.number - last_header.number % cfg.difficulty_calc_interval) as u64,
            ) {
                Err(e) => Err(e),
                Ok(period_start) => Ok(
                    ExtendState { power, last_header, last_pow: period_start.proof_of_work },
                ),
            },
        },
    }
}

/// The cumulative power of the chain that `headers` would make when
/// attached at height `from`, if they are acceptable there.
pub open spec fn extended_power<P: Primitives>(
    cfg: Config,
    s: StoreView,
    from: u64,
    headers: Seq<Header>,
    check_pow: bool,
) -> Outcome<u128> {
    match power_of(s) {
        Err(e) => Err(e),
        Ok(_) => if from == 0 {
            Err(BlockchainError::ExtendFromGenesis)
        } else {
            match height_of(s) {
                Err(e) => Err(e),
                Ok(height) => if from > height {
                    Err(BlockchainError::ExtendFromFuture)
                } else {
                    match extend_start(cfg, s, from) {
                        Err(e) => Err(e),
                        Ok(start) => match headers_fold::<P>(
                            cfg,
                            s,
                            from,
                            check_pow,
                            start,
                            headers,
                            headers.len(),
                        ) {
                            Err(e) => Err(e),
                            Ok(end) => Ok(end.power),
                        },
                    }
                },
            }
        },
    }
}

/// Whether `headers`, attached at height `from`, make a chain of strictly
/// more cumulative power than the current one.
pub open spec fn will_extend_of<P: Primitives>(
    cfg: Config,
    s: StoreView,
    from: u64,
    headers: Seq<Header>,
    check_pow: bool,
) -> Outcome<bool> {
    match extended_power::<P>(cfg, s, from, headers, check_pow) {
        Err(e) => Err(e),
        Ok(new_power) => Ok(new_power > power_of(s).unwrap()),
    }
}

/// A sequence of headers fails where its first failing prefix fails.
pub proof fn lemma_headers_fold_fails<P: Primitives>(
    cfg: Config,
    s: StoreView,
    from: u64,
    check_pow: bool,
    start: ExtendState,
    headers: Seq<Header>,
    n: nat,
    m: nat,
)
    requires
        n <= m <= headers.len(),
        headers_fold::<P>(cfg, s, from, check_pow, start, headers, n) is Err,
    ensures
        headers_fold::<P>(cfg, s, from, check_pow, start, headers, m) == headers_fold::<P>(
            cfg,
            s,
            from,
            check_pow,
            start,
            headers,
            n,
        ),
    decreases m,
{
    if n < m {
        lemma_headers_fold_fails::<P>(cfg, s, from, check_pow, start, headers, n, (m - 1) as nat);
    }
}

/// Checks one header.
fn check_header<K: KvStore, P: Primitives>(
    config: &BlockchainConfig,
    db: &K,
    from: u64,
    check_pow: bool,
    new_power: &mut u128,
    last_header: &mut Header,
    last_pow: &mut ProofOfWork,
    h: &Header,
) -> (r: Result<(), BlockchainError>)
    requires
        config.deep_view().valid(),
        from > 0,
    ensures
        match header_step::<P>(
            config.deep_view(),
            db.view(),
            from,
            check_pow,
            ExtendState {
                power: *old(new_power),
                last_header: *old(last_header),
                last_pow: *old(last_pow),
            },
            *h,
        ) {
            Ok(st) => r is Ok && st == (ExtendState {
                power: *final(new_power),
                last_header: *final(last_header),
                last_pow: *final(last_pow),
            }),
            Err(e) => r is Err && r.unwrap_err() == e,
        },
{
    if h.number % config.difficulty_calc_interval == 0 {
        if !h.proof_of_work.target.same(
            &P::calc_pow_difficulty(
                config.difficulty_calc_interval,
                config.block_time,
                config.minimum_pow_difficulty,
                &last_header.proof_of_work,
                last_pow,
            ),
        ) {
            return Err(BlockchainError::DifficultyTargetWrong);
        }
        *last_pow = h.proof_of_work;
    }
    let key = pow_key::<K, P>(config, db, h.number)?;
    if h.proof_of_work.timestamp < median_timestamp(config, db, from - 1)? {
        return Err(BlockchainError::InvalidTimestamp);
    }
    if !last_pow.target.same(&h.proof_of_work.target) {
        return Err(BlockchainError::DifficultyTargetWrong);
    }
    if check_pow && !P::meets_target(h, &key) {
        return Err(BlockchainError::DifficultyTargetUnmet);
    }
    if last_header.number == u64::MAX || h.number != last_header.number + 1 {
        return Err(BlockchainError::InvalidBlockNumber);
    }
    if !bytes_eq(&h.parent_hash, &P::header_digest(last_header)) {
        return Err(BlockchainError::InvalidParentHash);
    }
    *new_power = match (*new_power).checked_add(P::power(&h.proof_of_work.target)) {
        Some(power) => power,
        None => {
            return Err(BlockchainError::Inconsistency);
        },
    };
    *last_header = *h;
    Ok(())
}

/// The cumulative power of the chain that `headers` would make when
/// attached at height `from`, together with the current cumulative power.
pub fn extension_power<K: KvStore, P: Primitives>(
    config: &BlockchainConfig,
    db: &K,
    from: u64,
    headers: &Vec<Header>,
    check_pow: bool,
) -> (r: Result<(u128, u128), BlockchainError>)
    requires
        config.deep_view().valid(),
    ensures
        match extended_power::<P>(config.deep_view(), db.view(), from, headers@, check_pow) {
            Ok(new_power) => r == Ok::<_, BlockchainError>(
                (new_power, power_of(db.view()).unwrap()),
            ),
            Err(e) => r is Err && r.unwrap_err() == e,
        },
{
    let current_power = get_power(db)?;
    if from == 0 {
        return Err(BlockchainError::ExtendFromGenesis);
    } else if from > get_height(db)? {
        return Err(BlockchainError::ExtendFromFuture);
    }
    let mut new_power = get_power_at(db, from - 1)?;
    let mut last_header = get_header(db, from - 1)?;
    proof {
        vstd::arithmetic::div_mod::lemma_mod_decreases(
            last_header.number as nat,
            config.difficulty_calc_interval as nat,
        );
    }
    let mut last_pow = get_header(
        db,
        last_header.number - last_header.number % config.difficulty_calc_interval,
    )?.proof_of_work;
    let ghost start = ExtendState { power: new_power, last_header, last_pow };
    let mut i: usize = 0;
    while i < headers.len()
        invariant
            i <= headers.len(),
            config.deep_view().valid(),
            from > 0,
            power_of(db.view()) == Ok::<_, BlockchainError>(current_power),
            height_of(db.view()) is Ok,
            from <= height_of(db.view()).unwrap(),
            extend_start(config.deep_view(), db.view(), from) == Ok::<_, BlockchainError>(start),
            headers_fold::<P>(
                config.deep_view(),
                db.view(),
                from,
                check_pow,
                start,
                headers@,
                i as nat,
            ) == Ok::<_, BlockchainError>(ExtendState { power: new_power, last_header, last_pow }),
        decreases headers.len() - i,
    {
        proof {
            if headers_fold::<P>(
                config.deep_view(),
                db.view(),
                from,
                check_pow,
                start,
                headers@,
                (i + 1) as nat,
            ) is Err {
                lemma_headers_fold_fails::<P>(
                    config.deep_view(),
                    db.view(),
                    from,
                    check_pow,
                    start,
                    headers@,
                    (i + 1) as nat,
                    headers@.len(),
                );
            }
        }
        check_header::<K, P>(
            config,
            db,
            from,
            check_pow,
            &mut new_power,
            &mut last_header,
            &mut last_pow,
            &headers[i],
        )?;
        i += 1;
    }
    Ok((new_power, current_power))
}

/// Whether `headers`, attached at height `from`, make a chain of strictly
/// more cumulative power than the current one.
pub fn will_extend<K: KvStore, P: Primitives>(
    config: &BlockchainConfig,
    db: &K,
    from: u64,
    headers: &Vec<Header>,
    check_pow: bool,
) -> (r: Result<bool, BlockchainError>)
    requires
        config.deep_view().valid(),
    ensures
        r == will_extend_of::<P>(config.deep_view(), db.view(), from, headers@, check_pow),
{
    let (new_power, current_power) = extension_power::<K, P>(
        config,
        db,
        from,
        headers,
        check_pow,
    )?;
    Ok(new_power > current_power)
}

} // verus!
