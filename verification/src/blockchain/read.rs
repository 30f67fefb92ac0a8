//! Reading the chain state from a store.
use crate::blockchain::model::{
    account_of, block_of, blocks_from, blocks_of, changed_states_of, compressed_state_at_of,
    contract_account_of, contract_of, header_of, headers_from, headers_of, height_of,
    median_timestamp_of, median_window, next_difficulty_of, next_reward_of, outdated_of,
    pow_key_of, power_at, power_of, range_len, recent_timestamps, tip_of,
};
use crate::blockchain::{BlockchainConfig, BlockchainError, Primitives, ZkCompressedStateChange};
use crate::consensus::pow::Difficulty;
use crate::db::{keys, KvStore, StoreView, Value};
use crate::types::{Account, Address, Block, BlockView, ContractAccount, ContractId, Header, Money};
use crate::utils::median;
use crate::zk::{ZkCompressedState, ZkContract, ZkContractView};
use vstd::prelude::*;
use vstd::slice::slice_to_vec;

verus! {

/// The number of blocks in the chain.
pub fn get_height<K: KvStore>(db: &K) -> (r: Result<u64, BlockchainError>)
    ensures
        r == height_of(db.view()),
{
    match db.get(&keys::height()) {
        Some(Value::Height(h)) => Ok(h),
        Some(_) => Err(BlockchainError::Inconsistency),
        None => Ok(0),
    }
}

/// The account of an address.
pub fn get_account<K: KvStore>(config: &BlockchainConfig, db: &K, addr: &Address) -> (r: Result<
    Account,
    BlockchainError,
>)
    ensures
        r == account_of(config.deep_view(), db.view(), *addr),
{
    match db.get(&keys::account(addr)) {
        Some(Value::Account(a)) => Ok(a),
        Some(_) => Err(BlockchainError::Inconsistency),
        None => Ok(
            Account {
                balance: if addr.same(&Address::Treasury) {
                    config.total_supply
                } else {
                    0
                },
                nonce: 0,
            },
        ),
    }
}

/// The description of a contract.
pub fn get_contract<K: KvStore>(db: &K, contract_id: &ContractId) -> (r: Result<
    ZkContract,
    BlockchainError,
>)
    ensures
        match r {
            Ok(c) => contract_of(db.view(), *contract_id) == Ok::<_, BlockchainError>(
                c.deep_view(),
            ),
            Err(e) => contract_of(db.view(), *contract_id) == Err::<ZkContractView, _>(e),
        },
{
    match db.get(&keys::contract(contract_id)) {
        Some(Value::Contract(c)) => Ok(c),
        Some(_) => Err(BlockchainError::Inconsistency),
        None => Err(BlockchainError::ContractNotFound),
    }
}

/// The on-chain account of a contract.
pub fn get_contract_account<K: KvStore>(db: &K, contract_id: &ContractId) -> (r: Result<
    ContractAccount,
    BlockchainError,
>)
    ensures
        r == contract_account_of(db.view(), *contract_id),
{
    match db.get(&keys::contract_account(contract_id)) {
        Some(Value::ContractAccount(a)) => Ok(a),
        Some(_) => Err(BlockchainError::Inconsistency),
        None => Err(BlockchainError::ContractNotFound),
    }
}

/// The header of block `index`.
pub fn get_header<K: KvStore>(db: &K, index: u64) -> (r: Result<Header, BlockchainError>)
    ensures
        r == header_of(db.view(), index),
{
    if index >= get_height(db)? {
        return Err(BlockchainError::BlockNotFound);
    }
    match db.get(&keys::header(index)) {
        Some(Value::Header(h)) => Ok(h),
        _ => Err(BlockchainError::Inconsistency),
    }
}

/// Block `index`.
pub fn get_block<K: KvStore>(db: &K, index: u64) -> (r: Result<Block, BlockchainError>)
    ensures
        match r {
            Ok(b) => block_of(db.view(), index) == Ok::<_, BlockchainError>(b.deep_view()),
            Err(e) => block_of(db.view(), index) == Err::<BlockView, _>(e),
        },
{
    if index >= get_height(db)? {
        return Err(BlockchainError::BlockNotFound);
    }
    match db.get(&keys::block(index)) {
        Some(Value::Block(b)) => Ok(b),
        _ => Err(BlockchainError::Inconsistency),
    }
}

/// The header of the last block.
pub fn get_tip<K: KvStore>(db: &K) -> (r: Result<Header, BlockchainError>)
    ensures
        r == tip_of(db.view()),
{
    let height = get_height(db)?;
    if height == 0 {
        return Err(BlockchainError::BlockNotFound);
    }
    get_header(db, height - 1)
}

/// The cumulative power recorded for block `index`.
pub fn get_power_at<K: KvStore>(db: &K, index: u64) -> (r: Result<u128, BlockchainError>)
    ensures
        r == power_at(db.view(), index),
{
    match db.get(&keys::power(index)) {
        Some(Value::Power(p)) => Ok(p),
        _ => Err(BlockchainError::Inconsistency),
    }
}

/// The cumulative power of the chain.
pub fn get_power<K: KvStore>(db: &K) -> (r: Result<u128, BlockchainError>)
    ensures
        r == power_of(db.view()),
{
    let height = get_height(db)?;
    if height == 0 {
        Ok(0)
    } else {
        get_power_at(db, height - 1)
    }
}

/// The contracts whose state tree lags behind the chain.
pub fn get_outdated_contracts<K: KvStore>(db: &K) -> (r: Result<Vec<ContractId>, BlockchainError>)
    ensures
        match r {
            Ok(ids) => outdated_of(db.view()) == Ok::<_, BlockchainError>(ids@),
            Err(e) => outdated_of(db.view()) == Err::<Seq<ContractId>, _>(e),
        },
{
    match db.get(&keys::outdated()) {
        Some(Value::Outdated(ids)) => {
            if ids.len() == 0 {
                return Err(BlockchainError::Inconsistency);
            }
            Ok(ids)
        },
        Some(_) => Err(BlockchainError::Inconsistency),
        None => Ok(Vec::new()),
    }
}

/// The contract state changes of the last block.
pub fn get_changed_states<K: KvStore>(db: &K) -> (r: Result<
    Vec<(ContractId, ZkCompressedStateChange)>,
    BlockchainError,
>)
    ensures
        match r {
            Ok(changes) => changed_states_of(db.view()) == Ok::<_, BlockchainError>(changes@),
            Err(e) => changed_states_of(db.view()) == Err::<
                Seq<(ContractId, ZkCompressedStateChange)>,
                _,
            >(e),
        },
{
    match db.get(&keys::contract_updates()) {
        Some(Value::ContractUpdates(changes)) => Ok(changes),
        _ => Err(BlockchainError::Inconsistency),
    }
}

/// The reward of the next block.
pub fn next_reward<K: KvStore>(config: &BlockchainConfig, db: &K) -> (r: Result<
    Money,
    BlockchainError,
>)
    requires
        config.deep_view().valid(),
    ensures
        r == next_reward_of(config.deep_view(), db.view()),
{
    let supply = get_account(config, db, &Address::Treasury)?.balance;
    Ok(supply / config.reward_ratio)
}

/// The end of the range of up to `count` blocks from `since` on.
fn range_end(height: u64, since: u64, count: u64) -> (until: u64)
    ensures
        since < until ==> until - since == range_len(height, since, count),
        until <= since ==> range_len(height, since, count) == 0,
{
    if count < height && since < height - count {
        since + count
    } else {
        height
    }
}

/// The headers of up to `count` blocks from `since` on.
pub fn get_headers<K: KvStore>(db: &K, since: u64, count: u64) -> (r: Result<
    Vec<Header>,
    BlockchainError,
>)
    ensures
        match r {
            Ok(headers) => headers_of(db.view(), since, count) == Ok::<_, BlockchainError>(
                headers@,
            ),
            Err(e) => headers_of(db.view(), since, count) == Err::<Seq<Header>, _>(e),
        },
{
    let mut headers: Vec<Header> = Vec::new();
    let height = get_height(db)?;
    let until = range_end(height, since, count);
    let mut i = since;
    while i < until
        invariant
            since <= i,
            i <= until || until <= since,
            until <= since ==> i == since,
            height_of(db.view()) == Ok::<_, BlockchainError>(height),
            since < until ==> until - since == range_len(height, since, count),
            until <= since ==> range_len(height, since, count) == 0,
            headers_from(db.view(), since, (i - since) as nat) == Ok::<_, BlockchainError>(
                headers@,
            ),
        decreases until - i,
    {
        match get_header(db, i) {
            Ok(h) => {
                headers.push(h);
            },
            Err(e) => {
                proof {
                    lemma_headers_from_fails(
                        db.view(),
                        since,
                        (i - since + 1) as nat,
                        range_len(height, since, count),
                    );
                }
                return Err(e);
            },
        }
        i += 1;
    }
    Ok(headers)
}

/// Up to `count` blocks from `since` on.
pub fn get_blocks<K: KvStore>(db: &K, since: u64, count: u64) -> (r: Result<
    Vec<Block>,
    BlockchainError,
>)
    ensures
        match r {
            Ok(blocks) => blocks_of(db.view(), since, count) == Ok::<_, BlockchainError>(
                blocks.deep_view(),
            ),
            Err(e) => blocks_of(db.view(), since, count) == Err::<Seq<BlockView>, _>(e),
        },
{
    let mut blocks: Vec<Block> = Vec::new();
    let height = get_height(db)?;
    let until = range_end(height, since, count);
    let mut i = since;
    assert(blocks.deep_view() =~= Seq::<BlockView>::empty());
    while i < until
        invariant
            since <= i,
            i <= until || until <= since,
            until <= since ==> i == since,
            height_of(db.view()) == Ok::<_, BlockchainError>(height),
            since < until ==> until - since == range_len(height, since, count),
            until <= since ==> range_len(height, since, count) == 0,
            blocks_from(db.view(), since, (i - since) as nat) == Ok::<_, BlockchainError>(
                blocks.deep_view(),
            ),
        decreases until - i,
    {
        match get_block(db, i) {
            Ok(b) => {
                let ghost before = blocks.deep_view();
                blocks.push(b);
                assert(blocks.deep_view() =~= before.push(b.deep_view()));
            },
            Err(e) => {
                proof {
                    lemma_blocks_from_fails(
                        db.view(),
                        since,
                        (i - since + 1) as nat,
                        range_len(height, since, count),
                    );
                }
                return Err(e);
            },
        }
        i += 1;
    }
    Ok(blocks)
}

/// A range of headers fails where its first failing prefix fails.
pub proof fn lemma_headers_from_fails(s: StoreView, since: u64, n: nat, m: nat)
    requires
        n <= m,
        headers_from(s, since, n) is Err,
    ensures
        headers_from(s, since, m) == headers_from(s, since, n),
    decreases m,
{
    if n < m {
        lemma_headers_from_fails(s, since, n, (m - 1) as nat);
    }
}

/// A range of blocks fails where its first failing prefix fails.
pub proof fn lemma_blocks_from_fails(s: StoreView, since: u64, n: nat, m: nat)
    requires
        n <= m,
        blocks_from(s, since, n) is Err,
    ensures
        blocks_from(s, since, m) == blocks_from(s, since, n),
    decreases m,
{
    if n < m {
        lemma_blocks_from_fails(s, since, n, (m - 1) as nat);
    }
}

/// A window of timestamps fails where its first failing prefix fails.
pub proof fn lemma_recent_timestamps_fails(s: StoreView, index: u64, n: nat, m: nat)
    requires
        n <= m,
        recent_timestamps(s, index, n) is Err,
    ensures
        recent_timestamps(s, index, m) == recent_timestamps(s, index, n),
    decreases m,
{
    if n < m {
        lemma_recent_timestamps_fails(s, index, n, (m - 1) as nat);
    }
}

/// The median of the timestamps of the last headers up to block `index`.
pub fn median_timestamp<K: KvStore>(config: &BlockchainConfig, db: &K, index: u64) -> (r: Result<
    u32,
    BlockchainError,
>)
    ensures
        r == median_timestamp_of(config.deep_view(), db.view(), index),
{
    let window = if config.median_timestamp_count > 0 && index < config.median_timestamp_count
        - 1 {
        index + 1
    } else {
        config.median_timestamp_count
    };
    assert(window == median_window(config.deep_view(), index));
    let mut timestamps: Vec<u32> = Vec::new();
    let mut i: u64 = 0;
    while i < window
        invariant
            i <= window,
            window <= index + 1,
            window == median_window(config.deep_view(), index),
            recent_timestamps(db.view(), index, i as nat) == Ok::<_, BlockchainError>(
                timestamps@,
            ),
        decreases window - i,
    {
        match get_header(db, index - i) {
            Ok(h) => {
                timestamps.push(h.proof_of_work.timestamp);
            },
            Err(e) => {
                proof {
                    lemma_recent_timestamps_fails(db.view(), index, (i + 1) as nat, window as nat);
                }
                return Err(e);
            },
        }
        i += 1;
    }
    Ok(median(&timestamps))
}

/// The target that the next block must have.
pub fn next_difficulty<K: KvStore, P: Primitives>(config: &BlockchainConfig, db: &K) -> (r: Result<
    Difficulty,
    BlockchainError,
>)
    requires
        config.deep_view().valid(),
    ensures
        r == next_difficulty_of::<P>(config.deep_view(), db.view()),
{
    let height = get_height(db)?;
    let last_block = get_tip(db)?;
    if height % config.difficulty_calc_interval == 0 {
        assert(height >= config.difficulty_calc_interval) by {
            if height < config.difficulty_calc_interval {
                vstd::arithmetic::div_mod::lemma_small_mod(
                    height as nat,
                    config.difficulty_calc_interval as nat,
                );
            }
        }
        let prev_block = get_header(db, height - config.difficulty_calc_interval)?;
        Ok(
            P::calc_pow_difficulty(
                config.difficulty_calc_interval,
                config.block_time,
                config.minimum_pow_difficulty,
                &last_block.proof_of_work,
                &prev_block.proof_of_work,
            ),
        )
    } else {
        Ok(last_block.proof_of_work.target)
    }
}

/// The proof-of-work key of block `index`: the base key at first, later the
/// hash of an earlier header, which changes at fixed intervals.
pub fn pow_key<K: KvStore, P: Primitives>(config: &BlockchainConfig, db: &K, index: u64) -> (r:
    Result<Vec<u8>, BlockchainError>)
    requires
        config.deep_view().valid(),
    ensures
        match r {
            Ok(key) => pow_key_of::<P>(config.deep_view(), db.view(), index) == Ok::<
                _,
                BlockchainError,
            >(key@),
            Err(e) => pow_key_of::<P>(config.deep_view(), db.view(), index) == Err::<Seq<u8>, _>(
                e,
            ),
        },
{
    if index < config.pow_key_change_delay {
        Ok(slice_to_vec(config.pow_base_key))
    } else {
        let periods = (index - config.pow_key_change_delay) / config.pow_key_change_interval;
        assert(periods * config.pow_key_change_interval <= index) by (nonlinear_arith)
            requires
                periods == (index - config.pow_key_change_delay) / (
                config.pow_key_change_interval as int),
                config.pow_key_change_interval > 0,
                index >= config.pow_key_change_delay,
        ;
        let reference = periods * config.pow_key_change_interval;
        let digest = P::header_digest(&get_header(db, reference)?);
        Ok(slice_to_vec(digest.as_slice()))
    }
}

/// The state summary that a contract had at height `index`; at height 0, the
/// summary of the empty state.
pub fn get_compressed_state_at<K: KvStore, P: Primitives>(
    db: &K,
    contract_id: &ContractId,
    index: u64,
) -> (r: Result<ZkCompressedState, BlockchainError>)
    ensures
        r == compressed_state_at_of::<P>(db.view(), *contract_id, index),
{
    let contract = get_contract(db, contract_id)?;
    if index >= get_contract_account(db, contract_id)?.height {
        return Err(BlockchainError::CompressedStateNotFound);
    }
    if index == 0 {
        return Ok(P::empty_state(&contract.state_model));
    }
    match db.get(&keys::compressed_state_at(contract_id, index)) {
        Some(Value::CompressedState(state)) => Ok(state),
        _ => Err(BlockchainError::Inconsistency),
    }
}

} // verus!
