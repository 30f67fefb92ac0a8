//! The mathematical model of the chain engine: what each operation reads
//! from a store and what it leaves there, as functions over the store's view.
use crate::blockchain::{BlockAndPatchView, BlockchainError, ZkCompressedStateChange};
use crate::consensus::pow::Difficulty;
use crate::db::{Key, StoreView, ValueView, WriteOpView};
use crate::types::{Account, Address, BlockView, ContractAccount, ContractId, Header, Money};
use crate::zk::{ZkCompressedState, ZkContractView};
use vstd::prelude::*;

verus! {

/// The model of a chain's parameters.
pub struct Config {
    pub genesis: BlockAndPatchView,
    pub total_supply: Money,
    pub reward_ratio: u64,
    pub max_block_size: usize,
    pub max_delta_count: usize,
    pub block_time: usize,
    pub difficulty_calc_interval: u64,
    pub pow_base_key: Seq<u8>,
    pub pow_key_change_delay: u64,
    pub pow_key_change_interval: u64,
    pub median_timestamp_count: u64,
    pub mpn_contract_id: ContractId,
    pub mpn_num_function_calls: usize,
    pub mpn_num_contract_payments: usize,
    pub minimum_pow_difficulty: Difficulty,
}

impl Config {
    /// The parameters that the engine divides by are not zero.
    pub open spec fn valid(self) -> bool {
        &&& self.reward_ratio > 0
        &&& self.difficulty_calc_interval > 0
        &&& self.pow_key_change_interval > 0
    }
}

/// What an operation of the engine gives: a value, or the error.
pub type Outcome<T> = Result<T, BlockchainError>;

/// The number of blocks in the chain.
pub open spec fn height_of(s: StoreView) -> Outcome<u64> {
    match s.get(Key::Height) {
        Some(ValueView::Height(h)) => Ok(h),
        Some(_) => Err(BlockchainError::Inconsistency),
        None => Ok(0),
    }
}

/// The account of an address. An address that was never written has no
/// money and has sent nothing, except the treasury, which holds the supply.
pub open spec fn account_of(cfg: Config, s: StoreView, address: Address) -> Outcome<Account> {
    match s.get(Key::Account(address)) {
        Some(ValueView::Account(a)) => Ok(a),
        Some(_) => Err(BlockchainError::Inconsistency),
        None => Ok(
            Account {
                balance: if address == Address::Treasury {
                    cfg.total_supply
                } else {
                    0
                },
                nonce: 0,
            },
        ),
    }
}

/// The description of a contract.
pub open spec fn contract_of(s: StoreView, contract_id: ContractId) -> Outcome<ZkContractView> {
    match s.get(Key::Contract(contract_id)) {
        Some(ValueView::Contract(c)) => Ok(c),
        Some(_) => Err(BlockchainError::Inconsistency),
        None => Err(BlockchainError::ContractNotFound),
    }
}

/// The on-chain account of a contract.
pub open spec fn contract_account_of(s: StoreView, contract_id: ContractId) -> Outcome<
    ContractAccount,
> {
    match s.get(Key::ContractAccount(contract_id)) {
        Some(ValueView::ContractAccount(a)) => Ok(a),
        Some(_) => Err(BlockchainError::Inconsistency),
        None => Err(BlockchainError::ContractNotFound),
    }
}

/// The header of block `index`.
pub open spec fn header_of(s: StoreView, index: u64) -> Outcome<Header> {
    match height_of(s) {
        Err(e) => Err(e),
        Ok(height) => if index >= height {
            Err(BlockchainError::BlockNotFound)
        } else {
            match s.get(Key::Header(index)) {
                Some(ValueView::Header(h)) => Ok(h),
                _ => Err(BlockchainError::Inconsistency),
            }
        },
    }
}

/// Block `index`.
pub open spec fn block_of(s: StoreView, index: u64) -> Outcome<BlockView> {
    match height_of(s) {
        Err(e) => Err(e),
        Ok(height) => if index >= height {
            Err(BlockchainError::BlockNotFound)
        } else {
            match s.get(Key::Block(index)) {
                Some(ValueView::Block(b)) => Ok(b),
                _ => Err(BlockchainError::Inconsistency),
            }
        },
    }
}

/// The header of the last block.
pub open spec fn tip_of(s: StoreView) -> Outcome<Header> {
    match height_of(s) {
        Err(e) => Err(e),
        Ok(height) => if height == 0 {
            Err(BlockchainError::BlockNotFound)
        } else {
            header_of(s, (height - 1) as u64)
        },
    }
}

/// The cumulative power recorded for block `index`.
pub open spec fn power_at(s: StoreView, index: u64) -> Outcome<u128> {
    match s.get(Key::Power(index)) {
        Some(ValueView::Power(p)) => Ok(p),
        _ => Err(BlockchainError::Inconsistency),
    }
}

/// The cumulative power of the chain.
pub open spec fn power_of(s: StoreView) -> Outcome<u128> {
    match height_of(s) {
        Err(e) => Err(e),
        Ok(height) => if height == 0 {
            Ok(0)
        } else {
            power_at(s, (height - 1) as u64)
        },
    }
}

/// The contracts whose state tree lags behind the chain. The list is never
/// stored empty: no list stands for the empty one.
pub open spec fn outdated_of(s: StoreView) -> Outcome<Seq<ContractId>> {
    match s.get(Key::Outdated) {
        Some(ValueView::Outdated(ids)) => if ids.len() == 0 {
            Err(BlockchainError::Inconsistency)
        } else {
            Ok(ids)
        },
        Some(_) => Err(BlockchainError::Inconsistency),
        None => Ok(Seq::empty()),
    }
}

/// The contract state changes of the last block.
pub open spec fn changed_states_of(s: StoreView) -> Outcome<
    Seq<(ContractId, ZkCompressedStateChange)>,
> {
    match s.get(Key::ContractUpdates) {
        Some(ValueView::ContractUpdates(changes)) => Ok(changes),
        _ => Err(BlockchainError::Inconsistency),
    }
}

/// The reward of the next block: a fixed share of what the treasury holds.
pub open spec fn next_reward_of(cfg: Config, s: StoreView) -> Outcome<Money> {
    match account_of(cfg, s, Address::Treasury) {
        Err(e) => Err(e),
        Ok(treasury) => Ok((treasury.balance / cfg.reward_ratio) as u64),
    }
}

/// The write that records `ids` as the outdated contracts.
pub open spec fn outdated_op(ids: Seq<ContractId>) -> WriteOpView {
    if ids.len() == 0 {
        WriteOpView::Remove(Key::Outdated)
    } else {
        WriteOpView::Put(Key::Outdated, ValueView::Outdated(ids))
    }
}


/// The timestamps of the `n` headers that end at block `index`, the latest
/// first.
pub open spec fn recent_timestamps(s: StoreView, index: u64, n: nat) -> Outcome<Seq<u32>>
    decreases n,
{
    if n == 0 {
        Ok(Seq::empty())
    } else {
        match recent_timestamps(s, index, (n - 1) as nat) {
            Err(e) => Err(e),
            Ok(earlier) => match header_of(s, (index - (n - 1)) as u64) {
                Err(e) => Err(e),
                Ok(h) => Ok(earlier.push(h.proof_of_work.timestamp)),
            },
        }
    }
}

/// How many headers the median timestamp at block `index` is taken over.
pub open spec fn median_window(cfg: Config, index: u64) -> nat {
    if index + 1 < cfg.median_timestamp_count {
        (index + 1) as nat
    } else {
        cfg.median_timestamp_count as nat
    }
}

/// The median of the timestamps of the last headers up to block `index`.
pub open spec fn median_timestamp_of(cfg: Config, s: StoreView, index: u64) -> Outcome<u32> {
    match recent_timestamps(s, index, median_window(cfg, index)) {
        Err(e) => Err(e),
        Ok(timestamps) => Ok(crate::utils::median_of(timestamps)),
    }
}

/// The block whose header hash is the proof-of-work key of block `index`,
/// once the base key is no longer in use.
pub open spec fn pow_key_reference(cfg: Config, index: u64) -> u64 {
    (((index - cfg.pow_key_change_delay) / (cfg.pow_key_change_interval as int))
        * cfg.pow_key_change_interval) as u64
}

/// The headers of the `n` blocks from `since` on.
pub open spec fn headers_from(s: StoreView, since: u64, n: nat) -> Outcome<Seq<Header>>
    decreases n,
{
    if n == 0 {
        Ok(Seq::empty())
    } else {
        match headers_from(s, since, (n - 1) as nat) {
            Err(e) => Err(e),
            Ok(earlier) => match header_of(s, (since + n - 1) as u64) {
                Err(e) => Err(e),
                Ok(h) => Ok(earlier.push(h)),
            },
        }
    }
}

/// The `n` blocks from `since` on.
pub open spec fn blocks_from(s: StoreView, since: u64, n: nat) -> Outcome<Seq<BlockView>>
    decreases n,
{
    if n == 0 {
        Ok(Seq::empty())
    } else {
        match blocks_from(s, since, (n - 1) as nat) {
            Err(e) => Err(e),
            Ok(earlier) => match block_of(s, (since + n - 1) as u64) {
                Err(e) => Err(e),
                Ok(b) => Ok(earlier.push(b)),
            },
        }
    }
}

/// How many of the `count` blocks from `since` on the chain has.
pub open spec fn range_len(height: u64, since: u64, count: u64) -> nat {
    let until = if since + count < height {
        since + count
    } else {
        height as int
    };
    if until <= since {
        0
    } else {
        (until - since) as nat
    }
}

/// The headers of up to `count` blocks from `since` on.
pub open spec fn headers_of(s: StoreView, since: u64, count: u64) -> Outcome<Seq<Header>> {
    match height_of(s) {
        Err(e) => Err(e),
        Ok(height) => headers_from(s, since, range_len(height, since, count)),
    }
}

/// Up to `count` blocks from `since` on.
pub open spec fn blocks_of(s: StoreView, since: u64, count: u64) -> Outcome<Seq<BlockView>> {
    match height_of(s) {
        Err(e) => Err(e),
        Ok(height) => blocks_from(s, since, range_len(height, since, count)),
    }
}


/// The target that the next block must have: that of the last block, or a
/// recalculated one at the start of a period.
pub open spec fn next_difficulty_of<P: crate::blockchain::Primitives>(
    cfg: Config,
    s: StoreView,
) -> Outcome<Difficulty> {
    match height_of(s) {
        Err(e) => Err(e),
        Ok(height) => match tip_of(s) {
            Err(e) => Err(e),
            Ok(last) => if height % cfg.difficulty_calc_interval == 0 {
                match header_of(s, (height - cfg.difficulty_calc_interval) as u64) {
                    Err(e) => Err(e),
                    Ok(first) => Ok(
                        P::spec_calc_pow_difficulty(
                            cfg.difficulty_calc_interval,
                            cfg.block_time,
                            cfg.minimum_pow_difficulty,
                            last.proof_of_work,
                            first.proof_of_work,
                        ),
                    ),
                }
            } else {
                Ok(last.proof_of_work.target)
            },
        },
    }
}

/// The proof-of-work key of block `index`.
pub open spec fn pow_key_of<P: crate::blockchain::Primitives>(
    cfg: Config,
    s: StoreView,
    index: u64,
) -> Outcome<Seq<u8>> {
    if index < cfg.pow_key_change_delay {
        Ok(cfg.pow_base_key)
    } else {
        match header_of(s, pow_key_reference(cfg, index)) {
            Err(e) => Err(e),
            Ok(h) => Ok(P::spec_header_digest(h)@),
        }
    }
}

/// The state summary that a contract had at height `index`.
pub open spec fn compressed_state_at_of<P: crate::blockchain::Primitives>(
    s: StoreView,
    contract_id: ContractId,
    index: u64,
) -> Outcome<ZkCompressedState> {
    match contract_of(s, contract_id) {
        Err(e) => Err(e),
        Ok(contract) => match contract_account_of(s, contract_id) {
            Err(e) => Err(e),
            Ok(account) => if index >= account.height {
                Err(BlockchainError::CompressedStateNotFound)
            } else if index == 0 {
                Ok(P::spec_empty_state(contract.state_model))
            } else {
                match s.get(Key::CompressedStateAt(contract_id, index)) {
                    Some(ValueView::CompressedState(state)) => Ok(state),
                    _ => Err(BlockchainError::Inconsistency),
                }
            },
        },
    }
}

} // verus!
