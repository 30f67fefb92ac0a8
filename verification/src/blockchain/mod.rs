//! The chain engine: transaction execution, block application and rollback,
//! fork choice, block drafting and state synchronisation, all on top of a
//! key-value store.
pub mod block;
pub mod error;
pub mod fork_choice;
pub mod interface;
pub mod laws;
pub mod mempool;
pub mod model;
pub mod read;
pub mod rollback;
pub mod sync;
pub mod tx;

pub use error::BlockchainError;
pub use interface::Blockchain;

use crate::blockchain::model::Config;
use crate::consensus::pow::{Difficulty, PowRules};
use crate::db::{KvStore, RamMirrorKvStore, StoreView};
use crate::types::hash::Digests;
use crate::types::{
    Account, Address, Block, BlockView, ContractAccount, ContractId, ContractPayment, Header,
    Money, Transaction, TransactionAndDelta,
};
use crate::wallet::Wallet;
use crate::zk::primitives::{ZkStateManager, ZkVerifier};
use crate::zk::{
    MpnAccount, ZeroTransaction, ZkCompressedState, ZkContract, ZkDataLocator, ZkScalar,
    ZkStatePatch, ZkStatePatchView,
};
use vstd::prelude::*;

verus! {

/// Everything the engine needs from outside besides the store: hashing, the
/// proof-of-work rules, the proof system and the state manager.
pub trait Primitives: crate::types::hash::Hash + Digests + PowRules + ZkVerifier + ZkStateManager {

}

/// How a transaction changed the state summary of a contract.
#[derive(Clone, Copy, Debug, PartialEq, Eq, Hash)]
pub struct ZkCompressedStateChange {
    pub prev_state: ZkCompressedState,
    pub state: ZkCompressedState,
    pub prev_height: u64,
}

/// When a transaction was first seen.
#[derive(Clone, Copy, Debug)]
pub struct TransactionStats {
    pub first_seen: u32,
}

/// State patches for a set of contracts.
#[derive(Debug, PartialEq, Eq)]
pub struct ZkBlockchainPatch {
    pub patches: Vec<(ContractId, ZkStatePatch)>,
}

/// A block together with the state patches of the contracts it touches.
#[derive(Debug, PartialEq, Eq)]
pub struct BlockAndPatch {
    pub block: Block,
    pub patch: ZkBlockchainPatch,
}

/// What a transaction did besides moving money.
#[derive(Clone, Copy, Debug, PartialEq, Eq)]
pub enum TxSideEffect {
    StateChange { contract_id: ContractId, state_change: ZkCompressedStateChange },
    Nothing,
}

/// The parameters of a chain.
pub struct BlockchainConfig {
    pub genesis: BlockAndPatch,
    pub total_supply: Money,
    pub reward_ratio: u64,
    pub max_block_size: usize,
    pub max_delta_count: usize,
    pub block_time: usize,
    pub difficulty_calc_interval: u64,
    pub pow_base_key: &'static [u8],
    pub pow_key_change_delay: u64,
    pub pow_key_change_interval: u64,
    pub median_timestamp_count: u64,
    pub mpn_contract_id: ContractId,
    pub mpn_num_function_calls: usize,
    pub mpn_num_contract_payments: usize,
    pub minimum_pow_difficulty: Difficulty,
}

/// The model of [`BlockAndPatch`]: what it holds, with a `Seq` for every `Vec`.
pub struct BlockAndPatchView {
    pub block: BlockView,
    pub patch: Seq<(ContractId, ZkStatePatchView)>,
}

impl DeepView for ZkBlockchainPatch {
    type V = Seq<(ContractId, ZkStatePatchView)>;

    open spec fn deep_view(&self) -> Seq<(ContractId, ZkStatePatchView)> {
        self.patches.deep_view()
    }
}

impl DeepView for BlockAndPatch {
    type V = BlockAndPatchView;

    open spec fn deep_view(&self) -> BlockAndPatchView {
        BlockAndPatchView { block: self.block.deep_view(), patch: self.patch.deep_view() }
    }
}

impl DeepView for BlockchainConfig {
    type V = Config;

    open spec fn deep_view(&self) -> Config {
        Config {
            genesis: self.genesis.deep_view(),
            total_supply: self.total_supply,
            reward_ratio: self.reward_ratio,
            max_block_size: self.max_block_size,
            max_delta_count: self.max_delta_count,
            block_time: self.block_time,
            difficulty_calc_interval: self.difficulty_calc_interval,
            pow_base_key: self.pow_base_key@,
            pow_key_change_delay: self.pow_key_change_delay,
            pow_key_change_interval: self.pow_key_change_interval,
            median_timestamp_count: self.median_timestamp_count,
            mpn_contract_id: self.mpn_contract_id,
            mpn_num_function_calls: self.mpn_num_function_calls,
            mpn_num_contract_payments: self.mpn_num_contract_payments,
            minimum_pow_difficulty: self.minimum_pow_difficulty,
        }
    }
}

impl Clone for ZkBlockchainPatch {
    fn clone(&self) -> (copy: Self)
        ensures
            copy.deep_view() == self.deep_view(),
    {
        let mut patches: Vec<(ContractId, ZkStatePatch)> = Vec::new();
        let mut i: usize = 0;
        while i < self.patches.len()
            invariant
                i <= self.patches.len(),
                patches.len() == i,
                forall|j: int|
                    0 <= j < i ==> patches@[j].deep_view() == self.patches@[j].deep_view(),
            decreases self.patches.len() - i,
        {
            patches.push((self.patches[i].0, self.patches[i].1.clone()));
            i += 1;
        }
        assert(patches.deep_view() =~= self.patches.deep_view());
        ZkBlockchainPatch { patches }
    }
}

impl Clone for BlockAndPatch {
    fn clone(&self) -> (copy: Self)
        ensures
            copy.deep_view() == self.deep_view(),
    {
        BlockAndPatch { block: self.block.clone(), patch: self.patch.clone() }
    }
}

impl Clone for BlockchainConfig {
    fn clone(&self) -> (copy: Self)
        ensures
            copy.deep_view() == self.deep_view(),
    {
        BlockchainConfig {
            genesis: self.genesis.clone(),
            total_supply: self.total_supply,
            reward_ratio: self.reward_ratio,
            max_block_size: self.max_block_size,
            max_delta_count: self.max_delta_count,
            block_time: self.block_time,
            difficulty_calc_interval: self.difficulty_calc_interval,
            pow_base_key: self.pow_base_key,
            pow_key_change_delay: self.pow_key_change_delay,
            pow_key_change_interval: self.pow_key_change_interval,
            median_timestamp_count: self.median_timestamp_count,
            mpn_contract_id: self.mpn_contract_id,
            mpn_num_function_calls: self.mpn_num_function_calls,
            mpn_num_contract_payments: self.mpn_num_contract_payments,
            minimum_pow_difficulty: self.minimum_pow_difficulty,
        }
    }
}


/// A chain on top of a key-value store.
///
/// Every operation that changes the chain either succeeds and leaves the
/// store that its step function gives, or fails and leaves the store as it
/// was.
pub struct KvStoreChain<K: KvStore, P: Primitives> {
    config: BlockchainConfig,
    database: K,
    primitives: std::marker::PhantomData<P>,
}

/// Whether opening a chain on the store `s` can answer `r`, leaving the
/// store `after`.
///
/// On an empty store the genesis block is applied, then its state patches.
/// On any other store the first block must be the genesis block.
pub open spec fn is_open_result<P: Primitives>(
    cfg: Config,
    s: StoreView,
    r: Result<(), BlockchainError>,
    after: StoreView,
) -> bool {
    match model::height_of(s) {
        Err(e) => r == Err::<(), _>(e),
        Ok(height) => if height == 0 {
            match block::block_body::<P>(cfg, s, cfg.genesis.block, true) {
                Err(e) => r == Err::<(), _>(e),
                Ok(_) => exists|applied: StoreView|
                    #![trigger block::is_block_result::<P>(cfg, s, cfg.genesis.block, true, applied)]
                    block::is_block_result::<P>(cfg, s, cfg.genesis.block, true, applied)
                        && match sync::update_states_step::<P>(applied, cfg.genesis.patch) {
                        Ok(patched) => r is Ok && after == patched,
                        Err(e) => r == Err::<(), _>(e),
                    },
            }
        } else {
            match model::block_of(s, 0) {
                Err(e) => r == Err::<(), _>(e),
                Ok(first) => if first != cfg.genesis.block {
                    r == Err::<(), _>(BlockchainError::DifferentGenesis)
                } else {
                    r is Ok && after == s
                },
            }
        },
    }
}

impl<K: KvStore, P: Primitives> KvStoreChain<K, P> {
    /// The contents of the chain's store.
    pub closed spec fn store(&self) -> StoreView {
        self.database.view()
    }

    /// The chain's parameters.
    pub closed spec fn cfg(&self) -> Config {
        self.config.deep_view()
    }

    /// Opens a chain on a store.
    pub fn new(database: K, config: BlockchainConfig) -> (r: Result<
        KvStoreChain<K, P>,
        BlockchainError,
    >)
        requires
            config.deep_view().valid(),
        ensures
            match r {
                Ok(chain) => chain.cfg() == config.deep_view() && is_open_result::<P>(
                    config.deep_view(),
                    database.view(),
                    Ok(()),
                    chain.store(),
                ),
                Err(e) => exists|after: StoreView|
                    #![trigger is_open_result::<P>(
                        config.deep_view(),
                        database.view(),
                        Err(e),
                        after,
                    )]
                    is_open_result::<P>(config.deep_view(), database.view(), Err(e), after),
            },
    {
        let ghost s = database.view();
        let ghost cfg = config.deep_view();
        let mut chain = KvStoreChain::<K, P> {
            database,
            config,
            primitives: std::marker::PhantomData,
        };
        match read::get_height(&chain.database) {
            Err(e) => {
                assert(is_open_result::<P>(cfg, s, Err(e), s));
                Err(e)
            },
            Ok(height) => {
                if height == 0 {
                    match block::block_ops::<K, P>(
                        &chain.config,
                        &chain.database,
                        &chain.config.genesis.block,
                        true,
                    ) {
                        Err(e) => {
                            assert(is_open_result::<P>(cfg, s, Err(e), s));
                            return Err(e);
                        },
                        Ok(ops) => {
                            chain.database.update(&ops);
                        },
                    }
                    let ghost applied = chain.database.view();
                    match sync::update_states_ops::<K, P>(
                        &chain.database,
                        &chain.config.genesis.patch,
                    ) {
                        Err(e) => {
                            assert(block::is_block_result::<P>(
                                cfg,
                                s,
                                cfg.genesis.block,
                                true,
                                applied,
                            ));
                            assert(is_open_result::<P>(cfg, s, Err(e), s));
                            return Err(e);
                        },
                        Ok(ops) => {
                            chain.database.update(&ops);
                        },
                    }
                    assert(block::is_block_result::<P>(cfg, s, cfg.genesis.block, true, applied));
                    Ok(chain)
                } else {
                    match read::get_block(&chain.database, 0) {
                        Err(e) => {
                            assert(is_open_result::<P>(cfg, s, Err(e), s));
                            Err(e)
                        },
                        Ok(first) => {
                            if !chain.config.genesis.block.same(&first) {
                                assert(is_open_result::<P>(
                                    cfg,
                                    s,
                                    Err(BlockchainError::DifferentGenesis),
                                    s,
                                ));
                                return Err(BlockchainError::DifferentGenesis);
                            }
                            Ok(chain)
                        },
                    }
                }
            },
        }
    }

    /// A chain on an overlay over this chain's store: what is written there
    /// does not reach this chain.
    pub fn fork_on_ram(&self) -> (fork: KvStoreChain<RamMirrorKvStore<'_, K>, P>)
        ensures
            fork.cfg() == self.cfg(),
            fork.store() == self.store(),
    {
        KvStoreChain {
            database: RamMirrorKvStore::new(&self.database),
            config: self.config.clone(),
            primitives: std::marker::PhantomData,
        }
    }

    /// The chain's store.
    pub fn database(&self) -> (database: &K)
        ensures
            database.view() == self.store(),
    {
        &self.database
    }

    /// The chain's parameters.
    pub fn config(&self) -> (config: &BlockchainConfig)
        ensures
            config.deep_view() == self.cfg(),
    {
        &self.config
    }

    /// The number of blocks in the chain.
    pub fn get_height(&self) -> (r: Result<u64, BlockchainError>)
        ensures
            r == model::height_of(self.store()),
    {
        read::get_height(&self.database)
    }

    /// The header of the last block.
    pub fn get_tip(&self) -> (r: Result<Header, BlockchainError>)
        ensures
            r == model::tip_of(self.store()),
    {
        read::get_tip(&self.database)
    }

    /// The header of block `index`.
    pub fn get_header(&self, index: u64) -> (r: Result<Header, BlockchainError>)
        ensures
            r == model::header_of(self.store(), index),
    {
        read::get_header(&self.database, index)
    }

    /// Block `index`.
    pub fn get_block(&self, index: u64) -> (r: Result<Block, BlockchainError>)
        ensures
            match r {
                Ok(b) => model::block_of(self.store(), index) == Ok::<_, BlockchainError>(
                    b.deep_view(),
                ),
                Err(e) => model::block_of(self.store(), index) == Err::<BlockView, _>(e),
            },
    {
        read::get_block(&self.database, index)
    }

    /// The headers of up to `count` blocks from `since` on.
    pub fn get_headers(&self, since: u64, count: u64) -> (r: Result<Vec<Header>, BlockchainError>)
        ensures
            match r {
                Ok(headers) => model::headers_of(self.store(), since, count) == Ok::<
                    _,
                    BlockchainError,
                >(headers@),
                Err(e) => model::headers_of(self.store(), since, count) == Err::<Seq<Header>, _>(
                    e,
                ),
            },
    {
        read::get_headers(&self.database, since, count)
    }

    /// Up to `count` blocks from `since` on.
    pub fn get_blocks(&self, since: u64, count: u64) -> (r: Result<Vec<Block>, BlockchainError>)
        ensures
            match r {
                Ok(blocks) => model::blocks_of(self.store(), since, count) == Ok::<
                    _,
                    BlockchainError,
                >(blocks.deep_view()),
                Err(e) => model::blocks_of(self.store(), since, count) == Err::<
                    Seq<BlockView>,
                    _,
                >(e),
            },
    {
        read::get_blocks(&self.database, since, count)
    }

    /// The cumulative power of the chain.
    pub fn get_power(&self) -> (r: Result<u128, BlockchainError>)
        ensures
            r == model::power_of(self.store()),
    {
        read::get_power(&self.database)
    }

    /// The proof-of-work key of block `index`.
    pub fn pow_key(&self, index: u64) -> (r: Result<Vec<u8>, BlockchainError>)
        requires
            self.cfg().valid(),
        ensures
            match r {
                Ok(key) => model::pow_key_of::<P>(self.cfg(), self.store(), index) == Ok::<
                    _,
                    BlockchainError,
                >(key@),
                Err(e) => model::pow_key_of::<P>(self.cfg(), self.store(), index) == Err::<
                    Seq<u8>,
                    _,
                >(e),
            },
    {
        read::pow_key::<K, P>(&self.config, &self.database, index)
    }

    /// The median of the timestamps of the last headers up to block `index`.
    pub fn median_timestamp(&self, index: u64) -> (r: Result<u32, BlockchainError>)
        ensures
            r == model::median_timestamp_of(self.cfg(), self.store(), index),
    {
        read::median_timestamp(&self.config, &self.database, index)
    }

    /// The target that the next block must have.
    pub fn next_difficulty(&self) -> (r: Result<Difficulty, BlockchainError>)
        requires
            self.cfg().valid(),
        ensures
            r == model::next_difficulty_of::<P>(self.cfg(), self.store()),
    {
        read::next_difficulty::<K, P>(&self.config, &self.database)
    }

    /// The reward of the next block.
    pub fn next_reward(&self) -> (r: Result<Money, BlockchainError>)
        requires
            self.cfg().valid(),
        ensures
            r == model::next_reward_of(self.cfg(), self.store()),
    {
        read::next_reward(&self.config, &self.database)
    }

    /// The account of an address.
    pub fn get_account(&self, addr: Address) -> (r: Result<Account, BlockchainError>)
        ensures
            r == model::account_of(self.cfg(), self.store(), addr),
    {
        read::get_account(&self.config, &self.database, &addr)
    }

    /// The description of a contract.
    pub fn get_contract(&self, contract_id: ContractId) -> (r: Result<ZkContract, BlockchainError>)
        ensures
            match r {
                Ok(c) => model::contract_of(self.store(), contract_id) == Ok::<
                    _,
                    BlockchainError,
                >(c.deep_view()),
                Err(e) => model::contract_of(self.store(), contract_id) == Err::<
                    crate::zk::ZkContractView,
                    _,
                >(e),
            },
    {
        read::get_contract(&self.database, &contract_id)
    }

    /// The on-chain account of a contract.
    pub fn get_contract_account(&self, contract_id: ContractId) -> (r: Result<
        ContractAccount,
        BlockchainError,
    >)
        ensures
            r == model::contract_account_of(self.store(), contract_id),
    {
        read::get_contract_account(&self.database, &contract_id)
    }

    /// The state summary that a contract had at height `index`.
    pub fn get_compressed_state_at(&self, contract_id: ContractId, index: u64) -> (r: Result<
        ZkCompressedState,
        BlockchainError,
    >)
        ensures
            r == model::compressed_state_at_of::<P>(self.store(), contract_id, index),
    {
        read::get_compressed_state_at::<K, P>(&self.database, &contract_id, index)
    }

    /// The contract state changes of the last block.
    pub fn get_changed_states(&self) -> (r: Result<
        Vec<(ContractId, ZkCompressedStateChange)>,
        BlockchainError,
    >)
        ensures
            match r {
                Ok(changes) => model::changed_states_of(self.store()) == Ok::<
                    _,
                    BlockchainError,
                >(changes@),
                Err(e) => model::changed_states_of(self.store()) == Err::<
                    Seq<(ContractId, ZkCompressedStateChange)>,
                    _,
                >(e),
            },
    {
        read::get_changed_states(&self.database)
    }

    /// The contracts whose state tree lags behind the chain.
    pub fn get_outdated_contracts(&self) -> (r: Result<Vec<ContractId>, BlockchainError>)
        ensures
            match r {
                Ok(ids) => model::outdated_of(self.store()) == Ok::<_, BlockchainError>(ids@),
                Err(e) => model::outdated_of(self.store()) == Err::<Seq<ContractId>, _>(e),
            },
    {
        read::get_outdated_contracts(&self.database)
    }

    /// The outdated contracts, each with the height of its state tree.
    pub fn get_outdated_heights(&self) -> (r: Result<Vec<(ContractId, u64)>, BlockchainError>)
        ensures
            match r {
                Ok(heights) => sync::outdated_heights_of::<P>(self.store()) == Ok::<
                    _,
                    BlockchainError,
                >(heights@),
                Err(e) => sync::outdated_heights_of::<P>(self.store()) == Err::<
                    Seq<(ContractId, u64)>,
                    _,
                >(e),
            },
    {
        sync::get_outdated_heights::<K, P>(&self.database)
    }

    /// An account of the payment network.
    pub fn get_mpn_account(&self, index: u32) -> (r: Result<MpnAccount, BlockchainError>)
        ensures
            r == match P::spec_get_mpn_account(self.store(), self.cfg().mpn_contract_id, index) {
                Ok(account) => Ok(account),
                Err(e) => Err(BlockchainError::StateManagerError(e)),
            },
    {
        match P::get_mpn_account(&self.database, &self.config.mpn_contract_id, index) {
            Ok(account) => Ok(account),
            Err(e) => Err(BlockchainError::StateManagerError(e)),
        }
    }

    /// A page of the accounts of the payment network.
    pub fn get_mpn_accounts(&self, page: usize, page_size: usize) -> (r: Result<
        Vec<(u32, MpnAccount)>,
        BlockchainError,
    >)
        ensures
            match r {
                Ok(accounts) => P::spec_get_mpn_accounts(
                    self.store(),
                    self.cfg().mpn_contract_id,
                    page,
                    page_size,
                ) == Ok::<_, crate::zk::StateManagerError>(accounts@),
                Err(e) => exists|cause: crate::zk::StateManagerError|
                    e == BlockchainError::StateManagerError(cause) && P::spec_get_mpn_accounts(
                        self.store(),
                        self.cfg().mpn_contract_id,
                        page,
                        page_size,
                    ) == Err::<Seq<(u32, MpnAccount)>, _>(cause),
            },
    {
        match P::get_mpn_accounts(&self.database, &self.config.mpn_contract_id, page, page_size) {
            Ok(accounts) => Ok(accounts),
            Err(e) => Err(BlockchainError::StateManagerError(e)),
        }
    }

    /// A cell of a contract's state tree.
    pub fn read_state(&self, contract_id: ContractId, locator: ZkDataLocator) -> (r: Result<
        ZkScalar,
        BlockchainError,
    >)
        ensures
            r == match P::spec_get_data(self.store(), contract_id, locator.deep_view()) {
                Ok(value) => Ok(value),
                Err(e) => Err(BlockchainError::StateManagerError(e)),
            },
    {
        match P::get_data(&self.database, &contract_id, &locator) {
            Ok(value) => Ok(value),
            Err(e) => Err(BlockchainError::StateManagerError(e)),
        }
    }

    /// Whether `headers`, attached at height `from`, make a chain of strictly
    /// more cumulative power than the current one.
    pub fn will_extend(&self, from: u64, headers: &Vec<Header>, check_pow: bool) -> (r: Result<
        bool,
        BlockchainError,
    >)
        requires
            self.cfg().valid(),
        ensures
            r == fork_choice::will_extend_of::<P>(
                self.cfg(),
                self.store(),
                from,
                headers@,
                check_pow,
            ),
            r matches Ok(more) ==> (more <==> fork_choice::extended_power::<P>(
                self.cfg(),
                self.store(),
                from,
                headers@,
                check_pow,
            ).unwrap() > model::power_of(self.store()).unwrap()),
    {
        fork_choice::will_extend::<K, P>(&self.config, &self.database, from, headers, check_pow)
    }

    /// Executes a contract payment.
    pub fn apply_contract_payment(&mut self, contract_payment: &ContractPayment) -> (r: Result<
        (),
        BlockchainError,
    >)
        ensures
            final(self).cfg() == old(self).cfg(),
            match tx::payment_step::<P>(old(self).cfg(), old(self).store(), *contract_payment) {
                Ok(after) => r is Ok && final(self).store() == after,
                Err(e) => r == Err::<(), _>(e) && final(self).store() == old(self).store(),
            },
    {
        let ops = tx::contract_payment_ops::<K, P>(&self.config, &self.database, contract_payment)?;
        self.database.update(&ops);
        Ok(())
    }

    /// Executes a transfer inside the payment network.
    pub fn apply_zero_tx(&mut self, tx: &ZeroTransaction) -> (r: Result<(), BlockchainError>)
        ensures
            final(self).cfg() == old(self).cfg(),
            match tx::zero_tx_step::<P>(old(self).cfg(), old(self).store(), *tx) {
                Ok(after) => r is Ok && final(self).store() == after,
                Err(e) => r == Err::<(), _>(e) && final(self).store() == old(self).store(),
            },
    {
        let ops = tx::zero_tx_ops::<K, P>(&self.config, &self.database, tx)?;
        self.database.update(&ops);
        Ok(())
    }

    /// Executes a transaction. The treasury may only send if
    /// `allow_treasury` is set.
    pub fn apply_tx(&mut self, tx: &Transaction, allow_treasury: bool) -> (r: Result<
        TxSideEffect,
        BlockchainError,
    >)
        ensures
            final(self).cfg() == old(self).cfg(),
            match tx::tx_step::<P>(
                old(self).cfg(),
                old(self).store(),
                tx.deep_view(),
                allow_treasury,
            ) {
                Ok((after, effect)) => r == Ok::<_, BlockchainError>(effect) && final(self).store()
                    == after,
                Err(e) => r == Err::<TxSideEffect, _>(e) && final(self).store()
                    == old(self).store(),
            },
    {
        let (ops, side_effect) = tx::transaction_ops::<K, P>(
            &self.config,
            &self.database,
            tx,
            allow_treasury,
        )?;
        self.database.update(&ops);
        Ok(side_effect)
    }

    /// Applies a block to the chain.
    pub fn apply_block(&mut self, block: &Block, check_pow: bool) -> (r: Result<
        (),
        BlockchainError,
    >)
        requires
            old(self).cfg().valid(),
        ensures
            final(self).cfg() == old(self).cfg(),
            match block::block_body::<P>(
                old(self).cfg(),
                old(self).store(),
                block.deep_view(),
                check_pow,
            ) {
                Ok(_) => r is Ok && block::is_block_result::<P>(
                    old(self).cfg(),
                    old(self).store(),
                    block.deep_view(),
                    check_pow,
                    final(self).store(),
                ),
                Err(e) => r == Err::<(), _>(e) && final(self).store() == old(self).store(),
            },
    {
        let ops = block::block_ops::<K, P>(&self.config, &self.database, block, check_pow)?;
        self.database.update(&ops);
        Ok(())
    }

    /// Takes the last block back.
    pub fn rollback(&mut self) -> (r: Result<(), BlockchainError>)
        ensures
            final(self).cfg() == old(self).cfg(),
            match rollback::rollback_step::<P>(old(self).store()) {
                Ok(after) => r is Ok && final(self).store() == after,
                Err(e) => r == Err::<(), _>(e) && final(self).store() == old(self).store(),
            },
    {
        let ops = rollback::rollback_ops::<K, P>(&self.database)?;
        self.database.update(&ops);
        Ok(())
    }

    /// Replaces the end of the chain: the blocks from height `from` on are
    /// taken back, and `blocks` are applied in their place. If a block is
    /// refused, nothing is changed.
    pub fn extend(&mut self, from: u64, blocks: &Vec<Block>) -> (r: Result<(), BlockchainError>)
        requires
            old(self).cfg().valid(),
        ensures
            final(self).cfg() == old(self).cfg(),
            r is Err ==> final(self).store() == old(self).store(),
            match rollback::extend_base::<P>(old(self).store(), from) {
                Err(e) => r == Err::<(), _>(e),
                Ok(base) => match r {
                    Ok(_) => rollback::blocks_applied::<P>(
                        old(self).cfg(),
                        base,
                        blocks.deep_view(),
                        blocks.deep_view().len(),
                        final(self).store(),
                    ),
                    Err(e) => rollback::blocks_refused::<P>(
                        old(self).cfg(),
                        base,
                        blocks.deep_view(),
                        e,
                    ),
                },
            },
    {
        let ops = rollback::extend_ops::<K, P>(&self.config, &self.database, from, blocks)?;
        self.database.update(&ops);
        Ok(())
    }

    /// Applies the state patches of a peer to the outdated contracts.
    pub fn update_states(&mut self, patch: &ZkBlockchainPatch) -> (r: Result<(), BlockchainError>)
        ensures
            final(self).cfg() == old(self).cfg(),
            match sync::update_states_step::<P>(old(self).store(), patch.deep_view()) {
                Ok(after) => r is Ok && final(self).store() == after,
                Err(e) => r == Err::<(), _>(e) && final(self).store() == old(self).store(),
            },
    {
        let ops = sync::update_states_ops::<K, P>(&self.database, patch)?;
        self.database.update(&ops);
        Ok(())
    }

    /// The patches that a peer asks for, who is at the tip with hash `to`
    /// and whose state trees are at `heights`.
    pub fn generate_state_patch(&self, heights: Vec<(ContractId, u64)>, to: [u8; 32]) -> (r:
        Result<ZkBlockchainPatch, BlockchainError>)
        ensures
            match r {
                Ok(patch) => sync::state_patch_of::<P>(self.store(), heights@, to) == Ok::<
                    _,
                    BlockchainError,
                >(patch.deep_view()),
                Err(e) => sync::state_patch_of::<P>(self.store(), heights@, to) == Err::<
                    Seq<(ContractId, ZkStatePatchView)>,
                    _,
                >(e),
            },
    {
        sync::generate_state_patch::<K, P>(&self.database, &heights, &to)
    }

    /// The transactions of a pool to put in the next block.
    pub fn select_transactions(
        &self,
        txs: &Vec<(TransactionAndDelta, TransactionStats)>,
        check: bool,
    ) -> (r: Result<Vec<TransactionAndDelta>, BlockchainError>)
        ensures
            r is Ok,
            r.unwrap().deep_view() == mempool::select_of::<P>(
                self.cfg(),
                self.store(),
                txs.deep_view(),
                check,
            ),
    {
        Ok(mempool::select_transactions::<K, P>(&self.config, &self.database, txs, check))
    }

    /// Drafts the next block from a pool of pending transactions, paying the
    /// reward to the wallet. Answers nothing if the pool does not yet hold
    /// enough updates of the payment network's contract.
    pub fn draft_block(
        &self,
        timestamp: u32,
        mempool: &Vec<(TransactionAndDelta, TransactionStats)>,
        wallet: &Wallet,
        check: bool,
    ) -> (r: Result<Option<BlockAndPatch>, BlockchainError>)
        requires
            self.cfg().valid(),
        ensures
            mempool::is_draft_result::<P>(
                self.cfg(),
                self.store(),
                timestamp,
                mempool.deep_view(),
                wallet.address,
                check,
                r,
            ),
    {
        mempool::draft_block::<K, P>(
            &self.config,
            &self.database,
            timestamp,
            mempool,
            wallet.get_address(),
            check,
        )
    }

    /// Whether a transaction can be executed now.
    pub fn validate_transaction(&self, tx_delta: &TransactionAndDelta) -> (r: Result<
        (),
        BlockchainError,
    >)
        ensures
            match tx::tx_step::<P>(self.cfg(), self.store(), tx_delta.deep_view().tx, false) {
                Ok(_) => r is Ok,
                Err(e) => r == Err::<(), _>(e),
            },
    {
        tx::transaction_ops::<K, P>(&self.config, &self.database, &tx_delta.tx, false)?;
        Ok(())
    }

    /// Whether a contract payment can be executed now.
    pub fn validate_contract_payment(&self, tx: &ContractPayment) -> (r: Result<
        (),
        BlockchainError,
    >)
        ensures
            match tx::payment_step::<P>(self.cfg(), self.store(), *tx) {
                Ok(_) => r is Ok,
                Err(e) => r == Err::<(), _>(e),
            },
    {
        tx::contract_payment_ops::<K, P>(&self.config, &self.database, tx)?;
        Ok(())
    }

    /// Whether a transfer inside the payment network can be executed now.
    pub fn validate_zero_transaction(&self, tx: &ZeroTransaction) -> (r: Result<
        (),
        BlockchainError,
    >)
        ensures
            match tx::zero_tx_step::<P>(self.cfg(), self.store(), *tx) {
                Ok(_) => r is Ok,
                Err(e) => r == Err::<(), _>(e),
            },
    {
        tx::zero_tx_ops::<K, P>(&self.config, &self.database, tx)?;
        Ok(())
    }

    /// Drops from a pool the transactions that cannot be executed, each
    /// after those kept before it. The chain is not changed.
    pub fn cleanup_mempool(&self, mempool: &mut Vec<(TransactionAndDelta, TransactionStats)>) -> (r:
        Result<(), BlockchainError>)
        ensures
            r is Ok,
            final(mempool).deep_view() == mempool::cleanup_fold::<P>(
                self.cfg(),
                self.store(),
                old(mempool).deep_view(),
                old(mempool).deep_view().len(),
            ).1,
    {
        mempool::cleanup_mempool::<K, P>(&self.config, &self.database, mempool);
        Ok(())
    }

    /// Drops from a pool the contract payments that cannot be executed, each
    /// after those kept before it. The chain is not changed.
    pub fn cleanup_contract_payment_mempool(
        &self,
        mempool: &mut Vec<(ContractPayment, TransactionStats)>,
    ) -> (r: Result<(), BlockchainError>)
        ensures
            r is Ok,
            final(mempool)@ == mempool::cleanup_payments_fold::<P>(
                self.cfg(),
                self.store(),
                old(mempool)@,
                old(mempool)@.len(),
            ).1,
    {
        mempool::cleanup_contract_payment_mempool::<K, P>(&self.config, &self.database, mempool);
        Ok(())
    }

    /// Drops from a pool the transfers inside the payment network that
    /// cannot be executed, each after those kept before it. The chain is not
    /// changed.
    pub fn cleanup_zero_mempool(&self, mempool: &mut Vec<(ZeroTransaction, TransactionStats)>) -> (r:
        Result<(), BlockchainError>)
        ensures
            r is Ok,
            final(mempool)@ == mempool::cleanup_zero_fold::<P>(
                self.cfg(),
                self.store(),
                old(mempool)@,
                old(mempool)@.len(),
            ).1,
    {
        mempool::cleanup_zero_mempool::<K, P>(&self.config, &self.database, mempool);
        Ok(())
    }
}

} // verus!
