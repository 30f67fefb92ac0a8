//! The interface that a node has to a chain.
use crate::blockchain::{
    fork_choice, mempool, model, rollback, sync, tx, BlockAndPatch, BlockchainConfig,
    BlockchainError, KvStoreChain, Primitives, TransactionStats, ZkBlockchainPatch,
};
use crate::db::KvStore;
use crate::types::{
    Account, Address, Block, BlockView, ContractAccount, ContractId, ContractPayment, Header,
    Money, TransactionAndDelta,
};
use crate::wallet::Wallet;
use crate::zk::{MpnAccount, ZeroTransaction, ZkContract, ZkDataLocator, ZkScalar, ZkStatePatchView};
use vstd::prelude::*;

verus! {

/// A chain, as a node sees it.
///
/// The trait fixes what a node may call. What each call returns and changes
/// is stated where the trait is implemented.
pub trait Blockchain {
    /// Whether the chain's parameters are valid.
    spec fn valid(&self) -> bool;

    fn config(&self) -> &BlockchainConfig;

    fn cleanup_mempool(
        &self,
        mempool: &mut Vec<(TransactionAndDelta, TransactionStats)>,
    ) -> Result<(), BlockchainError>;

    fn cleanup_contract_payment_mempool(
        &self,
        mempool: &mut Vec<(ContractPayment, TransactionStats)>,
    ) -> Result<(), BlockchainError>;

    fn cleanup_zero_mempool(
        &self,
        mempool: &mut Vec<(ZeroTransaction, TransactionStats)>,
    ) -> Result<(), BlockchainError>;

    fn validate_zero_transaction(&self, tx: &ZeroTransaction) -> Result<(), BlockchainError>;

    fn validate_contract_payment(&self, tx: &ContractPayment) -> Result<(), BlockchainError>;

    fn validate_transaction(&self, tx_delta: &TransactionAndDelta) -> Result<(), BlockchainError>;

    fn get_account(&self, addr: Address) -> Result<Account, BlockchainError>;

    fn get_mpn_account(&self, index: u32) -> Result<MpnAccount, BlockchainError>;

    fn get_mpn_accounts(&self, page: usize, page_size: usize) -> Result<
        Vec<(u32, MpnAccount)>,
        BlockchainError,
    >;

    fn get_contract_account(&self, contract_id: ContractId) -> Result<
        ContractAccount,
        BlockchainError,
    >;

    fn read_state(&self, contract_id: ContractId, locator: ZkDataLocator) -> Result<
        ZkScalar,
        BlockchainError,
    >;

    fn next_reward(&self) -> Result<Money, BlockchainError>
        requires
            self.valid(),
    ;

    fn will_extend(&self, from: u64, headers: &Vec<Header>, check_pow: bool) -> Result<
        bool,
        BlockchainError,
    >
        requires
            self.valid(),
    ;

    fn extend(&mut self, from: u64, blocks: &Vec<Block>) -> (r: Result<(), BlockchainError>)
        requires
            old(self).valid(),
        ensures
            final(self).valid(),
    ;

    fn rollback(&mut self) -> (r: Result<(), BlockchainError>)
        ensures
            final(self).valid() == old(self).valid(),
    ;

    fn draft_block(
        &self,
        timestamp: u32,
        mempool: &Vec<(TransactionAndDelta, TransactionStats)>,
        wallet: &Wallet,
        check: bool,
    ) -> Result<Option<BlockAndPatch>, BlockchainError>
        requires
            self.valid(),
    ;

    fn get_height(&self) -> Result<u64, BlockchainError>;

    fn get_tip(&self) -> Result<Header, BlockchainError>;

    fn get_headers(&self, since: u64, count: u64) -> Result<Vec<Header>, BlockchainError>;

    fn get_blocks(&self, since: u64, count: u64) -> Result<Vec<Block>, BlockchainError>;

    fn get_header(&self, index: u64) -> Result<Header, BlockchainError>;

    fn get_block(&self, index: u64) -> Result<Block, BlockchainError>;

    fn get_power(&self) -> Result<u128, BlockchainError>;

    fn pow_key(&self, index: u64) -> Result<Vec<u8>, BlockchainError>
        requires
            self.valid(),
    ;

    fn get_contract(&self, contract_id: ContractId) -> Result<ZkContract, BlockchainError>;

    fn get_outdated_contracts(&self) -> Result<Vec<ContractId>, BlockchainError>;

    fn get_outdated_heights(&self) -> Result<Vec<(ContractId, u64)>, BlockchainError>;

    fn generate_state_patch(&self, heights: Vec<(ContractId, u64)>, to: [u8; 32]) -> Result<
        ZkBlockchainPatch,
        BlockchainError,
    >;

    fn update_states(&mut self, patch: &ZkBlockchainPatch) -> (r: Result<(), BlockchainError>)
        ensures
            final(self).valid() == old(self).valid(),
    ;
}

impl<K: KvStore, P: Primitives> Blockchain for KvStoreChain<K, P> {
    open spec fn valid(&self) -> bool {
        self.cfg().valid()
    }

    fn config(&self) -> (config: &BlockchainConfig)
        ensures
            config.deep_view() == self.cfg(),
    {
        KvStoreChain::config(self)
    }

    fn cleanup_mempool(&self, mempool: &mut Vec<(TransactionAndDelta, TransactionStats)>) -> (r:
        Result<(), BlockchainError>)
        ensures
            r is Ok,
            final(mempool).deep_view() == mempool::cleanup_fold::<P>(
                self.cfg(),
                self.store(),
                old(mempool).deep_view(),
                old(mempool).deep_view().len(),
            ).1,
    {
        KvStoreChain::cleanup_mempool(self, mempool)
    }

    fn cleanup_contract_payment_mempool(
        &self,
        mempool: &mut Vec<(ContractPayment, TransactionStats)>,
    ) -> (r: Result<(), BlockchainError>)
        ensures
            r is Ok,
            final(mempool)@ == mempool::cleanup_payments_fold::<P>(
                self.cfg(),
                self.store(),
                old(mempool)@,
                old(mempool)@.len(),
            ).1,
    {
        KvStoreChain::cleanup_contract_payment_mempool(self, mempool)
    }

    fn cleanup_zero_mempool(&self, mempool: &mut Vec<(ZeroTransaction, TransactionStats)>) -> (r:
        Result<(), BlockchainError>)
        ensures
            r is Ok,
            final(mempool)@ == mempool::cleanup_zero_fold::<P>(
                self.cfg(),
                self.store(),
                old(mempool)@,
                old(mempool)@.len(),
            ).1,
    {
        KvStoreChain::cleanup_zero_mempool(self, mempool)
    }

    fn validate_zero_transaction(&self, tx: &ZeroTransaction) -> (r: Result<
        (),
        BlockchainError,
    >)
        ensures
            match tx::zero_tx_step::<P>(self.cfg(), self.store(), *tx) {
                Ok(_) => r is Ok,
                Err(e) => r == Err::<(), _>(e),
            },
    {
        KvStoreChain::validate_zero_transaction(self, tx)
    }

    fn validate_contract_payment(&self, tx: &ContractPayment) -> (r: Result<
        (),
        BlockchainError,
    >)
        ensures
            match tx::payment_step::<P>(self.cfg(), self.store(), *tx) {
                Ok(_) => r is Ok,
                Err(e) => r == Err::<(), _>(e),
            },
    {
        KvStoreChain::validate_contract_payment(self, tx)
    }

    fn validate_transaction(&self, tx_delta: &TransactionAndDelta) -> (r: Result<
        (),
        BlockchainError,
    >)
        ensures
            match tx::tx_step::<P>(self.cfg(), self.store(), tx_delta.deep_view().tx, false) {
                Ok(_) => r is Ok,
                Err(e) => r == Err::<(), _>(e),
            },
    {
        KvStoreChain::validate_transaction(self, tx_delta)
    }

    fn get_account(&self, addr: Address) -> (r: Result<Account, BlockchainError>)
        ensures
            r == model::account_of(self.cfg(), self.store(), addr),
    {
        KvStoreChain::get_account(self, addr)
    }

    fn get_mpn_account(&self, index: u32) -> (r: Result<MpnAccount, BlockchainError>)
        ensures
            r == match P::spec_get_mpn_account(self.store(), self.cfg().mpn_contract_id, index) {
                Ok(account) => Ok(account),
                Err(e) => Err(BlockchainError::StateManagerError(e)),
            },
    {
        KvStoreChain::get_mpn_account(self, index)
    }

    fn get_mpn_accounts(&self, page: usize, page_size: usize) -> (r: Result<
        Vec<(u32, MpnAccount)>,
        BlockchainError,
    >)
        ensures
            match r {
                Ok(accounts) => P::spec_get_mpn_accounts(
                    self.store(),
                    self.cfg().mpn_contract_id,
                    page,
                    page_size,
                ) == Ok::<_, crate::zk::StateManagerError>(accounts@),
                Err(e) => exists|cause: crate::zk::StateManagerError|
                    e == BlockchainError::StateManagerError(cause) && P::spec_get_mpn_accounts(
                        self.store(),
                        self.cfg().mpn_contract_id,
                        page,
                        page_size,
                    ) == Err::<Seq<(u32, MpnAccount)>, _>(cause),
            },
    {
        KvStoreChain::get_mpn_accounts(self, page, page_size)
    }

    fn get_contract_account(&self, contract_id: ContractId) -> (r: Result<
        ContractAccount,
        BlockchainError,
    >)
        ensures
            r == model::contract_account_of(self.store(), contract_id),
    {
        KvStoreChain::get_contract_account(self, contract_id)
    }

    fn read_state(&self, contract_id: ContractId, locator: ZkDataLocator) -> (r: Result<
        ZkScalar,
        BlockchainError,
    >)
        ensures
            r == match P::spec_get_data(self.store(), contract_id, locator.deep_view()) {
                Ok(value) => Ok(value),
                Err(e) => Err(BlockchainError::StateManagerError(e)),
            },
    {
        KvStoreChain::read_state(self, contract_id, locator)
    }

    fn next_reward(&self) -> (r: Result<Money, BlockchainError>)
        ensures
            r == model::next_reward_of(self.cfg(), self.store()),
    {
        KvStoreChain::next_reward(self)
    }

    fn will_extend(&self, from: u64, headers: &Vec<Header>, check_pow: bool) -> (r: Result<
        bool,
        BlockchainError,
    >)
        ensures
            r == fork_choice::will_extend_of::<P>(
                self.cfg(),
                self.store(),
                from,
                headers@,
                check_pow,
            ),
    {
        KvStoreChain::will_extend(self, from, headers, check_pow)
    }

    fn extend(&mut self, from: u64, blocks: &Vec<Block>) -> (r: Result<(), BlockchainError>)
        ensures
            final(self).cfg() == old(self).cfg(),
            r is Err ==> final(self).store() == old(self).store(),
            match rollback::extend_base::<P>(old(self).store(), from) {
                Err(e) => r == Err::<(), _>(e),
                Ok(base) => match r {
                    Ok(_) => rollback::blocks_applied::<P>(
                        old(self).cfg(),
                        base,
                        blocks.deep_view(),
                        blocks.deep_view().len(),
                        final(self).store(),
                    ),
                    Err(e) => rollback::blocks_refused::<P>(
                        old(self).cfg(),
                        base,
                        blocks.deep_view(),
                        e,
                    ),
                },
            },
    {
        KvStoreChain::extend(self, from, blocks)
    }

    fn rollback(&mut self) -> (r: Result<(), BlockchainError>)
        ensures
            final(self).cfg() == old(self).cfg(),
            match rollback::rollback_step::<P>(old(self).store()) {
                Ok(after) => r is Ok && final(self).store() == after,
                Err(e) => r == Err::<(), _>(e) && final(self).store() == old(self).store(),
            },
    {
        KvStoreChain::rollback(self)
    }

    fn draft_block(
        &self,
        timestamp: u32,
        mempool: &Vec<(TransactionAndDelta, TransactionStats)>,
        wallet: &Wallet,
        check: bool,
    ) -> (r: Result<Option<BlockAndPatch>, BlockchainError>)
        ensures
            mempool::is_draft_result::<P>(
                self.cfg(),
                self.store(),
                timestamp,
                mempool.deep_view(),
                wallet.address,
                check,
                r,
            ),
    {
        KvStoreChain::draft_block(self, timestamp, mempool, wallet, check)
    }

    fn get_height(&self) -> (r: Result<u64, BlockchainError>)
        ensures
            r == model::height_of(self.store()),
    {
        KvStoreChain::get_height(self)
    }

    fn get_tip(&self) -> (r: Result<Header, BlockchainError>)
        ensures
            r == model::tip_of(self.store()),
    {
        KvStoreChain::get_tip(self)
    }

    fn get_headers(&self, since: u64, count: u64) -> (r: Result<Vec<Header>, BlockchainError>)
        ensures
            match r {
                Ok(headers) => model::headers_of(self.store(), since, count) == Ok::<
                    _,
                    BlockchainError,
                >(headers@),
                Err(e) => model::headers_of(self.store(), since, count) == Err::<Seq<Header>, _>(
                    e,
                ),
            },
    {
        KvStoreChain::get_headers(self, since, count)
    }

    fn get_blocks(&self, since: u64, count: u64) -> (r: Result<Vec<Block>, BlockchainError>)
        ensures
            match r {
                Ok(blocks) => model::blocks_of(self.store(), since, count) == Ok::<
                    _,
                    BlockchainError,
                >(blocks.deep_view()),
                Err(e) => model::blocks_of(self.store(), since, count) == Err::<
                    Seq<BlockView>,
                    _,
                >(e),
            },
    {
        KvStoreChain::get_blocks(self, since, count)
    }

    fn get_header(&self, index: u64) -> (r: Result<Header, BlockchainError>)
        ensures
            r == model::header_of(self.store(), index),
    {
        KvStoreChain::get_header(self, index)
    }

    fn get_block(&self, index: u64) -> (r: Result<Block, BlockchainError>)
        ensures
            match r {
                Ok(b) => model::block_of(self.store(), index) == Ok::<_, BlockchainError>(
                    b.deep_view(),
                ),
                Err(e) => model::block_of(self.store(), index) == Err::<BlockView, _>(e),
            },
    {
        KvStoreChain::get_block(self, index)
    }

    fn get_power(&self) -> (r: Result<u128, BlockchainError>)
        ensures
            r == model::power_of(self.store()),
    {
        KvStoreChain::get_power(self)
    }

    fn pow_key(&self, index: u64) -> (r: Result<Vec<u8>, BlockchainError>)
        ensures
            match r {
                Ok(key) => model::pow_key_of::<P>(self.cfg(), self.store(), index) == Ok::<
                    _,
                    BlockchainError,
                >(key@),
                Err(e) => model::pow_key_of::<P>(self.cfg(), self.store(), index) == Err::<
                    Seq<u8>,
                    _,
                >(e),
            },
    {
        KvStoreChain::pow_key(self, index)
    }

    fn get_contract(&self, contract_id: ContractId) -> (r: Result<ZkContract, BlockchainError>)
        ensures
            match r {
                Ok(c) => model::contract_of(self.store(), contract_id) == Ok::<
                    _,
                    BlockchainError,
                >(c.deep_view()),
                Err(e) => model::contract_of(self.store(), contract_id) == Err::<
                    crate::zk::ZkContractView,
                    _,
                >(e),
            },
    {
        KvStoreChain::get_contract(self, contract_id)
    }

    fn get_outdated_contracts(&self) -> (r: Result<Vec<ContractId>, BlockchainError>)
        ensures
            match r {
                Ok(ids) => model::outdated_of(self.store()) == Ok::<_, BlockchainError>(ids@),
                Err(e) => model::outdated_of(self.store()) == Err::<Seq<ContractId>, _>(e),
            },
    {
        KvStoreChain::get_outdated_contracts(self)
    }

    fn get_outdated_heights(&self) -> (r: Result<Vec<(ContractId, u64)>, BlockchainError>)
        ensures
            match r {
                Ok(heights) => sync::outdated_heights_of::<P>(self.store()) == Ok::<
                    _,
                    BlockchainError,
                >(heights@),
                Err(e) => sync::outdated_heights_of::<P>(self.store()) == Err::<
                    Seq<(ContractId, u64)>,
                    _,
                >(e),
            },
    {
        KvStoreChain::get_outdated_heights(self)
    }

    fn generate_state_patch(&self, heights: Vec<(ContractId, u64)>, to: [u8; 32]) -> (r:
        Result<ZkBlockchainPatch, BlockchainError>)
        ensures
            match r {
                Ok(patch) => sync::state_patch_of::<P>(self.store(), heights@, to) == Ok::<
                    _,
                    BlockchainError,
                >(patch.deep_view()),
                Err(e) => sync::state_patch_of::<P>(self.store(), heights@, to) == Err::<
                    Seq<(ContractId, ZkStatePatchView)>,
                    _,
                >(e),
            },
    {
        KvStoreChain::generate_state_patch(self, heights, to)
    }

    fn update_states(&mut self, patch: &ZkBlockchainPatch) -> (r: Result<(), BlockchainError>)
        ensures
            final(self).cfg() == old(self).cfg(),
            match sync::update_states_step::<P>(old(self).store(), patch.deep_view()) {
                Ok(after) => r is Ok && final(self).store() == after,
                Err(e) => r == Err::<(), _>(e) && final(self).store() == old(self).store(),
            },
    {
        KvStoreChain::update_states(self, patch)
    }
}

} // verus!
