//! The money supply across blocks: applying a block of ordinary
//! transactions keeps it, and taking a block back restores it.
use crate::blockchain::block::{
    block_body, block_entry, is_block_result, ordinary_txs, txs_fold, BlockState,
};
use crate::blockchain::laws::lemma_rollback_inverse;
use crate::blockchain::model::{changed_states_of, height_of, outdated_of, Config};
use crate::blockchain::rollback::{rollback_step, undo_changes, undo_log_of, RollbackState};
use crate::blockchain::laws::supply::{lemma_total_manager, lemma_total_same, total_money};
use crate::blockchain::laws::supply_tx::{lemma_tx_supply, surplus_of};

use crate::blockchain::{BlockchainError, Primitives, ZkCompressedStateChange};
use crate::db::{apply_ops, Key, StoreView, WriteOpView};
use crate::types::{Address, BlockView, ContractId, TransactionView};
use vstd::prelude::*;

verus! {

/// Whether a transaction is of the kind that keeps the money supply: it
/// credits its sender nothing beyond the fees, it is not a transaction of
/// the treasury with a fee, and it creates no contract.
pub open spec fn keeps_supply(tx: TransactionView) -> bool {
    &&& surplus_of(tx) == 0
    &&& !(tx.src == Address::Treasury && tx.fee > 0)
    &&& !(tx.data is CreateContract)
}

/// Transactions that keep the money supply keep it together.
pub proof fn lemma_txs_supply<P: Primitives>(
    cfg: Config,
    is_genesis: bool,
    start: BlockState,
    txs: Seq<TransactionView>,
    n: nat,
)
    requires
        start.store.dom().finite(),
        n <= txs.len(),
        forall|i: int| 0 <= i < n ==> keeps_supply(#[trigger] txs[i]),
        txs_fold::<P>(cfg, is_genesis, start, txs, n) is Ok,
    ensures
        txs_fold::<P>(cfg, is_genesis, start, txs, n).unwrap().store.dom().finite(),
        total_money(cfg, txs_fold::<P>(cfg, is_genesis, start, txs, n).unwrap().store)
            == total_money(cfg, start.store),
    decreases n,
{
    if n > 0 {
        lemma_txs_supply::<P>(cfg, is_genesis, start, txs, (n - 1) as nat);
        let st = txs_fold::<P>(cfg, is_genesis, start, txs, (n - 1) as nat).unwrap();
        assert(keeps_supply(txs[n - 1]));
        lemma_tx_supply::<P>(cfg, st.store, txs[n - 1], is_genesis);
    }
}

/// Writing a batch of writes to a finite store leaves a finite store.
pub proof fn lemma_apply_ops_finite(s: StoreView, ops: Seq<WriteOpView>)
    requires
        s.dom().finite(),
    ensures
        apply_ops(s, ops).dom().finite(),
    decreases ops.len(),
{
    if ops.len() > 0 {
        lemma_apply_ops_finite(s, ops.drop_last());
    }
}

/// Conservation: a block whose transactions keep the money supply leaves as
/// much money in the store as there was.
pub proof fn lemma_block_supply<P: Primitives>(
    cfg: Config,
    s: StoreView,
    block: BlockView,
    check_pow: bool,
    after: StoreView,
)
    requires
        s.dom().finite(),
        is_block_result::<P>(cfg, s, block, check_pow, after),
        forall|i: int| 0 <= i < block.body.len() ==> keeps_supply(#[trigger] block.body[i]),
    ensures
        after.dom().finite(),
        total_money(cfg, after) == total_money(cfg, s),
{
    let entered = block_entry::<P>(cfg, s, block, check_pow).unwrap();
    if block.header.number != 0 {
        assert(keeps_supply(block.body[0]));
        lemma_tx_supply::<P>(cfg, s, block.body[0], true);
    }
    let txs = ordinary_txs(block);
    assert forall|i: int| 0 <= i < txs.len() implies keeps_supply(#[trigger] txs[i]) by {
        if block.header.number != 0 {
            assert(txs[i] == block.body[i + 1]);
        }
    }
    let start = BlockState {
        store: entered,
        body_size: 0,
        delta: 0,
        updates: Seq::empty(),
        outdated: outdated_of(s).unwrap(),
        calls: 0,
        payments: 0,
    };
    lemma_txs_supply::<P>(cfg, block.header.number == 0, start, txs, txs.len());
    let done = txs_fold::<P>(cfg, block.header.number == 0, start, txs, txs.len()).unwrap();
    let (recorded, outdated) = block_body::<P>(cfg, s, block, check_pow).unwrap();
    assert(recorded.dom().finite());
    lemma_total_same(cfg, done.store, recorded);
    assert(after.dom().finite());
    lemma_total_same(cfg, recorded, after);
}

/// Taking back the state changes of a block leaves a finite store finite.
pub proof fn lemma_undo_changes_finite<P: Primitives>(
    cfg: Config,
    start: RollbackState,
    changes: Seq<(ContractId, ZkCompressedStateChange)>,
    n: nat,
)
    requires
        start.store.dom().finite(),
        undo_changes::<P>(start, changes, n) is Ok,
    ensures
        undo_changes::<P>(start, changes, n).unwrap().store.dom().finite(),
    decreases n,
{
    if n != 0 && n <= changes.len() {
        lemma_undo_changes_finite::<P>(cfg, start, changes, (n - 1) as nat);
        let st = undo_changes::<P>(start, changes, (n - 1) as nat).unwrap();
        let contract_id = changes[n - 1].0;
        let change = changes[n - 1].1;
        if change.prev_height == 0 {
            lemma_total_manager(cfg, st.store, P::spec_delete_contract(st.store, contract_id).unwrap());
        } else if !st.outdated.contains(contract_id) {
            lemma_total_manager(
                cfg,
                st.store,
                P::spec_rollback_contract(st.store, contract_id).unwrap().1,
            );
        }
    }
}

/// Taking a block back restores the money supply: after a block is applied
/// on top of the chain and taken back, there is as much money in the store
/// as before the block, whatever the block held.
pub proof fn lemma_rollback_supply<P: Primitives>(
    cfg: Config,
    s: StoreView,
    block: BlockView,
    check_pow: bool,
    after: StoreView,
)
    requires
        s.dom().finite(),
        after.dom().finite(),
        is_block_result::<P>(cfg, s, block, check_pow, after),
        height_of(s) == Ok::<_, BlockchainError>(block.header.number),
        rollback_step::<P>(after) is Ok,
    ensures
        total_money(cfg, rollback_step::<P>(after).unwrap()) == total_money(cfg, s),
{
    let back = rollback_step::<P>(after).unwrap();
    assert forall|k: Key| (k is Account || k is ContractAccount) implies back.get(k) == s.get(
        k,
    ) by {
        lemma_rollback_inverse::<P>(cfg, s, block, check_pow, after, k);
    }
    let height = height_of(after).unwrap();
    let undo = undo_log_of(after, (height - 1) as u64).unwrap();
    let listed = outdated_of(after).unwrap();
    let changes = changed_states_of(after).unwrap();
    let start = RollbackState { store: after, outdated: listed };
    lemma_undo_changes_finite::<P>(cfg, start, changes, changes.len());
    let done = undo_changes::<P>(start, changes, changes.len()).unwrap();
    lemma_apply_ops_finite(done.store, undo);
    assert(back.dom().finite());
    lemma_total_same(cfg, back, s);
}

} // verus!
