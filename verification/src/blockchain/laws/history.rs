//! The history of contract states: for every contract that a block touches,
//! the state summary recorded for the contract's height is the contract's
//! state summary.
use crate::blockchain::block::{
    block_entry, change_index, is_block_result, ordinary_txs, record_change, txs_fold, BlockState,
};
use crate::blockchain::model::{
    account_of, changed_states_of, contract_account_of, contract_of, outdated_of, Config,
};
use crate::blockchain::tx::{
    payment_step, payments_fold, tx_step, update_step, updates_fold, PaymentsState, UpdateState,
};
use crate::blockchain::{BlockchainError, Primitives, TxSideEffect, ZkCompressedStateChange};
use crate::db::{Key, StoreView, ValueView};
use crate::types::{
    Address, BlockView, ContractId, ContractPayment, ContractUpdateView, TransactionDataView,
    TransactionView,
};
use crate::zk::{ZkCompressedState, ZkContractView};
use vstd::prelude::*;

verus! {

/// The state summary and the height of a contract, if the store holds its
/// account.
pub open spec fn summary_of(s: StoreView, contract_id: ContractId) -> Option<
    (ZkCompressedState, u64),
> {
    match s.get(Key::ContractAccount(contract_id)) {
        Some(ValueView::ContractAccount(account)) => Some(
            (account.compressed_state, account.height),
        ),
        _ => None,
    }
}

/// Whether the state summary recorded for the contract's height is the
/// contract's state summary.
pub open spec fn history_kept(s: StoreView, contract_id: ContractId) -> bool {
    summary_of(s, contract_id) matches Some((state, height)) && s.get(
        Key::CompressedStateAt(contract_id, height),
    ) == Some(ValueView::CompressedState(state))
}

/// Whether two stores hold the same of a contract's state: its summary, its
/// height, and the summaries recorded for it.
pub open spec fn same_states(s: StoreView, t: StoreView, contract_id: ContractId) -> bool {
    &&& summary_of(s, contract_id) == summary_of(t, contract_id)
    &&& forall|height: u64| #[trigger]
        s.get(Key::CompressedStateAt(contract_id, height)) == t.get(
            Key::CompressedStateAt(contract_id, height),
        )
}

/// A payment batch changes the state of no contract.
pub proof fn lemma_payments_states<P: Primitives>(
    cfg: Config,
    start: PaymentsState,
    src: Address,
    payments: Seq<ContractPayment>,
    n: nat,
    contract_id: ContractId,
)
    requires
        n <= payments.len(),
        payments_fold::<P>(cfg, start, src, payments, n) is Ok,
    ensures
        same_states(
            start.store,
            payments_fold::<P>(cfg, start, src, payments, n).unwrap().store,
            contract_id,
        ),
    decreases n,
{
    if n > 0 {
        lemma_payments_states::<P>(cfg, start, src, payments, (n - 1) as nat, contract_id);
        let st = payments_fold::<P>(cfg, start, src, payments, (n - 1) as nat).unwrap();
        let after = payment_step::<P>(cfg, st.store, payments[n - 1]).unwrap();
        assert(same_states(st.store, after, contract_id));
    }
}

/// An update of a contract changes the state of no other contract.
pub proof fn lemma_update_states<P: Primitives>(
    cfg: Config,
    src: Address,
    updated: ContractId,
    contract: ZkContractView,
    st: UpdateState,
    update: ContractUpdateView,
    contract_id: ContractId,
)
    requires
        contract_id != updated,
        update_step::<P>(cfg, src, updated, contract, st, update) is Ok,
    ensures
        same_states(
            st.store,
            update_step::<P>(cfg, src, updated, contract, st, update).unwrap().store,
            contract_id,
        ),
{
    match update {
        ContractUpdateView::Payment { payments, .. } => {
            let start = PaymentsState { store: st.store, fee: st.fee, slots: Seq::empty() };
            lemma_payments_states::<P>(cfg, start, src, payments, payments.len(), contract_id);
            let paid = payments_fold::<P>(cfg, start, src, payments, payments.len()).unwrap();
            let done = update_step::<P>(cfg, src, updated, contract, st, update).unwrap();
            assert(same_states(paid.store, done.store, contract_id));
        },
        ContractUpdateView::FunctionCall { .. } => {},
    }
}

/// The updates of a transaction change the state of no other contract.
pub proof fn lemma_updates_states<P: Primitives>(
    cfg: Config,
    src: Address,
    updated: ContractId,
    contract: ZkContractView,
    start: UpdateState,
    updates: Seq<ContractUpdateView>,
    n: nat,
    contract_id: ContractId,
)
    requires
        contract_id != updated,
        n <= updates.len(),
        updates_fold::<P>(cfg, src, updated, contract, start, updates, n) is Ok,
    ensures
        same_states(
            start.store,
            updates_fold::<P>(cfg, src, updated, contract, start, updates, n).unwrap().store,
            contract_id,
        ),
    decreases n,
{
    if n > 0 {
        lemma_updates_states::<P>(
            cfg,
            src,
            updated,
            contract,
            start,
            updates,
            (n - 1) as nat,
            contract_id,
        );
        let st = updates_fold::<P>(cfg, src, updated, contract, start, updates, (n - 1) as nat).unwrap();
        lemma_update_states::<P>(cfg, src, updated, contract, st, updates[n - 1], contract_id);
    }
}

/// A transaction changes the state of no contract but the one that its side
/// effect names.
pub proof fn lemma_tx_states<P: Primitives>(
    cfg: Config,
    s: StoreView,
    tx: TransactionView,
    allow_treasury: bool,
    contract_id: ContractId,
)
    requires
        tx_step::<P>(cfg, s, tx, allow_treasury) is Ok,
        !(tx_step::<P>(cfg, s, tx, allow_treasury).unwrap().1 matches TxSideEffect::StateChange {
            contract_id: touched,
            ..
        } && touched == contract_id),
    ensures
        same_states(s, tx_step::<P>(cfg, s, tx, allow_treasury).unwrap().0, contract_id),
{
    match tx.data {
        TransactionDataView::UpdateContract { contract_id: updated, updates } => {
            assert(updated != contract_id);
            let sender = account_of(cfg, s, tx.src).unwrap();
            let contract = contract_of(s, updated).unwrap();
            let prev = contract_account_of(s, updated).unwrap();
            let start = UpdateState {
                store: s.insert(
                    Key::ContractAccount(updated),
                    ValueView::ContractAccount(
                        crate::types::ContractAccount { height: (prev.height + 1) as u64, ..prev },
                    ),
                ),
                fee: 0,
                balance: (sender.balance - tx.fee) as u64,
            };
            lemma_updates_states::<P>(
                cfg,
                tx.src,
                updated,
                contract,
                start,
                updates,
                updates.len(),
                contract_id,
            );
            let done = updates_fold::<P>(
                cfg,
                tx.src,
                updated,
                contract,
                start,
                updates,
                updates.len(),
            ).unwrap();
            let after = tx_step::<P>(cfg, s, tx, allow_treasury).unwrap().0;
            assert(same_states(s, start.store, contract_id));
            assert(same_states(done.store, after, contract_id));
            assert forall|height: u64| #[trigger]
                s.get(Key::CompressedStateAt(contract_id, height)) == after.get(
                    Key::CompressedStateAt(contract_id, height),
                ) by {
                assert(s.get(Key::CompressedStateAt(contract_id, height)) == start.store.get(
                    Key::CompressedStateAt(contract_id, height),
                ));
                assert(start.store.get(Key::CompressedStateAt(contract_id, height))
                    == done.store.get(Key::CompressedStateAt(contract_id, height)));
                assert(done.store.get(Key::CompressedStateAt(contract_id, height)) == after.get(
                    Key::CompressedStateAt(contract_id, height),
                ));
            }
        },
        _ => {},
    }
}

/// Whether `changes` has an entry for `contract_id`.
pub open spec fn is_touched(
    changes: Seq<(ContractId, ZkCompressedStateChange)>,
    contract_id: ContractId,
) -> bool {
    exists|i: int| 0 <= i < changes.len() && (#[trigger] changes[i]).0 == contract_id
}

/// A contract with an entry has a first entry.
pub proof fn lemma_first_index(
    changes: Seq<(ContractId, ZkCompressedStateChange)>,
    contract_id: ContractId,
    n: int,
)
    requires
        0 <= n < changes.len(),
        changes[n].0 == contract_id,
    ensures
        change_index(changes, contract_id) matches Some(i) && 0 <= i < changes.len()
            && changes[i].0 == contract_id,
    decreases n,
{
    if exists|j: int| 0 <= j < n && changes[j].0 == contract_id {
        let j = choose|j: int| 0 <= j < n && changes[j].0 == contract_id;
        lemma_first_index(changes, contract_id, j);
    } else {
        assert(0 <= n < changes.len() && changes[n].0 == contract_id && forall|j: int|
            0 <= j < n ==> changes[j].0 != contract_id);
    }
}

/// Recording a change touches the contract of the change and no other that
/// was not touched.
pub proof fn lemma_record_touched(
    changes: Seq<(ContractId, ZkCompressedStateChange)>,
    touched: ContractId,
    change: ZkCompressedStateChange,
    contract_id: ContractId,
)
    ensures
        is_touched(record_change(changes, touched, change), contract_id) <==> is_touched(
            changes,
            contract_id,
        ) || contract_id == touched,
{
    let after = record_change(changes, touched, change);
    match change_index(changes, touched) {
        Some(i) => {
            let any = choose|any: int| 0 <= any < changes.len() && changes[any].0 == touched;
            lemma_first_index(changes, touched, any);
            assert(0 <= i < changes.len() && changes[i].0 == touched);
            assert(after[i].0 == touched);
            if is_touched(changes, contract_id) {
                let j = choose|j: int| 0 <= j < changes.len() && (#[trigger] changes[j]).0
                    == contract_id;
                assert(after[j].0 == contract_id);
            }
            if is_touched(after, contract_id) {
                let j = choose|j: int| 0 <= j < after.len() && (#[trigger] after[j]).0
                    == contract_id;
                if j != i {
                    assert(changes[j].0 == contract_id);
                }
            }
        },
        None => {
            assert(after[changes.len() as int].0 == touched);
            if is_touched(changes, contract_id) {
                let j = choose|j: int| 0 <= j < changes.len() && (#[trigger] changes[j]).0
                    == contract_id;
                assert(after[j].0 == contract_id);
            }
            if is_touched(after, contract_id) {
                let j = choose|j: int| 0 <= j < after.len() && (#[trigger] after[j]).0
                    == contract_id;
                if j < changes.len() {
                    assert(changes[j].0 == contract_id);
                }
            }
        },
    }
}

/// While the transactions of a block are executed, the history of every
/// contract touched so far is kept.
pub proof fn lemma_txs_history<P: Primitives>(
    cfg: Config,
    is_genesis: bool,
    start: BlockState,
    txs: Seq<TransactionView>,
    n: nat,
    contract_id: ContractId,
)
    requires
        n <= txs.len(),
        start.updates.len() == 0,
        txs_fold::<P>(cfg, is_genesis, start, txs, n) is Ok,
        is_touched(txs_fold::<P>(cfg, is_genesis, start, txs, n).unwrap().updates, contract_id),
    ensures
        history_kept(txs_fold::<P>(cfg, is_genesis, start, txs, n).unwrap().store, contract_id),
    decreases n,
{
    if n > 0 {
        let st = txs_fold::<P>(cfg, is_genesis, start, txs, (n - 1) as nat).unwrap();
        let done = txs_fold::<P>(cfg, is_genesis, start, txs, n).unwrap();
        let (after, effect) = tx_step::<P>(cfg, st.store, txs[n - 1], is_genesis).unwrap();
        if effect matches TxSideEffect::StateChange { contract_id: touched, state_change }
            && touched == contract_id {
            crate::blockchain::laws::lemma_state_history::<P>(cfg, st.store, txs[n - 1], is_genesis);
        } else {
            match effect {
                TxSideEffect::StateChange { contract_id: touched, state_change } => {
                    lemma_record_touched(st.updates, touched, state_change, contract_id);
                },
                TxSideEffect::Nothing => {},
            }
            lemma_txs_history::<P>(cfg, is_genesis, start, txs, (n - 1) as nat, contract_id);
            lemma_tx_states::<P>(cfg, st.store, txs[n - 1], is_genesis, contract_id);
            let height = summary_of(st.store, contract_id).unwrap().1;
            assert(st.store.get(Key::CompressedStateAt(contract_id, height)) == after.get(
                Key::CompressedStateAt(contract_id, height),
            ));
        }
    }
}

/// Contract-state history: after a block is applied, for every contract
/// that the block touched, the state summary recorded for the contract's
/// height is the contract's state summary.
pub proof fn lemma_block_history<P: Primitives>(
    cfg: Config,
    s: StoreView,
    block: BlockView,
    check_pow: bool,
    after: StoreView,
    contract_id: ContractId,
)
    requires
        is_block_result::<P>(cfg, s, block, check_pow, after),
        changed_states_of(after) matches Ok(changes) && is_touched(changes, contract_id),
    ensures
        history_kept(after, contract_id),
{
    let entered = block_entry::<P>(cfg, s, block, check_pow).unwrap();
    let txs = ordinary_txs(block);
    let start = BlockState {
        store: entered,
        body_size: 0,
        delta: 0,
        updates: Seq::empty(),
        outdated: outdated_of(s).unwrap(),
        calls: 0,
        payments: 0,
    };
    let done = txs_fold::<P>(cfg, block.header.number == 0, start, txs, txs.len()).unwrap();
    assert(changed_states_of(after) == Ok::<_, BlockchainError>(done.updates));
    lemma_txs_history::<P>(cfg, block.header.number == 0, start, txs, txs.len(), contract_id);
}


/// The state that an update leads to.
pub open spec fn next_state_of(update: ContractUpdateView) -> ZkCompressedState {
    match update {
        ContractUpdateView::Payment { next_state, .. } => next_state,
        ContractUpdateView::FunctionCall { next_state, .. } => next_state,
    }
}

/// An update of a contract makes the state that it leads to the contract's
/// state summary, and leaves the contract's height.
pub proof fn lemma_update_summary<P: Primitives>(
    cfg: Config,
    src: Address,
    updated: ContractId,
    contract: ZkContractView,
    st: UpdateState,
    update: ContractUpdateView,
)
    requires
        update_step::<P>(cfg, src, updated, contract, st, update) is Ok,
    ensures
        summary_of(st.store, updated) matches Some((_, height)) && summary_of(
            update_step::<P>(cfg, src, updated, contract, st, update).unwrap().store,
            updated,
        ) == Some((next_state_of(update), height)),
{
    match update {
        ContractUpdateView::Payment { payments, .. } => {
            let start = PaymentsState { store: st.store, fee: st.fee, slots: Seq::empty() };
            lemma_payments_states::<P>(cfg, start, src, payments, payments.len(), updated);
        },
        ContractUpdateView::FunctionCall { .. } => {},
    }
}

/// The updates of a transaction leave the contract's height, and make the
/// state that the last of them leads to the contract's state summary.
pub proof fn lemma_updates_summary<P: Primitives>(
    cfg: Config,
    src: Address,
    updated: ContractId,
    contract: ZkContractView,
    start: UpdateState,
    updates: Seq<ContractUpdateView>,
    n: nat,
)
    requires
        n <= updates.len(),
        summary_of(start.store, updated) is Some,
        updates_fold::<P>(cfg, src, updated, contract, start, updates, n) is Ok,
    ensures
        ({
            let before = summary_of(start.store, updated).unwrap();
            let after = summary_of(
                updates_fold::<P>(cfg, src, updated, contract, start, updates, n).unwrap().store,
                updated,
            );
            after == Some(
                (
                    if n == 0 {
                        before.0
                    } else {
                        next_state_of(updates[n - 1])
                    },
                    before.1,
                ),
            )
        }),
    decreases n,
{
    if n > 0 {
        lemma_updates_summary::<P>(cfg, src, updated, contract, start, updates, (n - 1) as nat);
        let st = updates_fold::<P>(cfg, src, updated, contract, start, updates, (n - 1) as nat).unwrap();
        lemma_update_summary::<P>(cfg, src, updated, contract, st, updates[n - 1]);
    }
}

/// A transaction that updates a contract raises the contract's height by
/// exactly one, whatever the number of its updates, and leaves the contract
/// at the state that its last update leads to.
pub proof fn lemma_update_transaction<P: Primitives>(
    cfg: Config,
    s: StoreView,
    tx: TransactionView,
    allow_treasury: bool,
)
    requires
        tx_step::<P>(cfg, s, tx, allow_treasury) is Ok,
        tx.data is UpdateContract,
    ensures
        ({
            let contract_id = tx.data->UpdateContract_contract_id;
            let updates = tx.data->updates;
            let after = tx_step::<P>(cfg, s, tx, allow_treasury).unwrap().0;
            &&& contract_account_of(s, contract_id) matches Ok(before)
            &&& contract_account_of(after, contract_id) matches Ok(account)
            &&& account.height == before.height + 1
            &&& account.compressed_state == if updates.len() == 0 {
                before.compressed_state
            } else {
                next_state_of(updates.last())
            }
        }),
{
    let contract_id = tx.data->UpdateContract_contract_id;
    let updates = tx.data->updates;
    let sender = account_of(cfg, s, tx.src).unwrap();
    let contract = contract_of(s, contract_id).unwrap();
    let prev = contract_account_of(s, contract_id).unwrap();
    let start = UpdateState {
        store: s.insert(
            Key::ContractAccount(contract_id),
            ValueView::ContractAccount(
                crate::types::ContractAccount { height: (prev.height + 1) as u64, ..prev },
            ),
        ),
        fee: 0,
        balance: (sender.balance - tx.fee) as u64,
    };
    lemma_updates_summary::<P>(cfg, tx.src, contract_id, contract, start, updates, updates.len());
}


/// Whether the store records a state summary for every height of the
/// contract, from 1 to its height.
pub open spec fn history_complete(s: StoreView, contract_id: ContractId) -> bool {
    summary_of(s, contract_id) matches Some((_, top)) && forall|height: u64|
        1 <= height <= top ==> (#[trigger] s.get(Key::CompressedStateAt(contract_id, height)))
            matches Some(ValueView::CompressedState(_))
}

/// Whether two stores record the same state summaries for a contract.
pub open spec fn same_records(s: StoreView, t: StoreView, contract_id: ContractId) -> bool {
    forall|height: u64| #[trigger]
        s.get(Key::CompressedStateAt(contract_id, height)) == t.get(
            Key::CompressedStateAt(contract_id, height),
        )
}

/// The updates of a transaction change no recorded state summary.
pub proof fn lemma_updates_records<P: Primitives>(
    cfg: Config,
    src: Address,
    updated: ContractId,
    contract: ZkContractView,
    start: UpdateState,
    updates: Seq<ContractUpdateView>,
    n: nat,
    contract_id: ContractId,
)
    requires
        n <= updates.len(),
        updates_fold::<P>(cfg, src, updated, contract, start, updates, n) is Ok,
    ensures
        same_records(
            start.store,
            updates_fold::<P>(cfg, src, updated, contract, start, updates, n).unwrap().store,
            contract_id,
        ),
    decreases n,
{
    if n > 0 {
        lemma_updates_records::<P>(
            cfg,
            src,
            updated,
            contract,
            start,
            updates,
            (n - 1) as nat,
            contract_id,
        );
        let st = updates_fold::<P>(cfg, src, updated, contract, start, updates, (n - 1) as nat).unwrap();
        let done = update_step::<P>(cfg, src, updated, contract, st, updates[n - 1]).unwrap();
        match updates[n - 1] {
            ContractUpdateView::Payment { payments, .. } => {
                let first = PaymentsState { store: st.store, fee: st.fee, slots: Seq::empty() };
                lemma_payments_states::<P>(cfg, first, src, payments, payments.len(), contract_id);
                let paid = payments_fold::<P>(cfg, first, src, payments, payments.len()).unwrap();
                assert(same_records(paid.store, done.store, contract_id));
            },
            ContractUpdateView::FunctionCall { .. } => {
                assert(same_records(st.store, done.store, contract_id));
            },
        }
        assert forall|height: u64| #[trigger]
            start.store.get(Key::CompressedStateAt(contract_id, height)) == done.store.get(
                Key::CompressedStateAt(contract_id, height),
            ) by {
            assert(start.store.get(Key::CompressedStateAt(contract_id, height)) == st.store.get(
                Key::CompressedStateAt(contract_id, height),
            ));
        }
    }
}

/// A complete history is complete in every store that holds the same of the
/// contract's state.
pub proof fn lemma_complete_same(s: StoreView, t: StoreView, contract_id: ContractId)
    requires
        same_states(s, t, contract_id),
        history_complete(s, contract_id),
    ensures
        history_complete(t, contract_id),
{
    let top = summary_of(s, contract_id).unwrap().1;
    assert forall|height: u64| 1 <= height <= top implies (#[trigger] t.get(
        Key::CompressedStateAt(contract_id, height),
    )) matches Some(ValueView::CompressedState(_)) by {
        assert(s.get(Key::CompressedStateAt(contract_id, height)) == t.get(
            Key::CompressedStateAt(contract_id, height),
        ));
    }
}

/// The history of contract states stays complete: a transaction leaves a
/// recorded state summary for every height of every contract that had one
/// for every height before, and of the contract that it creates.
pub proof fn lemma_history_complete<P: Primitives>(
    cfg: Config,
    s: StoreView,
    tx: TransactionView,
    allow_treasury: bool,
    contract_id: ContractId,
)
    requires
        tx_step::<P>(cfg, s, tx, allow_treasury) is Ok,
        history_complete(s, contract_id) || (tx.data is CreateContract && contract_id
            == ContractId(P::spec_transaction_digest(tx))),
    ensures
        history_complete(tx_step::<P>(cfg, s, tx, allow_treasury).unwrap().0, contract_id),
{
    let (after, effect) = tx_step::<P>(cfg, s, tx, allow_treasury).unwrap();
    match tx.data {
        TransactionDataView::UpdateContract { contract_id: updated, updates } => {
            if updated == contract_id {
                let sender = account_of(cfg, s, tx.src).unwrap();
                let contract = contract_of(s, updated).unwrap();
                let prev = contract_account_of(s, updated).unwrap();
                let start = UpdateState {
                    store: s.insert(
                        Key::ContractAccount(updated),
                        ValueView::ContractAccount(
                            crate::types::ContractAccount {
                                height: (prev.height + 1) as u64,
                                ..prev
                            },
                        ),
                    ),
                    fee: 0,
                    balance: (sender.balance - tx.fee) as u64,
                };
                lemma_updates_records::<P>(
                    cfg,
                    tx.src,
                    updated,
                    contract,
                    start,
                    updates,
                    updates.len(),
                    contract_id,
                );
                lemma_update_transaction::<P>(cfg, s, tx, allow_treasury);
                let done = updates_fold::<P>(
                    cfg,
                    tx.src,
                    updated,
                    contract,
                    start,
                    updates,
                    updates.len(),
                ).unwrap();
                assert forall|height: u64| 1 <= height <= prev.height + 1 implies (#[trigger] after.get(
                    Key::CompressedStateAt(contract_id, height),
                )) matches Some(ValueView::CompressedState(_)) by {
                    if height <= prev.height {
                        assert(s.get(Key::CompressedStateAt(contract_id, height))
                            == start.store.get(Key::CompressedStateAt(contract_id, height)));
                        assert(start.store.get(Key::CompressedStateAt(contract_id, height))
                            == done.store.get(Key::CompressedStateAt(contract_id, height)));
                    }
                }
            } else {
                lemma_tx_states::<P>(cfg, s, tx, allow_treasury, contract_id);
                lemma_complete_same(s, after, contract_id);
            }
        },
        TransactionDataView::CreateContract { .. } => {
            if contract_id != ContractId(P::spec_transaction_digest(tx)) {
                lemma_tx_states::<P>(cfg, s, tx, allow_treasury, contract_id);
                lemma_complete_same(s, after, contract_id);
            }
        },
        TransactionDataView::RegularSend { .. } => {
            lemma_tx_states::<P>(cfg, s, tx, allow_treasury, contract_id);
            lemma_complete_same(s, after, contract_id);
        },
    }
}

} // verus!
