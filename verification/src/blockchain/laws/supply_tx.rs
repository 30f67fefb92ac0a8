//! How a transaction changes the money supply.
use crate::blockchain::model::{account_of, contract_account_of, contract_of, Config};
use crate::blockchain::laws::supply::{holding, lemma_payment_supply, lemma_total_insert, total_money};
use crate::blockchain::tx::{
    data_step, payments_fold, prove_step, tx_step, update_step, updates_fold, PaymentsState,
    UpdateState,
};
use crate::blockchain::Primitives;
use crate::db::{Key, StoreView, ValueView};
use crate::types::{
    Address, ContractId, ContractPayment, ContractUpdateView, TransactionDataView, TransactionView,
};
use crate::zk::ZkContractView;
use vstd::prelude::*;

verus! {

/// The fees of the first `n` payments of a batch.
pub open spec fn payments_fee(payments: Seq<ContractPayment>, n: nat) -> int
    decreases n,
{
    if n == 0 || n > payments.len() {
        0
    } else {
        payments_fee(payments, (n - 1) as nat) + payments[n - 1].fee
    }
}

/// The fee that an update earns its executor.
pub open spec fn update_fee(update: ContractUpdateView) -> int {
    match update {
        ContractUpdateView::Payment { payments, .. } => payments_fee(payments, payments.len()),
        ContractUpdateView::FunctionCall { fee, .. } => fee as int,
    }
}

/// The fees that the first `n` updates of a transaction earn its executor.
pub open spec fn fees_before(updates: Seq<ContractUpdateView>, n: nat) -> int
    decreases n,
{
    if n == 0 || n > updates.len() {
        0
    } else {
        fees_before(updates, (n - 1) as nat) + update_fee(updates[n - 1])
    }
}

/// What the executor of the first `n` updates of a transaction is credited
/// beyond the fees: after each update the executor is credited all the fees
/// earned so far, so the fees of every update but the last are credited
/// again with every later update.
pub open spec fn surplus(updates: Seq<ContractUpdateView>, n: nat) -> int
    decreases n,
{
    if n == 0 || n > updates.len() {
        0
    } else {
        surplus(updates, (n - 1) as nat) + fees_before(updates, (n - 1) as nat)
    }
}

/// The money in the store of a contract update transaction in progress,
/// with the executor's balance taken from the progress instead of the store.
pub open spec fn money_in_progress(cfg: Config, src: Address, st: UpdateState) -> int {
    total_money(cfg, st.store) - holding(cfg, st.store, Key::Account(src)) + st.balance
}

/// While a payment batch is executed, the money in the store and the fees
/// owed to the executor stay the same together. The executor's account is
/// not touched.
pub proof fn lemma_payments_supply<P: Primitives>(
    cfg: Config,
    start: PaymentsState,
    src: Address,
    payments: Seq<ContractPayment>,
    n: nat,
)
    requires
        start.store.dom().finite(),
        n <= payments.len(),
        payments_fold::<P>(cfg, start, src, payments, n) is Ok,
    ensures
        ({
            let st = payments_fold::<P>(cfg, start, src, payments, n).unwrap();
            &&& st.store.dom().finite()
            &&& total_money(cfg, st.store) + st.fee == total_money(cfg, start.store) + start.fee
            &&& st.fee == start.fee + payments_fee(payments, n)
            &&& st.store.get(Key::Account(src)) == start.store.get(Key::Account(src))
        }),
    decreases n,
{
    if n > 0 {
        lemma_payments_supply::<P>(cfg, start, src, payments, (n - 1) as nat);
        let st = payments_fold::<P>(cfg, start, src, payments, (n - 1) as nat).unwrap();
        lemma_payment_supply::<P>(cfg, st.store, payments[n - 1]);
    }
}

/// Checking the proof of an update credits the executor the fees earned so
/// far.
pub proof fn lemma_prove_supply<P: Primitives>(
    cfg: Config,
    src: Address,
    contract_id: ContractId,
    st: UpdateState,
    key: Seq<u8>,
    aux: crate::zk::ZkCompressedState,
    next_state: crate::zk::ZkCompressedState,
    proof: Seq<u8>,
)
    requires
        st.store.dom().finite(),
        prove_step::<P>(contract_id, st, key, aux, next_state, proof) is Ok,
    ensures
        ({
            let done = prove_step::<P>(contract_id, st, key, aux, next_state, proof).unwrap();
            &&& done.store.dom().finite()
            &&& money_in_progress(cfg, src, done) == money_in_progress(cfg, src, st) + st.fee
            &&& done.fee == st.fee
            &&& done.store.get(Key::Account(src)) == st.store.get(Key::Account(src))
        }),
{
    let done = prove_step::<P>(contract_id, st, key, aux, next_state, proof).unwrap();
    let k = Key::ContractAccount(contract_id);
    lemma_total_insert(cfg, st.store, k, done.store[k]);
}

/// An update of a contract adds to the money in progress the fees that the
/// executor had earned before it.
pub proof fn lemma_update_supply<P: Primitives>(
    cfg: Config,
    src: Address,
    contract_id: ContractId,
    contract: ZkContractView,
    st: UpdateState,
    update: ContractUpdateView,
)
    requires
        st.store.dom().finite(),
        update_step::<P>(cfg, src, contract_id, contract, st, update) is Ok,
    ensures
        ({
            let done = update_step::<P>(cfg, src, contract_id, contract, st, update).unwrap();
            &&& done.store.dom().finite()
            &&& money_in_progress(cfg, src, done) == money_in_progress(cfg, src, st) + st.fee
            &&& done.fee == st.fee + update_fee(update)
            &&& done.store.get(Key::Account(src)) == st.store.get(Key::Account(src))
        }),
{
    match update {
        ContractUpdateView::Payment { circuit_id, payments, next_state, proof } => {
            let circuit = contract.payment_functions[circuit_id as int];
            let start = PaymentsState { store: st.store, fee: st.fee, slots: Seq::empty() };
            lemma_payments_supply::<P>(cfg, start, src, payments, payments.len());
            let paid = payments_fold::<P>(cfg, start, src, payments, payments.len()).unwrap();
            let aux = P::spec_payment_state(circuit.log4_payment_capacity, paid.slots).unwrap();
            lemma_prove_supply::<P>(
                cfg,
                src,
                contract_id,
                UpdateState { store: paid.store, fee: paid.fee, balance: st.balance },
                circuit.verifier_key,
                aux,
                next_state,
                proof,
            );
        },
        ContractUpdateView::FunctionCall { function_id, next_state, proof, fee } => {
            let k = Key::ContractAccount(contract_id);
            let pool = contract_account_of(st.store, contract_id).unwrap();
            let charged = st.store.insert(
                k,
                ValueView::ContractAccount(
                    crate::types::ContractAccount { balance: (pool.balance - fee) as u64, ..pool },
                ),
            );
            lemma_total_insert(cfg, st.store, k, charged[k]);
            lemma_prove_supply::<P>(
                cfg,
                src,
                contract_id,
                UpdateState { store: charged, fee: (st.fee + fee) as u64, balance: st.balance },
                contract.functions[function_id as int],
                P::spec_fee_state(fee).unwrap(),
                next_state,
                proof,
            );
        },
    }
}

/// The updates of a transaction add to the money in progress what the
/// executor is credited beyond the fees.
pub proof fn lemma_updates_supply<P: Primitives>(
    cfg: Config,
    src: Address,
    contract_id: ContractId,
    contract: ZkContractView,
    start: UpdateState,
    updates: Seq<ContractUpdateView>,
    n: nat,
)
    requires
        start.store.dom().finite(),
        start.fee == 0,
        n <= updates.len(),
        updates_fold::<P>(cfg, src, contract_id, contract, start, updates, n) is Ok,
    ensures
        ({
            let done = updates_fold::<P>(cfg, src, contract_id, contract, start, updates, n).unwrap();
            &&& done.store.dom().finite()
            &&& money_in_progress(cfg, src, done) == money_in_progress(cfg, src, start) + surplus(
                updates,
                n,
            )
            &&& done.fee == fees_before(updates, n)
            &&& done.store.get(Key::Account(src)) == start.store.get(Key::Account(src))
        }),
    decreases n,
{
    if n > 0 {
        lemma_updates_supply::<P>(cfg, src, contract_id, contract, start, updates, (n - 1) as nat);
        let st = updates_fold::<P>(
            cfg,
            src,
            contract_id,
            contract,
            start,
            updates,
            (n - 1) as nat,
        ).unwrap();
        lemma_update_supply::<P>(cfg, src, contract_id, contract, st, updates[n - 1]);
    }
}

/// What a transaction credits its sender beyond the fees of its updates.
pub open spec fn surplus_of(tx: TransactionView) -> int {
    match tx.data {
        TransactionDataView::UpdateContract { updates, .. } => surplus(updates, updates.len()),
        _ => 0,
    }
}

/// The money that a transaction takes out of the stores: the fee of a
/// transaction of the treasury, which nobody receives, and the balance of a
/// contract that the transaction creates anew.
pub open spec fn burnt_by<P: Primitives>(cfg: Config, s: StoreView, tx: TransactionView) -> int {
    (if tx.src == Address::Treasury {
        tx.fee as int
    } else {
        0
    }) + match tx.data {
        TransactionDataView::CreateContract { .. } => holding(
            cfg,
            s,
            Key::ContractAccount(ContractId(P::spec_transaction_digest(tx))),
        ),
        _ => 0,
    }
}

/// A transaction changes the money in a store by what it credits its sender
/// beyond the fees, less what it takes out.
pub proof fn lemma_tx_supply<P: Primitives>(
    cfg: Config,
    s: StoreView,
    tx: TransactionView,
    allow_treasury: bool,
)
    requires
        s.dom().finite(),
        tx_step::<P>(cfg, s, tx, allow_treasury) is Ok,
    ensures
        tx_step::<P>(cfg, s, tx, allow_treasury).unwrap().0.dom().finite(),
        total_money(cfg, tx_step::<P>(cfg, s, tx, allow_treasury).unwrap().0) == total_money(
            cfg,
            s,
        ) + surplus_of(tx) - burnt_by::<P>(cfg, s, tx),
{
    let sender = account_of(cfg, s, tx.src).unwrap();
    let paid = (sender.balance - tx.fee) as u64;
    let src_key = Key::Account(tx.src);
    let (after, balance, effect) = data_step::<P>(cfg, s, tx, paid).unwrap();
    assert(holding(cfg, s, src_key) == sender.balance);
    // The kind of the transaction.
    assert(after.dom().finite() && total_money(cfg, after) - holding(cfg, after, src_key) + balance
        == total_money(cfg, s) - sender.balance + paid + surplus_of(tx) - (burnt_by::<P>(cfg, s, tx)
        - if tx.src == Address::Treasury {
        tx.fee as int
    } else {
        0
    })) by {
        match tx.data {
            TransactionDataView::RegularSend { dst, amount } => {
                lemma_total_insert(cfg, s, Key::Account(dst), after[Key::Account(dst)]);
            },
            TransactionDataView::CreateContract { contract } => {
                let contract_id = ContractId(P::spec_transaction_digest(tx));
                let first = s.insert(Key::Contract(contract_id), ValueView::Contract(contract));
                let second = first.insert(
                    Key::ContractAccount(contract_id),
                    after[Key::ContractAccount(contract_id)],
                );
                lemma_total_insert(cfg, s, Key::Contract(contract_id), ValueView::Contract(contract));
                lemma_total_insert(
                    cfg,
                    first,
                    Key::ContractAccount(contract_id),
                    after[Key::ContractAccount(contract_id)],
                );
                lemma_total_insert(
                    cfg,
                    second,
                    Key::CompressedStateAt(contract_id, 1),
                    after[Key::CompressedStateAt(contract_id, 1)],
                );
            },
            TransactionDataView::UpdateContract { contract_id, updates } => {
                let contract = contract_of(s, contract_id).unwrap();
                let prev = contract_account_of(s, contract_id).unwrap();
                let k = Key::ContractAccount(contract_id);
                let raised = s.insert(
                    k,
                    ValueView::ContractAccount(
                        crate::types::ContractAccount { height: (prev.height + 1) as u64, ..prev },
                    ),
                );
                lemma_total_insert(cfg, s, k, raised[k]);
                let start = UpdateState { store: raised, fee: 0, balance: paid };
                lemma_updates_supply::<P>(
                    cfg,
                    tx.src,
                    contract_id,
                    contract,
                    start,
                    updates,
                    updates.len(),
                );
                let done = updates_fold::<P>(
                    cfg,
                    tx.src,
                    contract_id,
                    contract,
                    start,
                    updates,
                    updates.len(),
                ).unwrap();
                let pool = contract_account_of(done.store, contract_id).unwrap();
                lemma_total_insert(
                    cfg,
                    done.store,
                    Key::CompressedStateAt(contract_id, pool.height),
                    ValueView::CompressedState(pool.compressed_state),
                );
            },
        }
    }
    // The sender's account, and the fee for the treasury.
    let written = after.insert(src_key, tx_step_sender(tx, balance));
    lemma_total_insert(cfg, after, src_key, tx_step_sender(tx, balance));
    if tx.src != Address::Treasury {
        let treasury_key = Key::Account(Address::Treasury);
        let end = tx_step::<P>(cfg, s, tx, allow_treasury).unwrap().0;
        lemma_total_insert(cfg, written, treasury_key, end[treasury_key]);
    }
}

/// The sender's account as a transaction writes it.
pub open spec fn tx_step_sender(tx: TransactionView, balance: u64) -> ValueView {
    ValueView::Account(crate::types::Account { balance, nonce: tx.nonce })
}

} // verus!
