//! How the operations of the engine change the nonces of the accounts.
use crate::blockchain::block::{block_entry, is_block_result, ordinary_txs, txs_fold, BlockState};
use crate::blockchain::model::{account_of, Config};
use crate::blockchain::tx::{
    payment_step, payments_fold, tx_step, update_step, updates_fold, PaymentsState, UpdateState,
};
use crate::blockchain::Primitives;
use crate::db::{Key, StoreView, ValueView};
use crate::types::{
    Address, BlockView, ContractId, ContractPayment, ContractUpdateView, TransactionDataView,
    TransactionView,
};
use crate::zk::ZkContractView;
use vstd::prelude::*;

verus! {

/// The nonce of an address: the number of transactions and payments that
/// its account has sent.
pub open spec fn nonce_of(s: StoreView, address: Address) -> int {
    match s.get(Key::Account(address)) {
        Some(ValueView::Account(account)) => account.nonce as int,
        _ => 0,
    }
}

/// A contract payment raises the nonce of its payer by one and leaves all
/// other nonces.
pub proof fn lemma_payment_nonce<P: Primitives>(
    cfg: Config,
    s: StoreView,
    p: ContractPayment,
    a: Address,
)
    requires
        payment_step::<P>(cfg, s, p) is Ok,
    ensures
        nonce_of(payment_step::<P>(cfg, s, p).unwrap(), a) == nonce_of(s, a) + if a
            == Address::PublicKey(p.address) {
            1int
        } else {
            0int
        },
{
}

/// A payment batch lowers no nonce, and leaves that of its executor.
pub proof fn lemma_payments_nonce<P: Primitives>(
    cfg: Config,
    start: PaymentsState,
    src: Address,
    payments: Seq<ContractPayment>,
    n: nat,
    a: Address,
)
    requires
        n <= payments.len(),
        payments_fold::<P>(cfg, start, src, payments, n) is Ok,
    ensures
        nonce_of(payments_fold::<P>(cfg, start, src, payments, n).unwrap().store, a) >= nonce_of(
            start.store,
            a,
        ),
        nonce_of(payments_fold::<P>(cfg, start, src, payments, n).unwrap().store, src)
            == nonce_of(start.store, src),
    decreases n,
{
    if n > 0 {
        lemma_payments_nonce::<P>(cfg, start, src, payments, (n - 1) as nat, a);
        let st = payments_fold::<P>(cfg, start, src, payments, (n - 1) as nat).unwrap();
        lemma_payment_nonce::<P>(cfg, st.store, payments[n - 1], a);
        lemma_payment_nonce::<P>(cfg, st.store, payments[n - 1], src);
    }
}

/// An update of a contract lowers no nonce, and leaves that of its
/// executor.
pub proof fn lemma_update_nonce<P: Primitives>(
    cfg: Config,
    src: Address,
    contract_id: ContractId,
    contract: ZkContractView,
    st: UpdateState,
    update: ContractUpdateView,
    a: Address,
)
    requires
        update_step::<P>(cfg, src, contract_id, contract, st, update) is Ok,
    ensures
        nonce_of(update_step::<P>(cfg, src, contract_id, contract, st, update).unwrap().store, a)
            >= nonce_of(st.store, a),
        nonce_of(update_step::<P>(cfg, src, contract_id, contract, st, update).unwrap().store, src)
            == nonce_of(st.store, src),
{
    match update {
        ContractUpdateView::Payment { payments, .. } => {
            lemma_payments_nonce::<P>(
                cfg,
                PaymentsState { store: st.store, fee: st.fee, slots: Seq::empty() },
                src,
                payments,
                payments.len(),
                a,
            );
        },
        ContractUpdateView::FunctionCall { .. } => {},
    }
}

/// The updates of a transaction lower no nonce, and leave that of their
/// executor.
pub proof fn lemma_updates_nonce<P: Primitives>(
    cfg: Config,
    src: Address,
    contract_id: ContractId,
    contract: ZkContractView,
    start: UpdateState,
    updates: Seq<ContractUpdateView>,
    n: nat,
    a: Address,
)
    requires
        n <= updates.len(),
        updates_fold::<P>(cfg, src, contract_id, contract, start, updates, n) is Ok,
    ensures
        nonce_of(
            updates_fold::<P>(cfg, src, contract_id, contract, start, updates, n).unwrap().store,
            a,
        ) >= nonce_of(start.store, a),
        nonce_of(
            updates_fold::<P>(cfg, src, contract_id, contract, start, updates, n).unwrap().store,
            src,
        ) == nonce_of(start.store, src),
    decreases n,
{
    if n > 0 {
        lemma_updates_nonce::<P>(
            cfg,
            src,
            contract_id,
            contract,
            start,
            updates,
            (n - 1) as nat,
            a,
        );
        let st = updates_fold::<P>(
            cfg,
            src,
            contract_id,
            contract,
            start,
            updates,
            (n - 1) as nat,
        ).unwrap();
        lemma_update_nonce::<P>(cfg, src, contract_id, contract, st, updates[n - 1], a);
    }
}

/// A transaction raises the nonce of its sender by exactly one, and lowers
/// no nonce.
pub proof fn lemma_tx_nonce<P: Primitives>(
    cfg: Config,
    s: StoreView,
    tx: TransactionView,
    allow_treasury: bool,
    a: Address,
)
    requires
        tx_step::<P>(cfg, s, tx, allow_treasury) is Ok,
    ensures
        nonce_of(tx_step::<P>(cfg, s, tx, allow_treasury).unwrap().0, tx.src) == nonce_of(
            s,
            tx.src,
        ) + 1,
        nonce_of(tx_step::<P>(cfg, s, tx, allow_treasury).unwrap().0, a) >= nonce_of(s, a),
{
    match tx.data {
        TransactionDataView::UpdateContract { contract_id, updates } => {
            let sender = account_of(cfg, s, tx.src).unwrap();
            let contract = crate::blockchain::model::contract_of(s, contract_id).unwrap();
            let prev = crate::blockchain::model::contract_account_of(s, contract_id).unwrap();
            let start = UpdateState {
                store: s.insert(
                    Key::ContractAccount(contract_id),
                    ValueView::ContractAccount(
                        crate::types::ContractAccount { height: (prev.height + 1) as u64, ..prev },
                    ),
                ),
                fee: 0,
                balance: (sender.balance - tx.fee) as u64,
            };
            lemma_updates_nonce::<P>(
                cfg,
                tx.src,
                contract_id,
                contract,
                start,
                updates,
                updates.len(),
                a,
            );
        },
        _ => {},
    }
}

/// The transactions of a block lower no nonce.
pub proof fn lemma_txs_nonce<P: Primitives>(
    cfg: Config,
    is_genesis: bool,
    start: BlockState,
    txs: Seq<TransactionView>,
    n: nat,
    a: Address,
)
    requires
        n <= txs.len(),
        txs_fold::<P>(cfg, is_genesis, start, txs, n) is Ok,
    ensures
        nonce_of(txs_fold::<P>(cfg, is_genesis, start, txs, n).unwrap().store, a) >= nonce_of(
            start.store,
            a,
        ),
    decreases n,
{
    if n > 0 {
        lemma_txs_nonce::<P>(cfg, is_genesis, start, txs, (n - 1) as nat, a);
        let st = txs_fold::<P>(cfg, is_genesis, start, txs, (n - 1) as nat).unwrap();
        lemma_tx_nonce::<P>(cfg, st.store, txs[n - 1], is_genesis, a);
    }
}

/// Applying a block lowers no nonce.
pub proof fn lemma_block_nonce<P: Primitives>(
    cfg: Config,
    s: StoreView,
    block: BlockView,
    check_pow: bool,
    after: StoreView,
    a: Address,
)
    requires
        is_block_result::<P>(cfg, s, block, check_pow, after),
    ensures
        nonce_of(after, a) >= nonce_of(s, a),
{
    let entered = block_entry::<P>(cfg, s, block, check_pow).unwrap();
    if block.header.number != 0 {
        lemma_tx_nonce::<P>(cfg, s, block.body[0], true, a);
    }
    let outdated = crate::blockchain::model::outdated_of(s).unwrap();
    lemma_txs_nonce::<P>(
        cfg,
        block.header.number == 0,
        BlockState {
            store: entered,
            body_size: 0,
            delta: 0,
            updates: Seq::empty(),
            outdated,
            calls: 0,
            payments: 0,
        },
        ordinary_txs(block),
        ordinary_txs(block).len(),
        a,
    );
}


/// How many of the first `n` payments of a batch are paid by `a`.
pub open spec fn payments_by(payments: Seq<ContractPayment>, n: nat, a: Address) -> int
    decreases n,
{
    if n == 0 || n > payments.len() {
        0
    } else {
        payments_by(payments, (n - 1) as nat, a) + if Address::PublicKey(payments[n - 1].address)
            == a {
            1int
        } else {
            0int
        }
    }
}

/// How many payments of an update are paid by `a`.
pub open spec fn update_payments_by(update: ContractUpdateView, a: Address) -> int {
    match update {
        ContractUpdateView::Payment { payments, .. } => payments_by(payments, payments.len(), a),
        ContractUpdateView::FunctionCall { .. } => 0,
    }
}

/// How many payments of the first `n` updates are paid by `a`.
pub open spec fn updates_payments_by(updates: Seq<ContractUpdateView>, n: nat, a: Address) -> int
    decreases n,
{
    if n == 0 || n > updates.len() {
        0
    } else {
        updates_payments_by(updates, (n - 1) as nat, a) + update_payments_by(updates[n - 1], a)
    }
}

/// How often a transaction uses a nonce of `a`: once if `a` sends it, and
/// once for every contract payment of `a` that it executes.
pub open spec fn nonces_used(tx: TransactionView, a: Address) -> int {
    (if tx.src == a {
        1int
    } else {
        0int
    }) + match tx.data {
        TransactionDataView::UpdateContract { updates, .. } => updates_payments_by(
            updates,
            updates.len(),
            a,
        ),
        _ => 0,
    }
}

/// How often the first `n` transactions of `txs` use a nonce of `a`.
pub open spec fn nonces_used_by(txs: Seq<TransactionView>, n: nat, a: Address) -> int
    decreases n,
{
    if n == 0 || n > txs.len() {
        0
    } else {
        nonces_used_by(txs, (n - 1) as nat, a) + nonces_used(txs[n - 1], a)
    }
}

/// A payment batch raises the nonce of every address by the number of its
/// payments that the address pays. The executor pays none of them.
pub proof fn lemma_payments_nonce_exact<P: Primitives>(
    cfg: Config,
    start: PaymentsState,
    src: Address,
    payments: Seq<ContractPayment>,
    n: nat,
    a: Address,
)
    requires
        n <= payments.len(),
        payments_fold::<P>(cfg, start, src, payments, n) is Ok,
    ensures
        nonce_of(payments_fold::<P>(cfg, start, src, payments, n).unwrap().store, a) == nonce_of(
            start.store,
            a,
        ) + payments_by(payments, n, a),
        payments_by(payments, n, src) == 0,
    decreases n,
{
    if n > 0 {
        lemma_payments_nonce_exact::<P>(cfg, start, src, payments, (n - 1) as nat, a);
        let st = payments_fold::<P>(cfg, start, src, payments, (n - 1) as nat).unwrap();
        lemma_payment_nonce::<P>(cfg, st.store, payments[n - 1], a);
    }
}

/// The updates of a transaction raise the nonce of every address by the
/// number of their payments that the address pays.
pub proof fn lemma_updates_nonce_exact<P: Primitives>(
    cfg: Config,
    src: Address,
    contract_id: ContractId,
    contract: ZkContractView,
    start: UpdateState,
    updates: Seq<ContractUpdateView>,
    n: nat,
    a: Address,
)
    requires
        n <= updates.len(),
        updates_fold::<P>(cfg, src, contract_id, contract, start, updates, n) is Ok,
    ensures
        nonce_of(
            updates_fold::<P>(cfg, src, contract_id, contract, start, updates, n).unwrap().store,
            a,
        ) == nonce_of(start.store, a) + updates_payments_by(updates, n, a),
        updates_payments_by(updates, n, src) == 0,
    decreases n,
{
    if n > 0 {
        lemma_updates_nonce_exact::<P>(
            cfg,
            src,
            contract_id,
            contract,
            start,
            updates,
            (n - 1) as nat,
            a,
        );
        let st = updates_fold::<P>(
            cfg,
            src,
            contract_id,
            contract,
            start,
            updates,
            (n - 1) as nat,
        ).unwrap();
        match updates[n - 1] {
            ContractUpdateView::Payment { payments, .. } => {
                lemma_payments_nonce_exact::<P>(
                    cfg,
                    PaymentsState { store: st.store, fee: st.fee, slots: Seq::empty() },
                    src,
                    payments,
                    payments.len(),
                    a,
                );
            },
            ContractUpdateView::FunctionCall { .. } => {},
        }
    }
}

/// A transaction raises the nonce of every address by exactly the number of
/// times that it uses a nonce of the address.
pub proof fn lemma_tx_nonces_used<P: Primitives>(
    cfg: Config,
    s: StoreView,
    tx: TransactionView,
    allow_treasury: bool,
    a: Address,
)
    requires
        tx_step::<P>(cfg, s, tx, allow_treasury) is Ok,
    ensures
        nonce_of(tx_step::<P>(cfg, s, tx, allow_treasury).unwrap().0, a) == nonce_of(s, a)
            + nonces_used(tx, a),
{
    match tx.data {
        TransactionDataView::UpdateContract { contract_id, updates } => {
            let sender = account_of(cfg, s, tx.src).unwrap();
            let contract = crate::blockchain::model::contract_of(s, contract_id).unwrap();
            let prev = crate::blockchain::model::contract_account_of(s, contract_id).unwrap();
            let start = UpdateState {
                store: s.insert(
                    Key::ContractAccount(contract_id),
                    ValueView::ContractAccount(
                        crate::types::ContractAccount { height: (prev.height + 1) as u64, ..prev },
                    ),
                ),
                fee: 0,
                balance: (sender.balance - tx.fee) as u64,
            };
            lemma_updates_nonce_exact::<P>(
                cfg,
                tx.src,
                contract_id,
                contract,
                start,
                updates,
                updates.len(),
                a,
            );
        },
        _ => {},
    }
}

/// The transactions of a block raise the nonce of every address by exactly
/// the number of times that they use a nonce of the address.
pub proof fn lemma_txs_nonces_used<P: Primitives>(
    cfg: Config,
    is_genesis: bool,
    start: BlockState,
    txs: Seq<TransactionView>,
    n: nat,
    a: Address,
)
    requires
        n <= txs.len(),
        txs_fold::<P>(cfg, is_genesis, start, txs, n) is Ok,
    ensures
        nonce_of(txs_fold::<P>(cfg, is_genesis, start, txs, n).unwrap().store, a) == nonce_of(
            start.store,
            a,
        ) + nonces_used_by(txs, n, a),
    decreases n,
{
    if n > 0 {
        lemma_txs_nonces_used::<P>(cfg, is_genesis, start, txs, (n - 1) as nat, a);
        let st = txs_fold::<P>(cfg, is_genesis, start, txs, (n - 1) as nat).unwrap();
        lemma_tx_nonces_used::<P>(cfg, st.store, txs[n - 1], is_genesis, a);
    }
}

/// Nonces across a block: applying a block raises the nonce of every
/// address by exactly one for every transaction of the block that the
/// address sends and for every contract payment of the address that the
/// block executes, the reward transaction of the treasury included.
pub proof fn lemma_block_nonces_used<P: Primitives>(
    cfg: Config,
    s: StoreView,
    block: BlockView,
    check_pow: bool,
    after: StoreView,
    a: Address,
)
    requires
        is_block_result::<P>(cfg, s, block, check_pow, after),
    ensures
        nonce_of(after, a) == nonce_of(s, a) + nonces_used_by(block.body, block.body.len(), a),
{
    let entered = block_entry::<P>(cfg, s, block, check_pow).unwrap();
    let txs = ordinary_txs(block);
    let outdated = crate::blockchain::model::outdated_of(s).unwrap();
    let start = BlockState {
        store: entered,
        body_size: 0,
        delta: 0,
        updates: Seq::empty(),
        outdated,
        calls: 0,
        payments: 0,
    };
    lemma_txs_nonces_used::<P>(cfg, block.header.number == 0, start, txs, txs.len(), a);
    if block.header.number != 0 {
        lemma_tx_nonces_used::<P>(cfg, s, block.body[0], true, a);
        lemma_nonces_used_shift(block.body, txs.len(), a);
    }
}

/// Counting over the transactions after the first is counting over all of
/// them, less the first.
proof fn lemma_nonces_used_shift(body: Seq<TransactionView>, n: nat, a: Address)
    requires
        body.len() > 0,
        n <= body.len() - 1,
    ensures
        nonces_used_by(body, n + 1, a) == nonces_used(body[0], a) + nonces_used_by(
            body.subrange(1, body.len() as int),
            n,
            a,
        ),
    decreases n,
{
    let rest = body.subrange(1, body.len() as int);
    if n > 0 {
        lemma_nonces_used_shift(body, (n - 1) as nat, a);
        assert(rest[n - 1] == body[n as int]);
    } else {
        reveal_with_fuel(nonces_used_by, 2);
    }
}

} // verus!
