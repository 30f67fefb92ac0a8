//! Executing contract payments, rollup transactions and transactions.
//!
//! Each operation is given as a step function over the store's view, and as
//! an executable function that returns the writes that make the step. An
//! operation that fails returns no writes: it leaves no trace.
use crate::blockchain::model::{account_of, contract_account_of, contract_of, Config, Outcome};
use crate::blockchain::read::{get_account, get_contract, get_contract_account};
use crate::blockchain::{
    BlockchainConfig, BlockchainError, Primitives, TxSideEffect, ZkCompressedStateChange,
};
use crate::db::{
    apply_ops, keys, Key, KvStore, RamMirrorKvStore, StoreView, Value, ValueView, WriteOp,
    WriteOpView,
};
use crate::types::{
    payment_signed, Account, Address, ContractAccount, ContractId, ContractPayment, ContractUpdate,
    ContractUpdateView, PaymentDirection, Transaction, TransactionData, TransactionDataView,
    TransactionView,
};
use crate::zk::primitives::{keep_zk_ops, zk_ops};
use crate::zk::{
    MpnAccount, PaymentSlot, ZeroTransaction, ZkCompressedState, ZkContract, ZkContractView,
};
use vstd::prelude::*;

verus! {

/// The store after a contract payment.
///
/// The payment must be signed and carry the next nonce of its outer account.
/// A deposit takes the amount and the fee from the outer account and gives
/// the amount to the contract; a withdrawal takes the amount and the fee from
/// the contract and gives the amount to the outer account. The fee is left
/// for whoever executes the payment.
pub open spec fn payment_step<P: Primitives>(
    cfg: Config,
    s: StoreView,
    p: ContractPayment,
) -> Outcome<StoreView> {
    if !payment_signed::<P>(p) {
        Err(BlockchainError::InvalidContractPaymentSignature)
    } else {
        match contract_account_of(s, p.contract_id) {
            Err(e) => Err(e),
            Ok(pool) => match account_of(cfg, s, Address::PublicKey(p.address)) {
                Err(e) => Err(e),
                Ok(outer) => if p.nonce != outer.nonce + 1 {
                    Err(BlockchainError::InvalidTransactionNonce)
                } else {
                    match p.direction {
                        PaymentDirection::Deposit => if outer.balance < p.amount + p.fee {
                            Err(BlockchainError::BalanceInsufficient)
                        } else if pool.balance + p.amount > u64::MAX {
                            Err(BlockchainError::Inconsistency)
                        } else {
                            Ok(
                                payment_writes(
                                    s,
                                    p,
                                    (pool.balance + p.amount) as u64,
                                    (outer.balance - p.amount - p.fee) as u64,
                                    pool,
                                    outer,
                                ),
                            )
                        },
                        PaymentDirection::Withdraw => if pool.balance < p.amount + p.fee {
                            Err(BlockchainError::ContractBalanceInsufficient)
                        } else if outer.balance + p.amount > u64::MAX {
                            Err(BlockchainError::Inconsistency)
                        } else {
                            Ok(
                                payment_writes(
                                    s,
                                    p,
                                    (pool.balance - p.amount - p.fee) as u64,
                                    (outer.balance + p.amount) as u64,
                                    pool,
                                    outer,
                                ),
                            )
                        },
                    }
                },
            },
        }
    }
}

/// The store with the two accounts of a payment at their new balances, and
/// the outer account's nonce advanced.
pub open spec fn payment_writes(
    s: StoreView,
    p: ContractPayment,
    pool_balance: u64,
    outer_balance: u64,
    pool: ContractAccount,
    outer: Account,
) -> StoreView {
    s.insert(
        Key::ContractAccount(p.contract_id),
        ValueView::ContractAccount(ContractAccount { balance: pool_balance, ..pool }),
    ).insert(
        Key::Account(Address::PublicKey(p.address)),
        ValueView::Account(Account { balance: outer_balance, nonce: (outer.nonce + 1) as u32 }),
    )
}

/// The writes of a contract payment.
pub fn contract_payment_ops<K: KvStore, P: Primitives>(
    config: &BlockchainConfig,
    db: &K,
    contract_payment: &ContractPayment,
) -> (r: Result<Vec<WriteOp>, BlockchainError>)
    ensures
        match payment_step::<P>(config.deep_view(), db.view(), *contract_payment) {
            Ok(after) => r is Ok && apply_ops(db.view(), r.unwrap().deep_view()) == after,
            Err(e) => r is Err && r.unwrap_err() == e,
        },
{
    if !contract_payment.verify_signature::<P>() {
        return Err(BlockchainError::InvalidContractPaymentSignature);
    }
    let mut contract_account = get_contract_account(db, &contract_payment.contract_id)?;
    let address = Address::PublicKey(contract_payment.address);
    let mut addr_account = get_account(config, db, &address)?;
    if addr_account.nonce == u32::MAX || contract_payment.nonce != addr_account.nonce + 1 {
        return Err(BlockchainError::InvalidTransactionNonce);
    }
    addr_account.nonce += 1;
    match contract_payment.direction {
        PaymentDirection::Deposit => {
            let cost = match contract_payment.amount.checked_add(contract_payment.fee) {
                Some(cost) => cost,
                None => {
                    return Err(BlockchainError::BalanceInsufficient);
                },
            };
            if addr_account.balance < cost {
                return Err(BlockchainError::BalanceInsufficient);
            }
            contract_account.balance = match contract_account.balance.checked_add(
                contract_payment.amount,
            ) {
                Some(balance) => balance,
                None => {
                    return Err(BlockchainError::Inconsistency);
                },
            };
            addr_account.balance -= cost;
        },
        PaymentDirection::Withdraw => {
            let cost = match contract_payment.amount.checked_add(contract_payment.fee) {
                Some(cost) => cost,
                None => {
                    return Err(BlockchainError::ContractBalanceInsufficient);
                },
            };
            if contract_account.balance < cost {
                return Err(BlockchainError::ContractBalanceInsufficient);
            }
            addr_account.balance = match addr_account.balance.checked_add(
                contract_payment.amount,
            ) {
                Some(balance) => balance,
                None => {
                    return Err(BlockchainError::Inconsistency);
                },
            };
            contract_account.balance -= cost;
        },
    }
    let mut fork = RamMirrorKvStore::new(db);
    fork.put(
        keys::contract_account(&contract_payment.contract_id),
        Value::ContractAccount(contract_account),
    );
    fork.put(keys::account(&address), Value::Account(addr_account));
    Ok(fork.to_ops())
}

/// The store after writes of the state manager: only those to its own keys
/// are made.
pub open spec fn manager_writes(s: StoreView, ops: Seq<WriteOpView>) -> StoreView {
    apply_ops(s, zk_ops(ops))
}

/// The store after a transfer inside the payment network.
///
/// The transfer must carry the nonce of the sending account, be signed by
/// it, and not exceed its balance. The sender pays the amount and the fee
/// and its nonce goes up by one; the account at the destination index gets
/// the amount and the destination key, and keeps its nonce.
pub open spec fn zero_tx_step<P: Primitives>(
    cfg: Config,
    s: StoreView,
    tx: ZeroTransaction,
) -> Outcome<StoreView> {
    match P::spec_get_mpn_account(s, cfg.mpn_contract_id, tx.src_index) {
        Err(e) => Err(BlockchainError::StateManagerError(e)),
        Ok(src) => match P::spec_get_mpn_account(s, cfg.mpn_contract_id, tx.dst_index) {
            Err(e) => Err(BlockchainError::StateManagerError(e)),
            Ok(dst) => if tx.nonce != src.nonce || !P::spec_verify_zero_transaction(
                tx,
                P::spec_compress(src.address),
            ) || src.balance < tx.fee + tx.amount || src.nonce == u64::MAX || dst.balance
                + tx.amount > u64::MAX {
                Err(BlockchainError::InvalidZeroTransaction)
            } else {
                match P::spec_set_mpn_account(
                    s,
                    cfg.mpn_contract_id,
                    tx.src_index,
                    zero_tx_sender(src, tx),
                ) {
                    Err(e) => Err(BlockchainError::StateManagerError(e)),
                    Ok(first) => match P::spec_set_mpn_account(
                        manager_writes(s, first),
                        cfg.mpn_contract_id,
                        tx.dst_index,
                        zero_tx_receiver::<P>(dst, tx),
                    ) {
                        Err(e) => Err(BlockchainError::StateManagerError(e)),
                        Ok(second) => Ok(manager_writes(manager_writes(s, first), second)),
                    },
                }
            },
        },
    }
}

/// The sending account after a transfer.
pub open spec fn zero_tx_sender(src: MpnAccount, tx: ZeroTransaction) -> MpnAccount {
    MpnAccount {
        address: src.address,
        balance: (src.balance - tx.fee - tx.amount) as u64,
        nonce: (src.nonce + 1) as u64,
    }
}

/// The account at the destination index after a transfer.
pub open spec fn zero_tx_receiver<P: Primitives>(dst: MpnAccount, tx: ZeroTransaction) -> MpnAccount {
    MpnAccount {
        address: P::spec_decompress(tx.dst_pub_key),
        balance: (dst.balance + tx.amount) as u64,
        nonce: dst.nonce,
    }
}

/// The writes of a transfer inside the payment network.
pub fn zero_tx_ops<K: KvStore, P: Primitives>(
    config: &BlockchainConfig,
    db: &K,
    tx: &ZeroTransaction,
) -> (r: Result<Vec<WriteOp>, BlockchainError>)
    ensures
        match zero_tx_step::<P>(config.deep_view(), db.view(), *tx) {
            Ok(after) => r is Ok && apply_ops(db.view(), r.unwrap().deep_view()) == after,
            Err(e) => r is Err && r.unwrap_err() == e,
        },
{
    let src = match P::get_mpn_account(db, &config.mpn_contract_id, tx.src_index) {
        Ok(src) => src,
        Err(e) => {
            return Err(BlockchainError::StateManagerError(e));
        },
    };
    let dst = match P::get_mpn_account(db, &config.mpn_contract_id, tx.dst_index) {
        Ok(dst) => dst,
        Err(e) => {
            return Err(BlockchainError::StateManagerError(e));
        },
    };
    if tx.nonce != src.nonce {
        return Err(BlockchainError::InvalidZeroTransaction);
    }
    if !P::verify_zero_transaction(tx, &P::compress(&src.address)) {
        return Err(BlockchainError::InvalidZeroTransaction);
    }
    let cost = match tx.fee.checked_add(tx.amount) {
        Some(cost) => cost,
        None => {
            return Err(BlockchainError::InvalidZeroTransaction);
        },
    };
    if src.balance < cost || src.nonce == u64::MAX {
        return Err(BlockchainError::InvalidZeroTransaction);
    }
    let received = match dst.balance.checked_add(tx.amount) {
        Some(received) => received,
        None => {
            return Err(BlockchainError::InvalidZeroTransaction);
        },
    };
    let mut fork = RamMirrorKvStore::new(db);
    let first = match P::set_mpn_account(
        &fork,
        &config.mpn_contract_id,
        tx.src_index,
        MpnAccount { address: src.address, balance: src.balance - cost, nonce: src.nonce + 1 },
    ) {
        Ok(ops) => ops,
        Err(e) => {
            return Err(BlockchainError::StateManagerError(e));
        },
    };
    fork.apply(&keep_zk_ops(&first));
    let second = match P::set_mpn_account(
        &fork,
        &config.mpn_contract_id,
        tx.dst_index,
        MpnAccount {
            address: P::decompress(&tx.dst_pub_key),
            balance: received,
            nonce: dst.nonce,
        },
    ) {
        Ok(ops) => ops,
        Err(e) => {
            return Err(BlockchainError::StateManagerError(e));
        },
    };
    fork.apply(&keep_zk_ops(&second));
    Ok(fork.to_ops())
}


/// Where the execution of a payment batch stands: the store, the fees
/// earned by the executor so far, and the slots of the auxiliary state.
pub struct PaymentsState {
    pub store: StoreView,
    pub fee: u64,
    pub slots: Seq<PaymentSlot>,
}

/// Where the execution of a contract update transaction stands: the store,
/// the fees earned by the executor so far, and the executor's balance.
pub struct UpdateState {
    pub store: StoreView,
    pub fee: u64,
    pub balance: u64,
}

/// The slot of a payment in the auxiliary state of its batch.
pub open spec fn slot_of<P: Primitives>(p: ContractPayment) -> PaymentSlot {
    PaymentSlot {
        amount: p.amount,
        withdraw: p.direction == PaymentDirection::Withdraw,
        address: P::spec_decompress(p.zk_address),
    }
}

/// The execution of the first `n` payments of a batch, on behalf of the
/// executor `src`, who may not execute payments of its own.
pub open spec fn payments_fold<P: Primitives>(
    cfg: Config,
    start: PaymentsState,
    src: Address,
    payments: Seq<ContractPayment>,
    n: nat,
) -> Outcome<PaymentsState>
    decreases n,
{
    if n == 0 || n > payments.len() {
        Ok(start)
    } else {
        match payments_fold::<P>(cfg, start, src, payments, (n - 1) as nat) {
            Err(e) => Err(e),
            Ok(st) => {
                let p = payments[n - 1];
                if Address::PublicKey(p.address) == src {
                    Err(BlockchainError::CannotExecuteOwnPayments)
                } else if st.fee + p.fee > u64::MAX {
                    Err(BlockchainError::Inconsistency)
                } else {
                    match payment_step::<P>(cfg, st.store, p) {
                        Err(e) => Err(e),
                        Ok(after) => Ok(
                            PaymentsState {
                                store: after,
                                fee: (st.fee + p.fee) as u64,
                                slots: st.slots.push(slot_of::<P>(p)),
                            },
                        ),
                    }
                }
            },
        }
    }
}

/// The last part of an update: the proof must take the contract's state
/// summary to `next_state`, which then becomes the summary. The executor is
/// credited all the fees earned so far in the transaction.
pub open spec fn prove_step<P: Primitives>(
    contract_id: ContractId,
    st: UpdateState,
    key: Seq<u8>,
    aux: ZkCompressedState,
    next_state: ZkCompressedState,
    proof: Seq<u8>,
) -> Outcome<UpdateState> {
    match contract_account_of(st.store, contract_id) {
        Err(e) => Err(e),
        Ok(pool) => if !P::spec_check_proof(key, pool.compressed_state, aux, next_state, proof) {
            Err(BlockchainError::IncorrectZkProof)
        } else if st.balance + st.fee > u64::MAX {
            Err(BlockchainError::Inconsistency)
        } else {
            Ok(
                UpdateState {
                    store: st.store.insert(
                        Key::ContractAccount(contract_id),
                        ValueView::ContractAccount(
                            ContractAccount { compressed_state: next_state, ..pool },
                        ),
                    ),
                    fee: st.fee,
                    balance: (st.balance + st.fee) as u64,
                },
            )
        },
    }
}

/// The execution of one update of a contract.
pub open spec fn update_step<P: Primitives>(
    cfg: Config,
    src: Address,
    contract_id: ContractId,
    contract: ZkContractView,
    st: UpdateState,
    update: ContractUpdateView,
) -> Outcome<UpdateState> {
    match update {
        ContractUpdateView::Payment { circuit_id, payments, next_state, proof } => {
            if circuit_id >= contract.payment_functions.len() {
                Err(BlockchainError::ContractFunctionNotFound)
            } else {
                let circuit = contract.payment_functions[circuit_id as int];
                match payments_fold::<P>(
                    cfg,
                    PaymentsState { store: st.store, fee: st.fee, slots: Seq::empty() },
                    src,
                    payments,
                    payments.len(),
                ) {
                    Err(e) => Err(e),
                    Ok(paid) => match P::spec_payment_state(
                        circuit.log4_payment_capacity,
                        paid.slots,
                    ) {
                        Err(e) => Err(BlockchainError::StateManagerError(e)),
                        Ok(aux) => prove_step::<P>(
                            contract_id,
                            UpdateState { store: paid.store, fee: paid.fee, balance: st.balance },
                            circuit.verifier_key,
                            aux,
                            next_state,
                            proof,
                        ),
                    },
                }
            }
        },
        ContractUpdateView::FunctionCall { function_id, next_state, proof, fee } => {
            if st.fee + fee > u64::MAX {
                Err(BlockchainError::Inconsistency)
            } else {
                match contract_account_of(st.store, contract_id) {
                    Err(e) => Err(e),
                    Ok(pool) => if pool.balance < fee {
                        Err(BlockchainError::ContractBalanceInsufficient)
                    } else if function_id >= contract.functions.len() {
                        Err(BlockchainError::ContractFunctionNotFound)
                    } else {
                        match P::spec_fee_state(fee) {
                            Err(e) => Err(BlockchainError::StateManagerError(e)),
                            Ok(aux) => prove_step::<P>(
                                contract_id,
                                UpdateState {
                                    store: st.store.insert(
                                        Key::ContractAccount(contract_id),
                                        ValueView::ContractAccount(
                                            ContractAccount {
                                                balance: (pool.balance - fee) as u64,
                                                ..pool
                                            },
                                        ),
                                    ),
                                    fee: (st.fee + fee) as u64,
                                    balance: st.balance,
                                },
                                contract.functions[function_id as int],
                                aux,
                                next_state,
                                proof,
                            ),
                        }
                    },
                }
            }
        },
    }
}

/// The execution of the first `n` updates of a transaction.
pub open spec fn updates_fold<P: Primitives>(
    cfg: Config,
    src: Address,
    contract_id: ContractId,
    contract: ZkContractView,
    start: UpdateState,
    updates: Seq<ContractUpdateView>,
    n: nat,
) -> Outcome<UpdateState>
    decreases n,
{
    if n == 0 || n > updates.len() {
        Ok(start)
    } else {
        match updates_fold::<P>(cfg, src, contract_id, contract, start, updates, (n - 1) as nat) {
            Err(e) => Err(e),
            Ok(st) => update_step::<P>(cfg, src, contract_id, contract, st, updates[n - 1]),
        }
    }
}

/// What the kind of a transaction does, once the sender has paid the fee:
/// the store, the sender's balance and the side effect after it.
pub open spec fn data_step<P: Primitives>(
    cfg: Config,
    s: StoreView,
    tx: TransactionView,
    balance: u64,
) -> Outcome<(StoreView, u64, TxSideEffect)> {
    match tx.data {
        TransactionDataView::RegularSend { dst, amount } => {
            if dst == tx.src {
                Err(BlockchainError::SelfPaymentNotAllowed)
            } else if balance < amount {
                Err(BlockchainError::BalanceInsufficient)
            } else {
                match account_of(cfg, s, dst) {
                    Err(e) => Err(e),
                    Ok(receiver) => if receiver.balance + amount > u64::MAX {
                        Err(BlockchainError::Inconsistency)
                    } else {
                        Ok(
                            (
                                s.insert(
                                    Key::Account(dst),
                                    ValueView::Account(
                                        Account {
                                            balance: (receiver.balance + amount) as u64,
                                            ..receiver
                                        },
                                    ),
                                ),
                                (balance - amount) as u64,
                                TxSideEffect::Nothing,
                            ),
                        )
                    },
                }
            }
        },
        TransactionDataView::CreateContract { contract } => {
            if !P::spec_is_valid_model(contract.state_model) {
                Err(BlockchainError::InvalidStateModel)
            } else {
                let contract_id = ContractId(P::spec_transaction_digest(tx));
                Ok(
                    (
                        s.insert(Key::Contract(contract_id), ValueView::Contract(contract)).insert(
                            Key::ContractAccount(contract_id),
                            ValueView::ContractAccount(
                                ContractAccount {
                                    compressed_state: contract.initial_state,
                                    balance: 0,
                                    height: 1,
                                },
                            ),
                        ).insert(
                            Key::CompressedStateAt(contract_id, 1),
                            ValueView::CompressedState(contract.initial_state),
                        ),
                        balance,
                        TxSideEffect::StateChange {
                            contract_id,
                            state_change: ZkCompressedStateChange {
                                prev_height: 0,
                                prev_state: P::spec_empty_state(contract.state_model),
                                state: contract.initial_state,
                            },
                        },
                    ),
                )
            }
        },
        TransactionDataView::UpdateContract { contract_id, updates } => {
            match contract_of(s, contract_id) {
                Err(e) => Err(e),
                Ok(contract) => match contract_account_of(s, contract_id) {
                    Err(e) => Err(e),
                    Ok(prev) => if prev.height == u64::MAX {
                        Err(BlockchainError::Inconsistency)
                    } else {
                        match updates_fold::<P>(
                            cfg,
                            tx.src,
                            contract_id,
                            contract,
                            UpdateState {
                                store: s.insert(
                                    Key::ContractAccount(contract_id),
                                    ValueView::ContractAccount(
                                        ContractAccount {
                                            height: (prev.height + 1) as u64,
                                            ..prev
                                        },
                                    ),
                                ),
                                fee: 0,
                                balance,
                            },
                            updates,
                            updates.len(),
                        ) {
                            Err(e) => Err(e),
                            Ok(done) => match contract_account_of(done.store, contract_id) {
                                Err(e) => Err(e),
                                Ok(pool) => Ok(
                                    (
                                        done.store.insert(
                                            Key::CompressedStateAt(contract_id, pool.height),
                                            ValueView::CompressedState(pool.compressed_state),
                                        ),
                                        done.balance,
                                        TxSideEffect::StateChange {
                                            contract_id,
                                            state_change: ZkCompressedStateChange {
                                                prev_height: prev.height,
                                                prev_state: prev.compressed_state,
                                                state: pool.compressed_state,
                                            },
                                        },
                                    ),
                                ),
                            },
                        }
                    },
                },
            }
        },
    }
}

/// The store and the side effect after a transaction.
///
/// The sender must not be the treasury unless that is allowed, the nonce
/// must be the sender's next, and the sender must afford the fee. Then the
/// kind of the transaction is executed, the sender's account is written with
/// its nonce advanced, and the fee goes to the treasury.
pub open spec fn tx_step<P: Primitives>(
    cfg: Config,
    s: StoreView,
    tx: TransactionView,
    allow_treasury: bool,
) -> Outcome<(StoreView, TxSideEffect)> {
    match account_of(cfg, s, tx.src) {
        Err(e) => Err(e),
        Ok(sender) => if tx.src == Address::Treasury && !allow_treasury {
            Err(BlockchainError::IllegalTreasuryAccess)
        } else if tx.nonce != sender.nonce + 1 {
            Err(BlockchainError::InvalidTransactionNonce)
        } else if sender.balance < tx.fee {
            Err(BlockchainError::BalanceInsufficient)
        } else {
            match data_step::<P>(cfg, s, tx, (sender.balance - tx.fee) as u64) {
                Err(e) => Err(e),
                Ok((after, balance, effect)) => {
                    let written = after.insert(
                        Key::Account(tx.src),
                        ValueView::Account(Account { balance, nonce: tx.nonce }),
                    );
                    if tx.src == Address::Treasury {
                        Ok((written, effect))
                    } else {
                        match account_of(cfg, written, Address::Treasury) {
                            Err(e) => Err(e),
                            Ok(treasury) => if treasury.balance + tx.fee > u64::MAX {
                                Err(BlockchainError::Inconsistency)
                            } else {
                                Ok(
                                    (
                                        written.insert(
                                            Key::Account(Address::Treasury),
                                            ValueView::Account(
                                                Account {
                                                    balance: (treasury.balance + tx.fee) as u64,
                                                    ..treasury
                                                },
                                            ),
                                        ),
                                        effect,
                                    ),
                                )
                            },
                        }
                    }
                },
            }
        },
    }
}

/// A payment batch fails where its first failing prefix fails.
pub proof fn lemma_payments_fold_fails<P: Primitives>(
    cfg: Config,
    start: PaymentsState,
    src: Address,
    payments: Seq<ContractPayment>,
    n: nat,
    m: nat,
)
    requires
        n <= m <= payments.len(),
        payments_fold::<P>(cfg, start, src, payments, n) is Err,
    ensures
        payments_fold::<P>(cfg, start, src, payments, m) == payments_fold::<P>(
            cfg,
            start,
            src,
            payments,
            n,
        ),
    decreases m,
{
    if n < m {
        lemma_payments_fold_fails::<P>(cfg, start, src, payments, n, (m - 1) as nat);
    }
}

/// A sequence of updates fails where its first failing prefix fails.
pub proof fn lemma_updates_fold_fails<P: Primitives>(
    cfg: Config,
    src: Address,
    contract_id: ContractId,
    contract: ZkContractView,
    start: UpdateState,
    updates: Seq<ContractUpdateView>,
    n: nat,
    m: nat,
)
    requires
        n <= m <= updates.len(),
        updates_fold::<P>(cfg, src, contract_id, contract, start, updates, n) is Err,
    ensures
        updates_fold::<P>(cfg, src, contract_id, contract, start, updates, m) == updates_fold::<P>(
            cfg,
            src,
            contract_id,
            contract,
            start,
            updates,
            n,
        ),
    decreases m,
{
    if n < m {
        lemma_updates_fold_fails::<P>(
            cfg,
            src,
            contract_id,
            contract,
            start,
            updates,
            n,
            (m - 1) as nat,
        );
    }
}

/// Executes a payment batch on `fork`. Returns the slots of its auxiliary
/// state and adds the fees to `executor_fee`.
fn run_payments<'a, K: KvStore, P: Primitives>(
    config: &BlockchainConfig,
    fork: &mut RamMirrorKvStore<'a, K>,
    src: &Address,
    payments: &Vec<ContractPayment>,
    executor_fee: &mut u64,
) -> (r: Result<Vec<PaymentSlot>, BlockchainError>)
    ensures
        final(fork).store == old(fork).store,
        match payments_fold::<P>(
            config.deep_view(),
            PaymentsState { store: old(fork).view(), fee: *old(executor_fee), slots: Seq::empty() },
            *src,
            payments@,
            payments@.len(),
        ) {
            Ok(paid) => r is Ok && r.unwrap()@ == paid.slots && final(fork).view() == paid.store
                && *final(executor_fee) == paid.fee,
            Err(e) => r is Err && r.unwrap_err() == e,
        },
{
    let ghost start = PaymentsState {
        store: fork.view(),
        fee: *executor_fee,
        slots: Seq::empty(),
    };
    let mut slots: Vec<PaymentSlot> = Vec::new();
    let mut i: usize = 0;
    while i < payments.len()
        invariant
            i <= payments.len(),
            fork.store == old(fork).store,
            start == (PaymentsState {
                store: old(fork).view(),
                fee: *old(executor_fee),
                slots: Seq::empty(),
            }),
            payments_fold::<P>(config.deep_view(), start, *src, payments@, i as nat) == Ok::<
                _,
                BlockchainError,
            >(PaymentsState { store: fork.view(), fee: *executor_fee, slots: slots@ }),
        decreases payments.len() - i,
    {
        let contract_payment = &payments[i];
        proof {
            if payments_fold::<P>(config.deep_view(), start, *src, payments@, (i + 1) as nat)
                is Err {
                lemma_payments_fold_fails::<P>(
                    config.deep_view(),
                    start,
                    *src,
                    payments@,
                    (i + 1) as nat,
                    payments@.len(),
                );
            }
        }
        if Address::PublicKey(contract_payment.address).same(src) {
            return Err(BlockchainError::CannotExecuteOwnPayments);
        }
        *executor_fee = match (*executor_fee).checked_add(contract_payment.fee) {
            Some(fee) => fee,
            None => {
                return Err(BlockchainError::Inconsistency);
            },
        };
        slots.push(
            PaymentSlot {
                amount: contract_payment.amount,
                withdraw: match contract_payment.direction {
                    PaymentDirection::Deposit => false,
                    PaymentDirection::Withdraw => true,
                },
                address: P::decompress(&contract_payment.zk_address),
            },
        );
        let ops = contract_payment_ops::<RamMirrorKvStore<'a, K>, P>(
            config,
            fork,
            contract_payment,
        )?;
        fork.apply(&ops);
        i += 1;
    }
    Ok(slots)
}

/// Checks the proof of an update on `fork` and makes `next_state` the
/// contract's state summary. Credits the executor the fees earned so far.
fn run_proof<'a, K: KvStore, P: Primitives>(
    fork: &mut RamMirrorKvStore<'a, K>,
    contract_id: &ContractId,
    circuit: &crate::zk::ZkVerifierKey,
    aux_data: &ZkCompressedState,
    next_state: &ZkCompressedState,
    proof: &crate::zk::ZkProof,
    executor_fee: u64,
    balance: &mut u64,
) -> (r: Result<(), BlockchainError>)
    ensures
        final(fork).store == old(fork).store,
        match prove_step::<P>(
            *contract_id,
            UpdateState { store: old(fork).view(), fee: executor_fee, balance: *old(balance) },
            circuit.deep_view(),
            *aux_data,
            *next_state,
            proof.deep_view(),
        ) {
            Ok(done) => r is Ok && final(fork).view() == done.store && *final(balance)
                == done.balance && done.fee == executor_fee,
            Err(e) => r is Err && r.unwrap_err() == e,
        },
{
    let mut cont_account = get_contract_account(fork, contract_id)?;
    if !P::check_proof(circuit, &cont_account.compressed_state, aux_data, next_state, proof) {
        return Err(BlockchainError::IncorrectZkProof);
    }
    let credited = match (*balance).checked_add(executor_fee) {
        Some(credited) => credited,
        None => {
            return Err(BlockchainError::Inconsistency);
        },
    };
    cont_account.compressed_state = *next_state;
    fork.put(keys::contract_account(contract_id), Value::ContractAccount(cont_account));
    *balance = credited;
    Ok(())
}

/// Executes one update of a contract on `fork`.
fn run_update<'a, K: KvStore, P: Primitives>(
    config: &BlockchainConfig,
    fork: &mut RamMirrorKvStore<'a, K>,
    src: &Address,
    contract_id: &ContractId,
    contract: &ZkContract,
    update: &ContractUpdate,
    executor_fee: &mut u64,
    balance: &mut u64,
) -> (r: Result<(), BlockchainError>)
    ensures
        final(fork).store == old(fork).store,
        match update_step::<P>(
            config.deep_view(),
            *src,
            *contract_id,
            contract.deep_view(),
            UpdateState {
                store: old(fork).view(),
                fee: *old(executor_fee),
                balance: *old(balance),
            },
            update.deep_view(),
        ) {
            Ok(done) => r is Ok && final(fork).view() == done.store && *final(executor_fee)
                == done.fee && *final(balance) == done.balance,
            Err(e) => r is Err && r.unwrap_err() == e,
        },
{
    match update {
        ContractUpdate::Payment { circuit_id, payments, next_state, proof } => {
            if *circuit_id as usize >= contract.payment_functions.len() {
                return Err(BlockchainError::ContractFunctionNotFound);
            }
            let payment_func = &contract.payment_functions[*circuit_id as usize];
            let slots = run_payments::<K, P>(config, fork, src, payments, executor_fee)?;
            let aux_data = match P::payment_state(payment_func.log4_payment_capacity, &slots) {
                Ok(aux_data) => aux_data,
                Err(e) => {
                    return Err(BlockchainError::StateManagerError(e));
                },
            };
            run_proof::<K, P>(
                fork,
                contract_id,
                &payment_func.verifier_key,
                &aux_data,
                next_state,
                proof,
                *executor_fee,
                balance,
            )
        },
        ContractUpdate::FunctionCall { function_id, next_state, proof, fee } => {
            let earned = match (*executor_fee).checked_add(*fee) {
                Some(earned) => earned,
                None => {
                    return Err(BlockchainError::Inconsistency);
                },
            };
            let mut cont_account = get_contract_account(fork, contract_id)?;
            if cont_account.balance < *fee {
                return Err(BlockchainError::ContractBalanceInsufficient);
            }
            if *function_id as usize >= contract.functions.len() {
                return Err(BlockchainError::ContractFunctionNotFound);
            }
            let circuit = &contract.functions[*function_id as usize];
            let aux_data = match P::fee_state(*fee) {
                Ok(aux_data) => aux_data,
                Err(e) => {
                    return Err(BlockchainError::StateManagerError(e));
                },
            };
            *executor_fee = earned;
            cont_account.balance -= *fee;
            fork.put(keys::contract_account(contract_id), Value::ContractAccount(cont_account));
            run_proof::<K, P>(
                fork,
                contract_id,
                circuit,
                &aux_data,
                next_state,
                proof,
                *executor_fee,
                balance,
            )
        },
    }
}

/// Executes the updates of a transaction on `fork`, in order.
fn run_updates<'a, K: KvStore, P: Primitives>(
    config: &BlockchainConfig,
    fork: &mut RamMirrorKvStore<'a, K>,
    src: &Address,
    contract_id: &ContractId,
    contract: &ZkContract,
    updates: &Vec<ContractUpdate>,
    balance: &mut u64,
) -> (r: Result<(), BlockchainError>)
    ensures
        final(fork).store == old(fork).store,
        match updates_fold::<P>(
            config.deep_view(),
            *src,
            *contract_id,
            contract.deep_view(),
            UpdateState { store: old(fork).view(), fee: 0, balance: *old(balance) },
            updates.deep_view(),
            updates.deep_view().len(),
        ) {
            Ok(done) => r is Ok && final(fork).view() == done.store && *final(balance)
                == done.balance,
            Err(e) => r is Err && r.unwrap_err() == e,
        },
{
    let ghost start = UpdateState { store: fork.view(), fee: 0, balance: *balance };
    let mut executor_fee: u64 = 0;
    let mut i: usize = 0;
    while i < updates.len()
        invariant
            i <= updates.len(),
            fork.store == old(fork).store,
            start == (UpdateState { store: old(fork).view(), fee: 0, balance: *old(balance) }),
            updates_fold::<P>(
                config.deep_view(),
                *src,
                *contract_id,
                contract.deep_view(),
                start,
                updates.deep_view(),
                i as nat,
            ) == Ok::<_, BlockchainError>(
                UpdateState { store: fork.view(), fee: executor_fee, balance: *balance },
            ),
        decreases updates.len() - i,
    {
        proof {
            if updates_fold::<P>(
                config.deep_view(),
                *src,
                *contract_id,
                contract.deep_view(),
                start,
                updates.deep_view(),
                (i + 1) as nat,
            ) is Err {
                lemma_updates_fold_fails::<P>(
                    config.deep_view(),
                    *src,
                    *contract_id,
                    contract.deep_view(),
                    start,
                    updates.deep_view(),
                    (i + 1) as nat,
                    updates.deep_view().len(),
                );
            }
        }
        run_update::<K, P>(
            config,
            fork,
            src,
            contract_id,
            contract,
            &updates[i],
            &mut executor_fee,
            balance,
        )?;
        i += 1;
    }
    Ok(())
}

/// The writes and the side effect of a transaction.
pub fn transaction_ops<K: KvStore, P: Primitives>(
    config: &BlockchainConfig,
    db: &K,
    tx: &Transaction,
    allow_treasury: bool,
) -> (r: Result<(Vec<WriteOp>, TxSideEffect), BlockchainError>)
    ensures
        match tx_step::<P>(config.deep_view(), db.view(), tx.deep_view(), allow_treasury) {
            Ok((after, effect)) => r is Ok && apply_ops(db.view(), r.unwrap().0.deep_view())
                == after && r.unwrap().1 == effect,
            Err(e) => r is Err && r.unwrap_err() == e,
        },
{
    let mut side_effect = TxSideEffect::Nothing;
    let mut acc_src = get_account(config, db, &tx.src)?;
    if tx.src.same(&Address::Treasury) && !allow_treasury {
        return Err(BlockchainError::IllegalTreasuryAccess);
    }
    if acc_src.nonce == u32::MAX || tx.nonce != acc_src.nonce + 1 {
        return Err(BlockchainError::InvalidTransactionNonce);
    }
    if acc_src.balance < tx.fee {
        return Err(BlockchainError::BalanceInsufficient);
    }
    acc_src.balance -= tx.fee;
    acc_src.nonce += 1;
    let mut fork = RamMirrorKvStore::new(db);
    match &tx.data {
        TransactionData::RegularSend { dst, amount } => {
            if dst.same(&tx.src) {
                return Err(BlockchainError::SelfPaymentNotAllowed);
            }
            if acc_src.balance < *amount {
                return Err(BlockchainError::BalanceInsufficient);
            }
            acc_src.balance -= *amount;
            let mut acc_dst = get_account(config, &fork, dst)?;
            acc_dst.balance = match acc_dst.balance.checked_add(*amount) {
                Some(balance) => balance,
                None => {
                    return Err(BlockchainError::Inconsistency);
                },
            };
            fork.put(keys::account(dst), Value::Account(acc_dst));
        },
        TransactionData::CreateContract { contract } => {
            if !P::is_valid_model(&contract.state_model) {
                return Err(BlockchainError::InvalidStateModel);
            }
            let contract_id = ContractId(P::transaction_digest(tx));
            fork.put(keys::contract(&contract_id), Value::Contract(contract.clone()));
            let compressed_empty = P::empty_state(&contract.state_model);
            fork.put(
                keys::contract_account(&contract_id),
                Value::ContractAccount(
                    ContractAccount {
                        compressed_state: contract.initial_state,
                        balance: 0,
                        height: 1,
                    },
                ),
            );
            fork.put(
                keys::compressed_state_at(&contract_id, 1),
                Value::CompressedState(contract.initial_state),
            );
            side_effect = TxSideEffect::StateChange {
                contract_id,
                state_change: ZkCompressedStateChange {
                    prev_height: 0,
                    prev_state: compressed_empty,
                    state: contract.initial_state,
                },
            };
        },
        TransactionData::UpdateContract { contract_id, updates } => {
            let contract = get_contract(&fork, contract_id)?;
            let prev_account = get_contract_account(&fork, contract_id)?;
            if prev_account.height == u64::MAX {
                return Err(BlockchainError::Inconsistency);
            }
            let mut cont_account = prev_account;
            cont_account.height += 1;
            fork.put(keys::contract_account(contract_id), Value::ContractAccount(cont_account));
            run_updates::<K, P>(
                config,
                &mut fork,
                &tx.src,
                contract_id,
                &contract,
                updates,
                &mut acc_src.balance,
            )?;
            let cont_account = get_contract_account(&fork, contract_id)?;
            fork.put(
                keys::compressed_state_at(contract_id, cont_account.height),
                Value::CompressedState(cont_account.compressed_state),
            );
            side_effect = TxSideEffect::StateChange {
                contract_id: *contract_id,
                state_change: ZkCompressedStateChange {
                    prev_height: prev_account.height,
                    prev_state: prev_account.compressed_state,
                    state: cont_account.compressed_state,
                },
            };
        },
    }
    fork.put(keys::account(&tx.src), Value::Account(acc_src));
    if !tx.src.same(&Address::Treasury) {
        let mut acc_treasury = get_account(config, &fork, &Address::Treasury)?;
        acc_treasury.balance = match acc_treasury.balance.checked_add(tx.fee) {
            Some(balance) => balance,
            None => {
                return Err(BlockchainError::Inconsistency);
            },
        };
        fork.put(keys::account(&Address::Treasury), Value::Account(acc_treasury));
    }
    Ok((fork.to_ops(), side_effect))
}

} // verus!
