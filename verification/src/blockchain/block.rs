//! Applying a block to the chain.
use crate::blockchain::fork_choice::{will_extend, will_extend_of};
use crate::blockchain::model::{
    height_of, next_reward_of, outdated_of, outdated_op, power_of, Config, Outcome,
};
use crate::blockchain::read::{get_height, get_outdated_contracts, get_power, next_reward};
use crate::blockchain::tx::{transaction_ops, tx_step};
use crate::blockchain::{
    BlockchainConfig, BlockchainError, Primitives, TxSideEffect, ZkCompressedStateChange,
};
use crate::db::{
    apply_op, apply_ops, keys, lemma_rollback_view, lemma_undo_restores, restore_op, Key, KvStore,
    RamMirrorKvStore, StoreView, Value, ValueView, WriteOp, WriteOpView,
};
use crate::types::merkle::{merkle_root, merkle_tree_of, body_leaves};
use crate::types::{
    transaction_signed, transaction_size, Address, Block, BlockView, ContractId, ContractUpdate,
    ContractUpdateView, Signature, Transaction, TransactionData, TransactionDataView,
    TransactionView,
};
use crate::utils::{add_sizes, bytes_eq, clip, lemma_clip_add};
use vstd::prelude::*;

verus! {

/// Where the execution of the transactions of a block stands.
pub struct BlockState {
    /// The store.
    pub store: StoreView,
    /// The size of the transactions so far, capped at the largest `usize`.
    pub body_size: usize,
    /// How much the sizes of the contract states have grown.
    pub delta: int,
    /// The latest state change of each contract touched, in the order in
    /// which the contracts were first touched.
    pub updates: Seq<(ContractId, ZkCompressedStateChange)>,
    /// The outdated contracts: those that were, and those touched.
    pub outdated: Seq<ContractId>,
    /// The function calls on the payment network's contract so far, capped.
    pub calls: usize,
    /// The payment batches on the payment network's contract so far, capped.
    pub payments: usize,
}

/// The first entry of `changes` for `contract_id`, if there is one.
pub open spec fn change_index(
    changes: Seq<(ContractId, ZkCompressedStateChange)>,
    contract_id: ContractId,
) -> Option<int> {
    if exists|i: int| 0 <= i < changes.len() && changes[i].0 == contract_id {
        Some(
            choose|i: int|
                0 <= i < changes.len() && changes[i].0 == contract_id && forall|j: int|
                    0 <= j < i ==> changes[j].0 != contract_id,
        )
    } else {
        None
    }
}

/// `changes` with `change` as the entry of `contract_id`: in place of its
/// earlier entry, or at the end.
pub open spec fn record_change(
    changes: Seq<(ContractId, ZkCompressedStateChange)>,
    contract_id: ContractId,
    change: ZkCompressedStateChange,
) -> Seq<(ContractId, ZkCompressedStateChange)> {
    match change_index(changes, contract_id) {
        Some(i) => changes.update(i, (contract_id, change)),
        None => changes.push((contract_id, change)),
    }
}

/// `ids` with `contract_id` added at the end, unless it is there already.
pub open spec fn mark_outdated(ids: Seq<ContractId>, contract_id: ContractId) -> Seq<ContractId> {
    if ids.contains(contract_id) {
        ids
    } else {
        ids.push(contract_id)
    }
}

/// How many of the first `n` updates are function calls.
pub open spec fn count_calls(updates: Seq<ContractUpdateView>, n: nat) -> nat
    decreases n,
{
    if n == 0 || n > updates.len() {
        0
    } else {
        count_calls(updates, (n - 1) as nat) + if updates[n - 1] is FunctionCall {
            1nat
        } else {
            0nat
        }
    }
}

/// The function calls that a transaction makes on the payment network's
/// contract.
pub open spec fn mpn_calls(cfg: Config, tx: TransactionView) -> nat {
    match tx.data {
        TransactionDataView::UpdateContract { contract_id, updates } => if contract_id
            == cfg.mpn_contract_id {
            count_calls(updates, updates.len())
        } else {
            0
        },
        _ => 0,
    }
}

/// The payment batches that a transaction executes on the payment network's
/// contract.
pub open spec fn mpn_payments(cfg: Config, tx: TransactionView) -> nat {
    match tx.data {
        TransactionDataView::UpdateContract { contract_id, updates } => if contract_id
            == cfg.mpn_contract_id {
            (updates.len() - count_calls(updates, updates.len())) as nat
        } else {
            0
        },
        _ => 0,
    }
}

/// The execution of one transaction of a block.
pub open spec fn block_tx_step<P: Primitives>(
    cfg: Config,
    is_genesis: bool,
    st: BlockState,
    tx: TransactionView,
) -> Outcome<BlockState> {
    match tx_step::<P>(cfg, st.store, tx, is_genesis) {
        Err(e) => Err(e),
        Ok((after, effect)) => {
            let counted = BlockState {
                store: after,
                body_size: clip((st.body_size + transaction_size(tx)) as nat),
                calls: clip((st.calls + mpn_calls(cfg, tx)) as nat),
                payments: clip((st.payments + mpn_payments(cfg, tx)) as nat),
                ..st
            };
            match effect {
                TxSideEffect::Nothing => Ok(counted),
                TxSideEffect::StateChange { contract_id, state_change } => Ok(
                    BlockState {
                        delta: st.delta + state_change.state.state_size
                            - state_change.prev_state.state_size,
                        updates: record_change(st.updates, contract_id, state_change),
                        outdated: mark_outdated(st.outdated, contract_id),
                        ..counted
                    },
                ),
            }
        },
    }
}

/// The execution of the first `n` transactions of `txs`.
pub open spec fn txs_fold<P: Primitives>(
    cfg: Config,
    is_genesis: bool,
    start: BlockState,
    txs: Seq<TransactionView>,
    n: nat,
) -> Outcome<BlockState>
    decreases n,
{
    if n == 0 || n > txs.len() {
        Ok(start)
    } else {
        match txs_fold::<P>(cfg, is_genesis, start, txs, (n - 1) as nat) {
            Err(e) => Err(e),
            Ok(st) => block_tx_step::<P>(cfg, is_genesis, st, txs[n - 1]),
        }
    }
}

/// The sum of the fees of the first `n` transactions of `txs`.
pub open spec fn fees_sum(txs: Seq<TransactionView>, n: nat) -> int
    decreases n,
{
    if n == 0 || n > txs.len() {
        0
    } else {
        fees_sum(txs, (n - 1) as nat) + txs[n - 1].fee
    }
}

/// Whether `reward` is the reward transaction of a block: an unsigned
/// transfer from the treasury, without fee, of exactly `amount`.
pub open spec fn is_reward(reward: TransactionView, amount: int) -> bool {
    &&& reward.src == Address::Treasury
    &&& reward.fee == 0
    &&& reward.sig == Signature::Unsigned
    &&& reward.data matches TransactionDataView::RegularSend { amount: sent, .. }
    &&& sent == amount
}

/// Whether all of `txs` are signed.
pub open spec fn all_signed<P: Primitives>(txs: Seq<TransactionView>) -> bool {
    forall|i: int| 0 <= i < txs.len() ==> transaction_signed::<P>(#[trigger] txs[i])
}

/// The transactions of a block after the reward transaction (a genesis
/// block has none).
pub open spec fn ordinary_txs(block: BlockView) -> Seq<TransactionView> {
    if block.header.number == 0 {
        block.body
    } else {
        block.body.subrange(1, block.body.len() as int)
    }
}

/// The first part of applying a block: the header is checked against the
/// chain and the reward transaction is executed. Gives the store after it.
pub open spec fn block_entry<P: Primitives>(
    cfg: Config,
    s: StoreView,
    block: BlockView,
    check_pow: bool,
) -> Outcome<StoreView> {
    match height_of(s) {
        Err(e) => Err(e),
        Ok(height) => match next_reward_of(cfg, s) {
            Err(e) => Err(e),
            Ok(reward) => if height > 0 && merkle_root::<P>(body_leaves::<P>(block.body))
                != block.header.block_root {
                Err(BlockchainError::InvalidMerkleRoot)
            } else if height > 0 && will_extend_of::<P>(
                cfg,
                s,
                height,
                seq![block.header],
                check_pow,
            ) is Err {
                Err(will_extend_of::<P>(cfg, s, height, seq![block.header], check_pow).unwrap_err())
            } else if block.header.number == 0 {
                Ok(s)
            } else if block.body.len() == 0 {
                Err(BlockchainError::MinerRewardNotFound)
            } else if !is_reward(
                block.body[0],
                reward + fees_sum(ordinary_txs(block), ordinary_txs(block).len()),
            ) {
                Err(BlockchainError::InvalidMinerReward)
            } else {
                match tx_step::<P>(cfg, s, block.body[0], true) {
                    Err(e) => Err(e),
                    Ok((after, _)) => Ok(after),
                }
            },
        },
    }
}

/// The store with the records of a block: the new height, the cumulative
/// power, the header, the block, its hash tree and its state changes.
pub open spec fn block_records<P: Primitives>(
    store: StoreView,
    block: BlockView,
    height: u64,
    power: u128,
    updates: Seq<(ContractId, ZkCompressedStateChange)>,
) -> StoreView {
    let n = block.header.number;
    store.insert(Key::Height, ValueView::Height(height)).insert(
        Key::Power(n),
        ValueView::Power(power),
    ).insert(Key::Header(n), ValueView::Header(block.header)).insert(
        Key::Block(n),
        ValueView::Block(block),
    ).insert(Key::Merkle(n), ValueView::Merkle(merkle_tree_of::<P>(block.body))).insert(
        Key::ContractUpdates,
        ValueView::ContractUpdates(updates),
    )
}

/// Applying a block, up to its undo log: the store with the block's
/// transactions executed and its records written, and the outdated contracts.
///
/// After the header checks and the reward transaction, every other
/// transaction must be signed; they are executed in order. A block after the
/// genesis block must hold enough updates of the payment network's contract.
/// The block must respect the limits on its size and on the growth of the
/// contract states.
pub open spec fn block_body<P: Primitives>(
    cfg: Config,
    s: StoreView,
    block: BlockView,
    check_pow: bool,
) -> Outcome<(StoreView, Seq<ContractId>)> {
    let is_genesis = block.header.number == 0;
    match block_entry::<P>(cfg, s, block, check_pow) {
        Err(e) => Err(e),
        Ok(entered) => match outdated_of(s) {
            Err(e) => Err(e),
            Ok(outdated) => if !all_signed::<P>(ordinary_txs(block)) {
                Err(BlockchainError::SignatureError)
            } else {
                match txs_fold::<P>(
                    cfg,
                    is_genesis,
                    BlockState {
                        store: entered,
                        body_size: 0,
                        delta: 0,
                        updates: Seq::empty(),
                        outdated,
                        calls: 0,
                        payments: 0,
                    },
                    ordinary_txs(block),
                    ordinary_txs(block).len(),
                ) {
                    Err(e) => Err(e),
                    Ok(done) => if !is_genesis && (done.calls < cfg.mpn_num_function_calls
                        || done.payments < cfg.mpn_num_contract_payments) {
                        Err(BlockchainError::InsufficientMpnUpdates)
                    } else if done.body_size > cfg.max_block_size {
                        Err(BlockchainError::BlockTooBig)
                    } else if done.delta > cfg.max_delta_count {
                        Err(BlockchainError::StateDeltaTooBig)
                    } else if height_of(s).unwrap() == u64::MAX {
                        Err(BlockchainError::Inconsistency)
                    } else {
                        match power_of(s) {
                            Err(e) => Err(e),
                            Ok(power) => if power + P::spec_power(
                                block.header.proof_of_work.target,
                            ) > u128::MAX {
                                Err(BlockchainError::Inconsistency)
                            } else {
                                Ok(
                                    (
                                        block_records::<P>(
                                            done.store,
                                            block,
                                            (height_of(s).unwrap() + 1) as u64,
                                            (power + P::spec_power(
                                                block.header.proof_of_work.target,
                                            )) as u128,
                                            done.updates,
                                        ),
                                        done.outdated,
                                    ),
                                )
                            },
                        }
                    },
                }
            },
        },
    }
}

/// Whether `undo` is an undo log that takes the store `after` back to
/// `before`: each of its writes restores a key to what `before` holds, and
/// together they turn `after` into `before`.
pub open spec fn is_undo_log(undo: Seq<WriteOpView>, before: StoreView, after: StoreView) -> bool {
    &&& apply_ops(after, undo) == before
    &&& forall|i: int| 0 <= i < undo.len() ==> undo[i] == restore_op(before, (#[trigger] undo[i]).key())
}

/// The store after a block whose body left `recorded` and `outdated`, with
/// the undo log `undo`: the log is kept under the block's number, and the
/// outdated contracts are written.
pub open spec fn block_store(
    recorded: StoreView,
    outdated: Seq<ContractId>,
    number: u64,
    undo: Seq<WriteOpView>,
) -> StoreView {
    apply_op(recorded.insert(Key::Rollback(number), ValueView::Rollback(undo)), outdated_op(outdated))
}

/// Whether `after` is the store that applying `block` to `s` leaves.
pub open spec fn is_block_result<P: Primitives>(
    cfg: Config,
    s: StoreView,
    block: BlockView,
    check_pow: bool,
    after: StoreView,
) -> bool {
    match block_body::<P>(cfg, s, block, check_pow) {
        Err(_) => false,
        Ok((recorded, outdated)) => exists|undo: Seq<WriteOpView>|
            #[trigger] is_undo_log(undo, s, recorded) && after == block_store(
                recorded,
                outdated,
                block.header.number,
                undo,
            ),
    }
}


/// A sequence of transactions fails where its first failing prefix fails.
pub proof fn lemma_txs_fold_fails<P: Primitives>(
    cfg: Config,
    is_genesis: bool,
    start: BlockState,
    txs: Seq<TransactionView>,
    n: nat,
    m: nat,
)
    requires
        n <= m <= txs.len(),
        txs_fold::<P>(cfg, is_genesis, start, txs, n) is Err,
    ensures
        txs_fold::<P>(cfg, is_genesis, start, txs, m) == txs_fold::<P>(
            cfg,
            is_genesis,
            start,
            txs,
            n,
        ),
    decreases m,
{
    if n < m {
        lemma_txs_fold_fails::<P>(cfg, is_genesis, start, txs, n, (m - 1) as nat);
    }
}

/// Checks the signatures of the transactions from `start` on, in parallel,
/// with `rayon`'s `par_iter` and `all`: the answer is whether every one of
/// them is signed.
#[verifier::external_body]
fn signatures_valid<P: Primitives>(txs: &Vec<Transaction>, start: usize) -> (ok: bool)
    requires
        start <= txs.len(),
    ensures
        ok == forall|i: int|
            start <= i < txs.len() ==> transaction_signed::<P>((#[trigger] txs@[i]).deep_view()),
{
    rayon::iter::ParallelIterator::all(
        rayon::iter::IntoParallelRefIterator::par_iter(&txs[start..]),
        |tx: &Transaction| tx.verify_signature::<P>(),
    )
}

/// The sum of the fees of the transactions from `start` on.
fn sum_fees(txs: &Vec<Transaction>, start: usize) -> (sum: u128)
    requires
        start <= txs.len(),
    ensures
        sum == fees_sum(
            txs.deep_view().subrange(start as int, txs.len() as int),
            (txs.len() - start) as nat,
        ),
        sum <= (txs.len() - start) * 0xffff_ffff_ffff_ffff,
{
    let ghost rest = txs.deep_view().subrange(start as int, txs.len() as int);
    let mut sum: u128 = 0;
    let mut i: usize = start;
    while i < txs.len()
        invariant
            start <= i <= txs.len(),
            rest == txs.deep_view().subrange(start as int, txs.len() as int),
            sum == fees_sum(rest, (i - start) as nat),
            sum <= (i - start) * 0xffff_ffff_ffff_ffff,
        decreases txs.len() - i,
    {
        assert(rest[i - start] == txs@[i as int].deep_view());
        assert((i - start + 1) * 0xffff_ffff_ffff_ffff <= 0xffff_ffff_ffff_ffff
            * 0xffff_ffff_ffff_ffff) by (nonlinear_arith)
            requires
                i - start + 1 <= 0xffff_ffff_ffff_ffff,
        ;
        sum = sum + txs[i].fee as u128;
        i += 1;
    }
    sum
}

/// What a block has done so far besides changing the store.
#[derive(Debug)]
pub struct Progress {
    pub body_size: usize,
    pub delta: i128,
    pub updates: Vec<(ContractId, ZkCompressedStateChange)>,
    pub outdated: Vec<ContractId>,
    pub calls: usize,
    pub payments: usize,
}

impl Progress {
    /// The model of the progress, on the store `store`.
    pub open spec fn on(&self, store: StoreView) -> BlockState {
        BlockState {
            store,
            body_size: self.body_size,
            delta: self.delta as int,
            updates: self.updates@,
            outdated: self.outdated@,
            calls: self.calls,
            payments: self.payments,
        }
    }
}

/// Records `change` as the state change of `contract_id`.
fn record(
    updates: &mut Vec<(ContractId, ZkCompressedStateChange)>,
    contract_id: ContractId,
    change: ZkCompressedStateChange,
)
    ensures
        final(updates)@ == record_change(old(updates)@, contract_id, change),
{
    let mut i: usize = 0;
    while i < updates.len()
        invariant
            i <= updates.len(),
            updates@ == old(updates)@,
            forall|j: int| 0 <= j < i ==> updates@[j].0 != contract_id,
        decreases updates.len() - i,
    {
        if updates[i].0.same(&contract_id) {
            updates.set(i, (contract_id, change));
            return ;
        }
        i += 1;
    }
    updates.push((contract_id, change));
}

/// Whether `ids` holds `contract_id`.
pub fn holds(ids: &Vec<ContractId>, contract_id: &ContractId) -> (found: bool)
    ensures
        found == ids@.contains(*contract_id),
{
    let mut i: usize = 0;
    while i < ids.len()
        invariant
            i <= ids.len(),
            forall|j: int| 0 <= j < i ==> ids@[j] != *contract_id,
        decreases ids.len() - i,
    {
        if ids[i].same(contract_id) {
            return true;
        }
        i += 1;
    }
    false
}

/// Counts the updates of a transaction on the payment network's contract:
/// the function calls, and the payment batches.
fn count_mpn(config: &BlockchainConfig, tx: &Transaction) -> (counts: (usize, usize))
    ensures
        counts.0 == mpn_calls(config.deep_view(), tx.deep_view()),
        counts.1 == mpn_payments(config.deep_view(), tx.deep_view()),
{
    match &tx.data {
        TransactionData::UpdateContract { contract_id, updates } => {
            if contract_id.same(&config.mpn_contract_id) {
                let mut calls: usize = 0;
                let mut i: usize = 0;
                while i < updates.len()
                    invariant
                        i <= updates.len(),
                        calls == count_calls(updates.deep_view(), i as nat),
                        calls <= i,
                    decreases updates.len() - i,
                {
                    match &updates[i] {
                        ContractUpdate::Payment { .. } => {},
                        ContractUpdate::FunctionCall { .. } => {
                            calls += 1;
                        },
                    }
                    i += 1;
                }
                (calls, updates.len() - calls)
            } else {
                (0, 0)
            }
        },
        _ => (0, 0),
    }
}

/// Executes one transaction of a block on `fork`.
fn run_block_tx<'a, K: KvStore, P: Primitives>(
    config: &BlockchainConfig,
    fork: &mut RamMirrorKvStore<'a, K>,
    is_genesis: bool,
    progress: &mut Progress,
    tx: &Transaction,
    Ghost(done): Ghost<int>,
) -> (r: Result<(), BlockchainError>)
    requires
        0 <= done < usize::MAX,
        -done * 0x1_0000_0000 <= old(progress).delta <= done * 0x1_0000_0000,
    ensures
        final(fork).store == old(fork).store,
        match block_tx_step::<P>(
            config.deep_view(),
            is_genesis,
            old(progress).on(old(fork).view()),
            tx.deep_view(),
        ) {
            Ok(st) => r is Ok && final(progress).on(final(fork).view()) == st && -(done + 1)
                * 0x1_0000_0000 <= final(progress).delta <= (done + 1) * 0x1_0000_0000,
            Err(e) => r is Err && r.unwrap_err() == e,
        },
{
    let (calls, payments) = count_mpn(config, tx);
    let (ops, effect) = transaction_ops::<RamMirrorKvStore<'a, K>, P>(
        config,
        fork,
        tx,
        is_genesis,
    )?;
    fork.apply(&ops);
    progress.calls = add_sizes(progress.calls, calls);
    progress.payments = add_sizes(progress.payments, payments);
    progress.body_size = add_sizes(progress.body_size, tx.size());
    proof {
        lemma_clip_add(old(progress).body_size as nat, transaction_size(tx.deep_view()));
    }
    match effect {
        TxSideEffect::StateChange { contract_id, state_change } => {
            progress.delta = progress.delta + state_change.state.size() as i128
                - state_change.prev_state.size() as i128;
            record(&mut progress.updates, contract_id, state_change);
            if !holds(&progress.outdated, &contract_id) {
                progress.outdated.push(contract_id);
            }
        },
        TxSideEffect::Nothing => {},
    }
    Ok(())
}

/// Checks the header of a block against the chain and executes its reward
/// transaction on `fork`, which holds no writes yet.
fn enter_block<'a, K: KvStore, P: Primitives>(
    config: &BlockchainConfig,
    fork: &mut RamMirrorKvStore<'a, K>,
    block: &Block,
    check_pow: bool,
) -> (r: Result<(), BlockchainError>)
    requires
        config.deep_view().valid(),
    ensures
        final(fork).store == old(fork).store,
        match block_entry::<P>(config.deep_view(), old(fork).view(), block.deep_view(), check_pow) {
            Ok(entered) => r is Ok && final(fork).view() == entered,
            Err(e) => r is Err && r.unwrap_err() == e,
        },
{
    let curr_height = get_height(fork)?;
    let is_genesis = block.header.number == 0;
    let reward = next_reward(config, fork)?;
    if curr_height > 0 {
        if !bytes_eq(&block.merkle_tree::<P>().root(), &block.header.block_root) {
            return Err(BlockchainError::InvalidMerkleRoot);
        }
        let mut headers = Vec::new();
        headers.push(block.header);
        assert(headers@ =~= seq![block.header]);
        will_extend::<RamMirrorKvStore<'a, K>, P>(config, fork, curr_height, &headers, check_pow)?;
    }
    if is_genesis {
        return Ok(());
    }
    if block.body.len() == 0 {
        return Err(BlockchainError::MinerRewardNotFound);
    }
    let fee_sum = sum_fees(&block.body, 1);
    let reward_tx = &block.body[0];
    assert(block.deep_view().body[0] == reward_tx.deep_view());
    assert(fee_sum + reward <= u128::MAX) by (nonlinear_arith)
        requires
            fee_sum <= (block.body.len() - 1) * 0xffff_ffff_ffff_ffff,
            block.body.len() <= 0xffff_ffff_ffff_ffff,
            reward <= 0xffff_ffff_ffff_ffff,
    ;
    if !reward_tx.src.same(&Address::Treasury) || reward_tx.fee != 0
        || !reward_tx.sig.is_unsigned() {
        return Err(BlockchainError::InvalidMinerReward);
    }
    match &reward_tx.data {
        TransactionData::RegularSend { dst: _, amount } => {
            if *amount as u128 != reward as u128 + fee_sum {
                return Err(BlockchainError::InvalidMinerReward);
            }
        },
        _ => {
            return Err(BlockchainError::InvalidMinerReward);
        },
    }
    let (ops, _) = transaction_ops::<RamMirrorKvStore<'a, K>, P>(config, fork, reward_tx, true)?;
    fork.apply(&ops);
    Ok(())
}

/// Executes the transactions of a block from `start` on, in order, on
/// `fork`.
fn run_block_txs<'a, K: KvStore, P: Primitives>(
    config: &BlockchainConfig,
    fork: &mut RamMirrorKvStore<'a, K>,
    is_genesis: bool,
    body: &Vec<Transaction>,
    start: usize,
    outdated: Vec<ContractId>,
) -> (r: Result<Progress, BlockchainError>)
    requires
        start <= body.len(),
    ensures
        final(fork).store == old(fork).store,
        match txs_fold::<P>(
            config.deep_view(),
            is_genesis,
            BlockState {
                store: old(fork).view(),
                body_size: 0,
                delta: 0,
                updates: Seq::empty(),
                outdated: outdated@,
                calls: 0,
                payments: 0,
            },
            body.deep_view().subrange(start as int, body.len() as int),
            (body.len() - start) as nat,
        ) {
            Ok(st) => r is Ok && r.unwrap().on(final(fork).view()) == st,
            Err(e) => r is Err && r.unwrap_err() == e,
        },
{
    let ghost txs = body.deep_view().subrange(start as int, body.len() as int);
    let mut progress = Progress {
        body_size: 0,
        delta: 0,
        updates: Vec::new(),
        outdated,
        calls: 0,
        payments: 0,
    };
    let ghost first = progress.on(fork.view());
    let mut i: usize = start;
    while i < body.len()
        invariant
            start <= i <= body.len(),
            fork.store == old(fork).store,
            txs == body.deep_view().subrange(start as int, body.len() as int),
            first == (BlockState {
                store: old(fork).view(),
                body_size: 0,
                delta: 0,
                updates: Seq::empty(),
                outdated: outdated@,
                calls: 0,
                payments: 0,
            }),
            -(i - start) * 0x1_0000_0000 <= progress.delta <= (i - start) * 0x1_0000_0000,
            txs_fold::<P>(config.deep_view(), is_genesis, first, txs, (i - start) as nat) == Ok::<
                _,
                BlockchainError,
            >(progress.on(fork.view())),
        decreases body.len() - i,
    {
        proof {
            assert(txs[i - start] == body@[i as int].deep_view());
            if txs_fold::<P>(config.deep_view(), is_genesis, first, txs, (i - start + 1) as nat)
                is Err {
                lemma_txs_fold_fails::<P>(
                    config.deep_view(),
                    is_genesis,
                    first,
                    txs,
                    (i - start + 1) as nat,
                    txs.len(),
                );
            }
        }
        run_block_tx::<K, P>(
            config,
            fork,
            is_genesis,
            &mut progress,
            &body[i],
            Ghost(i - start),
        )?;
        i += 1;
    }
    Ok(progress)
}

/// Writes the records of a block on `fork`, then its undo log and the
/// outdated contracts, and returns all the writes of `fork`.
fn seal_block<'a, K: KvStore, P: Primitives>(
    entered: RamMirrorKvStore<'a, K>,
    block: &Block,
    height: u64,
    power: u128,
    updates: Vec<(ContractId, ZkCompressedStateChange)>,
    outdated: Vec<ContractId>,
) -> (ops: Vec<WriteOp>)
    ensures
        exists|undo: Seq<WriteOpView>|
            #[trigger] is_undo_log(
                undo,
                entered.store.view(),
                block_records::<P>(entered.view(), block.deep_view(), height, power, updates@),
            ) && apply_ops(entered.store.view(), ops.deep_view()) == block_store(
                block_records::<P>(entered.view(), block.deep_view(), height, power, updates@),
                outdated@,
                block.header.number,
                undo,
            ),
{
    let mut fork = entered;
    let number = block.header.number;
    fork.put(keys::height(), Value::Height(height));
    fork.put(keys::power(number), Value::Power(power));
    fork.put(keys::header(number), Value::Header(block.header));
    fork.put(keys::block(number), Value::Block(block.clone()));
    fork.put(keys::merkle(number), Value::Merkle(block.merkle_tree::<P>()));
    fork.put(keys::contract_updates(), Value::ContractUpdates(updates));
    let ghost recorded = fork.view();
    assert(recorded == block_records::<P>(
        entered.view(),
        block.deep_view(),
        height,
        power,
        updates@,
    ));
    let rollback = fork.rollback();
    proof {
        lemma_rollback_view(rollback);
        lemma_undo_restores(fork.store.view(), fork.overwrite.deep_view());
        assert(is_undo_log(rollback.deep_view(), entered.store.view(), recorded));
    }
    fork.put(keys::rollback(number), Value::Rollback(rollback));
    if outdated.len() == 0 {
        fork.remove(keys::outdated());
    } else {
        fork.put(keys::outdated(), Value::Outdated(outdated));
    }
    assert(fork.view() == block_store(recorded, outdated@, number, rollback.deep_view()));
    fork.to_ops()
}

/// The writes of applying a block.
pub fn block_ops<K: KvStore, P: Primitives>(
    config: &BlockchainConfig,
    db: &K,
    block: &Block,
    check_pow: bool,
) -> (r: Result<Vec<WriteOp>, BlockchainError>)
    requires
        config.deep_view().valid(),
    ensures
        match block_body::<P>(config.deep_view(), db.view(), block.deep_view(), check_pow) {
            Ok(_) => r is Ok && is_block_result::<P>(
                config.deep_view(),
                db.view(),
                block.deep_view(),
                check_pow,
                apply_ops(db.view(), r.unwrap().deep_view()),
            ),
            Err(e) => r is Err && r.unwrap_err() == e,
        },
{
    let mut fork = RamMirrorKvStore::new(db);
    let curr_height = get_height(db)?;
    let is_genesis = block.header.number == 0;
    enter_block::<K, P>(config, &mut fork, block, check_pow)?;
    let outdated_contracts = get_outdated_contracts(db)?;
    let start: usize = if is_genesis {
        0
    } else {
        1
    };
    let ghost txs = ordinary_txs(block.deep_view());
    assert(txs =~= block.body.deep_view().subrange(start as int, block.body.len() as int));
    if !signatures_valid::<P>(&block.body, start) {
        proof {
            let i = choose|i: int|
                start <= i < block.body.len() && !transaction_signed::<P>(
                    (#[trigger] block.body@[i]).deep_view(),
                );
            assert(txs[i - start] == block.body@[i].deep_view());
        }
        return Err(BlockchainError::SignatureError);
    }
    assert(all_signed::<P>(txs)) by {
        assert forall|i: int| 0 <= i < txs.len() implies transaction_signed::<P>(
            #[trigger] txs[i],
        ) by {
            assert(txs[i] == block.body@[i + start].deep_view());
        }
    }
    let progress = run_block_txs::<K, P>(
        config,
        &mut fork,
        is_genesis,
        &block.body,
        start,
        outdated_contracts,
    )?;
    if !is_genesis && (progress.calls < config.mpn_num_function_calls || progress.payments
        < config.mpn_num_contract_payments) {
        return Err(BlockchainError::InsufficientMpnUpdates);
    }
    if progress.body_size > config.max_block_size {
        return Err(BlockchainError::BlockTooBig);
    }
    if progress.delta > config.max_delta_count as i128 {
        return Err(BlockchainError::StateDeltaTooBig);
    }
    if curr_height == u64::MAX {
        return Err(BlockchainError::Inconsistency);
    }
    let power = match get_power(db)?.checked_add(P::power(&block.header.proof_of_work.target)) {
        Some(power) => power,
        None => {
            return Err(BlockchainError::Inconsistency);
        },
    };
    let ghost done = progress.on(fork.view());
    let ghost recorded = block_records::<P>(
        done.store,
        block.deep_view(),
        (curr_height + 1) as u64,
        power,
        done.updates,
    );
    assert(block_body::<P>(config.deep_view(), db.view(), block.deep_view(), check_pow) == Ok::<
        _,
        BlockchainError,
    >((recorded, done.outdated)));
    assert(fork.store.view() == db.view());
    let ops = seal_block::<K, P>(
        fork,
        block,
        curr_height + 1,
        power,
        progress.updates,
        progress.outdated,
    );
    proof {
        let after = apply_ops(db.view(), ops.deep_view());
        assert(exists|undo: Seq<WriteOpView>|
            #[trigger] is_undo_log(undo, db.view(), recorded) && after == block_store(
                recorded,
                done.outdated,
                block.header.number,
                undo,
            ));
        let undo = choose|undo: Seq<WriteOpView>|
            #[trigger] is_undo_log(undo, db.view(), recorded) && after == block_store(
                recorded,
                done.outdated,
                block.header.number,
                undo,
            );
        let body = block_body::<P>(config.deep_view(), db.view(), block.deep_view(), check_pow);
        assert(body.unwrap().0 == recorded);
        assert(body.unwrap().1 == done.outdated);
        assert(is_undo_log(undo, db.view(), body.unwrap().0));
        assert(block.deep_view().header.number == block.header.number);
    }
    Ok(ops)
}

} // verus!
