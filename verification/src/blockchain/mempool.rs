//! Choosing transactions for a block, drafting a block, and keeping the
//! pools of pending transactions clean.
use crate::blockchain::block::{block_body, block_ops, fees_sum, is_block_result};
use crate::blockchain::model::{
    account_of, height_of, next_difficulty_of, next_reward_of, outdated_of, tip_of, Config,
    Outcome,
};
use crate::blockchain::read::{
    get_account, get_height, get_outdated_contracts, get_tip, next_difficulty, next_reward,
};
use crate::blockchain::sync::{update_states_ops, update_states_step};
use crate::blockchain::tx::{
    contract_payment_ops, payment_step, transaction_ops, tx_step, zero_tx_ops, zero_tx_step,
};
use crate::blockchain::{
    BlockAndPatch, BlockAndPatchView, BlockchainConfig, BlockchainError, Primitives,
    TransactionStats, TxSideEffect, ZkBlockchainPatch,
};
use crate::db::{KvStore, RamMirrorKvStore, StoreView};
use crate::types::merkle::{body_leaves, merkle_root};
use crate::types::{
    transaction_signed, transaction_size, Address, Block, BlockView, ContractId, ContractPayment,
    Header, ProofOfWork, Signature, Transaction, TransactionAndDelta, TransactionAndDeltaView,
    TransactionData, TransactionDataView, TransactionView,
};
use crate::utils::clip;
use crate::zk::{ZeroTransaction, ZkStatePatch, ZkStatePatchView};
use vstd::prelude::*;

verus! {

/// What decides the order in which pending transactions are considered.
pub struct Priority {
    /// Whether the transaction updates the payment network's contract.
    pub is_mpn: bool,
    /// The fee per byte of the transaction.
    pub fee_per_byte: u64,
    /// The nonce of the transaction.
    pub nonce: u32,
}

/// The priority of a transaction.
pub open spec fn priority_of(cfg: Config, tx: TransactionView) -> Priority {
    Priority {
        is_mpn: tx.data matches TransactionDataView::UpdateContract { contract_id, .. }
            && contract_id == cfg.mpn_contract_id,
        fee_per_byte: (tx.fee / (clip(transaction_size(tx)) as u64)) as u64,
        nonce: tx.nonce,
    }
}

/// Whether `a` comes at or before `b` in ascending order: updates of the
/// payment network's contract come last, then higher fees per byte, then
/// lower nonces.
pub open spec fn at_or_before(a: Priority, b: Priority) -> bool {
    if a.is_mpn != b.is_mpn {
        b.is_mpn
    } else if a.fee_per_byte != b.fee_per_byte {
        a.fee_per_byte < b.fee_per_byte
    } else {
        a.nonce >= b.nonce
    }
}

/// `sorted` with `x` put behind the last transaction that comes at or
/// before it.
pub open spec fn insert_by_priority(
    cfg: Config,
    sorted: Seq<TransactionAndDeltaView>,
    x: TransactionAndDeltaView,
) -> Seq<TransactionAndDeltaView>
    decreases sorted.len(),
{
    if sorted.len() == 0 {
        seq![x]
    } else if at_or_before(priority_of(cfg, sorted.last().tx), priority_of(cfg, x.tx)) {
        sorted.push(x)
    } else {
        insert_by_priority(cfg, sorted.drop_last(), x).push(sorted.last())
    }
}

/// The first `n` transactions of a pool in ascending order of priority.
/// Transactions of equal priority stay in the order of the pool.
pub open spec fn sort_by_priority(
    cfg: Config,
    pool: Seq<(TransactionAndDeltaView, TransactionStats)>,
    n: nat,
) -> Seq<TransactionAndDeltaView>
    decreases n,
{
    if n == 0 || n > pool.len() {
        Seq::empty()
    } else {
        insert_by_priority(cfg, sort_by_priority(cfg, pool, (n - 1) as nat), pool[n - 1].0)
    }
}

/// Where the choice of transactions stands: the store with the chosen ones
/// executed, how much the contract states have grown, the size of the chosen
/// transactions, and the chosen transactions.
pub struct SelectState {
    pub store: StoreView,
    pub delta: int,
    pub size: usize,
    pub chosen: Seq<TransactionAndDeltaView>,
}

/// How much a transaction makes the contract states grow.
pub open spec fn delta_of_effect(effect: TxSideEffect) -> int {
    match effect {
        TxSideEffect::StateChange { state_change, .. } => state_change.state.state_size
            - state_change.prev_state.state_size,
        TxSideEffect::Nothing => 0,
    }
}

/// Considering one transaction: it is chosen if it can be executed, fits in
/// the limits on the growth of the contract states and on the size of the
/// block, and is signed.
pub open spec fn select_step<P: Primitives>(
    cfg: Config,
    st: SelectState,
    candidate: TransactionAndDeltaView,
) -> SelectState {
    match tx_step::<P>(cfg, st.store, candidate.tx, false) {
        Err(_) => st,
        Ok((after, effect)) => if st.delta + delta_of_effect(effect) <= cfg.max_delta_count
            && st.size + clip(transaction_size(candidate.tx)) <= cfg.max_block_size
            && transaction_signed::<P>(candidate.tx) {
            SelectState {
                store: after,
                delta: st.delta + delta_of_effect(effect),
                size: (st.size + clip(transaction_size(candidate.tx))) as usize,
                chosen: st.chosen.push(candidate),
            }
        } else {
            st
        },
    }
}

/// Considering the last `n` of `candidates`, from the last one backwards.
pub open spec fn select_fold<P: Primitives>(
    cfg: Config,
    start: SelectState,
    candidates: Seq<TransactionAndDeltaView>,
    n: nat,
) -> SelectState
    decreases n,
{
    if n == 0 || n > candidates.len() {
        start
    } else {
        select_step::<P>(
            cfg,
            select_fold::<P>(cfg, start, candidates, (n - 1) as nat),
            candidates[candidates.len() - n],
        )
    }
}

/// The transactions of a pool to put in the next block: in descending order
/// of priority, each one that can be executed after those chosen before it
/// and fits in the limits. Without `check`, all of them in ascending order
/// of priority.
pub open spec fn select_of<P: Primitives>(
    cfg: Config,
    s: StoreView,
    pool: Seq<(TransactionAndDeltaView, TransactionStats)>,
    check: bool,
) -> Seq<TransactionAndDeltaView> {
    let sorted = sort_by_priority(cfg, pool, pool.len());
    if !check {
        sorted
    } else {
        select_fold::<P>(
            cfg,
            SelectState { store: s, delta: 0, size: 0, chosen: Seq::empty() },
            sorted,
            sorted.len(),
        ).chosen
    }
}

impl DeepView for TransactionStats {
    type V = TransactionStats;

    open spec fn deep_view(&self) -> TransactionStats {
        *self
    }
}

/// The priority of a transaction, as a triple.
fn priority(config: &BlockchainConfig, tx: &Transaction) -> (p: (bool, u64, u32))
    ensures
        priority_of(config.deep_view(), tx.deep_view()) == (Priority {
            is_mpn: p.0,
            fee_per_byte: p.1,
            nonce: p.2,
        }),
{
    let cost = tx.size();
    let is_mpn = match &tx.data {
        TransactionData::UpdateContract { contract_id, .. } => contract_id.same(
            &config.mpn_contract_id,
        ),
        _ => false,
    };
    (is_mpn, tx.fee / cost as u64, tx.nonce)
}

fn comes_at_or_before(a: (bool, u64, u32), b: (bool, u64, u32)) -> (r: bool)
    ensures
        r == at_or_before(
            Priority { is_mpn: a.0, fee_per_byte: a.1, nonce: a.2 },
            Priority { is_mpn: b.0, fee_per_byte: b.1, nonce: b.2 },
        ),
{
    if a.0 != b.0 {
        b.0
    } else if a.1 != b.1 {
        a.1 < b.1
    } else {
        a.2 >= b.2
    }
}

/// The transactions of a pool in ascending order of priority.
fn sort_pool(config: &BlockchainConfig, txs: &Vec<(TransactionAndDelta, TransactionStats)>) -> (sorted:
    Vec<TransactionAndDelta>)
    ensures
        sorted.deep_view() == sort_by_priority(
            config.deep_view(),
            txs.deep_view(),
            txs.deep_view().len(),
        ),
{
    let ghost cfg = config.deep_view();
    let mut sorted: Vec<TransactionAndDelta> = Vec::new();
    let mut i: usize = 0;
    assert(sorted.deep_view() =~= Seq::<TransactionAndDeltaView>::empty());
    while i < txs.len()
        invariant
            i <= txs.len(),
            cfg == config.deep_view(),
            sorted.deep_view() == sort_by_priority(cfg, txs.deep_view(), i as nat),
        decreases txs.len() - i,
    {
        let x = txs[i].0.clone();
        let key = priority(config, &x.tx);
        let ghost before = sorted.deep_view();
        let ghost xv = x.deep_view();
        assert(txs.deep_view()[i as int].0 == xv);
        let mut j: usize = sorted.len();
        proof {
            assert(before.subrange(0, j as int) =~= before);
            assert(insert_by_priority(cfg, before, xv) + before.subrange(j as int, j as int)
                =~= insert_by_priority(cfg, before, xv));
        }
        while j > 0 && !comes_at_or_before(priority(config, &sorted[j - 1].tx), key)
            invariant
                j <= sorted.len(),
                cfg == config.deep_view(),
                before == sorted.deep_view(),
                xv == x.deep_view(),
                priority_of(cfg, xv.tx) == (Priority {
                    is_mpn: key.0,
                    fee_per_byte: key.1,
                    nonce: key.2,
                }),
                insert_by_priority(cfg, before, xv) == insert_by_priority(
                    cfg,
                    before.subrange(0, j as int),
                    xv,
                ) + before.subrange(j as int, before.len() as int),
            decreases j,
        {
            proof {
                let head = before.subrange(0, j as int);
                assert(head.last() == sorted@[j - 1].deep_view());
                assert(head.drop_last() =~= before.subrange(0, j - 1));
                assert(insert_by_priority(cfg, head.drop_last(), xv).push(head.last())
                    + before.subrange(j as int, before.len() as int) =~= insert_by_priority(
                    cfg,
                    head.drop_last(),
                    xv,
                ) + before.subrange(j - 1, before.len() as int));
            }
            j -= 1;
        }
        proof {
            let head = before.subrange(0, j as int);
            if j > 0 {
                assert(head.last() == sorted@[j - 1].deep_view());
            }
            assert(insert_by_priority(cfg, head, xv) == head.push(xv));
        }
        sorted.insert(j, x);
        assert(sorted.deep_view() =~= before.subrange(0, j as int).push(xv) + before.subrange(
            j as int,
            before.len() as int,
        ));
        i += 1;
    }
    sorted
}

/// Considers one transaction on `fork`.
fn consider<'a, K: KvStore, P: Primitives>(
    config: &BlockchainConfig,
    fork: &mut RamMirrorKvStore<'a, K>,
    tx: &TransactionAndDelta,
    delta_cnt: &mut i128,
    block_sz: &mut usize,
    result: &mut Vec<TransactionAndDelta>,
    Ghost(done): Ghost<int>,
)
    requires
        0 <= done < usize::MAX,
        -done * 0x1_0000_0000 <= *old(delta_cnt) <= done * 0x1_0000_0000,
    ensures
        final(fork).store == old(fork).store,
        -(done + 1) * 0x1_0000_0000 <= *final(delta_cnt) <= (done + 1) * 0x1_0000_0000,
        select_step::<P>(
            config.deep_view(),
            SelectState {
                store: old(fork).view(),
                delta: *old(delta_cnt) as int,
                size: *old(block_sz),
                chosen: old(result).deep_view(),
            },
            tx.deep_view(),
        ) == (SelectState {
            store: final(fork).view(),
            delta: *final(delta_cnt) as int,
            size: *final(block_sz),
            chosen: final(result).deep_view(),
        }),
{
    match transaction_ops::<RamMirrorKvStore<'a, K>, P>(config, fork, &tx.tx, false) {
        Ok((ops, eff)) => {
            let delta_diff: i128 = match eff {
                TxSideEffect::StateChange { state_change, .. } => state_change.state.size() as i128
                    - state_change.prev_state.size() as i128,
                TxSideEffect::Nothing => 0,
            };
            let fits = match (*block_sz).checked_add(tx.tx.size()) {
                Some(size) => if size <= config.max_block_size {
                    Some(size)
                } else {
                    None
                },
                None => None,
            };
            match fits {
                Some(size) => {
                    if *delta_cnt + delta_diff <= config.max_delta_count as i128
                        && tx.tx.verify_signature::<P>() {
                        *delta_cnt = *delta_cnt + delta_diff;
                        *block_sz = size;
                        fork.apply(&ops);
                        let ghost before = result.deep_view();
                        result.push(tx.clone());
                        assert(result.deep_view() =~= before.push(tx.deep_view()));
                    }
                },
                None => {},
            }
        },
        Err(_) => {},
    }
}

/// The transactions of a pool to put in the next block.
pub fn select_transactions<K: KvStore, P: Primitives>(
    config: &BlockchainConfig,
    db: &K,
    txs: &Vec<(TransactionAndDelta, TransactionStats)>,
    check: bool,
) -> (selected: Vec<TransactionAndDelta>)
    ensures
        selected.deep_view() == select_of::<P>(
            config.deep_view(),
            db.view(),
            txs.deep_view(),
            check,
        ),
{
    let sorted = sort_pool(config, txs);
    if !check {
        return sorted;
    }
    let mut fork = RamMirrorKvStore::new(db);
    let mut result: Vec<TransactionAndDelta> = Vec::new();
    let mut block_sz: usize = 0;
    let mut delta_cnt: i128 = 0;
    let ghost start = SelectState { store: db.view(), delta: 0, size: 0, chosen: Seq::empty() };
    assert(result.deep_view() =~= Seq::<TransactionAndDeltaView>::empty());
    let mut i: usize = sorted.len();
    while i > 0
        invariant
            i <= sorted.len(),
            fork.store == db,
            -(sorted.len() - i) * 0x1_0000_0000 <= delta_cnt <= (sorted.len() - i) * 0x1_0000_0000,
            select_fold::<P>(
                config.deep_view(),
                start,
                sorted.deep_view(),
                (sorted.len() - i) as nat,
            ) == (SelectState {
                store: fork.view(),
                delta: delta_cnt as int,
                size: block_sz,
                chosen: result.deep_view(),
            }),
        decreases i,
    {
        assert(sorted.deep_view()[i - 1] == sorted@[i - 1].deep_view());
        consider::<K, P>(
            config,
            &mut fork,
            &sorted[i - 1],
            &mut delta_cnt,
            &mut block_sz,
            &mut result,
            Ghost(sorted.len() - i),
        );
        i -= 1;
    }
    result
}


/// The contract that a transaction touches, if any.
pub open spec fn touched_contract<P: Primitives>(tx: TransactionView) -> Option<ContractId> {
    match tx.data {
        TransactionDataView::CreateContract { .. } => Some(
            ContractId(P::spec_transaction_digest(tx)),
        ),
        TransactionDataView::UpdateContract { contract_id, .. } => Some(contract_id),
        TransactionDataView::RegularSend { .. } => None,
    }
}

/// The first entry of `patches` for `contract_id`, if there is one.
pub open spec fn patch_index(
    patches: Seq<(ContractId, ZkStatePatchView)>,
    contract_id: ContractId,
) -> Option<int> {
    if exists|i: int| 0 <= i < patches.len() && patches[i].0 == contract_id {
        Some(
            choose|i: int|
                0 <= i < patches.len() && patches[i].0 == contract_id && forall|j: int|
                    0 <= j < i ==> patches[j].0 != contract_id,
        )
    } else {
        None
    }
}

/// `patches` with `patch` as the entry of `contract_id`: in place of its
/// earlier entry, or at the end.
pub open spec fn record_patch(
    patches: Seq<(ContractId, ZkStatePatchView)>,
    contract_id: ContractId,
    patch: ZkStatePatchView,
) -> Seq<(ContractId, ZkStatePatchView)> {
    match patch_index(patches, contract_id) {
        Some(i) => patches.update(i, (contract_id, patch)),
        None => patches.push((contract_id, patch)),
    }
}

/// The state patches that go with the first `n` of the chosen transactions:
/// for each contract touched, the changes of the last transaction that
/// touches it. A transaction that touches a contract must come with its
/// changes.
pub open spec fn draft_patch<P: Primitives>(chosen: Seq<TransactionAndDeltaView>, n: nat) -> Outcome<
    Seq<(ContractId, ZkStatePatchView)>,
>
    decreases n,
{
    if n == 0 || n > chosen.len() {
        Ok(Seq::empty())
    } else {
        match draft_patch::<P>(chosen, (n - 1) as nat) {
            Err(e) => Err(e),
            Ok(patches) => match touched_contract::<P>(chosen[n - 1].tx) {
                None => Ok(patches),
                Some(contract_id) => match chosen[n - 1].state_delta {
                    None => Err(BlockchainError::FullStateNotFound),
                    Some(delta) => Ok(
                        record_patch(patches, contract_id, ZkStatePatchView::Delta(delta)),
                    ),
                },
            },
        }
    }
}

/// The transactions of a drafted block: the reward, then the chosen ones.
pub open spec fn draft_body(
    reward: TransactionView,
    chosen: Seq<TransactionAndDeltaView>,
) -> Seq<TransactionView> {
    seq![reward] + Seq::new(chosen.len(), |i: int| chosen[i].tx)
}

/// The block that is drafted on the chain `s`, with its state patches.
///
/// No contract may be outdated. The block holds the reward transaction,
/// which pays the next reward and the fees of the chosen transactions to
/// `address`, and then the chosen transactions. Its header follows the tip,
/// with the next target and the root of the block's hash tree.
pub open spec fn draft_of<P: Primitives>(
    cfg: Config,
    s: StoreView,
    timestamp: u32,
    pool: Seq<(TransactionAndDeltaView, TransactionStats)>,
    address: Address,
    check: bool,
) -> Outcome<BlockAndPatchView> {
    match height_of(s) {
        Err(e) => Err(e),
        Ok(height) => match outdated_of(s) {
            Err(e) => Err(e),
            Ok(outdated) => if outdated.len() > 0 {
                Err(BlockchainError::StatesOutdated)
            } else {
                match tip_of(s) {
                    Err(e) => Err(e),
                    Ok(tip) => match account_of(cfg, s, Address::Treasury) {
                        Err(e) => Err(e),
                        Ok(treasury) => {
                            let chosen = select_of::<P>(cfg, s, pool, check);
                            let txs = Seq::new(chosen.len(), |i: int| chosen[i].tx);
                            let amount = next_reward_of(cfg, s).unwrap() + fees_sum(
                                txs,
                                txs.len(),
                            );
                            if amount > u64::MAX {
                                Err(BlockchainError::InvalidMinerReward)
                            } else if treasury.nonce == u32::MAX {
                                Err(BlockchainError::InvalidTransactionNonce)
                            } else {
                                match draft_patch::<P>(chosen, chosen.len()) {
                                    Err(e) => Err(e),
                                    Ok(patch) => match next_difficulty_of::<P>(cfg, s) {
                                        Err(e) => Err(e),
                                        Ok(target) => {
                                            let body = draft_body(
                                                TransactionView {
                                                    src: Address::Treasury,
                                                    nonce: (treasury.nonce + 1) as u32,
                                                    data: TransactionDataView::RegularSend {
                                                        dst: address,
                                                        amount: amount as u64,
                                                    },
                                                    fee: 0,
                                                    sig: Signature::Unsigned,
                                                },
                                                chosen,
                                            );
                                            Ok(
                                                BlockAndPatchView {
                                                    block: BlockView {
                                                        header: Header {
                                                            parent_hash: P::spec_header_digest(
                                                                tip,
                                                            ),
                                                            number: height,
                                                            block_root: merkle_root::<P>(
                                                                body_leaves::<P>(body),
                                                            ),
                                                            proof_of_work: ProofOfWork {
                                                                timestamp,
                                                                target,
                                                                nonce: 0,
                                                            },
                                                        },
                                                        body,
                                                    },
                                                    patch,
                                                },
                                            )
                                        },
                                    },
                                }
                            }
                        },
                    },
                }
            },
        }
    }
}

/// What a draft answers, given how the trial of its block ended: the block
/// and its patches if the trial went through, nothing if the block holds too
/// few updates of the payment network's contract, else the error.
pub open spec fn draft_answer(
    r: Result<Option<BlockAndPatch>, BlockchainError>,
    draft: BlockAndPatchView,
    trial: Outcome<StoreView>,
) -> bool {
    match trial {
        Ok(_) => r is Ok && r.unwrap() is Some && r.unwrap().unwrap().deep_view() == draft,
        Err(e) => if e == BlockchainError::InsufficientMpnUpdates {
            r is Ok && r.unwrap() is None
        } else {
            r is Err && r.unwrap_err() == e
        },
    }
}

/// Whether `r` is an answer to drafting a block on the chain `s`: the
/// drafted block is tried on the chain, and its patches on what the block
/// leaves.
pub open spec fn is_draft_result<P: Primitives>(
    cfg: Config,
    s: StoreView,
    timestamp: u32,
    pool: Seq<(TransactionAndDeltaView, TransactionStats)>,
    address: Address,
    check: bool,
    r: Result<Option<BlockAndPatch>, BlockchainError>,
) -> bool {
    match draft_of::<P>(cfg, s, timestamp, pool, address, check) {
        Err(e) => r is Err && r.unwrap_err() == e,
        Ok(draft) => match block_body::<P>(cfg, s, draft.block, false) {
            Err(e) => draft_answer(r, draft, Err(e)),
            Ok(_) => exists|after: StoreView|
                #![trigger is_block_result::<P>(cfg, s, draft.block, false, after)]
                is_block_result::<P>(cfg, s, draft.block, false, after) && draft_answer(
                    r,
                    draft,
                    update_states_step::<P>(after, draft.patch),
                ),
        },
    }
}

/// A sequence of chosen transactions has no patches where a prefix has
/// none.
pub proof fn lemma_draft_patch_fails<P: Primitives>(
    chosen: Seq<TransactionAndDeltaView>,
    n: nat,
    m: nat,
)
    requires
        n <= m <= chosen.len(),
        draft_patch::<P>(chosen, n) is Err,
    ensures
        draft_patch::<P>(chosen, m) == draft_patch::<P>(chosen, n),
    decreases m,
{
    if n < m {
        lemma_draft_patch_fails::<P>(chosen, n, (m - 1) as nat);
    }
}

/// Records `patch` as the patch of `contract_id`.
fn set_patch(patches: &mut Vec<(ContractId, ZkStatePatch)>, contract_id: ContractId, patch: ZkStatePatch)
    ensures
        final(patches).deep_view() == record_patch(
            old(patches).deep_view(),
            contract_id,
            patch.deep_view(),
        ),
{
    let ghost before = patches.deep_view();
    let mut i: usize = 0;
    while i < patches.len()
        invariant
            i <= patches.len(),
            patches.deep_view() == before,
            before == old(patches).deep_view(),
            forall|j: int| 0 <= j < i ==> before[j].0 != contract_id,
        decreases patches.len() - i,
    {
        assert(before[i as int] == patches@[i as int].deep_view());
        if patches[i].0.same(&contract_id) {
            patches.set(i, (contract_id, patch));
            assert(patches.deep_view() =~= before.update(
                i as int,
                (contract_id, patch.deep_view()),
            ));
            return ;
        }
        i += 1;
    }
    patches.push((contract_id, patch));
    assert(patches.deep_view() =~= before.push((contract_id, patch.deep_view())));
}

/// The state patches that go with the chosen transactions.
fn collect_patches<P: Primitives>(tx_and_deltas: &Vec<TransactionAndDelta>) -> (r: Result<
    ZkBlockchainPatch,
    BlockchainError,
>)
    ensures
        match r {
            Ok(patch) => draft_patch::<P>(
                tx_and_deltas.deep_view(),
                tx_and_deltas.deep_view().len(),
            ) == Ok::<_, BlockchainError>(patch.deep_view()),
            Err(e) => draft_patch::<P>(
                tx_and_deltas.deep_view(),
                tx_and_deltas.deep_view().len(),
            ) == Err::<Seq<(ContractId, ZkStatePatchView)>, _>(e),
        },
{
    let mut block_delta: Vec<(ContractId, ZkStatePatch)> = Vec::new();
    let mut i: usize = 0;
    assert(block_delta.deep_view() =~= Seq::<(ContractId, ZkStatePatchView)>::empty());
    while i < tx_and_deltas.len()
        invariant
            i <= tx_and_deltas.len(),
            draft_patch::<P>(tx_and_deltas.deep_view(), i as nat) == Ok::<_, BlockchainError>(
                block_delta.deep_view(),
            ),
        decreases tx_and_deltas.len() - i,
    {
        proof {
            if draft_patch::<P>(tx_and_deltas.deep_view(), (i + 1) as nat) is Err {
                lemma_draft_patch_fails::<P>(
                    tx_and_deltas.deep_view(),
                    (i + 1) as nat,
                    tx_and_deltas.deep_view().len(),
                );
            }
            assert(tx_and_deltas.deep_view()[i as int] == tx_and_deltas@[i as int].deep_view());
        }
        let tx_delta = &tx_and_deltas[i];
        let touched = match &tx_delta.tx.data {
            TransactionData::CreateContract { .. } => Some(
                ContractId(P::transaction_digest(&tx_delta.tx)),
            ),
            TransactionData::UpdateContract { contract_id, .. } => Some(*contract_id),
            TransactionData::RegularSend { .. } => None,
        };
        match touched {
            Some(contract_id) => {
                let delta = match &tx_delta.state_delta {
                    Some(delta) => delta.clone(),
                    None => {
                        return Err(BlockchainError::FullStateNotFound);
                    },
                };
                set_patch(&mut block_delta, contract_id, ZkStatePatch::Delta(delta));
            },
            None => {},
        }
        i += 1;
    }
    Ok(ZkBlockchainPatch { patches: block_delta })
}

/// The sum of the fees of the chosen transactions.
fn chosen_fees(tx_and_deltas: &Vec<TransactionAndDelta>) -> (sum: u128)
    ensures
        sum == fees_sum(
            Seq::new(tx_and_deltas.deep_view().len(), |i: int| tx_and_deltas.deep_view()[i].tx),
            tx_and_deltas.deep_view().len(),
        ),
        sum <= tx_and_deltas.len() * 0xffff_ffff_ffff_ffff,
{
    let ghost txs = Seq::new(
        tx_and_deltas.deep_view().len(),
        |i: int| tx_and_deltas.deep_view()[i].tx,
    );
    let mut sum: u128 = 0;
    let mut i: usize = 0;
    while i < tx_and_deltas.len()
        invariant
            i <= tx_and_deltas.len(),
            txs == Seq::new(
                tx_and_deltas.deep_view().len(),
                |i: int| tx_and_deltas.deep_view()[i].tx,
            ),
            sum == fees_sum(txs, i as nat),
            sum <= i * 0xffff_ffff_ffff_ffff,
        decreases tx_and_deltas.len() - i,
    {
        assert(txs[i as int] == tx_and_deltas@[i as int].deep_view().tx);
        assert((i + 1) * 0xffff_ffff_ffff_ffff <= 0xffff_ffff_ffff_ffff * 0xffff_ffff_ffff_ffff)
            by (nonlinear_arith)
            requires
                i + 1 <= 0xffff_ffff_ffff_ffff,
        ;
        sum = sum + tx_and_deltas[i].tx.fee as u128;
        i += 1;
    }
    sum
}

/// The block to draft on the chain in `db`, with its state patches.
fn make_draft<K: KvStore, P: Primitives>(
    config: &BlockchainConfig,
    db: &K,
    timestamp: u32,
    mempool: &Vec<(TransactionAndDelta, TransactionStats)>,
    address: Address,
    check: bool,
) -> (r: Result<BlockAndPatch, BlockchainError>)
    requires
        config.deep_view().valid(),
    ensures
        match r {
            Ok(draft) => draft_of::<P>(
                config.deep_view(),
                db.view(),
                timestamp,
                mempool.deep_view(),
                address,
                check,
            ) == Ok::<_, BlockchainError>(draft.deep_view()),
            Err(e) => draft_of::<P>(
                config.deep_view(),
                db.view(),
                timestamp,
                mempool.deep_view(),
                address,
                check,
            ) == Err::<BlockAndPatchView, _>(e),
        },
{
    let height = get_height(db)?;
    let outdated_contracts = get_outdated_contracts(db)?;
    if outdated_contracts.len() > 0 {
        return Err(BlockchainError::StatesOutdated);
    }
    let last_header = get_tip(db)?;
    let treasury = get_account(config, db, &Address::Treasury)?;
    let tx_and_deltas = select_transactions::<K, P>(config, db, mempool, check);
    let fee_sum = chosen_fees(&tx_and_deltas);
    let reward = next_reward(config, db)?;
    assert(fee_sum + reward <= u128::MAX) by (nonlinear_arith)
        requires
            fee_sum <= tx_and_deltas.len() * 0xffff_ffff_ffff_ffff,
            tx_and_deltas.len() <= 0xffff_ffff_ffff_ffff,
            reward <= 0xffff_ffff_ffff_ffff,
    ;
    let amount = fee_sum + reward as u128;
    if amount > u64::MAX as u128 {
        return Err(BlockchainError::InvalidMinerReward);
    }
    if treasury.nonce == u32::MAX {
        return Err(BlockchainError::InvalidTransactionNonce);
    }
    let mut txs: Vec<Transaction> = Vec::new();
    txs.push(
        Transaction {
            src: Address::Treasury,
            data: TransactionData::RegularSend { dst: address, amount: amount as u64 },
            nonce: treasury.nonce + 1,
            fee: 0,
            sig: Signature::Unsigned,
        },
    );
    let block_delta = collect_patches::<P>(&tx_and_deltas)?;
    let ghost reward_tx = txs@[0].deep_view();
    let mut i: usize = 0;
    while i < tx_and_deltas.len()
        invariant
            i <= tx_and_deltas.len(),
            txs.len() == i + 1,
            txs@[0].deep_view() == reward_tx,
            forall|j: int|
                0 <= j < i ==> txs@[j + 1].deep_view() == tx_and_deltas@[j].deep_view().tx,
        decreases tx_and_deltas.len() - i,
    {
        txs.push(tx_and_deltas[i].tx.clone());
        i += 1;
    }
    assert(txs.deep_view() =~= draft_body(reward_tx, tx_and_deltas.deep_view()));
    let target = next_difficulty::<K, P>(config, db)?;
    let mut blk = Block {
        header: Header {
            parent_hash: P::header_digest(&last_header),
            number: height,
            block_root: [0u8; 32],
            proof_of_work: ProofOfWork { timestamp, target, nonce: 0 },
        },
        body: txs,
    };
    blk.header.block_root = blk.merkle_tree::<P>().root();
    Ok(BlockAndPatch { block: blk, patch: block_delta })
}

/// Drafts the next block from a pool of pending transactions, paying the
/// reward to `address`. Answers nothing if the pool does not yet hold enough
/// updates of the payment network's contract.
pub fn draft_block<K: KvStore, P: Primitives>(
    config: &BlockchainConfig,
    db: &K,
    timestamp: u32,
    mempool: &Vec<(TransactionAndDelta, TransactionStats)>,
    address: Address,
    check: bool,
) -> (r: Result<Option<BlockAndPatch>, BlockchainError>)
    requires
        config.deep_view().valid(),
    ensures
        is_draft_result::<P>(
            config.deep_view(),
            db.view(),
            timestamp,
            mempool.deep_view(),
            address,
            check,
            r,
        ),
{
    let draft = make_draft::<K, P>(config, db, timestamp, mempool, address, check)?;
    let ghost d = draft.deep_view();
    let ghost mut after: StoreView = db.view();
    let trial = match block_ops::<K, P>(config, db, &draft.block, false) {
        Ok(ops) => {
            let mut fork = RamMirrorKvStore::new(db);
            fork.apply(&ops);
            proof {
                after = fork.view();
            }
            match update_states_ops::<RamMirrorKvStore<'_, K>, P>(&fork, &draft.patch) {
                Ok(_) => Ok(()),
                Err(e) => Err(e),
            }
        },
        Err(e) => Err(e),
    };
    let r = match trial {
        Err(BlockchainError::InsufficientMpnUpdates) => Ok(None),
        Err(e) => Err(e),
        Ok(_) => Ok(Some(draft)),
    };
    proof {
        if block_body::<P>(config.deep_view(), db.view(), d.block, false) is Ok {
            assert(is_block_result::<P>(config.deep_view(), db.view(), d.block, false, after));
            assert(draft_answer(r, d, update_states_step::<P>(after, d.patch)));
        }
    }
    r
}


/// Cleaning the first `n` entries of a pool of transactions: each is tried
/// on the store that the kept ones before it left. Gives that store and the
/// entries kept.
pub open spec fn cleanup_fold<P: Primitives>(
    cfg: Config,
    s: StoreView,
    pool: Seq<(TransactionAndDeltaView, TransactionStats)>,
    n: nat,
) -> (StoreView, Seq<(TransactionAndDeltaView, TransactionStats)>)
    decreases n,
{
    if n == 0 || n > pool.len() {
        (s, Seq::empty())
    } else {
        let (store, kept) = cleanup_fold::<P>(cfg, s, pool, (n - 1) as nat);
        match tx_step::<P>(cfg, store, pool[n - 1].0.tx, false) {
            Ok((after, _)) => (after, kept.push(pool[n - 1])),
            Err(_) => (store, kept),
        }
    }
}

/// Cleaning the first `n` entries of a pool of contract payments.
pub open spec fn cleanup_payments_fold<P: Primitives>(
    cfg: Config,
    s: StoreView,
    pool: Seq<(ContractPayment, TransactionStats)>,
    n: nat,
) -> (StoreView, Seq<(ContractPayment, TransactionStats)>)
    decreases n,
{
    if n == 0 || n > pool.len() {
        (s, Seq::empty())
    } else {
        let (store, kept) = cleanup_payments_fold::<P>(cfg, s, pool, (n - 1) as nat);
        match payment_step::<P>(cfg, store, pool[n - 1].0) {
            Ok(after) => (after, kept.push(pool[n - 1])),
            Err(_) => (store, kept),
        }
    }
}

/// Cleaning the first `n` entries of a pool of transfers inside the payment
/// network.
pub open spec fn cleanup_zero_fold<P: Primitives>(
    cfg: Config,
    s: StoreView,
    pool: Seq<(ZeroTransaction, TransactionStats)>,
    n: nat,
) -> (StoreView, Seq<(ZeroTransaction, TransactionStats)>)
    decreases n,
{
    if n == 0 || n > pool.len() {
        (s, Seq::empty())
    } else {
        let (store, kept) = cleanup_zero_fold::<P>(cfg, s, pool, (n - 1) as nat);
        match zero_tx_step::<P>(cfg, store, pool[n - 1].0) {
            Ok(after) => (after, kept.push(pool[n - 1])),
            Err(_) => (store, kept),
        }
    }
}

/// Drops from a pool the transactions that cannot be executed, each after
/// those kept before it. The store is not changed.
pub fn cleanup_mempool<K: KvStore, P: Primitives>(
    config: &BlockchainConfig,
    db: &K,
    mempool: &mut Vec<(TransactionAndDelta, TransactionStats)>,
)
    ensures
        final(mempool).deep_view() == cleanup_fold::<P>(
            config.deep_view(),
            db.view(),
            old(mempool).deep_view(),
            old(mempool).deep_view().len(),
        ).1,
{
    let mut fork = RamMirrorKvStore::new(db);
    let mut kept: Vec<(TransactionAndDelta, TransactionStats)> = Vec::new();
    let mut i: usize = 0;
    assert(kept.deep_view() =~= Seq::<(TransactionAndDeltaView, TransactionStats)>::empty());
    while i < mempool.len()
        invariant
            i <= mempool.len(),
            fork.store == db,
            mempool.deep_view() == old(mempool).deep_view(),
            cleanup_fold::<P>(config.deep_view(), db.view(), mempool.deep_view(), i as nat) == (
                fork.view(),
                kept.deep_view(),
            ),
        decreases mempool.len() - i,
    {
        assert(mempool.deep_view()[i as int] == mempool@[i as int].deep_view());
        match transaction_ops::<RamMirrorKvStore<'_, K>, P>(config, &fork, &mempool[i].0.tx, false) {
            Ok((ops, _)) => {
                fork.apply(&ops);
                let ghost before = kept.deep_view();
                kept.push((mempool[i].0.clone(), mempool[i].1));
                assert(kept.deep_view() =~= before.push(mempool@[i as int].deep_view()));
            },
            Err(_) => {},
        }
        i += 1;
    }
    *mempool = kept;
}

/// Drops from a pool the contract payments that cannot be executed, each
/// after those kept before it. The store is not changed.
pub fn cleanup_contract_payment_mempool<K: KvStore, P: Primitives>(
    config: &BlockchainConfig,
    db: &K,
    mempool: &mut Vec<(ContractPayment, TransactionStats)>,
)
    ensures
        final(mempool)@ == cleanup_payments_fold::<P>(
            config.deep_view(),
            db.view(),
            old(mempool)@,
            old(mempool)@.len(),
        ).1,
{
    let mut fork = RamMirrorKvStore::new(db);
    let mut kept: Vec<(ContractPayment, TransactionStats)> = Vec::new();
    let mut i: usize = 0;
    while i < mempool.len()
        invariant
            i <= mempool.len(),
            fork.store == db,
            mempool@ == old(mempool)@,
            cleanup_payments_fold::<P>(config.deep_view(), db.view(), mempool@, i as nat) == (
                fork.view(),
                kept@,
            ),
        decreases mempool.len() - i,
    {
        match contract_payment_ops::<RamMirrorKvStore<'_, K>, P>(config, &fork, &mempool[i].0) {
            Ok(ops) => {
                fork.apply(&ops);
                kept.push((mempool[i].0, mempool[i].1));
            },
            Err(_) => {},
        }
        i += 1;
    }
    *mempool = kept;
}

/// Drops from a pool the transfers inside the payment network that cannot
/// be executed, each after those kept before it. The store is not changed.
pub fn cleanup_zero_mempool<K: KvStore, P: Primitives>(
    config: &BlockchainConfig,
    db: &K,
    mempool: &mut Vec<(ZeroTransaction, TransactionStats)>,
)
    ensures
        final(mempool)@ == cleanup_zero_fold::<P>(
            config.deep_view(),
            db.view(),
            old(mempool)@,
            old(mempool)@.len(),
        ).1,
{
    let mut fork = RamMirrorKvStore::new(db);
    let mut kept: Vec<(ZeroTransaction, TransactionStats)> = Vec::new();
    let mut i: usize = 0;
    while i < mempool.len()
        invariant
            i <= mempool.len(),
            fork.store == db,
            mempool@ == old(mempool)@,
            cleanup_zero_fold::<P>(config.deep_view(), db.view(), mempool@, i as nat) == (
                fork.view(),
                kept@,
            ),
        decreases mempool.len() - i,
    {
        match zero_tx_ops::<RamMirrorKvStore<'_, K>, P>(config, &fork, &mempool[i].0) {
            Ok(ops) => {
                fork.apply(&ops);
                kept.push((mempool[i].0, mempool[i].1));
            },
            Err(_) => {},
        }
        i += 1;
    }
    *mempool = kept;
}

} // verus!
