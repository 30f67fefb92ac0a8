//! Taking the last block back, and replacing the end of the chain.
use crate::blockchain::block::{block_body, block_ops, holds, is_block_result};
use crate::blockchain::model::{
    changed_states_of, height_of, outdated_of, outdated_op, Config, Outcome,
};
use crate::blockchain::read::{get_changed_states, get_height, get_outdated_contracts};
use crate::blockchain::tx::manager_writes;
use crate::blockchain::{BlockchainConfig, BlockchainError, Primitives, ZkCompressedStateChange};
use crate::db::{
    apply_op, apply_ops, keys, lemma_rollback_view, Key, KvStore, RamMirrorKvStore, StoreView,
    Value, ValueView, WriteOp, WriteOpView,
};
use crate::types::{Block, BlockView, ContractId};
use crate::zk::primitives::keep_zk_ops;
use vstd::prelude::*;

verus! {

/// `ids` without `contract_id`, in the same order.
pub open spec fn without(ids: Seq<ContractId>, contract_id: ContractId) -> Seq<ContractId>
    decreases ids.len(),
{
    if ids.len() == 0 {
        Seq::empty()
    } else if ids.last() == contract_id {
        without(ids.drop_last(), contract_id)
    } else {
        without(ids.drop_last(), contract_id).push(ids.last())
    }
}

/// Where a rollback stands: the store, and the outdated contracts.
pub struct RollbackState {
    pub store: StoreView,
    pub outdated: Seq<ContractId>,
}

/// Taking back the state change of one contract.
///
/// A contract that the block created loses its state tree and is no longer
/// outdated. The tree of a contract that is up to date is taken one state
/// back; if the history does not reach back to the state before the block,
/// the tree is left alone and the contract becomes outdated. A contract that
/// is outdated stops being so if its tree happens to be at the state before
/// the block.
pub open spec fn undo_change<P: Primitives>(
    st: RollbackState,
    contract_id: ContractId,
    change: ZkCompressedStateChange,
) -> Outcome<RollbackState> {
    if change.prev_height == 0 {
        match P::spec_delete_contract(st.store, contract_id) {
            Err(e) => Err(BlockchainError::StateManagerError(e)),
            Ok(ops) => Ok(
                RollbackState {
                    store: manager_writes(st.store, ops),
                    outdated: without(st.outdated, contract_id),
                },
            ),
        }
    } else if !st.outdated.contains(contract_id) {
        match P::spec_rollback_contract(st.store, contract_id) {
            Err(e) => Err(BlockchainError::StateManagerError(e)),
            Ok((reached, ops)) => if reached == Some(change.prev_state) {
                Ok(RollbackState { store: manager_writes(st.store, ops), ..st })
            } else {
                Ok(RollbackState { outdated: st.outdated.push(contract_id), ..st })
            },
        }
    } else {
        match P::spec_root(st.store, contract_id) {
            Err(e) => Err(BlockchainError::StateManagerError(e)),
            Ok(root) => if root == change.prev_state {
                Ok(RollbackState { outdated: without(st.outdated, contract_id), ..st })
            } else {
                Ok(st)
            },
        }
    }
}

/// Taking back the first `n` state changes of a block.
pub open spec fn undo_changes<P: Primitives>(
    start: RollbackState,
    changes: Seq<(ContractId, ZkCompressedStateChange)>,
    n: nat,
) -> Outcome<RollbackState>
    decreases n,
{
    if n == 0 || n > changes.len() {
        Ok(start)
    } else {
        match undo_changes::<P>(start, changes, (n - 1) as nat) {
            Err(e) => Err(e),
            Ok(st) => undo_change::<P>(st, changes[n - 1].0, changes[n - 1].1),
        }
    }
}

/// The undo log of block `index`.
pub open spec fn undo_log_of(s: StoreView, index: u64) -> Outcome<Seq<WriteOpView>> {
    match s.get(Key::Rollback(index)) {
        Some(ValueView::Rollback(undo)) => Ok(undo),
        _ => Err(BlockchainError::Inconsistency),
    }
}

/// The store after taking the last block back: the state changes of the
/// block are taken back in the state trees, the block's undo log is applied
/// and dropped, and the outdated contracts are written.
pub open spec fn rollback_step<P: Primitives>(s: StoreView) -> Outcome<StoreView> {
    match height_of(s) {
        Err(e) => Err(e),
        Ok(height) => if height == 0 {
            Err(BlockchainError::NoBlocksToRollback)
        } else {
            match undo_log_of(s, (height - 1) as u64) {
                Err(e) => Err(e),
                Ok(undo) => match outdated_of(s) {
                    Err(e) => Err(e),
                    Ok(outdated) => match changed_states_of(s) {
                        Err(e) => Err(e),
                        Ok(changes) => match undo_changes::<P>(
                            RollbackState { store: s, outdated },
                            changes,
                            changes.len(),
                        ) {
                            Err(e) => Err(e),
                            Ok(done) => Ok(
                                apply_op(
                                    apply_ops(done.store, undo).remove(
                                        Key::Rollback((height - 1) as u64),
                                    ),
                                    outdated_op(done.outdated),
                                ),
                            ),
                        },
                    },
                },
            }
        },
    }
}

/// A sequence of state changes fails where its first failing prefix fails.
pub proof fn lemma_undo_changes_fails<P: Primitives>(
    start: RollbackState,
    changes: Seq<(ContractId, ZkCompressedStateChange)>,
    n: nat,
    m: nat,
)
    requires
        n <= m <= changes.len(),
        undo_changes::<P>(start, changes, n) is Err,
    ensures
        undo_changes::<P>(start, changes, m) == undo_changes::<P>(start, changes, n),
    decreases m,
{
    if n < m {
        lemma_undo_changes_fails::<P>(start, changes, n, (m - 1) as nat);
    }
}

/// Removes `contract_id` from `ids`.
pub fn drop_id(ids: &mut Vec<ContractId>, contract_id: &ContractId)
    ensures
        final(ids)@ == without(old(ids)@, *contract_id),
{
    let mut kept: Vec<ContractId> = Vec::new();
    let mut i: usize = 0;
    assert(ids@.subrange(0, 0) =~= Seq::<ContractId>::empty());
    while i < ids.len()
        invariant
            i <= ids.len(),
            ids@ == old(ids)@,
            kept@ == without(ids@.subrange(0, i as int), *contract_id),
        decreases ids.len() - i,
    {
        let ghost prefix = ids@.subrange(0, i + 1);
        assert(prefix.drop_last() =~= ids@.subrange(0, i as int));
        if !ids[i].same(contract_id) {
            kept.push(ids[i]);
        }
        i += 1;
    }
    assert(ids@.subrange(0, ids.len() as int) =~= ids@);
    *ids = kept;
}

/// Takes back the state change of one contract on `fork`.
fn run_undo_change<'a, K: KvStore, P: Primitives>(
    fork: &mut RamMirrorKvStore<'a, K>,
    outdated: &mut Vec<ContractId>,
    cid: &ContractId,
    comp: &ZkCompressedStateChange,
) -> (r: Result<(), BlockchainError>)
    ensures
        final(fork).store == old(fork).store,
        match undo_change::<P>(
            RollbackState { store: old(fork).view(), outdated: old(outdated)@ },
            *cid,
            *comp,
        ) {
            Ok(st) => r is Ok && final(fork).view() == st.store && final(outdated)@ == st.outdated,
            Err(e) => r is Err && r.unwrap_err() == e,
        },
{
    if comp.prev_height == 0 {
        match P::delete_contract(fork, cid) {
            Ok(ops) => {
                fork.apply(&keep_zk_ops(&ops));
            },
            Err(e) => {
                return Err(BlockchainError::StateManagerError(e));
            },
        }
        drop_id(outdated, cid);
        return Ok(());
    }
    if !holds(outdated, cid) {
        match P::rollback_contract(fork, cid) {
            Ok((reached, ops)) => {
                let matches = match reached {
                    Some(state) => state.same(&comp.prev_state),
                    None => false,
                };
                if matches {
                    fork.apply(&keep_zk_ops(&ops));
                } else {
                    outdated.push(*cid);
                }
            },
            Err(e) => {
                return Err(BlockchainError::StateManagerError(e));
            },
        }
    } else {
        match P::root(fork, cid) {
            Ok(local_compressed_state) => {
                if local_compressed_state.same(&comp.prev_state) {
                    drop_id(outdated, cid);
                }
            },
            Err(e) => {
                return Err(BlockchainError::StateManagerError(e));
            },
        }
    }
    Ok(())
}

/// The writes of taking the last block back.
pub fn rollback_ops<K: KvStore, P: Primitives>(db: &K) -> (r: Result<Vec<WriteOp>, BlockchainError>)
    ensures
        match rollback_step::<P>(db.view()) {
            Ok(after) => r is Ok && apply_ops(db.view(), r.unwrap().deep_view()) == after,
            Err(e) => r is Err && r.unwrap_err() == e,
        },
{
    let height = get_height(db)?;
    if height == 0 {
        return Err(BlockchainError::NoBlocksToRollback);
    }
    let rollback = match db.get(&keys::rollback(height - 1)) {
        Some(Value::Rollback(ops)) => {
            proof {
                lemma_rollback_view(ops);
            }
            ops
        },
        _ => {
            return Err(BlockchainError::Inconsistency);
        },
    };
    let mut outdated = get_outdated_contracts(db)?;
    let changed_states = get_changed_states(db)?;
    let mut fork = RamMirrorKvStore::new(db);
    let ghost start = RollbackState { store: db.view(), outdated: outdated@ };
    let mut i: usize = 0;
    while i < changed_states.len()
        invariant
            i <= changed_states.len(),
            fork.store == db,
            undo_changes::<P>(start, changed_states@, i as nat) == Ok::<_, BlockchainError>(
                RollbackState { store: fork.view(), outdated: outdated@ },
            ),
            height_of(db.view()) == Ok::<_, BlockchainError>(height),
            height > 0,
            undo_log_of(db.view(), (height - 1) as u64) == Ok::<_, BlockchainError>(
                rollback.deep_view(),
            ),
            outdated_of(db.view()) == Ok::<_, BlockchainError>(start.outdated),
            start.store == db.view(),
            changed_states_of(db.view()) == Ok::<_, BlockchainError>(changed_states@),
        decreases changed_states.len() - i,
    {
        proof {
            if undo_changes::<P>(start, changed_states@, (i + 1) as nat) is Err {
                lemma_undo_changes_fails::<P>(
                    start,
                    changed_states@,
                    (i + 1) as nat,
                    changed_states@.len(),
                );
            }
        }
        let cid = changed_states[i].0;
        let comp = changed_states[i].1;
        run_undo_change::<K, P>(&mut fork, &mut outdated, &cid, &comp)?;
        i += 1;
    }
    fork.apply(&rollback);
    fork.remove(keys::rollback(height - 1));
    if outdated.len() == 0 {
        fork.remove(keys::outdated());
    } else {
        fork.put(keys::outdated(), Value::Outdated(outdated));
    }
    Ok(fork.to_ops())
}


/// The height of a store, or 0 if it cannot be read.
pub open spec fn height_or_zero(s: StoreView) -> nat {
    match height_of(s) {
        Ok(h) => h as nat,
        Err(_) => 0,
    }
}

/// The store after taking blocks back until the height is at most `from`.
/// A rollback that does not lower the height shows a broken store.
pub open spec fn rolled_back<P: Primitives>(s: StoreView, from: u64) -> Outcome<StoreView>
    decreases height_or_zero(s),
{
    match height_of(s) {
        Err(e) => Err(e),
        Ok(height) => if height <= from {
            Ok(s)
        } else {
            match rollback_step::<P>(s) {
                Err(e) => Err(e),
                Ok(back) => match height_of(back) {
                    Err(e) => Err(e),
                    Ok(lower) => if lower < height {
                        rolled_back::<P>(back, from)
                    } else {
                        Err(BlockchainError::Inconsistency)
                    },
                },
            }
        },
    }
}

/// Where replacing the end of the chain from height `from` on starts: the
/// chain must reach that height, which must not be 0, and is taken back to
/// it.
pub open spec fn extend_base<P: Primitives>(s: StoreView, from: u64) -> Outcome<StoreView> {
    match height_of(s) {
        Err(e) => Err(e),
        Ok(height) => if from == 0 {
            Err(BlockchainError::ExtendFromGenesis)
        } else if from > height {
            Err(BlockchainError::ExtendFromFuture)
        } else {
            rolled_back::<P>(s, from)
        },
    }
}

/// Whether `after` is a store that applying the first `n` blocks of
/// `blocks` to `s`, with their proof of work checked, can leave.
pub open spec fn blocks_applied<P: Primitives>(
    cfg: Config,
    s: StoreView,
    blocks: Seq<BlockView>,
    n: nat,
    after: StoreView,
) -> bool
    decreases n,
{
    if n == 0 || n > blocks.len() {
        after == s
    } else {
        exists|mid: StoreView|
            #![trigger is_block_result::<P>(cfg, mid, blocks[n - 1], true, after)]
            blocks_applied::<P>(cfg, s, blocks, (n - 1) as nat, mid) && is_block_result::<P>(
                cfg,
                mid,
                blocks[n - 1],
                true,
                after,
            )
    }
}

/// Whether one of `blocks` can be refused with the error `e` when they are
/// applied to `s` in order.
pub open spec fn blocks_refused<P: Primitives>(
    cfg: Config,
    s: StoreView,
    blocks: Seq<BlockView>,
    e: BlockchainError,
) -> bool {
    exists|k: nat, mid: StoreView|
        #![trigger blocks_applied::<P>(cfg, s, blocks, k, mid)]
        k < blocks.len() && blocks_applied::<P>(cfg, s, blocks, k, mid) && block_body::<P>(
            cfg,
            mid,
            blocks[k as int],
            true,
        ) == Err::<(StoreView, Seq<ContractId>), _>(e)
}

/// Takes blocks back on `fork` until the height is at most `from`.
fn roll_back_to<'a, K: KvStore, P: Primitives>(fork: &mut RamMirrorKvStore<'a, K>, from: u64) -> (r:
    Result<(), BlockchainError>)
    ensures
        final(fork).store == old(fork).store,
        match rolled_back::<P>(old(fork).view(), from) {
            Ok(base) => r is Ok && final(fork).view() == base,
            Err(e) => r is Err && r.unwrap_err() == e,
        },
{
    let mut height = get_height(fork)?;
    while height > from
        invariant
            fork.store == old(fork).store,
            height_of(fork.view()) == Ok::<_, BlockchainError>(height),
            rolled_back::<P>(old(fork).view(), from) == rolled_back::<P>(fork.view(), from),
        decreases height,
    {
        let ops = rollback_ops::<RamMirrorKvStore<'a, K>, P>(fork)?;
        fork.apply(&ops);
        let lower = get_height(fork)?;
        if lower >= height {
            return Err(BlockchainError::Inconsistency);
        }
        height = lower;
    }
    Ok(())
}

/// Applies one block on `fork`, with its proof of work checked.
fn run_block<'a, K: KvStore, P: Primitives>(
    config: &BlockchainConfig,
    fork: &mut RamMirrorKvStore<'a, K>,
    block: &Block,
) -> (r: Result<(), BlockchainError>)
    requires
        config.deep_view().valid(),
    ensures
        final(fork).store == old(fork).store,
        match r {
            Ok(_) => is_block_result::<P>(
                config.deep_view(),
                old(fork).view(),
                block.deep_view(),
                true,
                final(fork).view(),
            ),
            Err(e) => block_body::<P>(
                config.deep_view(),
                old(fork).view(),
                block.deep_view(),
                true,
            ) == Err::<(StoreView, Seq<ContractId>), _>(e),
        },
{
    let ops = block_ops::<RamMirrorKvStore<'a, K>, P>(config, fork, block, true)?;
    fork.apply(&ops);
    Ok(())
}

/// One more block applied.
proof fn lemma_blocks_applied_next<P: Primitives>(
    cfg: Config,
    s: StoreView,
    blocks: Seq<BlockView>,
    n: nat,
    mid: StoreView,
    after: StoreView,
)
    requires
        n < blocks.len(),
        blocks_applied::<P>(cfg, s, blocks, n, mid),
        is_block_result::<P>(cfg, mid, blocks[n as int], true, after),
    ensures
        blocks_applied::<P>(cfg, s, blocks, n + 1, after),
{
    let m = (n + 1) as nat;
    assert((m - 1) as nat == n);
    assert(blocks_applied::<P>(cfg, s, blocks, (m - 1) as nat, mid) && is_block_result::<P>(
        cfg,
        mid,
        blocks[m - 1],
        true,
        after,
    ));
    assert(blocks_applied::<P>(cfg, s, blocks, m, after));
}

/// The writes of replacing the end of the chain: the blocks from height
/// `from` on are taken back, and `blocks` are applied in their place.
pub fn extend_ops<K: KvStore, P: Primitives>(
    config: &BlockchainConfig,
    db: &K,
    from: u64,
    blocks: &Vec<Block>,
) -> (r: Result<Vec<WriteOp>, BlockchainError>)
    requires
        config.deep_view().valid(),
    ensures
        match extend_base::<P>(db.view(), from) {
            Err(e) => r is Err && r.unwrap_err() == e,
            Ok(base) => match r {
                Ok(ops) => blocks_applied::<P>(
                    config.deep_view(),
                    base,
                    blocks.deep_view(),
                    blocks.deep_view().len(),
                    apply_ops(db.view(), ops.deep_view()),
                ),
                Err(e) => blocks_refused::<P>(config.deep_view(), base, blocks.deep_view(), e),
            },
        },
{
    let curr_height = get_height(db)?;
    if from == 0 {
        return Err(BlockchainError::ExtendFromGenesis);
    } else if from > curr_height {
        return Err(BlockchainError::ExtendFromFuture);
    }
    let mut fork = RamMirrorKvStore::new(db);
    roll_back_to::<K, P>(&mut fork, from)?;
    let ghost base = fork.view();
    let mut i: usize = 0;
    while i < blocks.len()
        invariant
            i <= blocks.len(),
            fork.store == db,
            config.deep_view().valid(),
            extend_base::<P>(db.view(), from) == Ok::<_, BlockchainError>(base),
            blocks_applied::<P>(config.deep_view(), base, blocks.deep_view(), i as nat, fork.view()),
        decreases blocks.len() - i,
    {
        let ghost mid = fork.view();
        assert(blocks.deep_view()[i as int] == blocks@[i as int].deep_view());
        match run_block::<K, P>(config, &mut fork, &blocks[i]) {
            Ok(_) => {
                proof {
                    lemma_blocks_applied_next::<P>(
                        config.deep_view(),
                        base,
                        blocks.deep_view(),
                        i as nat,
                        mid,
                        fork.view(),
                    );
                }
            },
            Err(e) => {
                assert(blocks_applied::<P>(
                    config.deep_view(),
                    base,
                    blocks.deep_view(),
                    i as nat,
                    mid,
                ));
                assert(blocks_refused::<P>(config.deep_view(), base, blocks.deep_view(), e));
                return Err(e);
            },
        }
        i += 1;
    }
    Ok(fork.to_ops())
}

} // verus!
