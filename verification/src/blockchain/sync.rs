//! Synchronising the contract state trees with peers: applying the patches
//! that a peer sent, and making the patches that a peer asks for.
use crate::blockchain::block::holds;
use crate::blockchain::model::{
    compressed_state_at_of, contract_account_of, outdated_of, outdated_op, tip_of, Outcome,
};
use crate::blockchain::read::{
    get_compressed_state_at, get_contract_account, get_outdated_contracts, get_tip,
};
use crate::blockchain::rollback::without;
use crate::blockchain::tx::manager_writes;
use crate::blockchain::{BlockchainError, Primitives, ZkBlockchainPatch};
use crate::db::{apply_op, apply_ops, keys, KvStore, RamMirrorKvStore, StoreView, Value, WriteOp};
use crate::types::ContractId;
use crate::utils::bytes_eq;
use crate::zk::primitives::keep_zk_ops;
use crate::zk::{ZkCompressedState, ZkStatePatch, ZkStatePatchView};
use vstd::prelude::*;

verus! {

/// The first patch for `contract_id` among `patches`.
pub open spec fn patch_of(
    patches: Seq<(ContractId, ZkStatePatchView)>,
    contract_id: ContractId,
) -> Option<ZkStatePatchView>
    decreases patches.len(),
{
    if patches.len() == 0 {
        None
    } else if patches[0].0 == contract_id {
        Some(patches[0].1)
    } else {
        patch_of(patches.drop_first(), contract_id)
    }
}

/// Whether the first `n` of the earlier state summaries that came with a
/// full state agree with what the chain `s` recorded for the contract: the
/// `i`-th with the summary at height `height - 1 - i`.
pub open spec fn roots_match<P: Primitives>(
    s: StoreView,
    contract_id: ContractId,
    height: u64,
    roots: Seq<ZkCompressedState>,
    n: nat,
) -> Outcome<()>
    decreases n,
{
    if n == 0 || n > roots.len() {
        Ok(())
    } else {
        match roots_match::<P>(s, contract_id, height, roots, (n - 1) as nat) {
            Err(e) => Err(e),
            Ok(_) => if n > height {
                Err(BlockchainError::DeltasInvalid)
            } else {
                match compressed_state_at_of::<P>(s, contract_id, (height - n) as u64) {
                    Err(e) => Err(e),
                    Ok(recorded) => if roots[n - 1] != recorded {
                        Err(BlockchainError::DeltasInvalid)
                    } else {
                        Ok(())
                    },
                }
            },
        }
    }
}

/// Where the application of state patches stands: the store, and the
/// contracts that are still outdated.
pub struct SyncState {
    pub store: StoreView,
    pub outdated: Seq<ContractId>,
}

/// Bringing the state tree of one outdated contract up to date, on a chain
/// that was `s` when the patches arrived.
///
/// A delta is applied to the tree. A full state replaces the tree; the
/// earlier summaries that the state manager derives from it must agree with
/// the chain. Either way the tree must end at the contract's state summary;
/// then the contract is no longer outdated.
pub open spec fn patch_step<P: Primitives>(
    s: StoreView,
    patches: Seq<(ContractId, ZkStatePatchView)>,
    st: SyncState,
    contract_id: ContractId,
) -> Outcome<SyncState> {
    match contract_account_of(st.store, contract_id) {
        Err(e) => Err(e),
        Ok(account) => match patch_of(patches, contract_id) {
            None => Err(BlockchainError::FullStateNotFound),
            Some(patch) => match patched_store::<P>(s, st.store, contract_id, account.height, patch) {
                Err(e) => Err(e),
                Ok(patched) => match P::spec_root(patched, contract_id) {
                    Err(e) => Err(BlockchainError::StateManagerError(e)),
                    Ok(root) => if root != account.compressed_state {
                        Err(BlockchainError::FullStateNotValid)
                    } else {
                        Ok(
                            SyncState {
                                store: patched,
                                outdated: without(st.outdated, contract_id),
                            },
                        )
                    },
                },
            },
        },
    }
}

/// The store after a patch was applied to the state tree of a contract.
pub open spec fn patched_store<P: Primitives>(
    s: StoreView,
    store: StoreView,
    contract_id: ContractId,
    height: u64,
    patch: ZkStatePatchView,
) -> Outcome<StoreView> {
    match patch {
        ZkStatePatchView::Full(full) => match P::spec_reset_contract(
            store,
            contract_id,
            height,
            full,
        ) {
            Err(e) => Err(BlockchainError::StateManagerError(e)),
            Ok((roots, ops)) => match roots_match::<P>(
                s,
                contract_id,
                height,
                roots,
                roots.len(),
            ) {
                Err(e) => Err(e),
                Ok(_) => Ok(manager_writes(store, ops)),
            },
        },
        ZkStatePatchView::Delta(delta) => match P::spec_update_contract(
            store,
            contract_id,
            delta,
        ) {
            Err(e) => Err(BlockchainError::StateManagerError(e)),
            Ok(ops) => Ok(manager_writes(store, ops)),
        },
    }
}

/// Bringing the first `n` of the contracts `ids` up to date.
pub open spec fn patches_fold<P: Primitives>(
    s: StoreView,
    patches: Seq<(ContractId, ZkStatePatchView)>,
    start: SyncState,
    ids: Seq<ContractId>,
    n: nat,
) -> Outcome<SyncState>
    decreases n,
{
    if n == 0 || n > ids.len() {
        Ok(start)
    } else {
        match patches_fold::<P>(s, patches, start, ids, (n - 1) as nat) {
            Err(e) => Err(e),
            Ok(st) => patch_step::<P>(s, patches, st, ids[n - 1]),
        }
    }
}

/// The store after the state patches of a peer were applied: every outdated
/// contract is brought up to date, in order, and the outdated contracts are
/// written.
pub open spec fn update_states_step<P: Primitives>(
    s: StoreView,
    patches: Seq<(ContractId, ZkStatePatchView)>,
) -> Outcome<StoreView> {
    match outdated_of(s) {
        Err(e) => Err(e),
        Ok(outdated) => match patches_fold::<P>(
            s,
            patches,
            SyncState { store: s, outdated },
            outdated,
            outdated.len(),
        ) {
            Err(e) => Err(e),
            Ok(done) => Ok(apply_op(done.store, outdated_op(done.outdated))),
        },
    }
}

/// A sequence of patches fails where its first failing prefix fails.
pub proof fn lemma_patches_fold_fails<P: Primitives>(
    s: StoreView,
    patches: Seq<(ContractId, ZkStatePatchView)>,
    start: SyncState,
    ids: Seq<ContractId>,
    n: nat,
    m: nat,
)
    requires
        n <= m <= ids.len(),
        patches_fold::<P>(s, patches, start, ids, n) is Err,
    ensures
        patches_fold::<P>(s, patches, start, ids, m) == patches_fold::<P>(
            s,
            patches,
            start,
            ids,
            n,
        ),
    decreases m,
{
    if n < m {
        lemma_patches_fold_fails::<P>(s, patches, start, ids, n, (m - 1) as nat);
    }
}

/// A sequence of summaries fails to match where its first failing prefix
/// fails.
pub proof fn lemma_roots_match_fails<P: Primitives>(
    s: StoreView,
    contract_id: ContractId,
    height: u64,
    roots: Seq<ZkCompressedState>,
    n: nat,
    m: nat,
)
    requires
        n <= m <= roots.len(),
        roots_match::<P>(s, contract_id, height, roots, n) is Err,
    ensures
        roots_match::<P>(s, contract_id, height, roots, m) == roots_match::<P>(
            s,
            contract_id,
            height,
            roots,
            n,
        ),
    decreases m,
{
    if n < m {
        lemma_roots_match_fails::<P>(s, contract_id, height, roots, n, (m - 1) as nat);
    }
}

impl ZkBlockchainPatch {
    /// The first patch for `contract_id`.
    pub fn get(&self, contract_id: &ContractId) -> (patch: Option<&ZkStatePatch>)
        ensures
            patch.deep_view() == patch_of(self.deep_view(), *contract_id),
    {
        let mut i: usize = 0;
        assert(self.deep_view().subrange(0, self.patches.len() as int) =~= self.deep_view());
        while i < self.patches.len()
            invariant
                i <= self.patches.len(),
                patch_of(self.deep_view(), *contract_id) == patch_of(
                    self.deep_view().subrange(i as int, self.patches.len() as int),
                    *contract_id,
                ),
            decreases self.patches.len() - i,
        {
            let ghost rest = self.deep_view().subrange(i as int, self.patches.len() as int);
            assert(rest[0] == self.patches@[i as int].deep_view());
            assert(rest.drop_first() =~= self.deep_view().subrange(
                i + 1,
                self.patches.len() as int,
            ));
            if self.patches[i].0.same(contract_id) {
                return Some(&self.patches[i].1);
            }
            i += 1;
        }
        None
    }
}

/// Checks the earlier summaries that came with a full state against the
/// chain in `db`.
fn check_roots<K: KvStore, P: Primitives>(
    db: &K,
    cid: &ContractId,
    height: u64,
    rollback_results: &Vec<ZkCompressedState>,
) -> (r: Result<(), BlockchainError>)
    ensures
        r == roots_match::<P>(
            db.view(),
            *cid,
            height,
            rollback_results@,
            rollback_results@.len(),
        ),
{
    let mut i: usize = 0;
    while i < rollback_results.len()
        invariant
            i <= rollback_results.len(),
            roots_match::<P>(db.view(), *cid, height, rollback_results@, i as nat) == Ok::<
                _,
                BlockchainError,
            >(()),
        decreases rollback_results.len() - i,
    {
        proof {
            if roots_match::<P>(db.view(), *cid, height, rollback_results@, (i + 1) as nat)
                is Err {
                lemma_roots_match_fails::<P>(
                    db.view(),
                    *cid,
                    height,
                    rollback_results@,
                    (i + 1) as nat,
                    rollback_results@.len(),
                );
            }
        }
        if i as u64 >= height {
            return Err(BlockchainError::DeltasInvalid);
        }
        let recorded = get_compressed_state_at::<K, P>(db, cid, height - 1 - i as u64)?;
        if !rollback_results[i].same(&recorded) {
            return Err(BlockchainError::DeltasInvalid);
        }
        i += 1;
    }
    Ok(())
}

/// Brings the state tree of one outdated contract up to date on `fork`.
fn run_patch<'a, K: KvStore, P: Primitives>(
    db: &K,
    fork: &mut RamMirrorKvStore<'a, K>,
    patch: &ZkBlockchainPatch,
    outdated: &mut Vec<ContractId>,
    cid: &ContractId,
) -> (r: Result<(), BlockchainError>)
    ensures
        final(fork).store == old(fork).store,
        match patch_step::<P>(
            db.view(),
            patch.deep_view(),
            SyncState { store: old(fork).view(), outdated: old(outdated)@ },
            *cid,
        ) {
            Ok(st) => r is Ok && final(fork).view() == st.store && final(outdated)@ == st.outdated,
            Err(e) => r is Err && r.unwrap_err() == e,
        },
{
    let contract_account = get_contract_account(fork, cid)?;
    let patch = match patch.get(cid) {
        Some(patch) => patch,
        None => {
            return Err(BlockchainError::FullStateNotFound);
        },
    };
    match patch {
        ZkStatePatch::Full(full) => {
            let (rollback_results, ops) = match P::reset_contract(
                fork,
                cid,
                contract_account.height,
                full,
            ) {
                Ok(reset) => reset,
                Err(e) => {
                    return Err(BlockchainError::StateManagerError(e));
                },
            };
            check_roots::<K, P>(db, cid, contract_account.height, &rollback_results)?;
            fork.apply(&keep_zk_ops(&ops));
        },
        ZkStatePatch::Delta(delta) => {
            match P::update_contract(fork, cid, delta) {
                Ok(ops) => {
                    fork.apply(&keep_zk_ops(&ops));
                },
                Err(e) => {
                    return Err(BlockchainError::StateManagerError(e));
                },
            }
        },
    }
    match P::root(fork, cid) {
        Ok(root) => {
            if !root.same(&contract_account.compressed_state) {
                return Err(BlockchainError::FullStateNotValid);
            }
        },
        Err(e) => {
            return Err(BlockchainError::StateManagerError(e));
        },
    }
    crate::blockchain::rollback::drop_id(outdated, cid);
    Ok(())
}

/// The writes of applying the state patches of a peer.
pub fn update_states_ops<K: KvStore, P: Primitives>(db: &K, patch: &ZkBlockchainPatch) -> (r:
    Result<Vec<WriteOp>, BlockchainError>)
    ensures
        match update_states_step::<P>(db.view(), patch.deep_view()) {
            Ok(after) => r is Ok && apply_ops(db.view(), r.unwrap().deep_view()) == after,
            Err(e) => r is Err && r.unwrap_err() == e,
        },
{
    let ids = get_outdated_contracts(db)?;
    let mut outdated_contracts = ids.clone();
    let mut fork = RamMirrorKvStore::new(db);
    let ghost start = SyncState { store: db.view(), outdated: ids@ };
    let mut i: usize = 0;
    while i < ids.len()
        invariant
            i <= ids.len(),
            fork.store == db,
            outdated_of(db.view()) == Ok::<_, BlockchainError>(ids@),
            start == (SyncState { store: db.view(), outdated: ids@ }),
            patches_fold::<P>(db.view(), patch.deep_view(), start, ids@, i as nat) == Ok::<
                _,
                BlockchainError,
            >(SyncState { store: fork.view(), outdated: outdated_contracts@ }),
        decreases ids.len() - i,
    {
        proof {
            if patches_fold::<P>(db.view(), patch.deep_view(), start, ids@, (i + 1) as nat)
                is Err {
                lemma_patches_fold_fails::<P>(
                    db.view(),
                    patch.deep_view(),
                    start,
                    ids@,
                    (i + 1) as nat,
                    ids@.len(),
                );
            }
        }
        let cid = ids[i];
        run_patch::<K, P>(db, &mut fork, patch, &mut outdated_contracts, &cid)?;
        i += 1;
    }
    if outdated_contracts.len() == 0 {
        fork.remove(keys::outdated());
    } else {
        fork.put(keys::outdated(), Value::Outdated(outdated_contracts));
    }
    Ok(fork.to_ops())
}


/// The heights of the state trees of the first `n` contracts of `ids`.
pub open spec fn tree_heights<P: Primitives>(s: StoreView, ids: Seq<ContractId>, n: nat) -> Outcome<
    Seq<(ContractId, u64)>,
>
    decreases n,
{
    if n == 0 || n > ids.len() {
        Ok(Seq::empty())
    } else {
        match tree_heights::<P>(s, ids, (n - 1) as nat) {
            Err(e) => Err(e),
            Ok(heights) => match P::spec_height_of(s, ids[n - 1]) {
                Err(e) => Err(BlockchainError::StateManagerError(e)),
                Ok(height) => Ok(heights.push((ids[n - 1], height))),
            },
        }
    }
}

/// The outdated contracts, each with the height of its state tree.
pub open spec fn outdated_heights_of<P: Primitives>(s: StoreView) -> Outcome<
    Seq<(ContractId, u64)>,
> {
    match outdated_of(s) {
        Err(e) => Err(e),
        Ok(ids) => tree_heights::<P>(s, ids, ids.len()),
    }
}

/// The patch that brings a state tree at height `height` up to date: the
/// changes since then if the history reaches that far, else the full state.
pub open spec fn patch_for<P: Primitives>(
    s: StoreView,
    contract_id: ContractId,
    height: u64,
) -> Outcome<ZkStatePatchView> {
    match P::spec_height_of(s, contract_id) {
        Err(e) => Err(BlockchainError::StateManagerError(e)),
        Ok(local) => if height > local {
            Err(BlockchainError::StatesUnavailable)
        } else {
            match P::spec_delta_of(s, contract_id, (local - height) as u64) {
                Err(e) => Err(BlockchainError::StateManagerError(e)),
                Ok(Some(delta)) => Ok(ZkStatePatchView::Delta(delta)),
                Ok(None) => match P::spec_get_full_state(s, contract_id) {
                    Err(e) => Err(BlockchainError::StateManagerError(e)),
                    Ok(full) => Ok(ZkStatePatchView::Full(full)),
                },
            }
        },
    }
}

/// The patches for the first `n` of the requested contracts: one for each
/// that is up to date here.
pub open spec fn patches_for<P: Primitives>(
    s: StoreView,
    outdated: Seq<ContractId>,
    heights: Seq<(ContractId, u64)>,
    n: nat,
) -> Outcome<Seq<(ContractId, ZkStatePatchView)>>
    decreases n,
{
    if n == 0 || n > heights.len() {
        Ok(Seq::empty())
    } else {
        match patches_for::<P>(s, outdated, heights, (n - 1) as nat) {
            Err(e) => Err(e),
            Ok(patches) => if outdated.contains(heights[n - 1].0) {
                Ok(patches)
            } else {
                match patch_for::<P>(s, heights[n - 1].0, heights[n - 1].1) {
                    Err(e) => Err(e),
                    Ok(patch) => Ok(patches.push((heights[n - 1].0, patch))),
                }
            },
        }
    }
}

/// The patches that a peer asks for, who is at the tip with hash `to` and
/// whose state trees are at `heights`.
pub open spec fn state_patch_of<P: Primitives>(
    s: StoreView,
    heights: Seq<(ContractId, u64)>,
    to: [u8; 32],
) -> Outcome<Seq<(ContractId, ZkStatePatchView)>> {
    match tip_of(s) {
        Err(e) => Err(e),
        Ok(tip) => if P::spec_header_digest(tip) != to {
            Err(BlockchainError::StatesUnavailable)
        } else {
            match outdated_of(s) {
                Err(e) => Err(e),
                Ok(outdated) => patches_for::<P>(s, outdated, heights, heights.len()),
            }
        },
    }
}

/// A sequence of heights fails where its first failing prefix fails.
pub proof fn lemma_tree_heights_fails<P: Primitives>(
    s: StoreView,
    ids: Seq<ContractId>,
    n: nat,
    m: nat,
)
    requires
        n <= m <= ids.len(),
        tree_heights::<P>(s, ids, n) is Err,
    ensures
        tree_heights::<P>(s, ids, m) == tree_heights::<P>(s, ids, n),
    decreases m,
{
    if n < m {
        lemma_tree_heights_fails::<P>(s, ids, n, (m - 1) as nat);
    }
}

/// A sequence of requests fails where its first failing prefix fails.
pub proof fn lemma_patches_for_fails<P: Primitives>(
    s: StoreView,
    outdated: Seq<ContractId>,
    heights: Seq<(ContractId, u64)>,
    n: nat,
    m: nat,
)
    requires
        n <= m <= heights.len(),
        patches_for::<P>(s, outdated, heights, n) is Err,
    ensures
        patches_for::<P>(s, outdated, heights, m) == patches_for::<P>(s, outdated, heights, n),
    decreases m,
{
    if n < m {
        lemma_patches_for_fails::<P>(s, outdated, heights, n, (m - 1) as nat);
    }
}

/// The outdated contracts, each with the height of its state tree.
pub fn get_outdated_heights<K: KvStore, P: Primitives>(db: &K) -> (r: Result<
    Vec<(ContractId, u64)>,
    BlockchainError,
>)
    ensures
        match r {
            Ok(heights) => outdated_heights_of::<P>(db.view()) == Ok::<_, BlockchainError>(
                heights@,
            ),
            Err(e) => outdated_heights_of::<P>(db.view()) == Err::<Seq<(ContractId, u64)>, _>(e),
        },
{
    let outdated = get_outdated_contracts(db)?;
    let mut ret: Vec<(ContractId, u64)> = Vec::new();
    let mut i: usize = 0;
    while i < outdated.len()
        invariant
            i <= outdated.len(),
            outdated_of(db.view()) == Ok::<_, BlockchainError>(outdated@),
            tree_heights::<P>(db.view(), outdated@, i as nat) == Ok::<_, BlockchainError>(ret@),
        decreases outdated.len() - i,
    {
        proof {
            if tree_heights::<P>(db.view(), outdated@, (i + 1) as nat) is Err {
                lemma_tree_heights_fails::<P>(
                    db.view(),
                    outdated@,
                    (i + 1) as nat,
                    outdated@.len(),
                );
            }
        }
        let cid = outdated[i];
        match P::height_of(db, &cid) {
            Ok(state_height) => {
                ret.push((cid, state_height));
            },
            Err(e) => {
                return Err(BlockchainError::StateManagerError(e));
            },
        }
        i += 1;
    }
    Ok(ret)
}

/// The patch for one contract of a peer.
fn make_patch<K: KvStore, P: Primitives>(db: &K, cid: &ContractId, height: u64) -> (r: Result<
    ZkStatePatch,
    BlockchainError,
>)
    ensures
        match r {
            Ok(patch) => patch_for::<P>(db.view(), *cid, height) == Ok::<_, BlockchainError>(
                patch.deep_view(),
            ),
            Err(e) => patch_for::<P>(db.view(), *cid, height) == Err::<ZkStatePatchView, _>(e),
        },
{
    let local_height = match P::height_of(db, cid) {
        Ok(local_height) => local_height,
        Err(e) => {
            return Err(BlockchainError::StateManagerError(e));
        },
    };
    if height > local_height {
        return Err(BlockchainError::StatesUnavailable);
    }
    let away = local_height - height;
    match P::delta_of(db, cid, away) {
        Ok(Some(delta)) => Ok(ZkStatePatch::Delta(delta)),
        Ok(None) => match P::get_full_state(db, cid) {
            Ok(full) => Ok(ZkStatePatch::Full(full)),
            Err(e) => Err(BlockchainError::StateManagerError(e)),
        },
        Err(e) => Err(BlockchainError::StateManagerError(e)),
    }
}

/// The patches that a peer asks for.
pub fn generate_state_patch<K: KvStore, P: Primitives>(
    db: &K,
    heights: &Vec<(ContractId, u64)>,
    to: &[u8; 32],
) -> (r: Result<ZkBlockchainPatch, BlockchainError>)
    ensures
        match r {
            Ok(patch) => state_patch_of::<P>(db.view(), heights@, *to) == Ok::<
                _,
                BlockchainError,
            >(patch.deep_view()),
            Err(e) => state_patch_of::<P>(db.view(), heights@, *to) == Err::<
                Seq<(ContractId, ZkStatePatchView)>,
                _,
            >(e),
        },
{
    let last_header = get_tip(db)?;
    if !bytes_eq(&P::header_digest(&last_header), to) {
        return Err(BlockchainError::StatesUnavailable);
    }
    let outdated_contracts = get_outdated_contracts(db)?;
    let mut blockchain_patch = ZkBlockchainPatch { patches: Vec::new() };
    let mut i: usize = 0;
    assert(blockchain_patch.deep_view() =~= Seq::<(ContractId, ZkStatePatchView)>::empty());
    while i < heights.len()
        invariant
            i <= heights.len(),
            tip_of(db.view()) == Ok::<_, BlockchainError>(last_header),
            P::spec_header_digest(last_header) == *to,
            outdated_of(db.view()) == Ok::<_, BlockchainError>(outdated_contracts@),
            patches_for::<P>(db.view(), outdated_contracts@, heights@, i as nat) == Ok::<
                _,
                BlockchainError,
            >(blockchain_patch.deep_view()),
        decreases heights.len() - i,
    {
        proof {
            if patches_for::<P>(db.view(), outdated_contracts@, heights@, (i + 1) as nat)
                is Err {
                lemma_patches_for_fails::<P>(
                    db.view(),
                    outdated_contracts@,
                    heights@,
                    (i + 1) as nat,
                    heights@.len(),
                );
            }
        }
        let cid = heights[i].0;
        let height = heights[i].1;
        if !holds(&outdated_contracts, &cid) {
            let patch = make_patch::<K, P>(db, &cid, height)?;
            let ghost before = blockchain_patch.deep_view();
            blockchain_patch.patches.push((cid, patch));
            assert(blockchain_patch.deep_view() =~= before.push((cid, patch.deep_view())));
        }
        i += 1;
    }
    Ok(blockchain_patch)
}

} // verus!
