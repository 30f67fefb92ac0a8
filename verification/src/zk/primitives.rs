//! The interfaces of the proof system and of the state manager.
//!
//! Both are supplied by the user of the chain engine. Each operation is a
//! function of its arguments (and, for the state manager, of the store's
//! contents) alone; the function is named by a specification function of the
//! trait, so that the engine's contracts can speak of it.
use crate::db::{KvStore, StoreView, WriteOp, WriteOpView};
use crate::types::ContractId;
use crate::zk::{
    MpnAccount, PaymentSlot, StateManagerError, ZeroTransaction, ZkCompressedState, ZkDataLocator,
    ZkDataPairView, ZkDataPairs, ZkDeltaPairView, ZkDeltaPairs, ZkPoint, ZkProof, ZkPublicKey,
    ZkScalar, ZkStateModel, ZkVerifierKey,
};
use vstd::prelude::*;

verus! {

/// The proof system: circuits, state models, and the inner signature scheme.
pub trait ZkVerifier {
    /// Whether `model` is a well-formed state model.
    open spec fn spec_is_valid_model(model: Seq<u8>) -> bool {
        arbitrary()
    }

    /// The summary of the empty state of `model`.
    open spec fn spec_empty_state(model: Seq<u8>) -> ZkCompressedState {
        arbitrary()
    }

    /// Whether `proof` shows that the circuit of `key` takes `prev_state` to
    /// `next_state` with the auxiliary state `aux_data`.
    open spec fn spec_check_proof(
        key: Seq<u8>,
        prev_state: ZkCompressedState,
        aux_data: ZkCompressedState,
        next_state: ZkCompressedState,
        proof: Seq<u8>,
    ) -> bool {
        arbitrary()
    }

    /// The summary of the auxiliary state of a payment batch: a list of
    /// `4^log4_capacity` slots, the first of which are `slots`.
    open spec fn spec_payment_state(log4_capacity: u8, slots: Seq<PaymentSlot>) -> Result<
        ZkCompressedState,
        StateManagerError,
    > {
        arbitrary()
    }

    /// The summary of the auxiliary state of a function call: the scalar
    /// `fee`.
    open spec fn spec_fee_state(fee: u64) -> Result<ZkCompressedState, StateManagerError> {
        arbitrary()
    }

    /// The curve point that `key` encodes.
    open spec fn spec_decompress(key: ZkPublicKey) -> ZkPoint {
        arbitrary()
    }

    /// The encoding of a curve point.
    open spec fn spec_compress(point: ZkPoint) -> ZkPublicKey {
        arbitrary()
    }

    /// Whether the signature of `tx` is valid under `key`.
    open spec fn spec_verify_zero_transaction(tx: ZeroTransaction, key: ZkPublicKey) -> bool {
        arbitrary()
    }

    fn is_valid_model(model: &ZkStateModel) -> (ok: bool)
        ensures
            ok == Self::spec_is_valid_model(model.deep_view()),
    ;

    fn empty_state(model: &ZkStateModel) -> (state: ZkCompressedState)
        ensures
            state == Self::spec_empty_state(model.deep_view()),
    ;

    fn check_proof(
        key: &ZkVerifierKey,
        prev_state: &ZkCompressedState,
        aux_data: &ZkCompressedState,
        next_state: &ZkCompressedState,
        proof: &ZkProof,
    ) -> (ok: bool)
        ensures
            ok == Self::spec_check_proof(
                key.deep_view(),
                *prev_state,
                *aux_data,
                *next_state,
                proof.deep_view(),
            ),
    ;

    fn payment_state(log4_capacity: u8, slots: &Vec<PaymentSlot>) -> (state: Result<
        ZkCompressedState,
        StateManagerError,
    >)
        ensures
            state == Self::spec_payment_state(log4_capacity, slots@),
    ;

    fn fee_state(fee: u64) -> (state: Result<ZkCompressedState, StateManagerError>)
        ensures
            state == Self::spec_fee_state(fee),
    ;

    fn decompress(key: &ZkPublicKey) -> (point: ZkPoint)
        ensures
            point == Self::spec_decompress(*key),
    ;

    fn compress(point: &ZkPoint) -> (key: ZkPublicKey)
        ensures
            key == Self::spec_compress(*point),
    ;

    fn verify_zero_transaction(tx: &ZeroTransaction, key: &ZkPublicKey) -> (ok: bool)
        ensures
            ok == Self::spec_verify_zero_transaction(*tx, *key),
    ;
}

/// The writes of `ops` that go to the state manager's keys.
pub open spec fn zk_ops(ops: Seq<WriteOpView>) -> Seq<WriteOpView>
    decreases ops.len(),
{
    if ops.len() == 0 {
        Seq::empty()
    } else if ops.last().key().is_zk() {
        zk_ops(ops.drop_last()).push(ops.last())
    } else {
        zk_ops(ops.drop_last())
    }
}

/// The state manager: it keeps, per contract, a state tree and a bounded
/// history of its changes, in the `Zk` keys of the store.
///
/// An operation that changes a tree does not write: it returns the writes to
/// make. The engine applies those that go to `Zk` keys and drops the others,
/// so that its own keys are out of the manager's reach.
pub trait ZkStateManager {
    open spec fn spec_get_mpn_account(db: StoreView, contract_id: ContractId, index: u32) -> Result<
        MpnAccount,
        StateManagerError,
    > {
        arbitrary()
    }

    open spec fn spec_set_mpn_account(
        db: StoreView,
        contract_id: ContractId,
        index: u32,
        account: MpnAccount,
    ) -> Result<Seq<WriteOpView>, StateManagerError> {
        arbitrary()
    }

    open spec fn spec_get_mpn_accounts(
        db: StoreView,
        contract_id: ContractId,
        page: usize,
        page_size: usize,
    ) -> Result<Seq<(u32, MpnAccount)>, StateManagerError> {
        arbitrary()
    }

    /// The summary of the contract's state tree.
    open spec fn spec_root(db: StoreView, contract_id: ContractId) -> Result<
        ZkCompressedState,
        StateManagerError,
    > {
        arbitrary()
    }

    /// The number of states that the contract's tree has had.
    open spec fn spec_height_of(db: StoreView, contract_id: ContractId) -> Result<
        u64,
        StateManagerError,
    > {
        arbitrary()
    }

    /// The changes that bring a tree that is `away` states behind up to
    /// date, if the history reaches that far.
    open spec fn spec_delta_of(db: StoreView, contract_id: ContractId, away: u64) -> Result<
        Option<Seq<ZkDeltaPairView>>,
        StateManagerError,
    > {
        arbitrary()
    }

    open spec fn spec_get_full_state(db: StoreView, contract_id: ContractId) -> Result<
        Seq<ZkDataPairView>,
        StateManagerError,
    > {
        arbitrary()
    }

    /// Replaces the contract's tree by `full`, as its state number `height`.
    /// The summaries that come with the writes are those of the states
    /// before it, latest first, as far as the kept history goes.
    open spec fn spec_reset_contract(
        db: StoreView,
        contract_id: ContractId,
        height: u64,
        full: Seq<ZkDataPairView>,
    ) -> Result<(Seq<ZkCompressedState>, Seq<WriteOpView>), StateManagerError> {
        arbitrary()
    }

    open spec fn spec_update_contract(
        db: StoreView,
        contract_id: ContractId,
        delta: Seq<ZkDeltaPairView>,
    ) -> Result<Seq<WriteOpView>, StateManagerError> {
        arbitrary()
    }

    /// Takes the contract's tree one state back. The summary that comes with
    /// the writes is that of the state reached, or `None` when the history
    /// does not reach back.
    open spec fn spec_rollback_contract(db: StoreView, contract_id: ContractId) -> Result<
        (Option<ZkCompressedState>, Seq<WriteOpView>),
        StateManagerError,
    > {
        arbitrary()
    }

    open spec fn spec_delete_contract(db: StoreView, contract_id: ContractId) -> Result<
        Seq<WriteOpView>,
        StateManagerError,
    > {
        arbitrary()
    }

    open spec fn spec_get_data(db: StoreView, contract_id: ContractId, locator: Seq<u32>) -> Result<
        ZkScalar,
        StateManagerError,
    > {
        arbitrary()
    }

    fn get_mpn_account<K: KvStore>(db: &K, contract_id: &ContractId, index: u32) -> (account:
        Result<MpnAccount, StateManagerError>)
        ensures
            account == Self::spec_get_mpn_account(db.view(), *contract_id, index),
    ;

    fn set_mpn_account<K: KvStore>(
        db: &K,
        contract_id: &ContractId,
        index: u32,
        account: MpnAccount,
    ) -> (writes: Result<Vec<WriteOp>, StateManagerError>)
        ensures
            match writes {
                Ok(ops) => Self::spec_set_mpn_account(db.view(), *contract_id, index, account)
                    == Ok::<_, StateManagerError>(ops.deep_view()),
                Err(e) => Self::spec_set_mpn_account(db.view(), *contract_id, index, account)
                    == Err::<Seq<WriteOpView>, _>(e),
            },
    ;

    fn get_mpn_accounts<K: KvStore>(
        db: &K,
        contract_id: &ContractId,
        page: usize,
        page_size: usize,
    ) -> (accounts: Result<Vec<(u32, MpnAccount)>, StateManagerError>)
        ensures
            match accounts {
                Ok(list) => Self::spec_get_mpn_accounts(db.view(), *contract_id, page, page_size)
                    == Ok::<_, StateManagerError>(list@),
                Err(e) => Self::spec_get_mpn_accounts(db.view(), *contract_id, page, page_size)
                    == Err::<Seq<(u32, MpnAccount)>, _>(e),
            },
    ;

    fn root<K: KvStore>(db: &K, contract_id: &ContractId) -> (root: Result<
        ZkCompressedState,
        StateManagerError,
    >)
        ensures
            root == Self::spec_root(db.view(), *contract_id),
    ;

    fn height_of<K: KvStore>(db: &K, contract_id: &ContractId) -> (height: Result<
        u64,
        StateManagerError,
    >)
        ensures
            height == Self::spec_height_of(db.view(), *contract_id),
    ;

    fn delta_of<K: KvStore>(db: &K, contract_id: &ContractId, away: u64) -> (delta: Result<
        Option<ZkDeltaPairs>,
        StateManagerError,
    >)
        ensures
            match delta {
                Ok(found) => Self::spec_delta_of(db.view(), *contract_id, away) == Ok::<
                    _,
                    StateManagerError,
                >(found.deep_view()),
                Err(e) => Self::spec_delta_of(db.view(), *contract_id, away) == Err::<
                    Option<Seq<ZkDeltaPairView>>,
                    _,
                >(e),
            },
    ;

    fn get_full_state<K: KvStore>(db: &K, contract_id: &ContractId) -> (full: Result<
        ZkDataPairs,
        StateManagerError,
    >)
        ensures
            match full {
                Ok(state) => Self::spec_get_full_state(db.view(), *contract_id) == Ok::<
                    _,
                    StateManagerError,
                >(state.deep_view()),
                Err(e) => Self::spec_get_full_state(db.view(), *contract_id) == Err::<
                    Seq<ZkDataPairView>,
                    _,
                >(e),
            },
    ;

    fn reset_contract<K: KvStore>(
        db: &K,
        contract_id: &ContractId,
        height: u64,
        full: &ZkDataPairs,
    ) -> (reset: Result<(Vec<ZkCompressedState>, Vec<WriteOp>), StateManagerError>)
        ensures
            match reset {
                Ok((earlier, ops)) => Self::spec_reset_contract(
                    db.view(),
                    *contract_id,
                    height,
                    full.deep_view(),
                ) == Ok::<_, StateManagerError>((earlier@, ops.deep_view())),
                Err(e) => Self::spec_reset_contract(
                    db.view(),
                    *contract_id,
                    height,
                    full.deep_view(),
                ) == Err::<(Seq<ZkCompressedState>, Seq<WriteOpView>), _>(e),
            },
    ;

    fn update_contract<K: KvStore>(db: &K, contract_id: &ContractId, delta: &ZkDeltaPairs) -> (writes:
        Result<Vec<WriteOp>, StateManagerError>)
        ensures
            match writes {
                Ok(ops) => Self::spec_update_contract(db.view(), *contract_id, delta.deep_view())
                    == Ok::<_, StateManagerError>(ops.deep_view()),
                Err(e) => Self::spec_update_contract(db.view(), *contract_id, delta.deep_view())
                    == Err::<Seq<WriteOpView>, _>(e),
            },
    ;

    fn rollback_contract<K: KvStore>(db: &K, contract_id: &ContractId) -> (back: Result<
        (Option<ZkCompressedState>, Vec<WriteOp>),
        StateManagerError,
    >)
        ensures
            match back {
                Ok((reached, ops)) => Self::spec_rollback_contract(db.view(), *contract_id) == Ok::<
                    _,
                    StateManagerError,
                >((reached, ops.deep_view())),
                Err(e) => Self::spec_rollback_contract(db.view(), *contract_id) == Err::<
                    (Option<ZkCompressedState>, Seq<WriteOpView>),
                    _,
                >(e),
            },
    ;

    fn delete_contract<K: KvStore>(db: &K, contract_id: &ContractId) -> (writes: Result<
        Vec<WriteOp>,
        StateManagerError,
    >)
        ensures
            match writes {
                Ok(ops) => Self::spec_delete_contract(db.view(), *contract_id) == Ok::<
                    _,
                    StateManagerError,
                >(ops.deep_view()),
                Err(e) => Self::spec_delete_contract(db.view(), *contract_id) == Err::<
                    Seq<WriteOpView>,
                    _,
                >(e),
            },
    ;

    fn get_data<K: KvStore>(db: &K, contract_id: &ContractId, locator: &ZkDataLocator) -> (value:
        Result<ZkScalar, StateManagerError>)
        ensures
            value == Self::spec_get_data(db.view(), *contract_id, locator.deep_view()),
    ;
}

/// Keeps the writes of `ops` that go to the state manager's keys.
pub fn keep_zk_ops(ops: &Vec<WriteOp>) -> (kept: Vec<WriteOp>)
    ensures
        kept.deep_view() == zk_ops(ops.deep_view()),
{
    let mut kept: Vec<WriteOp> = Vec::new();
    let mut i: usize = 0;
    assert(ops.deep_view().subrange(0, 0) =~= Seq::<WriteOpView>::empty());
    assert(kept.deep_view() =~= Seq::<WriteOpView>::empty());
    while i < ops.len()
        invariant
            i <= ops.len(),
            kept.deep_view() == zk_ops(ops.deep_view().subrange(0, i as int)),
        decreases ops.len() - i,
    {
        let ghost prefix = ops.deep_view().subrange(0, i + 1);
        assert(prefix.drop_last() =~= ops.deep_view().subrange(0, i as int));
        assert(prefix.last() == ops@[i as int].deep_view());
        match ops[i].key() {
            crate::db::Key::Zk(_, _, _) => {
                let ghost before = kept.deep_view();
                kept.push(crate::db::clone_op(&ops[i]));
                assert(kept.deep_view() =~= before.push(ops@[i as int].deep_view()));
            },
            _ => {},
        }
        i += 1;
    }
    assert(ops.deep_view().subrange(0, ops.len() as int) =~= ops.deep_view());
    kept
}

} // verus!
