//! Data of the zero-knowledge subsystem: contract descriptions, compressed
//! states, rollup accounts and transactions.
//!
//! The proof system and the state trees themselves are supplied from outside
//! (see [`primitives`]); the types here are what the chain stores and passes
//! along.
pub mod primitives;

use crate::types::Money;
use crate::utils::bytes_eq;
use vstd::prelude::*;

verus! {

/// An element of the proof system's scalar field, in its 32-byte encoding.
#[derive(Clone, Copy, Debug, PartialEq, Eq, Hash)]
pub struct ZkScalar(pub [u8; 32]);

/// A point of the inner curve, by its two coordinates.
#[derive(Clone, Copy, Debug, PartialEq, Eq, Hash)]
pub struct ZkPoint {
    pub x: ZkScalar,
    pub y: ZkScalar,
}

/// A public key of the inner signature scheme: a compressed curve point.
#[derive(Clone, Copy, Debug, PartialEq, Eq, Hash)]
pub struct ZkPublicKey(pub [u8; 32]);

/// A signature of the inner signature scheme.
#[derive(Clone, Copy, Debug, PartialEq, Eq, Hash)]
pub struct ZkSignature {
    pub r: ZkPoint,
    pub s: ZkScalar,
}

/// The summary of a contract's state tree: its root hash and its size.
#[derive(Clone, Copy, Debug, PartialEq, Eq, Hash)]
pub struct ZkCompressedState {
    pub state_hash: ZkScalar,
    pub state_size: u32,
}

/// An account of the payment network, stored in the rollup contract's tree.
#[derive(Clone, Copy, Debug, PartialEq, Eq, Hash)]
pub struct MpnAccount {
    pub address: ZkPoint,
    pub balance: Money,
    pub nonce: u64,
}

/// A transfer between two accounts of the payment network.
#[derive(Clone, Copy, Debug, PartialEq, Eq, Hash)]
pub struct ZeroTransaction {
    pub nonce: u64,
    pub src_index: u32,
    pub dst_index: u32,
    pub dst_pub_key: ZkPublicKey,
    pub amount: Money,
    pub fee: Money,
    pub sig: ZkSignature,
}

/// One slot of the auxiliary state of a payment batch.
#[derive(Clone, Copy, Debug, PartialEq, Eq, Hash)]
pub struct PaymentSlot {
    pub amount: Money,
    pub withdraw: bool,
    pub address: ZkPoint,
}

/// Why the state manager refused an operation.
#[derive(Clone, Copy, Debug, PartialEq, Eq, Hash)]
pub struct StateManagerError {
    pub code: u32,
}

/// The shape of a contract's state tree, in its encoded form.
#[derive(Debug, PartialEq, Eq, Hash)]
pub struct ZkStateModel(pub Vec<u8>);

/// The verifying key of a circuit.
#[derive(Debug, PartialEq, Eq, Hash)]
pub struct ZkVerifierKey(pub Vec<u8>);

/// The verifying key of a payment circuit, with the capacity of its batches:
/// a batch has `4^log4_payment_capacity` slots.
#[derive(Debug, PartialEq, Eq, Hash)]
pub struct ZkPaymentVerifierKey {
    pub verifier_key: ZkVerifierKey,
    pub log4_payment_capacity: u8,
}

/// A proof of a state transition.
#[derive(Debug, PartialEq, Eq, Hash)]
pub struct ZkProof(pub Vec<u8>);

/// A contract: the shape and initial summary of its state, and the circuits
/// that may update it.
#[derive(Debug, PartialEq, Eq, Hash)]
pub struct ZkContract {
    pub initial_state: ZkCompressedState,
    pub state_model: ZkStateModel,
    pub payment_functions: Vec<ZkPaymentVerifierKey>,
    pub functions: Vec<ZkVerifierKey>,
}

/// The path of a cell in a state tree.
#[derive(Debug, PartialEq, Eq, Hash)]
pub struct ZkDataLocator(pub Vec<u32>);

/// A change of one cell: its new value, or `None` to clear it.
#[derive(Debug, PartialEq, Eq, Hash)]
pub struct ZkDeltaPair {
    pub locator: ZkDataLocator,
    pub value: Option<ZkScalar>,
}

/// One cell of a full state.
#[derive(Debug, PartialEq, Eq, Hash)]
pub struct ZkDataPair {
    pub locator: ZkDataLocator,
    pub value: ZkScalar,
}

/// A set of cell changes.
#[derive(Debug, PartialEq, Eq, Hash)]
pub struct ZkDeltaPairs(pub Vec<ZkDeltaPair>);

/// All the cells of a state.
#[derive(Debug, PartialEq, Eq, Hash)]
pub struct ZkDataPairs(pub Vec<ZkDataPair>);

/// What a peer sends to bring a contract's state tree up to date.
#[derive(Debug, PartialEq, Eq, Hash)]
pub enum ZkStatePatch {
    Full(ZkDataPairs),
    Delta(ZkDeltaPairs),
}

/// The model of [`ZkPaymentVerifierKey`]: what it holds, with a `Seq` for every `Vec`.
pub struct ZkPaymentVerifierKeyView {
    pub verifier_key: Seq<u8>,
    pub log4_payment_capacity: u8,
}

/// The model of [`ZkContract`]: what it holds, with a `Seq` for every `Vec`.
pub struct ZkContractView {
    pub initial_state: ZkCompressedState,
    pub state_model: Seq<u8>,
    pub payment_functions: Seq<ZkPaymentVerifierKeyView>,
    pub functions: Seq<Seq<u8>>,
}

/// The model of [`ZkDeltaPair`]: what it holds, with a `Seq` for every `Vec`.
pub struct ZkDeltaPairView {
    pub locator: Seq<u32>,
    pub value: Option<ZkScalar>,
}

/// The model of [`ZkDataPair`]: what it holds, with a `Seq` for every `Vec`.
pub struct ZkDataPairView {
    pub locator: Seq<u32>,
    pub value: ZkScalar,
}

/// The model of [`ZkStatePatch`]: what it holds, with a `Seq` for every `Vec`.
pub enum ZkStatePatchView {
    Full(Seq<ZkDataPairView>),
    Delta(Seq<ZkDeltaPairView>),
}

impl DeepView for ZkScalar {
    type V = ZkScalar;

    open spec fn deep_view(&self) -> ZkScalar {
        *self
    }
}

impl DeepView for ZkCompressedState {
    type V = ZkCompressedState;

    open spec fn deep_view(&self) -> ZkCompressedState {
        *self
    }
}

impl DeepView for PaymentSlot {
    type V = PaymentSlot;

    open spec fn deep_view(&self) -> PaymentSlot {
        *self
    }
}

impl DeepView for ZkStateModel {
    type V = Seq<u8>;

    open spec fn deep_view(&self) -> Seq<u8> {
        self.0@
    }
}

impl DeepView for ZkVerifierKey {
    type V = Seq<u8>;

    open spec fn deep_view(&self) -> Seq<u8> {
        self.0@
    }
}

impl DeepView for ZkProof {
    type V = Seq<u8>;

    open spec fn deep_view(&self) -> Seq<u8> {
        self.0@
    }
}

impl DeepView for ZkPaymentVerifierKey {
    type V = ZkPaymentVerifierKeyView;

    open spec fn deep_view(&self) -> ZkPaymentVerifierKeyView {
        ZkPaymentVerifierKeyView {
            verifier_key: self.verifier_key.0@,
            log4_payment_capacity: self.log4_payment_capacity,
        }
    }
}

impl DeepView for ZkContract {
    type V = ZkContractView;

    open spec fn deep_view(&self) -> ZkContractView {
        ZkContractView {
            initial_state: self.initial_state,
            state_model: self.state_model.0@,
            payment_functions: self.payment_functions.deep_view(),
            functions: self.functions.deep_view(),
        }
    }
}

impl DeepView for ZkDataLocator {
    type V = Seq<u32>;

    open spec fn deep_view(&self) -> Seq<u32> {
        self.0@
    }
}

impl DeepView for ZkDeltaPair {
    type V = ZkDeltaPairView;

    open spec fn deep_view(&self) -> ZkDeltaPairView {
        ZkDeltaPairView { locator: self.locator.0@, value: self.value }
    }
}

impl DeepView for ZkDataPair {
    type V = ZkDataPairView;

    open spec fn deep_view(&self) -> ZkDataPairView {
        ZkDataPairView { locator: self.locator.0@, value: self.value }
    }
}

impl DeepView for ZkDeltaPairs {
    type V = Seq<ZkDeltaPairView>;

    open spec fn deep_view(&self) -> Seq<ZkDeltaPairView> {
        self.0.deep_view()
    }
}

impl DeepView for ZkDataPairs {
    type V = Seq<ZkDataPairView>;

    open spec fn deep_view(&self) -> Seq<ZkDataPairView> {
        self.0.deep_view()
    }
}

impl DeepView for ZkStatePatch {
    type V = ZkStatePatchView;

    open spec fn deep_view(&self) -> ZkStatePatchView {
        match self {
            ZkStatePatch::Full(full) => ZkStatePatchView::Full(full.0.deep_view()),
            ZkStatePatch::Delta(delta) => ZkStatePatchView::Delta(delta.0.deep_view()),
        }
    }
}

impl Clone for ZkStateModel {
    fn clone(&self) -> (copy: Self)
        ensures
            copy.deep_view() == self.deep_view(),
    {
        ZkStateModel(self.0.clone())
    }
}

impl Clone for ZkVerifierKey {
    fn clone(&self) -> (copy: Self)
        ensures
            copy.deep_view() == self.deep_view(),
    {
        ZkVerifierKey(self.0.clone())
    }
}

impl Clone for ZkProof {
    fn clone(&self) -> (copy: Self)
        ensures
            copy.deep_view() == self.deep_view(),
    {
        ZkProof(self.0.clone())
    }
}

impl Clone for ZkPaymentVerifierKey {
    fn clone(&self) -> (copy: Self)
        ensures
            copy.deep_view() == self.deep_view(),
    {
        ZkPaymentVerifierKey {
            verifier_key: self.verifier_key.clone(),
            log4_payment_capacity: self.log4_payment_capacity,
        }
    }
}

impl Clone for ZkContract {
    fn clone(&self) -> (copy: Self)
        ensures
            copy.deep_view() == self.deep_view(),
    {
        let payment_functions = self.payment_functions.clone();
        let functions = self.functions.clone();
        assert(payment_functions.deep_view() =~= self.payment_functions.deep_view());
        assert(functions.deep_view() =~= self.functions.deep_view());
        ZkContract {
            initial_state: self.initial_state,
            state_model: self.state_model.clone(),
            payment_functions,
            functions,
        }
    }
}

impl Clone for ZkDataLocator {
    fn clone(&self) -> (copy: Self)
        ensures
            copy.deep_view() == self.deep_view(),
    {
        ZkDataLocator(self.0.clone())
    }
}

impl Clone for ZkDeltaPair {
    fn clone(&self) -> (copy: Self)
        ensures
            copy.deep_view() == self.deep_view(),
    {
        ZkDeltaPair { locator: self.locator.clone(), value: self.value }
    }
}

impl Clone for ZkDataPair {
    fn clone(&self) -> (copy: Self)
        ensures
            copy.deep_view() == self.deep_view(),
    {
        ZkDataPair { locator: self.locator.clone(), value: self.value }
    }
}

impl Clone for ZkDeltaPairs {
    fn clone(&self) -> (copy: Self)
        ensures
            copy.deep_view() == self.deep_view(),
    {
        let pairs = self.0.clone();
        assert(pairs.deep_view() =~= self.0.deep_view());
        ZkDeltaPairs(pairs)
    }
}

impl Clone for ZkDataPairs {
    fn clone(&self) -> (copy: Self)
        ensures
            copy.deep_view() == self.deep_view(),
    {
        let pairs = self.0.clone();
        assert(pairs.deep_view() =~= self.0.deep_view());
        ZkDataPairs(pairs)
    }
}

impl Clone for ZkStatePatch {
    fn clone(&self) -> (copy: Self)
        ensures
            copy.deep_view() == self.deep_view(),
    {
        match self {
            ZkStatePatch::Full(full) => ZkStatePatch::Full(full.clone()),
            ZkStatePatch::Delta(delta) => ZkStatePatch::Delta(delta.clone()),
        }
    }
}

impl ZkScalar {
    /// Whether two scalars are the same.
    pub fn same(&self, other: &ZkScalar) -> (r: bool)
        ensures
            r == (*self == *other),
    {
        bytes_eq(&self.0, &other.0)
    }
}

impl ZkCompressedState {
    /// The storage cost of the summarised state.
    pub fn size(&self) -> (size: u32)
        ensures
            size == self.state_size,
    {
        self.state_size
    }

    /// Whether two summaries are the same.
    pub fn same(&self, other: &ZkCompressedState) -> (r: bool)
        ensures
            r == (*self == *other),
    {
        self.state_hash.same(&other.state_hash) && self.state_size == other.state_size
    }
}


/// A transfer inside the payment network.
pub type MpnTransaction = ZeroTransaction;

} // verus!
