//! The chain's data types: addresses, accounts, headers, transactions and
//! blocks.
//!
//! Types without heap data are their own mathematical model. The others have
//! a view in which every `Vec` is a `Seq`; contracts speak of the view.
pub mod hash;
pub mod merkle;
pub mod same;

use crate::consensus::pow::Difficulty;
use crate::crypto::ed25519::PublicKey;
use crate::utils::bytes_eq;
use crate::zk::{
    ZkCompressedState, ZkContract, ZkContractView, ZkDeltaPairView, ZkDeltaPairs, ZkProof,
    ZkPublicKey,
};
use vstd::prelude::*;

verus! {

/// An amount of money.
pub type Money = u64;

/// The identifier of a contract: the digest of the transaction that created
/// it.
#[derive(Clone, Copy, Debug, PartialEq, Eq, Hash)]
pub struct ContractId(pub [u8; 32]);

/// Who holds an account: the treasury, or the owner of a public key.
#[derive(Clone, Copy, Debug, PartialEq, Eq, Hash)]
pub enum Address {
    Treasury,
    PublicKey(PublicKey),
}

/// The balance of an address, and the number of transactions it has sent.
#[derive(Clone, Copy, Debug, PartialEq, Eq, Hash)]
pub struct Account {
    pub balance: Money,
    pub nonce: u32,
}

/// The on-chain side of a contract: the summary of its state, its pooled
/// balance, and the number of states it has had (1 after creation).
#[derive(Clone, Copy, Debug, PartialEq, Eq, Hash)]
pub struct ContractAccount {
    pub compressed_state: ZkCompressedState,
    pub balance: Money,
    pub height: u64,
}

/// The signature of a transaction or payment.
#[derive(Clone, Copy, Debug, PartialEq, Eq, Hash)]
pub enum Signature {
    Unsigned,
    Signed(crate::crypto::ed25519::Signature),
}

/// The proof-of-work part of a header.
#[derive(Clone, Copy, Debug, PartialEq, Eq, Hash)]
pub struct ProofOfWork {
    pub timestamp: u32,
    pub target: Difficulty,
    pub nonce: u64,
}

/// A block header.
#[derive(Clone, Copy, Debug, PartialEq, Eq, Hash)]
pub struct Header {
    pub parent_hash: [u8; 32],
    pub number: u64,
    pub block_root: [u8; 32],
    pub proof_of_work: ProofOfWork,
}

/// Which way a contract payment moves money.
#[derive(Clone, Copy, Debug, PartialEq, Eq, Hash)]
pub enum PaymentDirection {
    /// From the outer account into the contract.
    Deposit,
    /// From the contract to the outer account.
    Withdraw,
}

/// A payment between an outer account and a contract's pooled balance. It is
/// executed by whoever includes it in a contract update, who earns its fee.
#[derive(Clone, Copy, Debug, PartialEq, Eq, Hash)]
pub struct ContractPayment {
    pub address: PublicKey,
    pub zk_address: ZkPublicKey,
    pub contract_id: ContractId,
    pub nonce: u32,
    pub amount: Money,
    pub fee: Money,
    pub direction: PaymentDirection,
    pub sig: Signature,
}

/// One proven step of a contract's state.
#[derive(Debug, PartialEq, Eq, Hash)]
pub enum ContractUpdate {
    /// A batch of deposits and withdrawals, proven by a payment circuit.
    Payment {
        circuit_id: u32,
        payments: Vec<ContractPayment>,
        next_state: ZkCompressedState,
        proof: ZkProof,
    },
    /// A state transition proven by a function circuit, for a fee paid from
    /// the contract's balance.
    FunctionCall { function_id: u32, next_state: ZkCompressedState, proof: ZkProof, fee: Money },
}

/// What a transaction does.
#[derive(Debug, PartialEq, Eq, Hash)]
pub enum TransactionData {
    RegularSend { dst: Address, amount: Money },
    CreateContract { contract: ZkContract },
    UpdateContract { contract_id: ContractId, updates: Vec<ContractUpdate> },
}

/// A transaction.
#[derive(Debug, PartialEq, Eq, Hash)]
pub struct Transaction {
    pub src: Address,
    pub nonce: u32,
    pub data: TransactionData,
    pub fee: Money,
    pub sig: Signature,
}

/// A transaction together with the change it makes to its contract's state
/// tree, if it touches a contract.
#[derive(Debug, PartialEq, Eq, Hash)]
pub struct TransactionAndDelta {
    pub tx: Transaction,
    pub state_delta: Option<ZkDeltaPairs>,
}

/// A block: a header and the transactions it commits to.
#[derive(Debug, PartialEq, Eq, Hash)]
pub struct Block {
    pub header: Header,
    pub body: Vec<Transaction>,
}

/// The model of [`ContractUpdate`]: what it holds, with a `Seq` for every `Vec`.
pub enum ContractUpdateView {
    Payment {
        circuit_id: u32,
        payments: Seq<ContractPayment>,
        next_state: ZkCompressedState,
        proof: Seq<u8>,
    },
    FunctionCall { function_id: u32, next_state: ZkCompressedState, proof: Seq<u8>, fee: Money },
}

/// The model of [`TransactionData`]: what it holds, with a `Seq` for every `Vec`.
pub enum TransactionDataView {
    RegularSend { dst: Address, amount: Money },
    CreateContract { contract: ZkContractView },
    UpdateContract { contract_id: ContractId, updates: Seq<ContractUpdateView> },
}

/// The model of [`Transaction`]: what it holds, with a `Seq` for every `Vec`.
pub struct TransactionView {
    pub src: Address,
    pub nonce: u32,
    pub data: TransactionDataView,
    pub fee: Money,
    pub sig: Signature,
}

/// The model of [`TransactionAndDelta`]: what it holds, with a `Seq` for every `Vec`.
pub struct TransactionAndDeltaView {
    pub tx: TransactionView,
    pub state_delta: Option<Seq<ZkDeltaPairView>>,
}

/// The model of [`Block`]: what it holds, with a `Seq` for every `Vec`.
pub struct BlockView {
    pub header: Header,
    pub body: Seq<TransactionView>,
}

impl DeepView for ContractId {
    type V = ContractId;

    open spec fn deep_view(&self) -> ContractId {
        *self
    }
}

impl DeepView for Header {
    type V = Header;

    open spec fn deep_view(&self) -> Header {
        *self
    }
}

impl DeepView for ContractPayment {
    type V = ContractPayment;

    open spec fn deep_view(&self) -> ContractPayment {
        *self
    }
}

impl DeepView for ContractUpdate {
    type V = ContractUpdateView;

    open spec fn deep_view(&self) -> ContractUpdateView {
        match self {
            ContractUpdate::Payment { circuit_id, payments, next_state, proof } => {
                ContractUpdateView::Payment {
                    circuit_id: *circuit_id,
                    payments: payments@,
                    next_state: *next_state,
                    proof: proof.0@,
                }
            },
            ContractUpdate::FunctionCall { function_id, next_state, proof, fee } => {
                ContractUpdateView::FunctionCall {
                    function_id: *function_id,
                    next_state: *next_state,
                    proof: proof.0@,
                    fee: *fee,
                }
            },
        }
    }
}

impl DeepView for TransactionData {
    type V = TransactionDataView;

    open spec fn deep_view(&self) -> TransactionDataView {
        match self {
            TransactionData::RegularSend { dst, amount } => TransactionDataView::RegularSend {
                dst: *dst,
                amount: *amount,
            },
            TransactionData::CreateContract { contract } => TransactionDataView::CreateContract {
                contract: contract.deep_view(),
            },
            TransactionData::UpdateContract {
                contract_id,
                updates,
            } => TransactionDataView::UpdateContract {
                contract_id: *contract_id,
                updates: updates.deep_view(),
            },
        }
    }
}

impl DeepView for Transaction {
    type V = TransactionView;

    open spec fn deep_view(&self) -> TransactionView {
        TransactionView {
            src: self.src,
            nonce: self.nonce,
            data: self.data.deep_view(),
            fee: self.fee,
            sig: self.sig,
        }
    }
}

impl DeepView for TransactionAndDelta {
    type V = TransactionAndDeltaView;

    open spec fn deep_view(&self) -> TransactionAndDeltaView {
        TransactionAndDeltaView {
            tx: self.tx.deep_view(),
            state_delta: self.state_delta.deep_view(),
        }
    }
}

impl DeepView for Block {
    type V = BlockView;

    open spec fn deep_view(&self) -> BlockView {
        BlockView { header: self.header, body: self.body.deep_view() }
    }
}

impl Clone for ContractUpdate {
    fn clone(&self) -> (copy: Self)
        ensures
            copy.deep_view() == self.deep_view(),
    {
        match self {
            ContractUpdate::Payment { circuit_id, payments, next_state, proof } => {
                ContractUpdate::Payment {
                    circuit_id: *circuit_id,
                    payments: payments.clone(),
                    next_state: *next_state,
                    proof: proof.clone(),
                }
            },
            ContractUpdate::FunctionCall { function_id, next_state, proof, fee } => {
                ContractUpdate::FunctionCall {
                    function_id: *function_id,
                    next_state: *next_state,
                    proof: proof.clone(),
                    fee: *fee,
                }
            },
        }
    }
}

impl Clone for TransactionData {
    fn clone(&self) -> (copy: Self)
        ensures
            copy.deep_view() == self.deep_view(),
    {
        match self {
            TransactionData::RegularSend { dst, amount } => TransactionData::RegularSend {
                dst: *dst,
                amount: *amount,
            },
            TransactionData::CreateContract { contract } => TransactionData::CreateContract {
                contract: contract.clone(),
            },
            TransactionData::UpdateContract { contract_id, updates } => {
                let copies = updates.clone();
                assert(copies.deep_view() =~= updates.deep_view());
                TransactionData::UpdateContract { contract_id: *contract_id, updates: copies }
            },
        }
    }
}

impl Clone for Transaction {
    fn clone(&self) -> (copy: Self)
        ensures
            copy.deep_view() == self.deep_view(),
    {
        Transaction {
            src: self.src,
            nonce: self.nonce,
            data: self.data.clone(),
            fee: self.fee,
            sig: self.sig,
        }
    }
}

impl Clone for TransactionAndDelta {
    fn clone(&self) -> (copy: Self)
        ensures
            copy.deep_view() == self.deep_view(),
    {
        let state_delta = match &self.state_delta {
            Some(delta) => Some(delta.clone()),
            None => None,
        };
        TransactionAndDelta { tx: self.tx.clone(), state_delta }
    }
}

impl Clone for Block {
    fn clone(&self) -> (copy: Self)
        ensures
            copy.deep_view() == self.deep_view(),
    {
        let body = self.body.clone();
        assert(body.deep_view() =~= self.body.deep_view());
        Block { header: self.header, body }
    }
}

impl ContractId {
    /// Whether two identifiers are the same.
    pub fn same(&self, other: &ContractId) -> (r: bool)
        ensures
            r == (*self == *other),
    {
        bytes_eq(&self.0, &other.0)
    }
}

impl Address {
    /// Whether two addresses are the same.
    pub fn same(&self, other: &Address) -> (r: bool)
        ensures
            r == (*self == *other),
    {
        match (self, other) {
            (Address::Treasury, Address::Treasury) => true,
            (Address::PublicKey(a), Address::PublicKey(b)) => a.same(b),
            _ => false,
        }
    }
}

impl Signature {
    /// Whether this is the absent signature.
    pub fn is_unsigned(&self) -> (r: bool)
        ensures
            r == (*self == Signature::Unsigned),
    {
        match self {
            Signature::Unsigned => true,
            Signature::Signed(_) => false,
        }
    }
}


/// The hash tree over a block's transactions: the digests of the
/// transactions, and the root that commits to them.
#[derive(Debug, PartialEq, Eq, Hash)]
pub struct MerkleTree {
    pub root: [u8; 32],
    pub leaves: Vec<[u8; 32]>,
}

/// The model of [`MerkleTree`]: what it holds, with a `Seq` for every `Vec`.
pub struct MerkleTreeView {
    pub root: [u8; 32],
    pub leaves: Seq<[u8; 32]>,
}

impl DeepView for MerkleTree {
    type V = MerkleTreeView;

    open spec fn deep_view(&self) -> MerkleTreeView {
        MerkleTreeView { root: self.root, leaves: self.leaves@ }
    }
}

impl Clone for MerkleTree {
    fn clone(&self) -> (copy: Self)
        ensures
            copy.deep_view() == self.deep_view(),
    {
        let mut leaves: Vec<[u8; 32]> = Vec::new();
        let mut i: usize = 0;
        while i < self.leaves.len()
            invariant
                i <= self.leaves.len(),
                leaves@ == self.leaves@.subrange(0, i as int),
            decreases self.leaves.len() - i,
        {
            leaves.push(self.leaves[i]);
            i += 1;
        }
        assert(leaves@ =~= self.leaves@);
        MerkleTree { root: self.root, leaves }
    }
}

impl MerkleTree {
    /// The root of the tree.
    pub fn root(&self) -> (root: [u8; 32])
        ensures
            root == self.root,
    {
        self.root
    }
}


/// The size of a contract payment on the wire.
pub const PAYMENT_SIZE: usize = 182;

/// The size on the wire of the first `n` keys of `keys`: each with its
/// length.
pub open spec fn keys_size(keys: Seq<Seq<u8>>, n: nat) -> nat
    decreases n,
{
    if n == 0 || n > keys.len() {
        0
    } else {
        keys_size(keys, (n - 1) as nat) + 8 + keys[n - 1].len()
    }
}

/// The size on the wire of the first `n` payment keys of `keys`: each with
/// its length and its capacity.
pub open spec fn payment_keys_size(keys: Seq<crate::zk::ZkPaymentVerifierKeyView>, n: nat) -> nat
    decreases n,
{
    if n == 0 || n > keys.len() {
        0
    } else {
        payment_keys_size(keys, (n - 1) as nat) + 9 + keys[n - 1].verifier_key.len()
    }
}

/// The size of a contract on the wire.
pub open spec fn contract_size(contract: ZkContractView) -> nat {
    36 + 8 + contract.state_model.len() + 8 + payment_keys_size(
        contract.payment_functions,
        contract.payment_functions.len(),
    ) + 8 + keys_size(contract.functions, contract.functions.len())
}

/// The size of a contract update on the wire.
pub open spec fn update_size(update: ContractUpdateView) -> nat {
    match update {
        ContractUpdateView::Payment { payments, proof, .. } => 57 + payments.len() * 182
            + proof.len(),
        ContractUpdateView::FunctionCall { proof, .. } => 57 + proof.len(),
    }
}

/// The size on the wire of the first `n` updates of `updates`.
pub open spec fn updates_size(updates: Seq<ContractUpdateView>, n: nat) -> nat
    decreases n,
{
    if n == 0 || n > updates.len() {
        0
    } else {
        updates_size(updates, (n - 1) as nat) + update_size(updates[n - 1])
    }
}

/// The size of a transaction on the wire: 111 bytes for the sender, the
/// nonce, the fee, the signature and the kind, and then what the kind holds.
pub open spec fn transaction_size(tx: TransactionView) -> nat {
    111 + match tx.data {
        TransactionDataView::RegularSend { .. } => 41,
        TransactionDataView::CreateContract { contract } => contract_size(contract),
        TransactionDataView::UpdateContract { updates, .. } => 40 + updates_size(
            updates,
            updates.len(),
        ),
    }
}

/// A transaction without its signature.
pub open spec fn unsigned_transaction(tx: TransactionView) -> TransactionView {
    TransactionView { sig: Signature::Unsigned, ..tx }
}

/// Whether a transaction is signed by its sender. The treasury signs
/// nothing: what it may send is decided elsewhere. Any other sender signs
/// the digest of the transaction without its signature.
pub open spec fn transaction_signed<D: crate::types::hash::Digests>(tx: TransactionView) -> bool {
    match tx.src {
        Address::Treasury => true,
        Address::PublicKey(key) => match tx.sig {
            Signature::Unsigned => false,
            Signature::Signed(sig) => crate::crypto::ed25519::ed25519_verifies(
                key.0@,
                D::spec_transaction_digest(unsigned_transaction(tx))@,
                sig.0@,
            ),
        },
    }
}

/// Whether a contract payment is signed by its outer address: the signature
/// is over the digest of the payment without its signature.
pub open spec fn payment_signed<D: crate::types::hash::Digests>(payment: ContractPayment) -> bool {
    match payment.sig {
        Signature::Unsigned => false,
        Signature::Signed(sig) => crate::crypto::ed25519::ed25519_verifies(
            payment.address.0@,
            D::spec_payment_digest(ContractPayment { sig: Signature::Unsigned, ..payment })@,
            sig.0@,
        ),
    }
}

impl ZkContract {
    /// The size of the contract on the wire, capped at the largest `usize`.
    pub fn size(&self) -> (size: usize)
        ensures
            size == crate::utils::clip(contract_size(self.deep_view())),
    {
        let mut payment_keys: usize = 0;
        let mut i: usize = 0;
        while i < self.payment_functions.len()
            invariant
                i <= self.payment_functions.len(),
                payment_keys == crate::utils::clip(
                    payment_keys_size(self.payment_functions.deep_view(), i as nat),
                ),
            decreases self.payment_functions.len() - i,
        {
            let key = crate::utils::add_sizes(9, self.payment_functions[i].verifier_key.0.len());
            proof {
                crate::utils::lemma_clip_add(
                    payment_keys_size(self.payment_functions.deep_view(), i as nat),
                    9 + self.payment_functions[i as int].verifier_key.0@.len(),
                );
            }
            payment_keys = crate::utils::add_sizes(payment_keys, key);
            i += 1;
        }
        let mut keys: usize = 0;
        let mut j: usize = 0;
        while j < self.functions.len()
            invariant
                j <= self.functions.len(),
                keys == crate::utils::clip(keys_size(self.functions.deep_view(), j as nat)),
            decreases self.functions.len() - j,
        {
            let key = crate::utils::add_sizes(8, self.functions[j].0.len());
            proof {
                crate::utils::lemma_clip_add(
                    keys_size(self.functions.deep_view(), j as nat),
                    8 + self.functions[j as int].0@.len(),
                );
            }
            keys = crate::utils::add_sizes(keys, key);
            j += 1;
        }
        let ghost all_payment_keys = payment_keys_size(
            self.payment_functions.deep_view(),
            self.payment_functions.len() as nat,
        );
        let ghost all_keys = keys_size(self.functions.deep_view(), self.functions.len() as nat);
        let model = crate::utils::add_sizes(44, self.state_model.0.len());
        let with_payment_keys = crate::utils::add_sizes(
            model,
            crate::utils::add_sizes(8, payment_keys),
        );
        proof {
            crate::utils::lemma_clip_add(8, all_payment_keys);
            crate::utils::lemma_clip_add(44 + self.state_model.0@.len(), 8 + all_payment_keys);
            crate::utils::lemma_clip_add(8, all_keys);
            crate::utils::lemma_clip_add(
                44 + self.state_model.0@.len() + 8 + all_payment_keys,
                8 + all_keys,
            );
        }
        crate::utils::add_sizes(with_payment_keys, crate::utils::add_sizes(8, keys))
    }
}

impl ContractUpdate {
    /// The size of the update on the wire, capped at the largest `usize`.
    pub fn size(&self) -> (size: usize)
        ensures
            size == crate::utils::clip(update_size(self.deep_view())),
    {
        match self {
            ContractUpdate::Payment { payments, proof, .. } => {
                let batch = crate::utils::mul_sizes(payments.len(), PAYMENT_SIZE);
                proof {
                    crate::utils::lemma_clip_add(57, payments@.len() * 182);
                    crate::utils::lemma_clip_add(57 + payments@.len() * 182, proof.0@.len());
                }
                crate::utils::add_sizes(crate::utils::add_sizes(57, batch), proof.0.len())
            },
            ContractUpdate::FunctionCall { proof, .. } => crate::utils::add_sizes(
                57,
                proof.0.len(),
            ),
        }
    }
}

impl Transaction {
    /// The size of the transaction on the wire, capped at the largest
    /// `usize`.
    pub fn size(&self) -> (size: usize)
        ensures
            size == crate::utils::clip(transaction_size(self.deep_view())),
    {
        let data = match &self.data {
            TransactionData::RegularSend { .. } => 41,
            TransactionData::CreateContract { contract } => contract.size(),
            TransactionData::UpdateContract { updates, .. } => {
                let mut total: usize = 0;
                let mut i: usize = 0;
                while i < updates.len()
                    invariant
                        i <= updates.len(),
                        total == crate::utils::clip(updates_size(updates.deep_view(), i as nat)),
                    decreases updates.len() - i,
                {
                    proof {
                        crate::utils::lemma_clip_add(
                            updates_size(updates.deep_view(), i as nat),
                            update_size(updates[i as int].deep_view()),
                        );
                    }
                    total = crate::utils::add_sizes(total, updates[i].size());
                    i += 1;
                }
                proof {
                    crate::utils::lemma_clip_add(
                        40,
                        updates_size(updates.deep_view(), updates.len() as nat),
                    );
                }
                crate::utils::add_sizes(40, total)
            },
        };
        proof {
            crate::utils::lemma_clip_add(111, (transaction_size(self.deep_view()) - 111) as nat);
        }
        crate::utils::add_sizes(111, data)
    }

    /// Whether the transaction is signed by its sender.
    pub fn verify_signature<D: crate::types::hash::Digests>(&self) -> (ok: bool)
        ensures
            ok == transaction_signed::<D>(self.deep_view()),
    {
        match &self.src {
            Address::Treasury => true,
            Address::PublicKey(key) => match &self.sig {
                Signature::Unsigned => false,
                Signature::Signed(sig) => {
                    let unsigned = Transaction {
                        src: self.src,
                        nonce: self.nonce,
                        data: self.data.clone(),
                        fee: self.fee,
                        sig: Signature::Unsigned,
                    };
                    let digest = D::transaction_digest(&unsigned);
                    crate::crypto::ed25519::verify_signature(key, digest.as_slice(), sig)
                },
            },
        }
    }
}

impl ContractPayment {
    /// Whether the payment is signed by its outer address.
    pub fn verify_signature<D: crate::types::hash::Digests>(&self) -> (ok: bool)
        ensures
            ok == payment_signed::<D>(*self),
    {
        match &self.sig {
            Signature::Unsigned => false,
            Signature::Signed(sig) => {
                let unsigned = ContractPayment {
                    address: self.address,
                    zk_address: self.zk_address,
                    contract_id: self.contract_id,
                    nonce: self.nonce,
                    amount: self.amount,
                    fee: self.fee,
                    direction: self.direction,
                    sig: Signature::Unsigned,
                };
                let digest = D::payment_digest(&unsigned);
                crate::crypto::ed25519::verify_signature(&self.address, digest.as_slice(), sig)
            },
        }
    }
}


/// A contract payment on the payment network's contract, with the index of
/// the account inside the network that it is for.
#[derive(Clone, Copy, Debug, PartialEq, Eq, Hash)]
pub struct MpnPayment {
    pub zk_address_index: u32,
    pub payment: ContractPayment,
}

} // verus!
