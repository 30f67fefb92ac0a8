//! Comparing the chain's records by content.
use crate::types::{
    Block, ContractPayment, ContractUpdate, Header, PaymentDirection, Signature, Transaction,
    TransactionData,
};
use crate::utils::bytes_eq;
use crate::zk::{ZkContract, ZkPaymentVerifierKey, ZkVerifierKey};
use vstd::prelude::*;

verus! {

/// Whether two byte strings are the same.
pub fn same_bytes(a: &Vec<u8>, b: &Vec<u8>) -> (r: bool)
    ensures
        r == (a@ == b@),
{
    if a.len() != b.len() {
        return false;
    }
    let mut i: usize = 0;
    while i < a.len()
        invariant
            i <= a.len(),
            a.len() == b.len(),
            forall|j: int| 0 <= j < i ==> a@[j] == b@[j],
        decreases a.len() - i,
    {
        if a[i] != b[i] {
            return false;
        }
        i += 1;
    }
    assert(a@ =~= b@);
    true
}

impl Signature {
    /// Whether two signatures are the same.
    pub fn same(&self, other: &Signature) -> (r: bool)
        ensures
            r == (*self == *other),
    {
        match (self, other) {
            (Signature::Unsigned, Signature::Unsigned) => true,
            (Signature::Signed(a), Signature::Signed(b)) => bytes_eq(&a.0, &b.0),
            _ => false,
        }
    }
}

impl Header {
    /// Whether two headers are the same.
    pub fn same(&self, other: &Header) -> (r: bool)
        ensures
            r == (*self == *other),
    {
        bytes_eq(&self.parent_hash, &other.parent_hash) && self.number == other.number && bytes_eq(
            &self.block_root,
            &other.block_root,
        ) && self.proof_of_work.timestamp == other.proof_of_work.timestamp
            && self.proof_of_work.target.same(&other.proof_of_work.target)
            && self.proof_of_work.nonce == other.proof_of_work.nonce
    }
}

impl ContractPayment {
    /// Whether two payments are the same.
    pub fn same(&self, other: &ContractPayment) -> (r: bool)
        ensures
            r == (*self == *other),
    {
        let direction = match (self.direction, other.direction) {
            (PaymentDirection::Deposit, PaymentDirection::Deposit) => true,
            (PaymentDirection::Withdraw, PaymentDirection::Withdraw) => true,
            _ => false,
        };
        self.address.same(&other.address) && bytes_eq(&self.zk_address.0, &other.zk_address.0)
            && self.contract_id.same(&other.contract_id) && self.nonce == other.nonce
            && self.amount == other.amount && self.fee == other.fee && direction && self.sig.same(
            &other.sig,
        )
    }
}

fn same_payments(a: &Vec<ContractPayment>, b: &Vec<ContractPayment>) -> (r: bool)
    ensures
        r == (a@ == b@),
{
    if a.len() != b.len() {
        return false;
    }
    let mut i: usize = 0;
    while i < a.len()
        invariant
            i <= a.len(),
            a.len() == b.len(),
            forall|j: int| 0 <= j < i ==> a@[j] == b@[j],
        decreases a.len() - i,
    {
        if !a[i].same(&b[i]) {
            return false;
        }
        i += 1;
    }
    assert(a@ =~= b@);
    true
}

fn same_keys(a: &Vec<ZkVerifierKey>, b: &Vec<ZkVerifierKey>) -> (r: bool)
    ensures
        r == (a.deep_view() == b.deep_view()),
{
    if a.len() != b.len() {
        assert(a.deep_view().len() != b.deep_view().len());
        return false;
    }
    let mut i: usize = 0;
    while i < a.len()
        invariant
            i <= a.len(),
            a.len() == b.len(),
            forall|j: int| 0 <= j < i ==> a@[j].deep_view() == b@[j].deep_view(),
        decreases a.len() - i,
    {
        if !same_bytes(&a[i].0, &b[i].0) {
            assert(a.deep_view()[i as int] != b.deep_view()[i as int]);
            return false;
        }
        i += 1;
    }
    assert(a.deep_view() =~= b.deep_view());
    true
}

fn same_payment_keys(a: &Vec<ZkPaymentVerifierKey>, b: &Vec<ZkPaymentVerifierKey>) -> (r: bool)
    ensures
        r == (a.deep_view() == b.deep_view()),
{
    if a.len() != b.len() {
        assert(a.deep_view().len() != b.deep_view().len());
        return false;
    }
    let mut i: usize = 0;
    while i < a.len()
        invariant
            i <= a.len(),
            a.len() == b.len(),
            forall|j: int| 0 <= j < i ==> a@[j].deep_view() == b@[j].deep_view(),
        decreases a.len() - i,
    {
        if !same_bytes(&a[i].verifier_key.0, &b[i].verifier_key.0) || a[i].log4_payment_capacity
            != b[i].log4_payment_capacity {
            assert(a.deep_view()[i as int] != b.deep_view()[i as int]);
            return false;
        }
        i += 1;
    }
    assert(a.deep_view() =~= b.deep_view());
    true
}

impl ZkContract {
    /// Whether two contracts are the same.
    pub fn same(&self, other: &ZkContract) -> (r: bool)
        ensures
            r == (self.deep_view() == other.deep_view()),
    {
        self.initial_state.same(&other.initial_state) && same_bytes(
            &self.state_model.0,
            &other.state_model.0,
        ) && same_payment_keys(&self.payment_functions, &other.payment_functions) && same_keys(
            &self.functions,
            &other.functions,
        )
    }
}

impl ContractUpdate {
    /// Whether two updates are the same.
    pub fn same(&self, other: &ContractUpdate) -> (r: bool)
        ensures
            r == (self.deep_view() == other.deep_view()),
    {
        match (self, other) {
            (
                ContractUpdate::Payment { circuit_id, payments, next_state, proof },
                ContractUpdate::Payment {
                    circuit_id: circuit_id2,
                    payments: payments2,
                    next_state: next_state2,
                    proof: proof2,
                },
            ) => *circuit_id == *circuit_id2 && same_payments(payments, payments2)
                && next_state.same(next_state2) && same_bytes(&proof.0, &proof2.0),
            (
                ContractUpdate::FunctionCall { function_id, next_state, proof, fee },
                ContractUpdate::FunctionCall {
                    function_id: function_id2,
                    next_state: next_state2,
                    proof: proof2,
                    fee: fee2,
                },
            ) => *function_id == *function_id2 && next_state.same(next_state2) && same_bytes(
                &proof.0,
                &proof2.0,
            ) && *fee == *fee2,
            _ => false,
        }
    }
}

fn same_updates(a: &Vec<ContractUpdate>, b: &Vec<ContractUpdate>) -> (r: bool)
    ensures
        r == (a.deep_view() == b.deep_view()),
{
    if a.len() != b.len() {
        assert(a.deep_view().len() != b.deep_view().len());
        return false;
    }
    let mut i: usize = 0;
    while i < a.len()
        invariant
            i <= a.len(),
            a.len() == b.len(),
            forall|j: int| 0 <= j < i ==> a@[j].deep_view() == b@[j].deep_view(),
        decreases a.len() - i,
    {
        if !a[i].same(&b[i]) {
            assert(a.deep_view()[i as int] != b.deep_view()[i as int]);
            return false;
        }
        i += 1;
    }
    assert(a.deep_view() =~= b.deep_view());
    true
}

impl TransactionData {
    /// Whether two transactions do the same.
    pub fn same(&self, other: &TransactionData) -> (r: bool)
        ensures
            r == (self.deep_view() == other.deep_view()),
    {
        match (self, other) {
            (
                TransactionData::RegularSend { dst, amount },
                TransactionData::RegularSend { dst: dst2, amount: amount2 },
            ) => dst.same(dst2) && *amount == *amount2,
            (
                TransactionData::CreateContract { contract },
                TransactionData::CreateContract { contract: contract2 },
            ) => contract.same(contract2),
            (
                TransactionData::UpdateContract { contract_id, updates },
                TransactionData::UpdateContract { contract_id: contract_id2, updates: updates2 },
            ) => contract_id.same(contract_id2) && same_updates(updates, updates2),
            _ => false,
        }
    }
}

impl Transaction {
    /// Whether two transactions are the same.
    pub fn same(&self, other: &Transaction) -> (r: bool)
        ensures
            r == (self.deep_view() == other.deep_view()),
    {
        self.src.same(&other.src) && self.nonce == other.nonce && self.data.same(&other.data)
            && self.fee == other.fee && self.sig.same(&other.sig)
    }
}

impl Block {
    /// Whether two blocks are the same.
    pub fn same(&self, other: &Block) -> (r: bool)
        ensures
            r == (self.deep_view() == other.deep_view()),
    {
        if !self.header.same(&other.header) || self.body.len() != other.body.len() {
            assert(self.header != other.header || self.deep_view().body.len()
                != other.deep_view().body.len());
            return false;
        }
        let mut i: usize = 0;
        while i < self.body.len()
            invariant
                i <= self.body.len(),
                self.body.len() == other.body.len(),
                self.header == other.header,
                forall|j: int|
                    0 <= j < i ==> self.body@[j].deep_view() == other.body@[j].deep_view(),
            decreases self.body.len() - i,
        {
            if !self.body[i].same(&other.body[i]) {
                assert(self.deep_view().body[i as int] != other.deep_view().body[i as int]);
                return false;
            }
            i += 1;
        }
        assert(self.deep_view().body =~= other.deep_view().body);
        true
    }
}

} // verus!
