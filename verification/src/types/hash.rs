//! The hash function interface.
use vstd::prelude::*;

verus! {

/// A hash function with a 32-byte digest.
///
/// An implementation is a pure function of the input bytes: `spec_hash` names
/// the digest, and `hash` computes it.
pub trait Hash {
    /// The digest of `data`.
    open spec fn spec_hash(data: Seq<u8>) -> [u8; 32] {
        arbitrary()
    }

    fn hash(data: &[u8]) -> (digest: [u8; 32])
        ensures
            digest == Self::spec_hash(data@),
    ;
}


/// Digests of the chain's records.
///
/// A digest is a function of the record's content alone, named by a
/// specification function of the trait.
pub trait Digests {
    /// The digest of a transaction, signature included.
    open spec fn spec_transaction_digest(tx: crate::types::TransactionView) -> [u8; 32] {
        arbitrary()
    }

    /// The digest of a header.
    open spec fn spec_header_digest(header: crate::types::Header) -> [u8; 32] {
        arbitrary()
    }

    /// The digest of a contract payment, signature included.
    open spec fn spec_payment_digest(payment: crate::types::ContractPayment) -> [u8; 32] {
        arbitrary()
    }

    fn transaction_digest(tx: &crate::types::Transaction) -> (digest: [u8; 32])
        ensures
            digest == Self::spec_transaction_digest(tx.deep_view()),
    ;

    fn header_digest(header: &crate::types::Header) -> (digest: [u8; 32])
        ensures
            digest == Self::spec_header_digest(*header),
    ;

    fn payment_digest(payment: &crate::types::ContractPayment) -> (digest: [u8; 32])
        ensures
            digest == Self::spec_payment_digest(*payment),
    ;
}

} // verus!
