//! The chain's records as an explorer shows them.
use crate::types::{Header, Money};
use vstd::prelude::*;

verus! {

/// An account of the payment network, for display.
#[derive(Debug, Clone, PartialEq, Eq)]
pub struct ExplorerMpnAccount {
    pub address: String,
    pub balance: Money,
    pub nonce: u64,
}

/// A block, for display.
#[derive(Debug, Clone, PartialEq, Eq)]
pub struct ExplorerBlock {
    pub header: Header,
    pub transactions: usize,
}

} // verus!
