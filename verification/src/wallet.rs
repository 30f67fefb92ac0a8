//! The wallet that a miner's rewards go to.
use crate::types::Address;
use vstd::prelude::*;

verus! {

/// A wallet, as far as the chain is concerned: an address.
#[derive(Clone, Copy, Debug, PartialEq, Eq)]
pub struct Wallet {
    pub address: Address,
}

impl Wallet {
    /// The wallet of an address.
    pub fn new(address: Address) -> (wallet: Wallet)
        ensures
            wallet.address == address,
    {
        Wallet { address }
    }

    /// The address of the wallet.
    pub fn get_address(&self) -> (address: Address)
        ensures
            address == self.address,
    {
        self.address
    }
}

} // verus!
