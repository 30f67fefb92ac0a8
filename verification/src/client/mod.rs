//! What a node and its clients say to each other.
pub mod explorer;
pub mod messages;

use vstd::prelude::*;

verus! {

/// Where a peer can be reached.
#[derive(Debug, Clone, PartialEq, Eq)]
pub struct PeerAddress(pub String);

/// What a node knows of a peer.
#[derive(Debug, Clone, PartialEq, Eq)]
pub struct Peer {
    pub address: PeerAddress,
    pub height: u64,
    pub power: u128,
    pub outdated_states: usize,
}

} // verus!
