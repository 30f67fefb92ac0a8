//! What a node does around its chain.
pub mod heartbeat;
