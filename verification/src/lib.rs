//! State-transition core of a proof-of-work chain with an integrated
//! zero-knowledge rollup.
//!
//! The chain state lives in a key-value store ([`db::KvStore`]). Every state
//! transition ([`blockchain::KvStoreChain`]) is specified by a function over
//! the mathematical view of that store, and the executable code is proved to
//! compute exactly that function.
pub mod blockchain;
pub mod client;
pub mod consensus;
pub mod crypto;
pub mod db;
pub mod node;
pub mod types;
pub mod utils;
pub mod wallet;
pub mod zk;
