//! Consensus rules.
pub mod pow;
