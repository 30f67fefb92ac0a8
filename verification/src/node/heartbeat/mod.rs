//! What a node does at every beat.
pub mod log_info;
