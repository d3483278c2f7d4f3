//! Wrappers built on connections.
pub mod bridge;
