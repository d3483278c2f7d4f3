//! OneBot Connect: connections between OneBot applications and
//! implementations, and a bridge between an application connection and
//! implementation connections. This crate holds the verified decisions and
//! bookkeeping of those connections.
pub mod app;
pub mod common;
pub mod imp;
pub mod interface;
pub mod model;
pub mod outside;
pub mod wrap;
pub mod recv;
