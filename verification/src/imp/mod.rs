//! Implementation side of connections.
pub mod http;
pub mod webhook;
