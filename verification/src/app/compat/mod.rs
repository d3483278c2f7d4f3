//! Serving OneBot 12 applications from a OneBot 11 implementation: which
//! actions, segments and responses are converted how, and the checks of the
//! OneBot 11 HTTP and WebSocket connections.
use vstd::prelude::*;

pub mod data;
pub mod http;
pub mod ws;

verus! {

/// Compares two strings character by character.
pub fn text_eq(a: &str, b: &str) -> (r: bool)
    ensures
        r == (a@ == b@),
{
    let x = String::from_str(a);
    let y = String::from_str(b);
    x == y
}

} // verus!
