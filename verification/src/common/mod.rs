//! Parts shared by all connections.
use vstd::prelude::*;

pub mod http_s;
pub mod storage;
pub mod util;
pub mod ws;

verus! {

/// Whether a connection is still active. A connection starts active; its
/// command handler marks it inactive to close it. The type has no copies or
/// clones: a connection's tasks all reach the one state through a shared
/// lock, so whatever one of them sets, the others read.
#[derive(Debug)]
pub struct ConnState {
    active: bool,
}

impl Default for ConnState {
    /// A new, active connection state.
    fn default() -> (s: ConnState)
        ensures
            s.spec_active(),
    {
        ConnState::new()
    }
}

impl ConnState {
    /// Whether the connection is active.
    pub closed spec fn spec_active(&self) -> bool {
        self.active
    }

    /// A new, active connection state.
    pub fn new() -> (s: ConnState)
        ensures
            s.spec_active(),
    {
        ConnState { active: true }
    }

    /// Whether the connection is active.
    pub fn is_active(&self) -> (r: bool)
        ensures
            r == self.spec_active(),
    {
        self.active
    }

    /// Marks the connection active or inactive.
    pub fn set_active(&mut self, active: bool)
        ensures
            final(self).spec_active() == active,
    {
        self.active = active;
    }
}

} // verus!
