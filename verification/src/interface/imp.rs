//! Implementation-side actions and their echoes.
use vstd::prelude::*;

use crate::model::{ActionDetail, BotSelf};

verus! {

/// The echo an implementation answers an action with: one it made up itself,
/// or the one the application sent.
#[derive(Debug, Clone, PartialEq, Eq, Hash)]
pub enum ActionEcho {
    Inner(u64),
    Outer(String),
}

/// The echo a response carries for an action's echo.
pub open spec fn echo_sent_back(e: ActionEcho) -> Option<String> {
    match e {
        ActionEcho::Inner(_) => None,
        ActionEcho::Outer(s) => Some(s),
    }
}

/// An application's own echo comes back unchanged in the response; an echo
/// the implementation made up is never sent.
pub proof fn lemma_echo_round_trip(s: String, n: u64)
    ensures
        echo_sent_back(ActionEcho::Outer(s)) == Some(s),
        echo_sent_back(ActionEcho::Inner(n)) is None,
{
}

impl ActionEcho {
    /// The echo to put in a response: only an application's own echo is sent
    /// back.
    pub fn outer(self) -> (r: Option<String>)
        ensures
            r == echo_sent_back(self),
    {
        match self {
            ActionEcho::Inner(_) => None,
            ActionEcho::Outer(s) => Some(s),
        }
    }
}

/// An action received by an implementation.
#[derive(Debug, Clone)]
pub struct Action {
    pub detail: ActionDetail,
    pub echo: ActionEcho,
    pub self_: Option<BotSelf>,
}

} // verus!
