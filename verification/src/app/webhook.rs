//! OneBot 12 webhook, application side: an application is bound to the
//! event it answers, collects its actions and hands them back as the answer.
use vstd::prelude::*;

use crate::interface::Error;
use crate::model::{Action, ActionDetail, BotSelf};

verus! {

/// An action an application asks a connection to send.
#[derive(Debug, Clone)]
pub struct ActionArgs {
    pub action: ActionDetail,
    pub self_: Option<BotSelf>,
}

/// The actions that answer an event, in the order they were asked for, each
/// without an echo.
pub open spec fn answer_actions(args: Seq<ActionArgs>) -> Seq<Action> {
    args.map_values(|a: ActionArgs| Action { action: a.action, echo: None, self_: a.self_ })
}

/// Turns the actions an application collected into the webhook's answer.
pub fn to_webhook_actions(args: Vec<ActionArgs>) -> (r: Vec<Action>)
    ensures
        r@ == answer_actions(args@),
{
    let ghost all = args@;
    let mut args = args;
    let mut rev: Vec<Action> = Vec::new();
    while args.len() > 0
        invariant
            all.len() >= args@.len(),
            args@ == all.subrange(0, args@.len() as int),
            rev@.len() == all.len() - args@.len(),
            forall|i: int| 0 <= i < rev@.len() ==> #[trigger] rev@[i] == (Action {
                action: all[all.len() - 1 - i].action,
                echo: None,
                self_: all[all.len() - 1 - i].self_,
            }),
        decreases args@.len(),
    {
        let a = args.pop().unwrap();
        rev.push(Action { action: a.action, echo: None, self_: a.self_ });
    }
    let mut out: Vec<Action> = Vec::new();
    while rev.len() > 0
        invariant
            rev@.len() + out@.len() == all.len(),
            forall|i: int| 0 <= i < rev@.len() ==> #[trigger] rev@[i] == (Action {
                action: all[all.len() - 1 - i].action,
                echo: None,
                self_: all[all.len() - 1 - i].self_,
            }),
            forall|i: int| 0 <= i < out@.len() ==> #[trigger] out@[i] == (Action {
                action: all[i].action,
                echo: None,
                self_: all[i].self_,
            }),
        decreases rev@.len(),
    {
        let a = rev.pop().unwrap();
        out.push(a);
    }
    assert(out@ =~= answer_actions(all));
    out
}

/// The event an application provider binds its next application to.
#[derive(Debug, Clone)]
pub struct EventContext {
    event_id: Option<String>,
}

impl EventContext {
    /// The event waiting for an application, if any.
    pub closed spec fn event(&self) -> Option<String> {
        self.event_id
    }

    /// No event yet.
    pub fn new() -> (c: EventContext)
        ensures
            c.event() is None,
    {
        EventContext { event_id: None }
    }

    /// Binds the next application to the event with the given id.
    pub fn set_event(&mut self, id: String)
        ensures
            final(self).event() == Some(id),
    {
        self.event_id = Some(id);
    }

    /// Takes the event for a new application; without one, an application
    /// cannot be provided, as webhook applications only answer events.
    pub fn take_event(&mut self) -> (r: Result<String, Error>)
        ensures
            final(self).event() is None,
            match old(self).event() {
                Some(id) => r == Ok::<String, Error>(id),
                None => r matches Err(Error::NotSupported(m)) && m@ == "send action actively not supported"@,
            },
    {
        match self.event_id.take() {
            Some(id) => Ok(id),
            None => Err(Error::NotSupported(String::from_str("send action actively not supported"))),
        }
    }
}

/// Whether an application may release its collected actions: only the one
/// the provider made, not its clones.
pub fn release_permission(is_owner: bool) -> (r: Result<(), Error>)
    ensures
        is_owner ==> r is Ok,
        !is_owner ==> (r matches Err(Error::NotSupported(m)) && m@ == "`release` not supported for non-owner"@),
{
    if is_owner {
        Ok(())
    } else {
        Err(Error::NotSupported(String::from_str("`release` not supported for non-owner")))
    }
}

/// The refusal of a webhook connection to send an action on its own.
pub fn active_action_refused() -> (e: Error)
    ensures
        e matches Error::NotSupported(m) && m@ == "send action actively"@,
{
    Error::NotSupported(String::from_str("send action actively"))
}

} // verus!
