//! OneBot 12 over HTTP, implementation side: events wait in a queue until an
//! application polls them with `get_latest_events`, and every action gets an
//! echo to route its response by.
use vstd::prelude::*;

use std::collections::VecDeque;

use crate::app::compat::text_eq;
use crate::interface::imp::ActionEcho;
use crate::outside::random_u64;

verus! {

/// Events waiting to be polled, oldest first.
pub struct EventQueue<T> {
    queue: VecDeque<T>,
}

/// Whether a poll with the given limit can be served from a queue of the
/// given length without running past its end (a limit of 0 takes all).
pub open spec fn poll_in_range(len: nat, limit: nat) -> bool {
    len == 0 || limit == 0 || limit <= len
}

impl<T> EventQueue<T> {
    /// The waiting events, oldest first.
    pub closed spec fn events(&self) -> Seq<T> {
        self.queue@
    }

    /// An empty queue.
    pub fn new() -> (q: EventQueue<T>)
        ensures
            q.events() == Seq::<T>::empty(),
    {
        EventQueue { queue: VecDeque::new() }
    }

    /// The number of waiting events.
    pub fn len(&self) -> (n: usize)
        ensures
            n == self.events().len(),
    {
        self.queue.len()
    }

    /// An event arrives.
    pub fn push(&mut self, event: T)
        ensures
            final(self).events() == old(self).events().push(event),
    {
        self.queue.push_back(event);
    }

    /// Serves a poll: `None` when nothing waits (the poller must wait for
    /// events); otherwise all waiting events for a limit of 0, else the oldest
    /// `limit` events. A limit beyond the queue's end would panic when
    /// draining, which `requires` leaves out.
    pub fn take(&mut self, limit: usize) -> (r: Option<VecDeque<T>>)
        requires
            poll_in_range(old(self).events().len(), limit as nat),
        ensures
            old(self).events().len() == 0 ==> r is None && final(self).events() == old(self).events(),
            old(self).events().len() > 0 && limit == 0 ==> (r matches Some(t) && t@ == old(self).events())
                && final(self).events() == Seq::<T>::empty(),
            old(self).events().len() > 0 && limit > 0 ==> (r matches Some(t) && t@ == old(self).events().subrange(0, limit as int))
                && final(self).events() == old(self).events().subrange(limit as int, old(self).events().len() as int),
            r matches Some(t) ==> t@ + final(self).events() == old(self).events(),
    {
        if self.queue.len() == 0 {
            return None;
        }
        if limit == 0 {
            let mut all = VecDeque::new();
            std::mem::swap(&mut all, &mut self.queue);
            assert(all@ + self.queue@ =~= all@);
            Some(all)
        } else {
            let mut taken = self.queue.split_off(limit);
            std::mem::swap(&mut taken, &mut self.queue);
            assert(taken@ + self.queue@ =~= old(self).events());
            Some(taken)
        }
    }
}

/// An inner echo with this number that `is_taken` reported taken.
pub open spec fn inner_taken<F: Fn(&ActionEcho) -> bool>(is_taken: &F, n: u64) -> bool {
    exists|e: &ActionEcho| *e == ActionEcho::Inner(n) && #[trigger] is_taken.ensures((e,), true)
}

/// The echo an action is answered by: the application's own, else the first
/// random inner echo that `is_taken` says is free. `None` comes only for an
/// action without an echo, after `ECHO_ATTEMPTS` draws that were all reported
/// taken.
pub fn assign_echo<F: Fn(&ActionEcho) -> bool>(echo: Option<String>, is_taken: &F) -> (r: Option<ActionEcho>)
    requires
        forall|e: &ActionEcho| #[trigger] is_taken.requires((e,)),
    ensures
        match echo {
            Some(s) => r == Some(ActionEcho::Outer(s)),
            None => {
                &&& r matches Some(e) ==> (e is Inner && is_taken.ensures((&e,), false))
                &&& r is None ==> exists|draws: Seq<u64>| draws.len() == crate::app::ECHO_ATTEMPTS
                    && forall|i: int| 0 <= i < draws.len() ==> inner_taken(is_taken, #[trigger] draws[i])
            },
        },
{
    match echo {
        Some(s) => Some(ActionEcho::Outer(s)),
        None => {
            let mut attempts: u64 = crate::app::ECHO_ATTEMPTS;
            let ghost mut draws: Seq<u64> = Seq::empty();
            while attempts > 0
                invariant
                    echo is None,
                    forall|e: &ActionEcho| #[trigger] is_taken.requires((e,)),
                    draws.len() == crate::app::ECHO_ATTEMPTS - attempts,
                    forall|i: int| 0 <= i < draws.len() ==> inner_taken(is_taken, #[trigger] draws[i]),
                decreases attempts,
            {
                let n = random_u64(());
                let candidate = ActionEcho::Inner(n);
                if !is_taken(&candidate) {
                    return Some(candidate);
                }
                assert(inner_taken(is_taken, n));
                proof {
                    draws = draws.push(n);
                }
                attempts = attempts - 1;
            }
            None
        },
    }
}

/// Whether an action is the poll for events, which the HTTP implementation
/// answers itself.
pub fn is_get_latest_events(action: &str) -> (r: bool)
    ensures
        r == (action@ == "get_latest_events"@),
{
    text_eq(action, "get_latest_events")
}

} // verus!
