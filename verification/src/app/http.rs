//! OneBot 12 over HTTP, application side: polling settings, the buffer of
//! polled events, and how HTTP answers are read.
use vstd::prelude::*;

use std::collections::VecDeque;

use crate::interface::Error;
use crate::model::{spec_from_code, RespError, RetCode};

verus! {

/// How events are polled with `get_latest_events`.
#[derive(Debug, Clone, Copy, PartialEq, Eq, Structural)]
pub struct PollSettings {
    pub timeout: i64,
    pub limit: i64,
    pub interval_ms: u64,
}

impl PollSettings {
    /// The default polling: no timeout, no limit, a pause of 500 ms after an
    /// empty or failed poll.
    pub fn new() -> (s: PollSettings)
        ensures
            s == (PollSettings { timeout: 0, limit: 0, interval_ms: 500 }),
    {
        PollSettings { timeout: 0, limit: 0, interval_ms: 500 }
    }

    /// Polling with the given settings.
    pub fn with_setting(timeout: i64, limit: i64, interval_ms: u64) -> (s: PollSettings)
        ensures
            s == (PollSettings { timeout, limit, interval_ms }),
    {
        PollSettings { timeout, limit, interval_ms }
    }
}

/// Events that one poll returned beyond the first, handed out one at a time.
pub struct EventBuffer<T> {
    events: VecDeque<T>,
}

impl<T> EventBuffer<T> {
    /// The events waiting, oldest first.
    pub closed spec fn pending(&self) -> Seq<T> {
        self.events@
    }

    /// An empty buffer.
    pub fn new() -> (b: EventBuffer<T>)
        ensures
            b.pending() == Seq::<T>::empty(),
    {
        EventBuffer { events: VecDeque::new() }
    }

    /// The oldest waiting event, if any.
    pub fn pop_buffered(&mut self) -> (r: Option<T>)
        ensures
            old(self).pending().len() == 0 ==> r is None && final(self).pending() == old(self).pending(),
            old(self).pending().len() > 0 ==> r == Some(old(self).pending()[0]) && final(self).pending() == old(self).pending().drop_first(),
            (r, final(self).pending()) == poll_step(old(self).pending(), None),
    {
        self.events.pop_front()
    }

    /// Takes the events of one poll: the first is handed out now, the rest
    /// wait behind those already waiting. An empty poll hands out nothing.
    pub fn accept_batch(&mut self, batch: Vec<T>) -> (r: Option<T>)
        ensures
            batch@.len() == 0 ==> r is None && final(self).pending() == old(self).pending(),
            batch@.len() > 0 ==> r == Some(batch@[0]) && final(self).pending() == old(self).pending() + batch@.drop_first(),
            (r, final(self).pending()) == poll_step(old(self).pending(), Some(batch@)),
    {
        let mut batch = batch;
        if batch.len() == 0 {
            return None;
        }
        let ghost all = batch@;
        let first = batch.remove(0);
        let ghost start = self.events@;
        let mut rest = VecDeque::new();
        let ghost b = batch@;
        let mut j: usize = batch.len();
        while j > 0
            invariant
                j <= b.len(),
                batch@ == b.subrange(0, j as int),
                rest@ == b.subrange(j as int, b.len() as int),
            decreases j,
        {
            let item = batch.pop().unwrap();
            rest.push_front(item);
            j = j - 1;
            assert(rest@ =~= b.subrange(j as int, b.len() as int));
        }
        self.events.append(&mut rest);
        assert(self.events@ =~= start + all.drop_first());
        Some(first)
    }
}

/// One step of handing out polled events, as `pop_buffered` (`None`) and
/// `accept_batch` (`Some(batch)`) take it: from the waiting events to what is
/// handed out and what then waits.
pub open spec fn poll_step<T>(pending: Seq<T>, step: Option<Seq<T>>) -> (Option<T>, Seq<T>) {
    match step {
        None => if pending.len() > 0 {
            (Some(pending[0]), pending.drop_first())
        } else {
            (None, pending)
        },
        Some(batch) => if batch.len() > 0 {
            (Some(batch[0]), pending + batch.drop_first())
        } else {
            (None, pending)
        },
    }
}

/// A run of steps from an empty buffer: the events handed out, in order, and
/// those still waiting.
pub open spec fn poll_run<T>(steps: Seq<Option<Seq<T>>>) -> (Seq<T>, Seq<T>)
    decreases steps.len(),
{
    if steps.len() == 0 {
        (Seq::empty(), Seq::empty())
    } else {
        let (out, pending) = poll_run(steps.drop_last());
        let (r, next) = poll_step(pending, steps.last());
        (
            match r {
                Some(e) => out.push(e),
                None => out,
            },
            next,
        )
    }
}

/// The batches a run took, in order.
pub open spec fn polled_batches<T>(steps: Seq<Option<Seq<T>>>) -> Seq<Seq<T>>
    decreases steps.len(),
{
    if steps.len() == 0 {
        Seq::empty()
    } else {
        match steps.last() {
            Some(b) => polled_batches(steps.drop_last()).push(b),
            None => polled_batches(steps.drop_last()),
        }
    }
}

/// A run that polls, as the polling source does, only once nothing waits.
pub open spec fn polls_when_empty<T>(steps: Seq<Option<Seq<T>>>) -> bool {
    forall|i: int| 0 <= i < steps.len() && (#[trigger] steps[i]) is Some ==> poll_run(steps.take(i)).1.len() == 0
}

/// The events of successive batches, one batch after another.
pub open spec fn flatten_batches<T>(batches: Seq<Seq<T>>) -> Seq<T>
    decreases batches.len(),
{
    if batches.len() == 0 {
        Seq::empty()
    } else {
        flatten_batches(batches.drop_last()) + batches.last()
    }
}

/// Polling hands out the polled events in order, each once: if the events
/// handed out so far followed by those waiting are the polled batches one
/// after another, then handing out the oldest waiting event
/// (`pop_buffered`) keeps it so.
pub proof fn lemma_pop_keeps_poll_order<T>(
    before: EventBuffer<T>,
    after: EventBuffer<T>,
    out: Seq<T>,
    batches: Seq<Seq<T>>,
)
    requires
        out + before.pending() == flatten_batches(batches),
        before.pending().len() > 0,
        after.pending() == before.pending().drop_first(),
    ensures
        out.push(before.pending()[0]) + after.pending() == flatten_batches(batches),
{
    assert(out.push(before.pending()[0]) + after.pending() =~= out + before.pending());
}

/// Taking a new batch while nothing waits (`accept_batch`, as polling does
/// once the buffer is empty) keeps the events handed out followed by those
/// waiting equal to the polled batches one after another; an empty batch
/// hands out nothing and changes nothing.
pub proof fn lemma_accept_keeps_poll_order<T>(
    before: EventBuffer<T>,
    after: EventBuffer<T>,
    out: Seq<T>,
    batches: Seq<Seq<T>>,
    batch: Seq<T>,
)
    requires
        out + before.pending() == flatten_batches(batches),
        before.pending().len() == 0,
        batch.len() == 0 ==> after.pending() == before.pending(),
        batch.len() > 0 ==> after.pending() == before.pending() + batch.drop_first(),
    ensures
        batch.len() == 0 ==> out + after.pending() == flatten_batches(batches.push(batch)),
        batch.len() > 0 ==> out.push(batch[0]) + after.pending() == flatten_batches(batches.push(batch)),
{
    assert(batches.push(batch).drop_last() =~= batches);
    assert(out + before.pending() =~= out);
    if batch.len() > 0 {
        assert(out.push(batch[0]) + after.pending() =~= out + batch);
    } else {
        assert(out + after.pending() =~= out + batch);
    }
}

/// Over a whole run that polls only once nothing waits, the events handed
/// out followed by those still waiting are the polled batches one after
/// another: every polled event is handed out once, in order, and events are
/// handed out only from polled batches.
pub proof fn lemma_poll_run_order<T>(steps: Seq<Option<Seq<T>>>)
    requires
        polls_when_empty(steps),
    ensures
        poll_run(steps).0 + poll_run(steps).1 == flatten_batches(polled_batches(steps)),
    decreases steps.len(),
{
    if steps.len() > 0 {
        let prev = steps.drop_last();
        assert forall|i: int| 0 <= i < prev.len() && (#[trigger] prev[i]) is Some implies poll_run(prev.take(i)).1.len() == 0 by {
            assert(prev.take(i) =~= steps.take(i));
            assert(steps[i] == prev[i]);
        }
        lemma_poll_run_order(prev);
        let (out, pending) = poll_run(prev);
        match steps.last() {
            None => {
                if pending.len() > 0 {
                    assert(out.push(pending[0]) + pending.drop_first() =~= out + pending);
                }
            },
            Some(b) => {
                let n = steps.len() - 1;
                assert(steps.take(n) =~= prev);
                assert(steps[n] is Some);
                assert(pending.len() == 0);
                assert(polled_batches(steps) == polled_batches(prev).push(b));
                assert(polled_batches(prev).push(b).drop_last() =~= polled_batches(prev));
                assert(out + pending =~= out);
                if b.len() > 0 {
                    assert(out.push(b[0]) + (pending + b.drop_first()) =~= out + b);
                } else {
                    assert(out + pending =~= out + b);
                }
            },
        }
    }
}

/// The error for an HTTP answer whose status is not a success, if it is not.
pub fn http_status_error(status: u16) -> (r: Option<Error>)
    ensures
        200 <= status <= 299 ==> r is None,
        !(200 <= status <= 299) ==> (r matches Some(Error::Resp(e)) && e.retcode == spec_from_code(status as u32)
            && e.message@ == Seq::<char>::empty() && e.echo is None),
{
    if 200 <= status && status <= 299 {
        None
    } else {
        Some(Error::Resp(RespError { retcode: RetCode::from_http_status(status), message: String::new(), echo: None }))
    }
}

} // verus!
