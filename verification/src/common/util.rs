//! The state of a lossy channel: a bounded buffer that drops its oldest item
//! when a new one arrives while it is full.
use vstd::prelude::*;

use std::collections::VecDeque;

verus! {

/// The queue after a send into a buffer holding `q` with capacity `cap`:
/// when the buffer is full, its oldest item gives way to the new one.
pub open spec fn sent_queue<T>(q: Seq<T>, cap: nat, item: T) -> Seq<T> {
    if q.len() == cap && q.len() > 0 {
        q.drop_first().push(item)
    } else {
        q.push(item)
    }
}

/// What polling the receiving end gives.
pub enum LossyPoll<T> {
    /// `Some(item)` for the oldest buffered item, `None` once every sender is
    /// gone.
    Ready(Option<T>),
    /// Nothing buffered yet: wait for a send.
    Pending,
}

/// State shared by the senders and the receiver of a lossy channel.
pub struct LossyState<T> {
    buf: VecDeque<T>,
    buf_size: usize,
    tx_count: usize,
    rx_closed: bool,
}

impl<T> LossyState<T> {
    /// The buffered items, oldest first.
    pub closed spec fn queue(&self) -> Seq<T> {
        self.buf@
    }

    /// The number of items the buffer keeps.
    pub closed spec fn capacity(&self) -> nat {
        self.buf_size as nat
    }

    /// The number of live senders.
    pub closed spec fn senders(&self) -> usize {
        self.tx_count
    }

    /// Whether the receiver has been dropped.
    pub closed spec fn receiver_closed(&self) -> bool {
        self.rx_closed
    }

    /// The buffer holds no more than its capacity (a capacity of 0 keeps no
    /// bound).
    pub open spec fn bounded(&self) -> bool {
        self.capacity() == 0 || self.queue().len() <= self.capacity()
    }

    /// A fresh channel with one sender, an open receiver and an empty buffer.
    pub fn new(buf_size: usize) -> (s: Self)
        ensures
            s.queue() == Seq::<T>::empty(),
            s.capacity() == buf_size,
            s.senders() == 1,
            !s.receiver_closed(),
            s.bounded(),
    {
        LossyState { buf: VecDeque::new(), buf_size, tx_count: 1, rx_closed: false }
    }

    /// Sends an item: refused, and handed back, once the receiver is gone;
    /// otherwise buffered, dropping the oldest item when the buffer is full.
    pub fn send(&mut self, item: T) -> (r: Result<(), T>)
        ensures
            final(self).capacity() == old(self).capacity(),
            final(self).senders() == old(self).senders(),
            final(self).receiver_closed() == old(self).receiver_closed(),
            old(self).receiver_closed() ==> r == Err::<(), T>(item) && final(self).queue() == old(self).queue(),
            !old(self).receiver_closed() ==> r is Ok && final(self).queue() == sent_queue(old(self).queue(), old(self).capacity(), item),
            old(self).bounded() ==> final(self).bounded(),
    {
        if self.rx_closed {
            return Err(item);
        }
        if self.buf.len() == self.buf_size {
            let _ = self.buf.pop_front();
        }
        self.buf.push_back(item);
        Ok(())
    }

    /// A sender was cloned (the count wraps like the atomic counter it models).
    pub fn add_sender(&mut self)
        ensures
            final(self).senders() == old(self).senders().wrapping_add(1),
            final(self).queue() == old(self).queue(),
            final(self).capacity() == old(self).capacity(),
            final(self).receiver_closed() == old(self).receiver_closed(),
    {
        self.tx_count = self.tx_count.wrapping_add(1);
    }

    /// A sender was dropped.
    pub fn remove_sender(&mut self)
        ensures
            final(self).senders() == old(self).senders().wrapping_sub(1),
            final(self).queue() == old(self).queue(),
            final(self).capacity() == old(self).capacity(),
            final(self).receiver_closed() == old(self).receiver_closed(),
    {
        self.tx_count = self.tx_count.wrapping_sub(1);
    }

    /// The receiver was dropped: later sends are refused.
    pub fn close_receiver(&mut self)
        ensures
            final(self).receiver_closed(),
            final(self).senders() == old(self).senders(),
            final(self).queue() == old(self).queue(),
            final(self).capacity() == old(self).capacity(),
    {
        self.rx_closed = true;
    }

    /// Polls the receiving end: `None` once no sender is left, else the
    /// oldest buffered item, else `Pending`.
    pub fn poll(&mut self) -> (r: LossyPoll<T>)
        ensures
            final(self).senders() == old(self).senders(),
            final(self).capacity() == old(self).capacity(),
            final(self).receiver_closed() == old(self).receiver_closed(),
            old(self).senders() == 0 ==> (r matches LossyPoll::Ready(None)) && final(self).queue() == old(self).queue(),
            old(self).senders() != 0 && old(self).queue().len() > 0 ==> r == LossyPoll::Ready(Some(old(self).queue()[0])) && final(self).queue() == old(self).queue().drop_first(),
            old(self).senders() != 0 && old(self).queue().len() == 0 ==> (r matches LossyPoll::Pending) && final(self).queue() == old(self).queue(),
            old(self).bounded() ==> final(self).bounded(),
    {
        if self.tx_count == 0 {
            LossyPoll::Ready(None)
        } else if self.buf.len() > 0 {
            LossyPoll::Ready(self.buf.pop_front())
        } else {
            LossyPoll::Pending
        }
    }
}

/// A send into a buffer within its capacity keeps it within its capacity.
pub proof fn lemma_send_stays_bounded<T>(q: Seq<T>, cap: nat, item: T)
    requires
        cap > 0,
        q.len() <= cap,
    ensures
        sent_queue(q, cap, item).len() <= cap,
{
}

/// A send always keeps the new item, as the newest one, and otherwise only
/// drops items from the old end: what remains is a suffix of the old queue
/// followed by the item.
pub proof fn lemma_send_keeps_newest<T>(q: Seq<T>, cap: nat, item: T)
    ensures
        sent_queue(q, cap, item).last() == item,
        exists|k: int| 0 <= k <= q.len() && sent_queue(q, cap, item) == q.subrange(k, q.len() as int).push(item),
{
    if q.len() == cap && q.len() > 0 {
        assert(q.drop_first() == q.subrange(1, q.len() as int));
    } else {
        assert(q == q.subrange(0, q.len() as int));
    }
}

/// A send into a buffer that is not full drops nothing.
pub proof fn lemma_send_below_capacity_drops_nothing<T>(q: Seq<T>, cap: nat, item: T)
    requires
        q.len() < cap,
    ensures
        sent_queue(q, cap, item) == q.push(item),
{
}

/// What a run of a lossy channel with capacity `cap` has done so far, with
/// the witnesses: `sent` are the items sent, in order, `delivered` those the
/// receiver got, in order, and `queue` what is buffered. The buffer holds the
/// items sent from index `k` on; `idx` gives, in increasing order, the index
/// of each delivered item among those sent before `k`; and an item before `k`
/// that was never delivered (it was dropped) has at least `cap` items sent
/// after it.
pub open spec fn lossy_witness<T>(
    cap: nat,
    sent: Seq<T>,
    delivered: Seq<T>,
    queue: Seq<T>,
    k: int,
    idx: Seq<int>,
) -> bool {
    &&& 0 <= k <= sent.len()
    &&& queue == sent.subrange(k, sent.len() as int)
    &&& idx.len() == delivered.len()
    &&& forall|j: int| 0 <= j < idx.len() ==> 0 <= #[trigger] idx[j] < k && delivered[j] == sent[idx[j]]
    &&& forall|a: int, b: int| 0 <= a < b < idx.len() ==> idx[a] < idx[b]
    &&& forall|i: int| 0 <= i < k && !(#[trigger] idx.contains(i)) ==> i + cap < sent.len()
}

/// A run of a lossy channel so far: the buffer holds the newest sent items;
/// what was delivered are older items, in their order of sending, each at
/// most once; and an item was dropped only once `cap` newer items had been
/// sent.
pub open spec fn lossy_run<T>(cap: nat, sent: Seq<T>, delivered: Seq<T>, queue: Seq<T>) -> bool {
    exists|k: int, idx: Seq<int>| #[trigger] lossy_witness(cap, sent, delivered, queue, k, idx)
}

/// A fresh channel starts a run with nothing sent or delivered.
pub proof fn lemma_lossy_run_start<T>(cap: nat)
    ensures
        lossy_run(cap, Seq::<T>::empty(), Seq::<T>::empty(), Seq::<T>::empty()),
{
    let s = Seq::<T>::empty();
    assert(s.subrange(0, 0) =~= s);
    assert(lossy_witness(cap, s, s, s, 0, Seq::<int>::empty()));
}

/// A send keeps the run: the item joins the newest buffered items, and at
/// most the oldest buffered one is dropped, only when the buffer was full.
pub proof fn lemma_lossy_run_send<T>(cap: nat, sent: Seq<T>, delivered: Seq<T>, queue: Seq<T>, item: T)
    requires
        lossy_run(cap, sent, delivered, queue),
    ensures
        lossy_run(cap, sent.push(item), delivered, sent_queue(queue, cap, item)),
{
    let (k, idx) = choose|k: int, idx: Seq<int>| #[trigger] lossy_witness(cap, sent, delivered, queue, k, idx);
    let s2 = sent.push(item);
    let full = queue.len() == cap && queue.len() > 0;
    let k2 = if full { k + 1 } else { k };
    assert(sent_queue(queue, cap, item) =~= s2.subrange(k2, s2.len() as int));
    assert forall|j: int| 0 <= j < idx.len() implies 0 <= #[trigger] idx[j] < k2 && delivered[j] == s2[idx[j]] by {
    }
    assert forall|i: int| 0 <= i < k2 && !(#[trigger] idx.contains(i)) implies i + cap < s2.len() by {
        if i == k {
            assert(full);
            assert(queue.len() == sent.len() - k);
        }
    }
    assert(lossy_witness(cap, s2, delivered, sent_queue(queue, cap, item), k2, idx));
}

/// A receive keeps the run: the oldest buffered item is delivered after all
/// those delivered before it.
pub proof fn lemma_lossy_run_poll<T>(cap: nat, sent: Seq<T>, delivered: Seq<T>, queue: Seq<T>)
    requires
        lossy_run(cap, sent, delivered, queue),
        queue.len() > 0,
    ensures
        lossy_run(cap, sent, delivered.push(queue[0]), queue.drop_first()),
{
    let (k, idx) = choose|k: int, idx: Seq<int>| #[trigger] lossy_witness(cap, sent, delivered, queue, k, idx);
    let d2 = delivered.push(queue[0]);
    let idx2 = idx.push(k);
    let k2 = k + 1;
    assert(queue.drop_first() =~= sent.subrange(k2, sent.len() as int));
    assert forall|j: int| 0 <= j < idx2.len() implies 0 <= #[trigger] idx2[j] < k2 && d2[j] == sent[idx2[j]] by {
        if j < idx.len() {
            assert(idx2[j] == idx[j]);
        } else {
            assert(idx2[j] == k);
            assert(queue[0] == sent[k]);
        }
    }
    assert forall|a: int, b: int| 0 <= a < b < idx2.len() implies idx2[a] < idx2[b] by {
        if b < idx.len() {
            assert(idx2[a] == idx[a] && idx2[b] == idx[b]);
        } else {
            assert(idx2[a] == idx[a]);
            assert(idx[a] < k);
        }
    }
    assert forall|i: int| 0 <= i < k2 && !(#[trigger] idx2.contains(i)) implies i + cap < sent.len() by {
        assert(idx2[idx.len() as int] == k);
        if idx.contains(i) {
            let j = choose|j: int| 0 <= j < idx.len() && idx[j] == i;
            assert(idx2[j] == i);
        }
    }
    assert(lossy_witness(cap, sent, d2, queue.drop_first(), k2, idx2));
}

/// A run of sends (`Some(item)`) and receives (`None`) on a fresh channel of
/// capacity `cap`: the items sent, those delivered, and what stays buffered.
/// A receive with nothing buffered delivers nothing.
pub open spec fn lossy_trace<T>(cap: nat, steps: Seq<Option<T>>) -> (Seq<T>, Seq<T>, Seq<T>)
    decreases steps.len(),
{
    if steps.len() == 0 {
        (Seq::empty(), Seq::empty(), Seq::empty())
    } else {
        let (sent, delivered, queue) = lossy_trace(cap, steps.drop_last());
        match steps.last() {
            Some(item) => (sent.push(item), delivered, sent_queue(queue, cap, item)),
            None => if queue.len() > 0 {
                (sent, delivered.push(queue[0]), queue.drop_first())
            } else {
                (sent, delivered, queue)
            },
        }
    }
}

/// Over a whole run of a lossy channel (what the bridge's event stream goes
/// through, step by step as `send` and `poll` take it): what the receiver
/// gets is a subsequence of what was sent, in the order of sending, with no
/// item twice, and an item is lost only once `cap` newer items were sent
/// while it waited.
pub proof fn lemma_lossy_trace<T>(cap: nat, steps: Seq<Option<T>>)
    ensures
        lossy_run(cap, lossy_trace(cap, steps).0, lossy_trace(cap, steps).1, lossy_trace(cap, steps).2),
    decreases steps.len(),
{
    if steps.len() == 0 {
        lemma_lossy_run_start::<T>(cap);
    } else {
        lemma_lossy_trace(cap, steps.drop_last());
        let (sent, delivered, queue) = lossy_trace(cap, steps.drop_last());
        match steps.last() {
            Some(item) => lemma_lossy_run_send(cap, sent, delivered, queue, item),
            None => if queue.len() > 0 {
                lemma_lossy_run_poll(cap, sent, delivered, queue);
            },
        }
    }
}

} // verus!
