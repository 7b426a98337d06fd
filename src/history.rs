//! The history buffer: a fixed-capacity store of recent readings that drops
//! its oldest reading when a push would exceed the capacity.

use ringbuffer::AllocRingBuffer;
use vstd::prelude::*;
use crate::reading::{lemma_window_len, lemma_window_push, window, AccelReading};
use crate::ring::{
    ring_back, ring_capacity, ring_front, ring_items, ring_new, ring_push, ring_to_vec,
    MAX_RING_CAPACITY,
};

verus! {

/// The number of readings the dashboard keeps.
pub const HISTORY_CAPACITY: usize = 100;

/// The reading `latest` reports for an empty history: all axes zero, stamped
/// with the time of the call.
pub open spec fn zero_reading(now: u64) -> AccelReading {
    AccelReading { x: 0, y: 0, z: 0, timestamp: now }
}

/// The most recent of `items`, or the zero reading at `now` when there is none.
pub open spec fn latest_of(items: Seq<AccelReading>, now: u64) -> AccelReading {
    if items.len() == 0 {
        zero_reading(now)
    } else {
        items.last()
    }
}

/// The time origin of the chart: the timestamp of the oldest reading held,
/// or `now` when there is none.
pub open spec fn origin_of(items: Seq<AccelReading>, now: u64) -> u64 {
    if items.len() == 0 {
        now
    } else {
        items[0].timestamp
    }
}

/// Pushing `xs` one by one, in order, onto a history holding `items`.
pub open spec fn push_each(items: Seq<AccelReading>, xs: Seq<AccelReading>, cap: nat) -> Seq<
    AccelReading,
>
    decreases xs.len(),
{
    if xs.len() == 0 {
        items
    } else {
        push_each(window(items.push(xs[0]), cap), xs.drop_first(), cap)
    }
}

/// Recent readings, oldest first, never more than the capacity it was made with.
pub struct History {
    ring: AllocRingBuffer<AccelReading>,
}

impl View for History {
    type V = Seq<AccelReading>;

    closed spec fn view(&self) -> Seq<AccelReading> {
        ring_items(self.ring)
    }
}

impl History {
    /// The most readings this history holds at once.
    pub closed spec fn capacity_spec(&self) -> nat {
        ring_capacity(self.ring)
    }

    /// The capacity is positive and fits the ring, and no more than that many
    /// readings are held.
    pub open spec fn wf(&self) -> bool {
        &&& 0 < self.capacity_spec() <= MAX_RING_CAPACITY
        &&& self@.len() <= self.capacity_spec()
    }

    /// An empty history that keeps at most `capacity` readings.
    pub fn new(capacity: usize) -> (h: History)
        requires
            0 < capacity <= MAX_RING_CAPACITY,
        ensures
            h.wf(),
            h@ == Seq::<AccelReading>::empty(),
            h.capacity_spec() == capacity,
    {
        History { ring: ring_new(capacity) }
    }

    /// Appends `r`, first dropping the oldest reading when the history is full.
    pub fn push(&mut self, r: AccelReading)
        requires
            old(self).wf(),
        ensures
            final(self).wf(),
            final(self).capacity_spec() == old(self).capacity_spec(),
            final(self)@ == window(old(self)@.push(r), old(self).capacity_spec()),
    {
        ring_push(&mut self.ring, r);
        proof {
            lemma_window_len(old(self)@.push(r), old(self).capacity_spec());
        }
    }

    /// Appends every reading of `batch`, in order.
    pub fn push_all(&mut self, batch: &Vec<AccelReading>)
        requires
            old(self).wf(),
        ensures
            final(self).wf(),
            final(self).capacity_spec() == old(self).capacity_spec(),
            final(self)@ == window(old(self)@ + batch@, old(self).capacity_spec()),
    {
        let ghost start = self@;
        let ghost cap = self.capacity_spec();
        proof {
            assert(start + batch@.take(0) =~= start);
        }
        let mut i: usize = 0;
        while i < batch.len()
            invariant
                0 <= i <= batch.len(),
                self.wf(),
                self.capacity_spec() == cap,
                self@ == window(start + batch@.take(i as int), cap),
            decreases batch.len() - i,
        {
            let r = batch[i];
            self.push(r);
            proof {
                lemma_window_push(start + batch@.take(i as int), r, cap);
                assert((start + batch@.take(i as int)).push(r) =~= start + batch@.take(i + 1));
            }
            i = i + 1;
        }
        proof {
            assert(batch@.take(i as int) =~= batch@);
        }
    }

    /// The readings held, oldest first; reading does not change the history.
    pub fn to_vec(&self) -> (v: Vec<AccelReading>)
        ensures
            v@ == self@,
    {
        ring_to_vec(&self.ring)
    }

    /// The most recently pushed reading, or the zero reading stamped `now`
    /// when nothing was pushed.
    pub fn latest(&self, now: u64) -> (r: AccelReading)
        ensures
            r == latest_of(self@, now),
    {
        match ring_back(&self.ring) {
            Some(r) => r,
            None => AccelReading { x: 0, y: 0, z: 0, timestamp: now },
        }
    }

    /// The timestamp of the oldest reading held, or `now` when there is none.
    pub fn origin(&self, now: u64) -> (t: u64)
        ensures
            t == origin_of(self@, now),
    {
        match ring_front(&self.ring) {
            Some(r) => r.timestamp,
            None => now,
        }
    }
}

/// Pushing readings one at a time keeps exactly the last `cap` of everything
/// pushed, in push order.
pub proof fn lemma_push_each(items: Seq<AccelReading>, xs: Seq<AccelReading>, cap: nat)
    requires
        cap > 0,
        items.len() <= cap,
    ensures
        push_each(items, xs, cap) == window(items + xs, cap),
    decreases xs.len(),
{
    if xs.len() == 0 {
        assert(items + xs =~= items);
    } else {
        let next = window(items.push(xs[0]), cap);
        lemma_window_len(items.push(xs[0]), cap);
        lemma_push_each(next, xs.drop_first(), cap);
        lemma_window_push_all(items.push(xs[0]), xs.drop_first(), cap);
        assert(items.push(xs[0]) + xs.drop_first() =~= items + xs);
    }
}

/// Trimming before appending a sequence changes nothing.
pub proof fn lemma_window_push_all(s: Seq<AccelReading>, xs: Seq<AccelReading>, cap: nat)
    requires
        cap > 0,
    ensures
        window(window(s, cap) + xs, cap) == window(s + xs, cap),
    decreases xs.len(),
{
    if xs.len() == 0 {
        assert(window(s, cap) + xs =~= window(s, cap));
        assert(s + xs =~= s);
    } else {
        let init = xs.drop_last();
        let v = xs.last();
        lemma_window_push_all(s, init, cap);
        lemma_window_push(window(s, cap) + init, v, cap);
        lemma_window_push(s + init, v, cap);
        assert((window(s, cap) + init).push(v) =~= window(s, cap) + xs);
        assert((s + init).push(v) =~= s + xs);
    }
}

/// After more pushes than the capacity into an empty history, it holds
/// exactly the last `cap` readings pushed, in push order.
pub proof fn lemma_history_keeps_last(xs: Seq<AccelReading>, cap: nat)
    requires
        cap > 0,
        xs.len() > cap,
    ensures
        push_each(Seq::empty(), xs, cap) == xs.subrange(xs.len() - cap, xs.len() as int),
{
    lemma_push_each(Seq::empty(), xs, cap);
    assert(Seq::<AccelReading>::empty() + xs =~= xs);
}

/// A push into an empty history, then `latest`, gives back the reading
/// pushed; an empty history gives the zero reading.
pub proof fn lemma_latest_after_push(r: AccelReading, cap: nat, now: u64)
    requires
        cap > 0,
    ensures
        latest_of(window(Seq::empty().push(r), cap), now) == r,
        latest_of(Seq::empty(), now) == zero_reading(now),
{
}

/// Draining batches one after another, each appended and trimmed to `cap`.
pub open spec fn drain_each(items: Seq<AccelReading>, batches: Seq<Seq<AccelReading>>, cap: nat) -> Seq<
    AccelReading,
>
    decreases batches.len(),
{
    if batches.len() == 0 {
        items
    } else {
        drain_each(window(items + batches[0], cap), batches.drop_first(), cap)
    }
}

/// However the readings are split into drains, the history ends up holding
/// the last `cap` of all of them, in order: the same as one drain of the
/// whole sequence.
pub proof fn lemma_drain_each(items: Seq<AccelReading>, batches: Seq<Seq<AccelReading>>, cap: nat)
    requires
        cap > 0,
        items.len() <= cap,
    ensures
        drain_each(items, batches, cap) == window(items + batches.flatten(), cap),
    decreases batches.len(),
{
    if batches.len() == 0 {
        assert(items + batches.flatten() =~= items);
    } else {
        let next = window(items + batches[0], cap);
        lemma_window_len(items + batches[0], cap);
        lemma_drain_each(next, batches.drop_first(), cap);
        lemma_window_push_all(items + batches[0], batches.drop_first().flatten(), cap);
        assert(items + batches[0] + batches.drop_first().flatten() =~= items
            + batches.flatten());
    }
}

/// After drains of readings totalling more than the capacity into an empty
/// history, it holds exactly the last `cap` readings sent, in send order,
/// whatever the split into drains.
pub proof fn lemma_drains_keep_last(batches: Seq<Seq<AccelReading>>, cap: nat)
    requires
        cap > 0,
        batches.flatten().len() > cap,
    ensures
        drain_each(Seq::empty(), batches, cap) == batches.flatten().subrange(
            batches.flatten().len() - cap,
            batches.flatten().len() as int,
        ),
{
    lemma_drain_each(Seq::empty(), batches, cap);
    assert(Seq::<AccelReading>::empty() + batches.flatten() =~= batches.flatten());
}

/// A drain that fits appends its readings in order and drops nothing; in
/// particular an empty drain leaves the history as it was.
pub proof fn lemma_drain_fits(items: Seq<AccelReading>, batch: Seq<AccelReading>, cap: nat)
    requires
        items.len() + batch.len() <= cap,
    ensures
        window(items + batch, cap) == items + batch,
        batch.len() == 0 ==> window(items + batch, cap) == items,
{
    if batch.len() == 0 {
        assert(items + batch =~= items);
    }
}

} // verus!
