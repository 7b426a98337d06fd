//! The bounded ring buffer of the `ringbuffer` crate, seen through the
//! sequence of readings it holds and the capacity it was made with.

use ringbuffer::AllocRingBuffer;
use ringbuffer::RingBuffer;
use vstd::prelude::*;
use crate::reading::{window, AccelReading};

verus! {

#[verifier::external_type_specification]
#[verifier::external_body]
#[verifier::reject_recursive_types(T)]
pub struct ExAllocRingBuffer<T>(AllocRingBuffer<T>);

/// The largest capacity a ring is made with here; the allocation of a larger
/// one could exceed what the allocator accepts.
pub const MAX_RING_CAPACITY: usize = 1048576;

/// The readings a ring holds, oldest first.
pub uninterp spec fn ring_items(b: AllocRingBuffer<AccelReading>) -> Seq<AccelReading>;

/// The capacity a ring was made with.
pub uninterp spec fn ring_capacity(b: AllocRingBuffer<AccelReading>) -> nat;

/// Relies on `AllocRingBuffer::new`: an empty ring of the given capacity
/// (it panics on zero).
#[verifier::external_body]
pub(crate) fn ring_new(capacity: usize) -> (r: AllocRingBuffer<AccelReading>)
    requires
        0 < capacity <= MAX_RING_CAPACITY,
    ensures
        ring_items(r) == Seq::<AccelReading>::empty(),
        ring_capacity(r) == capacity as nat,
{
    AllocRingBuffer::new(capacity)
}

/// Relies on `RingBuffer::push` of `AllocRingBuffer`: the value goes in last,
/// and when the ring is full its oldest value is dropped first.
#[verifier::external_body]
pub(crate) fn ring_push(b: &mut AllocRingBuffer<AccelReading>, v: AccelReading)
    ensures
        ring_items(*final(b)) == window(ring_items(*old(b)).push(v), ring_capacity(*old(b))),
        ring_capacity(*final(b)) == ring_capacity(*old(b)),
{
    b.push(v)
}

/// Relies on `RingBuffer::to_vec`: the values held, oldest first.
#[verifier::external_body]
pub(crate) fn ring_to_vec(b: &AllocRingBuffer<AccelReading>) -> (r: Vec<AccelReading>)
    ensures
        r@ == ring_items(*b),
{
    b.to_vec()
}

/// Relies on `RingBuffer::back`: the most recently pushed value, if any.
#[verifier::external_body]
pub(crate) fn ring_back(b: &AllocRingBuffer<AccelReading>) -> (r: Option<AccelReading>)
    ensures
        r == (if ring_items(*b).len() == 0 {
            None
        } else {
            Some(ring_items(*b).last())
        }),
{
    b.back().copied()
}

/// Relies on `RingBuffer::front`: the oldest value held, if any.
#[verifier::external_body]
pub(crate) fn ring_front(b: &AllocRingBuffer<AccelReading>) -> (r: Option<AccelReading>)
    ensures
        r == (if ring_items(*b).len() == 0 {
            None
        } else {
            Some(ring_items(*b)[0])
        }),
{
    b.front().copied()
}

} // verus!
