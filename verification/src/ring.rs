//! Trusted interface to the ring buffer that backs the retry queue.
//!
//! The retry queue keeps its batches in `ringbuffer::AllocRingBuffer`, the
//! same bounded ring the delivery loop has always used. The type is opaque
//! to the verifier, so this module gives its contents and its bound a name
//! and states, over those names, what the crate's operations do: `enqueue`
//! appends at the back and drops the oldest entry once the bound is
//! reached, `dequeue` removes the oldest, `len` counts what is held.

use vstd::prelude::*;

use crate::telemetry::{BatchModel, TelemetryBatch};
use ringbuffer::RingBuffer;

verus! {

#[verifier::external_type_specification]
#[verifier::external_body]
#[verifier::reject_recursive_types(T)]
pub struct ExAllocRingBuffer<T>(ringbuffer::AllocRingBuffer<T>);

/// The batches the ring holds, oldest first.
pub uninterp spec fn ring_entries(ring: ringbuffer::AllocRingBuffer<TelemetryBatch>) -> Seq<
    BatchModel,
>;

/// The bound the ring was created with.
pub uninterp spec fn ring_capacity(ring: ringbuffer::AllocRingBuffer<TelemetryBatch>) -> nat;

/// Relies on `AllocRingBuffer::new`: an empty ring that holds at most
/// `capacity` entries. The call panics on a zero capacity, so that input is
/// kept out.
#[verifier::external_body]
pub(crate) fn ring_new(capacity: usize) -> (ring: ringbuffer::AllocRingBuffer<TelemetryBatch>)
    requires
        1 <= capacity,
    ensures
        ring_entries(ring) == Seq::<BatchModel>::empty(),
        ring_capacity(ring) == capacity,
{
    ringbuffer::AllocRingBuffer::new(capacity)
}

/// Relies on `RingBuffer::enqueue` on an `AllocRingBuffer`: appends the
/// batch at the back; when the ring is full it first removes the oldest
/// entry, which is discarded here.
#[verifier::external_body]
pub(crate) fn ring_enqueue(
    ring: &mut ringbuffer::AllocRingBuffer<TelemetryBatch>,
    batch: TelemetryBatch,
)
    ensures
        ring_capacity(*final(ring)) == ring_capacity(*old(ring)),
        ring_entries(*old(ring)).len() < ring_capacity(*old(ring)) ==> ring_entries(*final(ring))
            == ring_entries(*old(ring)).push(batch@),
        ring_entries(*old(ring)).len() >= ring_capacity(*old(ring)) ==> ring_entries(*final(ring))
            == ring_entries(*old(ring)).drop_first().push(batch@),
{
    let _ = ring.enqueue(batch);
}

/// Relies on `RingBuffer::dequeue` on an `AllocRingBuffer`: removes and
/// returns the oldest entry, or returns nothing from an empty ring.
#[verifier::external_body]
pub(crate) fn ring_dequeue(ring: &mut ringbuffer::AllocRingBuffer<TelemetryBatch>) -> (r: Option<
    TelemetryBatch,
>)
    ensures
        ring_capacity(*final(ring)) == ring_capacity(*old(ring)),
        ring_entries(*old(ring)).len() == 0 ==> r is None && ring_entries(*final(ring))
            == ring_entries(*old(ring)),
        ring_entries(*old(ring)).len() > 0 ==> (r matches Some(batch) && batch@ == ring_entries(
            *old(ring),
        )[0] && ring_entries(*final(ring)) == ring_entries(*old(ring)).drop_first()),
{
    ring.dequeue()
}

/// Relies on `RingBuffer::len` on an `AllocRingBuffer`: the number of
/// entries currently held.
#[verifier::external_body]
pub(crate) fn ring_len(ring: &ringbuffer::AllocRingBuffer<TelemetryBatch>) -> (n: usize)
    ensures
        n == ring_entries(*ring).len(),
{
    ring.len()
}

} // verus!
