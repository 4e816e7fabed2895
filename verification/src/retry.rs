//! The bounded retry buffer of undelivered telemetry batches.
//!
//! Batches wait here, oldest first, until the link lets them through. The
//! buffer is bounded: a push at capacity evicts exactly the oldest entry,
//! so a long outage costs the oldest data, never memory. Delivery takes
//! batches strictly from the front; a batch whose delivery failed is
//! requeued at the front, so it is attempted again before anything newer.
//! Evictions are counted for operational visibility.

use vstd::prelude::*;

use crate::ring::{ring_capacity, ring_dequeue, ring_entries, ring_enqueue, ring_len, ring_new};
use crate::schedule::{capacity_for_period, spec_capacity_for_period};
use crate::telemetry::{BatchModel, TelemetryBatch};

verus! {

/// What one push leaves in a buffer of the given capacity: the batch goes
/// to the back, and at capacity the oldest entry is evicted.
pub open spec fn push_model(entries: Seq<BatchModel>, capacity: nat, batch: BatchModel) -> Seq<
    BatchModel,
> {
    if entries.len() < capacity {
        entries.push(batch)
    } else {
        entries.drop_first().push(batch)
    }
}

/// What requeueing a failed batch leaves: the batch returns to the front,
/// unless the buffer is already at capacity — then the returning batch is
/// itself the oldest and is the one the eviction policy gives up.
pub open spec fn requeue_model(entries: Seq<BatchModel>, capacity: nat, batch: BatchModel) -> Seq<
    BatchModel,
> {
    if entries.len() < capacity {
        seq![batch] + entries
    } else {
        entries
    }
}

/// What a whole sequence of pushes leaves in the buffer, earliest push
/// first.
pub open spec fn push_all_model(
    entries: Seq<BatchModel>,
    capacity: nat,
    batches: Seq<BatchModel>,
) -> Seq<BatchModel>
    decreases batches.len(),
{
    if batches.len() == 0 {
        entries
    } else {
        push_all_model(push_model(entries, capacity, batches[0]), capacity, batches.drop_first())
    }
}

/// Bounded capacity: no sequence of pushes ever grows a buffer beyond its
/// capacity.
pub proof fn lemma_push_sequence_bounded(
    entries: Seq<BatchModel>,
    capacity: nat,
    batches: Seq<BatchModel>,
)
    requires
        entries.len() <= capacity,
        1 <= capacity,
    ensures
        push_all_model(entries, capacity, batches).len() <= capacity,
    decreases batches.len(),
{
    if batches.len() > 0 {
        lemma_push_sequence_bounded(
            push_model(entries, capacity, batches[0]),
            capacity,
            batches.drop_first(),
        );
    }
}

/// Pushes keep arrival order and evict only from the front: after any
/// sequence of pushes the buffer holds the batches it started with followed
/// by the pushed ones, trimmed at the front to the capacity.
pub proof fn lemma_push_all_keeps_order(
    entries: Seq<BatchModel>,
    capacity: nat,
    batches: Seq<BatchModel>,
)
    requires
        entries.len() <= capacity,
        1 <= capacity,
    ensures
        entries.len() + batches.len() <= capacity ==> push_all_model(entries, capacity, batches)
            =~= entries + batches,
        entries.len() + batches.len() > capacity ==> push_all_model(entries, capacity, batches)
            =~= (entries + batches).skip(entries.len() + batches.len() - capacity),
    decreases batches.len(),
{
    if batches.len() == 0 {
        assert(entries + batches =~= entries);
    } else {
        let first = batches[0];
        let rest = batches.drop_first();
        let stepped = push_model(entries, capacity, first);
        lemma_push_all_keeps_order(stepped, capacity, rest);
        if entries.len() < capacity {
            assert(stepped + rest =~= entries + batches);
        } else {
            assert(stepped + rest =~= (entries + batches).skip(1));
            if stepped.len() + rest.len() > capacity {
                assert((entries + batches).skip(1).skip(
                    stepped.len() + rest.len() - capacity,
                ) =~= (entries + batches).skip(entries.len() + batches.len() - capacity));
            }
        }
    }
}

/// FIFO except for eviction: a buffer filled from empty holds exactly the
/// newest `capacity` batches, in push order, so nothing ever stands ahead
/// of a batch that was enqueued earlier and is still present.
pub proof fn lemma_fifo_suffix(capacity: nat, batches: Seq<BatchModel>)
    requires
        1 <= capacity,
    ensures
        batches.len() <= capacity ==> push_all_model(Seq::empty(), capacity, batches) =~= batches,
        batches.len() > capacity ==> push_all_model(Seq::empty(), capacity, batches)
            =~= batches.skip(batches.len() - capacity),
{
    lemma_push_all_keeps_order(Seq::empty(), capacity, batches);
    assert(Seq::<BatchModel>::empty() + batches =~= batches);
}

/// A requeued batch is the next one attempted: it stands at the front,
/// ahead of everything newer, and the rest of the queue is unchanged.
pub proof fn lemma_requeue_is_next(entries: Seq<BatchModel>, capacity: nat, batch: BatchModel)
    requires
        entries.len() < capacity,
    ensures
        requeue_model(entries, capacity, batch).len() == entries.len() + 1,
        requeue_model(entries, capacity, batch)[0] == batch,
        requeue_model(entries, capacity, batch).drop_first() =~= entries,
{
}

/// A requeued batch is still the first attempted after the following
/// cycle contributes its own push, as long as that push does not reach the
/// capacity bound (at the bound, eviction removes the requeued batch
/// itself, it being the oldest).
pub proof fn lemma_requeue_survives_push(
    entries: Seq<BatchModel>,
    capacity: nat,
    batch: BatchModel,
    newer: BatchModel,
)
    requires
        entries.len() + 1 < capacity,
    ensures
        push_model(requeue_model(entries, capacity, batch), capacity, newer)[0] == batch,
{
}

/// A bounded FIFO of not-yet-delivered telemetry batches.
pub struct RetryBuffer {
    front: Vec<TelemetryBatch>,
    ring: ringbuffer::AllocRingBuffer<TelemetryBatch>,
    capacity: usize,
    dropped: u64,
}

impl RetryBuffer {
    /// The batches held, oldest (next to deliver) first.
    pub closed spec fn entries(self) -> Seq<BatchModel> {
        self.front@.map_values(|b: TelemetryBatch| b@) + ring_entries(self.ring)
    }

    /// The most batches the buffer will hold.
    pub closed spec fn capacity_spec(self) -> nat {
        self.capacity as nat
    }

    /// How many batches the eviction policy has discarded so far
    /// (saturating).
    pub closed spec fn dropped_spec(self) -> u64 {
        self.dropped
    }

    /// The buffer's internal invariant: the ring was made with this
    /// buffer's capacity, and the bound holds.
    pub closed spec fn well_formed(self) -> bool {
        &&& 1 <= self.capacity
        &&& ring_capacity(self.ring) == self.capacity
        &&& self.entries().len() <= self.capacity
    }

    /// An empty buffer that will hold at most `capacity` batches.
    pub fn new(capacity: usize) -> (buffer: RetryBuffer)
        requires
            1 <= capacity,
        ensures
            buffer.well_formed(),
            buffer.entries() == Seq::<BatchModel>::empty(),
            buffer.capacity_spec() == capacity,
            buffer.dropped_spec() == 0,
    {
        let buffer = RetryBuffer {
            front: Vec::new(),
            ring: ring_new(capacity),
            capacity,
            dropped: 0,
        };
        proof {
            assert(buffer.entries() =~= Seq::<BatchModel>::empty());
        }
        buffer
    }

    /// An empty buffer sized to survive one full day of outage at the
    /// given polling cadence without losing data.
    pub fn for_period(period_secs: u64) -> (buffer: RetryBuffer)
        requires
            1 <= period_secs,
        ensures
            buffer.well_formed(),
            buffer.entries() == Seq::<BatchModel>::empty(),
            buffer.capacity_spec() == spec_capacity_for_period(period_secs),
            buffer.dropped_spec() == 0,
    {
        RetryBuffer::new(capacity_for_period(period_secs))
    }

    /// How many batches wait for delivery.
    pub fn len(&self) -> (n: usize)
        requires
            self.well_formed(),
        ensures
            n == self.entries().len(),
    {
        self.front.len() + ring_len(&self.ring)
    }

    /// The bound the buffer was made with.
    pub fn capacity(&self) -> (n: usize)
        requires
            self.well_formed(),
        ensures
            n == self.capacity_spec(),
    {
        self.capacity
    }

    /// How many batches the eviction policy has discarded so far.
    pub fn dropped_batches(&self) -> (n: u64)
        ensures
            n == self.dropped_spec(),
    {
        self.dropped
    }

    /// Accepts the batch of one polling cycle at the back of the queue. At
    /// capacity the oldest batch is evicted and counted as dropped.
    pub fn push(&mut self, batch: TelemetryBatch)
        requires
            old(self).well_formed(),
        ensures
            final(self).well_formed(),
            final(self).capacity_spec() == old(self).capacity_spec(),
            final(self).entries() == push_model(
                old(self).entries(),
                old(self).capacity_spec(),
                batch@,
            ),
            final(self).entries().len() <= final(self).capacity_spec(),
            old(self).entries().len() < old(self).capacity_spec() ==> final(self).dropped_spec()
                == old(self).dropped_spec(),
            old(self).entries().len() == old(self).capacity_spec() ==> final(self).dropped_spec()
                == if old(self).dropped_spec() < u64::MAX {
                    old(self).dropped_spec() + 1
                } else {
                    old(self).dropped_spec() as int
                },
    {
        let ghost entries0 = self.entries();
        let total = self.len();
        if total == self.capacity {
            if self.front.len() > 0 {
                let _ = self.front.remove(0);
                proof {
                    assert(self.front@.map_values(|b: TelemetryBatch| b@) =~= old(
                        self,
                    ).front@.map_values(|b: TelemetryBatch| b@).drop_first());
                    assert(self.entries() =~= entries0.drop_first());
                }
            } else {
                proof {
                    assert(entries0 =~= ring_entries(self.ring));
                }
            }
            ring_enqueue(&mut self.ring, batch);
            proof {
                assert(self.entries() =~= entries0.drop_first().push(batch@));
            }
            self.dropped = if self.dropped < u64::MAX {
                self.dropped + 1
            } else {
                self.dropped
            };
        } else {
            ring_enqueue(&mut self.ring, batch);
            proof {
                assert(self.entries() =~= entries0.push(batch@));
            }
        }
    }

    /// Removes and returns the oldest batch: the next one delivery must
    /// attempt. Returns nothing from an empty buffer.
    pub fn pop_front(&mut self) -> (r: Option<TelemetryBatch>)
        requires
            old(self).well_formed(),
        ensures
            final(self).well_formed(),
            final(self).capacity_spec() == old(self).capacity_spec(),
            final(self).dropped_spec() == old(self).dropped_spec(),
            old(self).entries().len() == 0 ==> r is None && final(self).entries() == old(
                self,
            ).entries(),
            old(self).entries().len() > 0 ==> (r matches Some(batch) && batch@ == old(
                self,
            ).entries()[0] && final(self).entries() == old(self).entries().drop_first()),
    {
        let ghost entries0 = self.entries();
        if self.front.len() > 0 {
            let batch = self.front.remove(0);
            proof {
                assert(self.front@.map_values(|b: TelemetryBatch| b@) =~= old(
                    self,
                ).front@.map_values(|b: TelemetryBatch| b@).drop_first());
                assert(self.entries() =~= entries0.drop_first());
                assert(batch@ == entries0[0]);
            }
            Some(batch)
        } else {
            let r = ring_dequeue(&mut self.ring);
            proof {
                if entries0.len() == 0 {
                    assert(self.entries() =~= entries0);
                } else {
                    assert(entries0 =~= ring_entries(old(self).ring));
                    assert(self.entries() =~= entries0.drop_first());
                }
            }
            r
        }
    }

    /// Settles one delivery attempt of the drain loop: a delivered batch
    /// is gone for good and draining may go on with the next-oldest; a
    /// failed batch returns to the front and draining stops for this
    /// cycle, so no newer batch is attempted before it.
    pub fn settle_attempt(&mut self, batch: TelemetryBatch, delivered: bool) -> (keep_draining:
        bool)
        requires
            old(self).well_formed(),
        ensures
            final(self).well_formed(),
            final(self).capacity_spec() == old(self).capacity_spec(),
            keep_draining == delivered,
            delivered ==> *final(self) == *old(self),
            !delivered ==> final(self).entries() == requeue_model(
                old(self).entries(),
                old(self).capacity_spec(),
                batch@,
            ),
    {
        if delivered {
            true
        } else {
            self.requeue_front(batch);
            false
        }
    }

    /// Puts a batch whose delivery failed back at the front, so the next
    /// drain attempts it before any newer batch. At capacity the returning
    /// batch is the oldest and is dropped instead, as the eviction policy
    /// asks.
    pub fn requeue_front(&mut self, batch: TelemetryBatch)
        requires
            old(self).well_formed(),
        ensures
            final(self).well_formed(),
            final(self).capacity_spec() == old(self).capacity_spec(),
            final(self).entries() == requeue_model(
                old(self).entries(),
                old(self).capacity_spec(),
                batch@,
            ),
            old(self).entries().len() < old(self).capacity_spec() ==> final(self).dropped_spec()
                == old(self).dropped_spec(),
            old(self).entries().len() == old(self).capacity_spec() ==> final(self).dropped_spec()
                == if old(self).dropped_spec() < u64::MAX {
                    old(self).dropped_spec() + 1
                } else {
                    old(self).dropped_spec() as int
                },
    {
        let ghost entries0 = self.entries();
        let total = self.len();
        if total == self.capacity {
            self.dropped = if self.dropped < u64::MAX {
                self.dropped + 1
            } else {
                self.dropped
            };
        } else {
            self.front.insert(0, batch);
            proof {
                assert(self.front@.map_values(|b: TelemetryBatch| b@) =~= seq![batch@] + old(
                    self,
                ).front@.map_values(|b: TelemetryBatch| b@));
                assert(self.entries() =~= seq![batch@] + entries0);
            }
        }
    }
}

} // verus!
