//! Bounded handoff queue between scanner and sender.
//!
//! The scanner hands records to the sender through a channel of
//! sixteen slots, each a record with the monotonic time it was
//! captured.  When the sender is stuck on the network the channel
//! fills; a push onto a full channel first clears it, so that only
//! the newest sample survives — older samples would be rejected by
//! the gateway-side deduplication after the reconnect anyway.

use crate::schema::RuuviRaw;
use vstd::prelude::*;

verus! {

/// How many records the queue can hold.
pub const QUEUE_CAPACITY: usize = 16;

/// A bounded queue of records, each with its monotonic capture time
/// in milliseconds.
pub struct HandoffQueue {
    /// The queued entries, oldest first.
    items: Vec<(RuuviRaw, u64)>,
}

impl HandoffQueue {
    /// The queued entries, oldest first.
    pub closed spec fn view(&self) -> Seq<(RuuviRaw, u64)> {
        self.items@
    }

    /// Whether the queue is within its capacity.
    pub open spec fn wf(&self) -> bool {
        self@.len() <= QUEUE_CAPACITY
    }

    /// An empty queue.
    pub fn new() -> (r: Self)
        ensures
            r.wf(),
            r@.len() == 0,
    {
        HandoffQueue { items: Vec::new() }
    }

    /// How many records are queued.
    pub fn len(&self) -> (r: usize)
        ensures
            r == self@.len(),
    {
        self.items.len()
    }

    /// Queues one record.  A full queue is cleared first, so the
    /// record always ends up queued, and a push onto a full queue
    /// leaves exactly that record.
    pub fn push(&mut self, record: RuuviRaw, t_ms: u64)
        requires
            old(self).wf(),
        ensures
            final(self).wf(),
            final(self)@ == if old(self)@.len() < QUEUE_CAPACITY {
                old(self)@.push((record, t_ms))
            } else {
                seq![(record, t_ms)]
            },
    {
        if self.items.len() >= QUEUE_CAPACITY {
            self.items.clear();
        }
        self.items.push((record, t_ms));
        proof {
            if old(self)@.len() >= QUEUE_CAPACITY {
                assert(self@ =~= seq![(record, t_ms)]);
            }
        }
    }

    /// Takes the oldest record, if any.
    pub fn pop(&mut self) -> (r: Option<(RuuviRaw, u64)>)
        requires
            old(self).wf(),
        ensures
            final(self).wf(),
            old(self)@.len() == 0 ==> r is None && final(self)@ == old(self)@,
            old(self)@.len() > 0 ==> (r matches Some(e) && e == old(self)@[0] && final(self)@ == old(
                self,
            )@.skip(1)),
    {
        if self.items.len() == 0 {
            return None;
        }
        let e = self.items.remove(0);
        proof {
            assert(self@ =~= old(self)@.skip(1));
        }
        Some(e)
    }
}

} // verus!
