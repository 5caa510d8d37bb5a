//! Wall-clock reconstruction for a device without a real-time clock.
//!
//! Right after the handshake the listener measures one round trip:
//! it notes monotonic `t1`, asks the gateway for the time, and notes
//! monotonic `t2` when the answer with the gateway's Unix
//! milliseconds arrives.  Half the round trip estimates the one-way
//! delay; the anchor pairs the estimated arrival instant with the
//! estimated wall clock at that instant.  Every later sample is
//! stamped by offsetting its monotonic capture time against the
//! anchor, saturating at zero and at the top of the range.

use vstd::prelude::*;

verus! {

/// A monotonic instant paired with the wall clock at that instant,
/// both in milliseconds.
#[derive(Debug, Clone, Copy, PartialEq, Eq, Structural)]
pub struct TimeAnchor {
    /// The monotonic side of the pair.
    pub ref_local_ms: u64,
    /// The wall-clock side of the pair, Unix milliseconds.
    pub ref_wall_ms: u64,
}

/// The one-way delay estimate: half the round trip.
pub open spec fn delay_of(t1_ms: u64, t2_ms: u64) -> int {
    (t2_ms - t1_ms) / 2
}

/// The anchor a round trip yields: the request instant plus the
/// delay estimate on the monotonic side, the server's wall clock
/// plus the same delay on the wall side, saturating at the top of
/// the range.
pub open spec fn anchor_spec(t1_ms: u64, t2_ms: u64, server_ms: u64) -> TimeAnchor
    recommends
        t1_ms <= t2_ms,
{
    TimeAnchor {
        ref_local_ms: (t1_ms + delay_of(t1_ms, t2_ms)) as u64,
        ref_wall_ms: if server_ms + delay_of(t1_ms, t2_ms) <= u64::MAX {
            (server_ms + delay_of(t1_ms, t2_ms)) as u64
        } else {
            u64::MAX
        },
    }
}

/// Builds the anchor from one round trip: request sent at monotonic
/// `t1_ms`, reply with wall clock `server_ms` received at monotonic
/// `t2_ms`.
pub fn anchor(t1_ms: u64, t2_ms: u64, server_ms: u64) -> (r: TimeAnchor)
    requires
        t1_ms <= t2_ms,
    ensures
        r == anchor_spec(t1_ms, t2_ms, server_ms),
        r.ref_local_ms == t1_ms + delay_of(t1_ms, t2_ms),
{
    let delay: u64 = (t2_ms - t1_ms) / 2;
    TimeAnchor { ref_local_ms: t1_ms + delay, ref_wall_ms: server_ms.saturating_add(delay) }
}

/// The wall-clock stamp of a sample captured at monotonic time
/// `t_ms`, saturating at zero and at the top of the range.
pub open spec fn stamp_of(a: TimeAnchor, t_ms: u64) -> u64 {
    if t_ms >= a.ref_local_ms {
        if a.ref_wall_ms + (t_ms - a.ref_local_ms) <= u64::MAX {
            (a.ref_wall_ms + (t_ms - a.ref_local_ms)) as u64
        } else {
            u64::MAX
        }
    } else {
        if a.ref_local_ms - t_ms <= a.ref_wall_ms {
            (a.ref_wall_ms - (a.ref_local_ms - t_ms)) as u64
        } else {
            0
        }
    }
}

/// Stamps a monotonic capture time with its wall clock.
pub fn wall_clock_of(a: &TimeAnchor, t_ms: u64) -> (r: u64)
    ensures
        r == stamp_of(*a, t_ms),
{
    if t_ms >= a.ref_local_ms {
        a.ref_wall_ms.saturating_add(t_ms - a.ref_local_ms)
    } else {
        a.ref_wall_ms.saturating_sub(a.ref_local_ms - t_ms)
    }
}

} // verus!
