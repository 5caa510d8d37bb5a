//! Feedback on the single RGB LED.
//!
//! Three event classes are surfaced: a new record scanned, a
//! duplicate dropped, and a frame delivered.  The LED task drains
//! its queue keeping only the latest event — a newer event
//! supersedes an unshown older one — paints the event's colour for
//! a short window, and clears.  The colour policy and the
//! latest-wins coalescing are here; driving the LED hardware is the
//! embedding program's.

use crate::scanner::ScanOutcome;
use vstd::prelude::*;

verus! {

/// One event class to surface.
#[derive(Debug, Clone, Copy, PartialEq, Eq, Structural)]
pub enum LedEvent {
    /// A new record was scanned and queued.
    BleOk,
    /// A duplicate record was dropped.
    BleDuplicate,
    /// An encrypted frame was delivered.
    TcpOk,
}

/// An RGB colour, eight bits per channel.
#[derive(Debug, Clone, Copy, PartialEq, Eq, Structural)]
pub struct Rgb {
    /// Red channel.
    pub r: u8,
    /// Green channel.
    pub g: u8,
    /// Blue channel.
    pub b: u8,
}

/// The colour an event is painted in: green for a new record, red
/// for a duplicate, blue for a delivered frame.
pub open spec fn color_spec(e: LedEvent) -> Rgb {
    match e {
        LedEvent::BleOk => Rgb { r: 0, g: 128, b: 0 },
        LedEvent::BleDuplicate => Rgb { r: 255, g: 0, b: 0 },
        LedEvent::TcpOk => Rgb { r: 0, g: 0, b: 255 },
    }
}

/// The colour an event is painted in.
pub fn color_of(e: &LedEvent) -> (c: Rgb)
    ensures
        c == color_spec(*e),
{
    match e {
        LedEvent::BleOk => Rgb { r: 0, g: 128, b: 0 },
        LedEvent::BleDuplicate => Rgb { r: 255, g: 0, b: 0 },
        LedEvent::TcpOk => Rgb { r: 0, g: 0, b: 255 },
    }
}

/// Coalesces a backlog of events, latest wins: the last drained
/// event supersedes the current one; an empty backlog changes
/// nothing.
pub fn coalesce_latest(current: Option<LedEvent>, drained: &Vec<LedEvent>) -> (r: Option<LedEvent>)
    ensures
        drained@.len() > 0 ==> r == Some(drained@.last()),
        drained@.len() == 0 ==> r == current,
{
    if drained.len() > 0 {
        Some(drained[drained.len() - 1])
    } else {
        current
    }
}

/// The event a scan outcome surfaces, if any: a forwarded record
/// shows as new, a dropped one as duplicate, and the rest show
/// nothing.
pub fn event_for_outcome(outcome: &ScanOutcome) -> (r: Option<LedEvent>)
    ensures
        r == match outcome {
            ScanOutcome::Forwarded(_) => Some(LedEvent::BleOk),
            ScanOutcome::Duplicate(_) => Some(LedEvent::BleDuplicate),
            _ => None::<LedEvent>,
        },
{
    match outcome {
        ScanOutcome::Forwarded(_) => Some(LedEvent::BleOk),
        ScanOutcome::Duplicate(_) => Some(LedEvent::BleDuplicate),
        _ => None,
    }
}

} // verus!
