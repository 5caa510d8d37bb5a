//! Sender-side connection state machine and reconnect backoff.
//!
//! The sender cycles through connecting, handshaking, syncing time
//! and streaming.  Every failure drops it back to disconnected and
//! costs a sleep of the current backoff delay, which starts at half
//! a second, doubles with each consecutive failure up to thirty
//! seconds, and snaps back to the start on any success that proves
//! the link good — a completed time sync or a delivered frame.

use vstd::prelude::*;

verus! {

/// The starting backoff delay, in milliseconds.
pub const BASE_BACKOFF_MS: u64 = 500;

/// The largest backoff delay, in milliseconds.
pub const MAX_BACKOFF_MS: u64 = 30_000;

/// The reconnect backoff: the delay the next failure will cost.
#[derive(Debug, Clone, Copy, PartialEq, Eq, Structural)]
pub struct Backoff {
    /// The delay of the next failure, in milliseconds.
    delay_ms: u64,
}

impl Backoff {
    /// The delay the next failure will cost.
    pub closed spec fn delay(&self) -> u64 {
        self.delay_ms
    }

    /// A fresh backoff at the starting delay.
    pub fn new() -> (r: Self)
        ensures
            r.delay() == BASE_BACKOFF_MS,
    {
        Backoff { delay_ms: BASE_BACKOFF_MS }
    }

    /// The delay the next failure will cost.
    pub fn current_ms(&self) -> (r: u64)
        ensures
            r == self.delay(),
    {
        self.delay_ms
    }

    /// Books one failure: the caller sleeps for the returned delay,
    /// and the next failure will cost twice as much, up to the cap.
    pub fn on_failure(&mut self) -> (sleep_ms: u64)
        ensures
            sleep_ms == old(self).delay(),
            final(self).delay() == if 2 * old(self).delay() > MAX_BACKOFF_MS {
                MAX_BACKOFF_MS as int
            } else {
                2 * old(self).delay()
            },
    {
        let sleep_ms = self.delay_ms;
        self.delay_ms = if self.delay_ms > MAX_BACKOFF_MS / 2 {
            MAX_BACKOFF_MS
        } else {
            self.delay_ms * 2
        };
        sleep_ms
    }

    /// Books one success: the next failure costs the starting delay
    /// again.
    pub fn on_success(&mut self)
        ensures
            final(self).delay() == BASE_BACKOFF_MS,
    {
        self.delay_ms = BASE_BACKOFF_MS;
    }
}

/// Where the sender stands in its connection cycle.
#[derive(Debug, Clone, Copy, PartialEq, Eq, Structural)]
pub enum SenderPhase {
    /// No connection; waiting to try again.
    Disconnected,
    /// Opening the socket.
    Connecting,
    /// Running the handshake.
    Handshaking,
    /// Measuring the time round trip.
    TimeSyncing,
    /// Delivering records.
    Streaming,
}

/// What the sender observed while in a phase.
#[derive(Debug, Clone, Copy, PartialEq, Eq, Structural)]
pub enum SenderEvent {
    /// Time to try connecting.
    Tick,
    /// The socket is open.
    ConnectOk,
    /// The handshake completed.
    XxComplete,
    /// The time anchor is set.
    AnchorSet,
    /// A frame was delivered.
    FrameOk,
    /// Anything failed.
    Failure,
}

/// The phase the sender moves to on an event.
pub open spec fn next_phase(phase: SenderPhase, event: SenderEvent) -> SenderPhase {
    match (phase, event) {
        (_, SenderEvent::Failure) => SenderPhase::Disconnected,
        (SenderPhase::Disconnected, SenderEvent::Tick) => SenderPhase::Connecting,
        (SenderPhase::Connecting, SenderEvent::ConnectOk) => SenderPhase::Handshaking,
        (SenderPhase::Handshaking, SenderEvent::XxComplete) => SenderPhase::TimeSyncing,
        (SenderPhase::TimeSyncing, SenderEvent::AnchorSet) => SenderPhase::Streaming,
        (SenderPhase::Streaming, SenderEvent::FrameOk) => SenderPhase::Streaming,
        _ => phase,
    }
}

/// Whether an event resets the backoff: a set anchor or a delivered
/// frame proves the link good.
pub open spec fn resets_backoff(phase: SenderPhase, event: SenderEvent) -> bool {
    (phase == SenderPhase::TimeSyncing && event == SenderEvent::AnchorSet) || (phase
        == SenderPhase::Streaming && event == SenderEvent::FrameOk)
}

/// Moves the sender one step: returns the next phase, books the
/// backoff, and returns how long to sleep before reconnecting when
/// the event was a failure.
pub fn sender_step(phase: SenderPhase, event: SenderEvent, backoff: &mut Backoff) -> (r: (
    SenderPhase,
    Option<u64>,
))
    ensures
        r.0 == next_phase(phase, event),
        event == SenderEvent::Failure ==> (r.1 == Some(old(backoff).delay()) && final(backoff).delay() == if 2 * old(backoff).delay() > MAX_BACKOFF_MS {
            MAX_BACKOFF_MS as int
        } else {
            2 * old(backoff).delay()
        }),
        event != SenderEvent::Failure ==> r.1 is None,
        resets_backoff(phase, event) ==> final(backoff).delay() == BASE_BACKOFF_MS,
        event != SenderEvent::Failure && !resets_backoff(phase, event) ==> final(backoff).delay()
            == old(backoff).delay(),
{
    match event {
        SenderEvent::Failure => {
            let sleep_ms = backoff.on_failure();
            (SenderPhase::Disconnected, Some(sleep_ms))
        },
        SenderEvent::Tick => {
            let next = if matches!(phase, SenderPhase::Disconnected) {
                SenderPhase::Connecting
            } else {
                phase
            };
            (next, None)
        },
        SenderEvent::ConnectOk => {
            let next = if matches!(phase, SenderPhase::Connecting) {
                SenderPhase::Handshaking
            } else {
                phase
            };
            (next, None)
        },
        SenderEvent::XxComplete => {
            let next = if matches!(phase, SenderPhase::Handshaking) {
                SenderPhase::TimeSyncing
            } else {
                phase
            };
            (next, None)
        },
        SenderEvent::AnchorSet => {
            if matches!(phase, SenderPhase::TimeSyncing) {
                backoff.on_success();
                (SenderPhase::Streaming, None)
            } else {
                (phase, None)
            }
        },
        SenderEvent::FrameOk => {
            if matches!(phase, SenderPhase::Streaming) {
                backoff.on_success();
                (SenderPhase::Streaming, None)
            } else {
                (phase, None)
            }
        },
    }
}

} // verus!
