//! The background worker that lets the device finish outstanding work: what
//! it does on each turn of its loop.

use vstd::prelude::*;

verus! {

/// Microseconds the worker sleeps between polls: a sixtieth of a second.
pub const POLL_SLEEP_MICROS: u64 = 1_000_000 / 60;

/// What the worker finds on its channel at the start of a turn.
#[derive(Clone, Copy, Debug, PartialEq, Eq, Structural)]
pub enum PollSignal {
    /// The shutdown signal has arrived.
    Shutdown,
    /// The sending side is gone.
    Disconnected,
    /// Nothing has arrived.
    Empty,
}

/// What the worker does on a turn.
#[derive(Clone, Copy, Debug, PartialEq, Eq, Structural)]
pub enum PollAction {
    /// Leave the loop.
    Stop,
    /// Let the device process finished work, sleep, yield, and come back.
    PollThenSleep { micros: u64 },
}

/// The worker's turn: it stops on a shutdown signal or when the sender is
/// gone, and otherwise polls and sleeps a sixtieth of a second.
pub fn poll_step(signal: PollSignal) -> (r: PollAction)
    ensures
        r is Stop <==> signal != PollSignal::Empty,
        r matches PollAction::PollThenSleep { micros } ==> micros == POLL_SLEEP_MICROS,
{
    match signal {
        PollSignal::Shutdown => PollAction::Stop,
        PollSignal::Disconnected => PollAction::Stop,
        PollSignal::Empty => PollAction::PollThenSleep { micros: POLL_SLEEP_MICROS },
    }
}

} // verus!
