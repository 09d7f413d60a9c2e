//! The heartbeat rule: one keep-alive per tick at the cadence the server
//! named, and a liveness flag that tells whether the last one was answered.

use crate::outbound::{encode_heartbeat, heartbeat_frame};
use vstd::prelude::*;

verus! {

/// The cadence used where the server's hello names none, in milliseconds.
pub const DEFAULT_HEARTBEAT_INTERVAL_MS: u64 = 41250;

/// The scheduler's state. It lives as long as its session and is never stored.
#[derive(Clone, Copy, Debug, PartialEq, Eq, Structural)]
pub struct HeartbeatState {
    /// The time between two heartbeats, in milliseconds.
    pub interval_ms: u64,
    /// Whether an acknowledgement has arrived since the last heartbeat.
    pub acked: bool,
}

/// What one tick of the scheduler produces.
#[derive(Clone, Debug, PartialEq, Eq)]
pub struct HeartbeatTick {
    /// The heartbeat before this one was never acknowledged: the connection
    /// may be a zombie. The tick goes ahead all the same.
    pub missed_ack: bool,
    /// The heartbeat envelope to send.
    pub frame: String,
}

/// The cadence to run at, given what the hello named.
pub open spec fn interval_or_default(cadence: Option<u64>) -> u64 {
    match cadence {
        Some(interval_ms) => interval_ms,
        None => DEFAULT_HEARTBEAT_INTERVAL_MS,
    }
}

/// The state at the start of a session. The flag starts out set, so that the
/// first tick reports no missing acknowledgement.
pub open spec fn initial_heartbeat(cadence: Option<u64>) -> HeartbeatState {
    HeartbeatState { interval_ms: interval_or_default(cadence), acked: true }
}

impl HeartbeatState {
    /// The state after the hello: the cadence it named, or the default.
    pub fn from_hello(cadence: Option<u64>) -> (state: HeartbeatState)
        ensures
            state == initial_heartbeat(cadence),
            cadence is Some ==> state.interval_ms == cadence->0,
            cadence is None ==> state.interval_ms == DEFAULT_HEARTBEAT_INTERVAL_MS,
    {
        let interval_ms = match cadence {
            Some(interval_ms) => interval_ms,
            None => DEFAULT_HEARTBEAT_INTERVAL_MS,
        };
        HeartbeatState { interval_ms, acked: true }
    }

    /// Records an acknowledgement.
    pub fn acknowledge(&mut self)
        ensures
            *final(self) == (HeartbeatState { acked: true, ..*old(self) }),
    {
        self.acked = true;
    }

    /// One tick: reports whether the last heartbeat went unanswered, clears
    /// the flag and writes the next heartbeat, which carries `last_sequence`.
    /// A missing acknowledgement never holds the heartbeat back.
    pub fn tick(&mut self, last_sequence: Option<u64>) -> (tick: HeartbeatTick)
        ensures
            tick.missed_ack == !old(self).acked,
            tick.frame@ == heartbeat_frame(last_sequence),
            *final(self) == (HeartbeatState { acked: false, ..*old(self) }),
    {
        let missed_ack = !self.acked;
        self.acked = false;
        HeartbeatTick { missed_ack, frame: encode_heartbeat(last_sequence) }
    }
}

} // verus!
