//! Liveness monitoring: counting failed probes (pull) or timing pushed tokens (push).
use vstd::prelude::*;
use crate::protocol::{heartbeat_ack_line, heartbeat_ack_token};

verus! {

/// Consecutive failed probes after which the worker counts as dead.
pub const PROBE_FAILURE_LIMIT: u32 = 3;

/// Seconds between two liveness probes.
pub const PROBE_INTERVAL_SECS: u64 = 5;

/// Pull mode: the outcome of each periodic probe, and how many failed in a row.
#[derive(Debug)]
pub struct ProbeTracker {
    consecutive_failures: u32,
}

impl ProbeTracker {
    pub closed spec fn failures(&self) -> nat {
        self.consecutive_failures as nat
    }

    pub fn new() -> (r: Self)
        ensures
            r.failures() == 0,
    {
        ProbeTracker { consecutive_failures: 0 }
    }

    /// Records one probe; `true` when the worker is now to be treated as dead, which
    /// is when the last `PROBE_FAILURE_LIMIT` probes or more all failed.
    pub fn record(&mut self, succeeded: bool) -> (dead: bool)
        ensures
            succeeded ==> final(self).failures() == 0,
            !succeeded ==> final(self).failures() == (if old(self).failures() < u32::MAX {
                old(self).failures() + 1
            } else {
                old(self).failures()
            }),
            dead == (final(self).failures() >= PROBE_FAILURE_LIMIT),
    {
        if succeeded {
            self.consecutive_failures = 0;
        } else if self.consecutive_failures < u32::MAX {
            self.consecutive_failures = self.consecutive_failures + 1;
        }
        self.consecutive_failures >= PROBE_FAILURE_LIMIT
    }

    pub fn consecutive_failures(&self) -> (r: u32)
        ensures
            r == self.failures(),
    {
        self.consecutive_failures
    }
}

/// Push mode: when the worker's last `HEARTBEAT` arrived, and how long silence may last.
#[derive(Debug)]
pub struct PushMonitor {
    last_token_ms: u64,
    window_ms: u64,
}

impl PushMonitor {
    pub closed spec fn last_token(&self) -> nat {
        self.last_token_ms as nat
    }

    pub closed spec fn window(&self) -> nat {
        self.window_ms as nat
    }

    /// A monitor whose window starts at `now_ms`.
    pub fn new(now_ms: u64, window_ms: u64) -> (r: Self)
        ensures
            r.last_token() == now_ms,
            r.window() == window_ms,
    {
        PushMonitor { last_token_ms: now_ms, window_ms }
    }

    /// Records a heartbeat token and returns the acknowledgement line to write back.
    pub fn on_token(&mut self, now_ms: u64) -> (ack: Vec<u8>)
        ensures
            final(self).last_token() == now_ms,
            final(self).window() == old(self).window(),
            ack@ == heartbeat_ack_token(),
    {
        self.last_token_ms = now_ms;
        heartbeat_ack_line()
    }

    /// Whether the silence since the last token has outlasted the window.
    pub fn is_expired(&self, now_ms: u64) -> (r: bool)
        ensures
            r == (now_ms > self.last_token() + self.window()),
    {
        now_ms > self.last_token_ms && now_ms - self.last_token_ms > self.window_ms
    }
}

/// Whether a process whose exit status was polled is still alive.
#[derive(Debug, Clone, Copy, PartialEq, Eq)]
pub enum ProcessProbe {
    /// `try_wait` found no exit status.
    StillRunning,
    Exited,
    /// Polling failed: treated as an exit.
    ProbeError,
    /// No process is held.
    Absent,
}

impl ProcessProbe {
    pub fn is_alive(&self) -> (r: bool)
        ensures
            r == (*self == ProcessProbe::StillRunning),
    {
        match self {
            ProcessProbe::StillRunning => true,
            _ => false,
        }
    }
}

} // verus!
