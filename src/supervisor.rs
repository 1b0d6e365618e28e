//! The status store and the restart policy that drives it.
use vstd::prelude::*;
use crate::types::{BackendState, BackendStatus, HandshakePayload};

verus! {

/// Consecutive failed launches after which the supervisor gives up.
pub const MAX_RESTART_ATTEMPTS: u32 = 5;

/// Seconds between two liveness checks of the watchdog.
pub const WATCHDOG_TICK_SECS: u64 = 5;

/// Seconds between two status broadcasts.
pub const STATUS_BROADCAST_SECS: u64 = 10;

/// What happened to the worker, or what was asked of the supervisor.
#[derive(Debug)]
pub enum SupervisorEvent {
    /// A start was asked for from outside.
    StartRequested,
    /// A restart was asked for from outside: it also clears a terminal failure.
    RestartRequested,
    /// The launched worker completed its handshake.
    HandshakeSucceeded { info: HandshakePayload, now_secs: u64 },
    /// Spawning failed, or the handshake failed or timed out.
    LaunchFailed { reason: String },
    /// Neither a binary nor a script could be found.
    DiscoveryFailed { reason: String },
    /// The process exited, or the heartbeat stayed away too long.
    WorkerLost,
    /// A liveness probe or a pushed heartbeat came through.
    HeartbeatOk { now_secs: u64 },
    /// The back-off delay of a scheduled retry has passed.
    RetryDue,
    /// The application is closing.
    ShutdownRequested,
}

/// What the caller must do after a transition.
#[derive(Debug, Clone, Copy, PartialEq, Eq)]
pub enum SupervisorAction {
    Idle,
    /// Terminate any previous process, then locate, spawn and await the handshake.
    Launch,
    /// Sleep this long, then report `RetryDue`.
    RetryAfter { delay_secs: u64 },
    /// Stop the worker: graceful request, grace period, then kill.
    Terminate,
}

/// Events that the supervisor raises itself, as opposed to requests from outside.
pub open spec fn is_automatic(e: SupervisorEvent) -> bool {
    !(e is StartRequested || e is RestartRequested || e is ShutdownRequested)
}

pub open spec fn is_launching(s: BackendState) -> bool {
    s is Starting || s is Restarting
}

/// The status after `e`, with at most `ceiling` consecutive failed launches.
pub open spec fn next_status(s: BackendStatus, ceiling: u32, e: SupervisorEvent) -> BackendStatus {
    match e {
        SupervisorEvent::StartRequested => if s.state is Running || s.state is Starting {
            s
        } else {
            BackendStatus { state: BackendState::Starting, restart_count: 0, ..s }
        },
        SupervisorEvent::RestartRequested => BackendStatus {
            state: BackendState::Starting,
            restart_count: 0,
            ..s
        },
        SupervisorEvent::HandshakeSucceeded { info, now_secs } => if is_launching(s.state) {
            BackendStatus {
                state: BackendState::Running(info),
                last_heartbeat: Some(now_secs),
                restart_count: 0,
            }
        } else {
            s
        },
        SupervisorEvent::LaunchFailed { reason } => if is_launching(s.state) {
            if s.restart_count + 1 < ceiling {
                BackendStatus {
                    state: BackendState::Restarting,
                    restart_count: (s.restart_count + 1) as u32,
                    ..s
                }
            } else {
                BackendStatus {
                    state: BackendState::Failed(reason),
                    restart_count: (s.restart_count + 1) as u32,
                    ..s
                }
            }
        } else {
            s
        },
        SupervisorEvent::DiscoveryFailed { reason } => if is_launching(s.state) {
            BackendStatus { state: BackendState::Failed(reason), ..s }
        } else {
            s
        },
        SupervisorEvent::WorkerLost => if s.state is Running {
            BackendStatus { state: BackendState::Restarting, ..s }
        } else {
            s
        },
        SupervisorEvent::HeartbeatOk { now_secs } => if s.state is Running {
            BackendStatus { last_heartbeat: Some(now_secs), ..s }
        } else {
            s
        },
        SupervisorEvent::RetryDue => s,
        SupervisorEvent::ShutdownRequested => BackendStatus {
            state: BackendState::NotStarted,
            last_heartbeat: None,
            restart_count: 0,
        },
    }
}

/// What the caller must do after `e`.
pub open spec fn next_action(s: BackendStatus, ceiling: u32, e: SupervisorEvent) -> SupervisorAction {
    match e {
        SupervisorEvent::StartRequested => if s.state is Running || s.state is Starting {
            SupervisorAction::Idle
        } else {
            SupervisorAction::Launch
        },
        SupervisorEvent::RestartRequested => SupervisorAction::Launch,
        SupervisorEvent::LaunchFailed { reason } => if is_launching(s.state) && s.restart_count + 1
            < ceiling {
            SupervisorAction::RetryAfter { delay_secs: (s.restart_count + 1) as u64 }
        } else {
            SupervisorAction::Idle
        },
        SupervisorEvent::WorkerLost => if s.state is Running {
            SupervisorAction::Launch
        } else {
            SupervisorAction::Idle
        },
        SupervisorEvent::RetryDue => if s.state is Restarting {
            SupervisorAction::Launch
        } else {
            SupervisorAction::Idle
        },
        SupervisorEvent::ShutdownRequested => SupervisorAction::Terminate,
        _ => SupervisorAction::Idle,
    }
}

/// A failure event carries a reason that says something.
pub open spec fn reason_given(e: SupervisorEvent) -> bool {
    match e {
        SupervisorEvent::LaunchFailed { reason } => reason@.len() > 0,
        SupervisorEvent::DiscoveryFailed { reason } => reason@.len() > 0,
        _ => true,
    }
}

/// The text to report for a failure: `text`, or "Unknown error" when it is empty.
pub fn failure_reason(text: String) -> (r: String)
    ensures
        r@.len() > 0,
        text@.len() > 0 ==> r == text,
        text@.len() == 0 ==> r@ == "Unknown error"@,
{
    if text.as_str().is_empty() {
        proof {
            reveal_strlit("Unknown error");
        }
        String::from_str("Unknown error")
    } else {
        text
    }
}

/// The text a failure is recorded with: the reason, or "Unknown error" when it is empty.
pub open spec fn failure_text(reason: Seq<char>) -> Seq<char> {
    if reason.len() > 0 {
        reason
    } else {
        "Unknown error"@
    }
}

/// `actual` is the status `expected`, a failure reason taken as `failure_text` gives it.
pub open spec fn agrees(actual: BackendStatus, expected: BackendStatus) -> bool {
    &&& actual.last_heartbeat == expected.last_heartbeat
    &&& actual.restart_count == expected.restart_count
    &&& match expected.state {
        BackendState::Failed(reason) => actual.state is Failed && actual.state->Failed_0@
            == failure_text(reason@),
        _ => actual.state == expected.state,
    }
}

/// The counter stays within the ceiling, and reaches it only in a terminal failure,
/// whose reason is never empty.
pub open spec fn status_wf(s: BackendStatus, ceiling: u32) -> bool {
    &&& 1 <= ceiling
    &&& s.state is Failed ==> s.state->Failed_0@.len() > 0
    &&& s.restart_count <= ceiling
    &&& !(s.state is Failed) ==> s.restart_count < ceiling
    &&& s.state is Running ==> s.restart_count == 0
}

/// The status after `n` consecutive failed launches, each with the same reason.
pub open spec fn after_failed_launches(
    s: BackendStatus,
    ceiling: u32,
    reason: String,
    n: nat,
) -> BackendStatus
    decreases n,
{
    if n == 0 {
        s
    } else {
        next_status(
            after_failed_launches(s, ceiling, reason, (n - 1) as nat),
            ceiling,
            SupervisorEvent::LaunchFailed { reason },
        )
    }
}

/// Every transition keeps the counter within the ceiling.
pub proof fn lemma_transition_keeps_wf(s: BackendStatus, ceiling: u32, e: SupervisorEvent)
    requires
        status_wf(s, ceiling),
        reason_given(e),
    ensures
        status_wf(next_status(s, ceiling, e), ceiling),
{
}

/// Whatever the counter stood at below the ceiling, a crash of the worker followed by
/// a successful relaunch leaves it running with the new details and the counter at zero.
/// From a running worker the crash first moves to `Restarting` and asks for a launch.
pub proof fn lemma_crash_then_relaunch_resets(
    s: BackendStatus,
    ceiling: u32,
    info: HandshakePayload,
    now_secs: u64,
)
    requires
        status_wf(s, ceiling),
        s.restart_count < ceiling,
        s.state is Running || s.state is Restarting,
    ensures
        next_status(s, ceiling, SupervisorEvent::WorkerLost).state is Restarting,
        s.state is Running ==> next_action(s, ceiling, SupervisorEvent::WorkerLost)
            == SupervisorAction::Launch,
        ({
            let crashed = next_status(s, ceiling, SupervisorEvent::WorkerLost);
            let relaunched = next_status(
                crashed,
                ceiling,
                SupervisorEvent::HandshakeSucceeded { info, now_secs },
            );
            &&& relaunched.state == BackendState::Running(info)
            &&& relaunched.restart_count == 0
            &&& relaunched.last_heartbeat == Some(now_secs)
        }),
{
}

/// Before the ceiling, each failed launch leaves the supervisor `Restarting`
/// with the counter at the number of failures so far.
pub proof fn lemma_failures_below_ceiling(s: BackendStatus, ceiling: u32, reason: String, k: nat)
    requires
        status_wf(s, ceiling),
        reason@.len() > 0,
        is_launching(s.state),
        s.restart_count == 0,
        0 < k < ceiling,
    ensures
        after_failed_launches(s, ceiling, reason, k).state is Restarting,
        after_failed_launches(s, ceiling, reason, k).restart_count == k,
        next_action(
            after_failed_launches(s, ceiling, reason, (k - 1) as nat),
            ceiling,
            SupervisorEvent::LaunchFailed { reason },
        ) == (SupervisorAction::RetryAfter { delay_secs: k as u64 }),
    decreases k,
{
    if k > 1 {
        lemma_failures_below_ceiling(s, ceiling, reason, (k - 1) as nat);
    }
}

/// `ceiling` consecutive failed launches end in `Failed` with the last reason, and from
/// there no event that the supervisor raises itself launches again or changes the status.
pub proof fn lemma_ceiling_failures_are_terminal(
    s: BackendStatus,
    ceiling: u32,
    reason: String,
    e: SupervisorEvent,
)
    requires
        status_wf(s, ceiling),
        reason@.len() > 0,
        is_launching(s.state),
        s.restart_count == 0,
        is_automatic(e),
    ensures
        after_failed_launches(s, ceiling, reason, ceiling as nat).state == BackendState::Failed(
            reason,
        ),
        after_failed_launches(s, ceiling, reason, ceiling as nat).restart_count == ceiling,
        next_action(
            after_failed_launches(s, ceiling, reason, (ceiling - 1) as nat),
            ceiling,
            SupervisorEvent::LaunchFailed { reason },
        ) == SupervisorAction::Idle,
        next_action(after_failed_launches(s, ceiling, reason, ceiling as nat), ceiling, e)
            == SupervisorAction::Idle,
        next_status(after_failed_launches(s, ceiling, reason, ceiling as nat), ceiling, e)
            == after_failed_launches(s, ceiling, reason, ceiling as nat),
{
    if ceiling > 1 {
        lemma_failures_below_ceiling(s, ceiling, reason, (ceiling - 1) as nat);
    }
    assert(after_failed_launches(s, ceiling, reason, 0) == s);
}

/// With nothing to launch found, a start from rest ends in `Failed` with the reason
/// at once: the start asks for a launch, the failed discovery asks for nothing more,
/// and no later automatic event relaunches.
pub proof fn lemma_discovery_failure_on_start(
    s: BackendStatus,
    ceiling: u32,
    reason: String,
    e: SupervisorEvent,
)
    requires
        status_wf(s, ceiling),
        s.state is NotStarted,
        is_automatic(e),
    ensures
        next_action(s, ceiling, SupervisorEvent::StartRequested) == SupervisorAction::Launch,
        ({
            let started = next_status(s, ceiling, SupervisorEvent::StartRequested);
            let failed = next_status(started, ceiling, SupervisorEvent::DiscoveryFailed { reason });
            &&& failed.state == BackendState::Failed(reason)
            &&& next_action(started, ceiling, SupervisorEvent::DiscoveryFailed { reason })
                == SupervisorAction::Idle
            &&& next_action(failed, ceiling, e) == SupervisorAction::Idle
            &&& next_status(failed, ceiling, e) == failed
        }),
{
}

/// The single owner of the lifecycle state: every change goes through `handle`.
#[derive(Debug)]
pub struct BackendManager {
    status: BackendStatus,
    max_restart_attempts: u32,
}

impl BackendManager {
    pub closed spec fn status_spec(&self) -> BackendStatus {
        self.status
    }

    pub closed spec fn ceiling(&self) -> u32 {
        self.max_restart_attempts
    }

    pub open spec fn wf(&self) -> bool {
        status_wf(self.status_spec(), self.ceiling())
    }

    /// A store in `NotStarted`, giving up after `MAX_RESTART_ATTEMPTS` failed launches.
    pub fn new() -> (r: Self)
        ensures
            r.wf(),
            r.ceiling() == MAX_RESTART_ATTEMPTS,
            r.status_spec() == (BackendStatus {
                state: BackendState::NotStarted,
                last_heartbeat: None,
                restart_count: 0,
            }),
    {
        Self::with_max_restart_attempts(MAX_RESTART_ATTEMPTS)
    }

    /// A store in `NotStarted` that gives up after `max` failed launches.
    pub fn with_max_restart_attempts(max: u32) -> (r: Self)
        requires
            1 <= max,
        ensures
            r.wf(),
            r.ceiling() == max,
            r.status_spec() == (BackendStatus {
                state: BackendState::NotStarted,
                last_heartbeat: None,
                restart_count: 0,
            }),
    {
        BackendManager {
            status: BackendStatus {
                state: BackendState::NotStarted,
                last_heartbeat: None,
                restart_count: 0,
            },
            max_restart_attempts: max,
        }
    }

    /// A copy of the current status.
    pub fn get_status(&self) -> (r: BackendStatus)
        ensures
            r == self.status_spec(),
    {
        self.status.snapshot()
    }

    /// The running worker's port.
    pub fn get_backend_port(&self) -> (r: Result<u16, String>)
        ensures
            self.status_spec().state is Running ==> r == Ok::<u16, String>(
                self.status_spec().state->Running_0.port,
            ),
            !(self.status_spec().state is Running) ==> r is Err && r->Err_0@
                == "Backend is not running"@,
    {
        match &self.status.state {
            BackendState::Running(p) => Ok(p.port),
            _ => Err(String::from_str("Backend is not running")),
        }
    }

    /// The running worker's connection details.
    pub fn get_backend_info(&self) -> (r: Result<HandshakePayload, String>)
        ensures
            self.status_spec().state is Running ==> r == Ok::<HandshakePayload, String>(
                self.status_spec().state->Running_0,
            ),
            !(self.status_spec().state is Running) ==> r is Err && r->Err_0@
                == "Backend is not running"@,
    {
        match &self.status.state {
            BackendState::Running(p) => Ok(p.snapshot()),
            _ => Err(String::from_str("Backend is not running")),
        }
    }

    pub fn max_restart_attempts(&self) -> (r: u32)
        ensures
            r == self.ceiling(),
    {
        self.max_restart_attempts
    }

    /// Applies one event and says what the caller must do next. A failure with an
    /// empty reason is recorded as "Unknown error".
    pub fn handle(&mut self, event: SupervisorEvent) -> (a: SupervisorAction)
        requires
            old(self).wf(),
        ensures
            final(self).wf(),
            final(self).ceiling() == old(self).ceiling(),
            reason_given(event) ==> final(self).status_spec() == next_status(
                old(self).status_spec(),
                old(self).ceiling(),
                event,
            ),
            agrees(
                final(self).status_spec(),
                next_status(old(self).status_spec(), old(self).ceiling(), event),
            ),
            a == next_action(old(self).status_spec(), old(self).ceiling(), event),
    {
        match event {
            SupervisorEvent::StartRequested => {
                if self.status.state.is_active() {
                    SupervisorAction::Idle
                } else {
                    self.status.state = BackendState::Starting;
                    self.status.restart_count = 0;
                    SupervisorAction::Launch
                }
            },
            SupervisorEvent::RestartRequested => {
                self.status.state = BackendState::Starting;
                self.status.restart_count = 0;
                SupervisorAction::Launch
            },
            SupervisorEvent::HandshakeSucceeded { info, now_secs } => {
                if self.is_launching() {
                    self.status = BackendStatus {
                        state: BackendState::Running(info),
                        last_heartbeat: Some(now_secs),
                        restart_count: 0,
                    };
                }
                SupervisorAction::Idle
            },
            SupervisorEvent::LaunchFailed { reason } => {
                if self.is_launching() {
                    let attempts = self.status.restart_count + 1;
                    self.status.restart_count = attempts;
                    if attempts < self.max_restart_attempts {
                        self.status.state = BackendState::Restarting;
                        SupervisorAction::RetryAfter { delay_secs: attempts as u64 }
                    } else {
                        self.status.state = BackendState::Failed(failure_reason(reason));
                        SupervisorAction::Idle
                    }
                } else {
                    SupervisorAction::Idle
                }
            },
            SupervisorEvent::DiscoveryFailed { reason } => {
                if self.is_launching() {
                    self.status.state = BackendState::Failed(failure_reason(reason));
                }
                SupervisorAction::Idle
            },
            SupervisorEvent::WorkerLost => {
                if let BackendState::Running(_) = self.status.state {
                    self.status.state = BackendState::Restarting;
                    SupervisorAction::Launch
                } else {
                    SupervisorAction::Idle
                }
            },
            SupervisorEvent::HeartbeatOk { now_secs } => {
                if let BackendState::Running(_) = self.status.state {
                    self.status.last_heartbeat = Some(now_secs);
                }
                SupervisorAction::Idle
            },
            SupervisorEvent::RetryDue => {
                if let BackendState::Restarting = self.status.state {
                    SupervisorAction::Launch
                } else {
                    SupervisorAction::Idle
                }
            },
            SupervisorEvent::ShutdownRequested => {
                self.status = BackendStatus {
                    state: BackendState::NotStarted,
                    last_heartbeat: None,
                    restart_count: 0,
                };
                SupervisorAction::Terminate
            },
        }
    }

    fn is_launching(&self) -> (r: bool)
        ensures
            r == is_launching(self.status_spec().state),
    {
        match self.status.state {
            BackendState::Starting | BackendState::Restarting => true,
            _ => false,
        }
    }

    /// Asks for a start; nothing happens while the worker runs or starts.
    pub fn start_backend(&mut self) -> (a: SupervisorAction)
        requires
            old(self).wf(),
        ensures
            final(self).wf(),
            final(self).ceiling() == old(self).ceiling(),
            final(self).status_spec() == next_status(
                old(self).status_spec(),
                old(self).ceiling(),
                SupervisorEvent::StartRequested,
            ),
            a == next_action(
                old(self).status_spec(),
                old(self).ceiling(),
                SupervisorEvent::StartRequested,
            ),
    {
        self.handle(SupervisorEvent::StartRequested)
    }

    /// Asks for a fresh start with the counter cleared, whatever the current state.
    pub fn restart_backend(&mut self) -> (a: SupervisorAction)
        requires
            old(self).wf(),
        ensures
            final(self).wf(),
            final(self).ceiling() == old(self).ceiling(),
            final(self).status_spec() == next_status(
                old(self).status_spec(),
                old(self).ceiling(),
                SupervisorEvent::RestartRequested,
            ),
            a == SupervisorAction::Launch,
    {
        self.handle(SupervisorEvent::RestartRequested)
    }

    /// Reports that the worker exited or stopped answering.
    pub fn handle_backend_terminated(&mut self) -> (a: SupervisorAction)
        requires
            old(self).wf(),
        ensures
            final(self).wf(),
            final(self).ceiling() == old(self).ceiling(),
            final(self).status_spec() == next_status(
                old(self).status_spec(),
                old(self).ceiling(),
                SupervisorEvent::WorkerLost,
            ),
            a == next_action(old(self).status_spec(), old(self).ceiling(), SupervisorEvent::WorkerLost),
    {
        self.handle(SupervisorEvent::WorkerLost)
    }
}

} // verus!
