//! The API server and the resident worker, held in an explicit context object that the
//! application builds once and hands to whoever needs them.
use vstd::prelude::*;
use crate::heartbeat::ProcessProbe;
use crate::message::{data_text, decode_response, json_bool_at, json_document, json_text_at, json_u64_at};
use crate::rpc::{complete_spec, model_wf, response_outcome, PendingModel, PendingRequests};

verus! {

/// What a watchdog tick decides.
#[derive(Debug, Clone, Copy, PartialEq, Eq)]
pub enum WatchdogDecision {
    /// Shutdown was requested: leave the loop.
    Stop,
    /// The process is gone: start a new one.
    Restart,
    Continue,
}

pub open spec fn watchdog_spec(should_restart: bool, probe: ProcessProbe) -> WatchdogDecision {
    if !should_restart {
        WatchdogDecision::Stop
    } else if probe != ProcessProbe::StillRunning {
        WatchdogDecision::Restart
    } else {
        WatchdogDecision::Continue
    }
}

fn watchdog_tick(should_restart: bool, probe: ProcessProbe) -> (r: WatchdogDecision)
    ensures
        r == watchdog_spec(should_restart, probe),
{
    if !should_restart {
        WatchdogDecision::Stop
    } else if !probe.is_alive() {
        WatchdogDecision::Restart
    } else {
        WatchdogDecision::Continue
    }
}

/// Seconds a watchdog waits before its next check after a restart that failed to spawn.
pub const RESTART_FAILURE_PAUSE_SECS: u64 = 10;

/// Seconds to wait before the next check after a restart attempt: none when it spawned.
pub fn restart_pause(spawned: bool) -> (r: Option<u64>)
    ensures
        spawned ==> r is None,
        !spawned ==> r == Some(RESTART_FAILURE_PAUSE_SECS),
{
    if spawned {
        None
    } else {
        Some(RESTART_FAILURE_PAUSE_SECS)
    }
}

/// Health checks a freshly started API server gets, one second apart.
pub const API_READY_ATTEMPTS: u32 = 30;

/// What to do after one readiness check of a freshly started server.
#[derive(Debug, Clone, Copy, PartialEq, Eq)]
pub enum Readiness {
    Ready,
    /// Wait a second and check again.
    Retry,
    /// The server did not become ready in time.
    GiveUp,
}

/// After check number `attempt` (counted from 0): ready when the process lives and
/// answers its health check; otherwise another try while fewer than
/// `API_READY_ATTEMPTS` checks were made.
pub fn readiness(attempt: u32, alive: bool, healthy: bool) -> (r: Readiness)
    ensures
        alive && healthy ==> r == Readiness::Ready,
        !(alive && healthy) && attempt + 1 < API_READY_ATTEMPTS ==> r == Readiness::Retry,
        !(alive && healthy) && attempt + 1 >= API_READY_ATTEMPTS ==> r == Readiness::GiveUp,
{
    if alive && healthy {
        Readiness::Ready
    } else if attempt < API_READY_ATTEMPTS - 1 {
        Readiness::Retry
    } else {
        Readiness::GiveUp
    }
}

/// The HTTP API server's supervisor state: where it listens, and whether its
/// watchdog may still restart it.
#[derive(Debug)]
pub struct ApiManager {
    api_url: String,
    should_restart: bool,
}

impl ApiManager {
    pub closed spec fn url(&self) -> Seq<char> {
        self.api_url@
    }

    pub closed spec fn restarts_enabled(&self) -> bool {
        self.should_restart
    }

    /// A manager for a server listening at `api_url`, with its watchdog enabled.
    pub fn new(api_url: String) -> (r: Self)
        ensures
            r.url() == api_url@,
            r.restarts_enabled(),
    {
        ApiManager { api_url, should_restart: true }
    }

    /// The server's address on this host.
    pub fn local() -> (r: Self)
        ensures
            r.url() == "http://127.0.0.1:11017"@,
            r.restarts_enabled(),
    {
        Self::new(String::from_str("http://127.0.0.1:11017"))
    }

    pub fn get_api_url(&self) -> (r: &str)
        ensures
            r@ == self.url(),
    {
        self.api_url.as_str()
    }

    /// `{api_url}/health`: the server's health check.
    pub fn health_url(&self) -> (r: String)
        ensures
            r@ == self.url() + "/health"@,
    {
        self.api_url.clone().concat("/health")
    }

    /// `{api_url}/shutdown`: the server's graceful-stop request.
    pub fn shutdown_url(&self) -> (r: String)
        ensures
            r@ == self.url() + "/shutdown"@,
    {
        self.api_url.clone().concat("/shutdown")
    }

    /// Stops the watchdog; the caller then asks the server to stop and kills it.
    pub fn shutdown(&mut self) -> (r: Result<(), String>)
        ensures
            r is Ok,
            !final(self).restarts_enabled(),
            final(self).url() == old(self).url(),
    {
        self.should_restart = false;
        Ok(())
    }

    /// One watchdog tick, given what polling the process found.
    pub fn watchdog_decision(&self, probe: ProcessProbe) -> (r: WatchdogDecision)
        ensures
            r == watchdog_spec(self.restarts_enabled(), probe),
    {
        watchdog_tick(self.should_restart, probe)
    }
}

/// The outcome that a response document carries for its caller.
pub open spec fn outcome_of(doc: Seq<u8>, o: Result<String, String>) -> bool {
    if json_bool_at(doc, "/success"@) == Some(true) {
        o is Ok && o->Ok_0@ == data_text(doc)
    } else {
        match json_text_at(doc, "/error"@) {
            Some(t) => o is Err && o->Err_0@ == t,
            None => o is Err && o->Err_0@ == "Unknown error"@,
        }
    }
}

/// The resident worker's supervisor state: its watchdog switch and its in-flight requests.
#[derive(Debug)]
pub struct DaemonManager {
    should_restart: bool,
    requests: PendingRequests,
}

impl DaemonManager {
    pub closed spec fn restarts_enabled(&self) -> bool {
        self.should_restart
    }

    pub closed spec fn requests(&self) -> PendingModel {
        self.requests@
    }

    pub closed spec fn table_wf(&self) -> bool {
        self.requests.wf()
    }

    /// Ids are handed out from 1 up, and every pending id was handed out.
    pub open spec fn wf(&self) -> bool {
        self.table_wf() && model_wf(self.requests())
    }

    pub fn new() -> (r: Self)
        ensures
            r.wf(),
            r.restarts_enabled(),
            r.requests().next_id == 1,
            r.requests().pending == Set::<u64>::empty(),
    {
        DaemonManager { should_restart: true, requests: PendingRequests::new() }
    }

    /// Allocates the id of a command about to be written.
    pub fn begin_request(&mut self) -> (r: Option<u64>)
        requires
            old(self).wf(),
        ensures
            final(self).wf(),
            model_wf(final(self).requests()),
            (final(self).requests(), r) == crate::rpc::register_spec(old(self).requests()),
            final(self).restarts_enabled() == old(self).restarts_enabled(),
    {
        self.requests.register()
    }

    /// Routes a response line's id to its request, if that one is pending.
    pub fn finish_request(&mut self, response_id: Option<u64>) -> (r: Option<u64>)
        requires
            old(self).wf(),
        ensures
            final(self).wf(),
            (final(self).requests(), r) == crate::rpc::complete_spec(
                old(self).requests(),
                response_id,
            ),
            final(self).restarts_enabled() == old(self).restarts_enabled(),
    {
        self.requests.complete(response_id)
    }

    /// Handles one output line of the worker. A JSON line whose `id` names a pending
    /// request is delivered to it: that id, and the call's outcome (the `data` text when
    /// `success` is true, else the `error` text or "Unknown error"); the request stops
    /// being pending. Any other line, and every line that is not JSON, is dropped and
    /// changes nothing.
    pub fn route_response(&mut self, line: &[u8]) -> (r: Option<(u64, Result<String, String>)>)
        requires
            old(self).wf(),
        ensures
            final(self).wf(),
            final(self).restarts_enabled() == old(self).restarts_enabled(),
            r is Some <==> (json_document(line@) && json_u64_at(line@, "/id"@) is Some
                && old(self).requests().pending.contains(json_u64_at(line@, "/id"@)->0)),
            r is Some ==> (r->0).0 == json_u64_at(line@, "/id"@)->0 && outcome_of(
                line@,
                (r->0).1,
            ) && final(self).requests() == complete_spec(
                old(self).requests(),
                Some((r->0).0),
            ).0,
            r is None ==> final(self).requests() == old(self).requests(),
    {
        let response = match decode_response(line) {
            Some(response) => response,
            None => return None,
        };
        match self.requests.complete(response.id) {
            Some(id) => Some((id, response_outcome(response.success, response.data, response.error))),
            None => None,
        }
    }

    /// A new worker replaced the old one: the old one's requests will get no answer.
    /// Returns their ids; ids keep increasing across the replacement.
    pub fn replace_worker(&mut self) -> (cancelled: Vec<u64>)
        requires
            old(self).wf(),
        ensures
            final(self).wf(),
            cancelled@.to_set() == old(self).requests().pending,
            final(self).requests().pending == Set::<u64>::empty(),
            final(self).requests().next_id == old(self).requests().next_id,
            final(self).restarts_enabled() == old(self).restarts_enabled(),
    {
        self.requests.drain()
    }

    /// Stops the watchdog and cancels every pending request.
    pub fn shutdown(&mut self) -> (r: Result<(), String>)
        requires
            old(self).wf(),
        ensures
            final(self).wf(),
            r is Ok,
            !final(self).restarts_enabled(),
            final(self).requests().pending == Set::<u64>::empty(),
    {
        self.should_restart = false;
        let _cancelled = self.requests.drain();
        Ok(())
    }

    pub fn watchdog_decision(&self, probe: ProcessProbe) -> (r: WatchdogDecision)
        ensures
            r == watchdog_spec(self.restarts_enabled(), probe),
    {
        watchdog_tick(self.should_restart, probe)
    }
}

/// The managers of one application run; each is set at most once.
#[derive(Debug)]
pub struct BridgeContext {
    pub api: Option<ApiManager>,
    pub daemon: Option<DaemonManager>,
}

impl BridgeContext {
    pub open spec fn wf(&self) -> bool {
        self.daemon is Some ==> self.daemon->0.wf()
    }

    pub fn new() -> (r: Self)
        ensures
            r.wf(),
            r.api is None,
            r.daemon is None,
    {
        BridgeContext { api: None, daemon: None }
    }
}

/// Installs the API manager that the caller started; the first one installed stays.
/// A failed start is passed on and leaves the context as it was.
pub fn init_api_manager(ctx: &mut BridgeContext, started: Result<ApiManager, String>) -> (r:
    Result<(), String>)
    ensures
        started is Err ==> r == Err::<(), String>(started->Err_0) && *final(ctx) == *old(ctx),
        started is Ok ==> r is Ok && final(ctx).daemon == old(ctx).daemon && final(ctx).api == (
        if old(ctx).api is Some {
            old(ctx).api
        } else {
            Some(started->Ok_0)
        }),
{
    match started {
        Err(e) => Err(e),
        Ok(m) => {
            if ctx.api.is_none() {
                ctx.api = Some(m);
            }
            Ok(())
        },
    }
}

/// The API server's address, once a manager is installed.
pub fn get_api_url(ctx: &BridgeContext) -> (r: Result<String, String>)
    ensures
        ctx.api is Some ==> r is Ok && r->Ok_0@ == ctx.api->0.url(),
        ctx.api is None ==> r is Err && r->Err_0@ == "API manager not initialized"@,
{
    match &ctx.api {
        Some(m) => Ok(String::from_str(m.get_api_url())),
        None => Err(String::from_str("API manager not initialized")),
    }
}

/// Shuts the installed API manager down, if there is one.
pub fn shutdown_api_manager(ctx: &mut BridgeContext) -> (r: Result<(), String>)
    ensures
        r is Ok,
        final(ctx).daemon == old(ctx).daemon,
        final(ctx).api is Some == old(ctx).api is Some,
        final(ctx).api is Some ==> !final(ctx).api->0.restarts_enabled() && final(ctx).api->0.url()
            == old(ctx).api->0.url(),
{
    if let Some(m) = &mut ctx.api {
        m.shutdown()
    } else {
        Ok(())
    }
}

/// Installs the resident-worker manager that the caller started; the first one stays.
pub fn init_daemon(ctx: &mut BridgeContext, started: Result<DaemonManager, String>) -> (r: Result<
    (),
    String,
>)
    requires
        old(ctx).wf(),
        started is Ok ==> started->Ok_0.wf(),
    ensures
        final(ctx).wf(),
        started is Err ==> r == Err::<(), String>(started->Err_0) && *final(ctx) == *old(ctx),
        started is Ok ==> r is Ok && final(ctx).api == old(ctx).api && final(ctx).daemon == (
        if old(ctx).daemon is Some {
            old(ctx).daemon
        } else {
            Some(started->Ok_0)
        }),
{
    match started {
        Err(e) => Err(e),
        Ok(m) => {
            if ctx.daemon.is_none() {
                ctx.daemon = Some(m);
            }
            Ok(())
        },
    }
}

/// Shuts the installed resident-worker manager down, if there is one.
pub fn shutdown_daemon(ctx: &mut BridgeContext) -> (r: Result<(), String>)
    requires
        old(ctx).wf(),
    ensures
        final(ctx).wf(),
        r is Ok,
        final(ctx).api == old(ctx).api,
        final(ctx).daemon is Some == old(ctx).daemon is Some,
        final(ctx).daemon is Some ==> !final(ctx).daemon->0.restarts_enabled()
            && final(ctx).daemon->0.requests().pending == Set::<u64>::empty(),
{
    if let Some(m) = &mut ctx.daemon {
        m.shutdown()
    } else {
        Ok(())
    }
}

} // verus!
