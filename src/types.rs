//! The supervisor's data model: connection details, lifecycle state and status snapshots.
use vstd::prelude::*;

verus! {

/// Paths, relative to `api_base`, of the worker's health and shutdown endpoints.
#[derive(Debug, Clone, PartialEq, Eq)]
pub struct BackendEndpoints {
    pub health: String,
    pub shutdown: String,
}

/// What a successful handshake announces: where the worker listens.
#[derive(Debug, Clone, PartialEq, Eq)]
pub struct HandshakePayload {
    pub host: String,
    pub port: u16,
    pub api_base: String,
    pub endpoints: BackendEndpoints,
}

/// The connection details of a running worker; the same record as the handshake's.
pub type BackendInfo = HandshakePayload;

/// Lifecycle of the worker. Exactly one value is current; only transitions change it.
#[derive(Debug, Clone, PartialEq, Eq)]
pub enum BackendState {
    NotStarted,
    Starting,
    Running(HandshakePayload),
    Failed(String),
    Restarting,
}

/// A copy of the status store, as handed to observers.
#[derive(Debug, Clone, PartialEq, Eq)]
pub struct BackendStatus {
    pub state: BackendState,
    /// Seconds since the Unix epoch of the last sign of life.
    pub last_heartbeat: Option<u64>,
    pub restart_count: u32,
}

/// The fields of a handshake or startup-error message, as decoded from its JSON.
#[derive(Debug, Clone, PartialEq, Eq)]
pub struct HandshakeData {
    pub message_type: String,
    pub status: String,
    pub host: Option<String>,
    pub port: Option<u16>,
    pub api_base: Option<String>,
    pub endpoints: Option<BackendEndpoints>,
    pub error: Option<String>,
}

/// The record a handshake message yields: present only when it says
/// `type` "handshake", `status` "ready" and carries every connection field.
pub open spec fn ready_payload(d: HandshakeData) -> Option<HandshakePayload> {
    if d.message_type@ == "handshake"@ && d.status@ == "ready"@ && d.host is Some
        && d.port is Some && d.api_base is Some && d.endpoints is Some {
        Some(
            HandshakePayload {
                host: d.host->0,
                port: d.port->0,
                api_base: d.api_base->0,
                endpoints: d.endpoints->0,
            },
        )
    } else {
        None
    }
}

impl HandshakeData {
    /// The connection details, when this message announces readiness.
    pub fn into_backend_info(self) -> (r: Option<BackendInfo>)
        ensures
            r == ready_payload(self),
    {
        let kind = String::from_str("handshake");
        let ready = String::from_str("ready");
        if self.message_type == kind && self.status == ready {
            match (self.host, self.port, self.api_base, self.endpoints) {
                (Some(host), Some(port), Some(api_base), Some(endpoints)) => Some(
                    HandshakePayload { host, port, api_base, endpoints },
                ),
                _ => None,
            }
        } else {
            None
        }
    }
}

impl BackendEndpoints {
    pub fn snapshot(&self) -> (r: BackendEndpoints)
        ensures
            r == *self,
    {
        BackendEndpoints { health: self.health.clone(), shutdown: self.shutdown.clone() }
    }
}

impl HandshakePayload {
    pub fn snapshot(&self) -> (r: HandshakePayload)
        ensures
            r == *self,
    {
        HandshakePayload {
            host: self.host.clone(),
            port: self.port,
            api_base: self.api_base.clone(),
            endpoints: self.endpoints.snapshot(),
        }
    }

    /// `{api_base}{health}`: the address of the liveness probe.
    pub fn health_url(&self) -> (r: String)
        ensures
            r@ == self.api_base@ + self.endpoints.health@,
    {
        self.api_base.clone().concat(self.endpoints.health.as_str())
    }

    /// `{api_base}{shutdown}`: the address of the graceful-stop request.
    pub fn shutdown_url(&self) -> (r: String)
        ensures
            r@ == self.api_base@ + self.endpoints.shutdown@,
    {
        self.api_base.clone().concat(self.endpoints.shutdown.as_str())
    }
}

impl BackendState {
    pub fn snapshot(&self) -> (r: BackendState)
        ensures
            r == *self,
    {
        match self {
            BackendState::NotStarted => BackendState::NotStarted,
            BackendState::Starting => BackendState::Starting,
            BackendState::Running(p) => BackendState::Running(p.snapshot()),
            BackendState::Failed(m) => BackendState::Failed(m.clone()),
            BackendState::Restarting => BackendState::Restarting,
        }
    }

    /// Running or starting: a start request has nothing to do.
    pub fn is_active(&self) -> (r: bool)
        ensures
            r == (self is Running || self is Starting),
    {
        match self {
            BackendState::Running(_) | BackendState::Starting => true,
            _ => false,
        }
    }
}

impl BackendStatus {
    pub fn snapshot(&self) -> (r: BackendStatus)
        ensures
            r == *self,
    {
        BackendStatus {
            state: self.state.snapshot(),
            last_heartbeat: self.last_heartbeat,
            restart_count: self.restart_count,
        }
    }

    /// The port of the running worker.
    pub fn running_port(&self) -> (r: Option<u16>)
        ensures
            r == (if self.state is Running { Some(self.state->Running_0.port) } else { None }),
    {
        match &self.state {
            BackendState::Running(p) => Some(p.port),
            _ => None,
        }
    }
}

/// The decimal digit for `d`.
pub open spec fn digit_char(d: nat) -> char {
    if d == 0 { '0' } else if d == 1 { '1' } else if d == 2 { '2' } else if d == 3 { '3' }
    else if d == 4 { '4' } else if d == 5 { '5' } else if d == 6 { '6' } else if d == 7 { '7' }
    else if d == 8 { '8' } else { '9' }
}

/// `n` written in decimal, without leading zeros.
pub open spec fn decimal(n: nat) -> Seq<char>
    decreases n,
{
    if n < 10 {
        seq![digit_char(n)]
    } else {
        decimal(n / 10).push(digit_char(n % 10))
    }
}

fn digit_text(d: u64) -> (r: &'static str)
    requires
        d < 10,
    ensures
        r@ == seq![digit_char(d as nat)],
{
    proof {
        reveal_strlit("0");
        reveal_strlit("1");
        reveal_strlit("2");
        reveal_strlit("3");
        reveal_strlit("4");
        reveal_strlit("5");
        reveal_strlit("6");
        reveal_strlit("7");
        reveal_strlit("8");
        reveal_strlit("9");
    }
    let r = if d == 0 { "0" } else if d == 1 { "1" } else if d == 2 { "2" } else if d == 3 { "3" }
    else if d == 4 { "4" } else if d == 5 { "5" } else if d == 6 { "6" } else if d == 7 { "7" }
    else if d == 8 { "8" } else { "9" };
    assert(r@ =~= seq![digit_char(d as nat)]);
    r
}

/// `n` in decimal.
pub fn decimal_text(n: u64) -> (r: String)
    ensures
        r@ == decimal(n as nat),
    decreases n,
{
    if n < 10 {
        String::from_str(digit_text(n))
    } else {
        let r = decimal_text(n / 10).concat(digit_text(n % 10));
        assert(r@ =~= decimal(n as nat));
        r
    }
}

/// The one-line status text: where a running worker listens, or its phase.
pub open spec fn status_text(s: BackendState) -> Seq<char> {
    match s {
        BackendState::Running(p) => "Running at "@ + p.host@ + ":"@ + decimal(p.port as nat),
        BackendState::Starting | BackendState::Restarting => "Starting..."@,
        _ => "Stopped"@,
    }
}

impl BackendState {
    pub fn describe(&self) -> (r: String)
        ensures
            r@ == status_text(*self),
    {
        match self {
            BackendState::Running(p) => String::from_str("Running at ").concat(p.host.as_str()).concat(
                ":",
            ).concat(decimal_text(p.port as u64).as_str()),
            BackendState::Starting | BackendState::Restarting => String::from_str("Starting..."),
            _ => String::from_str("Stopped"),
        }
    }
}

/// How the worker is launched: a compiled binary, or a script under an interpreter.
/// Paths are `/`-separated and relative to the launcher's working directory unless absolute.
#[derive(Debug, Clone, PartialEq, Eq)]
pub enum BackendType {
    PythonScript { python_path: String, script_path: String },
    Binary { binary_path: String },
}

} // verus!
