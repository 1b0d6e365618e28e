//! The startup rendezvous: waiting for the worker's ready message within a deadline.
use vstd::prelude::*;
use crate::types::{ready_payload, HandshakeData, HandshakePayload};

verus! {

/// Milliseconds the worker has to announce itself.
pub const HANDSHAKE_TIMEOUT_MS: u64 = 30000;

/// Milliseconds the reader waits for one line before it looks at the clock again.
pub const HANDSHAKE_POLL_MS: u64 = 100;

/// What the reader observed on the worker's output since the last step.
#[derive(Debug)]
pub enum HandshakeInput {
    /// A `HANDSHAKE:` line, with its message if the JSON decoded.
    Announcement(Option<HandshakeData>),
    /// An `ERROR:` line whose JSON decoded, with its `error` text if it had one.
    StartupError(Option<String>),
    /// An `ERROR:` line whose JSON did not decode: the whole line, as text.
    UnparsedError(String),
    /// A heartbeat or diagnostic line.
    Other,
    /// No line arrived within the poll window.
    Quiet,
    /// The output stream ended: no recognised line can come any more.
    Closed,
    /// Reading the stream failed.
    ReadFailed(String),
}

/// Why a handshake did not succeed.
#[derive(Debug, Clone, PartialEq, Eq)]
pub enum HandshakeError {
    /// The deadline passed, or the output ended, without a recognised line.
    Timeout,
    /// A `HANDSHAKE:` line whose JSON did not decode.
    Malformed,
    /// The worker reported a startup error with this message.
    Reported(String),
    /// The worker wrote this `ERROR:` line, whose JSON did not decode.
    Unparsed(String),
    ReadFailed(String),
}

#[derive(Debug, Clone, PartialEq, Eq)]
pub enum HandshakeStep {
    Waiting,
    Ready(HandshakePayload),
    Failed(HandshakeError),
}

/// The text reported for a startup error that carried no message.
pub open spec fn unknown_error_text() -> Seq<char> {
    "Unknown error"@
}

pub fn unknown_error() -> (r: String)
    ensures
        r@ == unknown_error_text(),
{
    String::from_str("Unknown error")
}

/// One step of the handshake reader, `elapsed_ms` after the process was spawned.
/// At or past `timeout_ms` the handshake has timed out, whatever arrived; before it,
/// a ready announcement succeeds, an error line or a broken stream fails (an ended
/// stream as a timeout: nothing can arrive before the deadline any more), and every
/// other line, including an announcement that is not ready, keeps the reader waiting.
pub fn handshake_step(elapsed_ms: u64, timeout_ms: u64, input: HandshakeInput) -> (r: HandshakeStep)
    ensures
        elapsed_ms >= timeout_ms ==> r == HandshakeStep::Failed(HandshakeError::Timeout),
        elapsed_ms < timeout_ms ==> match input {
            HandshakeInput::Announcement(Some(d)) => match ready_payload(d) {
                Some(p) => r == HandshakeStep::Ready(p),
                None => r == HandshakeStep::Waiting,
            },
            HandshakeInput::Announcement(None) => r == HandshakeStep::Failed(
                HandshakeError::Malformed,
            ),
            HandshakeInput::StartupError(Some(m)) => r == HandshakeStep::Failed(
                HandshakeError::Reported(m),
            ),
            HandshakeInput::StartupError(None) => r is Failed && r->Failed_0 is Reported
                && r->Failed_0->Reported_0@ == unknown_error_text(),
            HandshakeInput::UnparsedError(l) => r == HandshakeStep::Failed(
                HandshakeError::Unparsed(l),
            ),
            HandshakeInput::Other => r == HandshakeStep::Waiting,
            HandshakeInput::Quiet => r == HandshakeStep::Waiting,
            HandshakeInput::Closed => r == HandshakeStep::Failed(HandshakeError::Timeout),
            HandshakeInput::ReadFailed(m) => r == HandshakeStep::Failed(
                HandshakeError::ReadFailed(m),
            ),
        },
{
    if elapsed_ms >= timeout_ms {
        return HandshakeStep::Failed(HandshakeError::Timeout);
    }
    match input {
        HandshakeInput::Announcement(Some(d)) => match d.into_backend_info() {
            Some(p) => HandshakeStep::Ready(p),
            None => HandshakeStep::Waiting,
        },
        HandshakeInput::Announcement(None) => HandshakeStep::Failed(HandshakeError::Malformed),
        HandshakeInput::StartupError(Some(m)) => HandshakeStep::Failed(HandshakeError::Reported(m)),
        HandshakeInput::StartupError(None) => HandshakeStep::Failed(
            HandshakeError::Reported(unknown_error()),
        ),
        HandshakeInput::UnparsedError(l) => HandshakeStep::Failed(HandshakeError::Unparsed(l)),
        HandshakeInput::Other | HandshakeInput::Quiet => HandshakeStep::Waiting,
        HandshakeInput::Closed => HandshakeStep::Failed(HandshakeError::Timeout),
        HandshakeInput::ReadFailed(m) => HandshakeStep::Failed(HandshakeError::ReadFailed(m)),
    }
}

impl HandshakeError {
    /// A one-line description, used as the reason of a failed launch; never empty.
    pub fn describe(&self) -> (r: String)
        ensures
            self is Reported ==> r@ == "Backend startup error: "@ + self->Reported_0@,
            self is Unparsed ==> r@ == "Backend reported error: "@ + self->Unparsed_0@,
            self is Timeout ==> r@ == "Handshake timeout: Backend did not respond within 30 seconds"@,
            self is Malformed ==> r@ == "Failed to parse handshake JSON"@,
            self is ReadFailed ==> r@ == "Failed to read line: "@ + self->ReadFailed_0@,
            r@.len() > 0,
    {
        proof {
            reveal_strlit("Backend startup error: ");
            reveal_strlit("Backend reported error: ");
            reveal_strlit("Handshake timeout: Backend did not respond within 30 seconds");
            reveal_strlit("Failed to parse handshake JSON");
            reveal_strlit("Failed to read line: ");
        }
        match self {
            HandshakeError::Timeout => String::from_str(
                "Handshake timeout: Backend did not respond within 30 seconds",
            ),
            HandshakeError::Malformed => String::from_str("Failed to parse handshake JSON"),
            HandshakeError::Reported(m) => String::from_str("Backend startup error: ").concat(
                m.as_str(),
            ),
            HandshakeError::Unparsed(l) => String::from_str("Backend reported error: ").concat(
                l.as_str(),
            ),
            HandshakeError::ReadFailed(m) => String::from_str("Failed to read line: ").concat(
                m.as_str(),
            ),
        }
    }
}

} // verus!
