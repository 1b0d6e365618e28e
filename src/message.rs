//! Decoding the JSON that the worker writes (handshake and startup-error messages after
//! their line prefix, response lines of the resident worker) and framing the commands
//! sent to it. What serde_json reads out of a text is named below; the message schemas
//! built on those readings are this module's own, verified logic.
use vstd::prelude::*;
use crate::handshake::HandshakeInput;
use crate::protocol::{after, classify_line, error_tag, handshake_tag, has_prefix, StdoutLine};
use crate::types::{decimal, decimal_text, digit_char, BackendEndpoints, HandshakeData};

verus! {

/// Whether serde_json accepts the bytes as one JSON document: whitespace may surround
/// it, nothing else may follow it, and it nests at most 128 levels deep.
pub uninterp spec fn json_document(doc: Seq<u8>) -> bool;

/// Whether the document has a value at the JSON pointer (`/a/b`), `null` included.
pub uninterp spec fn json_present_at(doc: Seq<u8>, pointer: Seq<char>) -> bool;

/// Whether the value at the pointer is `null`.
pub uninterp spec fn json_null_at(doc: Seq<u8>, pointer: Seq<char>) -> bool;

/// The text of the string at the pointer.
pub uninterp spec fn json_text_at(doc: Seq<u8>, pointer: Seq<char>) -> Option<Seq<char>>;

/// The number at the pointer, when it is a `u64`.
pub uninterp spec fn json_u64_at(doc: Seq<u8>, pointer: Seq<char>) -> Option<u64>;

/// The boolean at the pointer.
pub uninterp spec fn json_bool_at(doc: Seq<u8>, pointer: Seq<char>) -> Option<bool>;

/// The value at the pointer, written back as compact JSON text.
pub uninterp spec fn json_display_at(doc: Seq<u8>, pointer: Seq<char>) -> Option<Seq<char>>;

/// A lowercase hexadecimal digit.
pub open spec fn hex_digit(d: nat) -> char {
    if d < 10 {
        digit_char(d)
    } else if d == 10 {
        'a'
    } else if d == 11 {
        'b'
    } else if d == 12 {
        'c'
    } else if d == 13 {
        'd'
    } else if d == 14 {
        'e'
    } else {
        'f'
    }
}

/// How one character is written inside a JSON string: `"` and `\` behind a
/// backslash; backspace, tab, line feed, form feed and carriage return as `\b \t \n
/// \f \r`; the other characters below U+0020 as `\u00xx` in lowercase hex; every
/// other character as itself.
pub open spec fn json_escape_char(c: char) -> Seq<char> {
    if c == '"' {
        seq!['\\', '"']
    } else if c == '\\' {
        seq!['\\', '\\']
    } else if c == '\u{8}' {
        seq!['\\', 'b']
    } else if c == '\t' {
        seq!['\\', 't']
    } else if c == '\n' {
        seq!['\\', 'n']
    } else if c == '\u{c}' {
        seq!['\\', 'f']
    } else if c == '\r' {
        seq!['\\', 'r']
    } else if (c as u32) < 0x20 {
        seq!['\\', 'u', '0', '0', hex_digit((c as u32 / 16) as nat), hex_digit((c as u32 % 16) as nat)]
    } else {
        seq![c]
    }
}

pub open spec fn json_escaped(text: Seq<char>) -> Seq<char>
    decreases text.len(),
{
    if text.len() == 0 {
        Seq::empty()
    } else {
        json_escaped(text.drop_last()) + json_escape_char(text.last())
    }
}

/// The JSON string literal for a text: its escaped characters between quote marks.
pub open spec fn json_quoted(text: Seq<char>) -> Seq<char> {
    seq!['"'] + json_escaped(text) + seq!['"']
}

/// The bytes read as UTF-8, each invalid sequence replaced by U+FFFD.
pub uninterp spec fn utf8_lossy(bytes: Seq<u8>) -> Seq<char>;

/// Relies on `serde_json::from_slice::<serde_json::Value>`: whether it accepts the bytes,
/// which depends on the bytes alone.
#[verifier::external_body]
fn is_json_document(doc: &[u8]) -> (r: bool)
    ensures
        r == json_document(doc@),
{
    serde_json::from_slice::<serde_json::Value>(doc).is_ok()
}

/// Relies on `serde_json::from_slice::<Value>` and `Value::pointer`: whether the
/// pointer reaches a value.
#[verifier::external_body]
fn present_at(doc: &[u8], pointer: &str) -> (r: bool)
    ensures
        r == json_present_at(doc@, pointer@),
        r ==> json_document(doc@),
{
    match serde_json::from_slice::<serde_json::Value>(doc) {
        Ok(v) => v.pointer(pointer).is_some(),
        Err(_) => false,
    }
}

/// Relies on `serde_json::from_slice::<Value>`, `Value::pointer` and `Value::is_null`.
#[verifier::external_body]
fn null_at(doc: &[u8], pointer: &str) -> (r: bool)
    ensures
        r == json_null_at(doc@, pointer@),
        r ==> json_document(doc@),
{
    match serde_json::from_slice::<serde_json::Value>(doc) {
        Ok(v) => v.pointer(pointer).map_or(false, serde_json::Value::is_null),
        Err(_) => false,
    }
}

/// Relies on `serde_json::from_slice::<Value>`, `Value::pointer` and `Value::as_str`.
#[verifier::external_body]
fn text_at(doc: &[u8], pointer: &str) -> (r: Option<String>)
    ensures
        r is Some == json_text_at(doc@, pointer@) is Some,
        r is Some ==> r->0@ == json_text_at(doc@, pointer@)->0 && json_document(doc@),
{
    let v: serde_json::Value = serde_json::from_slice(doc).ok()?;
    let s = v.pointer(pointer)?.as_str()?;
    Some(s.to_string())
}

/// Relies on `serde_json::from_slice::<Value>`, `Value::pointer` and `Value::as_u64`.
#[verifier::external_body]
fn u64_at(doc: &[u8], pointer: &str) -> (r: Option<u64>)
    ensures
        r == json_u64_at(doc@, pointer@),
        r is Some ==> json_document(doc@),
{
    let v: serde_json::Value = serde_json::from_slice(doc).ok()?;
    v.pointer(pointer)?.as_u64()
}

/// Relies on `serde_json::from_slice::<Value>`, `Value::pointer` and `Value::as_bool`.
#[verifier::external_body]
fn bool_at(doc: &[u8], pointer: &str) -> (r: Option<bool>)
    ensures
        r == json_bool_at(doc@, pointer@),
        r is Some ==> json_document(doc@),
{
    let v: serde_json::Value = serde_json::from_slice(doc).ok()?;
    v.pointer(pointer)?.as_bool()
}

/// Relies on `serde_json::from_slice::<Value>`, `Value::pointer` and `Value`'s
/// `Display`, which writes compact JSON.
#[verifier::external_body]
fn display_at(doc: &[u8], pointer: &str) -> (r: Option<String>)
    ensures
        r is Some == json_display_at(doc@, pointer@) is Some,
        r is Some ==> r->0@ == json_display_at(doc@, pointer@)->0 && json_document(doc@),
{
    let v: serde_json::Value = serde_json::from_slice(doc).ok()?;
    Some(v.pointer(pointer)?.to_string())
}

/// Relies on `serde_json::to_string::<str>`, which cannot fail on a string and escapes
/// as its `ESCAPE` table and `write_char_escape` say.
#[verifier::external_body]
fn quoted(text: &str) -> (r: String)
    ensures
        r@ == json_quoted(text@),
{
    serde_json::to_string(text).unwrap_or_default()
}

/// Relies on `String::from_utf8_lossy`.
#[verifier::external_body]
pub fn lossy_text(bytes: &[u8]) -> (r: String)
    ensures
        r@ == utf8_lossy(bytes@),
{
    String::from_utf8_lossy(bytes).into_owned()
}

pub open spec fn opt_view(o: Option<String>) -> Option<Seq<char>> {
    match o {
        Some(s) => Some(s@),
        None => None,
    }
}

/// An optional string member: a string, `null`, or absent.
pub open spec fn optional_text_ok(doc: Seq<u8>, pointer: Seq<char>) -> bool {
    json_text_at(doc, pointer) is Some || !json_present_at(doc, pointer) || json_null_at(
        doc,
        pointer,
    )
}

/// The optional port: a number of at most 16 bits, `null`, or absent.
pub open spec fn port_ok(doc: Seq<u8>) -> bool {
    match json_u64_at(doc, "/port"@) {
        Some(n) => n <= 65535,
        None => !json_present_at(doc, "/port"@) || json_null_at(doc, "/port"@),
    }
}

/// The optional `endpoints` member: an object with two strings, `null`, or absent.
pub open spec fn endpoints_ok(doc: Seq<u8>) -> bool {
    (json_text_at(doc, "/endpoints/health"@) is Some && json_text_at(doc, "/endpoints/shutdown"@)
        is Some) || !json_present_at(doc, "/endpoints"@) || json_null_at(doc, "/endpoints"@)
}

/// A handshake or startup-error message decodes when it is JSON, `type` and `status`
/// are strings, and every optional member has its kind.
pub open spec fn handshake_decodes(doc: Seq<u8>) -> bool {
    &&& json_document(doc)
    &&& json_text_at(doc, "/type"@) is Some
    &&& json_text_at(doc, "/status"@) is Some
    &&& optional_text_ok(doc, "/host"@)
    &&& port_ok(doc)
    &&& optional_text_ok(doc, "/api_base"@)
    &&& endpoints_ok(doc)
    &&& optional_text_ok(doc, "/error"@)
}

/// `h` holds exactly the members of the message `doc`.
pub open spec fn decoded_as(doc: Seq<u8>, h: HandshakeData) -> bool {
    &&& json_text_at(doc, "/type"@) == Some(h.message_type@)
    &&& json_text_at(doc, "/status"@) == Some(h.status@)
    &&& opt_view(h.host) == json_text_at(doc, "/host"@)
    &&& h.port == match json_u64_at(doc, "/port"@) {
        Some(n) => Some(n as u16),
        None => None,
    }
    &&& opt_view(h.api_base) == json_text_at(doc, "/api_base"@)
    &&& match h.endpoints {
        Some(e) => json_text_at(doc, "/endpoints/health"@) == Some(e.health@) && json_text_at(
            doc,
            "/endpoints/shutdown"@,
        ) == Some(e.shutdown@),
        None => json_text_at(doc, "/endpoints/health"@) is None || json_text_at(
            doc,
            "/endpoints/shutdown"@,
        ) is None,
    }
    &&& opt_view(h.error) == json_text_at(doc, "/error"@)
}

/// An optional string member: `Err` when present with another kind.
fn optional_text(doc: &[u8], pointer: &str) -> (r: Result<Option<String>, ()>)
    ensures
        r is Ok == optional_text_ok(doc@, pointer@),
        r is Ok ==> opt_view(r->Ok_0) == json_text_at(doc@, pointer@),
{
    match text_at(doc, pointer) {
        Some(t) => Ok(Some(t)),
        None => if !present_at(doc, pointer) || null_at(doc, pointer) {
            Ok(None)
        } else {
            Err(())
        },
    }
}

fn optional_port(doc: &[u8]) -> (r: Result<Option<u16>, ()>)
    ensures
        r is Ok == port_ok(doc@),
        r is Ok ==> r->Ok_0 == match json_u64_at(doc@, "/port"@) {
            Some(n) => Some(n as u16),
            None => None,
        },
{
    match u64_at(doc, "/port") {
        Some(n) => if n <= 65535 {
            Ok(Some(n as u16))
        } else {
            Err(())
        },
        None => if !present_at(doc, "/port") || null_at(doc, "/port") {
            Ok(None)
        } else {
            Err(())
        },
    }
}

fn optional_endpoints(doc: &[u8]) -> (r: Result<Option<BackendEndpoints>, ()>)
    ensures
        r is Ok == endpoints_ok(doc@),
        r is Ok ==> match r->Ok_0 {
            Some(e) => json_text_at(doc@, "/endpoints/health"@) == Some(e.health@) && json_text_at(
                doc@,
                "/endpoints/shutdown"@,
            ) == Some(e.shutdown@),
            None => json_text_at(doc@, "/endpoints/health"@) is None || json_text_at(
                doc@,
                "/endpoints/shutdown"@,
            ) is None,
        },
{
    match (text_at(doc, "/endpoints/health"), text_at(doc, "/endpoints/shutdown")) {
        (Some(health), Some(shutdown)) => Ok(Some(BackendEndpoints { health, shutdown })),
        _ => if !present_at(doc, "/endpoints") || null_at(doc, "/endpoints") {
            Ok(None)
        } else {
            Err(())
        },
    }
}

/// Decodes a handshake or startup-error message: `type` and `status` are required
/// strings; `host`, `api_base`, `error` optional strings; `port` an optional 16-bit
/// number; `endpoints` an optional object with `health` and `shutdown` strings.
pub fn decode_handshake(json: &[u8]) -> (r: Option<HandshakeData>)
    ensures
        r is Some <==> handshake_decodes(json@),
        r is Some ==> decoded_as(json@, r->0),
{
    if !is_json_document(json) {
        return None;
    }
    let message_type = match text_at(json, "/type") {
        Some(t) => t,
        None => return None,
    };
    let status = match text_at(json, "/status") {
        Some(t) => t,
        None => return None,
    };
    match (
        optional_text(json, "/host"),
        optional_port(json),
        optional_text(json, "/api_base"),
        optional_endpoints(json),
        optional_text(json, "/error"),
    ) {
        (Ok(host), Ok(port), Ok(api_base), Ok(endpoints), Ok(error)) => Some(
            HandshakeData { message_type, status, host, port, api_base, endpoints, error },
        ),
        _ => None,
    }
}

/// Decodes a startup-error message `{"error": string}`: its `error` text.
pub fn decode_error_message(json: &[u8]) -> (r: Option<String>)
    ensures
        opt_view(r) == json_text_at(json@, "/error"@),
        r is Some ==> json_document(json@),
{
    text_at(json, "/error")
}

/// What one stdout line means to the handshake reader: the decoded message of a
/// `HANDSHAKE:` line; for an `ERROR:` line, the `error` text of its JSON, or the whole
/// line when the JSON does not decode; for any other line, nothing of note.
pub fn handshake_input(line: &[u8]) -> (r: HandshakeInput)
    ensures
        has_prefix(line@, handshake_tag()) ==> ({
            let doc = after(line@, handshake_tag().len());
            &&& r is Announcement
            &&& r->Announcement_0 is Some <==> handshake_decodes(doc)
            &&& r->Announcement_0 is Some ==> decoded_as(doc, r->Announcement_0->0)
        }),
        !has_prefix(line@, handshake_tag()) && has_prefix(line@, error_tag()) ==> ({
            let doc = after(line@, error_tag().len());
            &&& json_document(doc) ==> r is StartupError && opt_view(r->StartupError_0)
                == json_text_at(doc, "/error"@)
            &&& !json_document(doc) ==> r is UnparsedError && r->UnparsedError_0@ == utf8_lossy(
                line@,
            )
        }),
        !has_prefix(line@, handshake_tag()) && !has_prefix(line@, error_tag()) ==> r
            == HandshakeInput::Other,
{
    match classify_line(line) {
        StdoutLine::Handshake(json) => HandshakeInput::Announcement(decode_handshake(json.as_slice())),
        StdoutLine::Error(json) => if is_json_document(json.as_slice()) {
            HandshakeInput::StartupError(decode_error_message(json.as_slice()))
        } else {
            HandshakeInput::UnparsedError(lossy_text(line))
        },
        StdoutLine::Heartbeat | StdoutLine::Diagnostic => HandshakeInput::Other,
    }
}

/// One response line of the resident worker, as far as it was understood.
#[derive(Debug, Clone, PartialEq, Eq)]
pub struct ResponseLine {
    /// The id of the request it answers.
    pub id: Option<u64>,
    pub success: Option<bool>,
    /// The `data` member as JSON text; `null` when absent.
    pub data: String,
    pub error: Option<String>,
}

/// The `data` member of a response as JSON text, `null` when absent.
pub open spec fn data_text(doc: Seq<u8>) -> Seq<char> {
    match json_display_at(doc, "/data"@) {
        Some(t) => t,
        None => "null"@,
    }
}

/// Decodes a response line: any JSON document is read, its `id`, `success`, `data` and
/// `error` members taken where they have the right kind. Text that is not JSON is dropped.
pub fn decode_response(line: &[u8]) -> (r: Option<ResponseLine>)
    ensures
        r is Some == json_document(line@),
        r is Some ==> ({
            let resp = r->0;
            &&& resp.id == json_u64_at(line@, "/id"@)
            &&& resp.success == json_bool_at(line@, "/success"@)
            &&& resp.data@ == data_text(line@)
            &&& opt_view(resp.error) == json_text_at(line@, "/error"@)
        }),
{
    if !is_json_document(line) {
        return None;
    }
    let data = match display_at(line, "/data") {
        Some(t) => t,
        None => String::from_str("null"),
    };
    Some(
        ResponseLine {
            id: u64_at(line, "/id"),
            success: bool_at(line, "/success"),
            data,
            error: text_at(line, "/error"),
        },
    )
}

/// The command line for request `id`: `{"id":<id>,"type":<command>,"params":<params>}`,
/// where `params_json` is the parameters' JSON text.
pub fn encode_command(id: u64, command_type: &str, params_json: &str) -> (r: String)
    ensures
        r@ == "{\"id\":"@ + decimal(id as nat) + ",\"type\":"@ + json_quoted(command_type@)
            + ",\"params\":"@ + params_json@ + "}"@,
{
    String::from_str("{\"id\":").concat(decimal_text(id).as_str()).concat(",\"type\":").concat(
        quoted(command_type).as_str(),
    ).concat(",\"params\":").concat(params_json).concat("}")
}

} // verus!
