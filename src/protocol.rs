//! Framing of the worker's line protocol on its standard streams.
use vstd::prelude::*;

verus! {

/// `HANDSHAKE:` — the worker announces that it is ready.
pub open spec fn handshake_tag() -> Seq<u8> {
    seq![72u8, 65u8, 78u8, 68u8, 83u8, 72u8, 65u8, 75u8, 69u8, 58u8]
}

/// `ERROR:` — the worker reports that it could not start.
pub open spec fn error_tag() -> Seq<u8> {
    seq![69u8, 82u8, 82u8, 79u8, 82u8, 58u8]
}

/// `HEARTBEAT` — a bare liveness token pushed by the worker.
pub open spec fn heartbeat_token() -> Seq<u8> {
    seq![72u8, 69u8, 65u8, 82u8, 84u8, 66u8, 69u8, 65u8, 84u8]
}

/// `HEARTBEAT_ACK` — the acknowledgement written back on the worker's input.
pub open spec fn heartbeat_ack_token() -> Seq<u8> {
    heartbeat_token() + seq![95u8, 65u8, 67u8, 75u8]
}

pub open spec fn has_prefix(line: Seq<u8>, tag: Seq<u8>) -> bool {
    tag.len() <= line.len() && line.subrange(0, tag.len() as int) == tag
}

/// The bytes of `line` after its first `n` bytes.
pub open spec fn after(line: Seq<u8>, n: nat) -> Seq<u8> {
    line.subrange(n as int, line.len() as int)
}

/// A line that carries meaning in the protocol; every other line is diagnostic output.
pub open spec fn is_protocol_line(line: Seq<u8>) -> bool {
    has_prefix(line, handshake_tag()) || has_prefix(line, error_tag()) || line == heartbeat_token()
}

/// One line read from the worker's standard output, by what it means.
#[derive(Debug)]
pub enum StdoutLine {
    /// The JSON text that follows `HANDSHAKE:`.
    Handshake(Vec<u8>),
    /// The JSON text that follows `ERROR:`.
    Error(Vec<u8>),
    Heartbeat,
    /// Anything else: logged by the caller, otherwise without effect.
    Diagnostic,
}

fn handshake_tag_bytes() -> (r: Vec<u8>)
    ensures
        r@ == handshake_tag(),
{
    let r = vec![72u8, 65u8, 78u8, 68u8, 83u8, 72u8, 65u8, 75u8, 69u8, 58u8];
    assert(r@ =~= handshake_tag());
    r
}

fn error_tag_bytes() -> (r: Vec<u8>)
    ensures
        r@ == error_tag(),
{
    let r = vec![69u8, 82u8, 82u8, 79u8, 82u8, 58u8];
    assert(r@ =~= error_tag());
    r
}

fn heartbeat_token_bytes() -> (r: Vec<u8>)
    ensures
        r@ == heartbeat_token(),
{
    let r = vec![72u8, 69u8, 65u8, 82u8, 84u8, 66u8, 69u8, 65u8, 84u8];
    assert(r@ =~= heartbeat_token());
    r
}

/// The line that acknowledges a heartbeat, without its line terminator.
pub fn heartbeat_ack_line() -> (r: Vec<u8>)
    ensures
        r@ == heartbeat_ack_token(),
{
    let r = vec![72u8, 69u8, 65u8, 82u8, 84u8, 66u8, 69u8, 65u8, 84u8, 95u8, 65u8, 67u8, 75u8];
    assert(r@ =~= heartbeat_ack_token());
    r
}

/// Whether `line` begins with the bytes of `tag`.
pub fn starts_with(line: &[u8], tag: &[u8]) -> (r: bool)
    ensures
        r == has_prefix(line@, tag@),
{
    if tag.len() > line.len() {
        return false;
    }
    let mut i: usize = 0;
    while i < tag.len()
        invariant
            tag@.len() <= line@.len(),
            0 <= i <= tag@.len(),
            forall|j: int| 0 <= j < i ==> line@[j] == tag@[j],
        decreases tag@.len() - i,
    {
        if line[i] != tag[i] {
            assert(line@.subrange(0, tag@.len() as int)[i as int] != tag@[i as int]);
            return false;
        }
        i += 1;
    }
    assert(line@.subrange(0, tag@.len() as int) =~= tag@);
    true
}

/// Whether two byte strings are equal.
pub fn bytes_equal(a: &[u8], b: &[u8]) -> (r: bool)
    ensures
        r == (a@ == b@),
{
    if a.len() != b.len() {
        return false;
    }
    let r = starts_with(a, b);
    assert(a@ =~= a@.subrange(0, b@.len() as int));
    r
}

/// The bytes of `line` from index `start` on.
fn tail_from(line: &[u8], start: usize) -> (r: Vec<u8>)
    requires
        start <= line@.len(),
    ensures
        r@ == after(line@, start as nat),
{
    let mut r: Vec<u8> = Vec::new();
    let mut i: usize = start;
    while i < line.len()
        invariant
            start <= i <= line@.len(),
            r@ == line@.subrange(start as int, i as int),
        decreases line@.len() - i,
    {
        r.push(line[i]);
        i += 1;
        assert(r@ =~= line@.subrange(start as int, i as int));
    }
    r
}

/// Sorts one stdout line of the worker by the protocol's prefixes and tokens.
/// A `HANDSHAKE:` prefix wins over `ERROR:`; the heartbeat token must be the whole line.
pub fn classify_line(line: &[u8]) -> (r: StdoutLine)
    ensures
        (r is Handshake) == has_prefix(line@, handshake_tag()),
        (r is Error) == (!has_prefix(line@, handshake_tag()) && has_prefix(line@, error_tag())),
        (r is Heartbeat) == (!has_prefix(line@, handshake_tag()) && !has_prefix(line@, error_tag())
            && line@ == heartbeat_token()),
        (r is Diagnostic) == !is_protocol_line(line@),
        r is Handshake ==> r->Handshake_0@ == after(line@, handshake_tag().len()),
        r is Error ==> r->Error_0@ == after(line@, error_tag().len()),
{
    let hs = handshake_tag_bytes();
    if starts_with(line, hs.as_slice()) {
        return StdoutLine::Handshake(tail_from(line, hs.len()));
    }
    let er = error_tag_bytes();
    if starts_with(line, er.as_slice()) {
        return StdoutLine::Error(tail_from(line, er.len()));
    }
    let hb = heartbeat_token_bytes();
    if bytes_equal(line, hb.as_slice()) {
        StdoutLine::Heartbeat
    } else {
        StdoutLine::Diagnostic
    }
}

} // verus!
