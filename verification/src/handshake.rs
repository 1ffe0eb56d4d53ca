//! The handshake grammar of the public connection.
//!
//! The public peer asks for a data session with one line,
//! `CONNECT <address> HTTP/1.1\r\n`, and is answered with one line,
//! `HTTP/1.1 200 OK\r\n`, once the session stands. Lines are sequences of
//! bytes; nothing here interprets the address text itself.

use vstd::prelude::*;
use vstd::slice::slice_subrange;

verus! {

/// The bytes of `CONNECT ` (with its trailing space), which open a request.
pub const CONNECT_PREFIX: [u8; 8] = [67, 79, 78, 78, 69, 67, 84, 32];

/// The bytes of ` HTTP/1.1\r\n` (with its leading space), which close a request.
pub const HTTP_SUFFIX: [u8; 11] = [32, 72, 84, 84, 80, 47, 49, 46, 49, 13, 10];

/// The bytes of `HTTP/1.1 200 OK\r\n`, the acknowledgment.
pub const ACK_LINE: [u8; 17] = [72, 84, 84, 80, 47, 49, 46, 49, 32, 50, 48, 48, 32, 79, 75, 13, 10];

/// `CONNECT ` as a sequence of bytes.
pub open spec fn connect_prefix() -> Seq<u8> {
    seq![67u8, 79u8, 78u8, 78u8, 69u8, 67u8, 84u8, 32u8]
}

/// ` HTTP/1.1\r\n` as a sequence of bytes.
pub open spec fn http_suffix() -> Seq<u8> {
    seq![32u8, 72u8, 84u8, 84u8, 80u8, 47u8, 49u8, 46u8, 49u8, 13u8, 10u8]
}

/// `HTTP/1.1 200 OK\r\n` as a sequence of bytes.
pub open spec fn ack_line() -> Seq<u8> {
    seq![
        72u8, 84u8, 84u8, 80u8, 47u8, 49u8, 46u8, 49u8, 32u8, 50u8, 48u8, 48u8, 32u8, 79u8, 75u8,
        13u8, 10u8,
    ]
}

/// Whether `line` has the shape of a request: it opens with `CONNECT `, closes
/// with ` HTTP/1.1\r\n`, and the two do not overlap. The address text between
/// them may be anything, the empty text included.
pub open spec fn is_connect_request(line: Seq<u8>) -> bool {
    &&& connect_prefix().len() + http_suffix().len() <= line.len()
    &&& connect_prefix().is_prefix_of(line)
    &&& http_suffix().is_suffix_of(line)
}

/// The address text of a request: what stands between `CONNECT ` and
/// ` HTTP/1.1\r\n`.
pub open spec fn target_text(line: Seq<u8>) -> Seq<u8>
    recommends
        is_connect_request(line),
{
    line.subrange(connect_prefix().len() as int, line.len() - http_suffix().len())
}

/// The request line that asks for a session with the address written as `text`.
pub open spec fn connect_request(text: Seq<u8>) -> Seq<u8> {
    connect_prefix() + text + http_suffix()
}

/// Whether `line` begins with `pattern`.
pub fn starts_with(line: &[u8], pattern: &[u8]) -> (yes: bool)
    ensures
        yes == pattern@.is_prefix_of(line@),
{
    if pattern.len() > line.len() {
        return false;
    }
    let mut i: usize = 0;
    while i < pattern.len()
        invariant
            i <= pattern@.len() <= line@.len(),
            forall|k: int| 0 <= k < i ==> pattern@[k] == line@[k],
        decreases pattern@.len() - i,
    {
        if pattern[i] != line[i] {
            assert(line@.subrange(0, pattern@.len() as int)[i as int] == line@[i as int]);
            return false;
        }
        i += 1;
    }
    assert(pattern@ =~= line@.subrange(0, pattern@.len() as int));
    true
}

/// Whether `line` ends with `pattern`.
pub fn ends_with(line: &[u8], pattern: &[u8]) -> (yes: bool)
    ensures
        yes == pattern@.is_suffix_of(line@),
{
    if pattern.len() > line.len() {
        return false;
    }
    let offset: usize = line.len() - pattern.len();
    let mut i: usize = 0;
    while i < pattern.len()
        invariant
            i <= pattern@.len() <= line@.len(),
            offset == line@.len() - pattern@.len(),
            line@.len() <= usize::MAX,
            forall|k: int| 0 <= k < i ==> pattern@[k] == line@[offset + k],
        decreases pattern@.len() - i,
    {
        if pattern[i] != line[offset + i] {
            assert(line@.subrange(offset as int, line@.len() as int)[i as int] == line@[offset + i]);
            return false;
        }
        i += 1;
    }
    assert(pattern@ =~= line@.subrange(offset as int, line@.len() as int));
    true
}

/// The address text of `line` where it is a request, and `None` where it is
/// not. The text is handed out as it stands in the line, unread.
pub fn connect_target<'a>(line: &'a [u8]) -> (target: Option<&'a [u8]>)
    ensures
        target is Some <==> is_connect_request(line@),
        target matches Some(text) ==> text@ == target_text(line@),
{
    let prefix = CONNECT_PREFIX;
    let suffix = HTTP_SUFFIX;
    assert(prefix@ =~= connect_prefix());
    assert(suffix@ =~= http_suffix());
    if line.len() < prefix.len() + suffix.len() {
        return None;
    }
    if starts_with(line, prefix.as_slice()) && ends_with(line, suffix.as_slice()) {
        Some(slice_subrange(line, prefix.len(), line.len() - suffix.len()))
    } else {
        None
    }
}

/// The acknowledgment line, `HTTP/1.1 200 OK\r\n`, ready to be written.
pub fn acknowledgment() -> (line: Vec<u8>)
    ensures
        line@ == ack_line(),
{
    let ack = ACK_LINE;
    let mut line: Vec<u8> = Vec::new();
    let mut i: usize = 0;
    while i < ack.len()
        invariant
            i <= ack@.len(),
            ack@ =~= ack_line(),
            line@ =~= ack@.subrange(0, i as int),
        decreases ack@.len() - i,
    {
        line.push(ack[i]);
        i += 1;
    }
    line
}

/// A line is a request exactly when it is `CONNECT `, some text and
/// ` HTTP/1.1\r\n` in a row, and that text is then its address text.
pub proof fn lemma_request_is_framed_text(line: Seq<u8>)
    ensures
        is_connect_request(line) <==> exists|text: Seq<u8>| line == #[trigger] connect_request(text),
        is_connect_request(line) ==> line == connect_request(target_text(line)),
{
    if is_connect_request(line) {
        assert(line =~= connect_request(target_text(line)));
    }
    if exists|text: Seq<u8>| line == #[trigger] connect_request(text) {
        let text = choose|text: Seq<u8>| line == #[trigger] connect_request(text);
        lemma_framed_text_is_request(text);
    }
}

/// Framing any text gives a request whose address text is that text.
pub proof fn lemma_framed_text_is_request(text: Seq<u8>)
    ensures
        is_connect_request(connect_request(text)),
        target_text(connect_request(text)) == text,
{
    let line = connect_request(text);
    assert(line.subrange(0, connect_prefix().len() as int) =~= connect_prefix());
    assert(line.subrange(line.len() - http_suffix().len(), line.len() as int) =~= http_suffix());
    assert(target_text(line) =~= text);
}

} // verus!
