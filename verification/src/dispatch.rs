//! Outcome and response computation for the command dispatcher's worker.
//!
//! The dispatcher's worker thread pulls one invocation at a time from the
//! bounded queue, runs the matching handler under a panic boundary, and
//! publishes exactly one best-effort response per invocation.  The functions
//! here decide, for every possible way a handler execution can end, which
//! result and which response payload the worker produces.  The thread and the
//! panic boundary themselves live outside the verified library; they hand the
//! execution outcome to [`method_outcome`] and publish what
//! [`build_response`] returns.

use vstd::prelude::*;

verus! {

/// A successful direct-method result: an HTTP-like status code and an
/// optional response body.
#[derive(Debug)]
pub struct MethodReturnValue {
    pub status_code: u16,
    pub body: Option<Vec<u8>>,
}

impl MethodReturnValue {
    pub fn new(status_code: u16, body: Option<Vec<u8>>) -> (r: Self)
        ensures
            r.status_code == status_code,
            r.body == body,
    {
        MethodReturnValue { status_code, body }
    }
}

/// A failed direct-method result: an HTTP-like status code and a message
/// that is sent back to the caller inside the error response body.
#[derive(Debug)]
pub struct MethodError {
    pub status_code: u16,
    pub message: String,
}

impl MethodError {
    pub fn new(status_code: u16, message: String) -> (r: Self)
        ensures
            r.status_code == status_code,
            r.message == message,
    {
        MethodError { status_code, message }
    }
}

pub type MethodResult = Result<MethodReturnValue, MethodError>;

/// How one handler execution ended, as observed by the worker's panic
/// boundary: either the boundary returned normally (with the handler's
/// result, or `None` when no handler matched or the matching handler
/// declared itself not applicable), or the handler panicked (with the
/// panic's string payload, if it carried one).
#[derive(Debug)]
pub enum HandlerExecution {
    Completed(Option<MethodResult>),
    Panicked(Option<String>),
}

/// The result the worker reports for one invocation.
///
/// A completed execution keeps the handler's own result; an execution that
/// produced no result is a 404, and a panic is isolated into a 500 whose
/// message carries the panic text when there is one.
pub fn method_outcome(execution: HandlerExecution) -> (r: MethodResult)
    ensures
        match execution {
            HandlerExecution::Completed(Some(res)) => r == res,
            HandlerExecution::Completed(None) => {
                &&& r matches Err(e)
                &&& e.status_code == 404
                &&& e.message@ == "No handler found"@
            },
            HandlerExecution::Panicked(Some(text)) => {
                &&& r matches Err(e)
                &&& e.status_code == 500
                &&& e.message@ == "Panic: "@ + text@
            },
            HandlerExecution::Panicked(None) => {
                &&& r matches Err(e)
                &&& e.status_code == 500
                &&& e.message@ == "Unknown panic"@
            },
        },
{
    match execution {
        HandlerExecution::Completed(Some(res)) => res,
        HandlerExecution::Completed(None) => Err(MethodError::new(
            404,
            String::from_str("No handler found"),
        )),
        HandlerExecution::Panicked(Some(text)) => Err(MethodError::new(
            500,
            String::from_str("Panic: ").concat(text.as_str()),
        )),
        HandlerExecution::Panicked(None) => Err(MethodError::new(
            500,
            String::from_str("Unknown panic"),
        )),
    }
}

/// The hexadecimal digit for one value below sixteen, as used in `\u00XX`
/// escapes of the error response body.
pub open spec fn hex_digit(n: int) -> char {
    if n == 0 { '0' } else if n == 1 { '1' } else if n == 2 { '2' } else if n == 3 { '3' }
    else if n == 4 { '4' } else if n == 5 { '5' } else if n == 6 { '6' } else if n == 7 { '7' }
    else if n == 8 { '8' } else if n == 9 { '9' } else if n == 10 { 'a' } else if n == 11 { 'b' }
    else if n == 12 { 'c' } else if n == 13 { 'd' } else if n == 14 { 'e' } else { 'f' }
}

/// How one character appears inside a JSON string literal: quotes,
/// backslashes and control characters are escaped, everything else stands
/// for itself.
pub open spec fn json_escape_char(c: char) -> Seq<char> {
    if c == '"' { seq!['\\', '"'] }
    else if c == '\\' { seq!['\\', '\\'] }
    else if c == '\x08' { seq!['\\', 'b'] }
    else if c == '\x0C' { seq!['\\', 'f'] }
    else if c == '\n' { seq!['\\', 'n'] }
    else if c == '\r' { seq!['\\', 'r'] }
    else if c == '\t' { seq!['\\', 't'] }
    else if (c as u32) < 32 {
        seq!['\\', 'u', '0', '0', hex_digit(c as int / 16), hex_digit(c as int % 16)]
    }
    else { seq![c] }
}

/// A character that JSON string escaping leaves unchanged.
pub open spec fn json_plain_char(c: char) -> bool {
    c != '"' && c != '\\' && c as u32 >= 32
}

/// The body of a JSON string literal holding the characters of `s`.
pub open spec fn json_escape(s: Seq<char>) -> Seq<char>
    decreases s.len(),
{
    if s.len() == 0 {
        Seq::empty()
    } else {
        json_escape(s.drop_last()) + json_escape_char(s.last())
    }
}

/// The error response body: a JSON object with a single `detail` field
/// holding the message text.
pub open spec fn json_detail_body_spec(message: Seq<char>) -> Seq<char> {
    seq!['{', '"', 'd', 'e', 't', 'a', 'i', 'l', '"', ':', '"'] + json_escape(message)
        + seq!['"', '}']
}

/// Relies on std's `FromIterator<char> for String` (through
/// `Iterator::collect`): the resulting string holds exactly the given
/// characters, in order.
#[verifier::external_body]
pub(crate) fn chars_to_string(chars: &Vec<char>) -> (r: String)
    ensures
        r@ == chars@,
{
    chars.iter().collect()
}

fn hex_digit_exec(n: u32) -> (c: char)
    requires
        n < 16,
    ensures
        c == hex_digit(n as int),
{
    if n == 0 { '0' } else if n == 1 { '1' } else if n == 2 { '2' } else if n == 3 { '3' }
    else if n == 4 { '4' } else if n == 5 { '5' } else if n == 6 { '6' } else if n == 7 { '7' }
    else if n == 8 { '8' } else if n == 9 { '9' } else if n == 10 { 'a' } else if n == 11 { 'b' }
    else if n == 12 { 'c' } else if n == 13 { 'd' } else if n == 14 { 'e' } else { 'f' }
}

/// Appends the JSON escape of `c` to `out`.
fn push_escaped(out: &mut Vec<char>, c: char)
    ensures
        final(out)@ == old(out)@ + json_escape_char(c),
{
    if c == '"' {
        out.push('\\');
        out.push('"');
    } else if c == '\\' {
        out.push('\\');
        out.push('\\');
    } else if c == '\x08' {
        out.push('\\');
        out.push('b');
    } else if c == '\x0C' {
        out.push('\\');
        out.push('f');
    } else if c == '\n' {
        out.push('\\');
        out.push('n');
    } else if c == '\r' {
        out.push('\\');
        out.push('r');
    } else if c == '\t' {
        out.push('\\');
        out.push('t');
    } else if (c as u32) < 32 {
        out.push('\\');
        out.push('u');
        out.push('0');
        out.push('0');
        out.push(hex_digit_exec(c as u32 / 16));
        out.push(hex_digit_exec(c as u32 % 16));
    } else {
        out.push(c);
    }
    assert(out@ =~= old(out)@ + json_escape_char(c));
}

/// Builds the error response body `{"detail":"<message>"}` with the message
/// escaped as a JSON string.
pub fn json_detail_body(message: &str) -> (r: String)
    ensures
        r@ == json_detail_body_spec(message@),
{
    let mut out: Vec<char> = Vec::new();
    out.push('{');
    out.push('"');
    out.push('d');
    out.push('e');
    out.push('t');
    out.push('a');
    out.push('i');
    out.push('l');
    out.push('"');
    out.push(':');
    out.push('"');
    assert(out@ =~= seq!['{', '"', 'd', 'e', 't', 'a', 'i', 'l', '"', ':', '"']);
    let ghost head = out@;
    let n = message.unicode_len();
    let mut i: usize = 0;
    while i < n
        invariant
            n == message@.len(),
            i <= n,
            out@ == head + json_escape(message@.take(i as int)),
        decreases n - i,
    {
        let c = message.get_char(i);
        push_escaped(&mut out, c);
        proof {
            let t = message@.take(i + 1int);
            assert(t.drop_last() =~= message@.take(i as int));
            assert(t.last() == message@[i as int]);
        }
        i = i + 1;
    }
    assert(message@.take(n as int) =~= message@);
    out.push('"');
    out.push('}');
    let r = chars_to_string(&out);
    assert(r@ =~= json_detail_body_spec(message@));
    r
}

/// Whether `needle` occurs contiguously inside `hay`.
pub open spec fn contains_seq<T>(hay: Seq<T>, needle: Seq<T>) -> bool {
    exists|i: int|
        0 <= i && i + needle.len() <= hay.len() && #[trigger] hay.subrange(i, i + needle.len())
            == needle
}

/// JSON escaping leaves a text of plain characters unchanged.
pub proof fn lemma_json_escape_plain(s: Seq<char>)
    requires
        forall|i: int| 0 <= i < s.len() ==> json_plain_char(#[trigger] s[i]),
    ensures
        json_escape(s) == s,
    decreases s.len(),
{
    if s.len() == 0 {
        assert(json_escape(s) =~= s);
    } else {
        lemma_json_escape_plain(s.drop_last());
        assert(json_plain_char(s.last()));
        assert(json_escape_char(s.last()) =~= seq![s.last()]);
        assert(json_escape(s) =~= s);
    }
}

/// Law: a handler that panics with a string payload produces a 500-status
/// response whose body text contains that string.
///
/// `method_outcome` guarantees that a panic with text `text` yields an
/// error with status 500 and message `"Panic: " + text`, and
/// `build_response` guarantees that the response body is the JSON detail
/// object for that message.  This lemma closes the chain: as long as the
/// panic text needs no JSON escaping, it stands verbatim inside that body.
pub proof fn lemma_panic_response_contains_text(
    text: Seq<char>,
    message: Seq<char>,
    body: Seq<char>,
)
    requires
        forall|i: int| 0 <= i < text.len() ==> json_plain_char(#[trigger] text[i]),
        message == "Panic: "@ + text,
        body == json_detail_body_spec(message),
    ensures
        contains_seq(body, text),
{
    reveal_strlit("Panic: ");
    assert(forall|i: int| 0 <= i < message.len() ==> json_plain_char(#[trigger] message[i])) by {
        assert(forall|i: int|
            0 <= i < 7 ==> json_plain_char(#[trigger] message[i])) by {
            assert(message[0] == 'P');
            assert(message[1] == 'a');
            assert(message[2] == 'n');
            assert(message[3] == 'i');
            assert(message[4] == 'c');
            assert(message[5] == ':');
            assert(message[6] == ' ');
        }
        assert(forall|i: int|
            7 <= i < message.len() ==> json_plain_char(#[trigger] message[i])) by {
            assert(forall|i: int|
                7 <= i < message.len() ==> message[i] == text[i - 7]);
        }
    }
    lemma_json_escape_plain(message);
    let off = 18int;
    assert(body.subrange(off, off + text.len() as int) =~= text);
}

/// The body of one published response: either the raw bytes a handler
/// returned, or the JSON error text for a failed invocation.
#[derive(Debug)]
pub enum ResponseBody {
    Success(Vec<u8>),
    ErrorDetail(String),
}

/// One response, ready for the transport layer: the status code and
/// correlation id that address the response topic, the body to publish,
/// and the retain flag (always false — responses are not retained).
#[derive(Debug)]
pub struct Response {
    pub status_code: u16,
    pub correlation_id: String,
    pub body: ResponseBody,
    pub retain: bool,
}

/// Builds the response the worker publishes for one invocation: success
/// responses carry the handler's returned body (or an empty body), error
/// responses carry a JSON object with a single `detail` field.  The
/// response is addressed by the outcome's status code and the original
/// correlation id, and never retained.
pub fn build_response(correlation_id: String, outcome: MethodResult) -> (r: Response)
    ensures
        r.correlation_id == correlation_id,
        !r.retain,
        match outcome {
            Ok(v) => {
                &&& r.status_code == v.status_code
                &&& r.body matches ResponseBody::Success(b)
                &&& b@ == if v.body is Some { v.body->0@ } else { Seq::<u8>::empty() }
            },
            Err(e) => {
                &&& r.status_code == e.status_code
                &&& r.body matches ResponseBody::ErrorDetail(s)
                &&& s@ == json_detail_body_spec(e.message@)
            },
        },
{
    match outcome {
        Ok(v) => {
            let b = match v.body {
                Some(bytes) => bytes,
                None => Vec::new(),
            };
            Response {
                status_code: v.status_code,
                correlation_id,
                body: ResponseBody::Success(b),
                retain: false,
            }
        },
        Err(e) => {
            let detail = json_detail_body(e.message.as_str());
            Response {
                status_code: e.status_code,
                correlation_id,
                body: ResponseBody::ErrorDetail(detail),
                retain: false,
            }
        },
    }
}

/// The worker's whole decision for one dequeued invocation: every
/// successfully parsed and dispatched call yields exactly one response,
/// addressed by the outcome's status code and the call's correlation id,
/// whether the handler succeeded, failed, was missing, or panicked.
pub fn worker_response(request_id: String, execution: HandlerExecution) -> (r: Response)
    ensures
        r.correlation_id == request_id,
        !r.retain,
        match execution {
            HandlerExecution::Completed(Some(Ok(v))) => {
                &&& r.status_code == v.status_code
                &&& r.body matches ResponseBody::Success(b)
                &&& b@ == if v.body is Some { v.body->0@ } else { Seq::<u8>::empty() }
            },
            HandlerExecution::Completed(Some(Err(e))) => {
                &&& r.status_code == e.status_code
                &&& r.body matches ResponseBody::ErrorDetail(s)
                &&& s@ == json_detail_body_spec(e.message@)
            },
            HandlerExecution::Completed(None) => {
                &&& r.status_code == 404
                &&& r.body matches ResponseBody::ErrorDetail(s)
                &&& s@ == json_detail_body_spec("No handler found"@)
            },
            HandlerExecution::Panicked(Some(text)) => {
                &&& r.status_code == 500
                &&& r.body matches ResponseBody::ErrorDetail(s)
                &&& s@ == json_detail_body_spec("Panic: "@ + text@)
            },
            HandlerExecution::Panicked(None) => {
                &&& r.status_code == 500
                &&& r.body matches ResponseBody::ErrorDetail(s)
                &&& s@ == json_detail_body_spec("Unknown panic"@)
            },
        },
{
    let outcome = method_outcome(execution);
    build_response(request_id, outcome)
}

} // verus!
