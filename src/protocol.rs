//! The request/response envelopes, their error codes, and the line framing
//! that carries one JSON object per line.
use vstd::prelude::*;
use vstd::string::*;
use crate::text::{cat, contains_seq, contains_str};

verus! {

/// The JSON value type of the payloads, carried through unread.
#[verifier::external_type_specification]
#[verifier::external_body]
pub struct ExJsonValue(serde_json::Value);

/// The protocol version this side speaks.
pub const PROTOCOL_VERSION: u32 = 1;

pub fn default_protocol_version() -> (r: u32)
    ensures
        r == PROTOCOL_VERSION,
{
    PROTOCOL_VERSION
}

pub fn default_queries() -> (r: u32)
    ensures
        r == 200,
{
    200
}

pub fn default_warmup() -> (r: u32)
    ensures
        r == 100,
{
    100
}

pub fn default_duration() -> (r: u32)
    ensures
        r == 5,
{
    5
}

/// A request: a command, the id that pairs it with its response, and the
/// protocol version.
#[derive(Debug, Clone)]
pub struct Request {
    pub cmd: Command,
    pub request_id: String,
    pub protocol_version: u32,
}

/// The commands a client may send.
#[derive(Debug, Clone)]
pub enum Command {
    Find {
        name: Option<String>,
        path: Option<String>,
        kind: Option<String>,
        vis: Option<String>,
        unimplemented: Option<bool>,
        todo: Option<bool>,
        all: Option<bool>,
    },
    Doc {
        path: String,
        include_docs: bool,
        vis: Option<String>,
        unimplemented: Option<bool>,
        todo: Option<bool>,
    },
    Ls {
        path: String,
        expansion: Option<String>,
        impl_parents: bool,
        include_docs: bool,
        vis: Option<String>,
        unimplemented: Option<bool>,
        todo: Option<bool>,
    },
    Export {
        path: String,
        bundle: bool,
        expansion: Option<String>,
        include_docs: bool,
        vis: Option<String>,
        unimplemented: Option<bool>,
        todo: Option<bool>,
        impl_parents: bool,
        with_source: bool,
    },
    Reindex {
        features: Option<Vec<String>>,
        target: Option<String>,
        module: Option<String>,
        struct_name: Option<String>,
        include_derives: bool,
    },
    Status { vis: Option<String>, unimplemented: Option<bool>, todo: Option<bool> },
    Diag,
    Bench { queries: u32, warmup: u32, duration: u32 },
}

impl Request {
    /// A request for `cmd` under `request_id`, at this protocol version.
    pub fn new(cmd: Command, request_id: String) -> (r: Request)
        ensures
            r.cmd == cmd,
            r.request_id == request_id,
            r.protocol_version == PROTOCOL_VERSION,
    {
        Request { cmd, request_id, protocol_version: PROTOCOL_VERSION }
    }
}

/// The error taxonomy of the wire.
#[derive(Debug, Clone, Copy, PartialEq, Eq, Structural)]
pub enum ErrorCode {
    InvalidArg,
    NotFound,
    DaemonUnavailable,
    IndexMismatch,
    InternalError,
    ProtocolError,
}

/// The wire form of each error code.
pub open spec fn error_code_name(c: ErrorCode) -> Seq<char> {
    match c {
        ErrorCode::InvalidArg => "INVALID_ARG"@,
        ErrorCode::NotFound => "NOT_FOUND"@,
        ErrorCode::DaemonUnavailable => "DAEMON_UNAVAILABLE"@,
        ErrorCode::IndexMismatch => "INDEX_MISMATCH"@,
        ErrorCode::InternalError => "INTERNAL_ERROR"@,
        ErrorCode::ProtocolError => "PROTOCOL_ERROR"@,
    }
}

impl ErrorCode {
    /// The wire form of the code.
    pub fn as_str(&self) -> (r: &'static str)
        ensures
            r@ == error_code_name(*self),
    {
        match self {
            ErrorCode::InvalidArg => "INVALID_ARG",
            ErrorCode::NotFound => "NOT_FOUND",
            ErrorCode::DaemonUnavailable => "DAEMON_UNAVAILABLE",
            ErrorCode::IndexMismatch => "INDEX_MISMATCH",
            ErrorCode::InternalError => "INTERNAL_ERROR",
            ErrorCode::ProtocolError => "PROTOCOL_ERROR",
        }
    }
}

/// Timing and size of a handled request.
#[derive(Debug, Clone)]
pub struct Metrics {
    pub elapsed_ms: u64,
    pub bytes: usize,
}

/// A successful answer.
#[derive(Debug)]
pub struct SuccessEnvelope {
    pub ok: bool,
    pub request_id: String,
    pub protocol_version: u32,
    pub data: serde_json::Value,
    pub truncated: bool,
    pub metrics: Option<Metrics>,
}

/// Why an answer needs the client to choose.
#[derive(Debug, Clone)]
pub struct DecisionInfo {
    pub reason: String,
    pub content_len: usize,
    pub options: Vec<String>,
}

/// An answer that would exceed the context budget.
#[derive(Debug, Clone)]
pub struct DecisionEnvelope {
    pub ok: bool,
    pub request_id: String,
    pub protocol_version: u32,
    pub decision_required: DecisionInfo,
}

/// A failed request.
#[derive(Debug, Clone)]
pub struct ErrorEnvelope {
    pub ok: bool,
    pub request_id: String,
    pub protocol_version: u32,
    pub err: String,
    pub err_code: ErrorCode,
}

/// The three answers, told apart by their fields.
#[derive(Debug)]
pub enum Response {
    Success(SuccessEnvelope),
    Decision(DecisionEnvelope),
    Error(ErrorEnvelope),
}

/// The id of the request an answer belongs to.
pub open spec fn request_id_of(r: Response) -> String {
    match r {
        Response::Success(e) => e.request_id,
        Response::Decision(e) => e.request_id,
        Response::Error(e) => e.request_id,
    }
}

/// Why a frame could not be written or read.
#[derive(Debug, Clone)]
pub enum ProtocolError {
    Json(String),
    Io(String),
    InvalidProtocolVersion(u32),
    /// The payload holds a line feed, so it cannot stand on one line.
    MessageTooLarge(usize),
    /// The line holds nothing but white space.
    EmptyFrame,
}

impl ProtocolError {
    /// Every framing and decoding failure is a protocol error on the wire.
    pub fn code(&self) -> (r: ErrorCode)
        ensures
            r == ErrorCode::ProtocolError,
    {
        ErrorCode::ProtocolError
    }
}

impl Response {
    /// A success with `data`, not truncated, without metrics.
    pub fn success(request_id: String, data: serde_json::Value) -> (r: Response)
        ensures
            r matches Response::Success(e) && e.ok && e.request_id == request_id
                && e.protocol_version == PROTOCOL_VERSION && e.data == data && !e.truncated
                && e.metrics is None,
    {
        Response::Success(
            SuccessEnvelope {
                ok: true,
                request_id,
                protocol_version: PROTOCOL_VERSION,
                data,
                truncated: false,
                metrics: None,
            },
        )
    }

    /// A failure with a message and a code.
    pub fn error(request_id: String, err: String, err_code: ErrorCode) -> (r: Response)
        ensures
            r matches Response::Error(e) && !e.ok && e.request_id == request_id
                && e.protocol_version == PROTOCOL_VERSION && e.err == err && e.err_code
                == err_code,
    {
        Response::Error(
            ErrorEnvelope { ok: false, request_id, protocol_version: PROTOCOL_VERSION, err, err_code },
        )
    }

    /// A request for the client to choose among `options`.
    pub fn decision(request_id: String, reason: String, content_len: usize, options: Vec<String>) -> (r:
        Response)
        ensures
            r matches Response::Decision(e) && e.ok && e.request_id == request_id
                && e.protocol_version == PROTOCOL_VERSION && e.decision_required.reason == reason
                && e.decision_required.content_len == content_len
                && e.decision_required.options == options,
    {
        Response::Decision(
            DecisionEnvelope {
                ok: true,
                request_id,
                protocol_version: PROTOCOL_VERSION,
                decision_required: DecisionInfo { reason, content_len, options },
            },
        )
    }

    /// The id of the request this answers.
    pub fn request_id(&self) -> (r: &String)
        ensures
            *r == request_id_of(*self),
    {
        match self {
            Response::Success(e) => &e.request_id,
            Response::Decision(e) => &e.request_id,
            Response::Error(e) => &e.request_id,
        }
    }
}

/// The characters that trimming removes (Unicode white space).
pub open spec fn is_white(c: char) -> bool {
    ('\u{9}' <= c && c <= '\u{d}') || c == ' ' || c == '\u{85}' || c == '\u{a0}' || c == '\u{1680}'
        || ('\u{2000}' <= c && c <= '\u{200a}') || c == '\u{2028}' || c == '\u{2029}' || c
        == '\u{202f}' || c == '\u{205f}' || c == '\u{3000}'
}

/// A text without its leading white space.
pub open spec fn trim_start(s: Seq<char>) -> Seq<char>
    decreases s.len(),
{
    if s.len() > 0 && is_white(s[0]) {
        trim_start(s.drop_first())
    } else {
        s
    }
}

/// A text without its trailing white space.
pub open spec fn trim_end(s: Seq<char>) -> Seq<char>
    decreases s.len(),
{
    if s.len() > 0 && is_white(s.last()) {
        trim_end(s.drop_last())
    } else {
        s
    }
}

/// A text without white space at either end.
pub open spec fn trimmed(s: Seq<char>) -> Seq<char> {
    trim_end(trim_start(s))
}

/// Whether a character is white space.
pub fn is_white_char(c: char) -> (r: bool)
    ensures
        r == is_white(c),
{
    ('\u{9}' <= c && c <= '\u{d}') || c == ' ' || c == '\u{85}' || c == '\u{a0}' || c == '\u{1680}'
        || ('\u{2000}' <= c && c <= '\u{200a}') || c == '\u{2028}' || c == '\u{2029}' || c
        == '\u{202f}' || c == '\u{205f}' || c == '\u{3000}'
}

/// A text without white space at either end.
pub fn trim(s: &str) -> (r: &str)
    ensures
        r@ == trimmed(s@),
{
    let n = s.unicode_len();
    let mut lo: usize = 0;
    assert(s@.subrange(0, n as int) =~= s@);
    while lo < n && is_white_char(s.get_char(lo))
        invariant
            n == s@.len(),
            lo <= n,
            trim_start(s@) == trim_start(s@.subrange(lo as int, n as int)),
        decreases n - lo,
    {
        assert(s@.subrange(lo as int, n as int).drop_first() =~= s@.subrange(lo + 1, n as int));
        lo = lo + 1;
    }
    assert(s@.subrange(0, n as int) =~= s@);
    let ghost mid = s@.subrange(lo as int, n as int);
    assert(trim_start(s@) == mid);
    let mut hi: usize = n;
    while hi > lo && is_white_char(s.get_char(hi - 1))
        invariant
            n == s@.len(),
            lo <= hi <= n,
            mid == s@.subrange(lo as int, n as int),
            trim_end(mid) == trim_end(s@.subrange(lo as int, hi as int)),
        decreases hi - lo,
    {
        assert(s@.subrange(lo as int, hi as int).drop_last() =~= s@.subrange(lo as int, hi - 1));
        hi = hi - 1;
    }
    assert(trim_end(s@.subrange(lo as int, hi as int)) == s@.subrange(lo as int, hi as int));
    s.substring_char(lo, hi)
}

/// The frame of a payload: the payload and one line feed.
pub open spec fn frame_of(json: Seq<char>) -> Seq<char> {
    json.push('\n')
}

/// Frames a serialized payload as one line; a payload holding a line feed
/// is refused.
pub fn frame_message(json: &str) -> (r: Result<String, ProtocolError>)
    ensures
        r is Ok <==> !contains_seq(json@, seq!['\n']),
        r matches Ok(f) ==> f@ == frame_of(json@),
        r matches Err(e) ==> e == ProtocolError::MessageTooLarge(json.spec_bytes().len() as usize),
{
    if contains_str(json, "\n") {
        proof {
            reveal_strlit("\n");
            assert("\n"@ =~= seq!['\n']);
        }
        Err(ProtocolError::MessageTooLarge(json.len()))
    } else {
        proof {
            reveal_strlit("\n");
            assert("\n"@ =~= seq!['\n']);
        }
        let f = cat(json, "\n");
        assert(f@ =~= frame_of(json@));
        Ok(f)
    }
}

/// Reads the payload of a received line: the line without surrounding white
/// space. A blank line is refused.
pub fn read_frame(line: &str) -> (r: Result<&str, ProtocolError>)
    ensures
        r is Err <==> trimmed(line@).len() == 0,
        r matches Ok(p) ==> p@ == trimmed(line@),
        r matches Err(e) ==> e is EmptyFrame,
{
    let t = trim(line);
    if t.unicode_len() == 0 {
        Err(ProtocolError::EmptyFrame)
    } else {
        Ok(t)
    }
}

/// The answer to a line that could not be read as a request.
pub fn frame_error_response(err: &ProtocolError, detail: &str) -> (r: Response)
    ensures
        r matches Response::Error(e) && !e.ok && e.err_code == ErrorCode::ProtocolError
            && e.request_id@ == "unknown"@,
{
    let code = err.code();
    let msg = cat("Invalid request: ", detail);
    Response::error("unknown".to_owned(), msg, code)
}

/// An answer that reports a protocol error.
pub open spec fn is_protocol_error(r: Response) -> bool {
    r matches Response::Error(e) && !e.ok && e.err_code == ErrorCode::ProtocolError
}

/// What a connection does with a line it read.
#[derive(Debug)]
pub enum LineStep {
    /// The stream ended: close the connection.
    Close,
    /// Answer with `response`, then close the connection if `close`.
    Reply { response: Response, close: bool },
    /// Decode this payload as a request.
    Decode(String),
}

/// The step on a line of `read` bytes (0 at the end of the stream): close at
/// the end, answer a blank line with a protocol error and close, else decode
/// the trimmed payload.
pub fn on_line(read: usize, line: &str) -> (r: LineStep)
    ensures
        read == 0 ==> r is Close,
        read > 0 && trimmed(line@).len() == 0 ==> (r matches LineStep::Reply { response, close }
            && close && is_protocol_error(response)),
        read > 0 && trimmed(line@).len() > 0 ==> (r matches LineStep::Decode(p) && p@ == trimmed(
            line@,
        )),
{
    if read == 0 {
        return LineStep::Close;
    }
    match read_frame(line) {
        Ok(p) => LineStep::Decode(p.to_owned()),
        Err(e) => LineStep::Reply { response: frame_error_response(&e, "empty line"), close: true },
    }
}

/// The step on a payload that does not decode as a request: answer with a
/// protocol error and close.
pub fn on_undecodable(detail: &str) -> (r: LineStep)
    ensures
        r matches LineStep::Reply { response, close } && close && is_protocol_error(response),
{
    let err = ProtocolError::Json(detail.to_owned());
    LineStep::Reply { response: frame_error_response(&err, detail), close: true }
}

/// Accepts a request at this protocol version and refuses any other.
pub fn check_protocol_version(version: u32) -> (r: Result<(), ProtocolError>)
    ensures
        r is Ok <==> version == PROTOCOL_VERSION,
        r matches Err(e) ==> e == ProtocolError::InvalidProtocolVersion(version),
{
    if version == PROTOCOL_VERSION {
        Ok(())
    } else {
        Err(ProtocolError::InvalidProtocolVersion(version))
    }
}

/// Framing and reading back give the payload again, for any payload without
/// line feeds or white space at its ends that is not empty, as a serialized
/// JSON object is.
pub proof fn lemma_frame_round_trip(json: Seq<char>)
    requires
        json.len() > 0,
        !contains_seq(json, seq!['\n']),
        !is_white(json[0]),
        !is_white(json.last()),
    ensures
        trimmed(frame_of(json)) == json,
        trimmed(frame_of(json)).len() > 0,
{
    let f = frame_of(json);
    assert(trim_start(f) == f);
    assert(f.drop_last() =~= json);
    assert(trim_end(json) == json);
}

/// A serialized payload that frames at all holds no line feed before the
/// one that ends its frame.
pub proof fn lemma_frame_single_line(json: Seq<char>)
    requires
        !contains_seq(json, seq!['\n']),
    ensures
        forall|i: int| 0 <= i < frame_of(json).len() - 1 ==> frame_of(json)[i] != '\n',
        frame_of(json).last() == '\n',
{
    assert forall|i: int| 0 <= i < frame_of(json).len() - 1 implies frame_of(json)[i] != '\n' by {
        if frame_of(json)[i] == '\n' {
            assert(json.subrange(i, i + 1) =~= seq!['\n']);
            assert(crate::text::occurs_at(json, seq!['\n'], i));
        }
    }
}

} // verus!
