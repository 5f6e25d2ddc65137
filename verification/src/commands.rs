//! The daemon's address and the requests the app sends to its memory API.

use vstd::prelude::*;
use crate::text::opt_view;
use crate::numeric::{decimal, parse_u16, parse_u16_spec, push_decimal};
use crate::paths::cat_str;

verus! {

/// The port the daemon listens on unless `SIGNET_PORT` names another.
pub const DEFAULT_PORT: u16 = 3850;

/// How long the app waits between stopping and starting the daemon on a restart.
pub const RESTART_PAUSE_MS: u64 = 500;

/// The daemon port for a value of `SIGNET_PORT` (`None` when it is unset or not Unicode):
/// the value read as a `u16`, or the default port when it does not read as one.
pub open spec fn port_for(var: Option<Seq<char>>) -> u16 {
    match var {
        Some(s) => match parse_u16_spec(s) {
            Ok(p) => p,
            Err(_) => DEFAULT_PORT,
        },
        None => DEFAULT_PORT,
    }
}

/// The daemon's port, given the value of `SIGNET_PORT`.
pub fn daemon_port(var: Option<&str>) -> (p: u16)
    ensures
        p == port_for(opt_view(var)),
{
    match var {
        Some(s) => match parse_u16(s) {
            Ok(p) => p,
            Err(_) => DEFAULT_PORT,
        },
        None => DEFAULT_PORT,
    }
}

pub open spec fn url_for_port(port: u16) -> Seq<char> {
    "http://localhost:"@ + decimal(port as nat)
}

/// A port written in decimal into `SIGNET_PORT` is the port the app uses, and the URL it
/// talks to names that port.
pub proof fn lemma_port_setting_round_trip(port: u16)
    ensures
        port_for(Some(decimal(port as nat))) == port,
        url_for_port(port_for(Some(decimal(port as nat)))) == url_for_port(port),
{
    crate::numeric::lemma_decimal_parses(port as nat, false, 0, u16::MAX as int);
}

/// The daemon's base URL, given the value of `SIGNET_PORT`.
pub fn daemon_url(var: Option<&str>) -> (r: String)
    ensures
        r@ == url_for_port(port_for(opt_view(var))),
{
    let port = daemon_port(var);
    let mut out = String::from_str("http://localhost:");
    push_decimal(&mut out, port as u32);
    out
}

/// Where a memory sent to the daemon came from.
#[derive(Clone, Copy, Debug, PartialEq, Eq, Structural)]
pub enum CaptureSource {
    /// Typed into the quick-capture box.
    QuickCapture,
    /// Shared into the app from another one.
    SharedText,
}

/// The `who` field that tags a memory from `source`.
pub open spec fn who(source: CaptureSource) -> Seq<char> {
    match source {
        CaptureSource::QuickCapture => "android-capture"@,
        CaptureSource::SharedText => "android-share"@,
    }
}

/// The text that goes before the transport error when a memory from `source` is not sent.
pub open spec fn send_failure_prefix(source: CaptureSource) -> Seq<char> {
    match source {
        CaptureSource::QuickCapture => "Failed to send: "@,
        CaptureSource::SharedText => "Failed to ingest shared text: "@,
    }
}

fn who_text(source: CaptureSource) -> (r: &'static str)
    ensures
        r@ == who(source),
{
    match source {
        CaptureSource::QuickCapture => "android-capture",
        CaptureSource::SharedText => "android-share",
    }
}

fn send_failure_text(source: CaptureSource) -> (r: &'static str)
    ensures
        r@ == send_failure_prefix(source),
{
    match source {
        CaptureSource::QuickCapture => "Failed to send: ",
        CaptureSource::SharedText => "Failed to ingest shared text: ",
    }
}

/// A POST to the daemon: where it goes, its JSON body, and how long to wait for it.
pub struct MemoryRequest {
    pub url: String,
    pub body: String,
    pub timeout_secs: u64,
}

/// The lower-case hexadecimal digit for `d` (0 to 15).
pub open spec fn hex_digit(d: int) -> char {
    if d < 10 {
        crate::numeric::digit_char(d)
    } else if d == 10 { 'a' } else if d == 11 { 'b' } else if d == 12 { 'c' }
    else if d == 13 { 'd' } else if d == 14 { 'e' } else { 'f' }
}

/// How serde_json writes one character inside a JSON string: `"` and `\` and the control
/// characters below U+0020 are escaped (`\b`, `\t`, `\n`, `\f`, `\r`, else `\u00` and two
/// lower-case hexadecimal digits); every other character is written as it is.
pub open spec fn json_escape_char(c: char) -> Seq<char> {
    if c == '"' {
        seq!['\\', '"']
    } else if c == '\\' {
        seq!['\\', '\\']
    } else if c == '\u{8}' {
        seq!['\\', 'b']
    } else if c == '\t' {
        seq!['\\', 't']
    } else if c == '\n' {
        seq!['\\', 'n']
    } else if c == '\u{c}' {
        seq!['\\', 'f']
    } else if c == '\r' {
        seq!['\\', 'r']
    } else if (c as int) < 0x20 {
        seq!['\\', 'u', '0', '0', hex_digit((c as int) / 16), hex_digit((c as int) % 16)]
    } else {
        seq![c]
    }
}

/// The characters of `s` as serde_json writes them inside a JSON string.
pub open spec fn json_escape(s: Seq<char>) -> Seq<char>
    decreases s.len(),
{
    if s.len() == 0 {
        Seq::<char>::empty()
    } else {
        json_escape(s.drop_last()) + json_escape_char(s.last())
    }
}

/// The JSON string literal serde_json writes for `s`: the escaped text between quotes.
pub open spec fn json_string(s: Seq<char>) -> Seq<char> {
    seq!['"'] + json_escape(s) + seq!['"']
}

#[verifier::external_type_specification]
#[verifier::external_body]
pub struct ExJsonError(serde_json::Error);

/// Calls `serde_json::to_string` on a string slice. Trusted: it succeeds (a string is
/// serialised into a `Vec`, whose writes do not fail) and gives the JSON string literal
/// `json_string(s)`.
#[verifier::external_body]
fn encode_json_string(s: &str) -> (r: Result<String, serde_json::Error>)
    ensures
        match r {
            Ok(t) => t@ == json_string(s@),
            Err(_) => false,
        },
{
    serde_json::to_string(s)
}

/// The JSON string literal for `s`.
fn json_string_text(s: &str) -> (r: String)
    ensures
        r@ == json_string(s@),
{
    match encode_json_string(s) {
        Ok(t) => t,
        Err(_) => vstd::pervasive::unreached(),
    }
}

pub open spec fn remember_url(base: Seq<char>) -> Seq<char> {
    base + "/api/memory/remember"@
}

pub open spec fn recall_url(base: Seq<char>) -> Seq<char> {
    base + "/api/memory/recall"@
}

/// The JSON object `{"content": .., "importance": 0.7, "who": ..}`, given the content
/// already written as a JSON string literal. The keys come in sorted order, as serde_json
/// writes an object when its `preserve_order` feature is off (with it on, they would come in
/// the order the object was built).
pub open spec fn remember_body(encoded_content: Seq<char>, source: CaptureSource) -> Seq<char> {
    "{\"content\":"@ + encoded_content + ",\"importance\":0.7,\"who\":\""@ + who(source) + "\"}"@
}

/// The JSON object `{"limit": .., "query": ..}`, given the query already written as a JSON
/// string literal; the limit is 10 unless one is given. The keys come in sorted order, as
/// serde_json writes an object when its `preserve_order` feature is off.
pub open spec fn recall_body(encoded_query: Seq<char>, limit: Option<u32>) -> Seq<char> {
    let n: u32 = match limit {
        Some(l) => l,
        None => 10,
    };
    "{\"limit\":"@ + decimal(n as nat) + ",\"query\":"@ + encoded_query + "}"@
}

/// A search body carries the limit it was given: between `{"limit":` and `,"query":` stands
/// text that reads back as that limit (as 10 when none was given), followed by the query.
pub proof fn lemma_recall_body_carries_limit(q: Seq<char>, limit: Option<u32>)
    ensures
        exists|d: Seq<char>| #![trigger crate::numeric::parse_u32_spec(d)]
            recall_body(q, limit) == "{\"limit\":"@ + d + ",\"query\":"@ + q + "}"@
            && crate::numeric::parse_u32_spec(d) == Ok::<u32, crate::numeric::IntErrorKind>(match limit {
                Some(l) => l,
                None => 10u32,
            }),
{
    let n: u32 = match limit {
        Some(l) => l,
        None => 10,
    };
    crate::numeric::lemma_decimal_parses(n as nat, false, 0, u32::MAX as int);
    let d = decimal(n as nat);
    assert(crate::numeric::parse_u32_spec(d) == Ok::<u32, crate::numeric::IntErrorKind>(n));
}

/// The request that stores `content` as a memory from `source`.
pub fn remember_request(base: &str, content: &str, source: CaptureSource) -> (r: MemoryRequest)
    ensures
        r.url@ == remember_url(base@),
        r.body@ == remember_body(json_string(content@), source),
        r.timeout_secs == 5,
{
    let encoded = json_string_text(content);
    let url = cat_str(base, "/api/memory/remember");
    let mut body = String::from_str("{\"content\":");
    body.append(encoded.as_str());
    body.append(",\"importance\":0.7,\"who\":\"");
    body.append(who_text(source));
    body.append("\"}");
    MemoryRequest { url, body, timeout_secs: 5 }
}

/// The request that searches memories for `query`, returning at most `limit` (10 if none).
pub fn recall_request(base: &str, query: &str, limit: Option<u32>) -> (r: MemoryRequest)
    ensures
        r.url@ == recall_url(base@),
        r.body@ == recall_body(json_string(query@), limit),
        r.timeout_secs == 10,
{
    let encoded = json_string_text(query);
    let n: u32 = match limit {
        Some(l) => l,
        None => 10,
    };
    let url = cat_str(base, "/api/memory/recall");
    let mut body = String::from_str("{\"limit\":");
    push_decimal(&mut body, n);
    body.append(",\"query\":");
    body.append(encoded.as_str());
    body.append("}");
    MemoryRequest { url, body, timeout_secs: 10 }
}

/// What came back for a request.
pub enum Reply {
    /// The request was not answered; the transport error's text.
    Unsent(String),
    /// An HTTP answer: its status code, the status as text (`"404 Not Found"`), and its body
    /// or the error met while reading it.
    Received { status: u16, status_text: String, body: Result<String, String> },
}

/// Whether an HTTP status is a success (2xx).
pub open spec fn success_status(status: u16) -> bool {
    200 <= status && status <= 299
}

pub fn is_success(status: u16) -> (r: bool)
    ensures
        r == success_status(status),
{
    200 <= status && status <= 299
}

/// The error for an HTTP answer that is not a success: the status and the body, which is
/// empty when it could not be read.
pub open spec fn http_error(status_text: Seq<char>, body: Result<String, String>) -> Seq<char> {
    let text = match body {
        Ok(t) => t@,
        Err(_) => Seq::<char>::empty(),
    };
    "HTTP "@ + status_text + ": "@ + text
}

fn http_error_text(status_text: &str, body: &Result<String, String>) -> (r: String)
    ensures
        r@ == http_error(status_text@, *body),
{
    let mut out = String::from_str("HTTP ");
    out.append(status_text);
    out.append(": ");
    match body {
        Ok(t) => out.append(t.as_str()),
        Err(_) => {},
    }
    proof {
        if body is Err {
            assert(out@ =~= http_error(status_text@, *body));
        }
    }
    out
}

/// What storing a memory from `source` comes to, given the reply.
pub open spec fn remember_outcome_spec(reply: Reply, source: CaptureSource) -> Result<(), Seq<char>> {
    match reply {
        Reply::Unsent(e) => Err(send_failure_prefix(source) + e@),
        Reply::Received { status, status_text, body } => if success_status(status) {
            Ok(())
        } else {
            Err(http_error(status_text@, body))
        },
    }
}

pub open spec fn result_view<T>(r: Result<T, String>) -> Result<T, Seq<char>> {
    match r {
        Ok(v) => Ok(v),
        Err(e) => Err(e@),
    }
}

pub open spec fn string_result_view(r: Result<String, String>) -> Result<Seq<char>, Seq<char>> {
    match r {
        Ok(v) => Ok(v@),
        Err(e) => Err(e@),
    }
}

/// The result of storing a memory from `source`, given what came back.
pub fn remember_outcome(reply: &Reply, source: CaptureSource) -> (r: Result<(), String>)
    ensures
        result_view(r) == remember_outcome_spec(*reply, source),
{
    match reply {
        Reply::Unsent(e) => Err(cat_str(send_failure_text(source), e.as_str())),
        Reply::Received { status, status_text, body } => {
            if is_success(*status) {
                Ok(())
            } else {
                Err(http_error_text(status_text.as_str(), body))
            }
        },
    }
}

/// Storing a memory succeeds exactly when the daemon answers with a 2xx status, for
/// either source and whatever the body; a request that was not answered always fails.
pub proof fn lemma_remember_succeeds_on_2xx(status: u16, status_text: String, body: Result<String, String>, source: CaptureSource, e: String)
    ensures
        remember_outcome_spec(Reply::Received { status, status_text, body }, source) is Ok <==> (200 <= status && status <= 299),
        remember_outcome_spec(Reply::Unsent(e), source) is Err,
{
}

/// A search succeeds exactly when the daemon answers with a 2xx status and its body is
/// read, and then it gives that body.
pub proof fn lemma_recall_gives_2xx_body(status: u16, status_text: String, body: Result<String, String>)
    ensures
        recall_outcome_spec(Reply::Received { status, status_text, body }) is Ok <==> (200 <= status && status <= 299
            && body is Ok),
        (200 <= status && status <= 299 && body is Ok) ==> recall_outcome_spec(Reply::Received { status, status_text, body })
            == Ok::<Seq<char>, Seq<char>>(body.unwrap()@),
{
}

/// What a memory search comes to, given the reply: the body of a successful answer.
pub open spec fn recall_outcome_spec(reply: Reply) -> Result<Seq<char>, Seq<char>> {
    match reply {
        Reply::Unsent(e) => Err("Failed to send: "@ + e@),
        Reply::Received { status, status_text, body } => if !success_status(status) {
            Err(http_error(status_text@, body))
        } else {
            match body {
                Ok(t) => Ok(t@),
                Err(e) => Err("Failed to read body: "@ + e@),
            }
        },
    }
}

/// The result of a memory search, given what came back.
pub fn recall_outcome(reply: &Reply) -> (r: Result<String, String>)
    ensures
        string_result_view(r) == recall_outcome_spec(*reply),
{
    match reply {
        Reply::Unsent(e) => Err(cat_str("Failed to send: ", e.as_str())),
        Reply::Received { status, status_text, body } => {
            if !is_success(*status) {
                Err(http_error_text(status_text.as_str(), body))
            } else {
                match body {
                    Ok(t) => Ok(String::from_str(t.as_str())),
                    Err(e) => Err(cat_str("Failed to read body: ", e.as_str())),
                }
            }
        },
    }
}

/// Whether text shared into the app is worth storing: it is not empty.
pub fn should_ingest_shared_text(text: &str) -> (r: bool)
    ensures
        r == (text@.len() > 0),
{
    text.unicode_len() > 0
}

} // verus!
