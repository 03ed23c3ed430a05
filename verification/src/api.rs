//! The `/api/print/*` endpoints of the print server: the requests that the agent
//! sends and what it makes of the replies.
//!
//! Every request goes over HTTPS and carries `Authorization: Bearer <printer
//! token>`. The server answers 204 to `/jobs/next` while the queue is empty.

use reqwest::header::HeaderMap;
use reqwest::header::HeaderValue;
use reqwest::StatusCode;
use vstd::prelude::*;
use vstd::string::StringExecFns;
use vstd::utf8::decode_utf8;
use vstd::utf8::decode_utf8_split;
use vstd::utf8::encode_utf8;
use vstd::utf8::encode_utf8_decode_utf8;
use vstd::utf8::encode_utf8_valid_utf8;
use vstd::utf8::is_ascii_chars;
use vstd::utf8::is_ascii_chars_encode_utf8;
use vstd::utf8::is_char_boundary;
use vstd::utf8::valid_utf8_split;

use crate::headers::header_contents;
use crate::headers::header_text;
use crate::headers::law_header_reads_back;
use crate::headers::no_headers;
use crate::headers::read_header;
use crate::headers::set_header;
use crate::headers::valid_value;
use crate::headers::visible_value;
use crate::headers::HeaderContents;
use crate::text::decimal;
use crate::text::lowered;
use crate::text::same_text;
use crate::text::strip_trailing;
use crate::text::without_trailing;
use crate::url::lemma_start_is_before_the_path;
use crate::url::lemma_url_text_grows;
use crate::url::scheme_of;
use crate::url::unpadded;
use crate::url::url_scheme;
use crate::url::url_text;

verus! {

/// Seconds after which a request is given up.
pub const REQUEST_TIMEOUT_SECS: u64 = 30;

/// How many bytes of a refusal's body are shown.
pub const ERROR_BODY_LIMIT: usize = 400;

/// The body of a heartbeat.
#[derive(Debug, Clone)]
pub struct HeartbeatRequest<'a> {
    pub agent_version: &'a str,
    pub system_printer: &'a str,
    pub host: &'a str,
}

/// The answer to a heartbeat.
#[derive(Debug, Clone)]
pub struct HeartbeatResponse {
    pub data: HeartbeatData,
}

/// What the server tells about the printer that the token belongs to.
#[derive(Debug, Clone)]
pub struct HeartbeatData {
    /// The server's identifier of the printer; the agent does not use it.
    pub printer_uuid: String,
    pub name: String,
    /// False unless the server says otherwise.
    pub is_default: bool,
    /// `default_poll` unless the server says otherwise.
    pub poll_interval_seconds: u64,
}

/// Seconds between two polls, where the server names no other cadence.
pub fn default_poll() -> (secs: u64)
    ensures
        secs == 5,
{
    5
}

/// A label to print.
#[derive(Debug, Clone)]
pub struct NextJob {
    pub uuid: String,
    pub format: String,
    pub tracking: String,
    pub bytes: Vec<u8>,
}

/// What a `NextJob` holds.
pub struct JobModel {
    pub uuid: Seq<char>,
    pub format: Seq<char>,
    pub tracking: Seq<char>,
    pub bytes: Seq<u8>,
}

impl View for NextJob {
    type V = JobModel;

    open spec fn view(&self) -> JobModel {
        JobModel {
            uuid: self.uuid@,
            format: self.format@,
            tracking: self.tracking@,
            bytes: self.bytes@,
        }
    }
}

/// The body of an acknowledgement.
#[derive(Debug, Clone)]
pub struct AckRequest<'a> {
    pub status: &'a str,
    pub error: Option<&'a str>,
    pub duration_ms: Option<u128>,
}

/// How a request is sent.
#[derive(Debug, Clone, Copy, PartialEq, Eq, Structural)]
pub enum Method {
    Get,
    Post,
}

/// A request to the print server. Where `body` is not `()` it is sent as JSON.
#[derive(Debug)]
pub struct ApiRequest<B> {
    pub method: Method,
    pub url: String,
    pub headers: HeaderMap<HeaderValue>,
    pub body: B,
}

/// A reply of the print server. The body is read as `payload` where the status
/// tells success and as `text` where it does not; either is missing where it
/// could not be read.
#[derive(Debug)]
pub struct Reply<T> {
    pub status: u16,
    pub headers: HeaderMap<HeaderValue>,
    pub payload: Option<T>,
    pub text: Option<String>,
}

/// The calls that can fail on the way to the server.
#[derive(Debug, Clone, Copy, PartialEq, Eq, Structural)]
pub enum Endpoint {
    Heartbeat,
    FetchNext,
    Ack,
}

/// Why a call to the print server failed.
#[derive(Debug, Clone)]
pub enum ApiError {
    /// The HTTP client could not be set up.
    Client,
    /// The server's address is not an HTTPS address.
    NotHttps,
    /// No reply came.
    Transport(Endpoint),
    /// The server refused; the text tells the status and the body.
    Http(String),
    /// The answer to a heartbeat could not be read.
    Decode,
    /// A job came without its identifier.
    MissingUuid,
    /// The bytes of a job could not be read.
    Body,
}

/// What an `ApiError` holds.
pub enum ApiErrorModel {
    Client,
    NotHttps,
    Transport(Endpoint),
    Http(Seq<char>),
    Decode,
    MissingUuid,
    Body,
}

impl View for ApiError {
    type V = ApiErrorModel;

    open spec fn view(&self) -> ApiErrorModel {
        match *self {
            ApiError::Client => ApiErrorModel::Client,
            ApiError::NotHttps => ApiErrorModel::NotHttps,
            ApiError::Transport(endpoint) => ApiErrorModel::Transport(endpoint),
            ApiError::Http(text) => ApiErrorModel::Http(text@),
            ApiError::Decode => ApiErrorModel::Decode,
            ApiError::MissingUuid => ApiErrorModel::MissingUuid,
            ApiError::Body => ApiErrorModel::Body,
        }
    }
}

impl ApiErrorModel {
    /// The message shown for the error.
    pub open spec fn message(self) -> Seq<char> {
        match self {
            ApiErrorModel::Client => "Failed to build HTTP client"@,
            ApiErrorModel::NotHttps => "The server address is not an HTTPS address"@,
            ApiErrorModel::Transport(Endpoint::Heartbeat) => "Heartbeat transport error"@,
            ApiErrorModel::Transport(Endpoint::FetchNext) => "fetch_next transport error"@,
            ApiErrorModel::Transport(Endpoint::Ack) => "ack transport error"@,
            ApiErrorModel::Http(text) => text,
            ApiErrorModel::Decode => "Heartbeat decode error"@,
            ApiErrorModel::MissingUuid =>
                "Server returned a job body but no X-Print-Job-Uuid header"@,
            ApiErrorModel::Body => "fetch_next: failed to read body"@,
        }
    }
}

impl ApiError {
    /// The message shown for the error.
    pub fn message(&self) -> (text: String)
        ensures
            text@ == self@.message(),
            text@ == (match *self {
                ApiError::Client => "Failed to build HTTP client"@,
                ApiError::NotHttps => "The server address is not an HTTPS address"@,
                ApiError::Transport(Endpoint::Heartbeat) => "Heartbeat transport error"@,
                ApiError::Transport(Endpoint::FetchNext) => "fetch_next transport error"@,
                ApiError::Transport(Endpoint::Ack) => "ack transport error"@,
                ApiError::Http(told) => told@,
                ApiError::Decode => "Heartbeat decode error"@,
                ApiError::MissingUuid =>
                    "Server returned a job body but no X-Print-Job-Uuid header"@,
                ApiError::Body => "fetch_next: failed to read body"@,
            }),
    {
        match self {
            ApiError::Client => "Failed to build HTTP client".to_owned(),
            ApiError::NotHttps => "The server address is not an HTTPS address".to_owned(),
            ApiError::Transport(Endpoint::Heartbeat) => "Heartbeat transport error".to_owned(),
            ApiError::Transport(Endpoint::FetchNext) => "fetch_next transport error".to_owned(),
            ApiError::Transport(Endpoint::Ack) => "ack transport error".to_owned(),
            ApiError::Http(text) => text.clone(),
            ApiError::Decode => "Heartbeat decode error".to_owned(),
            ApiError::MissingUuid =>
                "Server returned a job body but no X-Print-Job-Uuid header".to_owned(),
            ApiError::Body => "fetch_next: failed to read body".to_owned(),
        }
    }
}

/// A job is what its fields hold, each of them whole.
pub proof fn law_job_is_what_it_holds(job: NextJob)
    ensures
        job@.uuid == job.uuid@,
        job@.format == job.format@,
        job@.tracking == job.tracking@,
        job@.bytes == job.bytes@,
{
}

/// No two errors are taken for each other, and a refusal keeps its text.
pub proof fn law_error_is_what_it_is(error: ApiError)
    ensures
        error@ is Client <==> error is Client,
        error@ is NotHttps <==> error is NotHttps,
        error@ is Decode <==> error is Decode,
        error@ is MissingUuid <==> error is MissingUuid,
        error@ is Body <==> error is Body,
        error@ is Transport <==> error is Transport,
        error@ is Http <==> error is Http,
        error is Transport ==> error@->Transport_0 == error->Transport_0,
        error is Http ==> error@->Http_0 == error->Http_0@ && error@.message() == error->Http_0@,
{
}

// ---------------------------------------------------------------------------
// Statuses and the texts of refusals
// ---------------------------------------------------------------------------

/// What `reqwest::StatusCode` shows for a status: the number and its canonical
/// reason.
pub uninterp spec fn status_line(code: u16) -> Seq<char>;

/// Shows a status as `StatusCode` does. The text depends on the number alone, and
/// starts with it in decimal and a space.
#[verifier::external_body]
pub(crate) fn show_status(code: u16) -> (text: String)
    requires
        100 <= code <= 999,
    ensures
        text@ == status_line(code),
        (decimal(code as nat) + " "@).is_prefix_of(text@),
{
    StatusCode::from_u16(code).unwrap().to_string()
}

/// The statuses that tell success.
pub open spec fn success(status: u16) -> bool {
    200 <= status < 300
}

/// Whether a status tells success.
pub fn is_success(status: u16) -> (yes: bool)
    ensures
        yes == success(status),
        yes <==> 200 <= status <= 299,
{
    200 <= status && status < 300
}

/// A text that can be cut after `max` bytes: it is no longer than that, or a
/// character ends there.
pub open spec fn can_cut(s: Seq<char>, max: int) -> bool {
    encode_utf8(s).len() <= max || is_char_boundary(encode_utf8(s), max)
}

/// A text cut after `max` bytes, with an ellipsis in place of what was cut off.
pub open spec fn truncated(s: Seq<char>, max: int) -> Seq<char> {
    let bytes = encode_utf8(s);
    if bytes.len() <= max {
        s
    } else {
        decode_utf8(bytes.subrange(0, max)) + "…"@
    }
}

/// A text can be cut wherever one of its characters ends, and need not be where it is
/// short enough.
pub proof fn law_where_a_text_can_be_cut(s: Seq<char>, max: nat)
    ensures
        encode_utf8(s).len() <= max ==> can_cut(s, max as int),
        is_char_boundary(encode_utf8(s), max as int) ==> can_cut(s, max as int),
{
}

/// Cuts a text after `max` bytes and marks the cut with an ellipsis.
pub fn truncate(s: &str, max: usize) -> (t: String)
    requires
        can_cut(s@, max as int),
    ensures
        t@ == truncated(s@, max as int),
{
    if s.as_bytes().len() <= max {
        s.to_owned()
    } else {
        let (head, _tail) = s.split_at(max);
        proof {
            encode_utf8_decode_utf8(head@);
        }
        head.to_owned().concat("…")
    }
}

/// A text of at most `max` bytes stays as it is. Of any other the first `max` bytes are
/// kept, which start it, and an ellipsis follows.
pub proof fn law_truncated_starts_alike(s: Seq<char>, max: nat)
    requires
        can_cut(s, max as int),
    ensures
        encode_utf8(s).len() <= max ==> truncated(s, max as int) == s,
        encode_utf8(s).len() > max ==> exists|kept: Seq<char>|
            #![trigger kept + "…"@]
            kept.is_prefix_of(s) && encode_utf8(kept).len() == max && truncated(s, max as int)
                == kept + "…"@,
{
    let bytes = encode_utf8(s);
    if bytes.len() > max {
        let head = bytes.subrange(0, max as int);
        let kept = decode_utf8(head);
        encode_utf8_valid_utf8(s);
        encode_utf8_decode_utf8(s);
        valid_utf8_split(bytes, max as int);
        decode_utf8_split(bytes, max as int);
        vstd::utf8::decode_utf8_encode_utf8(head);
        let rest = decode_utf8(bytes.subrange(max as int, bytes.len() as int));
        assert(s == kept + rest);
        assert(s.subrange(0, kept.len() as int) == kept);
        assert(truncated(s, max as int) == kept + "…"@);
    }
}

/// The text of an optional string, empty where there is none.
pub open spec fn text_or_empty(s: Option<String>) -> Seq<char> {
    match s {
        Some(text) => text@,
        None => seq![],
    }
}

/// The message for a refusal with the given status, as it is displayed, and body.
pub open spec fn refusal(line: Seq<char>, body: Seq<char>) -> Seq<char> {
    "HTTP "@ + line + ": "@ + truncated(body, ERROR_BODY_LIMIT as int)
}

/// The message for a refusal with the given status, as it is displayed, and body.
pub fn refusal_message(line: &str, body: &str) -> (text: String)
    requires
        can_cut(body@, ERROR_BODY_LIMIT as int),
    ensures
        text@ == refusal(line@, body@),
        text@ == "HTTP "@ + line@ + ": "@ + truncated(body@, 400),
{
    let shown = truncate(body, ERROR_BODY_LIMIT);
    "HTTP ".to_owned().concat(line).concat(": ").concat(shown.as_str())
}

/// The error for a refusal. A body that could not be read counts as empty.
pub fn error_from(status: u16, body: Option<String>) -> (error: ApiError)
    requires
        100 <= status <= 999,
        can_cut(text_or_empty(body), ERROR_BODY_LIMIT as int),
    ensures
        error@ == ApiErrorModel::Http(refusal(status_line(status), text_or_empty(body))),
        error matches ApiError::Http(told) && told@ == "HTTP "@ + status_line(status) + ": "@ + (
        match body {
            Some(text) => truncated(text@, 400),
            None => Seq::empty(),
        }),
        ("HTTP "@ + decimal(status as nat) + " "@).is_prefix_of(error@.message()),
{
    let body = match body {
        Some(text) => text,
        None => String::new(),
    };
    let line = show_status(status);
    let text = refusal_message(line.as_str(), body.as_str());
    proof {
        let number = decimal(status as nat) + " "@;
        lemma_refusal_starts_with_its_status(number, line@, body@);
        assert("HTTP "@ + decimal(status as nat) + " "@ == "HTTP "@ + number);
        lemma_nothing_is_not_cut();
    }
    ApiError::Http(text)
}

/// An empty text stays as it is.
proof fn lemma_nothing_is_not_cut()
    ensures
        truncated(Seq::empty(), ERROR_BODY_LIMIT as int) == Seq::<char>::empty(),
{
    is_ascii_chars_encode_utf8(Seq::empty());
}

/// The message for a refusal starts with what the displayed status starts with.
proof fn lemma_refusal_starts_with_its_status(
    number: Seq<char>,
    line: Seq<char>,
    body: Seq<char>,
)
    requires
        number.is_prefix_of(line),
    ensures
        ("HTTP "@ + number).is_prefix_of(refusal(line, body)),
{
    let start = "HTTP "@ + number;
    let rest = line.skip(number.len() as int);
    let shown = truncated(body, ERROR_BODY_LIMIT as int);
    assert(line == number + rest);
    assert(refusal(line, body) == start + (rest + ": "@ + shown));
    assert(refusal(line, body).subrange(0, start.len() as int) == start);
}

// ---------------------------------------------------------------------------
// Requests
// ---------------------------------------------------------------------------

/// The name and version under which the agent presents itself.
pub fn user_agent(version: &str) -> (agent: String)
    ensures
        agent@ == "lesscommerce-print-agent/"@ + version@,
{
    "lesscommerce-print-agent/".to_owned().concat(version)
}

/// The host name to report: the one the system gave, or `unknown`.
pub fn reported_host(found: Option<String>) -> (host: String)
    ensures
        host@ == (match found {
            Some(name) => name@,
            None => "unknown"@,
        }),
{
    match found {
        Some(name) => name,
        None => "unknown".to_owned(),
    }
}

/// The content types that the agent takes.
pub open spec fn accepted_types() -> Seq<char> {
    "application/json, application/pdf, application/octet-stream"@
}

/// The headers of a request made with `token`. A token that no header value can
/// hold goes unsent.
pub open spec fn auth_contents(token: Seq<char>, with_json_content: bool) -> HeaderContents {
    let bearer = encode_utf8("Bearer "@ + token);
    let known = if valid_value(bearer) {
        HeaderContents::empty().insert("authorization"@, seq![bearer])
    } else {
        HeaderContents::empty()
    };
    let accepting = known.insert("accept"@, seq![encode_utf8(accepted_types())]);
    if with_json_content {
        accepting.insert("content-type"@, seq![encode_utf8("application/json"@)])
    } else {
        accepting
    }
}

/// A text of printable ASCII characters makes a header value.
proof fn lemma_printable_is_valid(s: Seq<char>)
    requires
        forall|i: int| 0 <= i < s.len() ==> ' ' <= #[trigger] s[i] <= '~',
    ensures
        valid_value(encode_utf8(s)),
{
    assert(is_ascii_chars(s));
    is_ascii_chars_encode_utf8(s);
    assert forall|i: int| 0 <= i < encode_utf8(s).len() implies (#[trigger] encode_utf8(s)[i] >= 32
        && encode_utf8(s)[i] != 127) || encode_utf8(s)[i] == 9 by {
        assert(encode_utf8(s)[i] == s[i] as u8);
    }
}

/// A text that is an HTTPS address if it is an address at all: what counts of it
/// starts with `https:`.
pub open spec fn over_https(address: Seq<char>) -> bool {
    "https:"@.is_prefix_of(url_text(address))
}

/// Where jobs are claimed from the server at the given address.
pub open spec fn next_job_url(base: Seq<char>) -> Seq<char> {
    base + "/api/print/jobs/next"@
}

/// Whether the scheme of an address, if it has one, is that of HTTPS.
pub fn is_https(scheme: &Option<String>) -> (yes: bool)
    ensures
        yes == (scheme.deep_view() == Some("https"@)),
{
    match scheme {
        Some(scheme) => same_text(scheme.as_str(), "https"),
        None => false,
    }
}

/// An address from which jobs are claimed over HTTPS starts as an HTTPS address.
proof fn lemma_address_is_https(address: Seq<char>)
    requires
        ("https"@ + seq![':']).is_prefix_of(url_text(next_job_url(address))),
    ensures
        over_https(address),
{
    reveal_strlit("https");
    reveal_strlit("https:");
    reveal_strlit("/api/print/jobs/next");
    assert("https"@ + seq![':'] == "https:"@);
    lemma_start_is_before_the_path(address, "/api/print/jobs/next"@, "https:"@);
}

/// What is appended to an HTTPS address does not change that it is one.
proof fn lemma_path_keeps_https(address: Seq<char>, path: Seq<char>)
    requires
        over_https(address),
    ensures
        over_https(address + path),
{
    reveal_strlit("https:");
    assert(unpadded(address).len() > 0) by {
        if unpadded(address).len() == 0 {
            reveal(Seq::filter);
            assert(url_text(address).len() == 0);
        }
    }
    lemma_url_text_grows(address, path);
    assert(url_text(address).subrange(0, 6) == "https:"@);
    assert(url_text(address + path).subrange(0, 6) == "https:"@);
}

/// The print server as one printer sees it: its address, which is an HTTPS address,
/// and the printer's token.
pub struct PrintApi {
    api_url: String,
    token: String,
}

impl PrintApi {
    /// The address of the server.
    pub closed spec fn base(self) -> Seq<char> {
        self.api_url@
    }

    /// The printer's token.
    pub closed spec fn secret(self) -> Seq<char> {
        self.token@
    }

    #[verifier::type_invariant]
    spec fn secure(self) -> bool {
        &&& over_https(self.base())
        &&& url_scheme(next_job_url(self.base())) == Some("https"@)
    }

    /// The server at `api_url`, addressed with `token`. Slashes at the end of the
    /// address do not count. The token is for HTTPS alone: an address is taken exactly
    /// where the URL that jobs are claimed from has the scheme of HTTPS.
    pub fn new(api_url: &str, token: &str) -> (made: Result<PrintApi, ApiError>)
        ensures
            made is Ok <==> url_scheme(next_job_url(without_trailing(api_url@, '/'))) == Some(
                "https"@,
            ),
            made is Ok <==> url_scheme(
                without_trailing(api_url@, '/') + "/api/print/jobs/next"@,
            ) == Some("https"@),
            made is Ok ==> over_https(without_trailing(api_url@, '/')),
            made is Ok ==> "https:"@.is_prefix_of(url_text(without_trailing(api_url@, '/'))),
            made is Err ==> made->Err_0 is NotHttps,
            made is Ok ==> made->Ok_0.base() == without_trailing(api_url@, '/')
                && made->Ok_0.secret() == token@,
            made is Err ==> made->Err_0@ == ApiErrorModel::NotHttps,
    {
        let address = strip_trailing(api_url, '/');
        let claims = address.clone().concat("/api/print/jobs/next");
        let scheme = scheme_of(claims.as_str());
        if !is_https(&scheme) {
            return Err(ApiError::NotHttps);
        }
        proof {
            lemma_address_is_https(address@);
        }
        Ok(PrintApi { api_url: address, token: token.to_owned() })
    }

    /// The request that reports the agent to the server.
    pub fn heartbeat<'a>(
        &self,
        agent_version: &'a str,
        system_printer: &'a str,
        host: &'a str,
    ) -> (request: ApiRequest<HeartbeatRequest<'a>>)
        ensures
            request.method == Method::Post,
            request.url@ == self.base() + "/api/print/heartbeat"@,
            over_https(request.url@),
            "https:"@.is_prefix_of(url_text(request.url@)),
            header_contents(request.headers) == auth_contents(self.secret(), true),
            request.body.agent_version@ == agent_version@,
            request.body.system_printer@ == system_printer@,
            request.body.host@ == host@,
    {
        proof {
            use_type_invariant(self);
            lemma_path_keeps_https(self.base(), "/api/print/heartbeat"@);
        }
        ApiRequest {
            method: Method::Post,
            url: self.api_url.clone().concat("/api/print/heartbeat"),
            headers: self.auth_headers(true),
            body: HeartbeatRequest { agent_version, system_printer, host },
        }
    }

    /// The request that claims the next job of the queue.
    pub fn fetch_next(&self) -> (request: ApiRequest<()>)
        ensures
            request.method == Method::Get,
            request.url@ == next_job_url(self.base()),
            request.url@ == self.base() + "/api/print/jobs/next"@,
            over_https(request.url@),
            "https:"@.is_prefix_of(url_text(request.url@)),
            url_scheme(request.url@) == Some("https"@),
            header_contents(request.headers) == auth_contents(self.secret(), false),
    {
        proof {
            use_type_invariant(self);
            lemma_path_keeps_https(self.base(), "/api/print/jobs/next"@);
        }
        ApiRequest {
            method: Method::Get,
            url: self.api_url.clone().concat("/api/print/jobs/next"),
            headers: self.auth_headers(false),
            body: (),
        }
    }

    /// The request that reports a job as printed.
    pub fn ack_printed<'a>(&self, job_uuid: &str, duration_ms: u128) -> (request: ApiRequest<
        AckRequest<'a>,
    >)
        ensures
            request.method == Method::Post,
            request.url@ == self.ack_url(job_uuid@),
            request.url@ == self.base() + "/api/print/jobs/"@ + job_uuid@ + "/ack"@,
            over_https(request.url@),
            "https:"@.is_prefix_of(url_text(request.url@)),
            header_contents(request.headers) == auth_contents(self.secret(), true),
            request.body.status@ == "printed"@,
            request.body.error is None,
            request.body.duration_ms == Some(duration_ms),
    {
        self.ack(job_uuid, "printed", None, Some(duration_ms))
    }

    /// The request that reports a job as failed.
    pub fn ack_failed<'a>(&self, job_uuid: &str, error: &'a str) -> (request: ApiRequest<
        AckRequest<'a>,
    >)
        ensures
            request.method == Method::Post,
            request.url@ == self.ack_url(job_uuid@),
            request.url@ == self.base() + "/api/print/jobs/"@ + job_uuid@ + "/ack"@,
            over_https(request.url@),
            "https:"@.is_prefix_of(url_text(request.url@)),
            header_contents(request.headers) == auth_contents(self.secret(), true),
            request.body.status@ == "failed"@,
            request.body.error is Some && request.body.error->0@ == error@,
            request.body.duration_ms is None,
    {
        self.ack(job_uuid, "failed", Some(error), None)
    }

    /// Where the acknowledgement of a job goes.
    pub open spec fn ack_url(self, job_uuid: Seq<char>) -> Seq<char> {
        self.base() + "/api/print/jobs/"@ + job_uuid + "/ack"@
    }

    fn ack<'a>(
        &self,
        job_uuid: &str,
        status: &'a str,
        error: Option<&'a str>,
        duration_ms: Option<u128>,
    ) -> (request: ApiRequest<AckRequest<'a>>)
        ensures
            request.method == Method::Post,
            request.url@ == self.ack_url(job_uuid@),
            request.url@ == self.base() + "/api/print/jobs/"@ + job_uuid@ + "/ack"@,
            over_https(request.url@),
            "https:"@.is_prefix_of(url_text(request.url@)),
            header_contents(request.headers) == auth_contents(self.secret(), true),
            request.body == (AckRequest { status, error, duration_ms }),
    {
        proof {
            use_type_invariant(self);
            lemma_path_keeps_https(self.base(), "/api/print/jobs/"@);
            lemma_path_keeps_https(self.base() + "/api/print/jobs/"@, job_uuid@);
            lemma_path_keeps_https(self.base() + "/api/print/jobs/"@ + job_uuid@, "/ack"@);
        }
        ApiRequest {
            method: Method::Post,
            url: self.api_url.clone().concat("/api/print/jobs/").concat(job_uuid).concat("/ack"),
            headers: self.auth_headers(true),
            body: AckRequest { status, error, duration_ms },
        }
    }

    fn auth_headers(&self, with_json_content: bool) -> (headers: HeaderMap<HeaderValue>)
        ensures
            header_contents(headers) == auth_contents(self.secret(), with_json_content),
    {
        proof {
            reveal_strlit("authorization");
            reveal_strlit("accept");
            reveal_strlit("content-type");
            reveal_strlit("application/json");
            reveal_strlit("application/json, application/pdf, application/octet-stream");
            lemma_printable_is_valid("application/json"@);
            lemma_printable_is_valid(accepted_types());
        }
        let mut headers = no_headers();
        let bearer = "Bearer ".to_owned().concat(self.token.as_str());
        let _known = set_header(&mut headers, "authorization", bearer.as_str());
        let _accepting = set_header(
            &mut headers,
            "accept",
            "application/json, application/pdf, application/octet-stream",
        );
        if with_json_content {
            let _typed = set_header(&mut headers, "content-type", "application/json");
        }
        headers
    }
}

/// An acknowledgement names its job by the whole identifier: this stands between two
/// fixed parts behind the server's address, and the acknowledgements of two different
/// jobs go to different places.
pub proof fn law_acknowledgement_names_its_job(api: PrintApi, a: Seq<char>, b: Seq<char>)
    ensures
        api.ack_url(a) == api.base() + "/api/print/jobs/"@ + a + "/ack"@,
        api.ack_url(a) == api.ack_url(b) ==> a == b,
{
    let start = api.base() + "/api/print/jobs/"@;
    let n = start.len() as int;
    let url_a = api.ack_url(a);
    let url_b = api.ack_url(b);
    assert(url_a.subrange(n, url_a.len() - "/ack"@.len()) == a);
    assert(url_b.subrange(n, url_b.len() - "/ack"@.len()) == b);
}

/// The server's address means the same with and without slashes at its end, however
/// many there are.
pub proof fn law_trailing_slashes_do_not_count(address: Seq<char>, slashes: Seq<char>)
    requires
        forall|i: int| 0 <= i < slashes.len() ==> #[trigger] slashes[i] == '/',
    ensures
        without_trailing(address + slashes, '/') == without_trailing(address, '/'),
    decreases slashes.len(),
{
    if slashes.len() == 0 {
        assert(address + slashes == address);
    } else {
        let fewer = slashes.drop_last();
        assert forall|i: int| 0 <= i < fewer.len() implies #[trigger] fewer[i] == '/' by {
            assert(fewer[i] == slashes[i]);
        }
        law_trailing_slashes_do_not_count(address, fewer);
        assert((address + slashes).drop_last() == address + fewer);
        assert((address + slashes).last() == slashes.last());
    }
}

/// No request has a doubled slash between the server's address and the path: the
/// address that is kept does not end in a slash, and starts the one that was given.
pub proof fn law_address_ends_without_slash(address: Seq<char>)
    ensures
        ({
            let kept = without_trailing(address, '/');
            &&& kept.len() > 0 ==> kept.last() != '/'
            &&& kept.is_prefix_of(address)
            &&& forall|i: int| kept.len() <= i < address.len() ==> #[trigger] address[i] == '/'
        }),
    decreases address.len(),
{
    if address.len() > 0 && address.last() == '/' {
        let rest = address.drop_last();
        law_address_ends_without_slash(rest);
        let kept = without_trailing(rest, '/');
        assert(address.subrange(0, kept.len() as int) == rest.subrange(0, kept.len() as int));
        assert forall|i: int| kept.len() <= i < address.len() implies #[trigger] address[i] == '/' by {
            if i < rest.len() {
                assert(rest[i] == address[i]);
            }
        }
    } else {
        assert(address.subrange(0, address.len() as int) == address);
    }
}

/// A request has an `Accept` header, an `Authorization` header with the whole token
/// where a header value can hold it, a `Content-Type` header where it has a body, and
/// no other headers.
pub proof fn law_requests_have_these_headers(token: Seq<char>, with_json_content: bool)
    ensures
        ({
            let headers = auth_contents(token, with_json_content);
            let bearer = encode_utf8("Bearer "@ + token);
            let sendable = forall|i: int|
                0 <= i < bearer.len() ==> #[trigger] bearer[i] == 9 || (bearer[i] >= 32 && bearer[i]
                    != 127);
            &&& headers.dom().contains("accept"@)
            &&& headers["accept"@] == seq![
                encode_utf8("application/json, application/pdf, application/octet-stream"@),
            ]
            &&& headers.dom().contains("authorization"@) <==> sendable
            &&& sendable ==> headers["authorization"@] == seq![bearer]
            &&& headers.dom().contains("content-type"@) <==> with_json_content
            &&& with_json_content ==> headers["content-type"@] == seq![
                encode_utf8("application/json"@),
            ]
            &&& forall|name: Seq<char>| #[trigger]
                headers.dom().contains(name) ==> name == "accept"@ || name == "authorization"@
                    || name == "content-type"@
        }),
{
    reveal_strlit("authorization");
    reveal_strlit("accept");
    reveal_strlit("content-type");
    assert("accept"@.len() == 6 && "authorization"@.len() == 13 && "content-type"@.len() == 12);
}

/// A token of visible ASCII characters is sent with every request, as the bearer
/// token of its `Authorization` header.
pub proof fn law_requests_are_authorised(token: Seq<char>, with_json_content: bool)
    requires
        forall|i: int| 0 <= i < token.len() ==> ' ' <= #[trigger] token[i] <= '~',
    ensures
        header_text(auth_contents(token, with_json_content), "Authorization"@) == Some(
            "Bearer "@ + token,
        ),
{
    reveal_strlit("Authorization");
    reveal_strlit("authorization");
    reveal_strlit("accept");
    reveal_strlit("content-type");
    reveal_strlit("Bearer ");
    let value = "Bearer "@ + token;
    lemma_printable_is_valid(value);
    assert(is_ascii_chars(value));
    is_ascii_chars_encode_utf8(value);
    assert(lowered("Authorization"@) == "authorization"@);
    assert("accept"@.len() != "authorization"@.len());
    assert("content-type"@.len() != "authorization"@.len());
    assert(visible_value(encode_utf8(value)));
    law_header_reads_back(HeaderContents::empty(), "authorization"@, "Authorization"@, value);
}

// ---------------------------------------------------------------------------
// Replies
// ---------------------------------------------------------------------------

impl<T> Reply<T> {
    /// A reply with a status of three digits, whose text can be cut for display
    /// where it tells a refusal.
    pub open spec fn readable(self) -> bool {
        &&& 100 <= self.status <= 999
        &&& !success(self.status) ==> can_cut(text_or_empty(self.text), ERROR_BODY_LIMIT as int)
    }

    /// The error of a reply that tells a refusal.
    pub open spec fn refused(self) -> ApiErrorModel {
        ApiErrorModel::Http(refusal(status_line(self.status), text_or_empty(self.text)))
    }

    /// How the message for a refusal starts: with its status, in figures.
    pub open spec fn refusal_start(self) -> Seq<char> {
        "HTTP "@ + decimal(self.status as nat) + " "@
    }
}

/// Every reply with a status of three digits can be read, unless it is a refusal whose
/// text has a character across the place where it would be cut.
pub proof fn law_replies_can_be_read<T>(reply: Reply<T>)
    requires
        100 <= reply.status <= 999,
        !(200 <= reply.status <= 299) && reply.text is Some ==> {
            let bytes = encode_utf8(reply.text->0@);
            bytes.len() <= 400 || is_char_boundary(bytes, 400)
        },
    ensures
        reply.readable(),
{
    lemma_nothing_is_not_cut();
    is_ascii_chars_encode_utf8(Seq::empty());
}

/// What the answer to a heartbeat tells; `None` where none came.
pub fn heartbeat_result(reply: Option<Reply<HeartbeatResponse>>) -> (result: Result<
    HeartbeatData,
    ApiError,
>)
    requires
        reply is Some ==> reply->0.readable(),
    ensures
        match reply {
            None => result is Err && result->Err_0@ == ApiErrorModel::Transport(
                Endpoint::Heartbeat,
            ),
            Some(reply) => if !success(reply.status) {
                result is Err && result->Err_0@ == reply.refused()
            } else {
                match reply.payload {
                    None => result is Err && result->Err_0@ == ApiErrorModel::Decode,
                    Some(response) => result is Ok && result->Ok_0 == response.data,
                }
            },
        },
        reply is Some && !success(reply->0.status) ==> reply->0.refusal_start().is_prefix_of(
            result->Err_0@.message(),
        ),
        match reply {
            None => result matches Err(ApiError::Transport(Endpoint::Heartbeat)),
            Some(reply) => if 200 <= reply.status <= 299 {
                match reply.payload {
                    None => result matches Err(ApiError::Decode),
                    Some(response) => result matches Ok(data) && data == response.data,
                }
            } else {
                result matches Err(ApiError::Http(told)) && told@ == "HTTP "@ + status_line(
                        reply.status,
                    ) + ": "@ + (match reply.text {
                        Some(text) => truncated(text@, 400),
                        None => Seq::empty(),
                    })
            },
        },
{
    match reply {
        None => Err(ApiError::Transport(Endpoint::Heartbeat)),
        Some(reply) => if !is_success(reply.status) {
            Err(error_from(reply.status, reply.text))
        } else {
            match reply.payload {
                None => Err(ApiError::Decode),
                Some(response) => Ok(response.data),
            }
        },
    }
}

/// The job that a reply with the given headers and bytes stands for.
pub open spec fn job_of(headers: HeaderContents, bytes: Seq<u8>) -> JobModel {
    JobModel {
        uuid: header_text(headers, "x-print-job-uuid"@).unwrap_or(seq![]),
        format: header_text(headers, "x-print-job-format"@).unwrap_or("pdf"@),
        tracking: header_text(headers, "x-print-job-tracking"@).unwrap_or(seq![]),
        bytes,
    }
}

/// What claiming a job came to; `None` where no reply came.
pub open spec fn fetch_outcome(reply: Option<Reply<Vec<u8>>>) -> Result<
    Option<JobModel>,
    ApiErrorModel,
> {
    match reply {
        None => Err(ApiErrorModel::Transport(Endpoint::FetchNext)),
        Some(reply) => if reply.status == 204 {
            Ok(None)
        } else if !success(reply.status) {
            Err(reply.refused())
        } else if job_of(header_contents(reply.headers), seq![]).uuid.len() == 0 {
            Err(ApiErrorModel::MissingUuid)
        } else {
            match reply.payload {
                None => Err(ApiErrorModel::Body),
                Some(bytes) => Ok(Some(job_of(header_contents(reply.headers), bytes@))),
            }
        },
    }
}

/// What a fetched result holds.
pub open spec fn fetched(result: Result<Option<NextJob>, ApiError>) -> Result<
    Option<JobModel>,
    ApiErrorModel,
> {
    match result {
        Ok(Some(job)) => Ok(Some(job@)),
        Ok(None) => Ok(None),
        Err(error) => Err(error@),
    }
}

/// The claimed job, or `None` while the queue is empty (status 204). Every other
/// status than a success is an error, and so is a job without its identifier.
pub fn fetch_next_result(reply: Option<Reply<Vec<u8>>>) -> (result: Result<
    Option<NextJob>,
    ApiError,
>)
    requires
        reply is Some ==> reply->0.readable(),
    ensures
        fetched(result) == fetch_outcome(reply),
        reply is Some && !success(reply->0.status) ==> reply->0.refusal_start().is_prefix_of(
            result->Err_0@.message(),
        ),
        match reply {
            None => result matches Err(ApiError::Transport(Endpoint::FetchNext)),
            Some(reply) => if reply.status == 204 {
                result matches Ok(None)
            } else if 200 <= reply.status <= 299 {
                let headers = header_contents(reply.headers);
                match header_text(headers, "X-Print-Job-Uuid"@) {
                    None => result matches Err(ApiError::MissingUuid),
                    Some(uuid) => if uuid.len() == 0 {
                        result matches Err(ApiError::MissingUuid)
                    } else if reply.payload is None {
                        result matches Err(ApiError::Body)
                    } else {
                        result matches Ok(Some(job)) && {
                            &&& job.uuid@ == uuid
                            &&& job.bytes@ == reply.payload->0@
                            &&& job.format@ == (match header_text(
                                headers,
                                "X-Print-Job-Format"@,
                            ) {
                                Some(format) => format,
                                None => "pdf"@,
                            })
                            &&& job.tracking@ == (match header_text(
                                headers,
                                "X-Print-Job-Tracking"@,
                            ) {
                                Some(tracking) => tracking,
                                None => Seq::empty(),
                            })
                        }
                    },
                }
            } else {
                result matches Err(ApiError::Http(told)) && told@ == "HTTP "@ + status_line(
                        reply.status,
                    ) + ": "@ + (match reply.text {
                        Some(text) => truncated(text@, 400),
                        None => Seq::empty(),
                    })
            },
        },
{
    proof {
        lemma_names_of_the_job_headers();
    }
    match reply {
        None => Err(ApiError::Transport(Endpoint::FetchNext)),
        Some(reply) => {
            if reply.status == 204 {
                return Ok(None);
            }
            if !is_success(reply.status) {
                return Err(error_from(reply.status, reply.text));
            }
            let uuid = match read_header(&reply.headers, "x-print-job-uuid") {
                Some(value) => value,
                None => String::new(),
            };
            let format = match read_header(&reply.headers, "x-print-job-format") {
                Some(value) => value,
                None => "pdf".to_owned(),
            };
            let tracking = match read_header(&reply.headers, "x-print-job-tracking") {
                Some(value) => value,
                None => String::new(),
            };
            if uuid.as_str().is_empty() {
                return Err(ApiError::MissingUuid);
            }
            match reply.payload {
                None => Err(ApiError::Body),
                Some(bytes) => Ok(Some(NextJob { uuid, format, tracking, bytes })),
            }
        },
    }
}

/// Whether an acknowledgement arrived; `None` where no reply came.
pub fn ack_result(reply: Option<Reply<()>>) -> (result: Result<(), ApiError>)
    requires
        reply is Some ==> reply->0.readable(),
    ensures
        match reply {
            None => result is Err && result->Err_0@ == ApiErrorModel::Transport(Endpoint::Ack),
            Some(reply) => if !success(reply.status) {
                result is Err && result->Err_0@ == reply.refused()
            } else {
                result is Ok
            },
        },
        reply is Some && !success(reply->0.status) ==> reply->0.refusal_start().is_prefix_of(
            result->Err_0@.message(),
        ),
        match reply {
            None => result matches Err(ApiError::Transport(Endpoint::Ack)),
            Some(reply) => if 200 <= reply.status <= 299 {
                result is Ok
            } else {
                result matches Err(ApiError::Http(told)) && told@ == "HTTP "@ + status_line(
                        reply.status,
                    ) + ": "@ + (match reply.text {
                        Some(text) => truncated(text@, 400),
                        None => Seq::empty(),
                    })
            },
        },
{
    match reply {
        None => Err(ApiError::Transport(Endpoint::Ack)),
        Some(reply) => if !is_success(reply.status) {
            Err(error_from(reply.status, reply.text))
        } else {
            Ok(())
        },
    }
}

/// The headers of a job are found under their names, however those are capitalised.
proof fn lemma_names_of_the_job_headers()
    ensures
        lowered("X-Print-Job-Uuid"@) == lowered("x-print-job-uuid"@),
        lowered("X-Print-Job-Format"@) == lowered("x-print-job-format"@),
        lowered("X-Print-Job-Tracking"@) == lowered("x-print-job-tracking"@),
{
    reveal_strlit("X-Print-Job-Uuid");
    reveal_strlit("x-print-job-uuid");
    reveal_strlit("X-Print-Job-Format");
    reveal_strlit("x-print-job-format");
    reveal_strlit("X-Print-Job-Tracking");
    reveal_strlit("x-print-job-tracking");
    assert(lowered("X-Print-Job-Uuid"@) == lowered("x-print-job-uuid"@));
    assert(lowered("X-Print-Job-Format"@) == lowered("x-print-job-format"@));
    assert(lowered("X-Print-Job-Tracking"@) == lowered("x-print-job-tracking"@));
}

/// A claimed job carries all the bytes of the reply, unchanged, and what the headers of
/// the reply say of it; and a reply with a job is never taken for an empty queue.
pub proof fn law_claimed_job_is_that_of_the_reply(reply: Reply<Vec<u8>>)
    ensures
        fetch_outcome(Some(reply)) matches Ok(Some(job)) ==> {
            let headers = header_contents(reply.headers);
            &&& reply.payload is Some
            &&& job.bytes == reply.payload->0@
            &&& header_text(headers, "X-Print-Job-Uuid"@) == Some(job.uuid)
            &&& header_text(headers, "X-Print-Job-Tracking"@) is Some ==> job.tracking
                == header_text(headers, "X-Print-Job-Tracking"@)->0
        },
        fetch_outcome(Some(reply)) == Ok::<Option<JobModel>, ApiErrorModel>(None) <==> reply.status
            == 204,
{
    lemma_names_of_the_job_headers();
}

/// A job that is handed on always has an identifier.
pub proof fn law_fetched_jobs_have_a_uuid(reply: Option<Reply<Vec<u8>>>)
    ensures
        fetch_outcome(reply) matches Ok(Some(job)) ==> job.uuid.len() > 0,
{
}

/// The server dictates the format of each job; a job is a PDF where it does not.
pub proof fn law_format_is_dictated_by_the_server(reply: Reply<Vec<u8>>)
    ensures
        fetch_outcome(Some(reply)) matches Ok(Some(job)) ==> match header_text(
            header_contents(reply.headers),
            "X-Print-Job-Format"@,
        ) {
            Some(format) => job.format == format,
            None => job.format == "pdf"@,
        },
{
    reveal_strlit("X-Print-Job-Format");
    reveal_strlit("x-print-job-format");
    assert(lowered("X-Print-Job-Format"@) == lowered("x-print-job-format"@));
}

} // verus!
