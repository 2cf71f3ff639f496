//! The request/response exchange every Gmail endpoint runs: a request
//! description (method, path under the API base, query pairs, JSON
//! body), the URL it resolves to, and the coroutine that sends it over
//! HTTP/1.1 and classifies the response.
//!
//! The wire protocol is io-http's `Http11Send`; the URL resolution and
//! query encoding are the url crate's. This module decides what is sent
//! and what a response means for the caller.

use vstd::prelude::*;
use vstd::string::*;

use io_http::rfc6750::bearer::HttpAuthBearer;
use io_http::rfc9112::send::Http11SendError;

use crate::coroutine::{GmailCoroutine, GmailCoroutineState, GmailYield};
use crate::v1::http::{
    capped_run, ended_within, event_view, fed_bytes, holds_top_numeral, http11_resume, http11_send,
    input_view, lemma_ended_within_push, lemma_event_ends, lemma_fed_bytes_push, scan_top_numeral,
    step_ends, step_of, trailing_f, url_parses, HttpEvent, HttpExchange, HttpStep, WireRequest,
};
use crate::v1::json::{fields_view, object_has, values_of};

verus! {

/// The root every endpoint path is resolved against.
pub const GMAIL_API_BASE: &'static str = "https://gmail.googleapis.com/gmail/v1/";

/// An OAuth 2.0 access token, sent with every request as a bearer
/// credential.
pub struct GmailAuth {
    token: String,
}

impl View for GmailAuth {
    type V = Seq<char>;

    closed spec fn view(&self) -> Seq<char> {
        self.token@
    }
}

impl GmailAuth {
    /// The credential of an access token.
    pub fn new(token: &str) -> (r: Self)
        ensures
            r@ == token@,
    {
        GmailAuth { token: String::from_str(token) }
    }
}

/// The text of the URL that `Url::join` gives for `input` against the
/// URL that `base` parses to, or `None` when either step fails.
pub uninterp spec fn joined_url(base: Seq<char>, input: Seq<char>) -> Option<Seq<char>>;

/// The text of a parsed URL after `query_pairs_mut().extend_pairs(pairs)`.
pub uninterp spec fn url_with_query(url: Seq<char>, pairs: Seq<(Seq<char>, Seq<char>)>) -> Seq<
    char,
>;

/// `url::Url::join`: parses `base` into a `Url`, joins `input` onto it
/// and returns the result as text. The contract claims that the outcome
/// is a function of the two texts (`joined_url`), and that the text of
/// a joined URL parses again, as the URL standard makes serialization
/// idempotent.
#[verifier::external_body]
fn url_join(base: &str, input: &str) -> (r: Result<String, url::ParseError>)
    ensures
        match r {
            Ok(u) => joined_url(base@, input@) == Some(u@) && url_parses(u@),
            Err(_) => joined_url(base@, input@) is None,
        },
{
    match url::Url::parse(base) {
        Ok(b) => b.join(input).map(String::from),
        Err(e) => Err(e),
    }
}

/// `url::Url::query_pairs_mut` followed by `extend_pairs`: parses `url`,
/// appends the pairs form-urlencoded to its query and returns the result
/// as text. The contract claims that the call fails exactly when the
/// text does not parse, that the outcome is a function of the text and
/// the pairs (`url_with_query`), and that it parses again.
#[verifier::external_body]
fn url_append_query_pairs(url: &str, pairs: &Vec<(String, String)>) -> (r: Result<
    String,
    url::ParseError,
>)
    ensures
        r is Ok <==> url_parses(url@),
        r matches Ok(u) ==> u@ == url_with_query(url@, fields_view(pairs@)) && url_parses(u@),
{
    let mut u = url::Url::parse(url)?;
    u.query_pairs_mut().extend_pairs(pairs.iter());
    Ok(u.into())
}

/// `HttpAuthBearer::new(token).to_authorization()`, which io-http
/// writes as `Bearer ` followed by the token. The contract claims
/// exactly that text.
#[verifier::external_body]
fn bearer_authorization(token: &str) -> (r: String)
    ensures
        r@ == "Bearer "@ + token@,
{
    HttpAuthBearer::new(token).to_authorization()
}

/// Why a Gmail exchange could not be prepared or did not succeed.
#[derive(Debug)]
pub enum GmailSendError {
    /// The arguments describe no valid request.
    InvalidRequest(String),
    /// The endpoint URL could not be built.
    Url(url::ParseError),
    /// The HTTP exchange failed.
    Http(Http11SendError),
    /// The server redirected the request.
    Redirect { status: u16, location: String },
    /// The server answered with a status outside `2xx`.
    Status { status: u16, body: Vec<u8> },
    /// The bytes read hold `usize::MAX - 1` or `usize::MAX` written in
    /// hexadecimal (see `top_numeral_at`): as a chunk size, io-http's
    /// chunked-body decoder cannot take it, so the exchange stops before
    /// handing those bytes over.
    ChunkSizeOverflow,
    /// The coroutine was resumed after it had completed.
    Finished,
}

/// A successful response: its status, body and whether the connection
/// can be reused.
#[derive(Debug)]
pub struct GmailSendOutput {
    pub status: u16,
    pub body: Vec<u8>,
    pub keep_alive: bool,
}

/// The HTTP method of a request.
#[derive(Debug, Clone, Copy, PartialEq, Eq, Structural)]
pub enum GmailMethod {
    Get,
    Post,
    Put,
    Delete,
}

impl GmailMethod {
    /// The method token on the request line.
    pub open spec fn token(self) -> Seq<char> {
        match self {
            GmailMethod::Get => seq!['G', 'E', 'T'],
            GmailMethod::Post => seq!['P', 'O', 'S', 'T'],
            GmailMethod::Put => seq!['P', 'U', 'T'],
            GmailMethod::Delete => seq!['D', 'E', 'L', 'E', 'T', 'E'],
        }
    }

    /// Exec form of `token`.
    pub fn as_str(self) -> (r: &'static str)
        ensures
            r@ == self.token(),
    {
        match self {
            GmailMethod::Get => {
                let r = "GET";
                proof {
                    reveal_strlit("GET");
                }
                r
            },
            GmailMethod::Post => {
                let r = "POST";
                proof {
                    reveal_strlit("POST");
                }
                r
            },
            GmailMethod::Put => {
                let r = "PUT";
                proof {
                    reveal_strlit("PUT");
                }
                r
            },
            GmailMethod::Delete => {
                let r = "DELETE";
                proof {
                    reveal_strlit("DELETE");
                }
                r
            },
        }
    }
}

/// What an endpoint sends: the method, the path relative to
/// `GMAIL_API_BASE`, the query pairs (`None` when the URL gets no
/// query at all) and the JSON body (`None` for an empty body).
#[derive(Debug)]
pub struct GmailRequest {
    pub method: GmailMethod,
    pub path: String,
    pub query: Option<Vec<(String, String)>>,
    pub json: Option<String>,
}

/// The mathematical value of a `GmailRequest`.
pub struct GmailRequestView {
    pub method: GmailMethod,
    pub path: Seq<char>,
    pub query: Option<Seq<(Seq<char>, Seq<char>)>>,
    pub json: Option<Seq<char>>,
}

impl View for GmailRequest {
    type V = GmailRequestView;

    open spec fn view(&self) -> GmailRequestView {
        GmailRequestView {
            method: self.method,
            path: self.path@,
            query: match self.query {
                Some(q) => Some(fields_view(q@)),
                None => None,
            },
            json: match self.json {
                Some(j) => Some(j@),
                None => None,
            },
        }
    }
}

/// The full URL of a request, when its path resolves against the base.
pub open spec fn request_url(req: GmailRequestView) -> Option<Seq<char>> {
    match joined_url(GMAIL_API_BASE@, req.path) {
        Some(u) => match req.query {
            Some(pairs) => Some(url_with_query(u, pairs)),
            None => Some(u),
        },
        None => None,
    }
}

/// The body bytes of a request: the UTF-8 encoding of its JSON text.
pub open spec fn request_body(req: GmailRequestView) -> Seq<u8> {
    match req.json {
        Some(j) => vstd::utf8::encode_utf8(j),
        None => Seq::empty(),
    }
}

/// `application/json`.
pub open spec fn application_json() -> Seq<char> {
    seq!['a', 'p', 'p', 'l', 'i', 'c', 'a', 't', 'i', 'o', 'n', '/', 'j', 's', 'o', 'n']
}

/// The headers sent with a request: the bearer authorization of the
/// token first, then, for a JSON body, its content type.
pub open spec fn request_headers(auth: Seq<char>, req: GmailRequestView) -> Seq<(Seq<char>, Seq<char>)> {
    let authorization = ("authorization"@, "Bearer "@ + auth);
    match req.json {
        Some(_) => seq![authorization, ("content-type"@, application_json())],
        None => seq![authorization],
    }
}

/// What io-http is handed for a request that resolves to `url`.
pub open spec fn wire_request(auth: Seq<char>, req: GmailRequestView, url: Seq<char>) -> WireRequest {
    WireRequest {
        method: req.method.token(),
        url,
        headers: request_headers(auth, req),
        body: request_body(req),
    }
}

/// Whether an endpoint constructor did what the request calls for: it
/// succeeds exactly when the request's URL resolves, with a fresh
/// exchange of the request under the token `auth`, and fails with a URL
/// error otherwise.
pub open spec fn built<T: View<V = GmailSendView>>(
    r: Result<T, GmailSendError>,
    auth: Seq<char>,
    req: GmailRequestView,
) -> bool {
    &&& (r is Ok <==> resolves(req))
    &&& match r {
        Ok(c) => prepared(c@, auth, req),
        Err(e) => e is Url,
    }
}

/// Like `built`, for a constructor that first checks its arguments:
/// when they are not `valid` it fails with `InvalidRequest(message)`.
pub open spec fn built_if<T: View<V = GmailSendView>>(
    r: Result<T, GmailSendError>,
    auth: Seq<char>,
    valid: bool,
    message: Seq<char>,
    req: GmailRequestView,
) -> bool {
    if valid {
        built(r, auth, req)
    } else {
        r matches Err(GmailSendError::InvalidRequest(m)) && m@ == message
    }
}

/// Whether a request builder that first checks its arguments gave the
/// request when they are `valid`, and `InvalidRequest(message)` when
/// they are not.
pub open spec fn requested_if(
    r: Result<GmailRequest, GmailSendError>,
    valid: bool,
    message: Seq<char>,
    req: GmailRequestView,
) -> bool {
    if valid {
        r matches Ok(q) && q@ == req
    } else {
        r matches Err(GmailSendError::InvalidRequest(m)) && m@ == message
    }
}

/// The values that a request's query gives `key`, in order; none when
/// the request has no query.
pub open spec fn query_values(req: GmailRequestView, key: Seq<char>) -> Seq<Seq<char>> {
    match req.query {
        Some(q) => values_of(q, key),
        None => Seq::empty(),
    }
}

/// Whether a request has a JSON object body whose members named `key`
/// hold exactly `values`.
pub open spec fn body_has(req: GmailRequestView, key: Seq<char>, values: Seq<Seq<char>>) -> bool {
    match req.json {
        Some(j) => object_has(j, key, values),
        None => false,
    }
}

/// A request without query and body.
pub open spec fn bare_request(method: GmailMethod, path: Seq<char>) -> GmailRequestView {
    GmailRequestView { method, path, query: None, json: None }
}

/// A request with a JSON body and no query.
pub open spec fn json_request(method: GmailMethod, path: Seq<char>, json: Seq<char>) -> GmailRequestView {
    GmailRequestView { method, path, query: None, json: Some(json) }
}

/// A request with query pairs and no body.
pub open spec fn query_request(
    method: GmailMethod,
    path: Seq<char>,
    query: Seq<(Seq<char>, Seq<char>)>,
) -> GmailRequestView {
    GmailRequestView { method, path, query: Some(query), json: None }
}


enum SendState {
    Exchanging(HttpExchange),
    Finished,
}

/// The coroutine of one Gmail exchange.
pub struct GmailSend {
    request: GmailRequest,
    url: String,
    wire: Ghost<WireRequest>,
    fed: Ghost<Seq<Option<Seq<u8>>>>,
    run: usize,
    state: SendState,
}

/// The mathematical value of a `GmailSend`: the request, its URL, what
/// io-http was handed for it, the inputs fed so far, and whether it has
/// completed.
pub struct GmailSendView {
    pub request: GmailRequestView,
    pub url: Seq<char>,
    pub wire: WireRequest,
    pub fed: Seq<Option<Seq<u8>>>,
    pub finished: bool,
}

impl View for GmailSend {
    type V = GmailSendView;

    closed spec fn view(&self) -> GmailSendView {
        GmailSendView {
            request: self.request@,
            url: self.url@,
            wire: self.wire@,
            fed: self.fed@,
            finished: self.state is Finished,
        }
    }
}

impl GmailSend {
    /// A running exchange is the io-http exchange of the recorded
    /// request, has been fed the recorded inputs, and has not ended; the
    /// bytes fed hold no top numeral, and `run` counts their trailing
    /// `f` digits.
    #[verifier::type_invariant]
    closed spec fn exchange_matches(self) -> bool {
        match self.state {
            SendState::Exchanging(x) => {
                &&& x@.sent == self.wire@
                &&& x@.fed == self.fed@
                &&& !ended_within(self.wire@, self.fed@)
                &&& !holds_top_numeral(fed_bytes(self.fed@))
                &&& self.run == capped_run(trailing_f(fed_bytes(self.fed@)))
            },
            SendState::Finished => true,
        }
    }
}

/// Whether a coroutine is the fresh exchange of `req` under the token
/// `auth`: io-http was handed the request's method, URL, headers and
/// body, nothing has been fed yet, and it has not completed.
pub open spec fn prepared(v: GmailSendView, auth: Seq<char>, req: GmailRequestView) -> bool {
    &&& v.request == req
    &&& request_url(req) == Some(v.url)
    &&& v.wire == wire_request(auth, req, v.url)
    &&& v.fed == Seq::<Option<Seq<u8>>>::empty()
    &&& !v.finished
}

/// Whether the request's URL can be built.
pub open spec fn resolves(req: GmailRequestView) -> bool {
    joined_url(GMAIL_API_BASE@, req.path) is Some
}

/// What the caller sees of one HTTP step: reads and writes are passed
/// on, a `2xx` response completes successfully, any other response, a
/// redirection or a failure completes with the matching error.
pub open spec fn outcome(e: HttpEvent) -> GmailCoroutineState<
    GmailYield,
    Result<GmailSendOutput, GmailSendError>,
> {
    match e {
        HttpEvent::WantsRead => GmailCoroutineState::Yielded(GmailYield::WantsRead),
        HttpEvent::WantsWrite(bytes) => GmailCoroutineState::Yielded(GmailYield::WantsWrite(bytes)),
        HttpEvent::Redirect { status, location } => GmailCoroutineState::Complete(
            Err(GmailSendError::Redirect { status, location }),
        ),
        HttpEvent::Response { status, body, keep_alive } => if 200 <= status < 300 {
            GmailCoroutineState::Complete(Ok(GmailSendOutput { status, body, keep_alive }))
        } else {
            GmailCoroutineState::Complete(Err(GmailSendError::Status { status, body }))
        },
        HttpEvent::Failed(err) => GmailCoroutineState::Complete(Err(GmailSendError::Http(err))),
    }
}

/// A coroutine's answer as plain values; an HTTP failure's cause and a
/// URL error's detail are opaque.
pub enum GmailAnswer {
    WantsRead,
    WantsWrite(Seq<u8>),
    Done { status: u16, body: Seq<u8>, keep_alive: bool },
    InvalidRequest(Seq<char>),
    Url,
    Http,
    Redirect { status: u16, location: Seq<char> },
    Status { status: u16, body: Seq<u8> },
    ChunkSizeOverflow,
    Finished,
}

/// The plain values of an answer.
pub open spec fn answer_view(r: GmailCoroutineState<GmailYield, Result<GmailSendOutput, GmailSendError>>) -> GmailAnswer {
    match r {
        GmailCoroutineState::Yielded(GmailYield::WantsRead) => GmailAnswer::WantsRead,
        GmailCoroutineState::Yielded(GmailYield::WantsWrite(bytes)) => GmailAnswer::WantsWrite(bytes@),
        GmailCoroutineState::Complete(Ok(out)) => GmailAnswer::Done {
            status: out.status,
            body: out.body@,
            keep_alive: out.keep_alive,
        },
        GmailCoroutineState::Complete(Err(e)) => match e {
            GmailSendError::InvalidRequest(m) => GmailAnswer::InvalidRequest(m@),
            GmailSendError::Url(_) => GmailAnswer::Url,
            GmailSendError::Http(_) => GmailAnswer::Http,
            GmailSendError::Redirect { status, location } => GmailAnswer::Redirect {
                status,
                location: location@,
            },
            GmailSendError::Status { status, body } => GmailAnswer::Status { status, body: body@ },
            GmailSendError::ChunkSizeOverflow => GmailAnswer::ChunkSizeOverflow,
            GmailSendError::Finished => GmailAnswer::Finished,
        },
    }
}

/// What the caller is answered for one HTTP step, as plain values.
pub open spec fn step_answer(s: HttpStep) -> GmailAnswer {
    match s {
        HttpStep::WantsRead => GmailAnswer::WantsRead,
        HttpStep::WantsWrite(bytes) => GmailAnswer::WantsWrite(bytes),
        HttpStep::Redirect { status, location } => GmailAnswer::Redirect { status, location },
        HttpStep::Response { status, body, keep_alive } => if 200 <= status < 300 {
            GmailAnswer::Done { status, body, keep_alive }
        } else {
            GmailAnswer::Status { status, body }
        },
        HttpStep::Failed => GmailAnswer::Http,
    }
}

/// How one resume with `input` relates the coroutine before and after
/// to what it returned. A completed coroutine answers `Finished` and
/// stays as it is. When the bytes fed, with the input, would hold a top
/// numeral, the input is not handed over and the coroutine completes
/// with `ChunkSizeOverflow`. Otherwise the input is recorded, and the
/// answer is that of the step that io-http gives on the request and
/// every input fed so far; the coroutine completes exactly when that
/// step ends the exchange. The request, URL and what io-http was handed
/// never change.
pub open spec fn resumed(
    before: GmailSendView,
    after: GmailSendView,
    input: Option<Seq<u8>>,
    r: GmailCoroutineState<GmailYield, Result<GmailSendOutput, GmailSendError>>,
) -> bool {
    &&& after.request == before.request
    &&& after.url == before.url
    &&& after.wire == before.wire
    &&& if before.finished {
        &&& after == before
        &&& r == GmailCoroutineState::<GmailYield, Result<GmailSendOutput, GmailSendError>>::Complete(
            Err(GmailSendError::Finished),
        )
    } else if holds_top_numeral(fed_bytes(before.fed.push(input))) {
        &&& after.fed == before.fed
        &&& after.finished
        &&& r == GmailCoroutineState::<GmailYield, Result<GmailSendOutput, GmailSendError>>::Complete(
            Err(GmailSendError::ChunkSizeOverflow),
        )
    } else {
        &&& after.fed == before.fed.push(input)
        &&& after.finished == step_ends(step_of(before.wire, after.fed))
        &&& answer_view(r) == step_answer(step_of(before.wire, after.fed))
    }
}

/// Two coroutines prepared from the same request under the same token
/// are the same exchange.
pub proof fn law_prepared_is_unique(v1: GmailSendView, v2: GmailSendView, auth: Seq<char>, req: GmailRequestView)
    requires
        prepared(v1, auth, req),
        prepared(v2, auth, req),
    ensures
        v1 == v2,
{
}

/// Resuming depends on nothing but the coroutine's value and the input:
/// two coroutines of the same value, resumed with the same input, end
/// with the same value and give the same answer. An endpoint coroutine
/// has the value of the exchange it runs, so it answers every resume
/// exactly as that exchange alone would.
pub proof fn law_resume_is_determined(
    before: GmailSendView,
    input: Option<Seq<u8>>,
    after1: GmailSendView,
    r1: GmailCoroutineState<GmailYield, Result<GmailSendOutput, GmailSendError>>,
    after2: GmailSendView,
    r2: GmailCoroutineState<GmailYield, Result<GmailSendOutput, GmailSendError>>,
)
    requires
        resumed(before, after1, input, r1),
        resumed(before, after2, input, r2),
    ensures
        after1 == after2,
        answer_view(r1) == answer_view(r2),
{
}

/// Once an exchange has completed, every later resume answers
/// `Finished` and leaves the coroutine as it was.
pub proof fn law_completion_is_final(
    before: GmailSendView,
    after: GmailSendView,
    input: Option<Seq<u8>>,
    r: GmailCoroutineState<GmailYield, Result<GmailSendOutput, GmailSendError>>,
)
    requires
        resumed(before, after, input, r),
        before.finished,
    ensures
        after == before,
        r == GmailCoroutineState::<GmailYield, Result<GmailSendOutput, GmailSendError>>::Complete(
            Err(GmailSendError::Finished),
        ),
{
}

/// A running exchange keeps running exactly when a resume yields: a
/// read or a write request leaves it running, a completion ends it.
pub proof fn law_running_iff_yielded(
    before: GmailSendView,
    after: GmailSendView,
    input: Option<Seq<u8>>,
    r: GmailCoroutineState<GmailYield, Result<GmailSendOutput, GmailSendError>>,
)
    requires
        resumed(before, after, input, r),
        !before.finished,
    ensures
        (r is Yielded) <==> !after.finished,
{
}

/// A resume never changes what is sent, and a running exchange is
/// handed each input it is resumed with, in order, unless the input
/// would make the bytes fed hold a top numeral.
pub proof fn law_resume_keeps_request(
    before: GmailSendView,
    after: GmailSendView,
    input: Option<Seq<u8>>,
    r: GmailCoroutineState<GmailYield, Result<GmailSendOutput, GmailSendError>>,
)
    requires
        resumed(before, after, input, r),
    ensures
        after.request == before.request,
        after.url == before.url,
        after.wire == before.wire,
        !before.finished && !holds_top_numeral(fed_bytes(before.fed.push(input))) ==> after.fed
            == before.fed.push(input),
{
}

/// A response completes the exchange successfully exactly when its
/// status is in `200..300`; the body is handed over as received, in the
/// output or in the status error.
pub proof fn law_success_iff_2xx(status: u16, body: Vec<u8>, keep_alive: bool)
    ensures
        outcome(HttpEvent::Response { status, body, keep_alive }) is Complete,
        200 <= status < 300 ==> outcome(HttpEvent::Response { status, body, keep_alive })
            == GmailCoroutineState::<GmailYield, Result<GmailSendOutput, GmailSendError>>::Complete(
            Ok(GmailSendOutput { status, body, keep_alive }),
        ),
        !(200 <= status < 300) ==> outcome(HttpEvent::Response { status, body, keep_alive })
            == GmailCoroutineState::<GmailYield, Result<GmailSendOutput, GmailSendError>>::Complete(
            Err(GmailSendError::Status { status, body }),
        ),
{
}

/// Read and write requests of the HTTP exchange reach the caller
/// unchanged, the bytes to write included.
pub proof fn law_io_passes_through(bytes: Vec<u8>)
    ensures
        outcome(HttpEvent::WantsRead) == GmailCoroutineState::<
            GmailYield,
            Result<GmailSendOutput, GmailSendError>,
        >::Yielded(GmailYield::WantsRead),
        outcome(HttpEvent::WantsWrite(bytes)) == GmailCoroutineState::<
            GmailYield,
            Result<GmailSendOutput, GmailSendError>,
        >::Yielded(GmailYield::WantsWrite(bytes)),
{
}

/// The answer to an event is the answer to its step.
proof fn lemma_outcome_answer(e: HttpEvent)
    ensures
        answer_view(outcome(e)) == step_answer(event_view(e)),
{
}

/// The caller-visible outcome of one HTTP step.
pub fn classify(e: HttpEvent) -> (r: GmailCoroutineState<
    GmailYield,
    Result<GmailSendOutput, GmailSendError>,
>)
    ensures
        r == outcome(e),
{
    match e {
        HttpEvent::WantsRead => GmailCoroutineState::Yielded(GmailYield::WantsRead),
        HttpEvent::WantsWrite(bytes) => GmailCoroutineState::Yielded(GmailYield::WantsWrite(bytes)),
        HttpEvent::Redirect { status, location } => GmailCoroutineState::Complete(
            Err(GmailSendError::Redirect { status, location }),
        ),
        HttpEvent::Response { status, body, keep_alive } => {
            if 200 <= status && status < 300 {
                GmailCoroutineState::Complete(Ok(GmailSendOutput { status, body, keep_alive }))
            } else {
                GmailCoroutineState::Complete(Err(GmailSendError::Status { status, body }))
            }
        },
        HttpEvent::Failed(err) => GmailCoroutineState::Complete(Err(GmailSendError::Http(err))),
    }
}

impl GmailSend {
    /// Prepares the exchange of `request`, authorized by the token `auth`.
    pub fn new(auth: &GmailAuth, request: GmailRequest) -> (r: Result<Self, GmailSendError>)
        ensures
            r is Ok <==> resolves(request@),
            match r {
                Ok(s) => prepared(s@, auth@, request@),
                Err(e) => e is Url,
            },
    {
        let ghost req = request@;
        let joined = match url_join(GMAIL_API_BASE, request.path.as_str()) {
            Ok(u) => u,
            Err(e) => return Err(GmailSendError::Url(e)),
        };
        let url = match &request.query {
            Some(pairs) => match url_append_query_pairs(joined.as_str(), pairs) {
                Ok(u) => u,
                Err(e) => return Err(GmailSendError::Url(e)),
            },
            None => joined,
        };
        let authorization = bearer_authorization(auth.token.as_str());
        let mut headers: Vec<(String, String)> = Vec::new();
        headers.push((String::from_str("authorization"), authorization));
        let body: Vec<u8> = match &request.json {
            Some(j) => {
                let ct_value = String::from_str("application/json");
                proof {
                    reveal_strlit("application/json");
                    assert(ct_value@ =~= application_json());
                }
                headers.push((String::from_str("content-type"), ct_value));
                j.as_str().as_bytes_vec()
            },
            None => Vec::new(),
        };
        assert(fields_view(headers@) =~= request_headers(auth@, req));
        let x = match http11_send(request.method.as_str(), url.as_str(), headers, body) {
            Ok(x) => x,
            Err(e) => return Err(GmailSendError::Url(e)),
        };
        let ghost wire = x@.sent;
        proof {
            assert(fed_bytes(Seq::empty()) =~= Seq::<u8>::empty());
            assert(!holds_top_numeral(Seq::<u8>::empty()));
        }
        Ok(GmailSend {
            request,
            url,
            wire: Ghost(wire),
            fed: Ghost(Seq::empty()),
            run: 0,
            state: SendState::Exchanging(x),
        })
    }

    /// The request this exchange sends.
    pub fn request(&self) -> (r: &GmailRequest)
        ensures
            r@ == self@.request,
    {
        &self.request
    }

    /// The full URL this exchange targets.
    pub fn url(&self) -> (r: &str)
        ensures
            r@ == self@.url,
    {
        self.url.as_str()
    }
}

impl GmailCoroutine for GmailSend {
    type Yield = GmailYield;
    type Return = Result<GmailSendOutput, GmailSendError>;

    fn resume(&mut self, arg: Option<&[u8]>) -> (r: GmailCoroutineState<
        GmailYield,
        Result<GmailSendOutput, GmailSendError>,
    >)
        ensures
            resumed(old(self)@, final(self)@, input_view(arg), r),
    {
        proof {
            use_type_invariant(&*self);
        }
        let mut state = SendState::Finished;
        core::mem::swap(&mut self.state, &mut state);
        match state {
            SendState::Finished => GmailCoroutineState::Complete(Err(GmailSendError::Finished)),
            SendState::Exchanging(mut x) => {
                proof {
                    lemma_fed_bytes_push(self.fed@, input_view(arg));
                }
                let scanned = match arg {
                    Some(bytes) => scan_top_numeral(self.run, bytes, Ghost(fed_bytes(self.fed@))),
                    None => {
                        assert(fed_bytes(self.fed@) + Seq::<u8>::empty() =~= fed_bytes(self.fed@));
                        Some(self.run)
                    },
                };
                let run = match scanned {
                    Some(run) => run,
                    None => return GmailCoroutineState::Complete(Err(GmailSendError::ChunkSizeOverflow)),
                };
                let e = http11_resume(&mut x, arg);
                let done = !(matches!(e, HttpEvent::WantsRead) || matches!(e, HttpEvent::WantsWrite(_)));
                proof {
                    lemma_ended_within_push(self.wire@, self.fed@, input_view(arg));
                    lemma_event_ends(e);
                    lemma_outcome_answer(e);
                }
                self.fed = Ghost(x@.fed);
                self.run = run;
                if !done {
                    self.state = SendState::Exchanging(x);
                }
                classify(e)
            },
        }
    }
}

} // verus!
