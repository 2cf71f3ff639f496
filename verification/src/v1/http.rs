//! The HTTP/1.1 exchange under every Gmail request, carried out by
//! io-http's `Http11Send`.
//!
//! An `HttpExchange` remembers, as ghost state, the request it was made
//! from and every input it has been fed. What one step of the exchange
//! gives is a function of those two alone (`http11_step`): io-http's
//! coroutine writes the serialised request, then parses the response out
//! of the bytes it is handed, with no other source of input.
//!
//! io-http's chunked-body decoder cannot take a chunk size of
//! `usize::MAX - 1` or `usize::MAX`; `scan_top_numeral` finds the bytes
//! that could spell one, so that they are never handed over.

use vstd::prelude::*;

use io_http::coroutine::{HttpCoroutine, HttpCoroutineState};
use io_http::rfc9110::request::HttpRequest;
use io_http::rfc9110::send::HttpSendYield;
use io_http::rfc9112::send::{Http11Send, Http11SendError};

use crate::v1::json::fields_view;

verus! {

/// io-http's HTTP/1.1 send coroutine, carried opaque.
#[verifier::external_type_specification]
#[verifier::external_body]
pub struct ExHttp11Send(Http11Send);

/// io-http's HTTP/1.1 failure, carried opaque.
#[verifier::external_type_specification]
#[verifier::external_body]
pub struct ExHttp11SendError(Http11SendError);

/// The url crate's parse failure, carried opaque.
#[verifier::external_type_specification]
#[verifier::external_body]
pub struct ExUrlParseError(url::ParseError);

/// Whether `Url::parse` accepts the text.
pub uninterp spec fn url_parses(text: Seq<char>) -> bool;

/// A request as handed to io-http: method token, URL text, header
/// fields in order, and body bytes.
pub struct WireRequest {
    pub method: Seq<char>,
    pub url: Seq<char>,
    pub headers: Seq<(Seq<char>, Seq<char>)>,
    pub body: Seq<u8>,
}

/// What one step of the exchange gives, as plain values: a read or a
/// write request, a redirection (its status and the target resolved
/// against the request URL), the whole response, or a failure.
pub enum HttpStep {
    WantsRead,
    WantsWrite(Seq<u8>),
    Redirect { status: u16, location: Seq<char> },
    Response { status: u16, body: Seq<u8>, keep_alive: bool },
    Failed,
}

/// The step that `Http11Send::resume` gives on the last of the inputs
/// `fed`, on a coroutine made from the request and resumed with each of
/// the earlier ones in turn.
pub uninterp spec fn http11_step(
    method: Seq<char>,
    url: Seq<char>,
    headers: Seq<(Seq<char>, Seq<char>)>,
    body: Seq<u8>,
    fed: Seq<Option<Seq<u8>>>,
) -> HttpStep;

/// The step of a request after the inputs `fed`.
pub open spec fn step_of(sent: WireRequest, fed: Seq<Option<Seq<u8>>>) -> HttpStep {
    http11_step(sent.method, sent.url, sent.headers, sent.body, fed)
}

/// Whether a step ends the exchange: anything but a read or a write.
pub open spec fn step_ends(s: HttpStep) -> bool {
    !(s is WantsRead || s is WantsWrite)
}

/// Whether the exchange of `sent` ended on one of the inputs `fed`.
pub open spec fn ended_within(sent: WireRequest, fed: Seq<Option<Seq<u8>>>) -> bool
    decreases fed.len(),
{
    if fed.len() == 0 {
        false
    } else {
        ended_within(sent, fed.drop_last()) || step_ends(step_of(sent, fed))
    }
}

/// The input of one resume, by value.
pub open spec fn input_view(arg: Option<&[u8]>) -> Option<Seq<u8>> {
    match arg {
        Some(bytes) => Some(bytes@),
        None => None,
    }
}

/// The number of hexadecimal digits of `usize::MAX`.
pub open spec fn numeral_width() -> int {
    if usize::MAX == 0xffff_ffff {
        8
    } else {
        16
    }
}

/// Whether a byte is the hexadecimal digit `f`, in either case.
pub open spec fn is_hex_f(b: u8) -> bool {
    b == 0x66u8 || b == 0x46u8
}

/// Whether a byte is the hexadecimal digit `e` or `f`, in either case.
pub open spec fn is_hex_e_or_f(b: u8) -> bool {
    is_hex_f(b) || b == 0x65u8 || b == 0x45u8
}

/// Whether the bytes at `i` spell `usize::MAX - 1` or `usize::MAX` in
/// hexadecimal without leading zeros: `f` repeated, then `e` or `f`.
pub open spec fn top_numeral_at(bytes: Seq<u8>, i: int) -> bool {
    &&& 0 <= i
    &&& i + numeral_width() <= bytes.len()
    &&& forall|j: int| i <= j < i + numeral_width() - 1 ==> is_hex_f(#[trigger] bytes[j])
    &&& is_hex_e_or_f(bytes[i + numeral_width() - 1])
}

/// Whether the bytes hold the hexadecimal numeral of one of the two
/// largest `usize` values anywhere.
pub open spec fn holds_top_numeral(bytes: Seq<u8>) -> bool {
    exists|i: int| top_numeral_at(bytes, i)
}

/// The number of `f` digits at the end of the bytes.
pub open spec fn trailing_f(bytes: Seq<u8>) -> nat
    decreases bytes.len(),
{
    if bytes.len() == 0 {
        0
    } else if is_hex_f(bytes.last()) {
        trailing_f(bytes.drop_last()) + 1
    } else {
        0
    }
}

/// All bytes fed to an exchange, in order.
pub open spec fn fed_bytes(fed: Seq<Option<Seq<u8>>>) -> Seq<u8>
    decreases fed.len(),
{
    if fed.len() == 0 {
        Seq::empty()
    } else {
        fed_bytes(fed.drop_last()) + match fed.last() {
            Some(bytes) => bytes,
            None => Seq::empty(),
        }
    }
}

/// Feeding one more input appends its bytes.
pub proof fn lemma_fed_bytes_push(fed: Seq<Option<Seq<u8>>>, arg: Option<Seq<u8>>)
    ensures
        fed_bytes(fed.push(arg)) == fed_bytes(fed) + match arg {
            Some(bytes) => bytes,
            None => Seq::empty(),
        },
{
    assert(fed.push(arg).drop_last() =~= fed);
}

/// The trailing `f` digits are at most all the bytes, and there are at
/// least `k` of them exactly when the last `k` bytes are all `f`.
pub proof fn lemma_trailing_f(bytes: Seq<u8>, k: int)
    requires
        0 <= k <= bytes.len(),
    ensures
        trailing_f(bytes) <= bytes.len(),
        trailing_f(bytes) >= k <==> forall|j: int| bytes.len() - k <= j < bytes.len() ==> is_hex_f(#[trigger] bytes[j]),
    decreases bytes.len(),
{
    if bytes.len() > 0 {
        let d = bytes.drop_last();
        if k > 0 {
            lemma_trailing_f(d, k - 1);
            if trailing_f(bytes) >= k {
                assert forall|j: int| bytes.len() - k <= j < bytes.len() implies is_hex_f(#[trigger] bytes[j]) by {
                    if j < bytes.len() - 1 {
                        assert(d[j] == bytes[j]);
                    }
                }
            }
            if forall|j: int| bytes.len() - k <= j < bytes.len() ==> is_hex_f(#[trigger] bytes[j]) {
                assert(is_hex_f(bytes[bytes.len() - 1]));
                assert forall|j: int| d.len() - (k - 1) <= j < d.len() implies is_hex_f(#[trigger] d[j]) by {
                    assert(d[j] == bytes[j]);
                }
            }
        } else {
            lemma_trailing_f(d, 0);
        }
    }
}

/// Appending one byte makes the bytes hold a top numeral exactly when
/// they held one already, or the byte is `e` or `f` and ends a run of
/// `f` digits one shorter than the numeral.
pub proof fn lemma_top_numeral_push(bytes: Seq<u8>, b: u8)
    ensures
        holds_top_numeral(bytes.push(b)) == (holds_top_numeral(bytes) || (is_hex_e_or_f(b)
            && trailing_f(bytes) >= numeral_width() - 1)),
{
    let s = bytes.push(b);
    let w = numeral_width();
    if holds_top_numeral(bytes) {
        let i = choose|i: int| top_numeral_at(bytes, i);
        assert forall|j: int| i <= j < i + w - 1 implies is_hex_f(#[trigger] s[j]) by {
            assert(s[j] == bytes[j]);
        }
        assert(s[i + w - 1] == bytes[i + w - 1]);
        assert(top_numeral_at(s, i));
    }
    lemma_trailing_f(bytes, 0);
    if is_hex_e_or_f(b) && trailing_f(bytes) >= w - 1 {
        let i = bytes.len() - (w - 1);
        lemma_trailing_f(bytes, w - 1);
        assert forall|j: int| i <= j < i + w - 1 implies is_hex_f(#[trigger] s[j]) by {
            assert(s[j] == bytes[j]);
        }
        assert(s[i + w - 1] == b);
        assert(top_numeral_at(s, i));
    }
    if holds_top_numeral(s) {
        let i = choose|i: int| top_numeral_at(s, i);
        if i + w <= bytes.len() {
            assert forall|j: int| i <= j < i + w - 1 implies is_hex_f(#[trigger] bytes[j]) by {
                assert(s[j] == bytes[j]);
            }
            assert(s[i + w - 1] == bytes[i + w - 1]);
            assert(top_numeral_at(bytes, i));
        } else {
            assert(i + w - 1 == bytes.len());
            assert(s[i + w - 1] == b);
            if bytes.len() >= w - 1 {
                lemma_trailing_f(bytes, w - 1);
                assert forall|j: int| bytes.len() - (w - 1) <= j < bytes.len() implies is_hex_f(#[trigger] bytes[j]) by {
                    assert(s[j] == bytes[j]);
                    assert(is_hex_f(s[j]));
                }
            }
        }
    }
}

/// A count of trailing `f` digits, capped one below the numeral width.
pub open spec fn capped_run(n: nat) -> int {
    if n < numeral_width() - 1 {
        n as int
    } else {
        numeral_width() - 1
    }
}

/// Looks for a top numeral in `prefix` followed by `bytes`, where
/// `prefix` holds none and ends with `run` `f` digits (capped). Gives
/// `None` when one is found, else the capped count for the whole.
pub(crate) fn scan_top_numeral(run: usize, bytes: &[u8], Ghost(prefix): Ghost<Seq<u8>>) -> (r: Option<usize>)
    requires
        run == capped_run(trailing_f(prefix)),
        !holds_top_numeral(prefix),
    ensures
        match r {
            None => holds_top_numeral(prefix + bytes@),
            Some(n) => !holds_top_numeral(prefix + bytes@) && n == capped_run(trailing_f(prefix + bytes@)),
        },
{
    let last: usize = if usize::MAX == 0xffff_ffff { 7 } else { 15 };
    let mut run = run;
    let mut i: usize = 0;
    while i < bytes.len()
        invariant
            last == numeral_width() - 1,
            i <= bytes@.len(),
            run == capped_run(trailing_f(prefix + bytes@.take(i as int))),
            !holds_top_numeral(prefix + bytes@.take(i as int)),
        decreases bytes.len() - i,
    {
        let b = bytes[i];
        let ghost cur = prefix + bytes@.take(i as int);
        proof {
            assert(prefix + bytes@.take(i + 1) =~= cur.push(b));
            assert(cur.push(b).drop_last() =~= cur);
            lemma_top_numeral_push(cur, b);
        }
        let f = b == 0x66u8 || b == 0x46u8;
        if (f || b == 0x65u8 || b == 0x45u8) && run >= last {
            assert(prefix + bytes@ =~= cur.push(b) + bytes@.skip(i + 1));
            proof {
                let i0 = choose|k: int| top_numeral_at(cur.push(b), k);
                let whole = prefix + bytes@;
                assert forall|j: int| i0 <= j < i0 + numeral_width() - 1 implies is_hex_f(#[trigger] whole[j]) by {
                    assert(whole[j] == cur.push(b)[j]);
                }
                assert(whole[i0 + numeral_width() - 1] == cur.push(b)[i0 + numeral_width() - 1]);
                assert(top_numeral_at(whole, i0));
            }
            return None;
        }
        if f {
            if run < last {
                run = run + 1;
            }
        } else {
            run = 0;
        }
        i = i + 1;
    }
    assert(bytes@.take(bytes@.len() as int) =~= bytes@);
    Some(run)
}

/// An HTTP/1.1 exchange in progress.
pub struct HttpExchange {
    send: Http11Send,
    sent: Ghost<WireRequest>,
    fed: Ghost<Seq<Option<Seq<u8>>>>,
}

/// What an exchange was made from and what it has been fed so far.
pub struct HttpExchangeView {
    pub sent: WireRequest,
    pub fed: Seq<Option<Seq<u8>>>,
}

impl View for HttpExchange {
    type V = HttpExchangeView;

    closed spec fn view(&self) -> HttpExchangeView {
        HttpExchangeView { sent: self.sent@, fed: self.fed@ }
    }
}

/// `Http11Send::new` on the request made of these parts, the URL text
/// parsed into a `Url` first. The contract claims that the call fails
/// exactly when the URL text does not parse, and that the exchange it
/// returns is made from exactly these parts and has been fed nothing.
#[verifier::external_body]
pub(crate) fn http11_send(method: &str, url: &str, headers: Vec<(String, String)>, body: Vec<u8>) -> (r:
    Result<HttpExchange, url::ParseError>)
    ensures
        r is Ok <==> url_parses(url@),
        r matches Ok(x) ==> x@ == (HttpExchangeView {
            sent: WireRequest { method: method@, url: url@, headers: fields_view(headers@), body: body@ },
            fed: Seq::empty(),
        }),
{
    let sent = Ghost(WireRequest { method: method@, url: url@, headers: fields_view(headers@), body: body@ });
    let url = url::Url::parse(url)?;
    let request = HttpRequest { method: String::from(method), url, headers, body };
    Ok(HttpExchange { send: Http11Send::new(request), sent, fed: Ghost(Seq::empty()) })
}

/// What one step of the exchange produced.
#[derive(Debug)]
pub enum HttpEvent {
    /// Bytes must be read from the stream.
    WantsRead,
    /// These bytes must be written to the stream.
    WantsWrite(Vec<u8>),
    /// The server answered with a redirection to `location`.
    Redirect { status: u16, location: String },
    /// The whole response arrived.
    Response { status: u16, body: Vec<u8>, keep_alive: bool },
    /// The exchange failed.
    Failed(Http11SendError),
}

/// The plain values of an event; a failure's cause is opaque.
pub open spec fn event_view(e: HttpEvent) -> HttpStep {
    match e {
        HttpEvent::WantsRead => HttpStep::WantsRead,
        HttpEvent::WantsWrite(bytes) => HttpStep::WantsWrite(bytes@),
        HttpEvent::Redirect { status, location } => HttpStep::Redirect { status, location: location@ },
        HttpEvent::Response { status, body, keep_alive } => HttpStep::Response {
            status,
            body: body@,
            keep_alive,
        },
        HttpEvent::Failed(_) => HttpStep::Failed,
    }
}

/// `Http11Send::resume` with `arg`, its outcome told apart variant by
/// variant. The contract claims that the input is recorded, and that the
/// outcome is the step that the request and all inputs fed so far give
/// (`http11_step`); which `Http11SendError` a failure carries is not
/// stated. io-http's `resume` panics in two cases, which the `requires`
/// leaves out: once the exchange has ended, and when a chunk-size line
/// reads `usize::MAX - 1` or `usize::MAX` (its chunked-body decoder adds
/// the line end to the size, then drains that many bytes). Such a line
/// spells the numeral of `top_numeral_at` inside the bytes fed, so an
/// exchange whose bytes hold no such numeral never reaches either.
#[verifier::external_body]
pub(crate) fn http11_resume(x: &mut HttpExchange, arg: Option<&[u8]>) -> (r: HttpEvent)
    requires
        !ended_within(old(x)@.sent, old(x)@.fed),
        !holds_top_numeral(fed_bytes(old(x)@.fed.push(input_view(arg)))),
    ensures
        final(x)@.sent == old(x)@.sent,
        final(x)@.fed == old(x)@.fed.push(input_view(arg)),
        event_view(r) == http11_step(
            old(x)@.sent.method,
            old(x)@.sent.url,
            old(x)@.sent.headers,
            old(x)@.sent.body,
            final(x)@.fed,
        ),
{
    x.fed = Ghost(x.fed@.push(input_view(arg)));
    match x.send.resume(arg) {
        HttpCoroutineState::Yielded(HttpSendYield::WantsRead) => HttpEvent::WantsRead,
        HttpCoroutineState::Yielded(HttpSendYield::WantsWrite(b)) => HttpEvent::WantsWrite(b),
        HttpCoroutineState::Yielded(HttpSendYield::WantsRedirect { url, response, .. }) => {
            HttpEvent::Redirect { status: response.status.0, location: url.into() }
        },
        HttpCoroutineState::Complete(Ok(out)) => HttpEvent::Response {
            status: out.response.status.0,
            body: out.response.body,
            keep_alive: out.keep_alive,
        },
        HttpCoroutineState::Complete(Err(err)) => HttpEvent::Failed(err),
    }
}

/// Whether an event ends the exchange.
pub open spec fn ends(e: HttpEvent) -> bool {
    !(e is WantsRead || e is WantsWrite)
}

/// An event ends the exchange exactly when its step does.
pub proof fn lemma_event_ends(e: HttpEvent)
    ensures
        ends(e) == step_ends(event_view(e)),
{
}

/// A step that does not end the exchange leaves it unended.
pub proof fn lemma_ended_within_push(sent: WireRequest, fed: Seq<Option<Seq<u8>>>, arg: Option<Seq<u8>>)
    ensures
        ended_within(sent, fed.push(arg)) == (ended_within(sent, fed) || step_ends(step_of(sent, fed.push(arg)))),
{
    assert(fed.push(arg).drop_last() =~= fed);
}

} // verus!
