use vstd::prelude::*;

use crate::progress::ProgressCounter;
use crate::style::{json_tokens, spec_style_buffer, style_overlay};

verus! {

/// The HTTP method of a fetch; the inspector offers exactly these two.
#[derive(Debug, Clone, Copy, PartialEq, Eq, Structural)]
pub enum Method {
    Get,
    Post,
}

/// One fetch to perform: a method and the URL to call, already carrying
/// its scheme prefix.
pub struct FetchRequest {
    pub method: Method,
    pub url: Vec<u8>,
}

/// The discriminated result of one fetch attempt.
pub enum FetchOutcome {
    /// A well-formed response in the successful range, with its raw body.
    Success { status: u16, body: Vec<u8> },
    /// A well-formed HTTP response outside the successful range.
    HttpError { code: u16, reason: Vec<u8> },
    /// A connection, DNS, TLS or protocol failure before any status line.
    TransportError { message: Vec<u8> },
}

/// The result of attempting to read a successful body as JSON: either the
/// pretty-printed text, or not JSON at all.
pub enum ParsedBody {
    Json(Vec<u8>),
    NotJson,
}

/// The color class of the status label.
#[derive(Debug, Clone, Copy, PartialEq, Eq, Structural)]
pub enum StatusColor {
    Default,
    Emphasis,
    Error,
}

/// Everything the UI surface renders after a fetch: status label, body
/// text, its style overlay, and at most one blocking notice.
pub struct DisplayState {
    pub status_text: Vec<u8>,
    pub status_color: StatusColor,
    pub body_text: Vec<u8>,
    pub styles: Vec<u8>,
    pub notice: Option<Vec<u8>>,
}

impl DisplayState {
    /// The state every new fetch starts from: everything cleared.
    pub fn cleared() -> (d: DisplayState)
        ensures
            d.status_text@.len() == 0,
            d.status_color == StatusColor::Default,
            d.body_text@.len() == 0,
            d.styles@.len() == 0,
            d.notice is None,
    {
        DisplayState {
            status_text: Vec::new(),
            status_color: StatusColor::Default,
            body_text: Vec::new(),
            styles: Vec::new(),
            notice: None,
        }
    }
}

/// The bytes of the scheme prefix prepended to a bare URL: `https://`.
pub open spec fn scheme_prefix() -> Seq<u8> {
    seq![104u8, 116, 116, 112, 115, 58, 47, 47]
}

/// `s` already begins with the scheme prefix.
pub open spec fn has_scheme(s: Seq<u8>) -> bool {
    s.len() >= 8 && s.take(8) == scheme_prefix()
}

/// The URL actually fetched for an input `s`: `s` itself when it already
/// carries the scheme prefix, otherwise the prefix followed by `s`.
pub open spec fn spec_normalize_url(s: Seq<u8>) -> Seq<u8> {
    if has_scheme(s) {
        s
    } else {
        scheme_prefix() + s
    }
}

/// The scheme prefix as a fresh byte vector.
fn scheme_bytes() -> (r: Vec<u8>)
    ensures
        r@ == scheme_prefix(),
{
    let mut r: Vec<u8> = Vec::new();
    r.push(104);
    r.push(116);
    r.push(116);
    r.push(112);
    r.push(115);
    r.push(58);
    r.push(47);
    r.push(47);
    proof {
        assert(r@ =~= scheme_prefix());
    }
    r
}

/// Push a copy of every byte of `src` onto `dst`.
fn append_bytes(dst: &mut Vec<u8>, src: &Vec<u8>)
    ensures
        final(dst)@ == old(dst)@ + src@,
{
    let mut q: usize = 0;
    while q < src.len()
        invariant
            q <= src@.len(),
            dst@ == old(dst)@ + src@.take(q as int),
        decreases src@.len() - q,
    {
        let b = src[q];
        dst.push(b);
        proof {
            assert(old(dst)@ + src@.take(q as int + 1) =~= (old(dst)@ + src@.take(
                q as int,
            )).push(src@[q as int]));
        }
        q = q + 1;
    }
    proof {
        assert(src@.take(src@.len() as int) =~= src@);
    }
}

/// Whether `input` starts with the scheme prefix.
fn starts_with_scheme(input: &Vec<u8>) -> (b: bool)
    ensures
        b == has_scheme(input@),
{
    if input.len() < 8 {
        return false;
    }
    let scheme = scheme_bytes();
    let mut q: usize = 0;
    while q < 8
        invariant
            q <= 8,
            input@.len() >= 8,
            scheme@ == scheme_prefix(),
            forall|r: int| 0 <= r < q ==> input@[r] == scheme_prefix()[r],
        decreases 8 - q,
    {
        if input[q] != scheme[q] {
            proof {
                assert(input@.take(8)[q as int] == input@[q as int]);
                assert(input@.take(8) != scheme_prefix());
            }
            return false;
        }
        q = q + 1;
    }
    proof {
        assert(input@.take(8) =~= scheme_prefix());
    }
    true
}

/// The user's URL with the scheme prefix prepended when absent.
pub fn normalize_url(input: &Vec<u8>) -> (r: Vec<u8>)
    ensures
        r@ == spec_normalize_url(input@),
{
    if starts_with_scheme(input) {
        let mut r: Vec<u8> = Vec::new();
        append_bytes(&mut r, input);
        proof {
            assert(Seq::<u8>::empty() + input@ =~= input@);
        }
        r
    } else {
        let mut r = scheme_bytes();
        append_bytes(&mut r, input);
        r
    }
}

impl FetchRequest {
    /// Build the request for one user action, normalizing the URL.
    pub fn new(method: Method, url: &Vec<u8>) -> (r: FetchRequest)
        ensures
            r.method == method,
            r.url@ == spec_normalize_url(url@),
    {
        FetchRequest { method, url: normalize_url(url) }
    }
}

/// The method a method-choice index selects: index 0 is GET, index 1 is
/// POST, any other index selects nothing.
pub fn method_of_index(i: i32) -> (m: Option<Method>)
    ensures
        m == if i == 0 {
            Some(Method::Get)
        } else if i == 1 {
            Some(Method::Post)
        } else {
            None::<Method>
        },
{
    if i == 0 {
        Some(Method::Get)
    } else if i == 1 {
        Some(Method::Post)
    } else {
        None
    }
}

/// The decimal digits of `n` in ASCII, most significant first.
pub open spec fn spec_decimal(n: nat) -> Seq<u8>
    decreases n,
{
    if n < 10 {
        seq![(48 + n) as u8]
    } else {
        spec_decimal(n / 10).push((48 + n % 10) as u8)
    }
}

/// Render `n` in decimal ASCII.
pub fn u16_decimal(n: u16) -> (r: Vec<u8>)
    ensures
        r@ == spec_decimal(n as nat),
    decreases n,
{
    if n < 10 {
        let mut r: Vec<u8> = Vec::new();
        r.push(48 + n as u8);
        proof {
            assert(r@ =~= spec_decimal(n as nat));
        }
        r
    } else {
        let mut r = u16_decimal(n / 10);
        r.push(48 + (n % 10) as u8);
        proof {
            assert((n / 10) as nat == (n as nat) / 10);
            assert((n % 10) as nat == (n as nat) % 10);
        }
        r
    }
}

/// The status line shown for an HTTP error: the code in decimal, one
/// space, then the reason phrase.
pub open spec fn spec_status_line(code: u16, reason: Seq<u8>) -> Seq<u8> {
    spec_decimal(code as nat) + seq![32u8] + reason
}

/// Render the status line for an HTTP error.
pub fn status_line(code: u16, reason: &Vec<u8>) -> (r: Vec<u8>)
    ensures
        r@ == spec_status_line(code, reason@),
{
    let mut r = u16_decimal(code);
    r.push(32);
    proof {
        assert(spec_decimal(code as nat).push(32u8) =~= spec_decimal(code as nat) + seq![32u8]);
    }
    append_bytes(&mut r, reason);
    r
}

/// The fixed status line for a successful fetch whose body parsed: `200 OK`.
pub open spec fn ok_status_line() -> Seq<u8> {
    seq![50u8, 48, 48, 32, 79, 75]
}

fn ok_status_bytes() -> (r: Vec<u8>)
    ensures
        r@ == ok_status_line(),
{
    let mut r: Vec<u8> = Vec::new();
    r.push(50);
    r.push(48);
    r.push(48);
    r.push(32);
    r.push(79);
    r.push(75);
    proof {
        assert(r@ =~= ok_status_line());
    }
    r
}

/// The fixed notice raised when a successful body is not JSON:
/// `Error parsing json`.
pub open spec fn parse_error_notice() -> Seq<u8> {
    seq![69u8, 114, 114, 111, 114, 32, 112, 97, 114, 115, 105, 110, 103, 32, 106, 115, 111, 110]
}

fn parse_error_bytes() -> (r: Vec<u8>)
    ensures
        r@ == parse_error_notice(),
{
    let mut r: Vec<u8> = Vec::new();
    r.push(69);
    r.push(114);
    r.push(114);
    r.push(111);
    r.push(114);
    r.push(32);
    r.push(112);
    r.push(97);
    r.push(114);
    r.push(115);
    r.push(105);
    r.push(110);
    r.push(103);
    r.push(32);
    r.push(106);
    r.push(115);
    r.push(111);
    r.push(110);
    proof {
        assert(r@ =~= parse_error_notice());
    }
    r
}

/// The transport message recorded when the worker terminates without
/// producing any outcome: `worker failed`.
pub open spec fn join_failure_notice() -> Seq<u8> {
    seq![119u8, 111, 114, 107, 101, 114, 32, 102, 97, 105, 108, 101, 100]
}

/// The outcome standing in for a worker that produced no result at all.
pub fn join_failure_outcome() -> (o: FetchOutcome)
    ensures
        (o matches FetchOutcome::TransportError { message } && message@ == join_failure_notice()),
        join_failure_notice().len() > 0,
{
    let mut r: Vec<u8> = Vec::new();
    r.push(119);
    r.push(111);
    r.push(114);
    r.push(107);
    r.push(101);
    r.push(114);
    r.push(32);
    r.push(102);
    r.push(97);
    r.push(105);
    r.push(108);
    r.push(101);
    r.push(100);
    proof {
        assert(r@ =~= join_failure_notice());
    }
    FetchOutcome::TransportError { message: r }
}

/// Map one fetch outcome, with the already-attempted JSON parse of a
/// successful body, to the display state, and drop the progress counter
/// back to its minimum in every case.
///
/// The mapping is exhaustive: a successful parse shows `200 OK`, the
/// pretty text and its overlay; a failed parse clears everything and
/// raises the fixed parse notice; an HTTP error shows its status line in
/// the error color; a transport failure raises its message as a notice.
pub fn classify(outcome: FetchOutcome, parsed: ParsedBody, progress: &mut ProgressCounter) -> (d:
    DisplayState)
    requires
        old(progress).wf(),
    ensures
        final(progress).wf(),
        final(progress).lo == old(progress).lo,
        final(progress).hi == old(progress).hi,
        final(progress).value == old(progress).lo,
        (match outcome {
            FetchOutcome::Success { .. } => (match parsed {
                ParsedBody::Json(text) => {
                    &&& d.status_text@ == ok_status_line()
                    &&& d.status_color == StatusColor::Emphasis
                    &&& d.body_text@ == text@
                    &&& d.styles@ == spec_style_buffer(text@.len(), json_tokens(text@))
                    &&& d.styles@.len() == d.body_text@.len()
                    &&& d.notice is None
                },
                ParsedBody::NotJson => {
                    &&& d.status_text@.len() == 0
                    &&& d.status_color == StatusColor::Default
                    &&& d.body_text@.len() == 0
                    &&& d.styles@.len() == 0
                    &&& (d.notice matches Some(msg) && msg@ == parse_error_notice())
                },
            }),
            FetchOutcome::HttpError { code, reason } => {
                &&& d.status_text@ == spec_status_line(code, reason@)
                &&& d.status_color == StatusColor::Error
                &&& d.body_text@.len() == 0
                &&& d.styles@.len() == 0
                &&& d.notice is None
            },
            FetchOutcome::TransportError { message } => {
                &&& d.status_text@.len() == 0
                &&& d.status_color == StatusColor::Default
                &&& d.body_text@.len() == 0
                &&& d.styles@.len() == 0
                &&& (d.notice matches Some(msg) && msg@ == message@)
            },
        }),
{
    let d = match outcome {
        FetchOutcome::Success { status: _, body: _ } => match parsed {
            ParsedBody::Json(text) => {
                let styles = style_overlay(&text);
                DisplayState {
                    status_text: ok_status_bytes(),
                    status_color: StatusColor::Emphasis,
                    body_text: text,
                    styles,
                    notice: None,
                }
            },
            ParsedBody::NotJson => {
                let mut d = DisplayState::cleared();
                d.notice = Some(parse_error_bytes());
                d
            },
        },
        FetchOutcome::HttpError { code, reason } => {
            let mut d = DisplayState::cleared();
            d.status_text = status_line(code, &reason);
            d.status_color = StatusColor::Error;
            d
        },
        FetchOutcome::TransportError { message } => {
            let mut d = DisplayState::cleared();
            d.notice = Some(message);
            d
        },
    };
    progress.reset();
    d
}

/// Whether serde_json accepts `s` as a JSON document; a function of the
/// bytes alone.
pub uninterp spec fn json_ok(s: Seq<u8>) -> bool;

/// The pretty-printed rendering serde_json gives the JSON document `s`; a
/// function of the bytes alone, meaningful only when `json_ok(s)` holds.
pub uninterp spec fn pretty_of(s: Seq<u8>) -> Seq<u8>;

/// Relies on `serde_json::from_slice` and `serde_json::to_vec_pretty`:
/// parsing bytes into a JSON value succeeds exactly on valid JSON
/// documents, pretty-printing a parsed value never fails, and both are
/// deterministic in the input bytes alone (object members keep the
/// parser's sorted key order).
#[verifier::external_body]
fn parse_pretty(body: &Vec<u8>) -> (r: Option<Vec<u8>>)
    ensures
        r is Some <==> json_ok(body@),
        (r matches Some(t) ==> t@ == pretty_of(body@)),
{
    match serde_json::from_slice::<serde_json::Value>(body.as_slice()) {
        Ok(v) => match serde_json::to_vec_pretty(&v) {
            Ok(t) => Some(t),
            Err(_) => None,
        },
        Err(_) => None,
    }
}

/// Consume one fetch outcome: attempt the JSON parse of a successful
/// body, map everything to display state as `classify` does, and drop the
/// progress counter back to its minimum in every case.
pub fn handle_outcome(outcome: FetchOutcome, progress: &mut ProgressCounter) -> (d: DisplayState)
    requires
        old(progress).wf(),
    ensures
        final(progress).wf(),
        final(progress).lo == old(progress).lo,
        final(progress).hi == old(progress).hi,
        final(progress).value == old(progress).lo,
        (match outcome {
            FetchOutcome::Success { body, .. } => {
                &&& json_ok(body@) ==> {
                    &&& d.status_text@ == ok_status_line()
                    &&& d.status_color == StatusColor::Emphasis
                    &&& d.body_text@ == pretty_of(body@)
                    &&& d.styles@ == spec_style_buffer(
                        pretty_of(body@).len(),
                        json_tokens(pretty_of(body@)),
                    )
                    &&& d.styles@.len() == d.body_text@.len()
                    &&& d.notice is None
                }
                &&& !json_ok(body@) ==> {
                    &&& d.status_text@.len() == 0
                    &&& d.status_color == StatusColor::Default
                    &&& d.body_text@.len() == 0
                    &&& d.styles@.len() == 0
                    &&& (d.notice matches Some(msg) && msg@ == parse_error_notice())
                }
            },
            FetchOutcome::HttpError { code, reason } => {
                &&& d.status_text@ == spec_status_line(code, reason@)
                &&& d.status_color == StatusColor::Error
                &&& d.body_text@.len() == 0
                &&& d.styles@.len() == 0
                &&& d.notice is None
            },
            FetchOutcome::TransportError { message } => {
                &&& d.status_text@.len() == 0
                &&& d.status_color == StatusColor::Default
                &&& d.body_text@.len() == 0
                &&& d.styles@.len() == 0
                &&& (d.notice matches Some(msg) && msg@ == message@)
            },
        }),
{
    let parsed = match &outcome {
        FetchOutcome::Success { status: _, body } => match parse_pretty(body) {
            Some(t) => ParsedBody::Json(t),
            None => ParsedBody::NotJson,
        },
        _ => ParsedBody::NotJson,
    };
    classify(outcome, parsed, progress)
}

} // verus!
