//! The prober's decision core: every failure path of one HTTP fetch is
//! recovered locally into a `CheckResult` — nothing crosses the probe
//! boundary as an error. The application performs the fetch itself and
//! reports how far it came as a `FetchOutcome`; this module turns that
//! outcome, together with the URL and the raw input it was derived from,
//! into the one record the probe yields.

use crate::extract::banner_spec;
use crate::extract::extract_banner;
use crate::extract::extract_title;
use crate::extract::title_spec;
use crate::headers::Header;
use crate::headers::header_text;
use crate::headers::header_text_spec;
use vstd::prelude::*;
use vstd::utf8::encode_utf8;

verus! {

/// What is known the moment response headers arrive, before the body is
/// consumed: capturing it first means a later body-read failure loses no
/// status, banner, or redirect information.
pub struct ResponseHead {
    /// HTTP status code of the response.
    pub status_code: u16,
    /// The response headers.
    pub headers: Vec<Header>,
}

/// How far one fetch came and what it produced. The application reports one
/// of these per probe; the library turns it into a `CheckResult`.
pub enum FetchOutcome {
    /// The HTTP client could not be built; carries the failure description.
    ClientBuildFailed(String),
    /// DNS, connect, TLS, timeout, or send failure before any response
    /// arrived; carries the failure description.
    RequestFailed(String),
    /// Headers arrived but reading or decoding the body failed; carries
    /// what was already known and the failure description.
    BodyReadFailed(ResponseHead, String),
    /// The response arrived whole; carries the head and the decoded body.
    Fetched(ResponseHead, String),
}

/// The unit of output: one diagnostic record per probe attempt, created
/// exactly once inside a single probe and immutable thereafter.
pub struct CheckResult {
    /// The fully-qualified URL actually requested.
    pub original_url: String,
    /// The raw user input this probe was derived from.
    pub original_input: String,
    /// HTTP status; 0 when the request never completed.
    pub status_code: u16,
    /// Extracted page title, or a sentinel.
    pub title: String,
    /// Identifying-header digest, or a sentinel.
    pub banner: String,
    /// Byte length of the response body as decoded text; 0 on failure.
    pub content_length: usize,
    /// Value of the `Location` response header, empty when absent.
    pub redirect_url: String,
    /// Failure description; present iff the probe did not complete
    /// normally.
    pub error: Option<String>,
}

/// The mathematical value of a `CheckResult`.
pub struct CheckView {
    pub original_url: Seq<char>,
    pub original_input: Seq<char>,
    pub status_code: u16,
    pub title: Seq<char>,
    pub banner: Seq<char>,
    pub content_length: usize,
    pub redirect_url: Seq<char>,
    pub error: Option<Seq<char>>,
}

impl View for CheckResult {
    type V = CheckView;

    open spec fn view(&self) -> CheckView {
        CheckView {
            original_url: self.original_url@,
            original_input: self.original_input@,
            status_code: self.status_code,
            title: self.title@,
            banner: self.banner@,
            content_length: self.content_length,
            redirect_url: self.redirect_url@,
            error: self.error.deep_view(),
        }
    }
}

/// The redirect target: the text of the `Location` header, empty when that
/// header is absent or not representable as text.
pub open spec fn redirect_spec(hs: Seq<Header>) -> Seq<char> {
    match header_text_spec(hs, "location"@) {
        Some(v) => v,
        None => Seq::empty(),
    }
}

/// Reads the redirect target from a header set, per `redirect_spec`.
pub fn redirect_of(hs: &Vec<Header>) -> (r: String)
    ensures
        r@ == redirect_spec(hs@),
{
    match header_text(hs, "location") {
        Some(v) => v,
        None => String::new(),
    }
}

/// The byte length of a text under UTF-8: what `str::len` returns.
pub open spec fn byte_len(s: Seq<char>) -> nat {
    encode_utf8(s).len()
}

/// The record one probe yields, fully determined by the requested URL, the
/// raw input it came from, and how far the fetch came. Each failure step
/// short-circuits to a record carrying the fields already known and a
/// description of the failure.
pub open spec fn check_spec(url: Seq<char>, input: Seq<char>, outcome: FetchOutcome) -> CheckView {
    match outcome {
        FetchOutcome::ClientBuildFailed(detail) => CheckView {
            original_url: url,
            original_input: input,
            status_code: 0,
            title: "client build failed"@,
            banner: Seq::empty(),
            content_length: 0,
            redirect_url: Seq::empty(),
            error: Some("client build failed: "@ + detail@),
        },
        FetchOutcome::RequestFailed(detail) => CheckView {
            original_url: url,
            original_input: input,
            status_code: 0,
            title: "request failed"@,
            banner: Seq::empty(),
            content_length: 0,
            redirect_url: Seq::empty(),
            error: Some("request failed: "@ + detail@),
        },
        FetchOutcome::BodyReadFailed(head, detail) => CheckView {
            original_url: url,
            original_input: input,
            status_code: head.status_code,
            title: "content read failed"@,
            banner: banner_spec(head.headers@),
            content_length: 0,
            redirect_url: redirect_spec(head.headers@),
            error: Some("content read failed: "@ + detail@),
        },
        FetchOutcome::Fetched(head, body) => CheckView {
            original_url: url,
            original_input: input,
            status_code: head.status_code,
            title: title_spec(body@),
            banner: banner_spec(head.headers@),
            content_length: byte_len(body@) as usize,
            redirect_url: redirect_spec(head.headers@),
            error: None,
        },
    }
}

/// Builds the record for one probe of `url`, derived from `original_input`,
/// whose fetch came as far as `outcome` says. Never fails: every outcome,
/// success or failure, yields a record, per `check_spec`.
pub fn check_url(url: String, original_input: String, outcome: FetchOutcome) -> (r: CheckResult)
    ensures
        r@ == check_spec(url@, original_input@, outcome),
{
    match outcome {
        FetchOutcome::ClientBuildFailed(detail) => {
            let mut err = String::from_str("client build failed: ");
            err.append(detail.as_str());
            CheckResult {
                original_url: url,
                original_input,
                status_code: 0,
                title: String::from_str("client build failed"),
                banner: String::new(),
                content_length: 0,
                redirect_url: String::new(),
                error: Some(err),
            }
        },
        FetchOutcome::RequestFailed(detail) => {
            let mut err = String::from_str("request failed: ");
            err.append(detail.as_str());
            CheckResult {
                original_url: url,
                original_input,
                status_code: 0,
                title: String::from_str("request failed"),
                banner: String::new(),
                content_length: 0,
                redirect_url: String::new(),
                error: Some(err),
            }
        },
        FetchOutcome::BodyReadFailed(head, detail) => {
            let banner = extract_banner(&head.headers);
            let redirect_url = redirect_of(&head.headers);
            let mut err = String::from_str("content read failed: ");
            err.append(detail.as_str());
            CheckResult {
                original_url: url,
                original_input,
                status_code: head.status_code,
                title: String::from_str("content read failed"),
                banner,
                content_length: 0,
                redirect_url,
                error: Some(err),
            }
        },
        FetchOutcome::Fetched(head, body) => {
            let banner = extract_banner(&head.headers);
            let redirect_url = redirect_of(&head.headers);
            let title = extract_title(body.as_str());
            let content_length = body.as_str().len();
            CheckResult {
                original_url: url,
                original_input,
                status_code: head.status_code,
                title,
                banner,
                content_length,
                redirect_url,
                error: None,
            }
        },
    }
}

/// Law: the record invariant. An error is carried iff the probe did not
/// complete normally; a failure before any response leaves the status code
/// 0; every failure leaves the content length 0; and a body-read failure
/// keeps the status code, banner, and redirect target already known from
/// the response head — a partial success, the one path where a nonzero
/// status coexists with an error.
pub proof fn lemma_check_result_invariant(url: Seq<char>, input: Seq<char>, outcome: FetchOutcome)
    ensures
        (check_spec(url, input, outcome).error is Some) <==> !(outcome is Fetched),
        (outcome is ClientBuildFailed || outcome is RequestFailed) ==> check_spec(
            url,
            input,
            outcome,
        ).status_code == 0,
        !(outcome is Fetched) ==> check_spec(url, input, outcome).content_length == 0,
        outcome matches FetchOutcome::BodyReadFailed(head, _) ==> check_spec(
            url,
            input,
            outcome,
        ).status_code == head.status_code && check_spec(url, input, outcome).banner == banner_spec(
            head.headers@,
        ) && check_spec(url, input, outcome).redirect_url == redirect_spec(head.headers@),
{
}

/// Law: a probe is a pure mapping. Two records produced from the same URL,
/// the same raw input, and the same fetch outcome are equal in every field.
pub proof fn lemma_check_deterministic(
    r1: CheckResult,
    r2: CheckResult,
    url: Seq<char>,
    input: Seq<char>,
    outcome: FetchOutcome,
)
    requires
        r1@ == check_spec(url, input, outcome),
        r2@ == check_spec(url, input, outcome),
    ensures
        r1@ == r2@,
{
}

} // verus!
