//! The feed client: builds the query strings, issues the HTTP calls,
//! and applies the response protocol.
//!
//! Every operation is a linear state machine with no retry: a transport
//! failure surfaces as `RemoteUnavailable`, a status outside the 2xx
//! range as `RemoteRejected` with that status, and a 2xx body that does
//! not conform to the expected shape as `MalformedResponse`.

use vstd::prelude::*;
use vstd::string::*;

use crate::cpe::lemma_valid_cpe_ascii;
use crate::cpe::spec_valid_cpe;
use crate::cve_id::spec_valid_cve;
use crate::encode::is_ascii_seq;
use crate::encode::spec_url_encode;
use crate::encode::spec_url_encode_bytes;
use crate::encode::url_encode;
use crate::json::parse_feed_page;
use crate::json::spec_feed_page;
use crate::numstr::append_dec;
use crate::numstr::spec_dec;
use crate::records::CPEResponse;
use crate::records::CPEResponseView;
use crate::timefmt::MAX_FORMATTABLE_EPOCH;
use crate::timefmt::format_timestamp;
use crate::timefmt::spec_format_epoch;

verus! {

/// How an operation on the remote feed fails. Every failure is terminal
/// for the one operation in progress; nothing is retried.
#[derive(Debug, Clone, Copy, PartialEq, Eq, Structural)]
pub enum FeedError {
    /// The transport failed before any HTTP status was obtained.
    RemoteUnavailable,
    /// The endpoint answered with the carried status, outside 2xx.
    RemoteRejected(u16),
    /// A 2xx answer whose body does not conform to the expected shape.
    MalformedResponse,
    /// A requested time window leaves the representable date range.
    DateArithmeticFailure,
}

impl FeedError {
    /// A short display text for the failure.
    pub fn message(&self) -> (r: String)
        ensures
            match *self {
                FeedError::RemoteUnavailable => r@ == ("API endpoint not responding")@,
                FeedError::RemoteRejected(code) => r@ == ("API endpoint refused: Code ")@
                    + spec_dec(code as nat),
                FeedError::MalformedResponse => r@ == ("Failed to parse response as json")@,
                FeedError::DateArithmeticFailure => r@ == (
                "Requested time window is out of range")@,
            },
    {
        match self {
            FeedError::RemoteUnavailable => "API endpoint not responding".to_owned(),
            FeedError::RemoteRejected(code) => {
                let mut out: String = "API endpoint refused: Code ".to_owned();
                append_dec(&mut out, *code as u64);
                out
            },
            FeedError::MalformedResponse => "Failed to parse response as json".to_owned(),
            FeedError::DateArithmeticFailure => "Requested time window is out of range".to_owned(),
        }
    }
}

/// The failure kinds a remote call itself can produce; a time window
/// that cannot be represented is found before any call is made.
pub open spec fn is_remote_error(e: FeedError) -> bool {
    e is RemoteUnavailable || e is RemoteRejected || e is MalformedResponse
}

// ---------------------------------------------------------------------
// query strings
// ---------------------------------------------------------------------

/// The query for every record of a platform: `cpeName` alone.
pub open spec fn spec_params_all(cpe: Seq<char>) -> Seq<char> {
    ("cpeName=")@ + spec_url_encode(cpe)
}

/// The probe of the two-phase windowed fetch: one record, to learn the
/// total count.
pub open spec fn spec_params_probe(cpe: Seq<char>) -> Seq<char> {
    ("cpeName=")@ + spec_url_encode(cpe) + ("&resultsPerPage=1")@
}

/// The second phase: `amount` records from the absolute `start_index`.
pub open spec fn spec_params_window(cpe: Seq<char>, amount: u64, start_index: u64) -> Seq<char> {
    ("cpeName=")@ + spec_url_encode(cpe) + ("&resultsPerPage=")@ + spec_dec(amount as nat) + (
    "&startIndex=")@ + spec_dec(start_index as nat)
}

/// The query for records whose last modification falls in a window.
pub open spec fn spec_params_modified(cpe: Seq<char>, start: i64, end: i64) -> Seq<char> {
    ("cpeName=")@ + spec_url_encode(cpe) + ("&lastModStartDate=")@ + spec_format_epoch(start) + (
    "&lastModEndDate=")@ + spec_format_epoch(end)
}

/// The query for one record by its identifier.
pub open spec fn spec_params_by_id(cve: Seq<char>) -> Seq<char> {
    ("cveId=")@ + spec_url_encode(cve)
}

/// Builds the `cpeName` query.
pub fn params_for_all(cpe: &str) -> (r: String)
    ensures
        is_ascii_seq(cpe@) ==> r@ == spec_params_all(cpe@),
        spec_valid_cpe(cpe@) ==> r@ == spec_params_all(cpe@),
{
    proof {
        if spec_valid_cpe(cpe@) {
            lemma_valid_cpe_ascii(cpe@);
        }
    }
    let mut out: String = "cpeName=".to_owned();
    let enc = url_encode(cpe);
    out.append(enc.as_str());
    out
}

/// Builds the probe query of the windowed fetch.
pub fn params_for_probe(cpe: &str) -> (r: String)
    ensures
        is_ascii_seq(cpe@) ==> r@ == spec_params_probe(cpe@),
        spec_valid_cpe(cpe@) ==> r@ == spec_params_probe(cpe@),
{
    proof {
        if spec_valid_cpe(cpe@) {
            lemma_valid_cpe_ascii(cpe@);
        }
    }
    let mut out: String = "cpeName=".to_owned();
    let enc = url_encode(cpe);
    out.append(enc.as_str());
    out.append("&resultsPerPage=1");
    out
}

/// Builds the second-phase query of the windowed fetch.
pub fn params_for_window(cpe: &str, amount: u64, start_index: u64) -> (r: String)
    ensures
        is_ascii_seq(cpe@) ==> r@ == spec_params_window(cpe@, amount, start_index),
        spec_valid_cpe(cpe@) ==> r@ == spec_params_window(cpe@, amount, start_index),
{
    proof {
        if spec_valid_cpe(cpe@) {
            lemma_valid_cpe_ascii(cpe@);
        }
    }
    let mut out: String = "cpeName=".to_owned();
    let enc = url_encode(cpe);
    out.append(enc.as_str());
    out.append("&resultsPerPage=");
    append_dec(&mut out, amount);
    out.append("&startIndex=");
    append_dec(&mut out, start_index);
    proof {
        if is_ascii_seq(cpe@) {
            assert(out@ =~= spec_params_window(cpe@, amount, start_index));
        }
    }
    out
}

/// Builds the modification-window query.
pub fn params_for_modified(cpe: &str, start_date: i64, end_date: i64) -> (r: String)
    requires
        0 <= start_date <= MAX_FORMATTABLE_EPOCH,
        0 <= end_date <= MAX_FORMATTABLE_EPOCH,
    ensures
        is_ascii_seq(cpe@) ==> r@ == spec_params_modified(cpe@, start_date, end_date),
        spec_valid_cpe(cpe@) ==> r@ == spec_params_modified(cpe@, start_date, end_date),
{
    proof {
        if spec_valid_cpe(cpe@) {
            lemma_valid_cpe_ascii(cpe@);
        }
    }
    let mut out: String = "cpeName=".to_owned();
    let enc = url_encode(cpe);
    out.append(enc.as_str());
    out.append("&lastModStartDate=");
    let start_text = format_timestamp(start_date);
    out.append(start_text.as_str());
    out.append("&lastModEndDate=");
    let end_text = format_timestamp(end_date);
    out.append(end_text.as_str());
    proof {
        if is_ascii_seq(cpe@) {
            assert(out@ =~= spec_params_modified(cpe@, start_date, end_date));
        }
    }
    out
}

/// Builds the by-identifier query. A valid identifier may carry
/// arbitrary leading text, so the encoding is also pinned down over the
/// UTF-8 bytes, for every input.
pub fn params_for_cve(cve: &str) -> (r: String)
    ensures
        r@ == ("cveId=")@ + spec_url_encode_bytes(cve.spec_bytes()),
        is_ascii_seq(cve@) ==> r@ == spec_params_by_id(cve@),
{
    let mut out: String = "cveId=".to_owned();
    let enc = url_encode(cve);
    out.append(enc.as_str());
    out
}

// ---------------------------------------------------------------------
// the windowed-pagination arithmetic
// ---------------------------------------------------------------------

/// Offset of the requested window inside a result set of `total`
/// records: page 1 is the newest `amount` records, page 2 the `amount`
/// records just older, and so on. When the set is smaller than the
/// request the offset saturates to zero, the oldest available window,
/// rather than failing.
pub open spec fn spec_start_index(amount: u64, page: u64, total: u64) -> u64 {
    if amount * page < total {
        (total - amount * page) as u64
    } else {
        0
    }
}

/// First phase of the windowed pagination: given the probed `total`,
/// pick the absolute start index of the requested window.
pub fn start_index_for_window(amount: u64, page: u64, total: u64) -> (r: u64)
    ensures
        r == spec_start_index(amount, page, total),
{
    match amount.checked_mul(page) {
        Some(span) => {
            if span < total {
                total - span
            } else {
                0
            }
        },
        None => {
            proof {
                assert(amount * page >= total) by (nonlinear_arith)
                    requires
                        amount * page > u64::MAX,
                        total <= u64::MAX,
                ;
            }
            0
        },
    }
}

// ---------------------------------------------------------------------
// the response protocol
// ---------------------------------------------------------------------

/// The text of an optional body.
pub open spec fn spec_body_text(body: Option<String>) -> Option<Seq<char>> {
    match body {
        Some(b) => Some(b@),
        None => None,
    }
}

/// The outcome the response protocol owes for one HTTP answer: a status
/// outside 2xx is rejected with that very status, whatever the body
/// holds; a 2xx body of the expected shape becomes the page; any other
/// 2xx body, or one that could not be read, is malformed.
pub open spec fn spec_protocol(status: u16, body: Option<Seq<char>>) -> Result<
    CPEResponseView,
    FeedError,
> {
    if !(200 <= status < 300) {
        Err(FeedError::RemoteRejected(status))
    } else {
        match body {
            Some(text) => match spec_feed_page(text) {
                Some(page) => Ok(page),
                None => Err(FeedError::MalformedResponse),
            },
            None => Err(FeedError::MalformedResponse),
        }
    }
}

/// Applies the response protocol to one HTTP answer: exactly the
/// outcome `spec_protocol` owes it.
pub fn handle_reply(status: u16, body: Option<String>) -> (r: Result<CPEResponse, FeedError>)
    ensures
        match r {
            Ok(page) => spec_protocol(status, spec_body_text(body)) == Ok::<
                CPEResponseView,
                FeedError,
            >(page@),
            Err(e) => spec_protocol(status, spec_body_text(body)) == Err::<
                CPEResponseView,
                FeedError,
            >(e),
        },
{
    if status < 200 || status >= 300 {
        return Err(FeedError::RemoteRejected(status));
    }
    match body {
        Some(text) => match parse_feed_page(text.as_str()) {
            Some(page) => Ok(page),
            None => Err(FeedError::MalformedResponse),
        },
        None => Err(FeedError::MalformedResponse),
    }
}

/// Classifies one whole transport outcome: no reply at all — the
/// transport failed before a status arrived — is the remote being
/// unavailable; a reply gets the response protocol.
pub fn classify_reply(reply: Option<(u16, Option<String>)>) -> (r: Result<CPEResponse, FeedError>)
    ensures
        reply is None ==> r == Err::<CPEResponse, FeedError>(FeedError::RemoteUnavailable),
        reply matches Some(rep) ==> match r {
            Ok(page) => spec_protocol(rep.0, spec_body_text(rep.1)) == Ok::<
                CPEResponseView,
                FeedError,
            >(page@),
            Err(e) => spec_protocol(rep.0, spec_body_text(rep.1)) == Err::<
                CPEResponseView,
                FeedError,
            >(e),
        },
{
    match reply {
        None => Err(FeedError::RemoteUnavailable),
        Some((status, body)) => handle_reply(status, body),
    }
}

// ---------------------------------------------------------------------
// the HTTP transport, behind trusted wrappers
// ---------------------------------------------------------------------

/// reqwest's blocking HTTP client, declared so verified code can hold
/// one. What is inside stays opaque.
#[verifier::external_type_specification]
#[verifier::external_body]
pub struct ExHttpClient(reqwest::blocking::Client);

/// Relies on reqwest::blocking::ClientBuilder::build: a reusable HTTP
/// client with a connection pool, or nothing when the TLS backend
/// cannot be initialized. The blocking client refuses to live inside an
/// async runtime by panicking; this library and its callers are
/// synchronous.
#[verifier::external_body]
fn build_http_client() -> Option<reqwest::blocking::Client> {
    reqwest::blocking::Client::builder().build().ok()
}

/// Relies on reqwest::blocking::Client::get and send: one HTTP GET with
/// no retry. Gives the status and, when it could be read, the body
/// text; nothing when the transport failed before a status arrived.
/// Nothing is assumed about what the network returns. As with the
/// builder, the blocking call must not run inside an async runtime.
#[verifier::external_body]
fn http_get(client: &reqwest::blocking::Client, url: &str) -> Option<(u16, Option<String>)> {
    match client.get(url).send() {
        Ok(response) => {
            let status = response.status().as_u16();
            Some((status, response.text().ok()))
        },
        Err(_) => None,
    }
}

// ---------------------------------------------------------------------
// the client
// ---------------------------------------------------------------------

/// A stateless client of the remote vulnerability feed. The underlying
/// HTTP client is kept for connection reuse; when it could not be
/// built, every call reports the remote as unavailable.
pub struct NISTAPIClient {
    http_client: Option<reqwest::blocking::Client>,
}

impl NISTAPIClient {
    /// A fresh client.
    pub fn new() -> NISTAPIClient {
        NISTAPIClient { http_client: build_http_client() }
    }

    /// One call: appends the query to the fixed base endpoint, performs
    /// the GET, and classifies the whole transport outcome — no reply
    /// is the remote being unavailable, a reply gets the response
    /// protocol.
    fn query_nist(&self, params: &str) -> (r: Result<CPEResponse, FeedError>)
        ensures
            r matches Err(e) ==> is_remote_error(e),
            self.http_client is None ==> r == Err::<CPEResponse, FeedError>(
                FeedError::RemoteUnavailable,
            ),
    {
        let mut url: String = "https://services.nvd.nist.gov/rest/json/cves/2.0?".to_owned();
        url.append(params);
        match &self.http_client {
            None => Err(FeedError::RemoteUnavailable),
            Some(client) => classify_reply(http_get(client, url.as_str())),
        }
    }

    /// Every record for a platform when `amount` is absent; otherwise up
    /// to `amount` records of the 1-indexed `page`, counted backward
    /// from the most recently indexed record, in two phases: a probe
    /// for the current total, then the real call at the computed
    /// offset. Between the two calls the remote total can change, so
    /// the returned window can shift by a few records against the true
    /// page; that race is accepted, not worked around.
    pub fn get_cves_from_cpe(&self, cpe: &str, amount: Option<u64>, page: Option<u64>) -> (r:
        Result<CPEResponse, FeedError>)
        requires
            spec_valid_cpe(cpe@),
        ensures
            r matches Err(e) ==> is_remote_error(e),
    {
        let amount = match amount {
            None => {
                let params = params_for_all(cpe);
                return self.query_nist(params.as_str());
            },
            Some(a) => a,
        };
        let page = match page {
            Some(p) => p,
            None => 1,
        };
        // first phase: learn the current total for the filter
        let probe = params_for_probe(cpe);
        let response = match self.query_nist(probe.as_str()) {
            Ok(x) => x,
            Err(e) => return Err(e),
        };
        let start_index = start_index_for_window(amount, page, response.totalResults);
        // second phase: the real window
        let params = params_for_window(cpe, amount, start_index);
        self.query_nist(params.as_str())
    }

    /// The records of a platform whose last modification falls between
    /// the two epoch seconds, both formatted for the remote endpoint.
    pub fn get_latest_updated_cves_from_cpe(&self, cpe: &str, start_date: i64, end_date: i64) -> (r:
        Result<CPEResponse, FeedError>)
        requires
            spec_valid_cpe(cpe@),
            0 <= start_date <= MAX_FORMATTABLE_EPOCH,
            0 <= end_date <= MAX_FORMATTABLE_EPOCH,
        ensures
            r matches Err(e) ==> is_remote_error(e),
    {
        let params = params_for_modified(cpe, start_date, end_date);
        self.query_nist(params.as_str())
    }

    /// The record with the given identifier; the result is still a page,
    /// usually of zero or one record.
    pub fn get_cve_info(&self, cve: &str) -> (r: Result<CPEResponse, FeedError>)
        requires
            spec_valid_cve(cve@),
        ensures
            r matches Err(e) ==> is_remote_error(e),
    {
        let params = params_for_cve(cve);
        self.query_nist(params.as_str())
    }
}

} // verus!
