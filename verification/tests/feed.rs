//! The data model, the severity resolution, the response protocol, and
//! the query-string construction, on concrete values.

use nvd_feed::handle_reply;
use nvd_feed::params_for_all;
use nvd_feed::params_for_cve;
use nvd_feed::params_for_modified;
use nvd_feed::params_for_probe;
use nvd_feed::params_for_window;
use nvd_feed::start_index_for_window;
use nvd_feed::window_bounds;
use nvd_feed::CPEResponse;
use nvd_feed::CVEContainer;
use nvd_feed::CVEDetail;
use nvd_feed::CVSSMetricContainer;
use nvd_feed::CVSSMetricV2;
use nvd_feed::CVSSMetricV31;
use nvd_feed::CVSSV31Data;
use nvd_feed::FeedError;
use nvd_feed::CVE;

fn record(id: &str, v2: Option<Vec<CVSSMetricV2>>, v31: Option<Vec<CVSSMetricV31>>) -> CVE {
    CVE {
        id: id.to_string(),
        sourceIdentifier: "nvd@nist.gov".to_string(),
        published: "2021-08-04T13:00:00.000".to_string(),
        lastModified: "2021-08-04T13:00:00.000".to_string(),
        vulnStatus: "Analyzed".to_string(),
        descriptions: vec![CVEDetail { lang: "en".to_string(), value: "a flaw".to_string() }],
        metrics: CVSSMetricContainer { cvssMetricV2: v2, cvssMetricV31: v31 },
    }
}

fn v2_entry(severity: &str) -> CVSSMetricV2 {
    CVSSMetricV2 {
        source: "nvd@nist.gov".to_string(),
        baseSeverity: severity.to_string(),
        t: "Primary".to_string(),
    }
}

fn v31_entry(severity: &str) -> CVSSMetricV31 {
    CVSSMetricV31 {
        source: "nvd@nist.gov".to_string(),
        cvssData: CVSSV31Data {
            version: "3.1".to_string(),
            baseSeverity: severity.to_string(),
        },
        t: "Primary".to_string(),
    }
}

#[test]
fn resolver_precedence() {
    // only a newer-schema entry
    let r = record("CVE-2021-0001", None, Some(vec![v31_entry("HIGH")]));
    assert_eq!(r.get_base_severity().unwrap(), "HIGH");
    // only an older-schema entry
    let r = record("CVE-2021-0002", Some(vec![v2_entry("MEDIUM")]), None);
    assert_eq!(r.get_base_severity().unwrap(), "MEDIUM");
    // neither: unavailable, never a default
    let r = record("CVE-2021-0003", None, None);
    assert_eq!(r.get_base_severity(), None);
    // both present: the newer schema wins, first entry only
    let r = record(
        "CVE-2021-0004",
        Some(vec![v2_entry("LOW")]),
        Some(vec![v31_entry("CRITICAL"), v31_entry("LOW")]),
    );
    assert_eq!(r.get_base_severity().unwrap(), "CRITICAL");
    // an empty newer collection falls through to the older one
    let r = record("CVE-2021-0005", Some(vec![v2_entry("Low")]), Some(vec![]));
    assert_eq!(r.get_base_severity().unwrap(), "Low");
}

#[test]
fn summarize_and_counts() {
    let page = CPEResponse {
        vulnerabilities: vec![
            CVEContainer { cve: record("CVE-2021-0001", None, Some(vec![v31_entry("HIGH")])) },
            CVEContainer { cve: record("CVE-2021-0002", Some(vec![v2_entry("low")]), None) },
            CVEContainer { cve: record("CVE-2021-0003", None, None) },
            CVEContainer { cve: record("CVE-2021-0004", Some(vec![v2_entry("LOW")]), None) },
        ],
        totalResults: 4,
    };
    let text = nvd_feed::summarize_cpe_response(&page);
    assert_eq!(
        text,
        "CVE-2021-0001 - HIGH - _\nCVE-2021-0002 - low - _\nCVE-2021-0003 - NO METRIC AVAILABLE\nCVE-2021-0004 - LOW - _\n"
    );
    // counting is case-insensitive; missing metrics count nowhere
    assert_eq!(nvd_feed::severity_counts(&page), (2, 0, 1, 0));
}

#[test]
fn description_and_links() {
    let mut r = record("CVE-2021-0001", None, None);
    r.descriptions = vec![
        CVEDetail { lang: "es".to_string(), value: "una falla".to_string() },
        CVEDetail { lang: "en".to_string(), value: "a flaw".to_string() },
        CVEDetail { lang: "en".to_string(), value: "another".to_string() },
    ];
    assert_eq!(nvd_feed::english_description(&r).unwrap(), "a flaw");
    r.descriptions = vec![CVEDetail { lang: "es".to_string(), value: "una falla".to_string() }];
    assert_eq!(nvd_feed::english_description(&r), None);
    assert_eq!(
        nvd_feed::nvd_link("CVE-2021-0001"),
        "https://nvd.nist.gov/vuln/detail/CVE-2021-0001"
    );
    assert_eq!(nvd_feed::gen_pdf_file_name(17), "17.pdf");
    assert_eq!(nvd_feed::u64_to_string(0), "0");
    assert_eq!(nvd_feed::u64_to_string(9040), "9040");
}

#[test]
fn window_start_index() {
    // probe reports 25: page 1 of 10 starts at 15
    assert_eq!(start_index_for_window(10, 1, 25), 15);
    // fewer records than the request: saturate to the oldest window
    assert_eq!(start_index_for_window(10, 1, 5), 0);
    assert_eq!(start_index_for_window(10, 2, 25), 5);
    assert_eq!(start_index_for_window(10, 3, 25), 0);
    // a page so deep the product overflows still saturates
    assert_eq!(start_index_for_window(u64::MAX, 2, u64::MAX), 0);
}

#[test]
fn query_strings() {
    let cpe = "cpe:2.3:o:linux:linux_kernel:5.4.21:*:*:*:*:*:*:*";
    let encoded = "cpe%3A2.3%3Ao%3Alinux%3Alinux_kernel%3A5.4.21%3A%2A%3A%2A%3A%2A%3A%2A%3A%2A%3A%2A%3A%2A";
    assert_eq!(params_for_all(cpe), format!("cpeName={}", encoded));
    assert_eq!(params_for_probe(cpe), format!("cpeName={}&resultsPerPage=1", encoded));
    assert_eq!(
        params_for_window(cpe, 10, 15),
        format!("cpeName={}&resultsPerPage=10&startIndex=15", encoded)
    );
    assert_eq!(
        params_for_modified(cpe, 1628082000, 1634909760),
        format!(
            "cpeName={}&lastModStartDate=2021-08-04T13:00:00.000%2B01:00&lastModEndDate=2021-10-22T13:36:00.000%2B01:00",
            encoded
        )
    );
    assert_eq!(params_for_cve("CVE-2015-4000"), "cveId=CVE-2015-4000");
    // an escaped colon in a field percent-encodes as backslash then colon
    assert_eq!(
        params_for_cve("a\\:b"),
        "cveId=a%5C%3Ab"
    );
}

#[test]
fn classify_transport_outcomes() {
    // no reply at all: the remote is unavailable
    assert_eq!(
        nvd_feed::classify_reply(None),
        Err(FeedError::RemoteUnavailable)
    );
    // a reply gets the response protocol
    assert_eq!(
        nvd_feed::classify_reply(Some((404, None))),
        Err(FeedError::RemoteRejected(404))
    );
    let body = "{\"vulnerabilities\":[],\"totalResults\":3}";
    let page = nvd_feed::classify_reply(Some((200, Some(body.to_string())))).unwrap();
    assert_eq!(page.totalResults, 3);
}

#[test]
fn reply_protocol() {
    // a status outside 2xx surfaces as the rejection with that very
    // status, never as a malformed response, whatever the body holds
    let r = handle_reply(500, Some("{\"vulnerabilities\":[],\"totalResults\":0}".to_string()));
    assert_eq!(r, Err(FeedError::RemoteRejected(500)));
    assert_eq!(handle_reply(404, None), Err(FeedError::RemoteRejected(404)));
    assert_eq!(handle_reply(199, None), Err(FeedError::RemoteRejected(199)));
    assert_eq!(handle_reply(300, None), Err(FeedError::RemoteRejected(300)));

    // a 2xx with an unreadable or ill-shaped body is malformed
    assert_eq!(handle_reply(200, None), Err(FeedError::MalformedResponse));
    assert_eq!(
        handle_reply(200, Some("not json".to_string())),
        Err(FeedError::MalformedResponse)
    );
    assert_eq!(
        handle_reply(200, Some("{\"vulnerabilities\":[]}".to_string())),
        Err(FeedError::MalformedResponse)
    );

    // a 2xx of the expected shape becomes the page
    let body = "{\"vulnerabilities\":[],\"totalResults\":25}";
    let page = handle_reply(200, Some(body.to_string())).unwrap();
    assert_eq!(page.totalResults, 25);
    assert_eq!(page.vulnerabilities.len(), 0);
}

#[test]
fn reply_parses_records() {
    let body = "{\"totalResults\":1,\"vulnerabilities\":[{\"cve\":{\
        \"id\":\"CVE-2021-0001\",\"sourceIdentifier\":\"nvd@nist.gov\",\
        \"published\":\"2021-08-04\",\"lastModified\":\"2021-08-05\",\
        \"vulnStatus\":\"Analyzed\",\
        \"descriptions\":[{\"lang\":\"en\",\"value\":\"a flaw\"}],\
        \"metrics\":{\"cvssMetricV31\":[{\"source\":\"nvd@nist.gov\",\
        \"type\":\"Primary\",\"cvssData\":{\"version\":\"3.1\",\
        \"baseSeverity\":\"HIGH\"}}]}}}]}";
    let page = handle_reply(200, Some(body.to_string())).unwrap();
    assert_eq!(page.totalResults, 1);
    assert_eq!(page.vulnerabilities.len(), 1);
    let cve = &page.vulnerabilities[0].cve;
    assert_eq!(cve.id, "CVE-2021-0001");
    assert_eq!(cve.vulnStatus, "Analyzed");
    assert_eq!(cve.descriptions[0].lang, "en");
    assert_eq!(cve.get_base_severity().unwrap(), "HIGH");

    // a record missing a required member drops the whole body: no
    // partial record is ever returned
    let body = "{\"totalResults\":1,\"vulnerabilities\":[{\"cve\":{\
        \"id\":\"CVE-2021-0001\"}}]}";
    assert_eq!(handle_reply(200, Some(body.to_string())), Err(FeedError::MalformedResponse));
}

#[test]
fn window_bounds_and_errors() {
    // two days before an instant, both ends in range
    assert_eq!(window_bounds(1628082000, 2), Ok((1628082000 - 2 * 86400, 1628082000)));
    // a window whose start would underflow the representable dates
    assert_eq!(window_bounds(1000, 1), Err(FeedError::DateArithmeticFailure));
    assert_eq!(window_bounds(1628082000, u64::MAX), Err(FeedError::DateArithmeticFailure));

    assert_eq!(FeedError::RemoteUnavailable.message(), "API endpoint not responding");
    assert_eq!(FeedError::RemoteRejected(503).message(), "API endpoint refused: Code 503");
    assert_eq!(FeedError::MalformedResponse.message(), "Failed to parse response as json");
    assert_eq!(
        FeedError::DateArithmeticFailure.message(),
        "Requested time window is out of range"
    );
}

#[test]
fn case_insensitive_labels() {
    assert!(nvd_feed::eq_ignore_case("LOW", "low"));
    assert!(nvd_feed::eq_ignore_case("Low", "low"));
    assert!(nvd_feed::eq_ignore_case("low", "low"));
    assert!(!nvd_feed::eq_ignore_case("lows", "low"));
    assert!(!nvd_feed::eq_ignore_case("med", "low"));
}
