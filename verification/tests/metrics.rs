//! Records carrying each scoring schema, read from JSON bodies of the
//! feed's shape.

use nvd_feed::handle_reply;
use nvd_feed::FeedError;

fn page_body(metrics: &str) -> String {
    format!(
        "{{\"totalResults\":1,\"vulnerabilities\":[{{\"cve\":{{\
         \"id\":\"CVE-2017-0144\",\"sourceIdentifier\":\"nvd@nist.gov\",\
         \"published\":\"2017-03-16\",\"lastModified\":\"2021-08-04\",\
         \"vulnStatus\":\"Analyzed\",\
         \"descriptions\":[{{\"lang\":\"en\",\"value\":\"a flaw\"}}],\
         \"metrics\":{{{}}}}}}}]}}",
        metrics
    )
}

#[test]
fn cvss_v31_test() {
    let metrics = "\"cvssMetricV31\":[{\"source\":\"nvd@nist.gov\",\
        \"type\":\"Primary\",\"cvssData\":{\"version\":\"3.1\",\
        \"baseSeverity\":\"HIGH\"}}]";
    let page = handle_reply(200, Some(page_body(metrics))).unwrap();
    let input = &page.vulnerabilities[0].cve;
    assert_eq!(input.get_base_severity().unwrap(), "HIGH");
}

#[test]
fn cvss_v2_test() {
    let metrics = "\"cvssMetricV2\":[{\"source\":\"nvd@nist.gov\",\
        \"type\":\"Primary\",\"baseSeverity\":\"MEDIUM\"}]";
    let page = handle_reply(200, Some(page_body(metrics))).unwrap();
    let input = &page.vulnerabilities[0].cve;
    assert_eq!(input.get_base_severity().unwrap(), "MEDIUM");
}

#[test]
fn invalid_cvss_version_test() {
    // a schema this layer does not know is passed over, and the record
    // then has no derivable severity
    let metrics = "\"cvssMetricV99\":[{\"source\":\"nvd@nist.gov\",\
        \"type\":\"Primary\",\"baseSeverity\":\"HIGH\"}]";
    let page = handle_reply(200, Some(page_body(metrics))).unwrap();
    let input = &page.vulnerabilities[0].cve;
    assert_eq!(input.get_base_severity(), None);
}

#[test]
fn metric_entry_of_wrong_shape_is_malformed() {
    // a known schema key whose entries miss a member drops the body
    let metrics = "\"cvssMetricV31\":[{\"source\":\"nvd@nist.gov\"}]";
    assert_eq!(
        handle_reply(200, Some(page_body(metrics))),
        Err(FeedError::MalformedResponse)
    );
}
