//! The identifier grammars and the timestamp formatting, on concrete
//! inputs.

use nvd_feed::cpe_to_string;
use nvd_feed::format_timestamp;
use nvd_feed::is_valid_cpe_string;
use nvd_feed::is_valid_cve_string;
use nvd_feed::parse_cpe;

#[test]
fn is_valid_cpe_string_test() {
    assert_eq!(is_valid_cpe_string("test123"), false);
    // looks legit but misses an ':' between 'alawar' and 'motor_town'
    assert_eq!(
        is_valid_cpe_string("cpe:2.3:a:alawarmotor_town\\:_machine_soul_free:1.1:*:*:*:*:android:*:*"),
        false
    );

    assert_eq!(
        is_valid_cpe_string("cpe:2.3:a:alawar:motor_town\\:_machine_soul_free:1.1:*:*:*:*:android:*:*"),
        true
    );
    assert_eq!(is_valid_cpe_string("cpe:2.3:o:linux:linux_kernel:5.4.21:*:*:*:*:*:*:*"), true);
    assert_eq!(is_valid_cpe_string("cpe:2.3:o:microsoft:windows:-:*:*:*:*:*:*:*"), true);
}

#[test]
fn is_valid_cve_string_test() {
    assert_eq!(is_valid_cve_string("jddjkhYDDKDK"), false);
    assert_eq!(is_valid_cve_string("CVE-2015-4000-"), false);

    assert_eq!(is_valid_cve_string("CVE-2015-4000"), true);
    assert_eq!(is_valid_cve_string("CVE-2009-1394"), true);
    assert_eq!(is_valid_cve_string("CVE-1999-0524"), true);
}

#[test]
fn format_timestamp_test() {
    assert_eq!(format_timestamp(1628082000), "2021-08-04T13:00:00.000%2B01:00");
    assert_eq!(format_timestamp(1634909760), "2021-10-22T13:36:00.000%2B01:00");
}

#[test]
fn cpe_grammar_details() {
    // the part field is one of a, h, o, *, -
    assert_eq!(is_valid_cpe_string("cpe:2.3:x:v:p:1:*:*:*:*:*:*:*"), false);
    assert_eq!(is_valid_cpe_string("cpe:2.3:*:v:p:1:*:*:*:*:*:*:*"), true);
    // too few and too many fields
    assert_eq!(is_valid_cpe_string("cpe:2.3:a:v:p:1:*:*:*:*:*:*"), false);
    assert_eq!(is_valid_cpe_string("cpe:2.3:a:v:p:1:*:*:*:*:*:*:*:*"), false);
    // an empty attribute field is not allowed
    assert_eq!(is_valid_cpe_string("cpe:2.3:a::p:1:*:*:*:*:*:*:*"), false);
    // wildcards may only bracket a value, and a lone '?' run is no value
    assert_eq!(is_valid_cpe_string("cpe:2.3:a:*v?:p:1:*:*:*:*:*:*:*"), true);
    assert_eq!(is_valid_cpe_string("cpe:2.3:a:??:p:1:*:*:*:*:*:*:*"), false);
    assert_eq!(is_valid_cpe_string("cpe:2.3:a:v*v:p:1:*:*:*:*:*:*:*"), false);
    // escapes: a known special may follow a backslash, another may not
    assert_eq!(is_valid_cpe_string("cpe:2.3:a:v\\+w:p:1:*:*:*:*:*:*:*"), true);
    assert_eq!(is_valid_cpe_string("cpe:2.3:a:v\\w:p:1:*:*:*:*:*:*:*"), false);
    // a trailing backslash swallows nothing and is rejected
    assert_eq!(is_valid_cpe_string("cpe:2.3:a:v:p:1:*:*:*:*:*:*:*\\"), false);
    // language tags, in the ninth component: codes and regions
    assert_eq!(is_valid_cpe_string("cpe:2.3:a:v:p:1:*:*:en:*:*:*:*"), true);
    assert_eq!(is_valid_cpe_string("cpe:2.3:a:v:p:1:*:*:en-US:*:*:*:*"), true);
    assert_eq!(is_valid_cpe_string("cpe:2.3:a:v:p:1:*:*:en-150:*:*:*:*"), true);
    assert_eq!(is_valid_cpe_string("cpe:2.3:a:v:p:1:*:*:e:*:*:*:*"), false);
    assert_eq!(is_valid_cpe_string("cpe:2.3:a:v:p:1:*:*:en-1:*:*:*:*"), false);
    // wildcard runs bracketing a value
    assert_eq!(is_valid_cpe_string("cpe:2.3:a:v:p:a*:*:*:*:*:*:*:*"), true);
    assert_eq!(is_valid_cpe_string("cpe:2.3:a:v:p:*a*:*:*:*:*:*:*:*"), true);
    assert_eq!(is_valid_cpe_string("cpe:2.3:a:v:p:**:*:*:*:*:*:*:*"), false);
    assert_eq!(is_valid_cpe_string("cpe:2.3:a:v:p:?*:*:*:*:*:*:*:*"), false);
    assert_eq!(is_valid_cpe_string("cpe:2.3:a:v:p:??a:*:*:*:*:*:*:*"), true);
    assert_eq!(is_valid_cpe_string("cpe:2.3:a:v:p:a??:*:*:*:*:*:*:*"), true);
    assert_eq!(is_valid_cpe_string("cpe:2.3:a:v:p:?a?:*:*:*:*:*:*:*"), true);
    // an escaped colon may stand alone in a field; a dash may open one
    assert_eq!(is_valid_cpe_string("cpe:2.3:a:v:p:\\::*:*:*:*:*:*:*"), true);
    assert_eq!(is_valid_cpe_string("cpe:2.3:a:v:p:-x:*:*:*:*:*:*:*"), true);
    // nothing may precede or follow the name
    assert_eq!(is_valid_cpe_string("xcpe:2.3:a:v:p:1:*:*:*:*:*:*:*"), false);
    assert_eq!(is_valid_cpe_string("cpe:2.3:a:v:p:1:*:*:*:*:*:*:* "), false);
}

#[test]
fn cve_grammar_details() {
    // four to seven digits of sequence number
    assert_eq!(is_valid_cve_string("CVE-2020-123"), false);
    assert_eq!(is_valid_cve_string("CVE-2020-1234"), true);
    assert_eq!(is_valid_cve_string("CVE-2020-1234567"), true);
    assert_eq!(is_valid_cve_string("CVE-2020-12345678"), false);
    // exactly four year digits
    assert_eq!(is_valid_cve_string("CVE-202-1234"), false);
    // leading text is tolerated, trailing text is not
    assert_eq!(is_valid_cve_string("see CVE-2020-1234"), true);
    assert_eq!(is_valid_cve_string("CVE-2020-1234 "), false);
}

#[test]
fn cpe_roundtrip_exact() {
    // the grammar recognizes, it does not normalize: re-serializing the
    // parsed structure reproduces the input, character for character
    let inputs = [
        "cpe:2.3:a:alawar:motor_town\\:_machine_soul_free:1.1:*:*:*:*:android:*:*",
        "cpe:2.3:o:linux:linux_kernel:5.4.21:*:*:*:*:*:*:*",
        "cpe:2.3:o:microsoft:windows:-:*:*:*:*:*:*:*",
        "cpe:2.3:*:v?:p:1:-:*:*:*:en-US:*:?works?",
    ];
    for input in inputs {
        let parsed = parse_cpe(input).expect("grammar should accept this name");
        assert_eq!(cpe_to_string(&parsed), input);
    }
}

#[test]
fn cpe_parse_fields() {
    let parsed = parse_cpe("cpe:2.3:o:linux:linux_kernel:5.4.21:*:*:*:*:*:*:*").unwrap();
    assert_eq!(parsed.part, "o");
    assert_eq!(parsed.fields.len(), 10);
    assert_eq!(parsed.fields[0], "linux");
    assert_eq!(parsed.fields[1], "linux_kernel");
    assert_eq!(parsed.fields[2], "5.4.21");
    assert_eq!(parsed.fields[5], "*");
    assert_eq!(parse_cpe("test123"), None);
}
