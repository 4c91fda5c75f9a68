//! Text summaries and aggregations over feed pages, for the front ends
//! that render them.

use vstd::prelude::*;
use vstd::string::*;

use crate::numstr::spec_dec;
use crate::numstr::append_dec;
use crate::records::CPEResponse;
use crate::records::CVE;
use crate::records::CVEContainer;
use crate::records::CVEDetail;

verus! {

// ---------------------------------------------------------------------
// case-insensitive matching of severity labels
// ---------------------------------------------------------------------

/// `a` is `b` or its upper-case ASCII form; `b` is a lower-case letter
/// or any non-letter.
pub open spec fn lower_eq_char(a: char, b: char) -> bool {
    a == b || ('A' as u32 <= a as u32 && a as u32 <= 'Z' as u32 && a as u32 + 32 == b as u32)
}

/// `a` equals the lower-case word `b` when ASCII case is ignored.
pub open spec fn matches_lowercase(a: Seq<char>, b: Seq<char>) -> bool {
    a.len() == b.len() && (forall|i: int| 0 <= i < a.len() ==> lower_eq_char(#[trigger] a[i], b[i]))
}

/// Compares a label against a lower-case word, ignoring the ASCII case
/// of the label.
pub fn eq_ignore_case(label: &str, lower: &str) -> (r: bool)
    ensures
        r == matches_lowercase(label@, lower@),
{
    let n = label.unicode_len();
    if n != lower.unicode_len() {
        return false;
    }
    let mut i: usize = 0;
    while i < n
        invariant
            0 <= i <= n,
            n == label@.len(),
            n == lower@.len(),
            forall|j: int| 0 <= j < i ==> lower_eq_char(#[trigger] label@[j], lower@[j]),
        decreases n - i,
    {
        let a = label.get_char(i);
        let b = lower.get_char(i);
        let au = a as u32;
        let bu = b as u32;
        if !(au == bu || (65 <= au && au <= 90 && au + 32 == bu)) {
            return false;
        }
        i = i + 1;
    }
    true
}

// ---------------------------------------------------------------------
// severity histogram
// ---------------------------------------------------------------------

/// How many of the records resolve to a severity that matches the
/// lower-case word `lower`, ignoring case.
pub open spec fn spec_count_severity(rs: Seq<CVEContainer>, lower: Seq<char>) -> nat
    decreases rs.len(),
{
    if rs.len() == 0 {
        0
    } else {
        spec_count_severity(rs.drop_last(), lower) + match rs.last().cve.spec_base_severity() {
            Some(l) => if matches_lowercase(l, lower) {
                1nat
            } else {
                0nat
            },
            None => 0nat,
        }
    }
}

/// The count never exceeds the number of records.
proof fn lemma_count_severity_bound(rs: Seq<CVEContainer>, lower: Seq<char>)
    ensures
        spec_count_severity(rs, lower) <= rs.len(),
    decreases rs.len(),
{
    if rs.len() > 0 {
        lemma_count_severity_bound(rs.drop_last(), lower);
    }
}

/// Counts how many records of the page resolve to each of the four
/// severity buckets, compared case-insensitively; records with no
/// derivable severity, or with a label outside the four, count nowhere.
/// The order is low, medium, high, critical.
pub fn severity_counts(response: &CPEResponse) -> (r: (u64, u64, u64, u64))
    ensures
        r.0 == spec_count_severity(response.vulnerabilities@, ("low")@),
        r.1 == spec_count_severity(response.vulnerabilities@, ("medium")@),
        r.2 == spec_count_severity(response.vulnerabilities@, ("high")@),
        r.3 == spec_count_severity(response.vulnerabilities@, ("critical")@),
{
    let rs = &response.vulnerabilities;
    let ghost rv = response.vulnerabilities@;
    let mut low: u64 = 0;
    let mut medium: u64 = 0;
    let mut high: u64 = 0;
    let mut critical: u64 = 0;
    let mut i: usize = 0;
    while i < rs.len()
        invariant
            0 <= i <= rv.len(),
            rv == response.vulnerabilities@,
            rs@ == rv,
            low == spec_count_severity(rv.take(i as int), ("low")@),
            medium == spec_count_severity(rv.take(i as int), ("medium")@),
            high == spec_count_severity(rv.take(i as int), ("high")@),
            critical == spec_count_severity(rv.take(i as int), ("critical")@),
        decreases rv.len() - i,
    {
        proof {
            reveal_strlit("low");
            reveal_strlit("medium");
            reveal_strlit("high");
            reveal_strlit("critical");
            lemma_count_severity_bound(rv.take(i as int), ("low")@);
            lemma_count_severity_bound(rv.take(i as int), ("medium")@);
            lemma_count_severity_bound(rv.take(i as int), ("high")@);
            lemma_count_severity_bound(rv.take(i as int), ("critical")@);
            assert(rv.take(i + 1).drop_last() =~= rv.take(i as int));
            assert(rv.take(i + 1).last() == rv[i as int]);
        }
        match rs[i].cve.get_base_severity() {
            Some(severity) => {
                if eq_ignore_case(severity.as_str(), "low") {
                    low = low + 1;
                } else if eq_ignore_case(severity.as_str(), "medium") {
                    medium = medium + 1;
                } else if eq_ignore_case(severity.as_str(), "high") {
                    high = high + 1;
                } else if eq_ignore_case(severity.as_str(), "critical") {
                    critical = critical + 1;
                }
            },
            None => {},
        }
        i = i + 1;
    }
    proof {
        assert(rv.take(rv.len() as int) =~= rv);
    }
    (low, medium, high, critical)
}

// ---------------------------------------------------------------------
// text summaries
// ---------------------------------------------------------------------

/// The summary line of one record: its identifier, the resolved severity
/// with its casing kept, and the score column. The feed's entries carry
/// no numeric score, so that column always shows the unavailable mark;
/// a record that resolves to no severity says so explicitly instead.
pub open spec fn spec_summary_line(cve: CVE) -> Seq<char> {
    match cve.spec_base_severity() {
        Some(sev) => cve.id@ + (" - ")@ + sev + (" - _\n")@,
        None => cve.id@ + (" - NO METRIC AVAILABLE\n")@,
    }
}

/// The summary of a run of records: their lines in order.
pub open spec fn spec_summary(rs: Seq<CVEContainer>) -> Seq<char>
    decreases rs.len(),
{
    if rs.len() == 0 {
        Seq::empty()
    } else {
        spec_summary(rs.drop_last()) + spec_summary_line(rs.last().cve)
    }
}

/// Renders one line per record of the page: identifier, resolved
/// severity and score column, or an explicit mark that no metric is
/// available.
pub fn summarize_cpe_response(response: &CPEResponse) -> (r: String)
    ensures
        r@ == spec_summary(response.vulnerabilities@),
{
    let rs = &response.vulnerabilities;
    let ghost rv = response.vulnerabilities@;
    let mut msg = String::new();
    let mut i: usize = 0;
    while i < rs.len()
        invariant
            0 <= i <= rv.len(),
            rs@ == rv,
            msg@ == spec_summary(rv.take(i as int)),
        decreases rv.len() - i,
    {
        proof {
            assert(rv.take(i + 1).drop_last() =~= rv.take(i as int));
            assert(rv.take(i + 1).last() == rv[i as int]);
        }
        msg.append(rs[i].cve.id.as_str());
        match rs[i].cve.get_base_severity() {
            Some(severity) => {
                msg.append(" - ");
                msg.append(severity.as_str());
                msg.append(" - _\n");
            },
            None => {
                msg.append(" - NO METRIC AVAILABLE\n");
            },
        }
        proof {
            assert(msg@ =~= spec_summary(rv.take(i + 1)));
        }
        i = i + 1;
    }
    proof {
        assert(rv.take(rv.len() as int) =~= rv);
    }
    msg
}

/// The first description given in English, scanning in order.
pub open spec fn spec_first_english(ds: Seq<CVEDetail>) -> Option<Seq<char>>
    decreases ds.len(),
{
    if ds.len() == 0 {
        None
    } else if ds[0].lang@ == ("en")@ {
        Some(ds[0].value@)
    } else {
        spec_first_english(ds.skip(1))
    }
}

/// The text of the record's first English description, when it has one.
pub fn english_description(cve: &CVE) -> (r: Option<&String>)
    ensures
        match r {
            Some(v) => spec_first_english(cve.descriptions@) == Some(v@),
            None => spec_first_english(cve.descriptions@) is None,
        },
{
    let ds = &cve.descriptions;
    let ghost dv = cve.descriptions@;
    let lit_en: String = "en".to_owned();
    let mut i: usize = 0;
    proof {
        assert(dv.skip(0) =~= dv);
    }
    while i < ds.len()
        invariant
            0 <= i <= dv.len(),
            ds@ == dv,
            dv == cve.descriptions@,
            lit_en@ == ("en")@,
            spec_first_english(dv) == spec_first_english(dv.skip(i as int)),
        decreases dv.len() - i,
    {
        proof {
            assert(dv.skip(i as int)[0] == dv[i as int]);
            assert(dv.skip(i as int).skip(1) =~= dv.skip(i as int + 1));
        }
        if ds[i].lang == lit_en {
            proof {
                assert(spec_first_english(dv.skip(i as int)) == Some(dv[i as int].value@));
            }
            return Some(&ds[i].value);
        }
        i = i + 1;
    }
    proof {
        assert(dv.skip(dv.len() as int) =~= Seq::<CVEDetail>::empty());
    }
    None
}

/// The public reference page of a record.
pub fn nvd_link(cve_id: &str) -> (r: String)
    ensures
        r@ == ("https://nvd.nist.gov/vuln/detail/")@ + cve_id@,
{
    let mut out: String = "https://nvd.nist.gov/vuln/detail/".to_owned();
    out.append(cve_id);
    out
}

/// The file name a report for request `id` is stored under.
pub fn gen_pdf_file_name(id: u64) -> (r: String)
    ensures
        r@ == spec_dec(id as nat) + (".pdf")@,
{
    let mut out = String::new();
    append_dec(&mut out, id);
    out.append(".pdf");
    proof {
        assert(out@ =~= spec_dec(id as nat) + (".pdf")@);
    }
    out
}

} // verus!
