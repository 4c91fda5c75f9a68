//! Reading a feed response body into the data model.
//!
//! The JSON document is held as serde_json's value type. Its contents
//! are named by the uninterpreted view `json_view`, and the parse of a
//! body text — a function of the text alone — by `spec_parse_json`;
//! each accessor wrapper states what it returns over that view. On top
//! of the names, the shape of a conforming body is written out as spec
//! functions, and the extraction is proved to yield exactly the page
//! those functions describe: a body that misses a required member or
//! holds one of the wrong type yields no page at all — never a partial
//! record.

use vstd::prelude::*;

use crate::records::CPEResponse;
use crate::records::CPEResponseView;
use crate::records::CVE;
use crate::records::CVEContainer;
use crate::records::CVEDetail;
use crate::records::CVEDetailView;
use crate::records::CVEView;
use crate::records::CVSSMetricContainer;
use crate::records::CVSSMetricContainerView;
use crate::records::CVSSMetricV2;
use crate::records::CVSSMetricV2View;
use crate::records::CVSSMetricV31;
use crate::records::CVSSMetricV31View;
use crate::records::CVSSV31Data;
use crate::records::CVSSV31DataView;

verus! {

// ---------------------------------------------------------------------
// JSON as spec data
// ---------------------------------------------------------------------

/// A JSON document as spec data. A number keeps only what the reading
/// here can observe of it: a non-negative integer representable in 64
/// bits, or any other number.
pub enum JsonData {
    Null,
    Bool(bool),
    UInt(u64),
    OtherNum,
    Str(Seq<char>),
    Arr(Seq<JsonData>),
    Obj(Map<Seq<char>, JsonData>),
}

/// The contents of a serde_json value.
pub uninterp spec fn json_view(v: serde_json::Value) -> JsonData;

/// What serde_json's parser yields for a document text: the document's
/// contents when the text is well-formed JSON, nothing otherwise. A
/// function of the text alone.
pub uninterp spec fn spec_parse_json(body: Seq<char>) -> Option<JsonData>;

/// The member of an object under a key.
pub open spec fn spec_get(d: JsonData, key: Seq<char>) -> Option<JsonData> {
    match d {
        JsonData::Obj(o) => if o.contains_key(key) {
            Some(o[key])
        } else {
            None
        },
        _ => None,
    }
}

/// The text of a string value.
pub open spec fn spec_as_str(d: JsonData) -> Option<Seq<char>> {
    match d {
        JsonData::Str(s) => Some(s),
        _ => None,
    }
}

/// The value of a number that is a non-negative 64-bit integer.
pub open spec fn spec_as_u64(d: JsonData) -> Option<u64> {
    match d {
        JsonData::UInt(n) => Some(n),
        _ => None,
    }
}

/// The elements of an array value.
pub open spec fn spec_as_arr(d: JsonData) -> Option<Seq<JsonData>> {
    match d {
        JsonData::Arr(a) => Some(a),
        _ => None,
    }
}

// ---------------------------------------------------------------------
// the trusted accessors
// ---------------------------------------------------------------------

/// serde_json's JSON value, declared so verified code can hold and pass
/// one; `json_view` names what it holds.
#[verifier::external_type_specification]
#[verifier::external_body]
pub struct ExValue(serde_json::Value);

/// Relies on serde_json::from_str::<Value>: parses a JSON document;
/// malformed text gives nothing. The parse depends on the text alone.
#[verifier::external_body]
fn json_from_str(body: &str) -> (r: Option<serde_json::Value>)
    ensures
        match r {
            Some(v) => spec_parse_json(body@) == Some(json_view(v)),
            None => spec_parse_json(body@) is None,
        },
{
    serde_json::from_str(body).ok()
}

/// Relies on serde_json::Value::get with a string key: the member of a
/// JSON object under that key, nothing when absent or not an object.
#[verifier::external_body]
fn json_get<'a>(v: &'a serde_json::Value, key: &str) -> (r: Option<&'a serde_json::Value>)
    ensures
        match r {
            Some(m) => spec_get(json_view(*v), key@) == Some(json_view(*m)),
            None => spec_get(json_view(*v), key@) is None,
        },
{
    v.get(key)
}

/// Relies on serde_json::Value::as_str: the text of a JSON string,
/// nothing for any other kind of value.
#[verifier::external_body]
fn json_as_str(v: &serde_json::Value) -> (r: Option<&str>)
    ensures
        match r {
            Some(s) => spec_as_str(json_view(*v)) == Some(s@),
            None => spec_as_str(json_view(*v)) is None,
        },
{
    v.as_str()
}

/// Relies on serde_json::Value::as_u64: the value of a JSON number that
/// is an integer representable in a u64, nothing otherwise.
#[verifier::external_body]
fn json_as_u64(v: &serde_json::Value) -> (r: Option<u64>)
    ensures
        match r {
            Some(n) => spec_as_u64(json_view(*v)) == Some(n),
            None => spec_as_u64(json_view(*v)) is None,
        },
{
    v.as_u64()
}

/// Relies on serde_json::Value::as_array: the elements of a JSON array,
/// nothing for any other kind of value.
#[verifier::external_body]
fn json_as_array<'a>(v: &'a serde_json::Value) -> (r: Option<&'a Vec<serde_json::Value>>)
    ensures
        match r {
            Some(a) => spec_as_arr(json_view(*v)) == Some(
                a@.map_values(|x: serde_json::Value| json_view(x)),
            ),
            None => spec_as_arr(json_view(*v)) is None,
        },
{
    v.as_array()
}

/// Relies on serde_json::Value::is_null: whether the value is JSON null.
#[verifier::external_body]
fn json_is_null(v: &serde_json::Value) -> (r: bool)
    ensures
        r == (json_view(*v) is Null),
{
    v.is_null()
}

// ---------------------------------------------------------------------
// the shape of a conforming body, as spec functions
// ---------------------------------------------------------------------

/// The string member of an object under `key`.
pub open spec fn spec_string_member(d: JsonData, key: Seq<char>) -> Option<Seq<char>> {
    match spec_get(d, key) {
        Some(m) => spec_as_str(m),
        None => None,
    }
}

/// A description: `lang` and `value`, both strings.
pub open spec fn spec_detail_of(d: JsonData) -> Option<CVEDetailView> {
    match (spec_string_member(d, ("lang")@), spec_string_member(d, ("value")@)) {
        (Some(lang), Some(value)) => Some(CVEDetailView { lang, value }),
        _ => None,
    }
}

/// An older-schema entry: `source`, `baseSeverity` and `type`, strings.
pub open spec fn spec_metric_v2_of(d: JsonData) -> Option<CVSSMetricV2View> {
    match (
        spec_string_member(d, ("source")@),
        spec_string_member(d, ("baseSeverity")@),
        spec_string_member(d, ("type")@),
    ) {
        (Some(source), Some(base), Some(t)) => Some(
            CVSSMetricV2View { source, baseSeverity: base, t },
        ),
        _ => None,
    }
}

/// A newer-schema entry: `source` and `type` strings, and a `cvssData`
/// member holding `version` and `baseSeverity` strings.
pub open spec fn spec_metric_v31_of(d: JsonData) -> Option<CVSSMetricV31View> {
    match (
        spec_string_member(d, ("source")@),
        spec_string_member(d, ("type")@),
        spec_get(d, ("cvssData")@),
    ) {
        (Some(source), Some(t), Some(data)) => match (
            spec_string_member(data, ("version")@),
            spec_string_member(data, ("baseSeverity")@),
        ) {
            (Some(version), Some(base)) => Some(
                CVSSMetricV31View {
                    source,
                    cvssData: CVSSV31DataView { version, baseSeverity: base },
                    t,
                },
            ),
            _ => None,
        },
        _ => None,
    }
}

/// Every element an older-schema entry, all of them or nothing.
pub open spec fn spec_v2_items(elems: Seq<JsonData>) -> Option<Seq<CVSSMetricV2View>>
    decreases elems.len(),
{
    if elems.len() == 0 {
        Some(Seq::empty())
    } else {
        match (spec_v2_items(elems.drop_last()), spec_metric_v2_of(elems.last())) {
            (Some(pre), Some(m)) => Some(pre.push(m)),
            _ => None,
        }
    }
}

/// Every element a newer-schema entry, all of them or nothing.
pub open spec fn spec_v31_items(elems: Seq<JsonData>) -> Option<Seq<CVSSMetricV31View>>
    decreases elems.len(),
{
    if elems.len() == 0 {
        Some(Seq::empty())
    } else {
        match (spec_v31_items(elems.drop_last()), spec_metric_v31_of(elems.last())) {
            (Some(pre), Some(m)) => Some(pre.push(m)),
            _ => None,
        }
    }
}

/// Every element a description, all of them or nothing.
pub open spec fn spec_detail_items(elems: Seq<JsonData>) -> Option<Seq<CVEDetailView>>
    decreases elems.len(),
{
    if elems.len() == 0 {
        Some(Seq::empty())
    } else {
        match (spec_detail_items(elems.drop_last()), spec_detail_of(elems.last())) {
            (Some(pre), Some(m)) => Some(pre.push(m)),
            _ => None,
        }
    }
}

/// An array of older-schema entries.
pub open spec fn spec_v2_list_of(d: JsonData) -> Option<Seq<CVSSMetricV2View>> {
    match spec_as_arr(d) {
        Some(elems) => spec_v2_items(elems),
        None => None,
    }
}

/// An array of newer-schema entries.
pub open spec fn spec_v31_list_of(d: JsonData) -> Option<Seq<CVSSMetricV31View>> {
    match spec_as_arr(d) {
        Some(elems) => spec_v31_items(elems),
        None => None,
    }
}

/// The `metrics` member: either schema collection may be absent or
/// null; one that is present must be a conforming array.
pub open spec fn spec_metrics_of(d: JsonData) -> Option<CVSSMetricContainerView> {
    let v2 = match spec_get(d, ("cvssMetricV2")@) {
        None => Some(None),
        Some(x) => if x is Null {
            Some(None)
        } else {
            match spec_v2_list_of(x) {
                Some(l) => Some(Some(l)),
                None => None,
            }
        },
    };
    let v31 = match spec_get(d, ("cvssMetricV31")@) {
        None => Some(None),
        Some(x) => if x is Null {
            Some(None)
        } else {
            match spec_v31_list_of(x) {
                Some(l) => Some(Some(l)),
                None => None,
            }
        },
    };
    match (v2, v31) {
        (Some(m2), Some(m31)) => Some(
            CVSSMetricContainerView { cvssMetricV2: m2, cvssMetricV31: m31 },
        ),
        _ => None,
    }
}

/// One record: the five required strings, a `descriptions` array of
/// descriptions, and a `metrics` member.
pub open spec fn spec_record_of(d: JsonData) -> Option<CVEView> {
    match (
        spec_string_member(d, ("id")@),
        spec_string_member(d, ("sourceIdentifier")@),
        spec_string_member(d, ("published")@),
        spec_string_member(d, ("lastModified")@),
        spec_string_member(d, ("vulnStatus")@),
    ) {
        (Some(id), Some(si), Some(pb), Some(lm), Some(vs)) => match spec_get(
            d,
            ("descriptions")@,
        ) {
            Some(ds) => match spec_as_arr(ds) {
                Some(items) => match spec_detail_items(items) {
                    Some(descriptions) => match spec_get(d, ("metrics")@) {
                        Some(m) => match spec_metrics_of(m) {
                            Some(metrics) => Some(
                                CVEView {
                                    id,
                                    sourceIdentifier: si,
                                    published: pb,
                                    lastModified: lm,
                                    vulnStatus: vs,
                                    descriptions,
                                    metrics,
                                },
                            ),
                            None => None,
                        },
                        None => None,
                    },
                    None => None,
                },
                None => None,
            },
            None => None,
        },
        _ => None,
    }
}

/// One element of the `vulnerabilities` array: a record under `cve`.
pub open spec fn spec_wrapped_record_of(d: JsonData) -> Option<CVEView> {
    match spec_get(d, ("cve")@) {
        Some(c) => spec_record_of(c),
        None => None,
    }
}

/// Every element a wrapped record, all of them or nothing.
pub open spec fn spec_vuln_items(elems: Seq<JsonData>) -> Option<Seq<CVEView>>
    decreases elems.len(),
{
    if elems.len() == 0 {
        Some(Seq::empty())
    } else {
        match (spec_vuln_items(elems.drop_last()), spec_wrapped_record_of(elems.last())) {
            (Some(pre), Some(m)) => Some(pre.push(m)),
            _ => None,
        }
    }
}

/// A whole page: an integral `totalResults` and a `vulnerabilities`
/// array of wrapped records.
pub open spec fn spec_page_of(d: JsonData) -> Option<CPEResponseView> {
    match spec_get(d, ("totalResults")@) {
        Some(t) => match spec_as_u64(t) {
            Some(total) => match spec_get(d, ("vulnerabilities")@) {
                Some(vs) => match spec_as_arr(vs) {
                    Some(items) => match spec_vuln_items(items) {
                        Some(records) => Some(
                            CPEResponseView { vulnerabilities: records, totalResults: total },
                        ),
                        None => None,
                    },
                    None => None,
                },
                None => None,
            },
            None => None,
        },
        None => None,
    }
}

/// What a response body must yield: well-formed JSON of the page shape,
/// or nothing.
pub open spec fn spec_feed_page(body: Seq<char>) -> Option<CPEResponseView> {
    match spec_parse_json(body) {
        Some(doc) => spec_page_of(doc),
        None => None,
    }
}

// ---------------------------------------------------------------------
// failing prefixes fail the whole list
// ---------------------------------------------------------------------

proof fn lemma_v2_items_none(elems: Seq<JsonData>, i: int)
    requires
        0 <= i <= elems.len(),
        spec_v2_items(elems.take(i)) is None,
    ensures
        spec_v2_items(elems) is None,
    decreases elems.len() - i,
{
    if i < elems.len() {
        assert(elems.take(i + 1).drop_last() =~= elems.take(i));
        lemma_v2_items_none(elems, i + 1);
    } else {
        assert(elems.take(i) =~= elems);
    }
}

proof fn lemma_v31_items_none(elems: Seq<JsonData>, i: int)
    requires
        0 <= i <= elems.len(),
        spec_v31_items(elems.take(i)) is None,
    ensures
        spec_v31_items(elems) is None,
    decreases elems.len() - i,
{
    if i < elems.len() {
        assert(elems.take(i + 1).drop_last() =~= elems.take(i));
        lemma_v31_items_none(elems, i + 1);
    } else {
        assert(elems.take(i) =~= elems);
    }
}

proof fn lemma_detail_items_none(elems: Seq<JsonData>, i: int)
    requires
        0 <= i <= elems.len(),
        spec_detail_items(elems.take(i)) is None,
    ensures
        spec_detail_items(elems) is None,
    decreases elems.len() - i,
{
    if i < elems.len() {
        assert(elems.take(i + 1).drop_last() =~= elems.take(i));
        lemma_detail_items_none(elems, i + 1);
    } else {
        assert(elems.take(i) =~= elems);
    }
}

proof fn lemma_vuln_items_none(elems: Seq<JsonData>, i: int)
    requires
        0 <= i <= elems.len(),
        spec_vuln_items(elems.take(i)) is None,
    ensures
        spec_vuln_items(elems) is None,
    decreases elems.len() - i,
{
    if i < elems.len() {
        assert(elems.take(i + 1).drop_last() =~= elems.take(i));
        lemma_vuln_items_none(elems, i + 1);
    } else {
        assert(elems.take(i) =~= elems);
    }
}

// ---------------------------------------------------------------------
// the verified extraction
// ---------------------------------------------------------------------

/// The string member of an object under `key`, owned.
fn get_string(v: &serde_json::Value, key: &str) -> (r: Option<String>)
    ensures
        match r {
            Some(s) => spec_string_member(json_view(*v), key@) == Some(s@),
            None => spec_string_member(json_view(*v), key@) is None,
        },
{
    match json_get(v, key) {
        Some(f) => match json_as_str(f) {
            Some(s) => Some(s.to_owned()),
            None => None,
        },
        None => None,
    }
}

fn parse_detail(v: &serde_json::Value) -> (r: Option<CVEDetail>)
    ensures
        match r {
            Some(d) => spec_detail_of(json_view(*v)) == Some(d@),
            None => spec_detail_of(json_view(*v)) is None,
        },
{
    let lang = match get_string(v, "lang") {
        Some(s) => s,
        None => return None,
    };
    let value = match get_string(v, "value") {
        Some(s) => s,
        None => return None,
    };
    Some(CVEDetail { lang, value })
}

fn parse_metric_v2(v: &serde_json::Value) -> (r: Option<CVSSMetricV2>)
    ensures
        match r {
            Some(m) => spec_metric_v2_of(json_view(*v)) == Some(m@),
            None => spec_metric_v2_of(json_view(*v)) is None,
        },
{
    let source = match get_string(v, "source") {
        Some(s) => s,
        None => return None,
    };
    let base_severity = match get_string(v, "baseSeverity") {
        Some(s) => s,
        None => return None,
    };
    let t = match get_string(v, "type") {
        Some(s) => s,
        None => return None,
    };
    Some(CVSSMetricV2 { source, baseSeverity: base_severity, t })
}

fn parse_metric_v31(v: &serde_json::Value) -> (r: Option<CVSSMetricV31>)
    ensures
        match r {
            Some(m) => spec_metric_v31_of(json_view(*v)) == Some(m@),
            None => spec_metric_v31_of(json_view(*v)) is None,
        },
{
    let source = match get_string(v, "source") {
        Some(s) => s,
        None => return None,
    };
    let t = match get_string(v, "type") {
        Some(s) => s,
        None => return None,
    };
    let data = match json_get(v, "cvssData") {
        Some(d) => d,
        None => return None,
    };
    let version = match get_string(data, "version") {
        Some(s) => s,
        None => return None,
    };
    let base_severity = match get_string(data, "baseSeverity") {
        Some(s) => s,
        None => return None,
    };
    Some(CVSSMetricV31 { source, cvssData: CVSSV31Data { version, baseSeverity: base_severity }, t })
}

fn parse_metrics_v2_list(v: &serde_json::Value) -> (r: Option<Vec<CVSSMetricV2>>)
    ensures
        match r {
            Some(l) => spec_v2_list_of(json_view(*v)) == Some(
                l@.map_values(|m: CVSSMetricV2| m@),
            ),
            None => spec_v2_list_of(json_view(*v)) is None,
        },
{
    let items = match json_as_array(v) {
        Some(a) => a,
        None => return None,
    };
    let ghost elems = items@.map_values(|x: serde_json::Value| json_view(x));
    proof {
        assert(spec_v2_items(elems) is None ==> spec_v2_list_of(json_view(*v)) is None);
    }
    let mut out: Vec<CVSSMetricV2> = Vec::new();
    let mut i: usize = 0;
    while i < items.len()
        invariant
            0 <= i <= items@.len(),
            elems == items@.map_values(|x: serde_json::Value| json_view(x)),
            elems.len() == items@.len(),
            spec_v2_items(elems) is None ==> spec_v2_list_of(json_view(*v)) is None,
            spec_v2_items(elems.take(i as int)) == Some(out@.map_values(|m: CVSSMetricV2| m@)),
        decreases items@.len() - i,
    {
        proof {
            assert(elems.take(i + 1).drop_last() =~= elems.take(i as int));
            assert(elems.take(i + 1).last() == elems[i as int]);
        }
        match parse_metric_v2(&items[i]) {
            Some(m) => {
                out.push(m);
                proof {
                    assert(out@.map_values(|m: CVSSMetricV2| m@) =~= out@.map_values(
                        |m: CVSSMetricV2| m@,
                    ).drop_last().push(out@.last()@));
                    assert(spec_v2_items(elems.take(i + 1)) == Some(out@.map_values(
                        |m: CVSSMetricV2| m@,
                    )));
                }
            },
            None => {
                proof {
                    lemma_v2_items_none(elems, i + 1);
                }
                return None;
            },
        }
        i = i + 1;
    }
    proof {
        assert(elems.take(elems.len() as int) =~= elems);
    }
    Some(out)
}

fn parse_metrics_v31_list(v: &serde_json::Value) -> (r: Option<Vec<CVSSMetricV31>>)
    ensures
        match r {
            Some(l) => spec_v31_list_of(json_view(*v)) == Some(
                l@.map_values(|m: CVSSMetricV31| m@),
            ),
            None => spec_v31_list_of(json_view(*v)) is None,
        },
{
    let items = match json_as_array(v) {
        Some(a) => a,
        None => return None,
    };
    let ghost elems = items@.map_values(|x: serde_json::Value| json_view(x));
    proof {
        assert(spec_v31_items(elems) is None ==> spec_v31_list_of(json_view(*v)) is None);
    }
    let mut out: Vec<CVSSMetricV31> = Vec::new();
    let mut i: usize = 0;
    while i < items.len()
        invariant
            0 <= i <= items@.len(),
            elems == items@.map_values(|x: serde_json::Value| json_view(x)),
            elems.len() == items@.len(),
            spec_v31_items(elems) is None ==> spec_v31_list_of(json_view(*v)) is None,
            spec_v31_items(elems.take(i as int)) == Some(out@.map_values(|m: CVSSMetricV31| m@)),
        decreases items@.len() - i,
    {
        proof {
            assert(elems.take(i + 1).drop_last() =~= elems.take(i as int));
            assert(elems.take(i + 1).last() == elems[i as int]);
        }
        match parse_metric_v31(&items[i]) {
            Some(m) => {
                out.push(m);
                proof {
                    assert(spec_v31_items(elems.take(i + 1)) == Some(out@.map_values(
                        |m: CVSSMetricV31| m@,
                    )));
                }
            },
            None => {
                proof {
                    lemma_v31_items_none(elems, i + 1);
                }
                return None;
            },
        }
        i = i + 1;
    }
    proof {
        assert(elems.take(elems.len() as int) =~= elems);
    }
    Some(out)
}

fn parse_metrics(v: &serde_json::Value) -> (r: Option<CVSSMetricContainer>)
    ensures
        match r {
            Some(c) => spec_metrics_of(json_view(*v)) == Some(c@),
            None => spec_metrics_of(json_view(*v)) is None,
        },
{
    let v2 = match json_get(v, "cvssMetricV2") {
        None => None,
        Some(x) => if json_is_null(x) {
            None
        } else {
            match parse_metrics_v2_list(x) {
                Some(l) => Some(l),
                None => return None,
            }
        },
    };
    let v31 = match json_get(v, "cvssMetricV31") {
        None => None,
        Some(x) => if json_is_null(x) {
            None
        } else {
            match parse_metrics_v31_list(x) {
                Some(l) => Some(l),
                None => return None,
            }
        },
    };
    Some(CVSSMetricContainer { cvssMetricV2: v2, cvssMetricV31: v31 })
}

fn parse_record(v: &serde_json::Value) -> (r: Option<CVE>)
    ensures
        match r {
            Some(c) => spec_record_of(json_view(*v)) == Some(c@),
            None => spec_record_of(json_view(*v)) is None,
        },
{
    let id = match get_string(v, "id") {
        Some(s) => s,
        None => return None,
    };
    let source_identifier = match get_string(v, "sourceIdentifier") {
        Some(s) => s,
        None => return None,
    };
    let published = match get_string(v, "published") {
        Some(s) => s,
        None => return None,
    };
    let last_modified = match get_string(v, "lastModified") {
        Some(s) => s,
        None => return None,
    };
    let vuln_status = match get_string(v, "vulnStatus") {
        Some(s) => s,
        None => return None,
    };
    let descs = match json_get(v, "descriptions") {
        Some(d) => d,
        None => return None,
    };
    let desc_items = match json_as_array(descs) {
        Some(a) => a,
        None => return None,
    };
    let ghost delems = desc_items@.map_values(|x: serde_json::Value| json_view(x));
    proof {
        assert(spec_detail_items(delems) is None ==> spec_record_of(json_view(*v)) is None);
    }
    let mut descriptions: Vec<CVEDetail> = Vec::new();
    let mut i: usize = 0;
    while i < desc_items.len()
        invariant
            0 <= i <= desc_items@.len(),
            delems == desc_items@.map_values(|x: serde_json::Value| json_view(x)),
            delems.len() == desc_items@.len(),
            spec_detail_items(delems) is None ==> spec_record_of(json_view(*v)) is None,
            spec_detail_items(delems.take(i as int)) == Some(descriptions@.map_values(
                |d: CVEDetail| d@,
            )),
        decreases desc_items@.len() - i,
    {
        proof {
            assert(delems.take(i + 1).drop_last() =~= delems.take(i as int));
            assert(delems.take(i + 1).last() == delems[i as int]);
        }
        match parse_detail(&desc_items[i]) {
            Some(d) => {
                descriptions.push(d);
                proof {
                    assert(spec_detail_items(delems.take(i + 1)) == Some(
                        descriptions@.map_values(|d: CVEDetail| d@),
                    ));
                }
            },
            None => {
                proof {
                    lemma_detail_items_none(delems, i + 1);
                }
                return None;
            },
        }
        i = i + 1;
    }
    proof {
        assert(delems.take(delems.len() as int) =~= delems);
    }
    let metrics_value = match json_get(v, "metrics") {
        Some(m) => m,
        None => return None,
    };
    let metrics = match parse_metrics(metrics_value) {
        Some(m) => m,
        None => return None,
    };
    Some(
        CVE {
            id,
            sourceIdentifier: source_identifier,
            published,
            lastModified: last_modified,
            vulnStatus: vuln_status,
            descriptions,
            metrics,
        },
    )
}

/// Turns a response body into a feed page: exactly the page that
/// `spec_feed_page` assigns to the body text, and nothing when the body
/// does not conform. Any missing or ill-typed member drops the whole
/// body; no partial record is ever returned.
pub(crate) fn parse_feed_page(body: &str) -> (r: Option<CPEResponse>)
    ensures
        match r {
            Some(page) => spec_feed_page(body@) == Some(page@),
            None => spec_feed_page(body@) is None,
        },
{
    let doc = match json_from_str(body) {
        Some(d) => d,
        None => return None,
    };
    let total = match json_get(&doc, "totalResults") {
        Some(t) => match json_as_u64(t) {
            Some(n) => n,
            None => return None,
        },
        None => return None,
    };
    let vulns_value = match json_get(&doc, "vulnerabilities") {
        Some(x) => x,
        None => return None,
    };
    let items = match json_as_array(vulns_value) {
        Some(a) => a,
        None => return None,
    };
    let ghost elems = items@.map_values(|x: serde_json::Value| json_view(x));
    proof {
        assert(spec_vuln_items(elems) is None ==> spec_feed_page(body@) is None);
    }
    let mut vulnerabilities: Vec<CVEContainer> = Vec::new();
    let mut i: usize = 0;
    while i < items.len()
        invariant
            0 <= i <= items@.len(),
            elems == items@.map_values(|x: serde_json::Value| json_view(x)),
            elems.len() == items@.len(),
            spec_vuln_items(elems) is None ==> spec_feed_page(body@) is None,
            spec_vuln_items(elems.take(i as int)) == Some(vulnerabilities@.map_values(
                |c: CVEContainer| c.cve@,
            )),
        decreases items@.len() - i,
    {
        proof {
            assert(elems.take(i + 1).drop_last() =~= elems.take(i as int));
            assert(elems.take(i + 1).last() == elems[i as int]);
        }
        let wrapped = match json_get(&items[i], "cve") {
            Some(c) => c,
            None => {
                proof {
                    lemma_vuln_items_none(elems, i + 1);
                }
                return None;
            },
        };
        match parse_record(wrapped) {
            Some(cve) => {
                vulnerabilities.push(CVEContainer { cve });
                proof {
                    assert(spec_vuln_items(elems.take(i + 1)) == Some(
                        vulnerabilities@.map_values(|c: CVEContainer| c.cve@),
                    ));
                }
            },
            None => {
                proof {
                    lemma_vuln_items_none(elems, i + 1);
                }
                return None;
            },
        }
        i = i + 1;
    }
    proof {
        assert(elems.take(elems.len() as int) =~= elems);
    }
    Some(CPEResponse { vulnerabilities, totalResults: total })
}

} // verus!
