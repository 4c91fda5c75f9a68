//! The vulnerability data model as the remote feed reports it, and the
//! severity resolution over its two coexisting scoring schemas.

use vstd::prelude::*;

verus! {

/// One description of a vulnerability in one language.
#[allow(non_snake_case)]
#[derive(Debug, Clone, PartialEq, Eq)]
pub struct CVEDetail {
    pub lang: String,
    pub value: String,
}

/// A score entry of the older schema: the severity label stands directly
/// on the entry.
#[allow(non_snake_case)]
#[derive(Debug, Clone, PartialEq, Eq)]
pub struct CVSSMetricV2 {
    pub source: String,
    pub baseSeverity: String,
    pub t: String,
}

/// The nested score data of the newer schema.
#[allow(non_snake_case)]
#[derive(Debug, Clone, PartialEq, Eq)]
pub struct CVSSV31Data {
    pub version: String,
    pub baseSeverity: String,
}

/// A score entry of the newer schema: the severity label sits inside the
/// nested score data.
#[allow(non_snake_case)]
#[derive(Debug, Clone, PartialEq, Eq)]
pub struct CVSSMetricV31 {
    pub source: String,
    pub cvssData: CVSSV31Data,
    pub t: String,
}

/// The scoring schemas a record may carry. Either collection may be
/// absent; when both are absent no severity can be derived.
#[allow(non_snake_case)]
#[derive(Debug, Clone, PartialEq, Eq)]
pub struct CVSSMetricContainer {
    pub cvssMetricV2: Option<Vec<CVSSMetricV2>>,
    pub cvssMetricV31: Option<Vec<CVSSMetricV31>>,
}

/// One vulnerability record.
#[allow(non_snake_case)]
#[derive(Debug, Clone, PartialEq, Eq)]
pub struct CVE {
    pub id: String,
    pub sourceIdentifier: String,
    pub published: String,
    pub lastModified: String,
    pub vulnStatus: String,
    pub descriptions: Vec<CVEDetail>,
    pub metrics: CVSSMetricContainer,
}

/// The wrapper the feed puts around each record.
#[allow(non_snake_case)]
#[derive(Debug, Clone, PartialEq, Eq)]
pub struct CVEContainer {
    pub cve: CVE,
}

/// One page of the feed: the records, and the total count the remote
/// system reports for the query as a whole (not the count in this page).
#[allow(non_snake_case)]
#[derive(Debug, Clone, PartialEq, Eq)]
pub struct CPEResponse {
    pub vulnerabilities: Vec<CVEContainer>,
    pub totalResults: u64,
}

// ---------------------------------------------------------------------
// the model as spec data
// ---------------------------------------------------------------------

/// A description, as spec data.
#[allow(non_snake_case)]
pub struct CVEDetailView {
    pub lang: Seq<char>,
    pub value: Seq<char>,
}

/// An older-schema score entry, as spec data.
#[allow(non_snake_case)]
pub struct CVSSMetricV2View {
    pub source: Seq<char>,
    pub baseSeverity: Seq<char>,
    pub t: Seq<char>,
}

/// The nested score data of the newer schema, as spec data.
#[allow(non_snake_case)]
pub struct CVSSV31DataView {
    pub version: Seq<char>,
    pub baseSeverity: Seq<char>,
}

/// A newer-schema score entry, as spec data.
#[allow(non_snake_case)]
pub struct CVSSMetricV31View {
    pub source: Seq<char>,
    pub cvssData: CVSSV31DataView,
    pub t: Seq<char>,
}

/// The schema collections, as spec data.
#[allow(non_snake_case)]
pub struct CVSSMetricContainerView {
    pub cvssMetricV2: Option<Seq<CVSSMetricV2View>>,
    pub cvssMetricV31: Option<Seq<CVSSMetricV31View>>,
}

/// A record, as spec data.
#[allow(non_snake_case)]
pub struct CVEView {
    pub id: Seq<char>,
    pub sourceIdentifier: Seq<char>,
    pub published: Seq<char>,
    pub lastModified: Seq<char>,
    pub vulnStatus: Seq<char>,
    pub descriptions: Seq<CVEDetailView>,
    pub metrics: CVSSMetricContainerView,
}

/// A page, as spec data: the record views in order, and the reported
/// total.
#[allow(non_snake_case)]
pub struct CPEResponseView {
    pub vulnerabilities: Seq<CVEView>,
    pub totalResults: u64,
}

impl View for CVEDetail {
    type V = CVEDetailView;

    open spec fn view(&self) -> CVEDetailView {
        CVEDetailView { lang: self.lang@, value: self.value@ }
    }
}

impl View for CVSSMetricV2 {
    type V = CVSSMetricV2View;

    open spec fn view(&self) -> CVSSMetricV2View {
        CVSSMetricV2View { source: self.source@, baseSeverity: self.baseSeverity@, t: self.t@ }
    }
}

impl View for CVSSV31Data {
    type V = CVSSV31DataView;

    open spec fn view(&self) -> CVSSV31DataView {
        CVSSV31DataView { version: self.version@, baseSeverity: self.baseSeverity@ }
    }
}

impl View for CVSSMetricV31 {
    type V = CVSSMetricV31View;

    open spec fn view(&self) -> CVSSMetricV31View {
        CVSSMetricV31View { source: self.source@, cvssData: self.cvssData@, t: self.t@ }
    }
}

impl View for CVSSMetricContainer {
    type V = CVSSMetricContainerView;

    open spec fn view(&self) -> CVSSMetricContainerView {
        CVSSMetricContainerView {
            cvssMetricV2: match self.cvssMetricV2 {
                Some(v) => Some(v@.map_values(|m: CVSSMetricV2| m@)),
                None => None,
            },
            cvssMetricV31: match self.cvssMetricV31 {
                Some(v) => Some(v@.map_values(|m: CVSSMetricV31| m@)),
                None => None,
            },
        }
    }
}

impl View for CVE {
    type V = CVEView;

    open spec fn view(&self) -> CVEView {
        CVEView {
            id: self.id@,
            sourceIdentifier: self.sourceIdentifier@,
            published: self.published@,
            lastModified: self.lastModified@,
            vulnStatus: self.vulnStatus@,
            descriptions: self.descriptions@.map_values(|d: CVEDetail| d@),
            metrics: self.metrics@,
        }
    }
}

impl View for CPEResponse {
    type V = CPEResponseView;

    open spec fn view(&self) -> CPEResponseView {
        CPEResponseView {
            vulnerabilities: self.vulnerabilities@.map_values(|c: CVEContainer| c.cve@),
            totalResults: self.totalResults,
        }
    }
}

impl CVE {
    /// The severity label of the first entry of the newer schema, when
    /// that collection is present and has an entry.
    pub open spec fn spec_v31_severity(&self) -> Option<Seq<char>> {
        match self.metrics.cvssMetricV31 {
            Some(v) => if v@.len() > 0 {
                Some(v@[0].cvssData.baseSeverity@)
            } else {
                None
            },
            None => None,
        }
    }

    /// The severity label of the first entry of the older schema, when
    /// that collection is present and has an entry.
    pub open spec fn spec_v2_severity(&self) -> Option<Seq<char>> {
        match self.metrics.cvssMetricV2 {
            Some(v) => if v@.len() > 0 {
                Some(v@[0].baseSeverity@)
            } else {
                None
            },
            None => None,
        }
    }

    /// The severity the record resolves to: the newer schema wins when
    /// both are present, only the first entry of a collection counts,
    /// and the label keeps its original casing. `None` when neither
    /// schema offers an entry.
    pub open spec fn spec_base_severity(&self) -> Option<Seq<char>> {
        if self.spec_v31_severity() is Some {
            self.spec_v31_severity()
        } else {
            self.spec_v2_severity()
        }
    }

    /// Resolves the record's severity label, newer schema first, first
    /// entry only, label unmodified. Returns nothing when no schema
    /// collection holds an entry.
    pub fn get_base_severity(&self) -> (r: Option<&String>)
        ensures
            match r {
                Some(s) => self.spec_base_severity() == Some(s@),
                None => self.spec_base_severity() is None,
            },
    {
        if let Some(metrics) = &self.metrics.cvssMetricV31 {
            if metrics.len() > 0 {
                return Some(&metrics[0].cvssData.baseSeverity);
            }
        }
        if let Some(metrics) = &self.metrics.cvssMetricV2 {
            if metrics.len() > 0 {
                return Some(&metrics[0].baseSeverity);
            }
        }
        None
    }
}

} // verus!
