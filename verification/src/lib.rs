//! Client-side logic for a vulnerability feed: the identifier grammars
//! that gate every call, the severity normalization over two coexisting
//! scoring schemas, and the two-phase windowed pagination over a remote
//! API that only supports absolute offset and size.

pub mod client;
pub mod cpe;
pub mod cve_id;
pub mod encode;
pub mod feedtext;
pub mod json;
pub mod numstr;
pub mod ops;
pub mod records;
pub mod store;
pub mod timefmt;

pub use client::FeedError;
pub use client::NISTAPIClient;
pub use client::classify_reply;
pub use client::handle_reply;
pub use client::params_for_all;
pub use client::params_for_cve;
pub use client::params_for_modified;
pub use client::params_for_probe;
pub use client::params_for_window;
pub use client::start_index_for_window;
pub use cpe::CpeName;
pub use cpe::cpe_to_string;
pub use cpe::is_valid_cpe_string;
pub use cpe::parse_cpe;
pub use cve_id::is_valid_cve_string;
pub use feedtext::english_description;
pub use feedtext::eq_ignore_case;
pub use feedtext::gen_pdf_file_name;
pub use feedtext::nvd_link;
pub use feedtext::severity_counts;
pub use feedtext::summarize_cpe_response;
pub use numstr::u64_to_string;
pub use ops::cve_detail;
pub use ops::cvss_chart_counts;
pub use ops::list_cves;
pub use ops::new_cves;
pub use ops::pdf_report_page;
pub use ops::window_bounds;
pub use records::CPEResponse;
pub use records::CVE;
pub use records::CVEContainer;
pub use records::CVEDetail;
pub use records::CVSSMetricContainer;
pub use records::CVSSMetricV2;
pub use records::CVSSMetricV31;
pub use records::CVSSV31Data;
pub use store::History;
pub use store::Subscription;
pub use timefmt::format_timestamp;
