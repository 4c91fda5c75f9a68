//! The operations the front ends call: each validates nothing itself —
//! identifiers are checked by the caller before any network call — and
//! each composes the feed client with the pure logic around it.

use vstd::prelude::*;

use crate::client::FeedError;
use crate::client::NISTAPIClient;
use crate::client::is_remote_error;
use crate::cpe::is_valid_cpe_string;
use crate::cpe::spec_valid_cpe;
use crate::cve_id::spec_valid_cve;
use crate::feedtext::severity_counts;
use crate::records::CPEResponse;
use crate::store::Subscription;
use crate::timefmt::MAX_FORMATTABLE_EPOCH;

verus! {

/// The modification window ending now: `Ok((now - days, now))` in epoch
/// seconds exactly when both ends lie in the formattable date range,
/// and the date-arithmetic failure when the start would leave it.
pub open spec fn spec_window_bounds(now: i64, days: u64) -> Result<(i64, i64), FeedError> {
    if now <= MAX_FORMATTABLE_EPOCH && now - days * 86400 >= 0 {
        Ok(((now - days * 86400) as i64, now))
    } else {
        Err(FeedError::DateArithmeticFailure)
    }
}

/// Computes the window of the last `days` days before `now`, failing
/// exactly when an end would leave the representable date range.
pub fn window_bounds(now: i64, days: u64) -> (r: Result<(i64, i64), FeedError>)
    ensures
        r == spec_window_bounds(now, days),
        r matches Ok(w) ==> 0 <= w.0 <= w.1 <= MAX_FORMATTABLE_EPOCH,
{
    if now > MAX_FORMATTABLE_EPOCH {
        return Err(FeedError::DateArithmeticFailure);
    }
    if days > 106751991167u64 {
        // days * 86400 would exceed any epoch second; the start underflows
        proof {
            assert(days * 86400 > MAX_FORMATTABLE_EPOCH) by (nonlinear_arith)
                requires
                    days > 106751991167u64,
            ;
        }
        return Err(FeedError::DateArithmeticFailure);
    }
    let span: i64 = (days as i64) * 86400;
    proof {
        assert(days * 86400 <= 106751991167 * 86400) by (nonlinear_arith)
            requires
                days <= 106751991167u64,
        ;
    }
    if now < span {
        return Err(FeedError::DateArithmeticFailure);
    }
    Ok((now - span, now))
}

/// Up to ten records of the 1-indexed `page`, newest first page, for a
/// pre-validated platform identifier.
pub fn list_cves(cpe: &str, page: u64) -> (r: Result<CPEResponse, FeedError>)
    requires
        spec_valid_cpe(cpe@),
    ensures
        r matches Err(e) ==> is_remote_error(e),
{
    let client = NISTAPIClient::new();
    client.get_cves_from_cpe(cpe, Some(10), Some(page))
}

/// The page for one pre-validated record identifier.
pub fn cve_detail(cve: &str) -> (r: Result<CPEResponse, FeedError>)
    requires
        spec_valid_cve(cve@),
    ensures
        r matches Err(e) ==> is_remote_error(e),
{
    let client = NISTAPIClient::new();
    client.get_cve_info(cve)
}

/// Every record for a platform, bucketed by resolved severity: the
/// counts for low, medium, high and critical, compared without regard
/// to case. The drawing of the chart itself is the front end's.
pub fn cvss_chart_counts(cpe: &str) -> (r: Result<(u64, u64, u64, u64), FeedError>)
    requires
        spec_valid_cpe(cpe@),
    ensures
        r matches Err(e) ==> is_remote_error(e),
{
    let client = NISTAPIClient::new();
    let response = match client.get_cves_from_cpe(cpe, None, None) {
        Ok(x) => x,
        Err(e) => return Err(e),
    };
    Ok(severity_counts(&response))
}

/// The newest twenty records for a platform, the page a report is built
/// from. Rendering the report is the front end's.
pub fn pdf_report_page(cpe: &str) -> (r: Result<CPEResponse, FeedError>)
    requires
        spec_valid_cpe(cpe@),
    ensures
        r matches Err(e) ==> is_remote_error(e),
{
    let client = NISTAPIClient::new();
    client.get_cves_from_cpe(cpe, Some(20), Some(1))
}

/// The platform identifiers of the subscriptions that satisfy the
/// grammar, in their order.
pub open spec fn spec_watched_cpes(subs: Seq<Subscription>) -> Seq<Seq<char>>
    decreases subs.len(),
{
    if subs.len() == 0 {
        Seq::empty()
    } else {
        let pre = spec_watched_cpes(subs.drop_last());
        if spec_valid_cpe(subs.last().cpe@) {
            pre.push(subs.last().cpe@)
        } else {
            pre
        }
    }
}

/// For each subscription whose identifier satisfies the platform
/// grammar, the records changed in the `days` days before `now` (an
/// epoch second the caller draws from its clock); subscriptions with an
/// invalid identifier are passed over and cause no call. On success the
/// result pairs exactly the valid identifiers, in subscription order,
/// each with the page its fetch returned. Fails with the
/// date-arithmetic failure exactly when the window leaves the
/// representable date range, and with a remote failure when any single
/// fetch fails.
pub fn new_cves(subs: &Vec<Subscription>, days: u64, now: i64) -> (r: Result<
    Vec<(String, CPEResponse)>,
    FeedError,
>)
    ensures
        r == Err::<Vec<(String, CPEResponse)>, FeedError>(FeedError::DateArithmeticFailure)
            <==> spec_window_bounds(now, days) is Err,
        r matches Ok(v) ==> v@.map_values(|p: (String, CPEResponse)| p.0@) == spec_watched_cpes(
            subs@,
        ),
        r matches Err(e) ==> is_remote_error(e) || e is DateArithmeticFailure,
{
    let (start, end) = match window_bounds(now, days) {
        Ok(w) => w,
        Err(e) => return Err(e),
    };
    let client = NISTAPIClient::new();
    let mut result: Vec<(String, CPEResponse)> = Vec::new();
    let mut i: usize = 0;
    while i < subs.len()
        invariant
            0 <= i <= subs@.len(),
            0 <= start <= end <= MAX_FORMATTABLE_EPOCH,
            spec_window_bounds(now, days) is Ok,
            result@.map_values(|p: (String, CPEResponse)| p.0@) == spec_watched_cpes(
                subs@.take(i as int),
            ),
        decreases subs@.len() - i,
    {
        proof {
            assert(subs@.take(i + 1).drop_last() =~= subs@.take(i as int));
            assert(subs@.take(i + 1).last() == subs@[i as int]);
        }
        let sub = &subs[i];
        if is_valid_cpe_string(sub.cpe.as_str()) {
            let response = match client.get_latest_updated_cves_from_cpe(
                sub.cpe.as_str(),
                start,
                end,
            ) {
                Ok(x) => x,
                Err(e) => return Err(e),
            };
            result.push((sub.cpe.clone(), response));
        }
        proof {
            assert(result@.map_values(|p: (String, CPEResponse)| p.0@) =~= spec_watched_cpes(
                subs@.take(i + 1),
            ));
        }
        i = i + 1;
    }
    proof {
        assert(subs@.take(subs@.len() as int) =~= subs@);
    }
    Ok(result)
}

} // verus!

