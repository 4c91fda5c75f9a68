//! Timestamp formatting for the remote API's query parameters.
//!
//! Epoch seconds are turned into the remote system's required
//! `YYYY-MM-DDTHH:MM:SS.000` shape, followed by a literal, percent-encoded
//! `+01:00` offset suffix. The suffix is appended verbatim and is not
//! derived from the timezone of the instant; this mirrors the observed
//! behaviour of the feed and is kept deliberately.

use vstd::prelude::*;
use vstd::string::*;

use chrono::Datelike;
use chrono::Timelike;

use crate::numstr::spec_digit;
use crate::numstr::append_digit;

verus! {

/// Latest epoch second of this layer's representable date range. The
/// range is a choice of this layer: the epoch era, from
/// 1970-01-01T00:00:00 (epoch second zero) through 9999-12-31T23:59:59,
/// the last instant whose year has four decimal digits in the remote's
/// timestamp shape. Instants outside it are refused as date-arithmetic
/// failures rather than formatted.
pub const MAX_FORMATTABLE_EPOCH: i64 = 253402300799;

/// The calendar fields `(year, month, day, hour, minute, second)` of an
/// epoch second, in the proleptic Gregorian calendar at UTC. The value is
/// a function of the argument alone; it is computed by the calendar
/// library behind `epoch_to_civil`.
pub uninterp spec fn civil_of(secs: i64) -> (u16, u8, u8, u8, u8, u8);

/// Relies on chrono's `DateTime::from_timestamp` and the `Datelike` /
/// `Timelike` getters: the UTC calendar fields of an epoch second, with
/// month 1..=12, day 1..=31, hour 0..=23, minute and second 0..=59, as
/// chrono documents. In-range seconds are well inside chrono's
/// representable span, so the conversion cannot fail.
#[verifier::external_body]
fn epoch_to_civil(secs: i64) -> (r: (u16, u8, u8, u8, u8, u8))
    requires
        0 <= secs <= MAX_FORMATTABLE_EPOCH,
    ensures
        r == civil_of(secs),
        1970 <= r.0 <= 9999,
        1 <= r.1 <= 12,
        1 <= r.2 <= 31,
        r.3 < 24,
        r.4 < 60,
        r.5 < 60,
{
    let dt = chrono::DateTime::from_timestamp(secs, 0).unwrap();
    (
        dt.year() as u16,
        dt.month() as u8,
        dt.day() as u8,
        dt.hour() as u8,
        dt.minute() as u8,
        dt.second() as u8,
    )
}

/// Two decimal digits, zero padded.
pub open spec fn spec_pad2(v: int) -> Seq<char> {
    seq![spec_digit(v / 10), spec_digit(v % 10)]
}

/// Four decimal digits, zero padded.
pub open spec fn spec_pad4(v: int) -> Seq<char> {
    seq![
        spec_digit(v / 1000),
        spec_digit((v / 100) % 10),
        spec_digit((v / 10) % 10),
        spec_digit(v % 10),
    ]
}

/// The formatted timestamp for the calendar fields
/// `year-month-dayThour:minute:second.000%2B01:00`.
pub open spec fn spec_timestamp(y: int, mo: int, d: int, h: int, mi: int, s: int) -> Seq<char> {
    spec_pad4(y) + seq!['-'] + spec_pad2(mo) + seq!['-'] + spec_pad2(d) + seq!['T'] + spec_pad2(h)
        + seq![':'] + spec_pad2(mi) + seq![':'] + spec_pad2(s) + seq!['.', '0', '0', '0', '%', '2', 'B', '0', '1', ':', '0', '0']
}

/// The formatted timestamp of an epoch second.
pub open spec fn spec_format_epoch(secs: i64) -> Seq<char> {
    let t = civil_of(secs);
    spec_timestamp(t.0 as int, t.1 as int, t.2 as int, t.3 as int, t.4 as int, t.5 as int)
}

fn append_pad2(out: &mut String, v: u64)
    requires
        v < 100,
    ensures
        final(out)@ == old(out)@ + spec_pad2(v as int),
{
    append_digit(out, v / 10);
    append_digit(out, v % 10);
    proof {
        assert(out@ =~= old(out)@ + spec_pad2(v as int));
    }
}

fn append_pad4(out: &mut String, v: u64)
    requires
        v < 10000,
    ensures
        final(out)@ == old(out)@ + spec_pad4(v as int),
{
    append_digit(out, v / 1000);
    append_digit(out, (v / 100) % 10);
    append_digit(out, (v / 10) % 10);
    append_digit(out, v % 10);
    proof {
        assert(out@ =~= old(out)@ + spec_pad4(v as int));
    }
}

/// Formats an epoch second as the remote system's local-date-time string
/// with the fixed, percent-encoded `+01:00` suffix.
pub fn format_timestamp(timestamp_seconds: i64) -> (r: String)
    requires
        0 <= timestamp_seconds <= MAX_FORMATTABLE_EPOCH,
    ensures
        r@ == spec_format_epoch(timestamp_seconds),
{
    let (y, mo, d, h, mi, s) = epoch_to_civil(timestamp_seconds);
    let mut out = String::new();
    append_pad4(&mut out, y as u64);
    proof {
        reveal_strlit("-");
        reveal_strlit("T");
        reveal_strlit(":");
        reveal_strlit(".000%2B01:00");
    }
    out.append("-");
    append_pad2(&mut out, mo as u64);
    out.append("-");
    append_pad2(&mut out, d as u64);
    out.append("T");
    append_pad2(&mut out, h as u64);
    out.append(":");
    append_pad2(&mut out, mi as u64);
    out.append(":");
    append_pad2(&mut out, s as u64);
    out.append(".000%2B01:00");
    proof {
        assert(("-")@ =~= seq!['-']);
        assert(("T")@ =~= seq!['T']);
        assert((":")@ =~= seq![':']);
        assert((".000%2B01:00")@ =~= seq!['.', '0', '0', '0', '%', '2', 'B', '0', '1', ':', '0', '0']);
        assert(out@ =~= spec_format_epoch(timestamp_seconds));
    }
    out
}

} // verus!
