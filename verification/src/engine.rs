//! The calendar engine: the `time` crate, behind contracts.
//!
//! Calendar arithmetic and the matching of text against patterns are the
//! `time` crate's work. Verus does not read that crate. Each function here
//! hands plain values to one of its functions and plain values back, and
//! states in its contract what the rest of the library relies on. Those
//! contracts are taken on trust; everything else in the library is proved
//! from them. They are stated of the crate as it is built for Unix, where
//! it leaves the calendar to the C library's `gmtime_r` and `timegm`.

use vstd::prelude::*;
use crate::calendar::CalendarTime;
use crate::instant::Timespec;
use crate::text::imf_fixdate;

verus! {

/// The furthest that an instant may lie from the epoch, in seconds, for
/// the engine to break it down: about 1.9 thousand million years, which
/// keeps the calendar year well inside an `i32`.
pub const MAX_SEC: i64 = 60_000_000_000_000_000;

/// The pattern of the IMF-fixdate form.
pub const IMF_FIXDATE: &'static str = "%a, %d %b %Y %T %Z";

/// The pattern of the obsolete RFC 850 form, with its two-digit year.
pub const RFC_850: &'static str = "%A, %d-%b-%y %T %Z";

/// The pattern of the `asctime` form, which names no zone.
pub const ASCTIME: &'static str = "%c";

/// Whether `pattern` is one of the three that this library hands to the
/// engine.
pub open spec fn known_pattern(pattern: Seq<char>) -> bool {
    pattern == IMF_FIXDATE@ || pattern == RFC_850@ || pattern == ASCTIME@
}

/// The `time` crate's reason for refusing a text. It is carried, never read.
#[verifier::external_type_specification]
#[verifier::external_body]
pub struct ExParseError(time::ParseError);

/// What `time::strptime` makes of the text `s` under the pattern `format`:
/// the calendar time that it reads, or `None` where the text does not match.
pub uninterp spec fn strptime_outcome(s: Seq<char>, format: Seq<char>) -> Option<CalendarTime>;

/// The calendar time in UTC that `time::at_utc` gives for the instant
/// `sec` seconds and `nsec` nanoseconds from the epoch.
pub uninterp spec fn utc_calendar(sec: i64, nsec: i32) -> CalendarTime;

/// The seconds from the epoch that `time::Tm::to_timespec` gives for a
/// calendar time in UTC.
pub uninterp spec fn utc_seconds(t: CalendarTime) -> i64;

/// Calls `time::strptime`, which matches `s` against the `strptime`-style
/// pattern `format`. Trusted, for the three patterns of HTTP: the outcome
/// depends on the two texts alone, and a calendar time that is read is
/// valid. Each of the three patterns names the week day and the month,
/// which are read by name, and day, hours, minutes and seconds, which are
/// read as digits and refused outside their ranges; the year is four digits
/// less 1900, or two digits as they stand; the offset from UTC and the
/// nanoseconds are never touched and stay zero. Under the RFC 850 pattern
/// the year is the two digits, 0 to 99: the years 1900 to 1999. Nothing is
/// claimed of which texts match. Other patterns are kept away by `requires`:
/// the crate panics on some of them.
#[verifier::external_body]
pub(crate) fn strptime(s: &str, format: &str) -> (r: Result<CalendarTime, time::ParseError>)
    requires
        known_pattern(format@),
    ensures
        match r {
            Ok(t) => {
                &&& strptime_outcome(s@, format@) == Some(t)
                &&& t.valid()
                &&& format@ == RFC_850@ ==> 0 <= t.year <= 99
            },
            Err(_) => strptime_outcome(s@, format@).is_none(),
        },
{
    match time::strptime(s, format) {
        Ok(tm) => Ok(CalendarTime {
            sec: tm.tm_sec, min: tm.tm_min, hour: tm.tm_hour, mday: tm.tm_mday,
            mon: tm.tm_mon, year: tm.tm_year, wday: tm.tm_wday, yday: tm.tm_yday,
            isdst: tm.tm_isdst, utcoff: tm.tm_utcoff, nsec: tm.tm_nsec,
        }),
        Err(e) => Err(e),
    }
}

/// Calls `time::at_utc`, which breaks an instant down into a calendar time
/// in UTC. Trusted: the outcome depends on the instant alone, it is marked
/// as UTC, and its nanoseconds are those handed in. Nothing is claimed of
/// the other fields. The crate panics where the C library cannot hold the
/// year; `requires` keeps that away.
#[verifier::external_body]
pub(crate) fn at_utc(sec: i64, nsec: i32) -> (r: CalendarTime)
    requires
        -MAX_SEC <= sec <= MAX_SEC,
    ensures
        r == utc_calendar(sec, nsec),
        r.utcoff == 0,
        r.nsec == nsec,
{
    let tm = time::at_utc(time::Timespec { sec, nsec });
    CalendarTime {
        sec: tm.tm_sec, min: tm.tm_min, hour: tm.tm_hour, mday: tm.tm_mday,
        mon: tm.tm_mon, year: tm.tm_year, wday: tm.tm_wday, yday: tm.tm_yday,
        isdst: tm.tm_isdst, utcoff: tm.tm_utcoff, nsec: tm.tm_nsec,
    }
}

/// Calls `time::Tm::to_timespec`, which turns a calendar time into seconds
/// and nanoseconds from the epoch. Trusted: for a time in UTC the seconds
/// depend on the fields alone, and the nanoseconds are those of `t`. The
/// crate reads the machine's time zone where `utcoff` is not zero and
/// panics where the nanoseconds do not lie within a second; `requires`
/// keeps both away.
#[verifier::external_body]
pub(crate) fn to_timespec(t: &CalendarTime) -> (r: Timespec)
    requires
        t.utcoff == 0,
        0 <= t.nsec < 1_000_000_000,
    ensures
        r.sec == utc_seconds(*t),
        r.nsec == t.nsec,
{
    let tm = time::Tm {
        tm_sec: t.sec, tm_min: t.min, tm_hour: t.hour, tm_mday: t.mday,
        tm_mon: t.mon, tm_year: t.year, tm_wday: t.wday, tm_yday: t.yday,
        tm_isdst: t.isdst, tm_utcoff: t.utcoff, tm_nsec: t.nsec,
    };
    let ts = tm.to_timespec();
    Timespec { sec: ts.sec, nsec: ts.nsec }
}

/// Calls `time::Tm::to_utc`, which moves a calendar time to UTC. Trusted:
/// a time that is in UTC already comes back as it is. Elsewhere the crate
/// reads the machine's time zone; `requires` keeps that away.
#[verifier::external_body]
pub(crate) fn to_utc(t: &CalendarTime) -> (r: CalendarTime)
    requires
        t.utcoff == 0,
    ensures
        r == *t,
{
    let tm = time::Tm {
        tm_sec: t.sec, tm_min: t.min, tm_hour: t.hour, tm_mday: t.mday,
        tm_mon: t.mon, tm_year: t.year, tm_wday: t.wday, tm_yday: t.yday,
        tm_isdst: t.isdst, tm_utcoff: t.utcoff, tm_nsec: t.nsec,
    }.to_utc();
    CalendarTime {
        sec: tm.tm_sec, min: tm.tm_min, hour: tm.tm_hour, mday: tm.tm_mday,
        mon: tm.tm_mon, year: tm.tm_year, wday: tm.tm_wday, yday: tm.tm_yday,
        isdst: tm.tm_isdst, utcoff: tm.tm_utcoff, nsec: tm.tm_nsec,
    }
}

/// Calls `time::Tm::rfc822` and renders what it gives. Trusted: for a valid
/// calendar time the text is `imf_fixdate`: the names of the week day and
/// month by their fields, day, hours, minutes and seconds padded to two
/// digits, the year plus 1900 unpadded, and, the time being in UTC, the
/// zone written `GMT`. The crate panics on a week day or month outside its
/// range; validity keeps both away.
#[verifier::external_body]
pub(crate) fn rfc822(t: &CalendarTime) -> (r: String)
    requires
        t.valid(),
    ensures
        r@ == imf_fixdate(*t),
{
    let tm = time::Tm {
        tm_sec: t.sec, tm_min: t.min, tm_hour: t.hour, tm_mday: t.mday,
        tm_mon: t.mon, tm_year: t.year, tm_wday: t.wday, tm_yday: t.yday,
        tm_isdst: t.isdst, tm_utcoff: t.utcoff, tm_nsec: t.nsec,
    };
    tm.rfc822().to_string()
}

} // verus!
