//! `HttpDate`: a timestamp as HTTP headers carry it.
//!
//! A recipient accepts three forms of text; a sender writes one:
//!
//! ```text
//! Sun, 06 Nov 1994 08:49:37 GMT    ; IMF-fixdate, the one to send
//! Sunday, 06-Nov-94 08:49:37 GMT   ; RFC 850, obsolete
//! Sun Nov  6 08:49:37 1994         ; asctime() of ANSI C
//! ```

use vstd::prelude::*;
use crate::calendar::CalendarTime;
use crate::engine;
use crate::engine::{ASCTIME, IMF_FIXDATE, MAX_SEC, RFC_850};
use crate::error::Error;
use crate::instant::{lemma_offset_round_trip, EpochOffset, Timespec};
use crate::text::{four_digit_year, imf_fixdate, lemma_fixdate_shape};

verus! {

/// A timestamp with the formatting and parsing of HTTP.
///
/// It holds a valid calendar time in UTC, which is its view. Once made it
/// does not change.
#[derive(Clone, Copy, Debug)]
pub struct HttpDate {
    tm: CalendarTime,
}

impl View for HttpDate {
    type V = CalendarTime;

    closed spec fn view(&self) -> CalendarTime {
        self.tm
    }
}

/// The calendar time that parsing settles on: that of the first pattern,
/// in order, that matched.
pub open spec fn first_match(
    first: Option<CalendarTime>,
    second: Option<CalendarTime>,
    third: Option<CalendarTime>,
) -> Option<CalendarTime> {
    if first.is_some() {
        first
    } else if second.is_some() {
        second
    } else {
        third
    }
}

/// Whether `r` is what parsing returns once the patterns have been tried
/// and `found` is what they gave: the timestamp of a valid calendar time,
/// and the malformed-header error where nothing matched or what matched is
/// not valid.
pub open spec fn settles(found: Option<CalendarTime>, r: Result<HttpDate, Error>) -> bool {
    match found {
        Some(tm) => if tm.valid() {
            r matches Ok(date) && date@ == tm
        } else {
            r == Err::<HttpDate, Error>(Error::Header)
        },
        None => r == Err::<HttpDate, Error>(Error::Header),
    }
}

/// What reading the text `s` finds: the calendar time of the first of the
/// three patterns, in the order IMF-fixdate, RFC 850, `asctime`, that the
/// calendar engine matches `s` against with success.
pub open spec fn found_in(s: Seq<char>) -> Option<CalendarTime> {
    first_match(
        engine::strptime_outcome(s, IMF_FIXDATE@),
        engine::strptime_outcome(s, RFC_850@),
        engine::strptime_outcome(s, ASCTIME@),
    )
}

/// The instant that the calendar time `tm` denotes: the seconds that the
/// calendar engine counts for it, and its nanoseconds.
pub open spec fn instant_of(tm: CalendarTime) -> Timespec {
    Timespec { sec: engine::utc_seconds(tm), nsec: tm.nsec }
}

/// Whether `r` is what reading the text `s` returns: the timestamp of the
/// calendar time found in `s`, and the malformed-header error where none of
/// the three patterns matches.
pub open spec fn reads(s: Seq<char>, r: Result<HttpDate, Error>) -> bool {
    match found_in(s) {
        Some(tm) => r matches Ok(date) && date@ == tm,
        None => r == Err::<HttpDate, Error>(Error::Header),
    }
}

/// Whether the text `s` is of the RFC 850 form and of no form before it:
/// the IMF-fixdate pattern does not match it and the RFC 850 pattern does.
pub open spec fn reads_as_rfc_850(s: Seq<char>) -> bool {
    &&& engine::strptime_outcome(s, IMF_FIXDATE@).is_none()
    &&& engine::strptime_outcome(s, RFC_850@).is_some()
}

/// Whether the calendar engine can break the instant `ts` down, and
/// breaks it down to a strict calendar time that denotes `ts` again.
pub open spec fn breaks_down(ts: Timespec) -> bool {
    &&& ts.valid()
    &&& -MAX_SEC <= ts.sec <= MAX_SEC
    &&& engine::utc_calendar(ts.sec, ts.nsec).strict()
    &&& instant_of(engine::utc_calendar(ts.sec, ts.nsec)) == ts
}

impl HttpDate {
    #[verifier::type_invariant]
    spec fn well_formed(self) -> bool {
        self.tm.valid()
    }

    /// The instant that the timestamp denotes: that of its calendar time.
    pub open spec fn instant(self) -> Timespec {
        instant_of(self@)
    }

    /// The timestamp of a calendar time, where that is valid.
    pub fn new(tm: CalendarTime) -> (r: Option<HttpDate>)
        ensures
            match r {
                Some(date) => tm.valid() && date@ == tm,
                None => !tm.valid(),
            },
    {
        if tm.is_valid() {
            Some(HttpDate { tm })
        } else {
            None
        }
    }

    /// The calendar time that the timestamp holds. It is valid.
    pub fn calendar(&self) -> (r: CalendarTime)
        ensures
            r == self@,
            r.valid(),
    {
        proof {
            use_type_invariant(self);
        }
        self.tm
    }

    /// Settles what parsing returns, given what each of the three patterns
    /// made of the text: the first that matched counts, and no later one is
    /// looked at even where the first gave a calendar time that is not
    /// valid.
    pub fn from_attempts(
        first: Option<CalendarTime>,
        second: Option<CalendarTime>,
        third: Option<CalendarTime>,
    ) -> (r: Result<HttpDate, Error>)
        ensures
            settles(first_match(first, second, third), r),
    {
        let found = if first.is_some() {
            first
        } else if second.is_some() {
            second
        } else {
            third
        };
        match found {
            Some(tm) => match HttpDate::new(tm) {
                Some(date) => Ok(date),
                None => Err(Error::Header),
            },
            None => Err(Error::Header),
        }
    }

    /// Tries one of the three patterns on the text. What it reads is a
    /// valid calendar time, with a year from 1900 to 1999 where the pattern
    /// is that of RFC 850.
    fn attempt(s: &str, pattern: &str) -> (r: Option<CalendarTime>)
        requires
            engine::known_pattern(pattern@),
        ensures
            r == engine::strptime_outcome(s@, pattern@),
            r matches Some(tm) ==> tm.valid() && (pattern@ == RFC_850@ ==> 0 <= tm.year <= 99),
    {
        match engine::strptime(s, pattern) {
            Ok(tm) => Some(tm),
            Err(_) => None,
        }
    }

    /// Reads a timestamp from any of the three forms of text. The patterns
    /// are tried in the order IMF-fixdate, RFC 850, `asctime`, and the first
    /// that matches decides: its calendar time is the timestamp. A text is
    /// refused, with the malformed-header error, exactly where it matches
    /// none of the three.
    ///
    /// The two digits of an RFC 850 year count from 1900: `94` is 1994 and
    /// `05` is 1905.
    pub fn parse(s: &str) -> (r: Result<HttpDate, Error>)
        ensures
            reads(s@, r),
            r.is_err() <==> found_in(s@).is_none(),
            r matches Ok(date) ==> date@.valid(),
            reads_as_rfc_850(s@) ==> (r matches Ok(date) && 0 <= date@.year <= 99),
    {
        let first = Self::attempt(s, IMF_FIXDATE);
        let second = if first.is_none() {
            Self::attempt(s, RFC_850)
        } else {
            None
        };
        let third = if first.is_none() && second.is_none() {
            Self::attempt(s, ASCTIME)
        } else {
            None
        };
        Self::from_attempts(first, second, third)
    }

    /// Writes the timestamp in its canonical form, the IMF-fixdate,
    /// whichever form it was read from. With a year of four digits the text
    /// is 29 characters long.
    pub fn to_string(&self) -> (r: String)
        ensures
            r@ == imf_fixdate(self@),
            four_digit_year(self@) ==> r@.len() == 29,
    {
        proof {
            use_type_invariant(self);
            if four_digit_year(self@) {
                lemma_fixdate_shape(self@);
            }
        }
        let utc = engine::to_utc(&self.tm);
        engine::rfc822(&utc)
    }

    /// The instant of the timestamp, in seconds and nanoseconds from the
    /// epoch.
    pub fn to_timespec(&self) -> (r: Timespec)
        ensures
            r == self.instant(),
            r.valid(),
    {
        proof {
            use_type_invariant(self);
        }
        engine::to_timespec(&self.tm)
    }

    /// The instant of the timestamp as a distance from the epoch, in normal
    /// form: the epoch itself is zero seconds after the epoch.
    pub fn to_epoch_offset(&self) -> (r: EpochOffset)
        ensures
            r == self.instant().offset(),
            r.normal(),
            r.signed_nanos() == self.instant().signed_nanos(),
    {
        self.to_timespec().to_epoch_offset()
    }

    /// The timestamp of the instant `ts`, given the calendar time `tm` that
    /// the instant was broken down to: `tm` is taken where it is strict and
    /// denotes `ts` again, and refused otherwise.
    pub fn from_breakdown(ts: Timespec, tm: CalendarTime) -> (r: Option<HttpDate>)
        ensures
            match r {
                Some(date) => tm.strict() && date@ == tm && date.instant() == ts,
                None => !(tm.strict() && instant_of(tm) == ts),
            },
    {
        if !tm.is_strict() {
            return None;
        }
        match HttpDate::new(tm) {
            Some(date) => if date.to_timespec() == ts {
                Some(date)
            } else {
                None
            },
            None => None,
        }
    }

    /// The timestamp of the instant `ts`, where the calendar engine breaks
    /// it down. The timestamp denotes `ts` again, and its calendar time is
    /// strict: in UTC, without daylight saving, every field in its range.
    ///
    /// `None` is returned for a `ts` that is not valid and for one further
    /// than `MAX_SEC` from the epoch. For every other instant the engine is
    /// asked, and its answer is held to the library's own test, not
    /// believed: `None` is returned there only where the calendar time that
    /// came back is not strict or does not denote `ts`.
    pub fn from_timespec(ts: Timespec) -> (r: Option<HttpDate>)
        ensures
            match r {
                Some(date) => {
                    &&& breaks_down(ts)
                    &&& date@ == engine::utc_calendar(ts.sec, ts.nsec)
                    &&& date@.strict()
                    &&& date.instant() == ts
                },
                None => !breaks_down(ts),
            },
    {
        if !ts.is_valid() || ts.sec < -MAX_SEC || ts.sec > MAX_SEC {
            return None;
        }
        HttpDate::from_breakdown(ts, engine::at_utc(ts.sec, ts.nsec))
    }

    /// The timestamp of the instant at the distance `offset` from the
    /// epoch, where its seconds fit and the calendar engine breaks it down.
    /// The timestamp denotes the same instant: turned into a distance again
    /// it gives `offset` back, in normal form. Its calendar time is strict.
    ///
    /// `None` is returned for a distance of more than `MAX_SEC` seconds.
    /// Within that, `None` is returned only where the calendar time that the
    /// engine gave fails the test of `from_breakdown`.
    pub fn from_epoch_offset(offset: EpochOffset) -> (r: Option<HttpDate>)
        ensures
            match r {
                Some(date) => {
                    &&& offset.representable()
                    &&& breaks_down(offset.timespec())
                    &&& date@ == engine::utc_calendar(offset.timespec().sec, offset.timespec().nsec)
                    &&& date@.strict()
                    &&& date.instant() == offset.timespec()
                    &&& date.instant().offset().signed_nanos() == offset.signed_nanos()
                    &&& offset.normal() ==> date.instant().offset() == offset
                },
                None => !(offset.representable() && breaks_down(offset.timespec())),
            },
    {
        match offset.to_timespec() {
            Some(ts) => {
                proof {
                    lemma_offset_round_trip(offset);
                }
                HttpDate::from_timespec(ts)
            },
            None => None,
        }
    }
}

/// A timestamp is its calendar time and nothing more.
pub proof fn lemma_view_decides(a: HttpDate, b: HttpDate)
    requires
        a@ == b@,
    ensures
        a == b,
{
}

/// From an instant to a timestamp and back. A timestamp that denotes the
/// instant of a distance from the epoch, as the one that
/// `from_epoch_offset` makes does, denotes an instant that is valid as a
/// `Timespec`, and as a distance is `offset` again: the same signed
/// nanoseconds, and the very same value where `offset` is in normal form.
pub proof fn lemma_round_trip(offset: EpochOffset, date: HttpDate)
    requires
        offset.representable(),
        date.instant() == offset.timespec(),
    ensures
        date.instant().valid(),
        date.instant().signed_nanos() == offset.signed_nanos(),
        date.instant().offset().signed_nanos() == offset.signed_nanos(),
        offset.normal() ==> date.instant().offset() == offset,
{
    lemma_offset_round_trip(offset);
}

impl core::str::FromStr for HttpDate {
    type Err = Error;

    fn from_str(s: &str) -> (r: Result<HttpDate, Error>)
        ensures
            reads(s@, r),
            r.is_err() <==> found_in(s@).is_none(),
            r matches Ok(date) ==> date@.valid(),
            reads_as_rfc_850(s@) ==> (r matches Ok(date) && 0 <= date@.year <= 99),
    {
        HttpDate::parse(s)
    }
}

} // verus!
