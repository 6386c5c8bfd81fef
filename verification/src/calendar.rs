//! Broken-down calendar time: a date and a time of day held field by field.

use vstd::prelude::*;

verus! {

/// The largest `year` field whose calendar year, `year + 1900`, still fits
/// in an `i32`.
pub const MAX_YEAR: i32 = 2_147_481_747;

/// A calendar date and time of day, broken down into its components.
///
/// The fields follow C's `struct tm`: months count from zero, years from
/// 1900, and week days from Sunday.
#[derive(Clone, Copy, Debug, PartialEq, Eq, Structural)]
pub struct CalendarTime {
    /// Seconds after the minute, 0 to 60 (60 is a leap second).
    pub sec: i32,
    /// Minutes after the hour, 0 to 59.
    pub min: i32,
    /// Hours after midnight, 0 to 23.
    pub hour: i32,
    /// Day of the month, 1 to 31.
    pub mday: i32,
    /// Months since January, 0 to 11.
    pub mon: i32,
    /// Years since 1900.
    pub year: i32,
    /// Days since Sunday, 0 to 6.
    pub wday: i32,
    /// Days since the first of January.
    pub yday: i32,
    /// Daylight saving flag.
    pub isdst: i32,
    /// Seconds east of UTC.
    pub utcoff: i32,
    /// Nanoseconds after the second, 0 to 999,999,999.
    pub nsec: i32,
}

impl CalendarTime {
    /// Every field that text or arithmetic reads lies in its range, and the
    /// time is in UTC. The day of the week and the day of the month are not
    /// held against the month and year: the 31st of February is valid.
    pub open spec fn valid(self) -> bool {
        &&& 0 <= self.sec <= 60
        &&& 0 <= self.min <= 59
        &&& 0 <= self.hour <= 23
        &&& 1 <= self.mday <= 31
        &&& 0 <= self.mon <= 11
        &&& self.year <= MAX_YEAR
        &&& 0 <= self.wday <= 6
        &&& self.utcoff == 0
        &&& 0 <= self.nsec < 1_000_000_000
    }

    /// Valid, and the two fields that validity leaves free are in their
    /// ranges too: the day of the year lies within a year, and daylight
    /// saving is not in effect, as it never is in UTC.
    pub open spec fn strict(self) -> bool {
        &&& self.valid()
        &&& 0 <= self.yday <= 365
        &&& self.isdst == 0
    }

    /// Tests `valid`.
    pub fn is_valid(&self) -> (r: bool)
        ensures
            r == self.valid(),
    {
        0 <= self.sec && self.sec <= 60
            && 0 <= self.min && self.min <= 59
            && 0 <= self.hour && self.hour <= 23
            && 1 <= self.mday && self.mday <= 31
            && 0 <= self.mon && self.mon <= 11
            && self.year <= MAX_YEAR
            && 0 <= self.wday && self.wday <= 6
            && self.utcoff == 0
            && 0 <= self.nsec && self.nsec < 1_000_000_000
    }
}

impl CalendarTime {
    /// Tests `strict`.
    pub fn is_strict(&self) -> (r: bool)
        ensures
            r == self.strict(),
    {
        self.is_valid() && 0 <= self.yday && self.yday <= 365 && self.isdst == 0
    }
}

} // verus!
