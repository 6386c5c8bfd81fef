//! Equality and order of timestamps: both go by the instant denoted.
//!
//! Two timestamps are equal where they denote the same instant, whichever
//! text they were read from and whatever week day that text named. The
//! earlier of two instants is the lesser timestamp.
//!
//! The instants are compared as `Timespec`s, which are ordered by their
//! seconds and then by their nanoseconds. Between valid values that is the
//! order of time.

use core::cmp::Ordering;
use vstd::prelude::*;
use vstd::std_specs::cmp::{PartialEqSpec, PartialOrdSpec};
use crate::date::{found_in, instant_of, reads, HttpDate};
use crate::error::Error;
use crate::instant::Timespec;

verus! {

/// The order of `a` and `b` by their seconds, and by their nanoseconds
/// where the seconds are equal.
pub open spec fn by_fields(a: Timespec, b: Timespec) -> Ordering {
    if a.sec < b.sec {
        Ordering::Less
    } else if a.sec > b.sec {
        Ordering::Greater
    } else if a.nsec < b.nsec {
        Ordering::Less
    } else if a.nsec > b.nsec {
        Ordering::Greater
    } else {
        Ordering::Equal
    }
}

/// How the instant `a` lies to the instant `b` on the time line.
pub open spec fn chronological(a: Timespec, b: Timespec) -> Ordering {
    if a.signed_nanos() < b.signed_nanos() {
        Ordering::Less
    } else if a.signed_nanos() == b.signed_nanos() {
        Ordering::Equal
    } else {
        Ordering::Greater
    }
}

impl PartialOrd for Timespec {
    fn partial_cmp(&self, other: &Timespec) -> (r: Option<Ordering>) {
        if self.sec < other.sec {
            Some(Ordering::Less)
        } else if self.sec > other.sec {
            Some(Ordering::Greater)
        } else if self.nsec < other.nsec {
            Some(Ordering::Less)
        } else if self.nsec > other.nsec {
            Some(Ordering::Greater)
        } else {
            Some(Ordering::Equal)
        }
    }
}

impl vstd::std_specs::cmp::PartialOrdSpecImpl for Timespec {
    open spec fn obeys_partial_cmp_spec() -> bool {
        true
    }

    open spec fn partial_cmp_spec(&self, other: &Timespec) -> Option<Ordering> {
        Some(by_fields(*self, *other))
    }
}

impl PartialEq for HttpDate {
    fn eq(&self, other: &HttpDate) -> (r: bool) {
        self.to_timespec() == other.to_timespec()
    }
}

impl vstd::std_specs::cmp::PartialEqSpecImpl for HttpDate {
    open spec fn obeys_eq_spec() -> bool {
        true
    }

    open spec fn eq_spec(&self, other: &HttpDate) -> bool {
        self.instant() == other.instant()
    }
}

impl Eq for HttpDate {

}

impl PartialOrd for HttpDate {
    fn partial_cmp(&self, other: &HttpDate) -> (r: Option<Ordering>) {
        let a = self.to_timespec();
        let b = other.to_timespec();
        proof {
            lemma_fields_order_instants(a, b);
        }
        a.partial_cmp(&b)
    }
}

impl vstd::std_specs::cmp::PartialOrdSpecImpl for HttpDate {
    open spec fn obeys_partial_cmp_spec() -> bool {
        true
    }

    open spec fn partial_cmp_spec(&self, other: &HttpDate) -> Option<Ordering> {
        Some(chronological(self.instant(), other.instant()))
    }
}

/// Valid `Timespec`s are ordered by their fields as their instants lie on
/// the time line.
pub proof fn lemma_fields_order_instants(a: Timespec, b: Timespec)
    requires
        a.valid(),
        b.valid(),
    ensures
        by_fields(a, b) == chronological(a, b),
{
}

/// Of two timestamps that denote distinct instants, the one whose instant
/// comes first is the lesser, and the other the greater.
pub proof fn lemma_earlier_is_less(a: HttpDate, b: HttpDate)
    requires
        a.instant().signed_nanos() < b.instant().signed_nanos(),
    ensures
        a.partial_cmp_spec(&b) == Some(Ordering::Less),
        b.partial_cmp_spec(&a) == Some(Ordering::Greater),
        !a.eq_spec(&b),
{
}

/// Texts are read in the order of their instants. Where two texts are each
/// of one of the three forms, and the calendar time found in the first
/// denotes an earlier instant than the one found in the second, both are
/// read with success, and the timestamp of the first is the lesser.
pub proof fn lemma_texts_in_order(
    s1: Seq<char>,
    s2: Seq<char>,
    r1: Result<HttpDate, Error>,
    r2: Result<HttpDate, Error>,
)
    requires
        reads(s1, r1),
        reads(s2, r2),
        found_in(s1).is_some(),
        found_in(s2).is_some(),
        instant_of(found_in(s1).unwrap()).signed_nanos() < instant_of(
            found_in(s2).unwrap(),
        ).signed_nanos(),
    ensures
        r1.is_ok(),
        r2.is_ok(),
        r1.unwrap().partial_cmp_spec(&r2.unwrap()) == Some(Ordering::Less),
        r2.unwrap().partial_cmp_spec(&r1.unwrap()) == Some(Ordering::Greater),
        !r1.unwrap().eq_spec(&r2.unwrap()),
{
    lemma_earlier_is_less(r1.unwrap(), r2.unwrap());
}

/// Any two valid timestamps are ordered, and they compare as equal exactly
/// where they are equal: where they denote one instant.
pub proof fn lemma_order_agrees_with_equality(a: HttpDate, b: HttpDate)
    requires
        a@.valid(),
        b@.valid(),
    ensures
        a.partial_cmp_spec(&b).is_some(),
        a.partial_cmp_spec(&b) == Some(Ordering::Equal) <==> a.eq_spec(&b),
        a.partial_cmp_spec(&b) == Some(Ordering::Less) <==> b.partial_cmp_spec(&a) == Some(
            Ordering::Greater,
        ),
{
}

/// The order is transitive.
pub proof fn lemma_order_transitive(a: HttpDate, b: HttpDate, c: HttpDate)
    requires
        a.partial_cmp_spec(&b) == Some(Ordering::Less),
        b.partial_cmp_spec(&c) == Some(Ordering::Less),
    ensures
        a.partial_cmp_spec(&c) == Some(Ordering::Less),
{
}

} // verus!
