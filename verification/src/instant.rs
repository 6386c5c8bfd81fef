//! Instants on the time line, measured from the epoch: midnight UTC at the
//! start of the first of January 1970.
//!
//! Two notations are in use. A `Timespec` counts linearly: whole seconds,
//! negative before the epoch, and nanoseconds that always count forward from
//! that second. An `EpochOffset` is a distance with a direction, the way a
//! clock reports the difference between two of its readings. Both denote a
//! signed number of nanoseconds, and the conversions here keep that number.

use vstd::prelude::*;

verus! {

/// An instant as whole seconds from the epoch and nanoseconds after that
/// second.
///
/// Before the epoch `sec` is negative while `nsec` still counts forward: the
/// instant 1.2 s before the epoch has `sec` -2 and `nsec` 800,000,000.
#[derive(Clone, Copy, Debug, PartialEq, Eq, Ord, Structural)]
pub struct Timespec {
    /// Whole seconds from the epoch, rounded towards the past.
    pub sec: i64,
    /// Nanoseconds after `sec`, 0 to 999,999,999.
    pub nsec: i32,
}

/// An instant as a distance from the epoch and the side it lies on.
#[derive(Clone, Copy, Debug, PartialEq, Eq, Structural)]
pub struct EpochOffset {
    /// Whether the instant lies before the epoch.
    pub before: bool,
    /// Whole seconds of the distance.
    pub secs: u64,
    /// Nanoseconds of the distance beyond `secs`.
    pub nanos: u32,
}

impl Timespec {
    /// The nanoseconds lie within one second.
    pub open spec fn valid(self) -> bool {
        0 <= self.nsec < 1_000_000_000
    }

    /// The instant in nanoseconds from the epoch.
    pub open spec fn signed_nanos(self) -> int {
        self.sec * 1_000_000_000 + self.nsec
    }

    /// The same instant as a distance from the epoch, in normal form.
    pub open spec fn offset(self) -> EpochOffset {
        let distance = if self.signed_nanos() < 0 {
            -self.signed_nanos()
        } else {
            self.signed_nanos()
        };
        EpochOffset {
            before: self.signed_nanos() < 0,
            secs: (distance / 1_000_000_000) as u64,
            nanos: (distance % 1_000_000_000) as u32,
        }
    }

    /// Tests `valid`.
    pub fn is_valid(&self) -> (r: bool)
        ensures
            r == self.valid(),
    {
        0 <= self.nsec && self.nsec < 1_000_000_000
    }

    /// Converts to a distance from the epoch. The result is in normal form
    /// and denotes the same instant.
    pub fn to_epoch_offset(&self) -> (r: EpochOffset)
        ensures
            r == self.offset(),
            r.normal(),
            r.signed_nanos() == self.signed_nanos(),
    {
        let linear: i128 = self.sec as i128 * 1_000_000_000 + self.nsec as i128;
        let before = linear < 0;
        let distance: u128 = if before {
            (-linear) as u128
        } else {
            linear as u128
        };
        EpochOffset {
            before,
            secs: (distance / 1_000_000_000) as u64,
            nanos: (distance % 1_000_000_000) as u32,
        }
    }
}

impl EpochOffset {
    /// The length of the distance in nanoseconds.
    pub open spec fn magnitude(self) -> int {
        self.secs * 1_000_000_000 + self.nanos
    }

    /// The instant in nanoseconds from the epoch: negative before it.
    pub open spec fn signed_nanos(self) -> int {
        if self.before {
            -self.magnitude()
        } else {
            self.magnitude()
        }
    }

    /// The one notation of its instant in which the nanoseconds lie within
    /// a second and the epoch itself does not lie before the epoch.
    pub open spec fn normal(self) -> bool {
        &&& self.nanos < 1_000_000_000
        &&& self.before ==> self.magnitude() > 0
    }

    /// Whether the whole seconds of the instant fit a `Timespec`.
    pub open spec fn representable(self) -> bool {
        i64::MIN * 1_000_000_000 <= self.signed_nanos() < (i64::MAX + 1) * 1_000_000_000
    }

    /// The same instant counted linearly: the seconds round towards the
    /// past, so that the nanoseconds are never negative.
    pub open spec fn timespec(self) -> Timespec {
        Timespec {
            sec: (self.signed_nanos() / 1_000_000_000) as i64,
            nsec: (self.signed_nanos() % 1_000_000_000) as i32,
        }
    }

    /// Converts to linear seconds and nanoseconds; `None` where the seconds
    /// do not fit. A distance before the epoch with a fraction of a second
    /// borrows one second: 1.2 s before the epoch is second -2 plus 0.8 s.
    pub fn to_timespec(&self) -> (r: Option<Timespec>)
        ensures
            r == if self.representable() {
                Some(self.timespec())
            } else {
                None
            },
            r matches Some(ts) ==> ts.valid() && ts.signed_nanos() == self.signed_nanos(),
    {
        let distance: u128 = self.secs as u128 * 1_000_000_000 + self.nanos as u128;
        let whole: u128 = distance / 1_000_000_000;
        let part: u128 = distance % 1_000_000_000;
        if !self.before {
            if whole > 0x7fff_ffff_ffff_ffff {
                None
            } else {
                Some(Timespec { sec: whole as i64, nsec: part as i32 })
            }
        } else if part == 0 {
            if whole > 0x8000_0000_0000_0000 {
                None
            } else {
                Some(Timespec { sec: (-(whole as i128)) as i64, nsec: 0 })
            }
        } else {
            if whole >= 0x8000_0000_0000_0000 {
                None
            } else {
                Some(
                    Timespec {
                        sec: (-(whole as i128) - 1) as i64,
                        nsec: (1_000_000_000 - part) as i32,
                    },
                )
            }
        }
    }
}

/// A valid `Timespec` is the only one that denotes its instant.
pub proof fn lemma_timespec_unique(a: Timespec, b: Timespec)
    requires
        a.valid(),
        b.valid(),
        a.signed_nanos() == b.signed_nanos(),
    ensures
        a == b,
{
}

/// A normal `EpochOffset` is the only one that denotes its instant.
pub proof fn lemma_offset_unique(a: EpochOffset, b: EpochOffset)
    requires
        a.normal(),
        b.normal(),
        a.signed_nanos() == b.signed_nanos(),
    ensures
        a == b,
{
}

/// From linear seconds to a distance and back: every valid `Timespec`
/// gives a distance that fits, and comes back unchanged.
pub proof fn lemma_timespec_round_trip(ts: Timespec)
    requires
        ts.valid(),
    ensures
        ts.offset().normal(),
        ts.offset().representable(),
        ts.offset().timespec() == ts,
{
}

/// From a distance to linear seconds and back: the instant is kept, and a
/// distance in normal form comes back unchanged.
pub proof fn lemma_offset_round_trip(off: EpochOffset)
    requires
        off.representable(),
    ensures
        off.timespec().valid(),
        off.timespec().offset().signed_nanos() == off.signed_nanos(),
        off.normal() ==> off.timespec().offset() == off,
{
}

/// The epoch is zero in both notations, and each conversion takes the one
/// zero to the other.
pub proof fn lemma_epoch()
    ensures
        (EpochOffset { before: false, secs: 0, nanos: 0 }).representable(),
        (EpochOffset { before: false, secs: 0, nanos: 0 }).timespec() == (Timespec { sec: 0, nsec: 0 }),
        (Timespec { sec: 0, nsec: 0 }).offset() == (EpochOffset { before: false, secs: 0, nanos: 0 }),
{
}

} // verus!
