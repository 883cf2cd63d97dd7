//! Instants and durations as plain integers.

use vstd::prelude::*;
use crate::text::{decimal, push_decimal};

verus! {

/// Nanoseconds in a second.
pub const NANOS_PER_SEC: u64 = 1_000_000_000;

/// Nanoseconds in a millisecond.
pub const NANOS_PER_MILLI: u32 = 1_000_000;

/// Nanoseconds in a microsecond.
pub const NANOS_PER_MICRO: u32 = 1_000;

/// Seconds in a minute.
pub const SECONDS_PER_MINUTE: u64 = 60;

/// Seconds in an hour.
pub const SECONDS_PER_HOUR: u64 = 3_600;

/// Seconds in a day.
pub const SECONDS_PER_DAY: u64 = 86_400;

/// Seconds in a week.
pub const SECONDS_PER_WEEK: u64 = 604_800;

/// Seconds in a year of 365 days.
pub const SECONDS_PER_YEAR: u64 = 31_536_000;

/// A span of time: whole seconds and the nanoseconds beyond them.
#[derive(Clone, Copy, Debug, Default, PartialEq, Eq, PartialOrd, Hash, Structural)]
pub struct Duration {
    pub secs: u64,
    pub nanos: u32,
}

/// An instant: whole seconds since the Unix epoch and the nanoseconds into
/// that second. Instants are ordered by seconds first, then by nanoseconds.
#[derive(Clone, Copy, Debug, PartialEq, Eq, PartialOrd, Hash, Structural)]
pub struct Datetime {
    pub secs: i64,
    pub nanos: u32,
}

/// A count with its unit, or nothing where the count is zero.
pub open spec fn counted(count: nat, unit: Seq<char>) -> Seq<char> {
    if count > 0 {
        decimal(count) + unit
    } else {
        seq![]
    }
}

fn push_counted(text: &mut String, count: u64, unit: &str)
    ensures
        final(text)@ == old(text)@ + counted(count as nat, unit@),
{
    if count > 0 {
        push_decimal(text, count);
        text.append(unit);
    }
    assert(text@ =~= old(text)@ + counted(count as nat, unit@));
}

impl Duration {
    /// The span as text: its years, weeks, days, hours, minutes, seconds,
    /// milliseconds, microseconds and nanoseconds, each with its unit, and
    /// those that are zero left out; `0ns` for the empty span.
    pub open spec fn text(self) -> Seq<char> {
        let secs = self.secs as nat;
        let nanos = self.nanos as nat;
        let year = SECONDS_PER_YEAR as nat;
        let week = SECONDS_PER_WEEK as nat;
        let day = SECONDS_PER_DAY as nat;
        let hour = SECONDS_PER_HOUR as nat;
        let minute = SECONDS_PER_MINUTE as nat;
        let milli = NANOS_PER_MILLI as nat;
        let micro = NANOS_PER_MICRO as nat;
        if secs == 0 && nanos == 0 {
            "0ns"@
        } else {
            counted(secs / year, "y"@)
                + counted(secs % year / week, "w"@)
                + counted(secs % year % week / day, "d"@)
                + counted(secs % day / hour, "h"@)
                + counted(secs % hour / minute, "m"@)
                + counted(secs % minute, "s"@)
                + counted(nanos / milli, "ms"@)
                + counted(nanos % milli / micro, "\u{b5}s"@)
                + counted(nanos % micro, "ns"@)
        }
    }

    /// The span as text, as in `1h30m` or `2w3d`.
    pub fn to_string(&self) -> (text: String)
        ensures
            text@ == self.text(),
    {
        if self.secs == 0 && self.nanos == 0 {
            return String::from_str("0ns");
        }
        let year: u64 = self.secs / SECONDS_PER_YEAR;
        let secs: u64 = self.secs % SECONDS_PER_YEAR;
        let week: u64 = secs / SECONDS_PER_WEEK;
        let secs: u64 = secs % SECONDS_PER_WEEK;
        let days: u64 = secs / SECONDS_PER_DAY;
        let secs: u64 = secs % SECONDS_PER_DAY;
        let hour: u64 = secs / SECONDS_PER_HOUR;
        let secs: u64 = secs % SECONDS_PER_HOUR;
        let mins: u64 = secs / SECONDS_PER_MINUTE;
        let secs: u64 = secs % SECONDS_PER_MINUTE;
        let msec: u32 = self.nanos / NANOS_PER_MILLI;
        let nano: u32 = self.nanos % NANOS_PER_MILLI;
        let usec: u32 = nano / NANOS_PER_MICRO;
        let nano: u32 = nano % NANOS_PER_MICRO;
        proof {
            let s = self.secs as int;
            assert(s % 31_536_000 % 604_800 % 86_400 == s % 86_400) by (nonlinear_arith);
            assert(s % 86_400 % 3_600 == s % 3_600) by (nonlinear_arith);
            assert(s % 3_600 % 60 == s % 60) by (nonlinear_arith);
            let n = self.nanos as int;
            assert(n % 1_000_000 % 1_000 == n % 1_000) by (nonlinear_arith);
        }
        let mut text = String::new();
        push_counted(&mut text, year, "y");
        push_counted(&mut text, week, "w");
        push_counted(&mut text, days, "d");
        push_counted(&mut text, hour, "h");
        push_counted(&mut text, mins, "m");
        push_counted(&mut text, secs, "s");
        push_counted(&mut text, msec as u64, "ms");
        push_counted(&mut text, usec as u64, "\u{b5}s");
        push_counted(&mut text, nano as u64, "ns");
        assert(text@ =~= self.text());
        text
    }

    /// The span of `secs` whole seconds.
    pub fn from_secs(secs: u64) -> (d: Duration)
        ensures
            d == (Duration { secs, nanos: 0 }),
    {
        Duration { secs, nanos: 0 }
    }

    /// The whole seconds of the span.
    pub fn secs(&self) -> (s: u64)
        ensures
            s == self.secs,
    {
        self.secs
    }

    /// Whether the span is empty.
    pub fn is_zero(&self) -> (z: bool)
        ensures
            z == (self.secs == 0 && self.nanos == 0),
    {
        self.secs == 0 && self.nanos == 0
    }
}

impl Datetime {
    /// The instant `nanos` nanoseconds after second `secs` of the Unix era.
    pub fn new(secs: i64, nanos: u32) -> (t: Datetime)
        ensures
            t == (Datetime { secs, nanos }),
    {
        Datetime { secs, nanos }
    }

    /// `self` lies strictly before `other`.
    pub open spec fn before(self, other: Datetime) -> bool {
        self.secs < other.secs || (self.secs == other.secs && self.nanos < other.nanos)
    }

    /// Whole seconds from `earlier` up to `self`, and zero where `earlier`
    /// is in fact the later of the two.
    pub open spec fn elapsed_secs(self, earlier: Datetime) -> nat {
        if self.secs >= earlier.secs {
            (self.secs - earlier.secs) as nat
        } else {
            0
        }
    }

    /// Seconds carried over when the nanoseconds of `self` and `d` are summed.
    pub open spec fn carry(self, d: Duration) -> int {
        (self.nanos + d.nanos) / (NANOS_PER_SEC as int)
    }

    /// The instant `d` after `self` is still representable.
    pub open spec fn can_add(self, d: Duration) -> bool {
        self.secs + d.secs + self.carry(d) <= i64::MAX
    }

    /// The instant `d` after `self`; meaningful where `can_add` holds.
    pub open spec fn plus(self, d: Duration) -> Datetime {
        Datetime {
            secs: (self.secs + d.secs + self.carry(d)) as i64,
            nanos: ((self.nanos + d.nanos) % (NANOS_PER_SEC as int)) as u32,
        }
    }

    /// Whole seconds since the Unix epoch.
    pub fn timestamp(&self) -> (s: i64)
        ensures
            s == self.secs,
    {
        self.secs
    }

    /// Strict order of instants.
    pub fn is_before(&self, other: &Datetime) -> (b: bool)
        ensures
            b == self.before(*other),
    {
        self.secs < other.secs || (self.secs == other.secs && self.nanos < other.nanos)
    }

    /// Whole seconds elapsed since `earlier`, saturating at zero when
    /// `earlier` lies in the future.
    pub fn seconds_since(&self, earlier: &Datetime) -> (s: u64)
        ensures
            s == self.elapsed_secs(*earlier),
    {
        if self.secs >= earlier.secs {
            let wide: i128 = self.secs as i128 - earlier.secs as i128;
            wide as u64
        } else {
            0
        }
    }

    /// The last instant that can be represented: no instant lies after it.
    pub open spec fn last() -> Datetime {
        Datetime { secs: i64::MAX, nanos: u32::MAX }
    }

    /// The instant `d` after `self`, or the last instant where that one
    /// cannot be represented.
    pub open spec fn saturating_plus(self, d: Duration) -> Datetime {
        if self.can_add(d) {
            self.plus(d)
        } else {
            Datetime::last()
        }
    }

    /// Adds a duration; where the sum leaves the range of representable
    /// instants, the result is the last instant of that range.
    pub fn saturating_add(&self, d: &Duration) -> (r: Datetime)
        ensures
            r == self.saturating_plus(*d),
    {
        match self.checked_add(d) {
            Some(sum) => sum,
            None => Datetime { secs: i64::MAX, nanos: u32::MAX },
        }
    }

    /// Adds a duration, or returns `None` where the sum leaves the range of
    /// representable instants.
    pub fn checked_add(&self, d: &Duration) -> (r: Option<Datetime>)
        ensures
            r == (if self.can_add(*d) {
                Some(self.plus(*d))
            } else {
                None
            }),
    {
        let total: u64 = self.nanos as u64 + d.nanos as u64;
        let carry: u64 = total / NANOS_PER_SEC;
        let nanos: u32 = (total % NANOS_PER_SEC) as u32;
        let secs: i128 = self.secs as i128 + d.secs as i128 + carry as i128;
        if secs <= i64::MAX as i128 {
            Some(Datetime { secs: secs as i64, nanos })
        } else {
            None
        }
    }
}

} // verus!
