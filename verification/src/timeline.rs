//! Time stamps that feed an indicator: the instant a series starts from, the
//! window the indicator looks back over, and the offset of each element.
//! Instants are whole seconds since the Unix epoch, durations whole seconds.

use chrono::TimeZone;
use vstd::prelude::*;

verus! {

/// The largest number of whole seconds that a `chrono::TimeDelta` can hold
/// either way: `i64::MAX` milliseconds, rounded down to seconds.
pub const MAX_DELTA_SECS: i64 = 9_223_372_036_854_775;

/// Seconds in a day.
pub const SECS_PER_DAY: i64 = 86_400;

/// A number of seconds is a representable duration.
pub open spec fn delta_in_range(secs: int) -> bool {
    -MAX_DELTA_SECS <= secs <= MAX_DELTA_SECS
}

/// The length in seconds of a number of days, or `None` where that length is
/// no representable duration (where `chrono::TimeDelta::days` panics).
pub fn days_to_seconds(days: i64) -> (r: Option<i64>)
    ensures
        r is Some <==> delta_in_range(days * SECS_PER_DAY),
        r matches Some(s) ==> s == days * SECS_PER_DAY,
{
    let bound: i64 = MAX_DELTA_SECS / SECS_PER_DAY;
    if -bound <= days && days <= bound {
        assert(-MAX_DELTA_SECS <= days * SECS_PER_DAY <= MAX_DELTA_SECS) by (nonlinear_arith)
            requires
                -bound <= days <= bound,
                bound == MAX_DELTA_SECS / SECS_PER_DAY,
        ;
        Some(days * SECS_PER_DAY)
    } else {
        assert(!delta_in_range(days * SECS_PER_DAY)) by (nonlinear_arith)
            requires
                days < -bound || days > bound,
                bound == MAX_DELTA_SECS / SECS_PER_DAY,
        ;
        None
    }
}

/// Years in this range are leap years in the proleptic Gregorian calendar.
pub open spec fn is_leap_year(year: int) -> bool {
    (year % 4 == 0 && year % 100 != 0) || year % 400 == 0
}

/// The number of days of a month (1 to 12) of a year.
pub open spec fn days_in_month(year: int, month: int) -> int {
    if month == 2 {
        if is_leap_year(year) { 29 } else { 28 }
    } else if month == 4 || month == 6 || month == 9 || month == 11 {
        30
    } else {
        31
    }
}

/// A date and time of day that exists in the years 1 to 9999 of the proleptic
/// Gregorian calendar, with no leap second.
pub open spec fn is_valid_civil(year: i32, month: u32, day: u32, hour: u32, minute: u32, second: u32) -> bool {
    &&& 1 <= year <= 9999
    &&& 1 <= month <= 12
    &&& 1 <= day <= days_in_month(year as int, month as int)
    &&& hour < 24
    &&& minute < 60
    &&& second < 60
}

/// The number of leap years among the years 1 to `year` (counting backwards
/// from 0 for years before 1).
pub open spec fn leap_years_through(year: int) -> int {
    year / 4 - year / 100 + year / 400
}

/// The number of days of a year before the first day of a month (1 to 12).
pub open spec fn days_before_month(year: int, month: int) -> int {
    let common: int = if month == 1 {
        0
    } else if month == 2 {
        31
    } else if month == 3 {
        59
    } else if month == 4 {
        90
    } else if month == 5 {
        120
    } else if month == 6 {
        151
    } else if month == 7 {
        181
    } else if month == 8 {
        212
    } else if month == 9 {
        243
    } else if month == 10 {
        273
    } else if month == 11 {
        304
    } else {
        334
    };
    if month > 2 && is_leap_year(year) {
        common + 1
    } else {
        common
    }
}

/// The number of days from 1970-01-01 to a date of the proleptic Gregorian
/// calendar.
pub open spec fn days_since_epoch(year: int, month: int, day: int) -> int {
    365 * (year - 1970) + (leap_years_through(year - 1) - leap_years_through(1969))
        + days_before_month(year, month) + day - 1
}

/// The Unix time in seconds of a UTC date and time of day: the seconds since
/// 1970-01-01 00:00:00 UTC, leap seconds not counted.
pub open spec fn civil_unix_seconds(year: int, month: int, day: int, hour: int, minute: int, second: int) -> int {
    days_since_epoch(year, month, day) * SECS_PER_DAY + hour * 3600 + minute * 60 + second
}

/// Calls `chrono::Utc.with_ymd_and_hms(..)`, keeps the instant where there is
/// exactly one, and gives its `timestamp()`. Claimed, from chrono's
/// documentation: for a date and time that `is_valid_civil` admits the result
/// is its Unix time (`timestamp()` counts the non-leap seconds since
/// 1970-01-01 00:00:00 UTC, and UTC gives every local time exactly one
/// instant); for a month, day, hour, minute or second that does not exist the
/// result is `None`. For years outside 1 to 9999 nothing is claimed.
#[verifier::external_body]
pub(crate) fn utc_seconds_of(year: i32, month: u32, day: u32, hour: u32, minute: u32, second: u32) -> (r: Option<i64>)
    ensures
        is_valid_civil(year, month, day, hour, minute, second) ==> r == Some(
            civil_unix_seconds(
                year as int,
                month as int,
                day as int,
                hour as int,
                minute as int,
                second as int,
            ) as i64,
        ),
        !(1 <= month <= 12 && 1 <= day <= days_in_month(year as int, month as int) && hour < 24
            && minute < 60 && second < 60) ==> r is None,
{
    match chrono::Utc.with_ymd_and_hms(year, month, day, hour, minute, second).single() {
        Some(t) => Some(t.timestamp()),
        None => None,
    }
}

/// The instant a series of time stamps starts from.
#[derive(Clone, Copy, Debug, PartialEq, Eq, Structural)]
pub enum Origin {
    /// The time at which the request is handled.
    Now,
    /// A fixed instant, in seconds since the Unix epoch.
    At(i64),
}

/// How the time stamps of a series are laid out: element `i` stands at
/// `origin + offset_secs + index(i) * step_secs` seconds, where `index(i)`
/// is `i`, or `i` cut to an `i32` where `index_wraps_i32` is set; the
/// indicator looks back over `window_secs` seconds.
#[derive(Clone, Copy, Debug, PartialEq, Eq, Structural)]
pub struct Schedule {
    pub window_secs: i64,
    pub origin: Origin,
    pub offset_secs: i64,
    pub step_secs: i64,
    pub index_wraps_i32: bool,
}

impl Schedule {
    /// The step count of element `i`.
    pub open spec fn index_of(self, i: int) -> int {
        if self.index_wraps_i32 {
            (i as i32) as int
        } else {
            i
        }
    }

    /// The offset in seconds from the origin of element `i`.
    pub open spec fn spec_offset(self, i: int) -> int {
        self.offset_secs + self.index_of(i) * self.step_secs
    }

    /// The offsets of the first `len` elements are all representable durations.
    pub open spec fn offsets_fit(self, len: int) -> bool {
        forall|i: int| 0 <= i < len ==> delta_in_range(#[trigger] self.spec_offset(i))
    }

    /// The offset of element `i`, or `None` where it is no representable
    /// duration.
    pub fn offset_at(&self, i: usize) -> (r: Option<i64>)
        ensures
            r is Some <==> delta_in_range(self.spec_offset(i as int)),
            r matches Some(s) ==> s == self.spec_offset(i as int),
    {
        let idx: i128 = if self.index_wraps_i32 {
            (#[verifier::truncate] (i as i32)) as i128
        } else {
            i as i128
        };
        assert(idx == self.index_of(i as int));
        let step: i128 = self.step_secs as i128;
        assert(-0x7FFF_FFFF_FFFF_FFFF_8000_0000_0000_0000 <= idx * step
            <= 0x7FFF_FFFF_FFFF_FFFF_8000_0000_0000_0000) by (nonlinear_arith)
            requires
                -0xFFFF_FFFF_FFFF_FFFF <= idx <= 0xFFFF_FFFF_FFFF_FFFF,
                -0x8000_0000_0000_0000 <= step <= 0x8000_0000_0000_0000,
        ;
        let off: i128 = self.offset_secs as i128 + idx * step;
        if -(MAX_DELTA_SECS as i128) <= off && off <= MAX_DELTA_SECS as i128 {
            Some(off as i64)
        } else {
            None
        }
    }

    /// The offsets of the first `len` elements, or `None` where one of them is
    /// no representable duration.
    pub fn offsets(&self, len: usize) -> (r: Option<Vec<i64>>)
        ensures
            r is Some <==> self.offsets_fit(len as int),
            r matches Some(v) ==> v@.len() == len && forall|i: int|
                0 <= i < len ==> #[trigger] v@[i] == self.spec_offset(i),
    {
        let mut v: Vec<i64> = Vec::new();
        let mut i: usize = 0;
        while i < len
            invariant
                i <= len,
                v@.len() == i,
                forall|j: int| 0 <= j < i ==> #[trigger] v@[j] == self.spec_offset(j),
                self.offsets_fit(i as int),
            decreases len - i,
        {
            match self.offset_at(i) {
                Some(s) => {
                    v.push(s);
                    i = i + 1;
                },
                None => {
                    return None;
                },
            }
        }
        Some(v)
    }
}

} // verus!
