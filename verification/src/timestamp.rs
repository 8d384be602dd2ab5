//! Wall-clock timestamps, read once per uploaded part and rendered into the
//! storage key.

use vstd::prelude::*;
use chrono::Datelike;
use chrono::Timelike;

verus! {

/// A raw clock reading, split into calendar fields. The year is kept at the
/// clock's full width; `Timestamp::from_clock` narrows it.
pub struct ClockReading {
    pub year: i32,
    pub month: u32,
    pub day: u32,
    pub hour: u32,
    pub minute: u32,
    pub second: u32,
}

/// The fields a clock reading must satisfy before it fits a `Timestamp`:
/// calendar ranges, and a year that fits four digits.
pub open spec fn clock_in_range(c: ClockReading) -> bool {
    &&& 0 <= c.year <= 9999
    &&& 1 <= c.month <= 12
    &&& 1 <= c.day <= 31
    &&& c.hour <= 23
    &&& c.minute <= 59
    &&& c.second <= 59
}

/// An instant of wall-clock time, narrowed so that every field fits the
/// fixed-width `DDMMYYYYHHMMSS` rendering of a storage key.
#[derive(Clone, Copy, PartialEq, Eq, Structural, Debug)]
pub struct Timestamp {
    pub year: u16,
    pub month: u8,
    pub day: u8,
    pub hour: u8,
    pub minute: u8,
    pub second: u8,
}

impl Timestamp {
    /// Calendar ranges, and a year of at most four digits.
    pub open spec fn wf(self) -> bool {
        &&& self.year <= 9999
        &&& 1 <= self.month <= 12
        &&& 1 <= self.day <= 31
        &&& self.hour <= 23
        &&& self.minute <= 59
        &&& self.second <= 59
    }

    /// Narrows a raw clock reading. Returns `None` exactly when the reading
    /// lies outside the calendar ranges or the year does not fit four digits.
    pub fn from_clock(c: &ClockReading) -> (r: Option<Timestamp>)
        ensures
            r.is_some() == clock_in_range(*c),
            r matches Some(t) ==> {
                &&& t.wf()
                &&& t.year as int == c.year as int
                &&& t.month as int == c.month as int
                &&& t.day as int == c.day as int
                &&& t.hour as int == c.hour as int
                &&& t.minute as int == c.minute as int
                &&& t.second as int == c.second as int
            },
    {
        if c.year < 0 || c.year > 9999 {
            return None;
        }
        if c.month < 1 || c.month > 12 {
            return None;
        }
        if c.day < 1 || c.day > 31 {
            return None;
        }
        if c.hour > 23 || c.minute > 59 || c.second > 59 {
            return None;
        }
        Some(Timestamp {
            year: c.year as u16,
            month: c.month as u8,
            day: c.day as u8,
            hour: c.hour as u8,
            minute: c.minute as u8,
            second: c.second as u8,
        })
    }
}

/// Relies on `chrono::Utc::now` and the `Datelike` / `Timelike` accessors:
/// `month()` returns 1..=12, `day()` 1..=31, `hour()` 0..=23, `minute()` and
/// `second()` 0..=59. The year carries no documented bound and none is
/// claimed of it.
#[verifier::external_body]
fn clock_now() -> (r: ClockReading)
    ensures
        1 <= r.month <= 12,
        1 <= r.day <= 31,
        r.hour <= 23,
        r.minute <= 59,
        r.second <= 59,
{
    let t = chrono::Utc::now();
    ClockReading {
        year: t.year(),
        month: t.month(),
        day: t.day(),
        hour: t.hour(),
        minute: t.minute(),
        second: t.second(),
    }
}

/// Reads the clock and narrows it. Whatever instant the clock reports, any
/// timestamp handed out is well formed; `None` can arise only from a year
/// that does not fit four digits.
pub fn current_timestamp() -> (r: Option<Timestamp>)
    ensures
        r matches Some(t) ==> t.wf(),
{
    let c = clock_now();
    Timestamp::from_clock(&c)
}

} // verus!
