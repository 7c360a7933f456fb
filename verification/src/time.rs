//! Calendar timestamps with second precision, and the local clock they are
//! read from.

use chrono::{Datelike, Timelike};
use vstd::prelude::*;

verus! {

/// A date and a time of day on the local calendar, to the second. No time
/// zone is kept: the offset in force when the clock was read is not recorded.
#[derive(Clone, Copy, Debug, PartialEq, Eq, Structural)]
pub struct Time {
    pub seconds: u32,
    pub minutes: u32,
    pub hours: u32,
    pub days: u32,
    pub months: u32,
    pub years: u32,
}

/// The six calendar fields as the local clock hands them out, the year still
/// signed.
#[derive(Clone, Copy, Debug)]
pub struct ClockReading {
    pub second: u32,
    pub minute: u32,
    pub hour: u32,
    pub day: u32,
    pub month: u32,
    pub year: i32,
}

impl ClockReading {
    /// Every field but the year lies in its calendar range.
    pub open spec fn in_calendar(self) -> bool {
        &&& self.second <= 59
        &&& self.minute <= 59
        &&& self.hour <= 23
        &&& 1 <= self.day <= 31
        &&& 1 <= self.month <= 12
    }
}

/// A year of the common era as an unsigned number: years before year 0 count
/// as 0.
pub open spec fn clamp_year(year: int) -> int {
    if year < 0 {
        0
    } else {
        year
    }
}

impl Time {
    /// Seconds and minutes in 0..=59, hours in 0..=23, day of month in 1..=31,
    /// month in 1..=12. The year is free.
    pub open spec fn is_valid(self) -> bool {
        &&& self.seconds <= 59
        &&& self.minutes <= 59
        &&& self.hours <= 23
        &&& 1 <= self.days <= 31
        &&& 1 <= self.months <= 12
    }

    /// The timestamp that a clock reading stands for.
    pub open spec fn of_reading(r: ClockReading) -> Time {
        Time {
            seconds: r.second,
            minutes: r.minute,
            hours: r.hour,
            days: r.day,
            months: r.month,
            years: clamp_year(r.year as int) as u32,
        }
    }

    /// Turns a clock reading into a timestamp. The five bounded fields are
    /// taken over as they are; a negative year becomes 0.
    pub fn from_reading(r: ClockReading) -> (t: Time)
        ensures
            t == Time::of_reading(r),
            r.in_calendar() ==> t.is_valid(),
    {
        let years: u32 = if r.year < 0 {
            0
        } else {
            r.year as u32
        };
        Time {
            seconds: r.second,
            minutes: r.minute,
            hours: r.hour,
            days: r.day,
            months: r.month,
            years,
        }
    }

    /// The current local date and time.
    ///
    /// Which instant comes back is up to the clock; whatever it is, its fields
    /// lie in their calendar ranges.
    pub fn now() -> (t: Time)
        ensures
            t.is_valid(),
    {
        Time::from_reading(read_local_clock())
    }
}

/// Reads the system clock through `chrono::Local::now` and takes the result
/// apart with `date_naive` and the `Timelike` and `Datelike` accessors
/// `second`, `minute`, `hour`, `day`, `month` and `year`.
///
/// Trusted: chrono documents `second` and `minute` as 0 to 59 (a leap second
/// is carried in the nanoseconds, never as second 60), `hour` as 0 to 23,
/// `day` as 1 to 31 and `month` as 1 to 12. Nothing is claimed of the year.
/// chrono panics where the system clock stands before the Unix epoch or the
/// local date falls outside its representable range.
#[verifier::external_body]
fn read_local_clock() -> (r: ClockReading)
    ensures
        r.in_calendar(),
{
    let now = chrono::Local::now();
    let today = now.date_naive();
    ClockReading {
        second: now.second(),
        minute: now.minute(),
        hour: now.hour(),
        day: today.day(),
        month: today.month(),
        year: today.year(),
    }
}

} // verus!
