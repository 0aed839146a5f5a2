//! Wall-clock readings at one-minute granularity.

use vstd::prelude::*;
use chrono::{Datelike, Timelike};

verus! {

/// Day of the week.
#[derive(Clone, Copy, Debug, PartialEq, Eq, Structural)]
pub enum Weekday {
    Mon,
    Tue,
    Wed,
    Thu,
    Fri,
    Sat,
    Sun,
}

/// A wall-clock reading cut down to weekday, hour and minute.
#[derive(Clone, Copy, Debug, PartialEq, Eq, Structural)]
pub struct Moment {
    pub weekday: Weekday,
    pub hour: u32,
    pub minute: u32,
}

impl Moment {
    /// A reading is well formed when it names a minute of a day.
    pub open spec fn wf(self) -> bool {
        self.hour < 24 && self.minute < 60
    }

    /// Builds a reading, or `None` when hour or minute is out of range.
    pub fn new(weekday: Weekday, hour: u32, minute: u32) -> (r: Option<Moment>)
        ensures
            r == if hour < 24 && minute < 60 {
                Some(Moment { weekday, hour, minute })
            } else {
                None
            },
    {
        if hour < 24 && minute < 60 {
            Some(Moment { weekday, hour, minute })
        } else {
            None
        }
    }

    /// Whether two readings name the same minute of the week.
    pub fn same_minute(&self, other: &Moment) -> (r: bool)
        ensures
            r == (*self == *other),
    {
        self.weekday == other.weekday && self.hour == other.hour && self.minute == other.minute
    }
}

/// `chrono::Local::now`, cut down to weekday, hour and minute by chrono's
/// `weekday`, `hour` and `minute`: the hour is below 24 and the minute below
/// 60. Which reading comes back is the clock's affair.
#[verifier::external_body]
pub(crate) fn local_now() -> (r: Moment)
    ensures
        r.wf(),
{
    let now = chrono::Local::now();
    let weekday = match now.weekday() {
        chrono::Weekday::Mon => Weekday::Mon,
        chrono::Weekday::Tue => Weekday::Tue,
        chrono::Weekday::Wed => Weekday::Wed,
        chrono::Weekday::Thu => Weekday::Thu,
        chrono::Weekday::Fri => Weekday::Fri,
        chrono::Weekday::Sat => Weekday::Sat,
        chrono::Weekday::Sun => Weekday::Sun,
    };
    Moment { weekday, hour: now.hour(), minute: now.minute() }
}

} // verus!
