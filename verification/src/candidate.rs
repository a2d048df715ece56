//! Candidate date-times: the working value that a schedule advances.

use vstd::prelude::*;

verus! {

/// A date-time as plain numbers, whether or not that day exists in the calendar.
#[derive(Clone, Copy, Debug, PartialEq, Eq)]
pub struct CandidateDateTime {
    pub minute: u8,
    pub hour: u8,
    pub day: u8,
    pub month: u8,
    pub year: i32,
}

/// A candidate with a year that knows no bound.
pub struct Instant {
    pub year: int,
    pub month: u8,
    pub day: u8,
    pub hour: u8,
    pub minute: u8,
}

impl Instant {
    /// Each field but the year lies within its unit: the shape of a reading
    /// of the clock, whether or not the day exists.
    pub open spec fn within_units(self) -> bool {
        self.minute <= 59 && self.hour <= 23 && 1 <= self.day <= 31 && 1 <= self.month <= 12
    }

    /// `self` falls on an earlier calendar day than `other`; the time of day
    /// plays no part.
    pub open spec fn day_before(self, other: Instant) -> bool {
        self.year < other.year || (self.year == other.year && (self.month < other.month || (
        self.month == other.month && self.day < other.day)))
    }

    /// `self` comes strictly before `other` in full date-time order.
    pub open spec fn before(self, other: Instant) -> bool {
        self.day_before(other) || (self.year == other.year && self.month == other.month
            && self.day == other.day && (self.hour < other.hour || (self.hour == other.hour
            && self.minute < other.minute)))
    }
}

impl View for CandidateDateTime {
    type V = Instant;

    open spec fn view(&self) -> Instant {
        Instant {
            year: self.year as int,
            month: self.month,
            day: self.day,
            hour: self.hour,
            minute: self.minute,
        }
    }
}

impl CandidateDateTime {
    /// Whether this candidate's calendar day comes before that of `other`.
    pub fn is_day_before(&self, other: &CandidateDateTime) -> (earlier: bool)
        ensures
            earlier == self@.day_before(other@),
    {
        self.year < other.year || (self.year == other.year && (self.month < other.month || (
        self.month == other.month && self.day < other.day)))
    }
}

} // verus!
