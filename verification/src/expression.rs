//! Expressions: the description of a schedule, and its seeding at a moment.

use vstd::prelude::*;
use crate::candidate::{CandidateDateTime, Instant};
use crate::field::Field;
use crate::schedule::{Schedule, ScheduleView};
use crate::ticker::{range_cursor, Cursor, Increment, RangeTicker};
use crate::weekday::Weekday;

verus! {

/// A cron-like expression. A field left out takes every value of its unit:
/// minutes 0 to 59, hours 0 to 23, days of the month 1 to 31, months 1 to 12.
pub struct Expression {
    pub minute: Option<Field<u8>>,
    pub hour: Option<Field<u8>>,
    pub dom: Option<Field<u8>>,
    pub month: Option<Field<u8>>,
    pub dow: Option<Weekday>,
}

/// The value that a candidate's field starts from: the seed of the field's
/// specification, or the value of the moment `now` where there is none.
pub open spec fn seed_value(field: Option<Field<u8>>, now: u8) -> u8 {
    match field {
        Some(field) => field.values()[0],
        None => now,
    }
}

/// The cursor that a field's ticker starts with: that of the specification,
/// or the cursor over the whole unit `min..=max` that stands at `now`.
pub open spec fn seed_cursor(field: Option<Field<u8>>, min: u8, max: u8, now: u8) -> Cursor {
    match field {
        Some(field) => field.cursor(),
        None => range_cursor(min, max, now as int),
    }
}

fn listed(field: &Option<Field<u8>>) -> (ok: bool)
    ensures
        ok == (field matches Some(field) ==> field.wf()),
{
    match field {
        Some(field) => field.has_values(),
        None => true,
    }
}

fn seed_of(field: &Option<Field<u8>>, now: u8) -> (value: u8)
    requires
        field matches Some(field) ==> field.wf(),
    ensures
        value == seed_value(*field, now),
{
    match field {
        Some(field) => field.seed(),
        None => now,
    }
}

fn ticker_of(field: Option<Field<u8>>, min: u8, max: u8, now: u8) -> (ticker: Increment)
    requires
        field matches Some(field) ==> field.wf(),
    ensures
        ticker@ == seed_cursor(field, min, max, now),
{
    match field {
        Some(field) => field.into_increment(),
        None => Increment::Range(RangeTicker::with_current(min, max, now)),
    }
}

impl Expression {
    /// Every list among the four fields holds at least one value.
    pub open spec fn wf(&self) -> bool {
        &&& self.minute matches Some(field) ==> field.wf()
        &&& self.hour matches Some(field) ==> field.wf()
        &&& self.dom matches Some(field) ==> field.wf()
        &&& self.month matches Some(field) ==> field.wf()
    }

    /// The specification of a field: 0 is the minute, 1 the hour, 2 the day
    /// of the month, 3 the month.
    pub open spec fn field_at(&self, level: int) -> Option<Field<u8>> {
        if level == 0 {
            self.minute
        } else if level == 1 {
            self.hour
        } else if level == 2 {
            self.dom
        } else {
            self.month
        }
    }

    /// Every list among the four fields is in strictly increasing order.
    pub open spec fn ascending(&self) -> bool {
        forall|level: int|
            0 <= level <= 3 ==> (#[trigger] self.field_at(level) matches Some(
                Field::Multiple(set),
            ) ==> (forall|i: int, j: int| 0 <= i < j < set@.len() ==> set@[i] < set@[j]))
    }

    /// The schedule that the expression gives at the moment `now`.
    pub open spec fn seeded(&self, now: CandidateDateTime) -> ScheduleView {
        ScheduleView {
            current: Instant {
                year: now.year as int,
                month: seed_value(self.month, now.month),
                day: seed_value(self.dom, now.day),
                hour: seed_value(self.hour, now.hour),
                minute: seed_value(self.minute, now.minute),
            },
            minute: seed_cursor(self.minute, 0, 59, now.minute),
            hour: seed_cursor(self.hour, 0, 23, now.hour),
            dom: seed_cursor(self.dom, 1, 31, now.day),
            month: seed_cursor(self.month, 1, 12, now.month),
            dow: self.dow,
        }
    }

    /// Whether the expression can be seeded: whether `wf` holds.
    pub fn has_values(&self) -> (ok: bool)
        ensures
            ok == self.wf(),
    {
        listed(&self.minute) && listed(&self.hour) && listed(&self.dom) && listed(&self.month)
    }

    /// Turns the expression into a schedule seeded at the moment `now`. A
    /// field with a specification starts from its seed; a field without one
    /// starts from the value of `now`, and so does its ticker. The year is
    /// that of `now`.
    pub fn into_schedule(self, now: CandidateDateTime) -> (schedule: Schedule)
        requires
            self.wf(),
        ensures
            schedule@ == self.seeded(now),
    {
        let current = CandidateDateTime {
            minute: seed_of(&self.minute, now.minute),
            hour: seed_of(&self.hour, now.hour),
            day: seed_of(&self.dom, now.day),
            month: seed_of(&self.month, now.month),
            year: now.year,
        };
        let increment_minute = ticker_of(self.minute, 0, 59, now.minute);
        let increment_hour = ticker_of(self.hour, 0, 23, now.hour);
        let increment_dom = ticker_of(self.dom, 1, 31, now.day);
        let increment_month = ticker_of(self.month, 1, 12, now.month);
        Schedule::new(
            current,
            increment_minute,
            increment_hour,
            increment_dom,
            increment_month,
            self.dow,
        )
    }
}

} // verus!
