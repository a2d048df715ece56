//! Schedules: one ticker for each field, the candidate that they advance, and
//! the search for the next candidate that is a day of the calendar.

use vstd::prelude::*;
use crate::calendar::{is_calendar_date, weekday_from_sunday, weekday_of};
use crate::candidate::{CandidateDateTime, Instant};
use crate::ticker::{Cursor, Increment};
use crate::weekday::Weekday;

verus! {

/// What a schedule is, mathematically: the candidate, the cursor of each
/// field's ticker, and the day-of-week constraint.
pub struct ScheduleView {
    pub current: Instant,
    pub minute: Cursor,
    pub hour: Cursor,
    pub dom: Cursor,
    pub month: Cursor,
    pub dow: Option<Weekday>,
}

impl ScheduleView {
    /// Every ticker has a value to hand out.
    pub open spec fn wf(self) -> bool {
        self.minute.wf() && self.hour.wf() && self.dom.wf() && self.month.wf()
    }

    /// The cursor of a field: 0 is the minute, 1 the hour, 2 the day of the
    /// month, 3 the month.
    pub open spec fn cursor_at(self, level: int) -> Cursor {
        if level == 0 {
            self.minute
        } else if level == 1 {
            self.hour
        } else if level == 2 {
            self.dom
        } else {
            self.month
        }
    }

    /// The candidate's value of a field, numbered as in `cursor_at`.
    pub open spec fn value_at(self, level: int) -> u8 {
        if level == 0 {
            self.current.minute
        } else if level == 1 {
            self.current.hour
        } else if level == 2 {
            self.current.day
        } else {
            self.current.month
        }
    }

    /// The fields below `level` are all about to wrap, so that the next
    /// increment reaches `level`.
    pub open spec fn carries_into(self, level: int) -> bool {
        forall|below: int| 0 <= below < level ==> (#[trigger] self.cursor_at(below)).exhausted()
    }

    /// The candidate's value of a field is either the value that the field's
    /// ticker handed out last, or the value that it will hand out first.
    pub open spec fn settled_at(self, level: int) -> bool {
        let cursor = self.cursor_at(level);
        let value = self.value_at(level);
        cursor.wf() && (cursor.handed(value) || cursor.offers(value))
    }

    /// Every field is settled.
    pub open spec fn settled(self) -> bool {
        forall|level: int| 0 <= level <= 3 ==> #[trigger] self.settled_at(level)
    }

    /// The field at which the next increment stops: the smallest one that is
    /// not about to wrap, or 4, which stands for the year.
    pub open spec fn stops_at(self) -> int {
        if !self.minute.exhausted() {
            0
        } else if !self.hour.exhausted() {
            1
        } else if !self.dom.exhausted() {
            2
        } else if !self.month.exhausted() {
            3
        } else {
            4
        }
    }

    /// Whether the field at `level` is in step with its ticker: the year,
    /// which has no ticker, always is.
    pub open spec fn in_step_at(self, level: int) -> bool {
        level == 4 || self.cursor_at(level).handed(self.value_at(level))
    }

    /// The number of fields that are not in step with their tickers.
    pub open spec fn out_of_step(self) -> nat {
        let count = |level: int| if self.in_step_at(level) { 0nat } else { 1nat };
        count(0) + count(1) + count(2) + count(3)
    }

    /// Each field of the candidate is the value that its ticker handed out
    /// last: every ticker has been called since the schedule was seeded, or
    /// was seeded as if it had been.
    pub open spec fn synced(self) -> bool {
        forall|level: int| 0 <= level <= 3 ==> #[trigger] self.in_step_at(level)
    }

    /// Every ticker hands its values out in increasing order.
    pub open spec fn ascending(self) -> bool {
        &&& self.minute.ascending()
        &&& self.hour.ascending()
        &&& self.dom.ascending()
        &&& self.month.ascending()
    }

    /// The minute ticker is called and its value stored.
    pub open spec fn tick_minute(self) -> ScheduleView {
        ScheduleView {
            current: Instant { minute: self.minute.upcoming(), ..self.current },
            minute: self.minute.advanced(),
            ..self
        }
    }

    /// The hour ticker is called and its value stored.
    pub open spec fn tick_hour(self) -> ScheduleView {
        ScheduleView {
            current: Instant { hour: self.hour.upcoming(), ..self.current },
            hour: self.hour.advanced(),
            ..self
        }
    }

    /// The day-of-month ticker is called and its value stored.
    pub open spec fn tick_dom(self) -> ScheduleView {
        ScheduleView {
            current: Instant { day: self.dom.upcoming(), ..self.current },
            dom: self.dom.advanced(),
            ..self
        }
    }

    /// The month ticker is called and its value stored.
    pub open spec fn tick_month(self) -> ScheduleView {
        ScheduleView {
            current: Instant { month: self.month.upcoming(), ..self.current },
            month: self.month.advanced(),
            ..self
        }
    }

    /// The year advances by one.
    pub open spec fn tick_year(self) -> ScheduleView {
        ScheduleView { current: Instant { year: self.current.year + 1, ..self.current }, ..self }
    }

    /// One ripple-carry increment: the minute ticks, and each larger field
    /// ticks as long as the one below it carried; a carry out of the month
    /// advances the year.
    pub open spec fn ripple(self) -> ScheduleView {
        if !self.minute.exhausted() {
            self.tick_minute()
        } else if !self.hour.exhausted() {
            self.tick_minute().tick_hour()
        } else if !self.dom.exhausted() {
            self.tick_minute().tick_hour().tick_dom()
        } else if !self.month.exhausted() {
            self.tick_minute().tick_hour().tick_dom().tick_month()
        } else {
            self.tick_minute().tick_hour().tick_dom().tick_month().tick_year()
        }
    }

    /// The schedule after `n` increments.
    pub open spec fn ticked(self, n: nat) -> ScheduleView
        decreases n,
    {
        if n == 0 {
            self
        } else {
            self.ticked((n - 1) as nat).ripple()
        }
    }

    /// The number of times that the field at `level` steps in the course of
    /// `n` increments.
    pub open spec fn steps_at(self, level: int, n: nat) -> nat
        decreases n,
    {
        if n == 0 {
            0
        } else if self.ticked((n - 1) as nat).carries_into(level) {
            self.steps_at(level, (n - 1) as nat) + 1
        } else {
            self.steps_at(level, (n - 1) as nat)
        }
    }

    /// The acceptance test: the candidate's day exists, does not come before
    /// the day of `today`, and satisfies the day-of-week constraint if there
    /// is one. The time of day of `today` plays no part.
    pub open spec fn acceptable(self, today: Instant) -> bool {
        let c = self.current;
        &&& is_calendar_date(c.year, c.month as int, c.day as int)
        &&& !c.day_before(today)
        &&& self.dow matches Some(dow) ==> dow.allows(
            weekday_from_sunday(c.year, c.month as int, c.day as int),
            c.day,
        )
    }

    /// The search stops with an occurrence after exactly `n` increments: the
    /// `n`-th candidate is the first acceptable one, and the year stayed below
    /// `horizon` before each increment.
    pub open spec fn found_at(self, today: Instant, horizon: int, n: nat) -> bool {
        &&& n >= 1
        &&& self.ticked(n).acceptable(today)
        &&& forall|j: nat| j < n ==> (#[trigger] self.ticked(j)).current.year < horizon
        &&& forall|j: nat| 1 <= j < n ==> !(#[trigger] self.ticked(j)).acceptable(today)
    }

    /// The search gives up after exactly `n` increments: none of the `n`
    /// candidates was acceptable, and the year has now reached `horizon`.
    pub open spec fn gave_up_at(self, today: Instant, horizon: int, n: nat) -> bool {
        &&& self.ticked(n).current.year >= horizon
        &&& forall|j: nat| j < n ==> (#[trigger] self.ticked(j)).current.year < horizon
        &&& forall|j: nat| 1 <= j <= n ==> !(#[trigger] self.ticked(j)).acceptable(today)
    }
}

/// A running schedule. Each call of `next` resumes from the candidate that
/// the call before it left.
pub struct Schedule {
    current: CandidateDateTime,
    increment_minute: Increment,
    increment_hour: Increment,
    increment_dom: Increment,
    increment_month: Increment,
    dow: Option<Weekday>,
}

impl View for Schedule {
    type V = ScheduleView;

    closed spec fn view(&self) -> ScheduleView {
        ScheduleView {
            current: self.current@,
            minute: self.increment_minute@,
            hour: self.increment_hour@,
            dom: self.increment_dom@,
            month: self.increment_month@,
            dow: self.dow,
        }
    }
}

impl Schedule {
    /// A schedule that starts from `current` with the given tickers.
    pub fn new(
        current: CandidateDateTime,
        increment_minute: Increment,
        increment_hour: Increment,
        increment_dom: Increment,
        increment_month: Increment,
        dow: Option<Weekday>,
    ) -> (schedule: Schedule)
        ensures
            schedule@ == (ScheduleView {
                current: current@,
                minute: increment_minute@,
                hour: increment_hour@,
                dom: increment_dom@,
                month: increment_month@,
                dow: dow,
            }),
    {
        Schedule { current, increment_minute, increment_hour, increment_dom, increment_month, dow }
    }

    /// Advances the minute; the result says whether the hour must advance too.
    pub fn increment_minute(&mut self) -> (must_increment: bool)
        ensures
            final(self)@ == old(self)@.tick_minute(),
            must_increment == old(self)@.minute.exhausted(),
    {
        let (next, must_increment) = self.increment_minute.next();
        self.current.minute = next;
        must_increment
    }

    /// Advances the hour; the result says whether the day must advance too.
    pub fn increment_hour(&mut self) -> (must_increment: bool)
        ensures
            final(self)@ == old(self)@.tick_hour(),
            must_increment == old(self)@.hour.exhausted(),
    {
        let (next, must_increment) = self.increment_hour.next();
        self.current.hour = next;
        must_increment
    }

    /// Advances the day of the month; the result says whether the month must
    /// advance too.
    pub fn increment_dom(&mut self) -> (must_increment: bool)
        ensures
            final(self)@ == old(self)@.tick_dom(),
            must_increment == old(self)@.dom.exhausted(),
    {
        let (next, must_increment) = self.increment_dom.next();
        self.current.day = next;
        must_increment
    }

    /// Advances the month; the result says whether the year must advance too.
    pub fn increment_month(&mut self) -> (must_increment: bool)
        ensures
            final(self)@ == old(self)@.tick_month(),
            must_increment == old(self)@.month.exhausted(),
    {
        let (next, must_increment) = self.increment_month.next();
        self.current.month = next;
        must_increment
    }

    /// One ripple-carry increment of the candidate.
    pub fn increment_date(&mut self)
        requires
            old(self)@.current.year < i32::MAX,
        ensures
            final(self)@ == old(self)@.ripple(),
    {
        if !self.increment_minute() {
            return;
        }
        if !self.increment_hour() {
            return;
        }
        if !self.increment_dom() {
            return;
        }
        if !self.increment_month() {
            return;
        }
        self.current.year += 1;
    }

    /// Whether a day that falls on `day_of_week` and is the `day`-th of its
    /// month satisfies the day-of-week constraint; a schedule without one is
    /// satisfied by every day.
    pub fn is_valid_weekday(&self, day_of_week: u8, day: u8) -> (ok: bool)
        ensures
            ok == (self@.dow matches Some(dow) ==> dow.allows(day_of_week, day)),
    {
        match &self.dow {
            Some(dow) => dow.is_valid(day_of_week, day),
            None => true,
        }
    }

    /// The acceptance test on the current candidate, given what the calendar
    /// said of its day: `None` if there is no such day, else the day of the
    /// week on which it falls. An existing day is accepted unless it comes
    /// before the day of `today` or fails the day-of-week constraint.
    pub fn accepts(&self, looked_up: Option<u8>, today: &CandidateDateTime) -> (ok: bool)
        ensures
            ok == (looked_up matches Some(day_of_week) && !self@.current.day_before(today@) && (
            self@.dow matches Some(dow) ==> dow.allows(day_of_week, self@.current.day))),
    {
        match looked_up {
            Some(day_of_week) => !self.current.is_day_before(today) && self.is_valid_weekday(
                day_of_week,
                self.current.day,
            ),
            None => false,
        }
    }

    /// The next occurrence: increments the candidate until it is acceptable
    /// and returns it, or gives up with `None` once the candidate's year has
    /// reached `horizon`. The schedule stays where the search stopped, so that
    /// the next call goes on from there.
    ///
    /// Only the calendar day of `today` is read: an occurrence on that day is
    /// returned even at a time of day that `today` has passed.
    pub fn next(&mut self, today: &CandidateDateTime, horizon: i32) -> (found: Option<
        CandidateDateTime,
    >)
        ensures
            match found {
                Some(occurrence) => exists|n: nat|
                    {
                        &&& #[trigger] old(self)@.found_at(today@, horizon as int, n)
                        &&& final(self)@ == old(self)@.ticked(n)
                        &&& occurrence@ == final(self)@.current
                    },
                None => exists|n: nat|
                    {
                        &&& #[trigger] old(self)@.gave_up_at(today@, horizon as int, n)
                        &&& final(self)@ == old(self)@.ticked(n)
                    },
            },
            found matches Some(occurrence) ==> {
                &&& is_calendar_date(
                    occurrence@.year,
                    occurrence@.month as int,
                    occurrence@.day as int,
                )
                &&& !occurrence@.day_before(today@)
                &&& occurrence@.year <= horizon
                &&& old(self)@.dow matches Some(dow) ==> dow.allows(
                    weekday_from_sunday(
                        occurrence@.year,
                        occurrence@.month as int,
                        occurrence@.day as int,
                    ),
                    occurrence@.day,
                )
            },
            found is None ==> final(self)@.current.year >= horizon,
            final(self)@.dow == old(self)@.dow,
    {
        let ghost start = self@;
        let ghost mut n: nat = 0;
        loop
            invariant
                start == old(self)@,
                self@ == start.ticked(n),
                self@.dow == start.dow,
                forall|j: nat| j < n ==> (#[trigger] start.ticked(j)).current.year < horizon,
                forall|j: nat| 1 <= j <= n ==> !(#[trigger] start.ticked(j)).acceptable(today@),
            decreases
                    horizon - self@.current.year,
                    self@.month.remaining(),
                    self@.dom.remaining(),
                    self@.hour.remaining(),
                    self@.minute.remaining(),
        {
            if self.current.year >= horizon {
                assert(start.gave_up_at(today@, horizon as int, n));
                return None;
            }
            self.increment_date();
            proof {
                n = n + 1;
            }
            let looked_up = weekday_of(self.current.year, self.current.month, self.current.day);
            if self.accepts(looked_up, today) {
                assert(start.found_at(today@, horizon as int, n));
                return Some(self.current);
            }
        }
    }

    /// The candidate as the last increment left it.
    pub fn current(&self) -> (candidate: CandidateDateTime)
        ensures
            candidate@ == self@.current,
    {
        self.current
    }
}

} // verus!
