//! The day-of-week constraint of a schedule.

use vstd::prelude::*;
use crate::field::Field;

verus! {

/// Narrows a weekday to its occurrence within the month, counted from 1.
pub struct Nth(pub u8);

/// The days of the week on which a schedule may fall, Sunday being 0 and
/// Saturday 6, and optionally which of them within the month.
pub struct Weekday {
    pub field: Field<u8>,
    pub nth: Option<Nth>,
}

/// The week of the month in which a day lies: days 1 to 7 lie in week 1,
/// days 8 to 14 in week 2, and so on. The day of the month `d` is the
/// `week_of_month(d)`-th of its weekday in that month.
pub open spec fn week_of_month(day: int) -> int {
    (day + 6) / 7
}

impl Weekday {
    /// A day that falls on `day_of_week` and is the `day`-th of its month
    /// satisfies the constraint.
    pub open spec fn allows(&self, day_of_week: u8, day: u8) -> bool {
        &&& self.field.admits(day_of_week)
        &&& self.nth matches Some(nth) ==> nth.0 == week_of_month(day as int)
    }

    /// Whether a day satisfies the constraint, given the day of the week on
    /// which it falls and its day of the month.
    pub fn is_valid(&self, day_of_week: u8, day: u8) -> (ok: bool)
        ensures
            ok == self.allows(day_of_week, day),
    {
        let is_correct_day = self.field.accepts(day_of_week);
        match &self.nth {
            None => is_correct_day,
            Some(nth) => {
                if day % 7 == 0 {
                    is_correct_day && nth.0 == day / 7
                } else {
                    is_correct_day && nth.0 == day / 7 + 1
                }
            },
        }
    }
}

} // verus!
