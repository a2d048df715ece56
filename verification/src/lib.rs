//! Next occurrences of a cron-like schedule.
//!
//! An [`Expression`] describes the minutes, hours, days of the month, months
//! and days of the week on which a schedule falls. Seeded at a moment it gives
//! a [`Schedule`], which holds a candidate date-time and one value ticker for
//! each field. [`Schedule::next`] advances the candidate by ripple-carry
//! increments, minute first, until it reaches a day of the calendar that is
//! not past and satisfies the day-of-week constraint.
//!
//! The library reads no clock: the moment of seeding and the current day are
//! arguments. The calendar is chrono's.
//!
//! The module `laws` states what holds of every schedule.

pub mod calendar;
pub mod candidate;
pub mod expression;
pub mod field;
pub mod laws;
pub mod schedule;
pub mod ticker;
pub mod weekday;

pub use candidate::CandidateDateTime;
pub use expression::Expression;
pub use field::Field;
pub use schedule::Schedule;
pub use ticker::{Increment, RangeTicker, SetTicker};
pub use weekday::{Nth, Weekday};
