//! Field specifications: the values that one unit of a schedule may take.

use vstd::prelude::*;
use crate::ticker::{range_cursor, range_values, Cursor, Increment, RangeTicker, SetTicker};

verus! {

/// The allowed values of one field: a fixed value, a list in the order in
/// which its values are to come, or an inclusive range.
pub enum Field<T> {
    Single(T),
    Multiple(Vec<T>),
    Range(T, T),
}

impl Field<u8> {
    /// A list holds at least one value.
    pub open spec fn wf(&self) -> bool {
        self matches Field::Multiple(set) ==> set@.len() > 0
    }

    /// The values of the field in the order in which a ticker hands them out.
    pub open spec fn values(&self) -> Seq<u8> {
        match self {
            Field::Single(x) => seq![*x],
            Field::Multiple(set) => set@,
            Field::Range(min, max) => range_values(*min, *max),
        }
    }

    /// The matching rule: equality with a fixed value, membership in a list,
    /// the inclusive bound test for a range.
    pub open spec fn admits(&self, value: u8) -> bool {
        match self {
            Field::Single(x) => *x == value,
            Field::Multiple(set) => set@.contains(value),
            Field::Range(min, max) => *min <= value <= *max,
        }
    }

    /// The cursor of the field's ticker before its first call. A fixed value
    /// has its only pass used up from the start, so that it carries every
    /// time, and so has a range whose bounds are out of order.
    pub open spec fn cursor(&self) -> Cursor {
        match self {
            Field::Single(x) => Cursor { cycle: seq![*x], pos: 1 },
            Field::Multiple(set) => Cursor { cycle: set@, pos: 0 },
            Field::Range(min, max) => range_cursor(*min, *max, *min as int),
        }
    }

    /// Whether the field has a value to start from: whether `wf` holds.
    pub fn has_values(&self) -> (ok: bool)
        ensures
            ok == self.wf(),
    {
        match self {
            Field::Multiple(set) => set.len() > 0,
            _ => true,
        }
    }

    /// The value that a candidate starts from: the fixed value, the first of
    /// the list, or the lower bound of the range.
    pub fn seed(&self) -> (value: u8)
        requires
            self.wf(),
        ensures
            value == self.values()[0],
    {
        match self {
            Field::Single(seed) => *seed,
            Field::Multiple(set) => set[0],
            Field::Range(seed, _) => *seed,
        }
    }

    /// The ticker that walks this field from its first value.
    pub fn into_increment(self) -> (ticker: Increment)
        requires
            self.wf(),
        ensures
            ticker@ == self.cursor(),
            ticker@.wf(),
    {
        match self {
            Field::Single(x) => Increment::Single(x),
            Field::Multiple(set) => Increment::Multiple(SetTicker::new(set)),
            Field::Range(min, max) => Increment::Range(RangeTicker::new(min, max)),
        }
    }

    /// Whether `value` matches the field.
    pub fn accepts(&self, value: u8) -> (ok: bool)
        ensures
            ok == self.admits(value),
    {
        match self {
            Field::Single(x) => *x == value,
            Field::Multiple(set) => {
                let mut i: usize = 0;
                while i < set.len()
                    invariant
                        i <= set.len(),
                        forall|j: int| 0 <= j < i ==> set@[j] != value,
                        self.admits(value) == set@.contains(value),
                    decreases set.len() - i,
                {
                    if set[i] == value {
                        assert(set@[i as int] == value);
                        return true;
                    }
                    i = i + 1;
                }
                false
            },
            Field::Range(min, max) => *min <= value && *max >= value,
        }
    }
}

} // verus!
