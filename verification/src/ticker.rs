//! Value tickers: cursors that hand out the values of one field, one per call,
//! and report a carry on the call that wraps back to the first value.

use vstd::prelude::*;

verus! {

/// What a ticker is, mathematically: the values of its field in the order in
/// which they come, and the number of them that the current pass has handed out.
pub struct Cursor {
    pub cycle: Seq<u8>,
    pub pos: nat,
}

impl Cursor {
    /// A cursor has at least one value and never stands beyond the end of its cycle.
    pub open spec fn wf(self) -> bool {
        0 < self.cycle.len() && self.pos <= self.cycle.len()
    }

    /// The current pass is used up: the next call wraps and carries.
    pub open spec fn exhausted(self) -> bool {
        self.pos >= self.cycle.len()
    }

    /// The value that the next call hands out.
    pub open spec fn upcoming(self) -> u8 {
        if self.exhausted() {
            self.cycle[0]
        } else {
            self.cycle[self.pos as int]
        }
    }

    /// The cursor after the next call.
    pub open spec fn advanced(self) -> Cursor {
        Cursor { cycle: self.cycle, pos: if self.exhausted() { 1 } else { self.pos + 1 } }
    }

    /// The number of calls that come before the next carry.
    pub open spec fn remaining(self) -> nat {
        if self.exhausted() {
            0
        } else {
            (self.cycle.len() - self.pos) as nat
        }
    }

    /// The cursor after `k` calls.
    pub open spec fn after(self, k: nat) -> Cursor
        decreases k,
    {
        if k == 0 {
            self
        } else {
            self.after((k - 1) as nat).advanced()
        }
    }

    /// `value` is what the last call handed out.
    pub open spec fn handed(self, value: u8) -> bool {
        1 <= self.pos <= self.cycle.len() && self.cycle[self.pos - 1] == value
    }

    /// `value` is what the next call hands out, and it comes without a carry.
    pub open spec fn offers(self, value: u8) -> bool {
        self.pos < self.cycle.len() && self.cycle[self.pos as int] == value
    }

    /// Each value of the cycle is greater than the one before it.
    pub open spec fn ascending(self) -> bool {
        forall|i: int, j: int| 0 <= i < j < self.cycle.len() ==> self.cycle[i] < self.cycle[j]
    }
}

/// The values `min, min + 1, .., max`. A range whose bounds are out of order
/// holds its lower bound alone.
pub open spec fn range_values(min: u8, max: u8) -> Seq<u8> {
    Seq::new(
        if min <= max { (max - min + 1) as nat } else { 1 },
        |i: int| (min + i) as u8,
    )
}

/// The cursor of a range ticker whose next in-range value would be `current`:
/// a `current` outside `min..=max` leaves the pass used up.
pub open spec fn range_cursor(min: u8, max: u8, current: int) -> Cursor {
    Cursor {
        cycle: range_values(min, max),
        pos: if min <= current <= max { (current - min) as nat } else { range_values(min, max).len() },
    }
}

/// Walks an inclusive range upwards.
pub struct RangeTicker {
    min: u8,
    max: u8,
    current: u16,
}

impl View for RangeTicker {
    type V = Cursor;

    closed spec fn view(&self) -> Cursor {
        range_cursor(self.min, self.max, self.current as int)
    }
}

impl RangeTicker {
    /// A ticker at the start of `min..=max`.
    pub fn new(min: u8, max: u8) -> (ticker: RangeTicker)
        ensures
            ticker@ == range_cursor(min, max, min as int),
            ticker@.wf(),
    {
        RangeTicker { min, max, current: min as u16 }
    }

    /// A ticker over `min..=max` whose first value is `current`; with a
    /// `current` outside the range the first call wraps to `min` and carries.
    pub fn with_current(min: u8, max: u8, current: u8) -> (ticker: RangeTicker)
        ensures
            ticker@ == range_cursor(min, max, current as int),
            ticker@.wf(),
    {
        RangeTicker { min, max, current: current as u16 }
    }

    /// Hands out the next value, and whether the range wrapped to reach it.
    pub fn next(&mut self) -> (tick: (u8, bool))
        ensures
            old(self)@.wf(),
            tick.0 == old(self)@.upcoming(),
            tick.1 == old(self)@.exhausted(),
            final(self)@ == old(self)@.advanced(),
    {
        if self.min as u16 <= self.current && self.current <= self.max as u16 {
            let value: u8 = self.current as u8;
            self.current = self.current + 1;
            (value, false)
        } else {
            self.current = self.min as u16 + 1;
            (self.min, true)
        }
    }
}

/// Walks a list of values in the order given.
pub struct SetTicker {
    idx: usize,
    set: Vec<u8>,
}

impl View for SetTicker {
    type V = Cursor;

    closed spec fn view(&self) -> Cursor {
        Cursor { cycle: self.set@, pos: self.idx as nat }
    }
}

impl SetTicker {
    #[verifier::type_invariant]
    spec fn inv(self) -> bool {
        0 < self.set.len() && self.idx <= self.set.len()
    }

    /// A ticker at the start of `set`, which holds at least one value.
    pub fn new(set: Vec<u8>) -> (ticker: SetTicker)
        requires
            set.len() > 0,
        ensures
            ticker@ == (Cursor { cycle: set@, pos: 0 }),
            ticker@.wf(),
    {
        SetTicker { idx: 0, set }
    }

    /// Hands out the next value, and whether the list wrapped to reach it.
    pub fn next(&mut self) -> (tick: (u8, bool))
        ensures
            old(self)@.wf(),
            tick.0 == old(self)@.upcoming(),
            tick.1 == old(self)@.exhausted(),
            final(self)@ == old(self)@.advanced(),
    {
        proof {
            use_type_invariant(&*self);
        }
        if self.idx < self.set.len() {
            let value: u8 = self.set[self.idx];
            self.idx = self.idx + 1;
            (value, false)
        } else {
            self.idx = 1;
            (self.set[0], true)
        }
    }
}

/// The ticker of one field.
pub enum Increment {
    Single(u8),
    Multiple(SetTicker),
    Range(RangeTicker),
}

impl View for Increment {
    type V = Cursor;

    open spec fn view(&self) -> Cursor {
        match self {
            Increment::Single(x) => Cursor { cycle: seq![*x], pos: 1 },
            Increment::Multiple(ticker) => ticker@,
            Increment::Range(ticker) => ticker@,
        }
    }
}

impl Increment {
    /// Hands out the field's next value, and whether the next larger field
    /// must advance with it. A fixed value carries on every call.
    pub fn next(&mut self) -> (tick: (u8, bool))
        ensures
            old(self)@.wf(),
            tick.0 == old(self)@.upcoming(),
            tick.1 == old(self)@.exhausted(),
            final(self)@ == old(self)@.advanced(),
    {
        match self {
            Increment::Single(x) => (*x, true),
            Increment::Multiple(ticker) => ticker.next(),
            Increment::Range(ticker) => ticker.next(),
        }
    }
}

} // verus!
