//! What holds of every schedule, proved over the models of the tickers and of
//! the ripple-carry increment.

use vstd::prelude::*;
use crate::calendar::MAX_YEAR;
use crate::candidate::{CandidateDateTime, Instant};
use crate::expression::Expression;
use crate::field::Field;
use crate::schedule::ScheduleView;
use crate::ticker::{range_cursor, Cursor};
use crate::weekday::week_of_month;

verus! {

proof fn lemma_mod_step(a: int, m: int)
    requires
        0 <= a,
        0 < m,
    ensures
        0 <= a % m < m,
        (a + 1) % m == if a % m == m - 1 { 0 } else { a % m + 1 },
{
    vstd::arithmetic::div_mod::lemma_fundamental_div_mod(a, m);
    vstd::arithmetic::div_mod::lemma_mod_bound(a, m);
    let q = a / m;
    let r = a % m;
    if r == m - 1 {
        assert(a + 1 == (q + 1) * m + 0) by (nonlinear_arith)
            requires
                a == m * q + r,
                r == m - 1,
        ;
        vstd::arithmetic::div_mod::lemma_fundamental_div_mod_converse(a + 1, m, q + 1, 0);
    } else {
        assert(a + 1 == q * m + (r + 1)) by (nonlinear_arith)
            requires
                a == m * q + r,
        ;
        vstd::arithmetic::div_mod::lemma_fundamental_div_mod_converse(a + 1, m, q, r + 1);
    }
}

proof fn lemma_after_position(c: Cursor, k: nat)
    requires
        c.wf(),
        c.pos == 0,
    ensures
        c.after(k).cycle == c.cycle,
        c.after(k).pos == if k == 0 { 0 } else { (k - 1) % (c.cycle.len() as int) + 1 },
    decreases k,
{
    if k >= 1 {
        lemma_after_position(c, (k - 1) as nat);
        if k >= 2 {
            lemma_mod_step(k - 2, c.cycle.len() as int);
        } else {
            vstd::arithmetic::div_mod::lemma_small_mod(0, c.cycle.len());
        }
    }
}

/// A ticker walks its cycle in order, again and again: counted from 0, call
/// `k` of a ticker that starts at the head of its cycle hands out the value
/// at place `k mod len`, and carries exactly when it has wrapped to reach it.
pub proof fn law_cycle_in_order(c: Cursor, k: nat)
    requires
        c.wf(),
        c.pos == 0,
    ensures
        c.after(k).upcoming() == c.cycle[(k as int) % (c.cycle.len() as int)],
        c.after(k).exhausted() <==> k > 0 && (k as int) % (c.cycle.len() as int) == 0,
{
    lemma_after_position(c, k);
    if k >= 1 {
        lemma_mod_step(k - 1, c.cycle.len() as int);
    }
}

/// A range is walked from its lower bound upwards: counted from 0, call `k`
/// of a fresh ticker over `min..=max` hands out `min + k mod (max - min + 1)`,
/// and carries exactly on the calls that come back to `min`.
pub proof fn law_range_in_order(min: u8, max: u8, k: nat)
    requires
        min <= max,
    ensures
        range_cursor(min, max, min as int).after(k).upcoming() == min + (k as int) % (max - min + 1),
        range_cursor(min, max, min as int).after(k).exhausted() <==> k > 0 && (k as int) % (max
            - min + 1) == 0,
{
    let c = range_cursor(min, max, min as int);
    law_cycle_in_order(c, k);
}

/// Increments follow one another: `b` increments after `a` increments are
/// `a + b` increments. A call of `next` thus goes on where the call before
/// it stopped.
pub proof fn law_increments_add_up(v: ScheduleView, a: nat, b: nat)
    ensures
        v.ticked(a).ticked(b) == v.ticked(a + b),
    decreases b,
{
    if b > 0 {
        law_increments_add_up(v, a, (b - 1) as nat);
    }
}

/// A field steps exactly when every smaller field wraps: an increment then
/// stores the value that the field's ticker hands out and advances that
/// ticker, and otherwise leaves both as they were. The year advances by one
/// when all four fields wrap, and never else.
pub proof fn law_fields_step_on_carry(v: ScheduleView, level: int)
    requires
        0 <= level <= 3,
    ensures
        v.carries_into(level) ==> v.ripple().value_at(level) == v.cursor_at(level).upcoming()
            && v.ripple().cursor_at(level) == v.cursor_at(level).advanced(),
        !v.carries_into(level) ==> v.ripple().value_at(level) == v.value_at(level)
            && v.ripple().cursor_at(level) == v.cursor_at(level),
        v.ripple().current.year == if v.carries_into(4) { v.current.year + 1 } else {
            v.current.year
        },
        v.ripple().dow == v.dow,
{
    assert(v.cursor_at(0) == v.minute);
    assert(v.cursor_at(1) == v.hour);
    assert(v.cursor_at(2) == v.dom);
    assert(v.cursor_at(3) == v.month);
}

/// Every field walks its cycle, one place at each of its steps: after `n`
/// increments the field's ticker has been called once for each step, and
/// the candidate holds what the last of those calls handed out, or what it
/// held at first if the field has not stepped yet.
pub proof fn law_field_walks_its_cycle(v: ScheduleView, level: int, n: nat)
    requires
        0 <= level <= 3,
    ensures
        v.ticked(n).cursor_at(level) == v.cursor_at(level).after(v.steps_at(level, n)),
        v.steps_at(level, n) == 0 ==> v.ticked(n).value_at(level) == v.value_at(level),
        v.steps_at(level, n) >= 1 ==> v.ticked(n).value_at(level) == v.cursor_at(level).after(
            (v.steps_at(level, n) - 1) as nat,
        ).upcoming(),
    decreases n,
{
    if n > 0 {
        law_field_walks_its_cycle(v, level, (n - 1) as nat);
        law_fields_step_on_carry(v.ticked((n - 1) as nat), level);
    }
}

/// The minute steps on every increment: after `n` increments its ticker has
/// been called `n` times, and the candidate holds what the last of those
/// calls handed out.
pub proof fn law_minute_steps_every_time(v: ScheduleView, n: nat)
    ensures
        v.ticked(n).minute == v.minute.after(n),
        n >= 1 ==> v.ticked(n).current.minute == v.minute.after((n - 1) as nat).upcoming(),
    decreases n,
{
    if n > 0 {
        law_minute_steps_every_time(v, (n - 1) as nat);
    }
}

/// The minutes of a range come in increasing order, one candidate after the
/// other, and start again at the lower bound: counted from 1, candidate `n`
/// has the minute `min + (n - 1) mod (max - min + 1)`.
pub proof fn law_minutes_of_a_range(expression: Expression, now: CandidateDateTime, n: nat)
    requires
        expression.minute matches Some(Field::Range(min, max)) && min <= max,
        n >= 1,
    ensures
        expression.minute matches Some(Field::Range(min, max)) && expression.seeded(now).ticked(
            n,
        ).current.minute == min + (n - 1) % (max - min + 1),
{
    let v = expression.seeded(now);
    law_minute_steps_every_time(v, n);
    law_cycle_in_order(v.minute, (n - 1) as nat);
}

/// The minutes of a list come in the order of the list, one candidate after
/// the other, and start again at its head: counted from 1, candidate `n` has
/// the minute at place `(n - 1) mod len` of the list.
pub proof fn law_minutes_of_a_list(expression: Expression, now: CandidateDateTime, n: nat)
    requires
        expression.minute matches Some(Field::Multiple(set)) && set@.len() > 0,
        n >= 1,
    ensures
        expression.minute matches Some(Field::Multiple(set)) && expression.seeded(now).ticked(
            n,
        ).current.minute == set@[(n - 1) % (set@.len() as int)],
{
    let v = expression.seeded(now);
    law_minute_steps_every_time(v, n);
    law_cycle_in_order(v.minute, (n - 1) as nat);
}

proof fn lemma_settled_step(v: ScheduleView, level: int)
    requires
        0 <= level <= 3,
        v.settled_at(level),
    ensures
        v.ripple().settled_at(level),
        v.ripple().cursor_at(level).cycle == v.cursor_at(level).cycle,
{
    law_fields_step_on_carry(v, level);
}

proof fn lemma_settled_stays(v: ScheduleView, level: int, n: nat)
    requires
        0 <= level <= 3,
        v.settled_at(level),
    ensures
        v.ticked(n).settled_at(level),
        v.ticked(n).cursor_at(level).cycle == v.cursor_at(level).cycle,
    decreases n,
{
    if n > 0 {
        lemma_settled_stays(v, level, (n - 1) as nat);
        lemma_settled_step(v.ticked((n - 1) as nat), level);
    }
}

/// A field with a specification only ever takes values of that
/// specification, however often the schedule is incremented: a fixed value
/// stays, a list gives its members, a range stays within its bounds.
pub proof fn law_values_come_from_the_field(
    expression: Expression,
    now: CandidateDateTime,
    level: int,
    n: nat,
)
    requires
        expression.wf(),
        0 <= level <= 3,
        expression.field_at(level) is Some,
    ensures
        ({
            let field = expression.field_at(level)->Some_0;
            let value = expression.seeded(now).ticked(n).value_at(level);
            &&& field.values().contains(value)
            &&& field matches Field::Single(x) ==> value == x
            &&& field matches Field::Multiple(set) ==> set@.contains(value)
            &&& field matches Field::Range(min, max) ==> min <= max ==> min <= value <= max
        }),
{
    let field = expression.field_at(level)->Some_0;
    let v = expression.seeded(now);
    assert(field.wf());
    assert(v.cursor_at(level) == field.cursor());
    assert(v.value_at(level) == field.values()[0]);
    assert(v.settled_at(level));
    lemma_settled_stays(v, level, n);
}

/// The tickers of a schedule always have a value to hand out, from the
/// seeding on.
pub proof fn law_tickers_stay_well_formed(expression: Expression, now: CandidateDateTime, n: nat)
    requires
        expression.wf(),
    ensures
        expression.seeded(now).ticked(n).wf(),
    decreases n,
{
    if n > 0 {
        law_tickers_stay_well_formed(expression, now, (n - 1) as nat);
    }
}

/// An increment leaves every field that it steps in step with its ticker,
/// and every field that was in step stays so.
pub proof fn law_sync_spreads(v: ScheduleView, level: int)
    requires
        v.wf(),
        0 <= level <= 3,
        v.carries_into(level) || v.in_step_at(level),
    ensures
        v.ripple().in_step_at(level),
{
    law_fields_step_on_carry(v, level);
    assert(v.cursor_at(level).wf());
}

/// Once every field is in step with its ticker, and the tickers hand their
/// values out in increasing order, each increment moves the candidate
/// strictly forward in full date-time order, and leaves the schedule so.
pub proof fn law_increment_moves_forward(v: ScheduleView)
    requires
        v.synced(),
        v.ascending(),
    ensures
        v.current.before(v.ripple().current),
        v.ripple().synced(),
        v.ripple().ascending(),
{
    assert(v.in_step_at(0) && v.in_step_at(1) && v.in_step_at(2) && v.in_step_at(3));
    let w = v.ripple();
    assert forall|level: int| 0 <= level <= 3 implies #[trigger] w.in_step_at(level) by {
        law_fields_step_on_carry(v, level);
    }
}

/// Under the same conditions any number of increments, one at least, moves
/// the candidate strictly forward.
pub proof fn law_later_increments_come_later(v: ScheduleView, n: nat)
    requires
        v.synced(),
        v.ascending(),
        n >= 1,
    ensures
        v.current.before(v.ticked(n).current),
        v.ticked(n).synced(),
        v.ticked(n).ascending(),
    decreases n,
{
    if n == 1 {
        assert(v.ticked(1) == v.ticked(0).ripple());
        law_increment_moves_forward(v);
    } else {
        law_later_increments_come_later(v, (n - 1) as nat);
        law_increment_moves_forward(v.ticked((n - 1) as nat));
    }
}

/// Occurrences come in strictly increasing order: of two searches that
/// follow one another on a schedule in step with its tickers, the second
/// finds a later date-time than the first.
pub proof fn law_occurrences_increase(
    v: ScheduleView,
    today: Instant,
    horizon: int,
    n: nat,
    later_today: Instant,
    later_horizon: int,
    m: nat,
)
    requires
        v.synced(),
        v.ascending(),
        v.found_at(today, horizon, n),
        v.ticked(n).found_at(later_today, later_horizon, m),
    ensures
        v.ticked(n).current.before(v.ticked(n).ticked(m).current),
        v.ticked(n).ticked(m).synced(),
{
    law_later_increments_come_later(v, n);
    law_later_increments_come_later(v.ticked(n), m);
}

/// A schedule seeded at a reading of the clock is settled: each field holds
/// what its ticker handed out last or will hand out first.
pub proof fn law_seeded_settled(expression: Expression, now: CandidateDateTime)
    requires
        expression.wf(),
        now@.within_units(),
    ensures
        expression.seeded(now).settled(),
{
    let v = expression.seeded(now);
    assert forall|level: int| 0 <= level <= 3 implies #[trigger] v.settled_at(level) by {
        let field = expression.field_at(level);
        if field is Some {
            assert(field->Some_0.wf());
        }
    }
}

/// An increment moves the candidate strictly forward exactly when the field
/// at which it stops is in step with its ticker. A field that it stops at out
/// of step repeats its value, while the smaller fields start over.
pub proof fn law_forward_when_in_step(v: ScheduleView)
    requires
        v.settled(),
        v.ascending(),
    ensures
        v.current.before(v.ripple().current) <==> v.in_step_at(v.stops_at()),
        v.ripple().settled(),
        v.ripple().ascending(),
{
    assert(v.settled_at(0) && v.settled_at(1) && v.settled_at(2) && v.settled_at(3));
    let w = v.ripple();
    assert forall|level: int| 0 <= level <= 3 implies #[trigger] w.settled_at(level) by {
        lemma_settled_step(v, level);
    }
}

/// Each field falls out of the order of time once at most: an increment
/// never puts a field out of step, and one that fails to move the candidate
/// forward brings a field in step for good. So at most four increments of a
/// settled schedule fail to move it forward.
pub proof fn law_backward_steps_are_few(v: ScheduleView)
    requires
        v.settled(),
        v.ascending(),
    ensures
        v.ripple().out_of_step() <= v.out_of_step() <= 4,
        !v.current.before(v.ripple().current) ==> v.ripple().out_of_step() < v.out_of_step(),
{
    law_forward_when_in_step(v);
    assert(v.settled_at(0) && v.settled_at(1) && v.settled_at(2) && v.settled_at(3));
    law_fields_step_on_carry(v, 0);
    law_fields_step_on_carry(v, 1);
    law_fields_step_on_carry(v, 2);
    law_fields_step_on_carry(v, 3);
}

/// The tickers of a seeded schedule hand their values out in increasing
/// order, if the lists of the expression are in increasing order.
pub proof fn law_seeded_ascending(expression: Expression, now: CandidateDateTime)
    requires
        expression.ascending(),
    ensures
        expression.seeded(now).ascending(),
{
    let v = expression.seeded(now);
    assert forall|level: int| 0 <= level <= 3 implies (#[trigger] v.cursor_at(level)).ascending() by {
        let field = expression.field_at(level);
        assert(field matches Some(Field::Multiple(set)) ==> (forall|i: int, j: int|
            0 <= i < j < set@.len() ==> set@[i] < set@[j]));
    }
    assert(v.cursor_at(0) == v.minute);
    assert(v.cursor_at(1) == v.hour);
    assert(v.cursor_at(2) == v.dom);
    assert(v.cursor_at(3) == v.month);
}

/// Where all fields of an expression but one are fixed values, the first
/// increment brings every field in step with its ticker, so that from the
/// first candidate on each later one comes strictly later.
pub proof fn law_one_free_field(
    expression: Expression,
    now: CandidateDateTime,
    free: int,
    n: nat,
    m: nat,
)
    requires
        expression.wf(),
        expression.ascending(),
        0 <= free <= 3,
        forall|level: int|
            0 <= level <= 3 && level != free ==> #[trigger] expression.field_at(level) matches Some(
                Field::Single(_),
            ),
        n >= 1,
        m >= 1,
    ensures
        expression.seeded(now).ticked(n).synced(),
        expression.seeded(now).ticked(n).current.before(
            expression.seeded(now).ticked(n + m).current,
        ),
{
    let v = expression.seeded(now);
    let w = v.ripple();
    assert forall|level: int| 0 <= level <= 3 implies #[trigger] w.in_step_at(level) by {
        if level != free {
            assert(expression.field_at(level) matches Some(Field::Single(_)));
            assert(v.cursor_at(level).handed(v.value_at(level)));
        } else {
            assert forall|below: int| 0 <= below < level implies (#[trigger] v.cursor_at(
                below,
            )).exhausted() by {
                assert(expression.field_at(below) matches Some(Field::Single(_)));
            }
            assert(v.cursor_at(level).wf());
        }
        law_fields_step_on_carry(v, level);
    }
    law_seeded_ascending(expression, now);
    assert(w.ascending());
    assert(v.ticked(1) == v.ticked(0).ripple());
    law_increments_add_up(v, 1, (n - 1) as nat);
    if n > 1 {
        law_later_increments_come_later(w, (n - 1) as nat);
    }
    law_later_increments_come_later(v.ticked(n), m);
    law_increments_add_up(v, n, m);
}

/// The occurrences of a weekday within a month lie seven days apart, so the
/// ones that come before day `day` are `day - 7`, `day - 14` and so on: all
/// but the last `week_of_month(day) - 1` of these fall before the first of
/// the month, which makes `day` the `week_of_month(day)`-th.
pub proof fn law_week_of_month_counts(day: int)
    requires
        1 <= day,
    ensures
        1 <= week_of_month(day),
        1 <= day - 7 * (week_of_month(day) - 1),
        day - 7 * week_of_month(day) < 1,
{
}

/// The year of the candidate never goes back.
pub proof fn law_year_never_goes_back(v: ScheduleView, n: nat)
    ensures
        v.current.year <= v.ticked(n).current.year,
    decreases n,
{
    if n > 0 {
        law_year_never_goes_back(v, (n - 1) as nat);
    }
}

/// Past the last year of the calendar no candidate is acceptable: a search
/// whose horizon lies beyond that year gives up only where no occurrence is
/// left to find.
pub proof fn law_nothing_beyond_the_calendar(v: ScheduleView, today: Instant, n: nat)
    requires
        v.current.year > MAX_YEAR,
    ensures
        !v.ticked(n).acceptable(today),
{
    law_year_never_goes_back(v, n);
}

/// A search has one outcome: it cannot stop after two different numbers of
/// increments, nor both find an occurrence and give up.
pub proof fn law_search_is_determined(
    v: ScheduleView,
    today: Instant,
    horizon: int,
    n: nat,
    m: nat,
)
    ensures
        v.found_at(today, horizon, n) && v.found_at(today, horizon, m) ==> n == m,
        v.gave_up_at(today, horizon, n) && v.gave_up_at(today, horizon, m) ==> n == m,
        !(v.found_at(today, horizon, n) && v.gave_up_at(today, horizon, m)),
{
}

} // verus!
