//! The due-date scheduler.
//!
//! Given a cadence and a reference time, the scheduler advances a due
//! timestamp one cycle at a time until it lies strictly past "now",
//! catching up through any number of missed cycles. Day, week and custom
//! cadences add a fixed number of seconds per cycle; the calendar cadences
//! add whole months with end-of-month clamping.

use crate::calendar::{add_months, add_months_in_range, add_months_spec, lemma_add_months_increases};
use crate::errors::PaymentError;
use vstd::prelude::*;

verus! {

/// How often a subscription falls due. A custom cadence is a period in
/// seconds.
#[derive(Clone, Copy, Debug, PartialEq, Eq, Structural)]
pub enum PaymentFrequency {
    Daily,
    Weekly,
    Monthly,
    Quarterly,
    SemiAnnually,
    Annually,
    Custom(u64),
}

impl PaymentFrequency {
    /// Whether the cadence can drive a schedule forward: a custom cadence
    /// must have a positive interval.
    pub open spec fn valid(self) -> bool {
        match self {
            PaymentFrequency::Custom(interval) => interval > 0,
            _ => true,
        }
    }

    /// Whether the cadence advances by whole calendar months.
    pub open spec fn is_month_based(self) -> bool {
        match self {
            PaymentFrequency::Monthly => true,
            PaymentFrequency::Quarterly => true,
            PaymentFrequency::SemiAnnually => true,
            PaymentFrequency::Annually => true,
            _ => false,
        }
    }

    /// The number of whole months one cycle advances, for the calendar
    /// cadences, and 0 for the others.
    pub open spec fn months_spec(self) -> int {
        match self {
            PaymentFrequency::Monthly => 1,
            PaymentFrequency::Quarterly => 3,
            PaymentFrequency::SemiAnnually => 6,
            PaymentFrequency::Annually => 12,
            _ => 0,
        }
    }

    /// The number of seconds one cycle advances, for the fixed-second
    /// cadences, and 0 for the calendar ones.
    pub open spec fn step_seconds_spec(self) -> int {
        match self {
            PaymentFrequency::Daily => 86400,
            PaymentFrequency::Weekly => 604800,
            PaymentFrequency::Custom(interval) => interval as int,
            _ => 0,
        }
    }

    /// Validates the cadence; only a custom cadence with a zero interval
    /// is rejected.
    pub fn validate(&self) -> (r: Result<(), PaymentError>)
        ensures
            match r {
                Ok(_) => self.valid(),
                Err(e) => !self.valid() && e == PaymentError::InvalidFrequency,
            },
    {
        match self {
            PaymentFrequency::Custom(interval) => {
                if *interval > 0 {
                    Ok(())
                } else {
                    Err(PaymentError::InvalidFrequency)
                }
            },
            _ => Ok(()),
        }
    }
}

/// The first time strictly past `now` reached from `due` by steps of
/// `step` seconds; `due` itself where it already lies past `now`.
pub open spec fn advance_fixed(due: int, step: int, now: int) -> int
    decreases (if due > now { 0int } else { now - due + 1 }) when step >= 1
{
    if due > now {
        due
    } else {
        advance_fixed(due + step, step, now)
    }
}

/// The first time strictly past `now` reached from `due` by steps of
/// `months` whole months; `due` itself where it already lies past `now`.
pub open spec fn advance_months(due: int, months: int, now: int) -> int
    decreases (if due > now { 0int } else { now - due + 1 }) when 1 <= months && 0 <= due
        via advance_months_decreases
{
    if due > now {
        due
    } else {
        advance_months(add_months_spec(due, months), months, now)
    }
}

#[via_fn]
proof fn advance_months_decreases(due: int, months: int, now: int) {
    if due <= now {
        lemma_add_months_increases(due, months);
    }
}

/// Whether every month step the catch-up takes stays inside the supported
/// years, 1970 through 9999.
pub open spec fn advance_months_in_range(due: int, months: int, now: int) -> bool
    decreases (if due > now { 0int } else { now - due + 1 }) when 1 <= months && 0 <= due
        via advance_months_in_range_decreases
{
    if due > now {
        true
    } else {
        add_months_in_range(due, months) && advance_months_in_range(
            add_months_spec(due, months),
            months,
            now,
        )
    }
}

#[via_fn]
proof fn advance_months_in_range_decreases(due: int, months: int, now: int) {
    if due <= now {
        lemma_add_months_increases(due, months);
    }
}

/// The due date one catch-up run produces: the first time strictly past
/// `now` that whole cycles from `due` reach.
pub open spec fn advance_due_spec(due: int, frequency: PaymentFrequency, now: int) -> int
    recommends
        frequency.valid(),
        frequency.is_month_based() ==> 0 <= due,
{
    if frequency.is_month_based() {
        advance_months(due, frequency.months_spec(), now)
    } else {
        advance_fixed(due, frequency.step_seconds_spec(), now)
    }
}

/// Whether the catch-up run stays inside machine and calendar bounds, so
/// that the scheduler returns it rather than an arithmetic error.
pub open spec fn advance_due_ok(due: int, frequency: PaymentFrequency, now: int) -> bool {
    &&& frequency.valid()
    &&& if frequency.is_month_based() {
        0 <= due && advance_months_in_range(due, frequency.months_spec(), now)
    } else {
        frequency.step_seconds_spec() <= i64::MAX && advance_fixed(
            due,
            frequency.step_seconds_spec(),
            now,
        ) <= i64::MAX
    }
}

proof fn lemma_advance_fixed_exceeds(due: int, step: int, now: int)
    requires
        step >= 1,
    ensures
        advance_fixed(due, step, now) > now,
        advance_fixed(due, step, now) >= due,
    decreases (if due > now { 0int } else { now - due + 1 }),
{
    if due <= now {
        lemma_advance_fixed_exceeds(due + step, step, now);
    }
}

proof fn lemma_advance_months_exceeds(due: int, months: int, now: int)
    requires
        1 <= months,
        0 <= due,
    ensures
        advance_months(due, months, now) > now,
        advance_months(due, months, now) >= due,
    decreases (if due > now { 0int } else { now - due + 1 }),
{
    if due <= now {
        lemma_add_months_increases(due, months);
        lemma_advance_months_exceeds(add_months_spec(due, months), months, now);
    }
}

proof fn lemma_advance_months_fits(due: int, months: int, now: int)
    requires
        1 <= months,
        0 <= due <= 0x7fff_ffff_ffff_ffff,
        advance_months_in_range(due, months, now),
    ensures
        0 <= advance_months(due, months, now) <= 0x7fff_ffff_ffff_ffff,
    decreases (if due > now { 0int } else { now - due + 1 }),
{
    if due <= now {
        lemma_add_months_increases(due, months);
        crate::calendar::lemma_add_months_spec_bounds(due, months);
        lemma_advance_months_fits(add_months_spec(due, months), months, now);
    }
}

/// An in-bounds catch-up lands inside the `i64` range that carries due
/// dates, so the caught-up date survives the machine representation.
pub proof fn lemma_advance_due_fits_i64(due: int, frequency: PaymentFrequency, now: int)
    requires
        i64::MIN <= due <= i64::MAX,
        advance_due_ok(due, frequency, now),
    ensures
        i64::MIN <= advance_due_spec(due, frequency, now) <= i64::MAX,
{
    if frequency.is_month_based() {
        lemma_advance_months_fits(due, frequency.months_spec(), now);
    } else {
        lemma_advance_fixed_exceeds(due, frequency.step_seconds_spec(), now);
    }
}

/// Catch-up always lands strictly in the future: for every valid cadence
/// the advanced due date exceeds `now`, and never moves backwards, however
/// many cycles were missed.
pub proof fn lemma_advance_due_exceeds_now(due: int, frequency: PaymentFrequency, now: int)
    requires
        frequency.valid(),
        frequency.is_month_based() ==> 0 <= due,
    ensures
        advance_due_spec(due, frequency, now) > now,
        advance_due_spec(due, frequency, now) >= due,
{
    if frequency.is_month_based() {
        lemma_advance_months_exceeds(due, frequency.months_spec(), now);
    } else {
        lemma_advance_fixed_exceeds(due, frequency.step_seconds_spec(), now);
    }
}

fn advance_by_seconds(current_due: i64, step: i64, now: i64) -> (r: Result<i64, PaymentError>)
    requires
        step >= 1,
    ensures
        match r {
            Ok(v) => {
                &&& advance_fixed(current_due as int, step as int, now as int) <= i64::MAX
                &&& v == advance_fixed(current_due as int, step as int, now as int)
            },
            Err(e) => {
                &&& e == PaymentError::ArithmeticOverflow
                &&& advance_fixed(current_due as int, step as int, now as int) > i64::MAX
            },
        },
{
    let mut due = current_due;
    while due <= now
        invariant
            step >= 1,
            advance_fixed(due as int, step as int, now as int) == advance_fixed(
                current_due as int,
                step as int,
                now as int,
            ),
        decreases (if due > now { 0int } else { now - due + 1 }),
    {
        match due.checked_add(step) {
            Some(next) => {
                due = next;
            },
            None => {
                proof {
                    lemma_advance_fixed_exceeds(due as int + step as int, step as int, now as int);
                }
                return Err(PaymentError::ArithmeticOverflow);
            },
        }
    }
    Ok(due)
}

fn advance_by_months(current_due: i64, months: i32, now: i64) -> (r: Result<i64, PaymentError>)
    requires
        1 <= months <= 12,
        current_due >= 0,
    ensures
        match r {
            Ok(v) => {
                &&& advance_months_in_range(current_due as int, months as int, now as int)
                &&& v == advance_months(current_due as int, months as int, now as int)
                &&& v >= 0
            },
            Err(e) => {
                &&& e == PaymentError::ArithmeticOverflow
                &&& !advance_months_in_range(current_due as int, months as int, now as int)
            },
        },
{
    let mut due = current_due;
    while due <= now
        invariant
            1 <= months <= 12,
            due >= 0,
            current_due >= 0,
            advance_months(due as int, months as int, now as int) == advance_months(
                current_due as int,
                months as int,
                now as int,
            ),
            advance_months_in_range(due as int, months as int, now as int)
                == advance_months_in_range(current_due as int, months as int, now as int),
        decreases (if due > now { 0int } else { now - due + 1 }),
    {
        match add_months(due, months) {
            Ok(next) => {
                proof {
                    lemma_add_months_increases(due as int, months as int);
                }
                due = next;
            },
            Err(e) => {
                return Err(e);
            },
        }
    }
    Ok(due)
}

/// Advance `current_due` one cadence cycle at a time until it lies
/// strictly past `current_timestamp`, catching up through any number of
/// missed cycles. A zero custom interval is rejected as an invalid
/// frequency; a run that would leave the machine range, or the calendar
/// range for a month-based cadence, fails with the arithmetic error and
/// changes nothing.
pub fn calculate_next_payment_due(
    current_due: i64,
    frequency: &PaymentFrequency,
    current_timestamp: i64,
) -> (r: Result<i64, PaymentError>)
    ensures
        match r {
            Ok(v) => {
                &&& advance_due_ok(current_due as int, *frequency, current_timestamp as int)
                &&& v == advance_due_spec(current_due as int, *frequency, current_timestamp as int)
                &&& v > current_timestamp
                &&& v >= current_due
            },
            Err(e) => {
                &&& !advance_due_ok(current_due as int, *frequency, current_timestamp as int)
                &&& e == (if frequency.valid() {
                    PaymentError::ArithmeticOverflow
                } else {
                    PaymentError::InvalidFrequency
                })
            },
        },
{
    let r = match frequency {
        PaymentFrequency::Daily => advance_by_seconds(current_due, 86400, current_timestamp),
        PaymentFrequency::Weekly => advance_by_seconds(current_due, 604800, current_timestamp),
        PaymentFrequency::Monthly => advance_calendar(current_due, 1, current_timestamp),
        PaymentFrequency::Quarterly => advance_calendar(current_due, 3, current_timestamp),
        PaymentFrequency::SemiAnnually => advance_calendar(current_due, 6, current_timestamp),
        PaymentFrequency::Annually => advance_calendar(current_due, 12, current_timestamp),
        PaymentFrequency::Custom(interval) => {
            if *interval == 0 {
                Err(PaymentError::InvalidFrequency)
            } else if *interval > i64::MAX as u64 {
                Err(PaymentError::ArithmeticOverflow)
            } else {
                advance_by_seconds(current_due, *interval as i64, current_timestamp)
            }
        },
    };
    proof {
        if r is Ok {
            lemma_advance_due_exceeds_now(
                current_due as int,
                *frequency,
                current_timestamp as int,
            );
        }
    }
    r
}

fn advance_calendar(current_due: i64, months: i32, now: i64) -> (r: Result<i64, PaymentError>)
    requires
        1 <= months <= 12,
    ensures
        match r {
            Ok(v) => {
                &&& current_due >= 0
                &&& advance_months_in_range(current_due as int, months as int, now as int)
                &&& v == advance_months(current_due as int, months as int, now as int)
            },
            Err(e) => {
                &&& e == PaymentError::ArithmeticOverflow
                &&& (current_due < 0 || !advance_months_in_range(
                    current_due as int,
                    months as int,
                    now as int,
                ))
            },
        },
{
    if current_due < 0 {
        Err(PaymentError::ArithmeticOverflow)
    } else {
        advance_by_months(current_due, months, now)
    }
}

} // verus!
