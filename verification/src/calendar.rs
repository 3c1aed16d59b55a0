//! Calendar arithmetic on UTC-naive Unix timestamps.
//!
//! A timestamp is a count of seconds since 1970-01-01T00:00:00; the module
//! decomposes it into a Gregorian (year, month, day) plus the seconds into
//! the day, adds months with end-of-month clamping (Jan 31 plus one month is
//! Feb 28 or 29), and recomposes. There is no timezone and no leap-second
//! handling. The supported range runs from the epoch through the last second
//! of year 9999; a computation that would leave it fails with an arithmetic
//! error and never wraps.

use crate::errors::PaymentError;
use vstd::prelude::*;

verus! {

/// Whether `year` has 366 days under the Gregorian rules.
pub open spec fn is_leap_year_spec(year: int) -> bool {
    (year % 4 == 0 && year % 100 != 0) || year % 400 == 0
}

/// The length of `month` (1 to 12) of `year` in days, and 0 for any
/// other month number.
pub open spec fn days_in_month_spec(year: int, month: int) -> int {
    if month == 2 {
        if is_leap_year_spec(year) {
            29
        } else {
            28
        }
    } else if month == 4 || month == 6 || month == 9 || month == 11 {
        30
    } else if 1 <= month <= 12 {
        31
    } else {
        0
    }
}

/// The length of `year` in days.
pub open spec fn days_in_year_spec(year: int) -> int {
    if is_leap_year_spec(year) {
        366
    } else {
        365
    }
}

/// Days in all years from 1970 up to but excluding `year`.
pub open spec fn days_before_year(year: int) -> int
    decreases year - 1970 when year >= 1970
{
    if year <= 1970 {
        0
    } else {
        days_before_year(year - 1) + days_in_year_spec(year - 1)
    }
}

/// Days in all months of `year` before `month`.
pub open spec fn days_before_month(year: int, month: int) -> int
    decreases month when month >= 1
{
    if month <= 1 {
        0
    } else {
        days_before_month(year, month - 1) + days_in_month_spec(year, month - 1)
    }
}

/// Whether (year, month, day) is a real Gregorian date in the supported
/// range of years, 1970 through 9999.
pub open spec fn valid_date(year: int, month: int, day: int) -> bool {
    &&& 1970 <= year <= 9999
    &&& 1 <= month <= 12
    &&& 1 <= day <= days_in_month_spec(year, month)
}

/// Days since the epoch of the date (year, month, day).
pub open spec fn epoch_days_of(year: int, month: int, day: int) -> int {
    days_before_year(year) + days_before_month(year, month) + (day - 1)
}

/// The timestamp of (year, month, day) plus `secs` seconds into that day.
pub open spec fn timestamp_of(year: int, month: int, day: int, secs: int) -> int {
    epoch_days_of(year, month, day) * 86400 + secs
}

/// The (year, day-of-year) that `days` days past the start of `year` fall
/// in, walking whole years forward.
pub open spec fn year_doy_of(days: int, year: int) -> (int, int)
    decreases days when days >= 0
{
    if days < days_in_year_spec(year) {
        (year, days)
    } else {
        year_doy_of(days - days_in_year_spec(year), year + 1)
    }
}

/// The (month, day) that day-of-year `doy` falls on, walking whole months
/// of `year` forward from `month`; days are 1-indexed.
pub open spec fn month_day_of(year: int, doy: int, month: int) -> (int, int)
    decreases 12 - month when 1 <= month <= 12
{
    if month >= 12 || doy < days_in_month_spec(year, month) {
        (month, doy + 1)
    } else {
        month_day_of(year, doy - days_in_month_spec(year, month), month + 1)
    }
}

/// The Gregorian date that `days` days past the epoch fall on.
pub open spec fn date_of_days(days: int) -> (int, int, int) {
    let (year, doy) = year_doy_of(days, 1970);
    let (month, day) = month_day_of(year, doy, 1);
    (year, month, day)
}

/// The month index of a date: whole months since year 0, the unit in which
/// a month addition moves.
pub open spec fn month_index_of_days(days: int) -> int {
    let (year, month, day) = date_of_days(days);
    12 * year + (month - 1)
}

/// Whether `months` can be added to `timestamp` without leaving the
/// supported years, 1970 through 9999.
pub open spec fn add_months_in_range(timestamp: int, months: int) -> bool {
    &&& 0 <= timestamp
    &&& date_of_days(timestamp / 86400).0 <= 9999
    &&& 12 * 1970 <= month_index_of_days(timestamp / 86400) + months <= 12 * 9999 + 11
}

/// The timestamp `months` months past `timestamp`, on the same day of the
/// month where the target month has one, and on its last day otherwise,
/// at the same second of the day.
pub open spec fn add_months_spec(timestamp: int, months: int) -> int
    recommends add_months_in_range(timestamp, months),
{
    let secs = timestamp % 86400;
    let (year, month, day) = date_of_days(timestamp / 86400);
    let total = 12 * year + (month - 1) + months;
    let new_year = total / 12;
    let new_month = total % 12 + 1;
    let new_day = if day <= days_in_month_spec(new_year, new_month) {
        day
    } else {
        days_in_month_spec(new_year, new_month)
    };
    timestamp_of(new_year, new_month, new_day, secs)
}

/// The lengths of the months of any year sum to the length of the year.
pub proof fn lemma_days_before_month_full_year(year: int)
    ensures
        days_before_month(year, 13) == days_in_year_spec(year),
{
    reveal_with_fuel(days_before_month, 13);
}

/// `days_before_month` grows with the month, by at least 28 days a month.
pub proof fn lemma_days_before_month_monotonic(year: int, m1: int, m2: int)
    requires
        1 <= m1 <= m2 <= 13,
    ensures
        days_before_month(year, m1) + 28 * (m2 - m1) <= days_before_month(year, m2),
    decreases m2 - m1,
{
    if m1 < m2 {
        lemma_days_before_month_monotonic(year, m1, m2 - 1);
    }
}

/// `days_before_year` grows with the year, by at least 365 days a year and
/// at most 366.
pub proof fn lemma_days_before_year_monotonic(y1: int, y2: int)
    requires
        1970 <= y1 <= y2,
    ensures
        days_before_year(y1) + 365 * (y2 - y1) <= days_before_year(y2),
        days_before_year(y2) <= days_before_year(y1) + 366 * (y2 - y1),
    decreases y2 - y1,
{
    if y1 < y2 {
        lemma_days_before_year_monotonic(y1, y2 - 1);
    }
}

/// Decomposing the day count of a date recovers the year and day-of-year.
pub proof fn lemma_year_doy_roundtrip(base: int, year: int, doy: int)
    requires
        1970 <= base <= year,
        0 <= doy < days_in_year_spec(year),
    ensures
        year_doy_of(days_before_year(year) - days_before_year(base) + doy, base) == (year, doy),
    decreases year - base,
{
    if base < year {
        lemma_days_before_year_monotonic(base + 1, year);
        lemma_year_doy_roundtrip(base + 1, year, doy);
    }
}

/// Decomposing the day-of-year of a date recovers the month and day.
pub proof fn lemma_month_day_roundtrip(year: int, base: int, month: int, rem: int)
    requires
        1 <= base <= month <= 12,
        0 <= rem < days_in_month_spec(year, month),
    ensures
        month_day_of(
            year,
            days_before_month(year, month) - days_before_month(year, base) + rem,
            base,
        ) == (month, rem + 1),
    decreases month - base,
{
    if base < month {
        lemma_days_before_month_monotonic(year, base + 1, month);
        lemma_month_day_roundtrip(year, base + 1, month, rem);
    }
}

/// Decomposing the day count of any valid date recovers that date.
pub proof fn lemma_date_roundtrip(year: int, month: int, day: int)
    requires
        valid_date(year, month, day),
    ensures
        date_of_days(epoch_days_of(year, month, day)) == (year, month, day),
        epoch_days_of(year, month, day) >= 0,
{
    let doy = days_before_month(year, month) + (day - 1);
    lemma_days_before_month_monotonic(year, 1, month);
    lemma_days_before_month_monotonic(year, month + 1, 13);
    lemma_days_before_month_full_year(year);
    lemma_days_before_year_monotonic(1970, year);
    lemma_year_doy_roundtrip(1970, year, doy);
    lemma_month_day_roundtrip(year, 1, month, day - 1);
}

/// The year walk lands on a well-formed year and day-of-year whose
/// recomposition gives back the day count.
pub proof fn lemma_year_doy_valid(days: int, base: int)
    requires
        0 <= days,
        1970 <= base,
    ensures
        ({
            let (year, doy) = year_doy_of(days, base);
            &&& base <= year
            &&& 0 <= doy < days_in_year_spec(year)
            &&& days_before_year(year) - days_before_year(base) + doy == days
        }),
    decreases days,
{
    if days >= days_in_year_spec(base) {
        lemma_year_doy_valid(days - days_in_year_spec(base), base + 1);
    }
}

/// The month walk lands on a well-formed month and day whose recomposition
/// gives back the day-of-year.
pub proof fn lemma_month_day_valid(year: int, doy: int, base: int)
    requires
        1 <= base <= 12,
        0 <= doy,
        days_before_month(year, base) + doy < days_in_year_spec(year),
    ensures
        ({
            let (month, day) = month_day_of(year, doy, base);
            &&& base <= month <= 12
            &&& 1 <= day <= days_in_month_spec(year, month)
            &&& days_before_month(year, month) + (day - 1) == days_before_month(year, base) + doy
        }),
    decreases 12 - base,
{
    lemma_days_before_month_full_year(year);
    if base < 12 && doy >= days_in_month_spec(year, base) {
        lemma_month_day_valid(year, doy - days_in_month_spec(year, base), base + 1);
    }
}

/// The day count past the epoch on which the month with month index `idx`
/// (whole months since year 0) begins.
pub open spec fn month_start_days(idx: int) -> int {
    days_before_year(idx / 12) + days_before_month(idx / 12, idx % 12 + 1)
}

/// Each month begins one month length after its predecessor.
pub proof fn lemma_month_start_step(idx: int)
    requires
        idx >= 12 * 1970,
    ensures
        month_start_days(idx + 1) == month_start_days(idx) + days_in_month_spec(
            idx / 12,
            idx % 12 + 1,
        ),
        28 <= days_in_month_spec(idx / 12, idx % 12 + 1) <= 31,
{
    let year = idx / 12;
    let month = idx % 12 + 1;
    if idx % 12 == 11 {
        assert((idx + 1) / 12 == year + 1 && (idx + 1) % 12 == 0) by (nonlinear_arith)
            requires
                idx % 12 == 11 && year == idx / 12,
        ;
        lemma_days_before_month_full_year(year);
    } else {
        assert((idx + 1) / 12 == year && (idx + 1) % 12 == idx % 12 + 1) by (nonlinear_arith)
            requires
                0 <= idx % 12 < 11 && year == idx / 12,
        ;
    }
}

/// Month starts grow with the month index, by at least 28 days a month.
pub proof fn lemma_month_start_monotonic(i1: int, i2: int)
    requires
        12 * 1970 <= i1 <= i2,
    ensures
        month_start_days(i1) + 28 * (i2 - i1) <= month_start_days(i2),
    decreases i2 - i1,
{
    if i1 < i2 {
        lemma_month_start_monotonic(i1, i2 - 1);
        lemma_month_start_step(i2 - 1);
    }
}

/// Adding at least one month moves a timestamp forward by at least a day.
pub proof fn lemma_add_months_increases(timestamp: int, months: int)
    requires
        0 <= timestamp,
        1 <= months,
    ensures
        add_months_spec(timestamp, months) >= timestamp + 86400,
{
    let days = timestamp / 86400;
    let secs = timestamp % 86400;
    lemma_year_doy_valid(days, 1970);
    let (year, doy) = year_doy_of(days, 1970);
    lemma_month_day_valid(year, doy, 1);
    let (month, day) = month_day_of(year, doy, 1);
    let idx = 12 * year + (month - 1);
    assert(idx / 12 == year && idx % 12 == month - 1) by (nonlinear_arith)
        requires
            idx == 12 * year + (month - 1) && 1 <= month <= 12,
    ;
    assert(month_start_days(idx) + (day - 1) == days);
    let total = idx + months;
    let new_year = total / 12;
    let new_month = total % 12 + 1;
    assert(month_start_days(total) == days_before_year(new_year) + days_before_month(
        new_year,
        new_month,
    ));
    lemma_month_start_monotonic(idx + 1, total);
    lemma_month_start_step(idx);
    let new_day = if day <= days_in_month_spec(new_year, new_month) {
        day
    } else {
        days_in_month_spec(new_year, new_month)
    };
    assert(1 <= new_month <= 12) by (nonlinear_arith)
        requires
            new_month == total % 12 + 1,
    ;
    assert(new_day >= 1);
    assert(epoch_days_of(new_year, new_month, new_day) >= days + 1);
}

/// An in-range month addition lands at a nonnegative timestamp inside the
/// machine range of an `i64` second count.
pub proof fn lemma_add_months_spec_bounds(timestamp: int, months: int)
    requires
        0 <= timestamp,
        add_months_in_range(timestamp, months),
    ensures
        0 <= add_months_spec(timestamp, months) < 0x8000_0000_0000_0000,
{
    let days = timestamp / 86400;
    lemma_year_doy_valid(days, 1970);
    let (year, doy) = year_doy_of(days, 1970);
    lemma_month_day_valid(year, doy, 1);
    let (month, day) = month_day_of(year, doy, 1);
    let total = 12 * year + (month - 1) + months;
    let new_year = total / 12;
    let new_month = total % 12 + 1;
    assert(1970 <= new_year <= 9999 && 1 <= new_month <= 12) by (nonlinear_arith)
        requires
            12 * 1970 <= total <= 12 * 9999 + 11 && new_year == total / 12 && new_month == total
                % 12 + 1,
    ;
    lemma_days_before_year_monotonic(1970, new_year);
    lemma_days_before_month_monotonic(new_year, 1, new_month);
    lemma_days_before_month_monotonic(new_year, new_month, 13);
    lemma_days_before_month_full_year(new_year);
}

/// Adding months to the last day of a month lands on the last day of the
/// target month whenever the target month is no longer than the source
/// month.
pub proof fn lemma_add_months_clamps_to_month_end(year: int, month: int, secs: int, months: int)
    requires
        valid_date(year, month, days_in_month_spec(year, month)),
        0 <= secs < 86400,
        12 * 1970 <= 12 * year + (month - 1) + months <= 12 * 9999 + 11,
        ({
            let total = 12 * year + (month - 1) + months;
            days_in_month_spec(total / 12, total % 12 + 1) <= days_in_month_spec(year, month)
        }),
    ensures
        ({
            let total = 12 * year + (month - 1) + months;
            add_months_spec(
                timestamp_of(year, month, days_in_month_spec(year, month), secs),
                months,
            ) == timestamp_of(
                total / 12,
                total % 12 + 1,
                days_in_month_spec(total / 12, total % 12 + 1),
                secs,
            )
        }),
{
    let day = days_in_month_spec(year, month);
    let ed = epoch_days_of(year, month, day);
    let ts = timestamp_of(year, month, day, secs);
    lemma_date_roundtrip(year, month, day);
    assert(ts / 86400 == ed && ts % 86400 == secs) by (nonlinear_arith)
        requires
            ts == ed * 86400 + secs && 0 <= secs < 86400 && ed >= 0,
    ;
}

/// Whether a year is a leap year under the Gregorian rules.
pub fn is_leap_year(year: i64) -> (r: bool)
    requires
        year >= 0,
    ensures
        r == is_leap_year_spec(year as int),
{
    (year % 4 == 0 && year % 100 != 0) || year % 400 == 0
}

/// The number of days in `month` of `year`: the standard Gregorian table,
/// with February depending on the leap test, and 0 for a month number
/// outside 1 to 12.
pub fn get_days_in_month(year: i64, month: i64) -> (r: i64)
    requires
        year >= 0,
    ensures
        r == days_in_month_spec(year as int, month as int),
{
    match month {
        1 | 3 | 5 | 7 | 8 | 10 | 12 => 31,
        4 | 6 | 9 | 11 => 30,
        2 => if is_leap_year(year) {
            29
        } else {
            28
        },
        _ => 0,
    }
}

/// The number of days in `year`.
pub fn get_days_in_year(year: i64) -> (r: i64)
    requires
        year >= 0,
    ensures
        r == days_in_year_spec(year as int),
{
    if is_leap_year(year) {
        366
    } else {
        365
    }
}

/// Add `months` months (negative counts move backwards) to a Unix
/// timestamp, keeping the day of the month, clamped to the end of the
/// target month, and the second of the day. Returns the arithmetic error
/// exactly when the timestamp or the target month lies outside the years
/// 1970 through 9999; it never fails otherwise and never wraps.
pub fn add_months(timestamp: i64, months: i32) -> (r: Result<i64, PaymentError>)
    ensures
        match r {
            Ok(v) => {
                &&& add_months_in_range(timestamp as int, months as int)
                &&& v == add_months_spec(timestamp as int, months as int)
                &&& v >= 0
            },
            Err(e) => {
                &&& e == PaymentError::ArithmeticOverflow
                &&& !add_months_in_range(timestamp as int, months as int)
            },
        },
{
    if timestamp < 0 {
        return Err(PaymentError::ArithmeticOverflow);
    }
    let days: i64 = timestamp / 86400;
    let seconds_in_day: i64 = timestamp % 86400;

    // Walk whole years from the epoch to find the year and day-of-year.
    let mut year: i64 = 1970;
    let mut remaining: i64 = days;
    let mut diy: i64 = get_days_in_year(year);
    while remaining >= diy && year < 9999
        invariant
            1970 <= year <= 9999,
            0 <= remaining <= days,
            diy == days_in_year_spec(year as int),
            year_doy_of(days as int, 1970) == year_doy_of(remaining as int, year as int),
        decreases remaining,
    {
        remaining = remaining - diy;
        year = year + 1;
        diy = get_days_in_year(year);
    }
    if remaining >= diy {
        // The day count runs past the end of year 9999.
        proof {
            lemma_year_doy_valid(remaining as int, year as int);
        }
        return Err(PaymentError::ArithmeticOverflow);
    }
    let ghost doy0 = remaining as int;

    // Walk whole months to find the month and day.
    let mut month: i64 = 1;
    let mut dim: i64 = get_days_in_month(year, month);
    while month < 12 && remaining >= dim
        invariant
            1970 <= year <= 9999,
            1 <= month <= 12,
            0 <= remaining <= doy0,
            dim == days_in_month_spec(year as int, month as int),
            month_day_of(year as int, doy0, 1) == month_day_of(
                year as int,
                remaining as int,
                month as int,
            ),
        decreases 12 - month,
    {
        remaining = remaining - dim;
        month = month + 1;
        dim = get_days_in_month(year, month);
    }
    let day: i64 = remaining + 1;
    proof {
        lemma_month_day_valid(year as int, doy0, 1);
    }

    // Add the requested months, carrying whole years.
    let total: i64 = 12 * year + (month - 1) + (months as i64);
    if total < 12 * 1970 || total > 12 * 9999 + 11 {
        return Err(PaymentError::ArithmeticOverflow);
    }
    let new_year: i64 = total / 12;
    let new_month: i64 = total % 12 + 1;

    // Clamp the day to the length of the target month.
    let max_day: i64 = get_days_in_month(new_year, new_month);
    let new_day: i64 = if day > max_day {
        max_day
    } else {
        day
    };

    // Recompose the target date into a day count past the epoch.
    let mut acc: i64 = 0;
    let mut y: i64 = 1970;
    while y < new_year
        invariant
            1970 <= y <= new_year <= 9999,
            acc == days_before_year(y as int),
            0 <= acc <= 366 * (y - 1970),
        decreases new_year - y,
    {
        acc = acc + get_days_in_year(y);
        y = y + 1;
    }
    let mut m: i64 = 1;
    while m < new_month
        invariant
            1 <= m <= new_month <= 12,
            1970 <= new_year <= 9999,
            acc == days_before_year(new_year as int) + days_before_month(new_year as int, m as int),
            0 <= acc <= 366 * (new_year - 1970) + 31 * (m - 1),
        decreases new_month - m,
    {
        acc = acc + get_days_in_month(new_year, m);
        m = m + 1;
    }
    acc = acc + (new_day - 1);
    Ok(acc * 86400 + seconds_in_day)
}

} // verus!
