use recurring_payments::calendar::add_months;
use recurring_payments::errors::PaymentError;
use recurring_payments::schedule::{calculate_next_payment_due, PaymentFrequency};

const DAY: i64 = 86400;
const WEEK: i64 = 604800;
// 2023-01-31T00:00:00Z.
const JAN31_2023: i64 = 1672531200 + 30 * DAY;

#[test]
fn daily_advance_catches_up_ten_missed_days() {
    // Ten missed days land on the eleventh, the first due date past now,
    // not merely one day ahead.
    let t = 1_700_000_000;
    let now = t + 10 * DAY;
    assert_eq!(
        calculate_next_payment_due(t, &PaymentFrequency::Daily, now),
        Ok(t + 11 * DAY)
    );
}

#[test]
fn daily_advance_moves_one_day_when_settled_on_time() {
    let t = 1_700_000_000;
    assert_eq!(
        calculate_next_payment_due(t, &PaymentFrequency::Daily, t),
        Ok(t + DAY)
    );
}

#[test]
fn a_future_due_date_is_returned_unchanged() {
    let t = 1_700_000_000;
    assert_eq!(
        calculate_next_payment_due(t, &PaymentFrequency::Daily, t - 1),
        Ok(t)
    );
}

#[test]
fn weekly_advance_catches_up_through_missed_weeks() {
    let t = 1_700_000_000;
    let now = t + 3 * WEEK + 1;
    assert_eq!(
        calculate_next_payment_due(t, &PaymentFrequency::Weekly, now),
        Ok(t + 4 * WEEK)
    );
}

#[test]
fn custom_advance_steps_by_the_interval() {
    let t = 1_700_000_000;
    assert_eq!(
        calculate_next_payment_due(t, &PaymentFrequency::Custom(3600), t + 90),
        Ok(t + 3600)
    );
    assert_eq!(
        calculate_next_payment_due(t, &PaymentFrequency::Custom(3600), t + 7000),
        Ok(t + 7200)
    );
}

#[test]
fn monthly_advance_equals_one_month_addition_when_on_time() {
    assert_eq!(
        calculate_next_payment_due(JAN31_2023, &PaymentFrequency::Monthly, JAN31_2023),
        add_months(JAN31_2023, 1)
    );
}

#[test]
fn monthly_advance_catches_up_through_missed_months() {
    // Three missed months: the result is the fourth month boundary, each
    // step clamped to the end of the month.
    let mut expected = JAN31_2023;
    for _ in 0..4 {
        expected = add_months(expected, 1).unwrap();
    }
    let now = add_months(JAN31_2023, 3).unwrap();
    assert_eq!(
        calculate_next_payment_due(JAN31_2023, &PaymentFrequency::Monthly, now),
        Ok(expected)
    );
}

#[test]
fn quarterly_semiannual_and_annual_advances_step_by_months() {
    let t = JAN31_2023;
    assert_eq!(
        calculate_next_payment_due(t, &PaymentFrequency::Quarterly, t),
        add_months(t, 3)
    );
    assert_eq!(
        calculate_next_payment_due(t, &PaymentFrequency::SemiAnnually, t),
        add_months(t, 6)
    );
    assert_eq!(
        calculate_next_payment_due(t, &PaymentFrequency::Annually, t),
        add_months(t, 12)
    );
}

#[test]
fn advance_always_lands_strictly_past_now() {
    let t = 1_600_000_000;
    let frequencies = vec![
        PaymentFrequency::Daily,
        PaymentFrequency::Weekly,
        PaymentFrequency::Monthly,
        PaymentFrequency::Quarterly,
        PaymentFrequency::SemiAnnually,
        PaymentFrequency::Annually,
        PaymentFrequency::Custom(1),
        PaymentFrequency::Custom(999_983),
    ];
    for frequency in frequencies {
        for gap in [0, 1, DAY - 1, 400 * DAY] {
            let now = t + gap;
            let next = calculate_next_payment_due(t, &frequency, now).unwrap();
            assert!(next > now);
            assert!(next >= t);
        }
    }
}

#[test]
fn a_zero_custom_interval_is_an_invalid_frequency() {
    assert_eq!(
        calculate_next_payment_due(0, &PaymentFrequency::Custom(0), 100),
        Err(PaymentError::InvalidFrequency)
    );
}

#[test]
fn a_custom_interval_beyond_i64_is_an_arithmetic_error() {
    assert_eq!(
        calculate_next_payment_due(0, &PaymentFrequency::Custom(u64::MAX), 100),
        Err(PaymentError::ArithmeticOverflow)
    );
}

#[test]
fn a_fixed_advance_overflowing_i64_is_an_arithmetic_error() {
    let due = i64::MAX - 100;
    assert_eq!(
        calculate_next_payment_due(due, &PaymentFrequency::Daily, due),
        Err(PaymentError::ArithmeticOverflow)
    );
}

#[test]
fn a_monthly_advance_before_the_epoch_is_an_arithmetic_error() {
    assert_eq!(
        calculate_next_payment_due(-1, &PaymentFrequency::Monthly, 100),
        Err(PaymentError::ArithmeticOverflow)
    );
}

#[test]
fn a_monthly_advance_past_year_9999_is_an_arithmetic_error() {
    let last = 253402300799;
    assert_eq!(
        calculate_next_payment_due(last, &PaymentFrequency::Monthly, last),
        Err(PaymentError::ArithmeticOverflow)
    );
}

#[test]
fn frequency_validation_rejects_only_a_zero_custom_interval() {
    assert!(PaymentFrequency::Daily.validate().is_ok());
    assert!(PaymentFrequency::Custom(1).validate().is_ok());
    assert_eq!(
        PaymentFrequency::Custom(0).validate(),
        Err(PaymentError::InvalidFrequency)
    );
}
