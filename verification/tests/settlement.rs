use recurring_payments::calendar::add_months;
use recurring_payments::errors::PaymentError;
use recurring_payments::schedule::PaymentFrequency;
use recurring_payments::settlement::{
    prepare_settlement, settle, token_account_has_delegate, TransferRequest,
};
use recurring_payments::state::{
    create_policy, PaymentGateway, PaymentPolicy, PaymentStatus, PolicyType, ProgramConfig,
    UserPayment,
};

const DAY: i64 = 86400;
// 2023-01-31T00:00:00Z.
const T: i64 = 1672531200 + 30 * DAY;

const USER_TOKEN_ACCOUNT: u64 = 5;
const RECIPIENT: u64 = 111;
const GATEWAY_FEES: u64 = 8;
const PROTOCOL_FEES: u64 = 2;

fn fixture(
    amount: u64,
    frequency: PaymentFrequency,
    gateway_fee_bps: u16,
    protocol_fee_bps: u16,
) -> (PaymentPolicy, UserPayment, PaymentGateway, ProgramConfig) {
    let mut user_payment = UserPayment::new(4, USER_TOKEN_ACCOUNT, 6, T - 100 * DAY);
    let policy_type = PolicyType::Subscription {
        amount,
        auto_renew: true,
        max_renewals: None,
        payment_frequency: frequency,
        next_payment_due: 0,
    };
    let policy = create_policy(
        77,
        &mut user_payment,
        1,
        RECIPIENT,
        222,
        policy_type,
        [3u8; 64],
        Some(T),
        T - 100 * DAY,
    )
    .unwrap();
    let gateway = PaymentGateway::new(222, GATEWAY_FEES, gateway_fee_bps, T - 100 * DAY);
    let config = ProgramConfig::new(1, PROTOCOL_FEES, protocol_fee_bps, 10);
    (policy, user_payment, gateway, config)
}

#[test]
fn a_monthly_settlement_splits_advances_and_counts() {
    // A 1_000_000 policy at 50 bps gateway fee and 100 bps protocol fee,
    // settled exactly when due.
    let (mut policy, mut user_payment, mut gateway, config) =
        fixture(1_000_000, PaymentFrequency::Monthly, 50, 100);
    let outcome = settle(&mut policy, &mut user_payment, &mut gateway, &config, 2_000_000, T)
        .unwrap();

    assert_eq!(
        outcome.transfers,
        vec![
            TransferRequest { from: USER_TOKEN_ACCOUNT, to: RECIPIENT, amount: 985_000 },
            TransferRequest { from: USER_TOKEN_ACCOUNT, to: GATEWAY_FEES, amount: 5_000 },
            TransferRequest { from: USER_TOKEN_ACCOUNT, to: PROTOCOL_FEES, amount: 10_000 },
        ]
    );
    assert_eq!(policy.payment_count, 1);
    assert_eq!(policy.total_paid, 1_000_000);
    assert_eq!(policy.next_payment_due(), add_months(T, 1).unwrap());
    assert_eq!(policy.updated_at, T);
    assert_eq!(policy.status, PaymentStatus::Active);
    assert_eq!(user_payment.updated_at, T);
    assert_eq!(gateway.total_processed, 1_000_000);

    assert_eq!(outcome.record.user_payment, 77);
    assert_eq!(outcome.record.policy_id, 1);
    assert_eq!(outcome.record.gateway, 222);
    assert_eq!(outcome.record.amount, 1_000_000);
    assert_eq!(outcome.record.timestamp, T);
    assert_eq!(outcome.record.memo, [3u8; 64]);
    assert_eq!(outcome.record.record_id, 1);
}

#[test]
fn a_daily_settlement_catches_up_ten_missed_days() {
    // Ten missed days: the new due date is the first past now, eleven days
    // out, not one.
    let (mut policy, mut user_payment, mut gateway, config) =
        fixture(1_000, PaymentFrequency::Daily, 50, 100);
    let now = T + 10 * DAY;
    settle(&mut policy, &mut user_payment, &mut gateway, &config, 2_000, now).unwrap();
    assert_eq!(policy.next_payment_due(), T + 11 * DAY);
}

#[test]
fn settlement_before_the_due_date_is_a_rejected_no_op() {
    let (mut policy, mut user_payment, mut gateway, config) =
        fixture(1_000, PaymentFrequency::Daily, 50, 100);
    let r = settle(&mut policy, &mut user_payment, &mut gateway, &config, 2_000, T - 1);
    assert_eq!(r.unwrap_err(), PaymentError::PaymentNotDue);
    assert_eq!(policy.payment_count, 0);
    assert_eq!(policy.total_paid, 0);
    assert_eq!(policy.next_payment_due(), T);
    assert_eq!(gateway.total_processed, 0);
    assert_eq!(user_payment.updated_at, T - 100 * DAY);
}

#[test]
fn settlement_succeeds_exactly_once_per_cycle() {
    // After one success at `now`, the advanced due date lies past `now`,
    // so a retry at the same instant is rejected without mutation.
    let (mut policy, mut user_payment, mut gateway, config) =
        fixture(1_000, PaymentFrequency::Daily, 50, 100);
    settle(&mut policy, &mut user_payment, &mut gateway, &config, 10_000, T).unwrap();
    let after_first = (policy.next_payment_due(), policy.payment_count, policy.total_paid);

    let retry = settle(&mut policy, &mut user_payment, &mut gateway, &config, 10_000, T);
    assert_eq!(retry.unwrap_err(), PaymentError::PaymentNotDue);
    assert_eq!(
        (policy.next_payment_due(), policy.payment_count, policy.total_paid),
        after_first
    );
    assert_eq!(gateway.total_processed, 1_000);

    // The next cycle settles again.
    settle(&mut policy, &mut user_payment, &mut gateway, &config, 10_000, T + DAY).unwrap();
    assert_eq!(policy.payment_count, 2);
}

#[test]
fn an_insufficient_balance_is_a_rejected_no_op() {
    let (mut policy, mut user_payment, mut gateway, config) =
        fixture(1_000, PaymentFrequency::Daily, 50, 100);
    let r = settle(&mut policy, &mut user_payment, &mut gateway, &config, 999, T);
    assert_eq!(r.unwrap_err(), PaymentError::InsufficientBalance);
    assert_eq!(policy.payment_count, 0);
    assert_eq!(policy.total_paid, 0);
    assert_eq!(policy.next_payment_due(), T);
}

#[test]
fn a_paused_policy_rejects_settlement() {
    let (mut policy, mut user_payment, mut gateway, config) =
        fixture(1_000, PaymentFrequency::Daily, 50, 100);
    policy.pause(T);
    let r = settle(&mut policy, &mut user_payment, &mut gateway, &config, 2_000, T);
    assert_eq!(r.unwrap_err(), PaymentError::PolicyNotActive);
    assert_eq!(policy.payment_count, 0);
}

#[test]
fn an_inactive_gateway_rejects_settlement() {
    let (mut policy, mut user_payment, mut gateway, config) =
        fixture(1_000, PaymentFrequency::Daily, 50, 100);
    gateway.is_active = false;
    let r = settle(&mut policy, &mut user_payment, &mut gateway, &config, 2_000, T);
    assert_eq!(r.unwrap_err(), PaymentError::GatewayInactive);
    assert_eq!(policy.payment_count, 0);
}

#[test]
fn a_paused_program_rejects_settlement() {
    let (mut policy, mut user_payment, mut gateway, mut config) =
        fixture(1_000, PaymentFrequency::Daily, 50, 100);
    config.set_pause(true);
    let r = settle(&mut policy, &mut user_payment, &mut gateway, &config, 2_000, T);
    assert_eq!(r.unwrap_err(), PaymentError::ProgramPaused);
    assert_eq!(policy.payment_count, 0);
}

#[test]
fn a_combined_fee_rate_over_10000_bps_is_an_arithmetic_error() {
    let (mut policy, mut user_payment, mut gateway, config) =
        fixture(1_000, PaymentFrequency::Daily, 9_000, 2_000);
    let r = settle(&mut policy, &mut user_payment, &mut gateway, &config, 2_000, T);
    assert_eq!(r.unwrap_err(), PaymentError::ArithmeticOverflow);
    assert_eq!(policy.payment_count, 0);
}

#[test]
fn a_total_paid_overflow_is_a_rejected_no_op() {
    let (mut policy, mut user_payment, mut gateway, config) =
        fixture(1_000, PaymentFrequency::Daily, 50, 100);
    policy.total_paid = u64::MAX - 999;
    let r = settle(&mut policy, &mut user_payment, &mut gateway, &config, 2_000, T);
    assert_eq!(r.unwrap_err(), PaymentError::ArithmeticOverflow);
    assert_eq!(policy.total_paid, u64::MAX - 999);
    assert_eq!(policy.payment_count, 0);
    assert_eq!(policy.next_payment_due(), T);
}

#[test]
fn a_payment_count_overflow_is_a_rejected_no_op() {
    let (mut policy, mut user_payment, mut gateway, config) =
        fixture(1_000, PaymentFrequency::Daily, 50, 100);
    policy.payment_count = u32::MAX;
    let r = settle(&mut policy, &mut user_payment, &mut gateway, &config, 2_000, T);
    assert_eq!(r.unwrap_err(), PaymentError::ArithmeticOverflow);
    assert_eq!(policy.payment_count, u32::MAX);
    assert_eq!(policy.total_paid, 0);
}

#[test]
fn a_gateway_counter_overflow_is_a_rejected_no_op() {
    let (mut policy, mut user_payment, mut gateway, config) =
        fixture(1_000, PaymentFrequency::Daily, 50, 100);
    gateway.total_processed = u64::MAX - 999;
    let r = settle(&mut policy, &mut user_payment, &mut gateway, &config, 2_000, T);
    assert_eq!(r.unwrap_err(), PaymentError::ArithmeticOverflow);
    assert_eq!(gateway.total_processed, u64::MAX - 999);
    assert_eq!(policy.payment_count, 0);
}

#[test]
fn a_zero_custom_interval_fails_settlement_without_mutation() {
    // A policy built around an invalid cadence never settles: the schedule
    // cannot advance, and nothing changes.
    let (mut policy, mut user_payment, mut gateway, config) =
        fixture(1_000, PaymentFrequency::Daily, 50, 100);
    policy.policy_type = PolicyType::Subscription {
        amount: 1_000,
        auto_renew: true,
        max_renewals: None,
        payment_frequency: PaymentFrequency::Custom(0),
        next_payment_due: T,
    };
    let r = settle(&mut policy, &mut user_payment, &mut gateway, &config, 2_000, T);
    assert_eq!(r.unwrap_err(), PaymentError::InvalidFrequency);
    assert_eq!(policy.payment_count, 0);
    assert_eq!(policy.next_payment_due(), T);
}

#[test]
fn zero_transfers_are_skipped() {
    // 100 at 50 bps rounds the gateway fee down to zero: only the
    // recipient and the protocol transfer remain.
    let (mut policy, mut user_payment, mut gateway, config) =
        fixture(100, PaymentFrequency::Daily, 50, 100);
    let outcome = settle(&mut policy, &mut user_payment, &mut gateway, &config, 2_000, T)
        .unwrap();
    assert_eq!(
        outcome.transfers,
        vec![
            TransferRequest { from: USER_TOKEN_ACCOUNT, to: RECIPIENT, amount: 99 },
            TransferRequest { from: USER_TOKEN_ACCOUNT, to: PROTOCOL_FEES, amount: 1 },
        ]
    );
}

#[test]
fn preparing_stages_without_mutating() {
    let (policy, user_payment, gateway, config) =
        fixture(1_000_000, PaymentFrequency::Monthly, 50, 100);
    let plan = prepare_settlement(&policy, &user_payment, &gateway, &config, 2_000_000, T)
        .unwrap();
    assert_eq!(plan.amount, 1_000_000);
    assert_eq!(plan.gateway_fee, 5_000);
    assert_eq!(plan.protocol_fee, 10_000);
    assert_eq!(plan.recipient_amount, 985_000);
    assert_eq!(plan.new_next_payment_due, add_months(T, 1).unwrap());
    assert_eq!(plan.new_total_paid, 1_000_000);
    assert_eq!(plan.new_payment_count, 1);
    assert_eq!(plan.new_total_processed, 1_000_000);
    // Staging alone changed nothing.
    assert_eq!(policy.payment_count, 0);
    assert_eq!(policy.next_payment_due(), T);
    assert_eq!(gateway.total_processed, 0);
}

#[test]
fn delegate_checks_compare_the_expected_authority() {
    assert!(token_account_has_delegate(Some(42), 42));
    assert!(!token_account_has_delegate(Some(41), 42));
    assert!(!token_account_has_delegate(None, 42));
}
