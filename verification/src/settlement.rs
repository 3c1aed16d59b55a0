//! The settlement orchestrator.
//!
//! Settlement is one logical transaction: it validates the preconditions
//! in a fixed order, stages every value it will write — the fee split, the
//! caught-up due date, the bumped counters and the transfer requests — and
//! only then commits them. A failure at any stage aborts the whole call
//! with a distinct error and no mutation; the caller sees either every
//! effect of a settlement or none. The transfers themselves go to the
//! ledger collaborator: the orchestrator only decides whether, how much,
//! and when next.

use crate::errors::PaymentError;
use crate::fees::{fee_of, split};
use crate::schedule::{
    advance_due_ok, advance_due_spec, calculate_next_payment_due, lemma_advance_due_exceeds_now,
    lemma_advance_due_fits_i64,
};
use crate::state::{
    PaymentGateway, PaymentPolicy, PaymentRecord, PaymentStatus, ProgramConfig, UserPayment,
};
use vstd::prelude::*;

verus! {

/// One transfer the ledger collaborator must carry out on the engine's
/// behalf: move `amount` from the payer's funding account to a payee.
#[derive(Clone, Copy, Debug, PartialEq, Eq, Structural)]
pub struct TransferRequest {
    pub from: u64,
    pub to: u64,
    pub amount: u64,
}

/// Every value one settlement will commit, staged before any of it is
/// written: the split of the gross amount, the caught-up due date, the
/// three bumped counters, and the transfers to request from the ledger.
#[derive(Clone, Debug)]
pub struct SettlementPlan {
    pub amount: u64,
    pub recipient_amount: u64,
    pub gateway_fee: u64,
    pub protocol_fee: u64,
    pub new_next_payment_due: i64,
    pub new_total_paid: u64,
    pub new_payment_count: u32,
    pub new_total_processed: u64,
    pub transfers: Vec<TransferRequest>,
}

/// What a successful settlement hands back: the emitted payment record and
/// the transfer requests for the ledger collaborator.
#[derive(Clone, Debug)]
pub struct SettlementOutcome {
    pub record: PaymentRecord,
    pub transfers: Vec<TransferRequest>,
}

/// The precondition checks of a settlement, in their checking order: the
/// first failure's error, or `None` where all five pass.
pub open spec fn precheck_error(
    policy: PaymentPolicy,
    gateway: PaymentGateway,
    config: ProgramConfig,
    available_balance: u64,
    now: i64,
) -> Option<PaymentError> {
    if policy.status != PaymentStatus::Active {
        Some(PaymentError::PolicyNotActive)
    } else if !gateway.is_active {
        Some(PaymentError::GatewayInactive)
    } else if config.emergency_pause {
        Some(PaymentError::ProgramPaused)
    } else if now < policy.policy_type.next_due_spec() {
        Some(PaymentError::PaymentNotDue)
    } else if available_balance < policy.policy_type.amount_spec() {
        Some(PaymentError::InsufficientBalance)
    } else {
        None
    }
}

/// The error one settlement attempt raises, or `None` where it succeeds:
/// a failed precondition first, then a combined fee rate over 10000 basis
/// points, a schedule advance out of range, and a counter that would
/// overflow — each fatal for the attempt, and none mutating anything.
pub open spec fn settle_error(
    policy: PaymentPolicy,
    gateway: PaymentGateway,
    config: ProgramConfig,
    available_balance: u64,
    now: i64,
) -> Option<PaymentError> {
    let amount = policy.policy_type.amount_spec();
    let frequency = policy.policy_type.frequency_spec();
    let due = policy.policy_type.next_due_spec();
    if precheck_error(policy, gateway, config, available_balance, now) is Some {
        precheck_error(policy, gateway, config, available_balance, now)
    } else if gateway.gateway_fee_bps + config.protocol_fee_bps > 10000 {
        Some(PaymentError::ArithmeticOverflow)
    } else if !advance_due_ok(due as int, frequency, now as int) {
        if !frequency.valid() {
            Some(PaymentError::InvalidFrequency)
        } else {
            Some(PaymentError::ArithmeticOverflow)
        }
    } else if policy.total_paid + amount > u64::MAX {
        Some(PaymentError::ArithmeticOverflow)
    } else if policy.payment_count + 1 > u32::MAX {
        Some(PaymentError::ArithmeticOverflow)
    } else if gateway.total_processed + amount > u64::MAX {
        Some(PaymentError::ArithmeticOverflow)
    } else {
        None
    }
}

/// The transfers one settlement requests, in order: recipient, gateway
/// fee, protocol fee, each skipped where its amount is zero.
pub open spec fn transfer_list(
    from: u64,
    recipient_to: u64,
    recipient_amount: u64,
    gateway_to: u64,
    gateway_fee: u64,
    protocol_to: u64,
    protocol_fee: u64,
) -> Seq<TransferRequest> {
    (if recipient_amount > 0 {
        seq![TransferRequest { from, to: recipient_to, amount: recipient_amount }]
    } else {
        Seq::<TransferRequest>::empty()
    }) + (if gateway_fee > 0 {
        seq![TransferRequest { from, to: gateway_to, amount: gateway_fee }]
    } else {
        Seq::<TransferRequest>::empty()
    }) + (if protocol_fee > 0 {
        seq![TransferRequest { from, to: protocol_to, amount: protocol_fee }]
    } else {
        Seq::<TransferRequest>::empty()
    })
}

/// The transfers a settlement of `policy` requests, from the payer's
/// funding account: the net amount to the recipient, and each fee to its
/// configured fee account.
pub open spec fn planned_transfers(
    policy: PaymentPolicy,
    user_payment: UserPayment,
    gateway: PaymentGateway,
    config: ProgramConfig,
) -> Seq<TransferRequest> {
    let amount = policy.policy_type.amount_spec() as int;
    let gateway_fee = fee_of(amount, gateway.gateway_fee_bps as int);
    let protocol_fee = fee_of(amount, config.protocol_fee_bps as int);
    let recipient_amount = amount - gateway_fee - protocol_fee;
    transfer_list(
        user_payment.token_account,
        policy.recipient,
        recipient_amount as u64,
        gateway.fee_recipient,
        gateway_fee as u64,
        config.fee_recipient,
        protocol_fee as u64,
    )
}

/// The policy after a successful settlement at `now`: the due date caught
/// up strictly past `now`, the gross amount added to `total_paid`, the
/// payment counted, and the update stamp touched. Nothing else changes.
pub open spec fn settled_policy(policy: PaymentPolicy, now: i64) -> PaymentPolicy {
    let amount = policy.policy_type.amount_spec();
    let new_due = advance_due_spec(
        policy.policy_type.next_due_spec() as int,
        policy.policy_type.frequency_spec(),
        now as int,
    );
    PaymentPolicy {
        policy_type: policy.policy_type.with_next_due_spec(new_due as i64),
        total_paid: (policy.total_paid + amount) as u64,
        payment_count: (policy.payment_count + 1) as u32,
        updated_at: now,
        ..policy
    }
}

/// The gateway after a settlement of `amount` through it.
pub open spec fn settled_gateway(gateway: PaymentGateway, amount: u64) -> PaymentGateway {
    PaymentGateway { total_processed: (gateway.total_processed + amount) as u64, ..gateway }
}

/// The record a settlement of `policy` at `now` emits; its `record_id` is
/// the policy's payment count after the increment.
pub open spec fn settlement_record(policy: PaymentPolicy, now: i64) -> PaymentRecord {
    PaymentRecord {
        user_payment: policy.user_payment,
        policy_id: policy.policy_id,
        gateway: policy.gateway,
        amount: policy.policy_type.amount_spec(),
        timestamp: now,
        memo: policy.memo,
        record_id: (policy.payment_count + 1) as u32,
    }
}

/// Whether a plan holds exactly the values staged against these
/// aggregates: the staging discipline that makes the commit atomic.
pub open spec fn plan_matches(
    plan: SettlementPlan,
    policy: PaymentPolicy,
    gateway: PaymentGateway,
) -> bool {
    &&& plan.amount == policy.policy_type.amount_spec()
    &&& plan.new_total_paid == policy.total_paid + plan.amount
    &&& plan.new_payment_count == policy.payment_count + 1
    &&& plan.new_total_processed == gateway.total_processed + plan.amount
}

/// Whether a funding account has delegated transfer authority to the
/// expected delegate.
pub fn token_account_has_delegate(delegate: Option<u64>, expected_delegate: u64) -> (r: bool)
    ensures
        r == (delegate == Some(expected_delegate)),
{
    match delegate {
        Some(d) => d == expected_delegate,
        None => false,
    }
}

/// Validate a settlement and stage every value it will commit, mutating
/// nothing. The preconditions are checked in order — status, gateway,
/// pause, timing, balance — each failing fast with its own error; then the
/// combined fee rate is checked against 10000 basis points, the split and
/// the caught-up due date are computed, and the three counters are bumped,
/// any overflow failing the attempt. The staged transfers skip any zero
/// amount.
pub fn prepare_settlement(
    policy: &PaymentPolicy,
    user_payment: &UserPayment,
    gateway: &PaymentGateway,
    config: &ProgramConfig,
    available_balance: u64,
    now: i64,
) -> (r: Result<SettlementPlan, PaymentError>)
    ensures
        match r {
            Ok(plan) => {
                &&& settle_error(*policy, *gateway, *config, available_balance, now) is None
                &&& plan_matches(plan, *policy, *gateway)
                &&& plan.gateway_fee == fee_of(
                    policy.policy_type.amount_spec() as int,
                    gateway.gateway_fee_bps as int,
                )
                &&& plan.protocol_fee == fee_of(
                    policy.policy_type.amount_spec() as int,
                    config.protocol_fee_bps as int,
                )
                &&& plan.recipient_amount == plan.amount - plan.gateway_fee - plan.protocol_fee
                &&& plan.recipient_amount + plan.gateway_fee + plan.protocol_fee == plan.amount
                &&& plan.new_next_payment_due == advance_due_spec(
                    policy.policy_type.next_due_spec() as int,
                    policy.policy_type.frequency_spec(),
                    now as int,
                )
                &&& plan.new_next_payment_due > now
                &&& plan.transfers@ == planned_transfers(*policy, *user_payment, *gateway, *config)
            },
            Err(e) => settle_error(*policy, *gateway, *config, available_balance, now) == Some(e),
        },
{
    // Preconditions, in order, each failing fast with a distinct error.
    if !(policy.status == PaymentStatus::Active) {
        return Err(PaymentError::PolicyNotActive);
    }
    if !gateway.is_active {
        return Err(PaymentError::GatewayInactive);
    }
    if config.emergency_pause {
        return Err(PaymentError::ProgramPaused);
    }
    let due = policy.next_payment_due();
    if now < due {
        return Err(PaymentError::PaymentNotDue);
    }
    let amount = policy.amount();
    if available_balance < amount {
        return Err(PaymentError::InsufficientBalance);
    }

    // The fee-rate invariant holds at settlement time: checked, not stored.
    if gateway.gateway_fee_bps as u32 + config.protocol_fee_bps as u32 > 10000 {
        return Err(PaymentError::ArithmeticOverflow);
    }

    // Stage the split, the caught-up due date, and the bumped counters.
    let (recipient_amount, gateway_fee, protocol_fee) = split(
        amount,
        gateway.gateway_fee_bps,
        config.protocol_fee_bps,
    );
    let frequency = policy.policy_type.payment_frequency();
    let new_next_payment_due = calculate_next_payment_due(due, &frequency, now)?;
    let new_total_paid = match policy.total_paid.checked_add(amount) {
        Some(v) => v,
        None => {
            return Err(PaymentError::ArithmeticOverflow);
        },
    };
    let new_payment_count = match policy.payment_count.checked_add(1) {
        Some(v) => v,
        None => {
            return Err(PaymentError::ArithmeticOverflow);
        },
    };
    let new_total_processed = match gateway.total_processed.checked_add(amount) {
        Some(v) => v,
        None => {
            return Err(PaymentError::ArithmeticOverflow);
        },
    };

    // Stage the transfer requests, skipping any zero amount.
    let mut transfers: Vec<TransferRequest> = Vec::new();
    if recipient_amount > 0 {
        transfers.push(
            TransferRequest {
                from: user_payment.token_account,
                to: policy.recipient,
                amount: recipient_amount,
            },
        );
    }
    if gateway_fee > 0 {
        transfers.push(
            TransferRequest {
                from: user_payment.token_account,
                to: gateway.fee_recipient,
                amount: gateway_fee,
            },
        );
    }
    if protocol_fee > 0 {
        transfers.push(
            TransferRequest {
                from: user_payment.token_account,
                to: config.fee_recipient,
                amount: protocol_fee,
            },
        );
    }
    proof {
        assert(transfers@ =~= planned_transfers(*policy, *user_payment, *gateway, *config));
    }

    Ok(
        SettlementPlan {
            amount,
            recipient_amount,
            gateway_fee,
            protocol_fee,
            new_next_payment_due,
            new_total_paid,
            new_payment_count,
            new_total_processed,
            transfers,
        },
    )
}

/// Commit a staged settlement, once every transfer request has been
/// carried out: write the staged due date and counters, touch the update
/// stamps, and emit the payment record. The plan must hold exactly the
/// values staged against these aggregates; the commit itself computes
/// nothing and cannot fail.
pub fn commit_settlement(
    policy: &mut PaymentPolicy,
    user_payment: &mut UserPayment,
    gateway: &mut PaymentGateway,
    plan: &SettlementPlan,
    now: i64,
) -> (record: PaymentRecord)
    requires
        plan_matches(*plan, *old(policy), *old(gateway)),
    ensures
        *final(policy) == (PaymentPolicy {
            policy_type: old(policy).policy_type.with_next_due_spec(plan.new_next_payment_due),
            total_paid: plan.new_total_paid,
            payment_count: plan.new_payment_count,
            updated_at: now,
            ..*old(policy)
        }),
        *final(user_payment) == (UserPayment { updated_at: now, ..*old(user_payment) }),
        *final(gateway) == (PaymentGateway {
            total_processed: plan.new_total_processed,
            ..*old(gateway)
        }),
        record == settlement_record(*old(policy), now),
{
    policy.policy_type = policy.policy_type.with_next_due(plan.new_next_payment_due);
    policy.total_paid = plan.new_total_paid;
    policy.payment_count = plan.new_payment_count;
    policy.updated_at = now;
    user_payment.updated_at = now;
    gateway.total_processed = plan.new_total_processed;
    PaymentRecord {
        user_payment: policy.user_payment,
        policy_id: policy.policy_id,
        gateway: policy.gateway,
        amount: plan.amount,
        timestamp: now,
        memo: policy.memo,
        record_id: plan.new_payment_count,
    }
}

/// Settle one due payment: validate, stage, commit, and hand back the
/// payment record with the transfer requests for the ledger. On any error
/// nothing is mutated — settlement before the due date, in particular, is
/// a no-op with the not-due error — and on success the due date is caught
/// up strictly past `now`, so a repeated call at the same `now` settles
/// nothing twice.
pub fn settle(
    policy: &mut PaymentPolicy,
    user_payment: &mut UserPayment,
    gateway: &mut PaymentGateway,
    config: &ProgramConfig,
    available_balance: u64,
    now: i64,
) -> (r: Result<SettlementOutcome, PaymentError>)
    ensures
        match r {
            Ok(outcome) => {
                &&& settle_error(*old(policy), *old(gateway), *config, available_balance, now)
                    is None
                &&& *final(policy) == settled_policy(*old(policy), now)
                &&& *final(user_payment) == (UserPayment {
                    updated_at: now,
                    ..*old(user_payment)
                })
                &&& *final(gateway) == settled_gateway(
                    *old(gateway),
                    old(policy).policy_type.amount_spec(),
                )
                &&& outcome.record == settlement_record(*old(policy), now)
                &&& outcome.transfers@ == planned_transfers(
                    *old(policy),
                    *old(user_payment),
                    *old(gateway),
                    *config,
                )
            },
            Err(e) => {
                &&& settle_error(*old(policy), *old(gateway), *config, available_balance, now)
                    == Some(e)
                &&& *final(policy) == *old(policy)
                &&& *final(user_payment) == *old(user_payment)
                &&& *final(gateway) == *old(gateway)
            },
        },
{
    let plan = match prepare_settlement(policy, user_payment, gateway, config, available_balance, now) {
        Ok(plan) => plan,
        Err(e) => {
            return Err(e);
        },
    };
    let record = commit_settlement(policy, user_payment, gateway, &plan, now);
    Ok(SettlementOutcome { record, transfers: plan.transfers })
}

/// Settlement happens exactly once per due cycle: after one success at
/// `now`, a second attempt at the same `now` — whatever balance it sees —
/// raises the not-due error, under which `settle`'s contract mutates
/// nothing.
pub proof fn lemma_settle_once_per_cycle(
    policy: PaymentPolicy,
    gateway: PaymentGateway,
    config: ProgramConfig,
    available_balance: u64,
    second_balance: u64,
    now: i64,
)
    requires
        settle_error(policy, gateway, config, available_balance, now) is None,
    ensures
        settle_error(
            settled_policy(policy, now),
            settled_gateway(gateway, policy.policy_type.amount_spec()),
            config,
            second_balance,
            now,
        ) == Some(PaymentError::PaymentNotDue),
{
    let due = policy.policy_type.next_due_spec() as int;
    let frequency = policy.policy_type.frequency_spec();
    lemma_advance_due_exceeds_now(due, frequency, now as int);
    lemma_advance_due_fits_i64(due, frequency, now as int);
}

} // verus!
