//! The aggregates of the engine and the policy state machine.
//!
//! Every aggregate lives in a keyed store owned by the caller; keys are
//! plain identifiers, and cross-aggregate links (policy to gateway, policy
//! to user-payment) are non-owning back-references resolved by lookup. A
//! policy is created `Active`, may be paused and resumed by an explicit
//! action, and is never deleted. Creation validates the billing parameters
//! and rejects bad ones before any state exists.

use crate::errors::PaymentError;
use crate::schedule::PaymentFrequency;
use vstd::prelude::*;

verus! {

/// Whether settlement may currently proceed against a policy.
#[derive(Clone, Copy, Debug, PartialEq, Eq, Structural)]
pub enum PaymentStatus {
    Active,
    Paused,
}

/// The payment scheme of one policy: what one billing cycle costs and how
/// often it falls due. A closed variant set, so that a future scheme is a
/// compile-time-checked addition at every use site.
#[derive(Clone, Copy, Debug, PartialEq, Eq)]
pub enum PolicyType {
    Subscription {
        amount: u64,
        auto_renew: bool,
        max_renewals: Option<u32>,
        payment_frequency: PaymentFrequency,
        next_payment_due: i64,
    },
}

impl PolicyType {
    /// The gross amount of one billing cycle.
    pub open spec fn amount_spec(self) -> u64 {
        match self {
            PolicyType::Subscription { amount, .. } => amount,
        }
    }

    /// The cadence on which the cycles fall due.
    pub open spec fn frequency_spec(self) -> PaymentFrequency {
        match self {
            PolicyType::Subscription { payment_frequency, .. } => payment_frequency,
        }
    }

    /// The single source of truth for when the next payment falls due.
    pub open spec fn next_due_spec(self) -> i64 {
        match self {
            PolicyType::Subscription { next_payment_due, .. } => next_payment_due,
        }
    }

    /// The same scheme with the due date replaced.
    pub open spec fn with_next_due_spec(self, due: i64) -> PolicyType {
        match self {
            PolicyType::Subscription { amount, auto_renew, max_renewals, payment_frequency, .. } => {
                PolicyType::Subscription {
                    amount,
                    auto_renew,
                    max_renewals,
                    payment_frequency,
                    next_payment_due: due,
                }
            },
        }
    }

    /// Whether the parameters may create a policy: a positive amount, a
    /// valid cadence, and a positive renewal cap where one is set.
    pub open spec fn valid(self) -> bool {
        match self {
            PolicyType::Subscription { amount, max_renewals, payment_frequency, .. } => {
                &&& amount > 0
                &&& payment_frequency.valid()
                &&& (max_renewals matches Some(n) ==> n > 0)
            },
        }
    }

    /// The validation error the parameters raise, checked in order: the
    /// amount, then the cadence, then the renewal cap.
    pub open spec fn validation_error(self) -> PaymentError {
        match self {
            PolicyType::Subscription { amount, payment_frequency, .. } => {
                if amount == 0 {
                    PaymentError::InvalidAmount
                } else if !payment_frequency.valid() {
                    PaymentError::InvalidFrequency
                } else {
                    PaymentError::InvalidInterval
                }
            },
        }
    }

    /// The gross amount of one billing cycle.
    pub fn amount(&self) -> (r: u64)
        ensures
            r == self.amount_spec(),
    {
        match self {
            PolicyType::Subscription { amount, .. } => *amount,
        }
    }

    /// The cadence on which the cycles fall due.
    pub fn payment_frequency(&self) -> (r: PaymentFrequency)
        ensures
            r == self.frequency_spec(),
    {
        match self {
            PolicyType::Subscription { payment_frequency, .. } => *payment_frequency,
        }
    }

    /// When the next payment falls due.
    pub fn next_payment_due(&self) -> (r: i64)
        ensures
            r == self.next_due_spec(),
    {
        match self {
            PolicyType::Subscription { next_payment_due, .. } => *next_payment_due,
        }
    }

    /// Validates the scheme and its parameters: rejects a zero amount,
    /// an invalid cadence, and a zero renewal cap, in that order, and
    /// accepts everything else.
    pub fn validate(&self) -> (r: Result<(), PaymentError>)
        ensures
            match r {
                Ok(_) => self.valid(),
                Err(e) => !self.valid() && e == self.validation_error(),
            },
    {
        match self {
            PolicyType::Subscription { amount, payment_frequency, max_renewals, .. } => {
                if *amount == 0 {
                    return Err(PaymentError::InvalidAmount);
                }
                payment_frequency.validate()?;
                if let Some(renewals) = max_renewals {
                    if *renewals == 0 {
                        return Err(PaymentError::InvalidInterval);
                    }
                }
                Ok(())
            },
        }
    }
}

/// The singleton program configuration managed by an admin: the protocol
/// fee schedule and the emergency pause flag.
#[derive(Clone, Copy, Debug)]
pub struct ProgramConfig {
    pub admin: u64,
    pub fee_recipient: u64,
    pub protocol_fee_bps: u16,
    pub max_policies_per_user: u32,
    pub emergency_pause: bool,
}

impl ProgramConfig {
    /// The configuration invariant: the protocol rate stays within 10000
    /// basis points.
    pub open spec fn well_formed(self) -> bool {
        self.protocol_fee_bps <= 10000
    }

    /// Create the configuration, unpaused. Created once by an admin; the
    /// protocol rate must lie within 10000 basis points.
    pub fn new(admin: u64, fee_recipient: u64, protocol_fee_bps: u16, max_policies_per_user: u32) -> (r:
        ProgramConfig)
        requires
            protocol_fee_bps <= 10000,
        ensures
            r == (ProgramConfig {
                admin,
                fee_recipient,
                protocol_fee_bps,
                max_policies_per_user,
                emergency_pause: false,
            }),
            r.well_formed(),
    {
        ProgramConfig { admin, fee_recipient, protocol_fee_bps, max_policies_per_user, emergency_pause: false }
    }

    /// Set the emergency pause flag; an admin action. Nothing else changes.
    pub fn set_pause(&mut self, paused: bool)
        ensures
            *final(self) == (ProgramConfig { emergency_pause: paused, ..*old(self) }),
    {
        self.emergency_pause = paused;
    }
}

/// A gateway operator: the service that triggers settlement and takes a
/// cut of each payment.
#[derive(Clone, Copy, Debug)]
pub struct PaymentGateway {
    pub authority: u64,
    pub fee_recipient: u64,
    pub gateway_fee_bps: u16,
    pub is_active: bool,
    pub total_processed: u64,
    pub created_at: i64,
}

impl PaymentGateway {
    /// Register a gateway: active, with nothing processed yet.
    pub fn new(authority: u64, fee_recipient: u64, gateway_fee_bps: u16, created_at: i64) -> (r:
        PaymentGateway)
        ensures
            r == (PaymentGateway {
                authority,
                fee_recipient,
                gateway_fee_bps,
                is_active: true,
                total_processed: 0,
                created_at,
            }),
    {
        PaymentGateway {
            authority,
            fee_recipient,
            gateway_fee_bps,
            is_active: true,
            total_processed: 0,
            created_at,
        }
    }
}

/// One payer's funding relationship: the owner, the funding account, and
/// statistics across all of the owner's policies on that account.
#[derive(Clone, Copy, Debug)]
pub struct UserPayment {
    pub owner: u64,
    pub token_account: u64,
    pub token_mint: u64,
    pub active_policies_count: u32,
    pub created_at: i64,
    pub updated_at: i64,
    pub is_active: bool,
}

impl UserPayment {
    /// Register a payer's funding source: active, with no policies yet.
    pub fn new(owner: u64, token_account: u64, token_mint: u64, now: i64) -> (r: UserPayment)
        ensures
            r == (UserPayment {
                owner,
                token_account,
                token_mint,
                active_policies_count: 0,
                created_at: now,
                updated_at: now,
                is_active: true,
            }),
    {
        UserPayment {
            owner,
            token_account,
            token_mint,
            active_policies_count: 0,
            created_at: now,
            updated_at: now,
            is_active: true,
        }
    }
}

/// One subscription: a payer's standing order to pay a recipient on a
/// schedule through a chosen gateway.
#[derive(Clone, Copy, Debug)]
pub struct PaymentPolicy {
    pub user_payment: u64,
    pub recipient: u64,
    pub gateway: u64,
    pub policy_type: PolicyType,
    pub status: PaymentStatus,
    pub memo: [u8; 64],
    pub total_paid: u64,
    pub payment_count: u32,
    pub created_at: i64,
    pub updated_at: i64,
    pub policy_id: u32,
}

impl PaymentPolicy {
    /// The gross amount of one billing cycle.
    pub fn amount(&self) -> (r: u64)
        ensures
            r == self.policy_type.amount_spec(),
    {
        self.policy_type.amount()
    }

    /// When the next payment falls due.
    pub fn next_payment_due(&self) -> (r: i64)
        ensures
            r == self.policy_type.next_due_spec(),
    {
        self.policy_type.next_payment_due()
    }

    /// Pause the policy: settlement is rejected until it is resumed.
    /// Nothing but the status and the update stamp changes.
    pub fn pause(&mut self, now: i64)
        ensures
            *final(self) == (PaymentPolicy {
                status: PaymentStatus::Paused,
                updated_at: now,
                ..*old(self)
            }),
    {
        self.status = PaymentStatus::Paused;
        self.updated_at = now;
    }

    /// Resume a paused policy. Nothing but the status and the update stamp
    /// changes.
    pub fn resume(&mut self, now: i64)
        ensures
            *final(self) == (PaymentPolicy {
                status: PaymentStatus::Active,
                updated_at: now,
                ..*old(self)
            }),
    {
        self.status = PaymentStatus::Active;
        self.updated_at = now;
    }
}

/// One settlement's event record, emitted after the mutations commit; its
/// `record_id` equals the policy's payment count after the increment.
#[derive(Clone, Copy, Debug)]
pub struct PaymentRecord {
    pub user_payment: u64,
    pub policy_id: u32,
    pub gateway: u64,
    pub amount: u64,
    pub timestamp: i64,
    pub memo: [u8; 64],
    pub record_id: u32,
}

/// Create a payment policy for a payer against a chosen gateway and
/// recipient. The parameters are validated first — a zero amount, a zero
/// custom interval and a zero renewal cap are each rejected with their own
/// error and nothing is created. The first due date is `start_time` where
/// one is given and `now` otherwise; the policy starts `Active` with
/// nothing paid, and the owning user-payment aggregate counts it.
pub fn create_policy(
    user_payment_key: u64,
    user_payment: &mut UserPayment,
    policy_id: u32,
    recipient: u64,
    gateway: u64,
    policy_type: PolicyType,
    memo: [u8; 64],
    start_time: Option<i64>,
    now: i64,
) -> (r: Result<PaymentPolicy, PaymentError>)
    ensures
        match r {
            Ok(policy) => {
                let first_due = match start_time {
                    Some(t) => t,
                    None => now,
                };
                &&& policy_type.valid()
                &&& old(user_payment).active_policies_count < u32::MAX
                &&& policy == (PaymentPolicy {
                    user_payment: user_payment_key,
                    recipient,
                    gateway,
                    policy_type: policy_type.with_next_due_spec(first_due),
                    status: PaymentStatus::Active,
                    memo,
                    total_paid: 0,
                    payment_count: 0,
                    created_at: now,
                    updated_at: now,
                    policy_id,
                })
                &&& *final(user_payment) == (UserPayment {
                    active_policies_count: (old(user_payment).active_policies_count + 1) as u32,
                    updated_at: now,
                    ..*old(user_payment)
                })
            },
            Err(e) => {
                &&& *final(user_payment) == *old(user_payment)
                &&& !(policy_type.valid() && old(user_payment).active_policies_count < u32::MAX)
                &&& e == (if !policy_type.valid() {
                    policy_type.validation_error()
                } else {
                    PaymentError::ArithmeticOverflow
                })
            },
        },
{
    policy_type.validate()?;
    let new_count = match user_payment.active_policies_count.checked_add(1) {
        Some(c) => c,
        None => {
            return Err(PaymentError::ArithmeticOverflow);
        },
    };
    let first_due = match start_time {
        Some(t) => t,
        None => now,
    };
    let policy = PaymentPolicy {
        user_payment: user_payment_key,
        recipient,
        gateway,
        policy_type: policy_type.with_next_due(first_due),
        status: PaymentStatus::Active,
        memo,
        total_paid: 0,
        payment_count: 0,
        created_at: now,
        updated_at: now,
        policy_id,
    };
    user_payment.active_policies_count = new_count;
    user_payment.updated_at = now;
    Ok(policy)
}

impl PolicyType {
    /// The same scheme with the due date replaced.
    pub fn with_next_due(&self, due: i64) -> (r: PolicyType)
        ensures
            r == self.with_next_due_spec(due),
    {
        match self {
            PolicyType::Subscription { amount, auto_renew, max_renewals, payment_frequency, .. } => {
                PolicyType::Subscription {
                    amount: *amount,
                    auto_renew: *auto_renew,
                    max_renewals: *max_renewals,
                    payment_frequency: *payment_frequency,
                    next_payment_due: due,
                }
            },
        }
    }
}

} // verus!
