//! The error taxonomy of the engine.
//!
//! Validation errors reject bad parameters at policy creation, precondition
//! errors abort a settlement attempt before any state is touched, and the
//! arithmetic error marks an overflow or an out-of-range date that makes the
//! attempt fatal. No error is ever swallowed: every failure aborts the whole
//! call that raised it.

use vstd::prelude::*;

verus! {

/// Every way a creation or settlement call can fail.
#[derive(Clone, Copy, Debug, PartialEq, Eq, Structural)]
pub enum PaymentError {
    /// A subscription amount of zero was supplied at creation.
    InvalidAmount,
    /// A `max_renewals` of zero was supplied at creation.
    InvalidInterval,
    /// A custom frequency with a zero interval was supplied.
    InvalidFrequency,
    /// Settlement was attempted on a policy that is not `Active`.
    PolicyNotActive,
    /// Settlement was attempted through a deactivated gateway.
    GatewayInactive,
    /// Settlement was attempted while the program is paused.
    ProgramPaused,
    /// Settlement was attempted before the next due date.
    PaymentNotDue,
    /// The funding balance does not cover the subscription amount.
    InsufficientBalance,
    /// A counter or a date computation left its representable range.
    ArithmeticOverflow,
}

} // verus!
