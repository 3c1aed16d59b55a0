//! A recurring-payment (subscription billing) engine.
//!
//! The library tracks payer/payee aggregates, advances billing schedules
//! through a Gregorian-calendar-aware due-date algorithm, and settles each
//! due payment by splitting the gross amount among a recipient, a gateway
//! operator, and a protocol treasury. Every operation is pure computation
//! over plain values; the surrounding runtime (a keyed store, a ledger,
//! a clock) supplies inputs and carries out the transfer requests that a
//! settlement returns.

pub mod calendar;
pub mod errors;
pub mod fees;
pub mod schedule;
pub mod settlement;
pub mod state;
