//! The fee splitter.
//!
//! One settlement divides a gross amount three ways: a gateway fee and a
//! protocol fee, each a basis-point rate of the amount rounded down, and
//! the remainder to the recipient. The split is exact — the three parts
//! always sum to the amount — and the rounding remainder accrues entirely
//! to the recipient. Intermediate products are widened to 128 bits, so no
//! amount can overflow the computation.

use vstd::prelude::*;

verus! {

/// The fee a rate of `bps` basis points (1/100 of a percent) takes from
/// `amount`, rounded down.
pub open spec fn fee_of(amount: int, bps: int) -> int {
    amount * bps / 10000
}

/// A fee at a rate of at most 10000 basis points never exceeds the amount,
/// and two fees whose rates sum to at most 10000 basis points never exceed
/// it together.
pub proof fn lemma_fees_bounded(amount: int, g_bps: int, p_bps: int)
    requires
        0 <= amount,
        0 <= g_bps,
        0 <= p_bps,
        g_bps + p_bps <= 10000,
    ensures
        0 <= fee_of(amount, g_bps) <= amount,
        0 <= fee_of(amount, p_bps) <= amount,
        fee_of(amount, g_bps) + fee_of(amount, p_bps) <= amount,
{
    assert(0 <= amount * g_bps && 0 <= amount * p_bps && amount * g_bps + amount * p_bps <= amount
        * 10000) by (nonlinear_arith)
        requires
            0 <= amount && 0 <= g_bps && 0 <= p_bps && g_bps + p_bps <= 10000,
    ;
    assert(10000 * (amount * g_bps / 10000) <= amount * g_bps);
    assert(10000 * (amount * p_bps / 10000) <= amount * p_bps);
}

/// Split `amount` into (recipient amount, gateway fee, protocol fee):
/// each fee is its basis-point rate of the amount rounded down, and the
/// recipient takes the rest, so the three parts sum to the amount exactly
/// for every amount and every pair of rates within 10000 basis points.
pub fn split(amount: u64, gateway_fee_bps: u16, protocol_fee_bps: u16) -> (r: (u64, u64, u64))
    requires
        gateway_fee_bps + protocol_fee_bps <= 10000,
    ensures
        ({
            let (recipient_amount, gateway_fee, protocol_fee) = r;
            &&& gateway_fee == fee_of(amount as int, gateway_fee_bps as int)
            &&& protocol_fee == fee_of(amount as int, protocol_fee_bps as int)
            &&& recipient_amount == amount - gateway_fee - protocol_fee
            &&& recipient_amount + gateway_fee + protocol_fee == amount
        }),
{
    proof {
        lemma_fees_bounded(amount as int, gateway_fee_bps as int, protocol_fee_bps as int);
        assert((amount as int) * (gateway_fee_bps as int) <= 0xffff_ffff_ffff_ffff * 10000
            && (amount as int) * (protocol_fee_bps as int) <= 0xffff_ffff_ffff_ffff * 10000)
            by (nonlinear_arith)
            requires
                amount <= 0xffff_ffff_ffff_ffff && gateway_fee_bps <= 10000 && protocol_fee_bps
                    <= 10000,
        ;
    }
    let gateway_fee: u64 = ((amount as u128) * (gateway_fee_bps as u128) / 10000) as u64;
    let protocol_fee: u64 = ((amount as u128) * (protocol_fee_bps as u128) / 10000) as u64;
    let recipient_amount: u64 = amount - gateway_fee - protocol_fee;
    (recipient_amount, gateway_fee, protocol_fee)
}

} // verus!
