use vstd::prelude::*;

use crate::error::BridgeError;

verus! {

/// Fixed-point unity: a rate of `TEN_POW_18` stands for 100%.
pub const TEN_POW_18: u64 = 1000000000000000000;

/// The rate that applies to a token: its own when set, else the bridge-wide one.
pub open spec fn effective_rate(token_fee: u64, stable_fee: u64) -> u64 {
    if token_fee != 0 {
        token_fee
    } else {
        stable_fee
    }
}

/// The fee on `amount` at fixed-point `rate`, or `None` when `amount * rate`
/// does not fit in 64 bits. A rate at or above unity waives the fee.
pub open spec fn fee_for(rate: u64, amount: u64) -> Option<u64> {
    if rate >= TEN_POW_18 {
        Some(0u64)
    } else if amount * rate > u64::MAX {
        None
    } else {
        Some(((amount * rate) / (TEN_POW_18 as int)) as u64)
    }
}

/// A fee is never more than the amount it is taken from.
pub proof fn lemma_fee_at_most_amount(rate: u64, amount: u64)
    requires
        fee_for(rate, amount) is Some,
    ensures
        fee_for(rate, amount).unwrap() <= amount,
{
    if rate < TEN_POW_18 {
        let p = amount * rate;
        assert(p <= amount * (TEN_POW_18 as int)) by (nonlinear_arith)
            requires
                rate < TEN_POW_18,
                p == amount * rate,
                amount >= 0,
        ;
        assert(p / (TEN_POW_18 as int) <= amount) by (nonlinear_arith)
            requires
                p <= amount * (TEN_POW_18 as int),
                p >= 0,
        ;
    }
}

/// The fee on `amount` at fixed-point `rate`: `floor(amount * rate / 10^18)`,
/// zero for a rate at or above unity, `Overflow` when the product does not fit.
pub fn fee_at_rate(rate: u64, amount: u64) -> (r: Result<u64, BridgeError>)
    ensures
        match fee_for(rate, amount) {
            Some(f) => r == Ok::<u64, BridgeError>(f),
            None => r == Err::<u64, BridgeError>(BridgeError::Overflow),
        },
{
    if rate >= TEN_POW_18 {
        return Ok(0);
    }
    match amount.checked_mul(rate) {
        None => Err(BridgeError::Overflow),
        Some(product) => Ok(product / TEN_POW_18),
    }
}

/// The (rate, activation time) pair after a sweep at time `now`: a pending
/// rate whose activation time is set and has passed becomes the rate, and
/// the activation time is cleared.
pub open spec fn swept(rate: u64, pending: u64, effective_at: u64, now: u64) -> (u64, u64) {
    if effective_at != 0 && now > effective_at {
        (pending, 0u64)
    } else {
        (rate, effective_at)
    }
}

} // verus!
