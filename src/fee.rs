use vstd::prelude::*;

use crate::error::CpiError;

verus! {

/// The protocol fee in basis points: 1%.
pub const PROTOCOL_FEE_BPS: u64 = 100;

/// Basis points in a whole.
pub const BPS_DENOMINATOR: u64 = 10000;

/// The fee taken from `amount`, rounded down.
pub open spec fn fee_of(amount: int) -> int {
    amount * PROTOCOL_FEE_BPS / BPS_DENOMINATOR as int
}

/// The split of `amount` into fee and remainder, or `Overflow` where the
/// product `amount * PROTOCOL_FEE_BPS` leaves `u64`.
pub open spec fn fee_split(amount: u64) -> Result<(u64, u64), CpiError> {
    if amount * PROTOCOL_FEE_BPS > u64::MAX {
        Err(CpiError::Overflow)
    } else {
        Ok((fee_of(amount as int) as u64, (amount - fee_of(amount as int)) as u64))
    }
}

/// Splits `amount` into the protocol fee and what goes to the recipient,
/// with checked arithmetic.
pub fn split_fee(amount: u64) -> (r: Result<(u64, u64), CpiError>)
    ensures
        r == fee_split(amount),
{
    let product = match amount.checked_mul(PROTOCOL_FEE_BPS) {
        Some(p) => p,
        None => return Err(CpiError::Overflow),
    };
    let fee = match product.checked_div(BPS_DENOMINATOR) {
        Some(f) => f,
        None => return Err(CpiError::Overflow),
    };
    let rest = match amount.checked_sub(fee) {
        Some(x) => x,
        None => return Err(CpiError::Overflow),
    };
    Ok((fee, rest))
}

/// Wherever the fee can be computed, it is `amount * 100 / 10000` rounded
/// down, the remainder is what is left, and the two add up to `amount`.
pub proof fn lemma_fee_split_exact(amount: u64)
    requires
        amount * PROTOCOL_FEE_BPS <= u64::MAX,
    ensures
        fee_split(amount) is Ok,
        fee_split(amount)->Ok_0.0 == amount * 100 / 10000,
        fee_split(amount)->Ok_0.1 == amount - amount * 100 / 10000,
        fee_split(amount)->Ok_0.0 + fee_split(amount)->Ok_0.1 == amount,
        fee_split(amount)->Ok_0.0 <= amount,
{
    assert(amount * 100 / 10000 <= amount) by (nonlinear_arith);
}

} // verus!
