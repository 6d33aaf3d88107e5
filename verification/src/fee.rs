//! The flash-loan fee.
use vstd::prelude::*;
use crate::error::ErrorCode;

verus! {

/// Basis points in one whole.
pub const BPS_DENOMINATOR: u64 = 10000;

/// Whether `amount * fee_bps` fits in a `u64`.
pub open spec fn fee_fits(amount: u64, fee_bps: u16) -> bool {
    amount * fee_bps <= u64::MAX
}

/// The fee on `amount` at `fee_bps` basis points, rounded down.
pub open spec fn fee_of(amount: u64, fee_bps: u16) -> int {
    (amount * fee_bps) / 10000
}

/// Calculate fee based on amount and basis points.
///
/// Fails with `MathOverflow` exactly when `amount * fee_bps` does not fit
/// in a `u64`.
pub fn calc_fee(amount: u64, fee_bps: u16) -> (r: Result<u64, ErrorCode>)
    ensures
        match r {
            Ok(fee) => fee_fits(amount, fee_bps) && fee == fee_of(amount, fee_bps),
            Err(e) => !fee_fits(amount, fee_bps) && e == ErrorCode::MathOverflow,
        },
{
    let product = match amount.checked_mul(fee_bps as u64) {
        Some(p) => p,
        None => return Err(ErrorCode::MathOverflow),
    };
    match product.checked_div(BPS_DENOMINATOR) {
        Some(fee) => Ok(fee),
        None => Err(ErrorCode::MathOverflow),
    }
}

/// At no more than 10000 basis points the fee never exceeds the amount,
/// and at zero basis points it is zero.
pub proof fn lemma_fee_bounded(amount: u64, fee_bps: u16)
    requires
        fee_bps <= 10000,
    ensures
        0 <= fee_of(amount, fee_bps) <= amount,
        fee_bps == 0 ==> fee_of(amount, fee_bps) == 0,
{
    assert(0 <= amount * fee_bps <= amount * 10000) by (nonlinear_arith)
        requires
            fee_bps <= 10000,
    ;
    assert((amount * fee_bps) / 10000 <= amount) by (nonlinear_arith)
        requires
            0 <= amount * fee_bps <= amount * 10000,
    ;
    assert((amount * fee_bps) / 10000 >= 0) by (nonlinear_arith)
        requires
            0 <= amount * fee_bps,
    ;
}

} // verus!
