//! The protocol fee: a share of an amount, given in basis points.

use crate::error::ErrorCode;
use vstd::prelude::*;

verus! {

/// One hundred per cent, in basis points.
pub const BASIS_POINTS: u64 = 10000;

/// The fee on `amount` at `rate` basis points, rounded down.
pub open spec fn fee(amount: nat, rate: nat) -> nat {
    (amount * rate) / 10000
}

/// What is left of `amount` once the fee is taken. Negative where the fee
/// exceeds the amount, which only a rate above one hundred per cent can cause.
pub open spec fn remainder(amount: nat, rate: nat) -> int {
    amount - fee(amount, rate)
}

/// A fee and what it leaves of the amount it was taken from.
#[derive(Clone, Copy, Debug, PartialEq, Eq, Structural)]
pub struct FeeSplit {
    pub fee: u64,
    pub remainder: u64,
}

/// The product of two 64-bit numbers fits in 128 bits.
proof fn lemma_product_fits(amount: u64, rate: u64)
    ensures
        amount * rate <= u128::MAX,
{
    assert(amount * rate <= 0xffff_ffff_ffff_ffff * 0xffff_ffff_ffff_ffff) by (nonlinear_arith)
        requires
            amount <= 0xffff_ffff_ffff_ffff,
            rate <= 0xffff_ffff_ffff_ffff,
    ;
}

/// Fee and remainder make up the amount. At a rate of at most one hundred
/// per cent the fee is no more than the amount, so the remainder is not
/// negative.
pub proof fn lemma_fee_and_remainder(amount: nat, rate: nat)
    requires
        rate <= 10000,
    ensures
        fee(amount, rate) + remainder(amount, rate) == amount,
        fee(amount, rate) <= amount,
        0 <= remainder(amount, rate) <= amount,
{
    assert(amount * rate <= amount * 10000) by (nonlinear_arith)
        requires
            rate <= 10000,
    ;
    assert((amount * 10000) / 10000 == amount) by (nonlinear_arith);
    assert((amount * rate) / 10000 <= (amount * 10000) / 10000) by (nonlinear_arith)
        requires
            amount * rate <= amount * 10000,
    ;
}

/// The fee on `amount` at `rate` basis points. The product is formed in 128
/// bits, so it is exact; the call fails only where the fee itself does not
/// fit in 64 bits.
pub fn compute_fee(amount: u64, rate: u64) -> (result: Result<u64, ErrorCode>)
    ensures
        match result {
            Ok(charged) => charged == fee(amount as nat, rate as nat),
            Err(e) => e == ErrorCode::ArithmeticError && fee(amount as nat, rate as nat)
                > u64::MAX,
        },
        rate <= BASIS_POINTS ==> result is Ok,
{
    proof {
        lemma_product_fits(amount, rate);
        if rate <= 10000 {
            lemma_fee_and_remainder(amount as nat, rate as nat);
        }
    }
    let product: u128 = (amount as u128) * (rate as u128);
    let charged: u128 = product / (BASIS_POINTS as u128);
    if charged > u64::MAX as u128 {
        Err(ErrorCode::ArithmeticError)
    } else {
        Ok(charged as u64)
    }
}

/// The fee on `amount` and what it leaves. Fails where the fee exceeds the
/// amount, in place of a remainder that wraps.
pub fn deduct_fee(amount: u64, rate: u64) -> (result: Result<FeeSplit, ErrorCode>)
    ensures
        match result {
            Ok(split) => {
                &&& split.fee == fee(amount as nat, rate as nat)
                &&& split.remainder == remainder(amount as nat, rate as nat)
            },
            Err(e) => e == ErrorCode::ArithmeticError && remainder(amount as nat, rate as nat)
                < 0,
        },
        rate <= BASIS_POINTS ==> result is Ok,
{
    proof {
        if rate <= 10000 {
            lemma_fee_and_remainder(amount as nat, rate as nat);
        }
    }
    match compute_fee(amount, rate) {
        Ok(charged) => {
            if charged > amount {
                Err(ErrorCode::ArithmeticError)
            } else {
                Ok(FeeSplit { fee: charged, remainder: amount - charged })
            }
        },
        Err(e) => Err(e),
    }
}

} // verus!
