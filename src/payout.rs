//! The payout formula: prediction error to multiplier, then gross payout,
//! house fee and net payout, all in integer arithmetic.
use vstd::prelude::*;

use crate::error::GamblingError;

verus! {

/// A multiplier of one whole stake, in thousandths.
pub const MULTIPLIER_SCALE: u64 = 1000;

/// A fee rate of 100%, in basis points.
pub const BASIS_POINTS: u64 = 10000;

/// The largest multiplier of the table (10x), in thousandths.
pub const MAX_MULTIPLIER: u64 = 10000;

/// The largest stake a pool may admit: `u64::MAX / 10`, so that the gross
/// payout of any admitted stake at the top multiplier still fits in a `u64`.
pub const MAX_STAKE: u64 = 1844674407370955161;

/// Absolute difference of two integers.
pub open spec fn abs_diff_spec(a: int, b: int) -> int {
    if a >= b {
        a - b
    } else {
        b - a
    }
}

/// The multiplier, in thousandths, earned by a prediction error of `diff`.
/// Each band is inclusive on its upper bound.
pub open spec fn multiplier_spec(diff: int) -> int {
    if diff <= 100 {
        10000
    } else if diff <= 500 {
        5000
    } else if diff <= 1000 {
        2000
    } else if diff <= 2000 {
        1000
    } else {
        0
    }
}

/// Gross payout: the stake scaled by the multiplier, rounded down.
pub open spec fn gross_spec(amount: int, multiplier: int) -> int {
    amount * multiplier / MULTIPLIER_SCALE as int
}

/// House fee: the gross payout scaled by the fee rate, rounded down.
pub open spec fn fee_spec(gross: int, house_edge: int) -> int {
    gross * house_edge / BASIS_POINTS as int
}

/// Net payout: gross minus fee, clamped at zero.
pub open spec fn net_spec(gross: int, fee: int) -> int {
    if fee >= gross {
        0
    } else {
        gross - fee
    }
}

/// The breakdown of what one settled bet earns.
#[derive(Clone, Copy, Debug, PartialEq, Eq, Structural)]
pub struct Payout {
    /// Multiplier in thousandths; zero means the stake is lost.
    pub multiplier: u64,
    pub gross: u64,
    pub fee: u64,
    /// What the player receives.
    pub payout: u64,
}

/// What a stake of `amount` earns for a prediction against an outcome, or
/// `ArithmeticOverflow` when the gross payout leaves the range of `u64`.
pub open spec fn quote_spec(amount: u64, predicted: u64, actual: u64, house_edge: u16) -> Result<
    Payout,
    GamblingError,
> {
    let m = multiplier_spec(abs_diff_spec(predicted as int, actual as int));
    let g = gross_spec(amount as int, m);
    if g > u64::MAX {
        Err(GamblingError::ArithmeticOverflow)
    } else {
        let f = fee_spec(g, house_edge as int);
        Ok(
            Payout {
                multiplier: m as u64,
                gross: g as u64,
                fee: f as u64,
                payout: net_spec(g, f) as u64,
            },
        )
    }
}

/// Absolute difference of two `u64` values, without a detour through a signed type.
pub fn abs_diff(a: u64, b: u64) -> (r: u64)
    ensures
        r == abs_diff_spec(a as int, b as int),
{
    if a >= b {
        a - b
    } else {
        b - a
    }
}

/// Multiplier band for a prediction error, first match in ascending order.
pub fn multiplier_for(diff: u64) -> (r: u64)
    ensures
        r == multiplier_spec(diff as int),
        r <= MAX_MULTIPLIER,
{
    if diff <= 100 {
        10000
    } else if diff <= 500 {
        5000
    } else if diff <= 1000 {
        2000
    } else if diff <= 2000 {
        1000
    } else {
        0
    }
}

/// Gross payout of a stake, computed in 128 bits; refused when it does not fit in `u64`.
pub fn gross_payout(amount: u64, multiplier: u64) -> (r: Result<u64, GamblingError>)
    requires
        multiplier <= MAX_MULTIPLIER,
    ensures
        r is Ok <==> gross_spec(amount as int, multiplier as int) <= u64::MAX,
        r matches Ok(g) ==> g == gross_spec(amount as int, multiplier as int),
        r matches Err(e) ==> e == GamblingError::ArithmeticOverflow,
{
    let a = amount as u128;
    let m = multiplier as u128;
    assert(a * m <= 0xffff_ffff_ffff_ffffu128 * 10000) by (nonlinear_arith)
        requires
            a <= 0xffff_ffff_ffff_ffffu128,
            m <= 10000,
    ;
    let g = a * m / (MULTIPLIER_SCALE as u128);
    if g > u64::MAX as u128 {
        Err(GamblingError::ArithmeticOverflow)
    } else {
        Ok(g as u64)
    }
}

/// House fee on a gross payout; never more than the gross payout itself.
pub fn house_fee(gross: u64, house_edge: u16) -> (r: u64)
    requires
        house_edge <= BASIS_POINTS,
    ensures
        r == fee_spec(gross as int, house_edge as int),
        r <= gross,
{
    let g = gross as u128;
    let e = house_edge as u128;
    assert(g * e <= g * 10000) by (nonlinear_arith)
        requires
            e <= 10000,
    ;
    assert(g * 10000 <= 0xffff_ffff_ffff_ffffu128 * 10000) by (nonlinear_arith)
        requires
            g <= 0xffff_ffff_ffff_ffffu128,
    ;
    let f = g * e / (BASIS_POINTS as u128);
    assert(f <= g) by (nonlinear_arith)
        requires
            f == g * e / 10000,
            g * e <= g * 10000,
    ;
    f as u64
}

/// Everything a stake earns for a prediction against an observed outcome.
pub fn quote(amount: u64, predicted: u64, actual: u64, house_edge: u16) -> (r: Result<
    Payout,
    GamblingError,
>)
    requires
        house_edge <= BASIS_POINTS,
    ensures
        r == quote_spec(amount, predicted, actual, house_edge),
{
    let diff = abs_diff(predicted, actual);
    let multiplier = multiplier_for(diff);
    match gross_payout(amount, multiplier) {
        Err(e) => Err(e),
        Ok(gross) => {
            let fee = house_fee(gross, house_edge);
            let payout = gross - fee;
            Ok(Payout { multiplier, gross, fee, payout })
        },
    }
}

} // verus!
