//! Bonding-curve pricing: the unit price grows linearly with the amount
//! already sold, and a purchase costs the trapezoidal integral of that line.
use vstd::prelude::*;

use crate::types::Error;

verus! {

/// Slope of the unit-price line in this deployment.
pub const PRICE_SLOPE: u128 = 1;

/// Unit price at zero sold in this deployment.
pub const PRICE_OFFSET: u128 = 0;

/// The unit price once `sold` units are sold: `slope * sold + offset`.
pub open spec fn unit_price(slope: int, offset: int, sold: int) -> int {
    slope * sold + offset
}

/// The sum of the unit prices at both ends of a purchase of `buy` units.
pub open spec fn end_prices(slope: int, offset: int, sold: int, buy: int) -> int {
    unit_price(slope, offset, sold) + unit_price(slope, offset, sold + buy)
}

/// The cost of buying `buy` units after `sold`, with truncating division.
pub open spec fn curve_cost(slope: int, offset: int, sold: int, buy: int) -> int {
    end_prices(slope, offset, sold, buy) * buy / 2
}

/// Whether every intermediate value of the cost fits in a `u128`.
/// Buying nothing costs nothing and never overflows.
pub open spec fn curve_cost_fits(slope: int, offset: int, sold: int, buy: int) -> bool {
    buy == 0 || (sold + buy <= u128::MAX && end_prices(slope, offset, sold, buy) * buy
        <= u128::MAX)
}

/// The cost of buying `buy` after `sold` on the deployed curve (slope 1,
/// offset 0): `(2 * sold + buy) * buy / 2`.
pub open spec fn presale_cost(sold: int, buy: int) -> int {
    (2 * sold + buy) * buy / 2
}

/// Whether the deployed curve's cost can be computed in a `u128`.
pub open spec fn presale_cost_fits(sold: int, buy: int) -> bool {
    (2 * sold + buy) * buy <= u128::MAX
}

proof fn lemma_mul_nonneg(a: int, b: int)
    requires
        a >= 0,
        b >= 0,
    ensures
        a * b >= 0,
{
    assert(a * b >= 0) by (nonlinear_arith)
        requires
            a >= 0,
            b >= 0,
    ;
}

proof fn lemma_mul_at_least(a: int, b: int)
    requires
        a >= 0,
        b >= 1,
    ensures
        a * b >= a,
{
    assert(a * b >= a) by (nonlinear_arith)
        requires
            a >= 0,
            b >= 1,
    ;
}

/// Every term of the cost is bounded by the product of the end prices and
/// the amount bought.
proof fn lemma_terms_bounded(slope: int, offset: int, sold: int, buy: int)
    requires
        slope >= 0,
        offset >= 0,
        sold >= 0,
        buy >= 1,
    ensures
        slope * sold >= 0,
        slope * (sold + buy) >= 0,
        end_prices(slope, offset, sold, buy) * buy >= end_prices(slope, offset, sold, buy),
        end_prices(slope, offset, sold, buy) >= unit_price(slope, offset, sold),
        end_prices(slope, offset, sold, buy) >= unit_price(slope, offset, sold + buy),
{
    lemma_mul_nonneg(slope, sold);
    lemma_mul_nonneg(slope, sold + buy);
    lemma_mul_at_least(end_prices(slope, offset, sold, buy), buy);
}

/// Computes the cost of buying `buy` units once `sold` units are sold on the
/// curve `slope * x + offset`. Buying nothing costs nothing; otherwise an
/// intermediate value that would not fit in a `u128` gives `Overflow`.
pub fn bonding_curve_cost(slope: u128, offset: u128, sold: u128, buy: u128) -> (r: Result<
    u128,
    Error,
>)
    ensures
        buy == 0 ==> r == Ok::<u128, Error>(0),
        curve_cost_fits(slope as int, offset as int, sold as int, buy as int) ==> r == Ok::<
            u128,
            Error,
        >(curve_cost(slope as int, offset as int, sold as int, buy as int) as u128),
        !curve_cost_fits(slope as int, offset as int, sold as int, buy as int) ==> r == Err::<
            u128,
            Error,
        >(Error::Overflow),
{
    if buy == 0 {
        assert(curve_cost(slope as int, offset as int, sold as int, 0) == 0) by (nonlinear_arith);
        return Ok(0);
    }
    proof {
        lemma_terms_bounded(slope as int, offset as int, sold as int, buy as int);
    }
    let end = match sold.checked_add(buy) {
        Some(e) => e,
        None => return Err(Error::Overflow),
    };
    let current = match slope.checked_mul(sold) {
        Some(p) => match p.checked_add(offset) {
            Some(q) => q,
            None => return Err(Error::Overflow),
        },
        None => return Err(Error::Overflow),
    };
    let next = match slope.checked_mul(end) {
        Some(p) => match p.checked_add(offset) {
            Some(q) => q,
            None => return Err(Error::Overflow),
        },
        None => return Err(Error::Overflow),
    };
    let sum = match current.checked_add(next) {
        Some(s) => s,
        None => return Err(Error::Overflow),
    };
    match sum.checked_mul(buy) {
        Some(product) => Ok(product / 2),
        None => Err(Error::Overflow),
    }
}

/// On the deployed curve the general cost is `(2 * sold + buy) * buy / 2`,
/// and it fits exactly when that product fits.
pub proof fn lemma_presale_curve(sold: int, buy: int)
    requires
        sold >= 0,
        buy >= 0,
    ensures
        curve_cost(1, 0, sold, buy) == presale_cost(sold, buy),
        curve_cost_fits(1, 0, sold, buy) == presale_cost_fits(sold, buy),
{
    assert(end_prices(1, 0, sold, buy) == 2 * sold + buy);
    if buy >= 1 {
        lemma_mul_at_least(2 * sold + buy, buy);
    } else {
        assert((2 * sold + buy) * buy == 0) by (nonlinear_arith)
            requires
                buy == 0,
        ;
    }
}

/// The cost on the deployed curve (slope 1, offset 0) of buying `buy` units
/// once `sold` units are sold.
pub fn presale_price(sold: u128, buy: u128) -> (r: Result<u128, Error>)
    ensures
        buy == 0 ==> r == Ok::<u128, Error>(0),
        presale_cost_fits(sold as int, buy as int) ==> r == Ok::<u128, Error>(
            presale_cost(sold as int, buy as int) as u128,
        ),
        !presale_cost_fits(sold as int, buy as int) ==> r == Err::<u128, Error>(Error::Overflow),
{
    proof {
        lemma_presale_curve(sold as int, buy as int);
    }
    bonding_curve_cost(PRICE_SLOPE, PRICE_OFFSET, sold, buy)
}

} // verus!
