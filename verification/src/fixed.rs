//! Fixed-point numbers: [`FixedU128`] with eighteen decimals, and [`Ratio`] in parts per million.

use sp_runtime::traits::{CheckedDiv, CheckedMul};
use sp_runtime::FixedPointNumber;
use vstd::prelude::*;

verus! {

/// The inner value of the number one.
pub const DIV: u128 = 1_000_000_000_000_000_000;

/// The parts of a whole [`Ratio`].
pub const ACCURACY: u32 = 1_000_000;

/// An unsigned fixed-point number: `inner` counts units of `1 / DIV`.
#[derive(Clone, Copy, Debug, PartialEq, Eq, Structural)]
pub struct FixedU128 {
    pub inner: u128,
}

/// An interest rate, an exchange rate or an interest index.
pub type Rate = FixedU128;

/// The price of the smallest unit of an asset.
pub type Price = FixedU128;

/// By how much the collateral of an account exceeds its debts.
pub type Liquidity = FixedU128;

/// By how much the debts of an account exceed its collateral.
pub type Shortfall = FixedU128;

/// `a * b / c`, rounded down; where the product is too wide for 128 bits and the divisor for 32,
/// rounded to the nearest integer, and an exact half down.
pub open spec fn scaled(a: int, b: int, c: int) -> int {
    if a * b > u128::MAX && c > u32::MAX && (a * b) % c > c / 2 {
        (a * b) / c + 1
    } else {
        (a * b) / c
    }
}

/// An integer as a 128-bit value, where it is one.
pub open spec fn narrowed(x: int) -> Option<u128> {
    if 0 <= x <= u128::MAX {
        Some(x as u128)
    } else {
        None
    }
}

/// Calls `sp_runtime::FixedU128::checked_mul` on the numbers with the inner values `a` and `b`.
/// Trusted: the inner value of the product is `scaled(a, b, DIV)`, and there is no product exactly
/// where that does not fit.
#[verifier::external_body]
fn outside_mul(a: u128, b: u128) -> (product: Option<u128>)
    ensures
        product == narrowed(scaled(a as int, b as int, DIV as int)),
{
    sp_runtime::FixedU128::from_inner(a)
        .checked_mul(&sp_runtime::FixedU128::from_inner(b))
        .map(|product| product.into_inner())
}

/// Calls `sp_runtime::FixedU128::checked_div` on the numbers with the inner values `a` and `b`.
/// Trusted: the inner value of the quotient is `scaled(a, DIV, b)`, and there is no quotient
/// exactly where `b` is zero or that does not fit.
#[verifier::external_body]
fn outside_div(a: u128, b: u128) -> (quotient: Option<u128>)
    ensures
        quotient == (if b == 0 {
            None
        } else {
            narrowed(scaled(a as int, DIV as int, b as int))
        }),
{
    sp_runtime::FixedU128::from_inner(a)
        .checked_div(&sp_runtime::FixedU128::from_inner(b))
        .map(|quotient| quotient.into_inner())
}

/// Calls `sp_runtime::FixedU128::checked_mul_int` on the number with the inner value `a`.
/// Trusted: the product is the integer `scaled(a, n, DIV)`, and there is none exactly where that
/// does not fit.
#[verifier::external_body]
fn outside_mul_int(a: u128, n: u128) -> (product: Option<u128>)
    ensures
        product == narrowed(scaled(a as int, n as int, DIV as int)),
{
    sp_runtime::FixedU128::from_inner(a).checked_mul_int(n)
}

/// Calls `sp_runtime::FixedU128::saturating_from_rational`, which panics where `d` is zero.
/// Trusted: the inner value of the number is `scaled(n, DIV, d)`, or the greatest one where that
/// does not fit.
#[verifier::external_body]
fn outside_from_rational(n: u128, d: u128) -> (inner: u128)
    requires
        d != 0,
    ensures
        inner == (match narrowed(scaled(n as int, DIV as int, d as int)) {
            Some(fitting) => fitting,
            None => u128::MAX,
        }),
{
    sp_runtime::FixedU128::saturating_from_rational(n, d).into_inner()
}

/// Calls `sp_runtime::Permill::mul_ceil` on the ratio with `parts` parts.
/// Trusted: the product is `x * parts / ACCURACY`, rounded up.
#[verifier::external_body]
fn outside_mul_ceil(parts: u32, x: u128) -> (product: u128)
    requires
        parts <= ACCURACY,
    ensures
        product == (x * parts + ACCURACY - 1) / (ACCURACY as int),
{
    sp_runtime::Permill::from_parts(parts).mul_ceil(x)
}

impl FixedU128 {
    /// The sum of two numbers.
    pub open spec fn spec_checked_add(self, other: FixedU128) -> Option<FixedU128> {
        match narrowed(self.inner + other.inner) {
            Some(inner) => Some(FixedU128 { inner }),
            None => None,
        }
    }

    /// The difference of two numbers.
    pub open spec fn spec_checked_sub(self, other: FixedU128) -> Option<FixedU128> {
        match narrowed(self.inner - other.inner) {
            Some(inner) => Some(FixedU128 { inner }),
            None => None,
        }
    }

    /// The product of two numbers.
    pub open spec fn spec_checked_mul(self, other: FixedU128) -> Option<FixedU128> {
        match narrowed(scaled(self.inner as int, other.inner as int, DIV as int)) {
            Some(inner) => Some(FixedU128 { inner }),
            None => None,
        }
    }

    /// The quotient of two numbers.
    pub open spec fn spec_checked_div(self, other: FixedU128) -> Option<FixedU128> {
        if other.inner == 0 {
            None
        } else {
            match narrowed(scaled(self.inner as int, DIV as int, other.inner as int)) {
                Some(inner) => Some(FixedU128 { inner }),
                None => None,
            }
        }
    }

    /// The product of a number and an integer, as an integer.
    pub open spec fn spec_checked_mul_int(self, n: u128) -> Option<u128> {
        narrowed(scaled(self.inner as int, n as int, DIV as int))
    }

    /// The number with a given inner value.
    pub fn from_inner(inner: u128) -> (number: FixedU128)
        ensures
            number.inner == inner,
    {
        FixedU128 { inner }
    }

    /// The inner value.
    pub fn into_inner(self) -> (inner: u128)
        ensures
            inner == self.inner,
    {
        self.inner
    }

    /// The number zero.
    pub fn zero() -> (number: FixedU128)
        ensures
            number.inner == 0,
    {
        FixedU128 { inner: 0 }
    }

    /// The number one.
    pub fn one() -> (number: FixedU128)
        ensures
            number.inner == DIV,
    {
        FixedU128 { inner: DIV }
    }

    /// Whether the number is zero.
    pub fn is_zero(&self) -> (zero: bool)
        ensures
            zero == (self.inner == 0),
    {
        self.inner == 0
    }

    /// The number `n / d`, or the greatest number where that is too great.
    pub fn saturating_from_rational(n: u128, d: u128) -> (number: FixedU128)
        requires
            d != 0,
        ensures
            number.inner == (match narrowed(scaled(n as int, DIV as int, d as int)) {
                Some(inner) => inner,
                None => u128::MAX,
            }),
    {
        FixedU128 { inner: outside_from_rational(n, d) }
    }

    /// The sum, unless it is too great.
    pub fn checked_add(&self, other: &FixedU128) -> (sum: Option<FixedU128>)
        ensures
            sum == self.spec_checked_add(*other),
    {
        match self.inner.checked_add(other.inner) {
            Some(inner) => Some(FixedU128 { inner }),
            None => None,
        }
    }

    /// The difference, unless it is negative.
    pub fn checked_sub(&self, other: &FixedU128) -> (difference: Option<FixedU128>)
        ensures
            difference == self.spec_checked_sub(*other),
    {
        match self.inner.checked_sub(other.inner) {
            Some(inner) => Some(FixedU128 { inner }),
            None => None,
        }
    }

    /// The product, unless it is too great.
    pub fn checked_mul(&self, other: &FixedU128) -> (product: Option<FixedU128>)
        ensures
            product == self.spec_checked_mul(*other),
    {
        match outside_mul(self.inner, other.inner) {
            Some(inner) => Some(FixedU128 { inner }),
            None => None,
        }
    }

    /// The quotient, unless the divisor is zero or the quotient too great.
    pub fn checked_div(&self, other: &FixedU128) -> (quotient: Option<FixedU128>)
        ensures
            quotient == self.spec_checked_div(*other),
    {
        match outside_div(self.inner, other.inner) {
            Some(inner) => Some(FixedU128 { inner }),
            None => None,
        }
    }

    /// The product with an integer as an integer, unless it is too great.
    pub fn checked_mul_int(&self, n: u128) -> (product: Option<u128>)
        ensures
            product == self.spec_checked_mul_int(n),
    {
        outside_mul_int(self.inner, n)
    }
}

/// A part of a whole, in parts per million; never more than the whole.
#[derive(Clone, Copy, Debug, PartialEq, Eq, Structural)]
pub struct Ratio {
    parts: u32,
}

impl Ratio {
    #[verifier::type_invariant]
    spec fn at_most_whole(self) -> bool {
        self.parts <= ACCURACY
    }

    /// How many parts per million the ratio has.
    pub closed spec fn parts(self) -> u32 {
        self.parts
    }

    /// The ratio of an amount, rounded up.
    pub open spec fn spec_mul_ceil(self, x: u128) -> int {
        (x * self.parts() + ACCURACY - 1) / (ACCURACY as int)
    }

    /// The ratio with so many parts per million, or the whole where there are more.
    pub fn from_parts(parts: u32) -> (ratio: Ratio)
        ensures
            ratio.parts() == (if parts <= ACCURACY { parts } else { ACCURACY }),
    {
        if parts <= ACCURACY {
            Ratio { parts }
        } else {
            Ratio { parts: ACCURACY }
        }
    }

    /// How many parts per million the ratio has.
    pub fn deconstruct(self) -> (parts: u32)
        ensures
            parts == self.parts(),
            parts <= ACCURACY,
    {
        proof {
            use_type_invariant(self);
        }
        self.parts
    }

    /// Whether the ratio is neither nothing nor the whole.
    pub fn is_proper(&self) -> (proper: bool)
        ensures
            proper == (0 < self.parts() < ACCURACY),
    {
        self.parts > 0 && self.parts < ACCURACY
    }

    /// The ratio of an amount, rounded up.
    pub fn mul_ceil(&self, x: u128) -> (product: u128)
        ensures
            product == self.spec_mul_ceil(x),
            product <= x,
    {
        proof {
            use_type_invariant(self);
            let parts: int = self.parts as int;
            let whole: int = ACCURACY as int;
            assert((x * parts + whole - 1) / whole <= x) by (nonlinear_arith)
                requires
                    parts <= whole,
                    whole > 0,
                    x >= 0,
            ;
        }
        outside_mul_ceil(self.parts, x)
    }
}

}
