//! What sums, products, quotients and parts are, as relations between numbers.

use crate::fixed::{scaled, FixedU128, Ratio, ACCURACY, DIV};
use vstd::arithmetic::div_mod::lemma_fundamental_div_mod;
use vstd::arithmetic::mul::lemma_mul_is_distributive_add;
use vstd::prelude::*;

verus! {

/// Whether an integer is the quotient of two others as numbers here are divided: nothing or less
/// than one divisor remains; where the dividend is too wide for 128 bits and the divisor for 32, it
/// is the nearest, so that at most half a divisor remains or is missing, and of two that are
/// equally near the smaller.
pub open spec fn is_quotient(dividend: int, divisor: int, quotient: int) -> bool {
    let rest = dividend - divisor * quotient;
    &&& divisor > 0
    &&& if dividend > u128::MAX && divisor > u32::MAX {
        -divisor < 2 * rest <= divisor
    } else {
        0 <= rest < divisor
    }
}

/// Whether an integer is a part of another in parts per million, rounded up.
pub open spec fn is_part(whole: int, parts: int, part: int) -> bool {
    (part - 1) * ACCURACY < whole * parts <= part * ACCURACY
}

/// Numbers have eighteen decimals, and ratios six.
pub proof fn law_units()
    ensures
        DIV == 1_000_000_000_000_000_000,
        ACCURACY == 1_000_000,
{
}

/// There is one quotient.
pub proof fn lemma_one_quotient(dividend: int, divisor: int, one: int, other: int)
    requires
        is_quotient(dividend, divisor, one),
        is_quotient(dividend, divisor, other),
    ensures
        one == other,
{
    if one < other {
        assert(divisor * other >= divisor * one + divisor) by (nonlinear_arith)
            requires
                one < other,
                divisor > 0,
        ;
    } else if other < one {
        assert(divisor * one >= divisor * other + divisor) by (nonlinear_arith)
            requires
                other < one,
                divisor > 0,
        ;
    }
}

/// A scaled product is the quotient of the product.
pub proof fn law_scaled_is_the_quotient(a: int, b: int, c: int, quotient: int)
    requires
        0 <= a,
        0 <= b,
        0 < c,
    ensures
        scaled(a, b, c) == quotient <==> is_quotient(a * b, c, quotient),
        scaled(a, b, c) >= 0,
{
    let n = a * b;
    lemma_fundamental_div_mod(n, c);
    lemma_mul_is_distributive_add(c, n / c, 1);
    assert(0 <= n % c < c) by (nonlinear_arith)
        requires
            c > 0,
    ;
    assert(n >= 0) by (nonlinear_arith)
        requires
            n == a * b,
            0 <= a,
            0 <= b,
    ;
    assert(n / c >= 0) by (nonlinear_arith)
        requires
            n >= 0,
            c > 0,
    ;
    assert(is_quotient(n, c, scaled(a, b, c)));
    if is_quotient(n, c, quotient) {
        lemma_one_quotient(n, c, scaled(a, b, c), quotient);
    }
}

/// A number is the sum of two exactly where it is; there is none exactly where it does not fit.
pub proof fn law_sum(a: FixedU128, b: FixedU128, sum: FixedU128)
    ensures
        a.spec_checked_add(b) == Some(sum) <==> a.inner + b.inner == sum.inner,
        a.spec_checked_add(b) is None <==> a.inner + b.inner > u128::MAX,
{
}

/// A number is the difference of two exactly where it and the smaller make up the greater.
pub proof fn law_difference(a: FixedU128, b: FixedU128, difference: FixedU128)
    ensures
        a.spec_checked_sub(b) == Some(difference) <==> b.inner + difference.inner == a.inner,
        a.spec_checked_sub(b) is None <==> a.inner < b.inner,
{
}

/// A number is the product of two exactly where it is their exact product, rounded.
pub proof fn law_product(a: FixedU128, b: FixedU128, product: FixedU128)
    ensures
        a.spec_checked_mul(b) == Some(product) <==> is_quotient(
            a.inner * b.inner,
            DIV as int,
            product.inner as int,
        ),
{
    law_scaled_is_the_quotient(a.inner as int, b.inner as int, DIV as int, product.inner as int);
}

/// A number is the quotient of two exactly where it is their exact quotient, rounded.
pub proof fn law_ratio(a: FixedU128, b: FixedU128, quotient: FixedU128)
    ensures
        a.spec_checked_div(b) == Some(quotient) <==> is_quotient(
            a.inner * DIV,
            b.inner as int,
            quotient.inner as int,
        ),
{
    if b.inner > 0 {
        law_scaled_is_the_quotient(
            a.inner as int,
            DIV as int,
            b.inner as int,
            quotient.inner as int,
        );
    }
}

/// An integer is the product of a number and an integer exactly where it is the exact product,
/// rounded.
pub proof fn law_product_with_integer(a: FixedU128, n: u128, product: u128)
    ensures
        a.spec_checked_mul_int(n) == Some(product) <==> is_quotient(
            a.inner * n,
            DIV as int,
            product as int,
        ),
{
    law_scaled_is_the_quotient(a.inner as int, n as int, DIV as int, product as int);
}

/// A part of an amount is the smallest integer that is not below the exact part.
pub proof fn law_part(ratio: Ratio, whole: u128)
    ensures
        is_part(whole as int, ratio.parts() as int, ratio.spec_mul_ceil(whole)),
        ratio.parts() <= ACCURACY ==> 0 <= ratio.spec_mul_ceil(whole) <= whole,
{
    let n = whole * ratio.parts();
    assert(n >= 0) by (nonlinear_arith)
        requires
            n == whole * ratio.parts(),
    ;
    if ratio.parts() <= ACCURACY {
        let parts = ratio.parts() as int;
        assert(whole * parts <= whole * ACCURACY) by (nonlinear_arith)
            requires
                parts <= ACCURACY,
        ;
    }
}

}
