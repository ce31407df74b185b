//! How far a rounded result is from the exact one.

use crate::fixed::{scaled, Rate, DIV};
use crate::types::Balance;
use crate::valuation::{underlying_amount, voucher_amount};
use vstd::arithmetic::div_mod::{lemma_div_is_ordered, lemma_fundamental_div_mod};
use vstd::arithmetic::mul::{lemma_mul_is_commutative, lemma_mul_is_distributive_add};
use vstd::prelude::*;

verus! {

/// A scaled product is less than one below the exact quotient, and at most a half above it. Where
/// the product is not too wide, it is not above it at all.
pub proof fn law_scaled_is_close(a: int, b: int, c: int)
    requires
        0 <= a,
        0 <= b,
        0 < c,
    ensures
        0 <= scaled(a, b, c),
        a * b - c < c * scaled(a, b, c),
        2 * (c * scaled(a, b, c)) <= 2 * (a * b) + c,
        a * b <= u128::MAX ==> c * scaled(a, b, c) <= a * b,
{
    let n = a * b;
    assert(n >= 0) by (nonlinear_arith)
        requires
            n == a * b,
            0 <= a,
            0 <= b,
    ;
    lemma_fundamental_div_mod(n, c);
    assert(n / c >= 0) by (nonlinear_arith)
        requires
            n >= 0,
            c > 0,
    ;
    lemma_mul_is_distributive_add(c, n / c, 1);
    assert(0 <= n % c < c) by (nonlinear_arith)
        requires
            c > 0,
    ;
}

/// What the vouchers for an amount are worth differs from the amount by less than the worth of one
/// voucher and one unit; and for amounts of up to some 340 units of `1e18` it is not more.
pub proof fn law_vouchers_are_worth_their_price(amount: Balance, exchange_rate: Rate)
    requires
        voucher_amount(amount, exchange_rate) is Ok,
        underlying_amount(voucher_amount(amount, exchange_rate)->Ok_0, exchange_rate) is Ok,
    ensures
        ({
            let vouchers = voucher_amount(amount, exchange_rate)->Ok_0;
            let worth = underlying_amount(vouchers, exchange_rate)->Ok_0;
            &&& DIV * (amount - worth) < exchange_rate.inner + DIV
            &&& 2 * (DIV * (worth - amount)) <= exchange_rate.inner + DIV
            &&& amount * DIV <= u128::MAX ==> worth <= amount
        }),
{
    let vouchers = voucher_amount(amount, exchange_rate)->Ok_0 as int;
    let worth = underlying_amount(vouchers as u128, exchange_rate)->Ok_0 as int;
    let rate = exchange_rate.inner as int;
    let x = amount as int;
    let one = DIV as int;
    law_scaled_is_close(x, one, rate);
    law_scaled_is_close(rate, vouchers, one);
    assert(vouchers == scaled(x, one, rate));
    assert(worth == scaled(rate, vouchers, one));
    if x * one <= u128::MAX {
        assert(one * worth <= x * one);
    }
}

/// A scaled product does not shrink where a factor grows.
pub proof fn lemma_scaled_grows(a: int, b: int, more: int, c: int)
    requires
        0 <= a,
        0 <= b <= more,
        0 < c,
    ensures
        scaled(a, b, c) <= scaled(a, more, c),
{
    assert(a * b <= a * more) by (nonlinear_arith)
        requires
            0 <= a,
            0 <= b <= more,
    ;
    lemma_fundamental_div_mod(a * b, c);
    lemma_fundamental_div_mod(a * more, c);
    lemma_div_is_ordered(a * b, a * more, c);
}

/// A greater amount is not exchanged for fewer vouchers, and more vouchers are not worth less.
pub proof fn law_more_for_more(less: Balance, more: Balance, exchange_rate: Rate)
    requires
        less <= more,
    ensures
        voucher_amount(more, exchange_rate) is Ok ==> voucher_amount(less, exchange_rate) is Ok
            && voucher_amount(less, exchange_rate)->Ok_0 <= voucher_amount(
            more,
            exchange_rate,
        )->Ok_0,
        underlying_amount(more, exchange_rate) is Ok ==> underlying_amount(
            less,
            exchange_rate,
        ) is Ok && underlying_amount(less, exchange_rate)->Ok_0 <= underlying_amount(
            more,
            exchange_rate,
        )->Ok_0,
{
    let rate = exchange_rate.inner as int;
    let one = DIV as int;
    lemma_scaled_grows(rate, less as int, more as int, one);
    law_scaled_is_close(rate, less as int, one);
    if rate > 0 {
        lemma_mul_is_commutative(less as int, one);
        lemma_mul_is_commutative(more as int, one);
        lemma_scaled_grows(one, less as int, more as int, rate);
        law_scaled_is_close(less as int, one, rate);
    }
}

}
