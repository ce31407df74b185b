//! Debts stay secured: what borrowing, redeeming and the release of collateral leave of the
//! liquidity of an account.

use crate::config::Config;
use crate::fixed::{scaled, FixedU128, ACCURACY, DIV};
use crate::laws::rounding::{law_scaled_is_close, lemma_scaled_grows};
use crate::laws::totals::{
    law_active_markets_are_walked, lemma_sum_with_one_change, lemma_total_is_sum,
};
use crate::pallet::State;
use crate::storage::StorageView;
use crate::types::{refused, AccountId, Balance, CurrencyId, DispatchError, Error, Origin};
use crate::valuation::{underlying_amount, voucher_amount};
use vstd::prelude::*;

verus! {

/// An account has liquidity or a shortfall, never both, and they tell the difference between its
/// collateral and its debts.
pub proof fn law_liquidity_or_shortfall<T: Config>(state: State<T>, who: AccountId)
    requires
        state.account_liquidity(who) is Ok,
    ensures
        ({
            let (liquidity, shortfall) = state.account_liquidity(who)->Ok_0;
            &&& liquidity.inner == 0 || shortfall.inner == 0
            &&& liquidity.inner - shortfall.inner == state.total_collateral_value(who)->Ok_0.inner
                - state.total_borrowed_value(who)->Ok_0.inner
        }),
{
}

/// The prices are the same in two states.
pub open spec fn same_prices<T: Config>(one: State<T>, other: State<T>) -> bool {
    forall|asset_id: CurrencyId| #[trigger]
        one.runtime.oracle(asset_id) == other.runtime.oracle(asset_id)
}

/// The greater of two integers.
pub open spec fn greater(a: int, b: int) -> int {
    if a < b {
        b
    } else {
        a
    }
}

/// The smaller of two integers.
pub open spec fn smaller(a: int, b: int) -> int {
    if a < b {
        a
    } else {
        b
    }
}

/// The same markets are active where the markets and their order are the same.
proof fn lemma_same_active<M>(one: StorageView<M>, other: StorageView<M>)
    requires
        one.markets == other.markets,
        one.market_order == other.market_order,
    ensures
        one.active_ids() == other.active_ids(),
{
    assert((|asset_id: CurrencyId| one.is_active(asset_id)) =~= (|asset_id: CurrencyId|
        other.is_active(asset_id)));
}

/// The parts of an amount are together worth at most two less than the amount.
proof fn lemma_worth_of_parts(price: int, part: int, rest: int, one: int)
    requires
        0 <= price,
        0 <= part,
        0 <= rest,
        0 < one,
    ensures
        scaled(price, part + rest, one) <= scaled(price, part, one) + scaled(price, rest, one) + 2,
{
    law_scaled_is_close(price, part, one);
    law_scaled_is_close(price, rest, one);
    law_scaled_is_close(price, part + rest, one);
    let whole = scaled(price, part + rest, one);
    let parts = scaled(price, part, one) + scaled(price, rest, one);
    assert(whole <= parts + 2) by (nonlinear_arith)
        requires
            price * part - one < one * scaled(price, part, one),
            price * rest - one < one * scaled(price, rest, one),
            2 * (one * whole) <= 2 * (price * (part + rest)) + one,
            parts == scaled(price, part, one) + scaled(price, rest, one),
            0 < one,
    ;
}

/// After a borrow, the debts of the account are not worth more than its collateral, but for two of
/// the smallest units of value that rounding can make; where they were worth more before, they are
/// not worth more than before, but for the same two. The collateral is untouched.
///
/// The prices must not change while the tokens move.
pub proof fn law_borrowing_is_secured<T: Config>(
    before: State<T>,
    who: AccountId,
    asset_id: CurrencyId,
    amount: Balance,
)
    requires
        before.storage.walks_all_markets(),
        before.after_borrow(Origin::Signed(who), asset_id, amount) is Ok,
        same_prices(before, before.after_borrow(Origin::Signed(who), asset_id, amount)->Ok_0),
    ensures
        ({
            let after = before.after_borrow(Origin::Signed(who), asset_id, amount)->Ok_0;
            let bound = greater(
                before.total_borrowed_value(who)->Ok_0.inner as int,
                before.total_collateral_value(who)->Ok_0.inner as int,
            ) + 2;
            &&& before.total_borrowed_value(who) is Ok
            &&& before.total_collateral_value(who) is Ok
            &&& after.total_collateral_value(who) == before.total_collateral_value(who)
            &&& match after.total_borrowed_value(who) {
                Ok(borrowed) => borrowed.inner <= bound,
                Err(_) => bound > u128::MAX,
            }
        }),
{
    let after = before.after_borrow(Origin::Signed(who), asset_id, amount)->Ok_0;
    let ids = before.storage.active_ids();
    lemma_same_active(before.storage, after.storage);
    law_active_markets_are_walked(before.storage);
    assert(before.storage.is_active(asset_id));
    assert(ids.contains(asset_id));

    let collateral = |id: CurrencyId| before.collateral_asset_value(who, id);
    assert forall|id: CurrencyId| #[trigger] collateral(id) == after.collateral_asset_value(
        who,
        id,
    ) by {
        assert(before.runtime.oracle(id) == after.runtime.oracle(id));
    }
    assert(collateral =~= (|id: CurrencyId| after.collateral_asset_value(who, id)));

    let old_value = |id: CurrencyId| before.borrowed_value(who, id);
    let new_value = |id: CurrencyId| after.borrowed_value(who, id);
    assert forall|id: CurrencyId| id != asset_id implies #[trigger] new_value(id) == old_value(
        id,
    ) by {
        assert(before.runtime.oracle(id) == after.runtime.oracle(id));
    }
    lemma_total_is_sum(ids, old_value);
    lemma_total_is_sum(ids, new_value);
    lemma_sum_with_one_change(ids, old_value, new_value, asset_id);

    // What the account owes in the asset is worth the sum, but for rounding.
    let debt = before.borrow_balance(who, asset_id)->Ok_0;
    let new_debt = (debt + amount) as u128;
    let index = before.storage.index(asset_id);
    let price = before.price(asset_id)->Ok_0.inner as int;
    assert(before.runtime.oracle(asset_id) == after.runtime.oracle(asset_id));
    lemma_worth_of_parts(price, debt as int, amount as int, DIV as int);
    if index.inner > 0 {
        crate::laws::debts::law_new_debt_is_without_interest(new_debt, index);
    }
    assert(after.borrow_balance(who, asset_id) == Ok::<Balance, DispatchError>(
        if index.inner > 0 {
            new_debt
        } else {
            0
        },
    ));
    assert(scaled(price, 0, DIV as int) == 0);
    assert(old_value(asset_id)->Ok_0.inner == scaled(price, debt as int, DIV as int));
    if new_value(asset_id) is Ok {
        assert(new_value(asset_id)->Ok_0.inner <= scaled(price, new_debt as int, DIV as int));
        assert forall|id: CurrencyId| #[trigger] ids.contains(id) implies new_value(id) is Ok by {
            assert(old_value(id) is Ok);
        }
    } else {
        assert(scaled(price, new_debt as int, DIV as int) > u128::MAX);
    }
}

/// An account with a shortfall cannot borrow what is worth anything.
pub proof fn law_no_borrowing_on_a_shortfall<T: Config>(
    before: State<T>,
    who: AccountId,
    asset_id: CurrencyId,
    amount: Balance,
)
    requires
        before.active_market(asset_id) is Ok,
        before.cash_check(asset_id, amount) is Ok,
        before.asset_value(asset_id, amount) is Ok,
        before.asset_value(asset_id, amount)->Ok_0.inner > 0,
        before.account_liquidity(who) is Ok,
        before.account_liquidity(who)->Ok_0.1.inner > 0,
    ensures
        before.after_borrow(Origin::Signed(who), asset_id, amount) == Err::<
            State<T>,
            DispatchError,
        >(refused(Error::InsufficientLiquidity)),
{
}

/// Collateral is released only where the rest secures the debts: after the release the account has
/// no shortfall, to the smallest unit.
pub proof fn law_release_leaves_no_shortfall<T: Config>(
    before: State<T>,
    who: AccountId,
    asset_id: CurrencyId,
)
    requires
        before.storage.walks_all_markets(),
        before.after_collateral_asset(Origin::Signed(who), asset_id, false) is Ok,
    ensures
        ({
            let after = before.after_collateral_asset(
                Origin::Signed(who),
                asset_id,
                false,
            )->Ok_0;
            &&& after.account_liquidity(who) is Ok
            &&& after.account_liquidity(who)->Ok_0.1.inner == 0
            &&& after.total_borrowed_value(who) == before.total_borrowed_value(who)
            &&& after.total_collateral_value(who)->Ok_0.inner == before.total_collateral_value(
                who,
            )->Ok_0.inner - before.collateral_asset_value(who, asset_id)->Ok_0.inner
        }),
{
    let after = before.after_collateral_asset(Origin::Signed(who), asset_id, false)->Ok_0;
    let ids = before.storage.active_ids();
    lemma_same_active(before.storage, after.storage);
    law_active_markets_are_walked(before.storage);
    assert(before.storage.is_active(asset_id));
    assert(ids.contains(asset_id));
    let borrowed = |id: CurrencyId| before.borrowed_value(who, id);
    assert(borrowed =~= (|id: CurrencyId| after.borrowed_value(who, id)));
    let old_value = |id: CurrencyId| before.collateral_asset_value(who, id);
    let new_value = |id: CurrencyId| after.collateral_asset_value(who, id);
    assert forall|id: CurrencyId| id != asset_id implies #[trigger] new_value(id) == old_value(
        id,
    ) by {}
    lemma_total_is_sum(ids, old_value);
    lemma_total_is_sum(ids, new_value);
    lemma_sum_with_one_change(ids, old_value, new_value, asset_id);
    assert forall|id: CurrencyId| #[trigger] ids.contains(id) implies new_value(id) is Ok by {
        assert(old_value(id) is Ok);
    }
}

/// Deposits that are made collateral, or released, stay what they are; and the same choice again is
/// refused.
pub proof fn law_choice_of_collateral<T: Config>(
    before: State<T>,
    who: AccountId,
    asset_id: CurrencyId,
    enable: bool,
)
    requires
        before.after_collateral_asset(Origin::Signed(who), asset_id, enable) is Ok,
    ensures
        ({
            let after = before.after_collateral_asset(
                Origin::Signed(who),
                asset_id,
                enable,
            )->Ok_0;
            &&& after.storage.deposits(asset_id, who).is_collateral == enable
            &&& after.storage.deposits(asset_id, who).voucher_balance
                == before.storage.deposits(asset_id, who).voucher_balance
            &&& after.after_collateral_asset(Origin::Signed(who), asset_id, enable) == Err::<
                State<T>,
                DispatchError,
            >(refused(Error::DuplicateOperation))
        }),
{
}

/// The parts of an amount that count as collateral are together at least the part of the amount.
proof fn lemma_ceil_of_parts(parts: int, part: int, rest: int, whole: int)
    requires
        0 <= parts <= ACCURACY,
        0 <= part,
        0 <= rest,
        0 <= whole <= part + rest + 2,
    ensures
        (whole * parts + ACCURACY - 1) / (ACCURACY as int) <= (part * parts + ACCURACY - 1) / (
        ACCURACY as int) + (rest * parts + ACCURACY - 1) / (ACCURACY as int) + 2,
        0 <= (part * parts + ACCURACY - 1) / (ACCURACY as int),
        (part * parts + ACCURACY - 1) / (ACCURACY as int) <= part,
{
    assert(whole * parts <= part * parts + rest * parts + 2 * ACCURACY) by (nonlinear_arith)
        requires
            0 <= parts <= ACCURACY,
            whole <= part + rest + 2,
    ;
    assert(0 <= part * parts <= part * ACCURACY) by (nonlinear_arith)
        requires
            0 <= parts <= ACCURACY,
            0 <= part,
    ;
    assert(0 <= rest * parts) by (nonlinear_arith)
        requires
            0 <= parts,
            0 <= rest,
    ;
}

/// The parts of deposits are together worth as collateral what the deposits are worth, but for
/// rounding: two of the smallest units of the asset, and three of value.
proof fn lemma_collateral_of_parts(
    rate: int,
    parts: int,
    price: int,
    part: int,
    rest: int,
)
    requires
        0 <= rate,
        0 <= parts <= ACCURACY,
        0 <= price,
        0 <= part,
        0 <= rest,
    ensures
        ({
            let one = DIV as int;
            let ceil = |x: int| (x * parts + ACCURACY - 1) / (ACCURACY as int);
            let worth = |x: int| scaled(price, ceil(scaled(rate, x, one)), one);
            worth(part + rest) <= worth(part) + worth(rest) + (2 * price) / one + 3
        }),
{
    let one = DIV as int;
    let whole_amount = scaled(rate, part + rest, one);
    let part_amount = scaled(rate, part, one);
    let rest_amount = scaled(rate, rest, one);
    law_scaled_is_close(rate, part, one);
    law_scaled_is_close(rate, rest, one);
    law_scaled_is_close(rate, part + rest, one);
    lemma_worth_of_parts(rate, part, rest, one);
    lemma_ceil_of_parts(parts, part_amount, rest_amount, whole_amount);
    lemma_ceil_of_parts(parts, rest_amount, part_amount, whole_amount);
    lemma_ceil_of_parts(parts, whole_amount, 0, whole_amount);
    let whole_part = (whole_amount * parts + ACCURACY - 1) / (ACCURACY as int);
    let part_part = (part_amount * parts + ACCURACY - 1) / (ACCURACY as int);
    let rest_part = (rest_amount * parts + ACCURACY - 1) / (ACCURACY as int);
    law_scaled_is_close(price, part_part, one);
    law_scaled_is_close(price, rest_part, one);
    law_scaled_is_close(price, whole_part, one);
    let worth_whole = scaled(price, whole_part, one);
    let worth_part = scaled(price, part_part, one);
    let worth_rest = scaled(price, rest_part, one);
    assert(2 * (one * (worth_whole - worth_part - worth_rest)) < 4 * price + 5 * one)
        by (nonlinear_arith)
        requires
            whole_part <= part_part + rest_part + 2,
            0 <= price,
            0 < one,
            price * part_part - one < one * worth_part,
            price * rest_part - one < one * worth_rest,
            2 * (one * worth_whole) <= 2 * (price * whole_part) + one,
    ;
}

/// After the redemption of collateral, the rest of the collateral of the account is worth its
/// debts, but for two of the smallest units of the asset and three of value that rounding can make;
/// where the collateral was worth less than the debts before, it is worth what it was, but for the
/// same. The debts are untouched.
///
/// The prices must not change while the tokens move.
pub proof fn law_redeeming_leaves_debts_secured<T: Config>(
    before: State<T>,
    who: AccountId,
    asset_id: CurrencyId,
    vouchers: Balance,
)
    requires
        before.storage.walks_all_markets(),
        before.active_market(asset_id) is Ok,
        before.storage.markets[asset_id].collateral_factor.parts() <= ACCURACY,
        before.storage.deposits(asset_id, who).is_collateral,
        before.after_redeeming(who, asset_id, vouchers) is Ok,
        same_prices(before, before.after_redeeming(who, asset_id, vouchers)->Ok_0),
    ensures
        ({
            let after = before.after_redeeming(who, asset_id, vouchers)->Ok_0;
            let price = before.price(asset_id)->Ok_0.inner;
            &&& before.total_borrowed_value(who) is Ok
            &&& before.total_collateral_value(who) is Ok
            &&& after.total_borrowed_value(who) == before.total_borrowed_value(who)
            &&& after.total_collateral_value(who) is Ok
            &&& smaller(
                before.total_borrowed_value(who)->Ok_0.inner as int,
                before.total_collateral_value(who)->Ok_0.inner as int,
            ) <= after.total_collateral_value(who)->Ok_0.inner + (2 * price) / (DIV as int) + 3
        }),
{
    let after = before.after_redeeming(who, asset_id, vouchers)->Ok_0;
    let ids = before.storage.active_ids();
    lemma_same_active(before.storage, after.storage);
    law_active_markets_are_walked(before.storage);
    assert(before.storage.is_active(asset_id));
    assert(ids.contains(asset_id));

    let borrowed = |id: CurrencyId| before.borrowed_value(who, id);
    assert forall|id: CurrencyId| #[trigger] borrowed(id) == after.borrowed_value(who, id) by {
        assert(before.runtime.oracle(id) == after.runtime.oracle(id));
    }
    assert(borrowed =~= (|id: CurrencyId| after.borrowed_value(who, id)));

    let old_value = |id: CurrencyId| before.collateral_asset_value(who, id);
    let new_value = |id: CurrencyId| after.collateral_asset_value(who, id);
    assert forall|id: CurrencyId| id != asset_id implies #[trigger] new_value(id) == old_value(
        id,
    ) by {
        assert(before.runtime.oracle(id) == after.runtime.oracle(id));
    }
    lemma_total_is_sum(ids, old_value);
    lemma_total_is_sum(ids, new_value);
    lemma_sum_with_one_change(ids, old_value, new_value, asset_id);

    let held = before.storage.deposits(asset_id, who).voucher_balance as int;
    let left = held - vouchers;
    let rate = before.storage.rate(asset_id).inner as int;
    let factor = before.storage.markets[asset_id].collateral_factor;
    let parts = factor.parts() as int;
    let price = before.price(asset_id)->Ok_0.inner as int;
    let one = DIV as int;
    assert(before.runtime.oracle(asset_id) == after.runtime.oracle(asset_id));
    let ceil = |x: int| (x * parts + ACCURACY - 1) / (ACCURACY as int);
    let worth = |x: int| scaled(price, ceil(scaled(rate, x, one)), one);
    lemma_collateral_of_parts(rate, parts, price, left, vouchers as int);
    assert(worth(held) <= worth(left) + worth(vouchers as int) + (2 * price) / one + 3);

    // What the values are in terms of these.
    assert(old_value(asset_id) is Ok);
    lemma_worth_of_deposits(before, who, asset_id);
    lemma_worth_of_nothing(rate, parts, price);
    assert(old_value(asset_id)->Ok_0.inner == worth(held));
    law_scaled_is_close(rate, vouchers as int, one);
    law_scaled_is_close(rate, held, one);
    law_scaled_is_close(rate, left, one);
    lemma_ceil_of_parts(parts, scaled(rate, vouchers as int, one), 0, 0);
    assert(before.secured_value(
        asset_id,
        underlying_amount(vouchers, before.storage.rate(asset_id))->Ok_0,
    )->Ok_0.inner == worth(vouchers as int));

    // The rest is worth no more than the whole, so its worth fits too.
    lemma_scaled_grows(rate, left, held, one);
    lemma_ceil_of_parts(parts, scaled(rate, left, one), 0, 0);
    lemma_ceil_of_parts(parts, scaled(rate, held, one), 0, scaled(rate, left, one));
    lemma_ceil_grows(parts, scaled(rate, left, one), scaled(rate, held, one));
    lemma_scaled_grows(price, ceil(scaled(rate, left, one)), ceil(scaled(rate, held, one)), one);
    law_scaled_is_close(price, ceil(scaled(rate, left, one)), one);
    if left > 0 && held > 0 {
        assert(new_value(asset_id) is Ok);
        assert(new_value(asset_id)->Ok_0.inner == worth(left));
    } else {
        assert(new_value(asset_id) == Ok::<FixedU128, DispatchError>(FixedU128 { inner: 0 }));
        assert(worth(left) == 0);
    }
    assert forall|id: CurrencyId| #[trigger] ids.contains(id) implies new_value(id) is Ok by {
        assert(old_value(id) is Ok);
    }
}

/// The redemption of an amount, or of everything, leaves debts secured in the same way.
///
/// The prices must not change while the tokens move.
pub proof fn law_redeem_calls_leave_debts_secured<T: Config>(
    before: State<T>,
    after: State<T>,
    who: AccountId,
    asset_id: CurrencyId,
    amount: Balance,
)
    requires
        before.storage.walks_all_markets(),
        before.storage.markets[asset_id].collateral_factor.parts() <= ACCURACY,
        before.storage.deposits(asset_id, who).is_collateral,
        before.after_redeem(Origin::Signed(who), asset_id, amount) == Ok::<State<T>, DispatchError>(
            after,
        ) || before.after_redeem_all(Origin::Signed(who), asset_id) == Ok::<
            State<T>,
            DispatchError,
        >(after),
        same_prices(before, after),
    ensures
        ({
            let price = before.price(asset_id)->Ok_0.inner;
            &&& before.total_borrowed_value(who) is Ok
            &&& before.total_collateral_value(who) is Ok
            &&& after.total_borrowed_value(who) == before.total_borrowed_value(who)
            &&& after.total_collateral_value(who) is Ok
            &&& smaller(
                before.total_borrowed_value(who)->Ok_0.inner as int,
                before.total_collateral_value(who)->Ok_0.inner as int,
            ) <= after.total_collateral_value(who)->Ok_0.inner + (2 * price) / (DIV as int) + 3
        }),
{
    let all = before.storage.deposits(asset_id, who).voucher_balance;
    let some = voucher_amount(amount, before.storage.rate(asset_id))->Ok_0;
    let vouchers = if before.after_redeem(Origin::Signed(who), asset_id, amount) == Ok::<
        State<T>,
        DispatchError,
    >(after) {
        some
    } else {
        all
    };
    let redeemed = before.after_redeeming(who, asset_id, vouchers)->Ok_0;
    assert(same_prices(before, redeemed)) by {
        assert(redeemed.runtime == after.runtime);
    }
    law_redeeming_leaves_debts_secured(before, who, asset_id, vouchers);
    lemma_same_active(redeemed.storage, after.storage);
    assert((|id: CurrencyId| redeemed.borrowed_value(who, id)) =~= (|id: CurrencyId|
        after.borrowed_value(who, id)));
    assert((|id: CurrencyId| redeemed.collateral_asset_value(who, id)) =~= (|id: CurrencyId|
        after.collateral_asset_value(who, id)));
}

/// A part of more is not less.
proof fn lemma_ceil_grows(parts: int, less: int, more: int)
    requires
        0 <= parts,
        0 <= less <= more,
    ensures
        (less * parts + ACCURACY - 1) / (ACCURACY as int) <= (more * parts + ACCURACY - 1) / (
        ACCURACY as int),
{
    assert(less * parts <= more * parts) by (nonlinear_arith)
        requires
            0 <= parts,
            less <= more,
    ;
}

/// No vouchers are worth nothing.
proof fn lemma_worth_of_nothing(rate: int, parts: int, price: int)
    ensures
        scaled(rate, 0, DIV as int) == 0,
        (0 * parts + ACCURACY - 1) / (ACCURACY as int) == 0,
        scaled(price, 0, DIV as int) == 0,
{
    assert(rate * 0 == 0 && price * 0 == 0 && 0 * parts == 0) by (nonlinear_arith);
}

/// What the deposits of an account are worth as collateral, as a number.
proof fn lemma_worth_of_deposits<T: Config>(state: State<T>, who: AccountId, asset_id: CurrencyId)
    requires
        state.market(asset_id) is Ok,
        state.storage.markets[asset_id].collateral_factor.parts() <= ACCURACY,
        state.storage.deposits(asset_id, who).is_collateral,
        state.collateral_asset_value(who, asset_id) is Ok,
    ensures
        ({
            let one = DIV as int;
            let parts = state.storage.markets[asset_id].collateral_factor.parts();
            let amount = scaled(
                state.storage.rate(asset_id).inner as int,
                state.storage.deposits(asset_id, who).voucher_balance as int,
                one,
            );
            let counted = (amount * parts + ACCURACY - 1) / (ACCURACY as int);
            state.collateral_asset_value(who, asset_id)->Ok_0.inner == scaled(
                state.price(asset_id)->Ok_0.inner as int,
                counted,
                one,
            )
        }),
{
    let parts = state.storage.markets[asset_id].collateral_factor.parts() as int;
    let amount = scaled(
        state.storage.rate(asset_id).inner as int,
        state.storage.deposits(asset_id, who).voucher_balance as int,
        DIV as int,
    );
    law_scaled_is_close(
        state.storage.rate(asset_id).inner as int,
        state.storage.deposits(asset_id, who).voucher_balance as int,
        DIV as int,
    );
    lemma_ceil_of_parts(parts, amount, 0, 0);
    lemma_worth_of_nothing(
        state.storage.rate(asset_id).inner as int,
        parts,
        state.price(asset_id)->Ok_0.inner as int,
    );
}

}
