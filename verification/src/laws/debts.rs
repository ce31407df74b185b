//! Debts: what borrowing, repaying and liquidating do to them.

use crate::config::Config;
use crate::fixed::{scaled, Rate, DIV};
use crate::laws::rounding::law_scaled_is_close;
use crate::laws::tokens::{law_there_and_back, moved_exactly, same_balances};
use crate::pallet::State;
use crate::types::{
    refused, AccountId, Balance, BorrowSnapshot, CurrencyId, DispatchError, Error, Origin,
};
use crate::valuation::{debt_with_interest, underlying_amount, voucher_amount};
use vstd::arithmetic::div_mod::{lemma_div_multiples_vanish, lemma_mod_multiples_basic};
use vstd::arithmetic::mul::lemma_mul_is_commutative;
use vstd::prelude::*;

verus! {

/// A factor that is divided out again leaves the other factor.
proof fn lemma_scaled_exactly(a: int, c: int)
    requires
        0 < c,
    ensures
        scaled(a, c, c) == a,
        scaled(c, a, c) == a,
{
    lemma_mul_is_commutative(a, c);
    lemma_div_multiples_vanish(a, c);
    lemma_mod_multiples_basic(a, c);
}

/// A debt carries no interest at the time of its last change.
pub proof fn law_new_debt_is_without_interest(principal: Balance, index: Rate)
    requires
        index.inner > 0,
    ensures
        debt_with_interest(
            BorrowSnapshot { principal, borrow_index: index },
            index,
        ) == Ok::<Balance, DispatchError>(principal),
{
    lemma_scaled_exactly(DIV as int, index.inner as int);
    lemma_scaled_exactly(principal as int, DIV as int);
}

/// A borrower owes the borrowed amount more than before, to the unit, and so do all borrowers
/// together.
pub proof fn law_borrowing_adds_to_the_debt<T: Config>(
    before: State<T>,
    who: AccountId,
    asset_id: CurrencyId,
    amount: Balance,
)
    requires
        before.after_borrow(Origin::Signed(who), asset_id, amount) is Ok,
        before.storage.index(asset_id).inner > 0,
    ensures
        ({
            let after = before.after_borrow(Origin::Signed(who), asset_id, amount)->Ok_0;
            &&& before.borrow_balance(who, asset_id) is Ok
            &&& after.borrow_balance(who, asset_id) is Ok
            &&& after.borrow_balance(who, asset_id)->Ok_0 == before.borrow_balance(
                who,
                asset_id,
            )->Ok_0 + amount
            &&& after.storage.borrows(asset_id) == before.storage.borrows(asset_id) + amount
        }),
{
    law_new_debt_is_without_interest(
        (before.borrow_balance(who, asset_id)->Ok_0 + amount) as u128,
        before.storage.index(asset_id),
    );
}

/// Who repays owes the repaid amount less than before, to the unit; all borrowers together owe so
/// much less, or nothing.
pub proof fn law_repaying_takes_from_the_debt<T: Config>(
    before: State<T>,
    who: AccountId,
    asset_id: CurrencyId,
    amount: Balance,
)
    requires
        before.after_repay_borrow(Origin::Signed(who), asset_id, amount) is Ok,
        before.storage.index(asset_id).inner > 0,
    ensures
        ({
            let after = before.after_repay_borrow(Origin::Signed(who), asset_id, amount)->Ok_0;
            let total = before.storage.borrows(asset_id);
            &&& before.borrow_balance(who, asset_id) is Ok
            &&& after.borrow_balance(who, asset_id) is Ok
            &&& after.borrow_balance(who, asset_id)->Ok_0 == before.borrow_balance(
                who,
                asset_id,
            )->Ok_0 - amount
            &&& after.storage.borrows(asset_id) == if total < amount {
                0
            } else {
                total - amount
            }
        }),
{
    law_new_debt_is_without_interest(
        (before.borrow_balance(who, asset_id)->Ok_0 - amount) as u128,
        before.storage.index(asset_id),
    );
}

/// More than the debt is never taken.
pub proof fn law_nobody_repays_too_much<T: Config>(
    before: State<T>,
    who: AccountId,
    asset_id: CurrencyId,
    amount: Balance,
)
    requires
        before.active_market(asset_id) is Ok,
        before.borrow_balance(who, asset_id) is Ok,
        before.borrow_balance(who, asset_id)->Ok_0 < amount,
    ensures
        before.after_repay_borrow(Origin::Signed(who), asset_id, amount) == Err::<
            State<T>,
            DispatchError,
        >(refused(Error::TooMuchRepay)),
{
}

/// Who repays everything owes nothing, now and at every later interest index.
pub proof fn law_repaying_all_clears_the_debt<T: Config>(
    before: State<T>,
    who: AccountId,
    asset_id: CurrencyId,
)
    requires
        before.after_repay_borrow_all(Origin::Signed(who), asset_id) is Ok,
    ensures
        ({
            let after = before.after_repay_borrow_all(Origin::Signed(who), asset_id)->Ok_0;
            &&& after.borrow_balance(who, asset_id) == Ok::<Balance, DispatchError>(0)
            &&& forall|later: Rate| #[trigger]
                debt_with_interest(after.storage.debt(asset_id, who), later) == Ok::<
                    Balance,
                    DispatchError,
                >(0)
        }),
{
}

/// Repaying what was just borrowed leaves the debt as it was, and all debts together. Where the
/// runtime moves exactly the amount both times, every balance of tokens is what it was, that of the
/// account and that of the pallet among them.
pub proof fn law_repaying_undoes_borrowing<T: Config>(
    before: State<T>,
    who: AccountId,
    asset_id: CurrencyId,
    amount: Balance,
)
    requires
        before.storage.index(asset_id).inner > 0,
        before.after_borrow(Origin::Signed(who), asset_id, amount) is Ok,
        before.after_borrow(Origin::Signed(who), asset_id, amount)->Ok_0.after_repay_borrow(
            Origin::Signed(who),
            asset_id,
            amount,
        ) is Ok,
    ensures
        ({
            let owing = before.after_borrow(Origin::Signed(who), asset_id, amount)->Ok_0;
            let after = owing.after_repay_borrow(Origin::Signed(who), asset_id, amount)->Ok_0;
            let pool = before.account();
            &&& after.borrow_balance(who, asset_id) == before.borrow_balance(who, asset_id)
            &&& after.storage.borrows(asset_id) == before.storage.borrows(asset_id)
            &&& moved_exactly(before.runtime, owing.runtime, asset_id, pool, who, amount)
                && moved_exactly(owing.runtime, after.runtime, asset_id, who, pool, amount) ==> {
                &&& same_balances(before.runtime, after.runtime)
                &&& after.runtime.held(asset_id, who) == before.runtime.held(asset_id, who)
                &&& after.runtime.held(asset_id, pool) == before.runtime.held(asset_id, pool)
            }
        }),
{
    let owing = before.after_borrow(Origin::Signed(who), asset_id, amount)->Ok_0;
    let after = owing.after_repay_borrow(Origin::Signed(who), asset_id, amount)->Ok_0;
    let pool = before.account();
    if moved_exactly(before.runtime, owing.runtime, asset_id, pool, who, amount) && moved_exactly(
        owing.runtime,
        after.runtime,
        asset_id,
        who,
        pool,
        amount,
    ) {
        law_there_and_back(
            before.runtime,
            owing.runtime,
            after.runtime,
            asset_id,
            pool,
            who,
            amount,
        );
    }
    law_borrowing_adds_to_the_debt(before, who, asset_id, amount);
    law_repaying_takes_from_the_debt(owing, who, asset_id, amount);
}

/// An account without a shortfall is never liquidated.
pub proof fn law_only_a_shortfall_is_liquidated<T: Config>(
    before: State<T>,
    liquidator: AccountId,
    borrower: AccountId,
    liquidate_asset_id: CurrencyId,
    repay_amount: Balance,
    collateral_asset_id: CurrencyId,
)
    requires
        before.active_market(liquidate_asset_id) is Ok,
        before.active_market(collateral_asset_id) is Ok,
        borrower != liquidator,
        before.account_liquidity(borrower) is Ok,
        before.account_liquidity(borrower)->Ok_0.1.inner == 0,
    ensures
        before.after_liquidate_borrow(
            Origin::Signed(liquidator),
            borrower,
            liquidate_asset_id,
            repay_amount,
            collateral_asset_id,
        ) == Err::<State<T>, DispatchError>(refused(Error::InsufficientShortfall)),
{
}

/// A liquidation takes the repaid amount from the debt of a borrower with a shortfall, to the unit,
/// and not more of it than the market lets be repaid at once. The vouchers that the borrower loses
/// are those that the liquidator gains; none comes into circulation or leaves it.
pub proof fn law_liquidation<T: Config>(
    before: State<T>,
    liquidator: AccountId,
    borrower: AccountId,
    liquidate_asset_id: CurrencyId,
    repay_amount: Balance,
    collateral_asset_id: CurrencyId,
)
    requires
        before.after_liquidate_borrow(
            Origin::Signed(liquidator),
            borrower,
            liquidate_asset_id,
            repay_amount,
            collateral_asset_id,
        ) is Ok,
        before.storage.index(liquidate_asset_id).inner > 0,
    ensures
        ({
            let after = before.after_liquidate_borrow(
                Origin::Signed(liquidator),
                borrower,
                liquidate_asset_id,
                repay_amount,
                collateral_asset_id,
            )->Ok_0;
            let market = before.active_market(liquidate_asset_id)->Ok_0;
            let debt = before.borrow_balance(borrower, liquidate_asset_id);
            let seized = before.seized_amount(
                borrower,
                liquidate_asset_id,
                repay_amount,
                collateral_asset_id,
                market.liquidate_incentive,
            );
            let vouchers = voucher_amount(
                seized->Ok_0,
                before.storage.rate(collateral_asset_id),
            );
            let lost = before.storage.deposits(collateral_asset_id, borrower).voucher_balance
                - after.storage.deposits(collateral_asset_id, borrower).voucher_balance;
            let gained = after.storage.deposits(collateral_asset_id, liquidator).voucher_balance
                - before.storage.deposits(collateral_asset_id, liquidator).voucher_balance;
            &&& before.account_liquidity(borrower)->Ok_0.1.inner > 0
            &&& borrower != liquidator
            &&& before.storage.deposits(collateral_asset_id, borrower).is_collateral
            &&& debt is Ok
            &&& repay_amount <= market.close_factor.spec_mul_ceil(debt->Ok_0)
            &&& after.borrow_balance(borrower, liquidate_asset_id) is Ok
            &&& after.borrow_balance(borrower, liquidate_asset_id)->Ok_0 == debt->Ok_0
                - repay_amount
            &&& after.storage.borrows(liquidate_asset_id) == before.storage.borrows(
                liquidate_asset_id,
            ) - repay_amount
            &&& seized is Ok && vouchers is Ok
            &&& lost == gained == vouchers->Ok_0
            &&& after.storage.supply(collateral_asset_id) == before.storage.supply(
                collateral_asset_id,
            )
        }),
{
    let debt = before.borrow_balance(borrower, liquidate_asset_id)->Ok_0;
    law_new_debt_is_without_interest(
        (debt - repay_amount) as u128,
        before.storage.index(liquidate_asset_id),
    );
}

/// What a liquidator receives is worth what it repays, with the incentive of the market: at the
/// price of the collateral asset it is worth less than one unit of the asset less, and at most half
/// a unit more. And what it is due is not more than what the deposits of the borrower are worth.
pub proof fn law_liquidator_gets_its_due<T: Config>(
    state: State<T>,
    borrower: AccountId,
    liquidate_asset_id: CurrencyId,
    repay_amount: Balance,
    collateral_asset_id: CurrencyId,
    incentive: Rate,
)
    requires
        state.seized_amount(
            borrower,
            liquidate_asset_id,
            repay_amount,
            collateral_asset_id,
            incentive,
        ) is Ok,
    ensures
        ({
            let amount = state.seized_amount(
                borrower,
                liquidate_asset_id,
                repay_amount,
                collateral_asset_id,
                incentive,
            )->Ok_0;
            let price = state.price(collateral_asset_id)->Ok_0.inner;
            let due = state.asset_value(liquidate_asset_id, repay_amount)->Ok_0.spec_checked_mul(
                incentive,
            )->Some_0.inner;
            let deposited = underlying_amount(
                state.storage.deposits(collateral_asset_id, borrower).voucher_balance,
                state.storage.rate(collateral_asset_id),
            );
            &&& deposited is Ok
            &&& due <= state.asset_value(collateral_asset_id, deposited->Ok_0)->Ok_0.inner
            &&& due * DIV - price < price * amount
            &&& 2 * (price * amount) <= 2 * (due * DIV) + price
        }),
{
    let price = state.price(collateral_asset_id)->Ok_0.inner;
    let due = state.asset_value(liquidate_asset_id, repay_amount)->Ok_0.spec_checked_mul(
        incentive,
    )->Some_0.inner;
    law_scaled_is_close(due as int, DIV as int, price as int);
}

}
