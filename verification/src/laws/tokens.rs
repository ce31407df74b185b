//! Balances of tokens, where the runtime moves exactly what it is asked to move.

use crate::config::Config;
use crate::fixed::DIV;
use crate::laws::arithmetic::{is_quotient, lemma_one_quotient};
use crate::laws::effects::{
    law_effect_of_borrow, law_effect_of_liquidate_borrow, law_effect_of_mint, law_effect_of_redeem,
    law_effect_of_redeem_all, law_effect_of_repay_borrow, law_effect_of_repay_borrow_all, leads_to,
};
use crate::pallet::State;
use crate::types::{AccountId, Balance, CurrencyId, Origin};
use vstd::prelude::*;

verus! {

/// Whether between two states of a runtime exactly an amount of an asset has moved from one account
/// to another, and no other balance has changed.
pub open spec fn moved_exactly<T: Config>(
    before: T,
    after: T,
    asset_id: CurrencyId,
    source: AccountId,
    dest: AccountId,
    amount: Balance,
) -> bool {
    forall|id: CurrencyId, who: AccountId| #[trigger]
        after.held(id, who) == before.held(id, who) - (if id == asset_id && who == source {
            amount as int
        } else {
            0
        }) + (if id == asset_id && who == dest {
            amount as int
        } else {
            0
        })
}

/// Whether every balance is the same in two states of a runtime.
pub open spec fn same_balances<T: Config>(before: T, after: T) -> bool {
    forall|id: CurrencyId, who: AccountId| #[trigger]
        after.held(id, who) == before.held(id, who)
}

/// An amount that moves there and back leaves every balance as it was.
pub proof fn law_there_and_back<T: Config>(
    before: T,
    between: T,
    after: T,
    asset_id: CurrencyId,
    source: AccountId,
    dest: AccountId,
    amount: Balance,
)
    requires
        moved_exactly(before, between, asset_id, source, dest, amount),
        moved_exactly(between, after, asset_id, dest, source, amount),
    ensures
        same_balances(before, after),
{
    assert forall|id: CurrencyId, who: AccountId| #[trigger]
        after.held(id, who) == before.held(id, who) by {
        let _ = between.held(id, who);
    }
}

/// Whether a runtime moves exactly what it is asked to move, where it moves anything.
pub open spec fn moves_exactly<T: Config>(runtime: T) -> bool {
    forall|asset_id: CurrencyId, source: AccountId, dest: AccountId, amount: Balance|
        (#[trigger] runtime.moved(asset_id, source, dest, amount, false)) is Ok ==> moved_exactly(
            runtime,
            runtime.moved(asset_id, source, dest, amount, false)->Ok_0,
            asset_id,
            source,
            dest,
            amount,
        )
}

/// A liquidation repays the pool: the balance of the pallet grows by what is repaid, that of the
/// liquidator falls by it, and that of the borrower, as every other, stays.
pub proof fn law_liquidation_repays_the_pool<T: Config>(
    before: State<T>,
    after: State<T>,
    liquidator: AccountId,
    borrower: AccountId,
    repaid_id: CurrencyId,
    repaid: Balance,
    seized_id: CurrencyId,
)
    requires
        moves_exactly(before.runtime),
        leads_to(
            before.after_liquidate_borrow(
                Origin::Signed(liquidator),
                borrower,
                repaid_id,
                repaid,
                seized_id,
            ),
            after,
        ),
        liquidator != before.account(),
    ensures
        ({
            let pool = before.account();
            &&& after.runtime.held(repaid_id, pool) == before.runtime.held(repaid_id, pool) + repaid
            &&& after.runtime.held(repaid_id, liquidator) == before.runtime.held(
                repaid_id,
                liquidator,
            ) - repaid
            &&& borrower != pool ==> after.runtime.held(repaid_id, borrower)
                == before.runtime.held(repaid_id, borrower)
            &&& forall|id: CurrencyId, who: AccountId|
                id != repaid_id || (who != pool && who != liquidator) ==> #[trigger]
                    after.runtime.held(id, who) == before.runtime.held(id, who)
        }),
{
    law_effect_of_liquidate_borrow(
        before,
        after,
        liquidator,
        borrower,
        repaid_id,
        repaid,
        seized_id,
    );
    let moved = before.runtime.moved(repaid_id, liquidator, before.account(), repaid, false);
    assert(moved is Ok);
}

/// Supplies and repayments go from the account to the pallet, borrowed and redeemed tokens from the
/// pallet to the account, each by its amount, and no other balance changes.
pub proof fn law_tokens_go_where_they_belong<T: Config>(
    before: State<T>,
    after: State<T>,
    who: AccountId,
    asset_id: CurrencyId,
    amount: Balance,
)
    requires
        moves_exactly(before.runtime),
    ensures
        ({
            let pool = before.account();
            let origin = Origin::Signed(who);
            let one = before.runtime;
            let other = after.runtime;
            &&& leads_to(before.after_mint(origin, asset_id, amount), after) ==> moved_exactly(
                one,
                other,
                asset_id,
                who,
                pool,
                amount,
            )
            &&& leads_to(before.after_borrow(origin, asset_id, amount), after) ==> moved_exactly(
                one,
                other,
                asset_id,
                pool,
                who,
                amount,
            )
            &&& leads_to(before.after_repay_borrow(origin, asset_id, amount), after)
                ==> moved_exactly(one, other, asset_id, who, pool, amount)
            &&& leads_to(before.after_repay_borrow_all(origin, asset_id), after)
                ==> moved_exactly(
                one,
                other,
                asset_id,
                who,
                pool,
                before.borrow_balance(who, asset_id)->Ok_0,
            )
            &&& leads_to(before.after_redeem_all(origin, asset_id), after) && is_quotient(
                before.storage.rate(asset_id).inner * before.storage.deposits(
                    asset_id,
                    who,
                ).voucher_balance,
                DIV as int,
                amount as int,
            ) ==> moved_exactly(one, other, asset_id, pool, who, amount)
            &&& leads_to(before.after_redeem(origin, asset_id, amount), after) ==> exists|
                vouchers: u128,
                paid: u128,
            |
                is_quotient(
                    amount * DIV,
                    before.storage.rate(asset_id).inner as int,
                    vouchers as int,
                ) && #[trigger] is_quotient(
                    before.storage.rate(asset_id).inner * vouchers,
                    DIV as int,
                    paid as int,
                ) && moved_exactly(one, other, asset_id, pool, who, paid)
        }),
{
    let pool = before.account();
    let origin = Origin::Signed(who);
    if leads_to(before.after_mint(origin, asset_id, amount), after) {
        let _ = law_effect_of_mint(before, after, who, asset_id, amount);
        assert(before.runtime.moved(asset_id, who, pool, amount, false) is Ok);
    }
    if leads_to(before.after_borrow(origin, asset_id, amount), after) {
        law_effect_of_borrow(before, after, who, asset_id, amount);
        assert(before.runtime.moved(asset_id, pool, who, amount, false) is Ok);
    }
    if leads_to(before.after_repay_borrow(origin, asset_id, amount), after) {
        law_effect_of_repay_borrow(before, after, who, asset_id, amount);
        assert(before.runtime.moved(asset_id, who, pool, amount, false) is Ok);
    }
    if leads_to(before.after_repay_borrow_all(origin, asset_id), after) {
        law_effect_of_repay_borrow_all(before, after, who, asset_id);
        let debt = before.borrow_balance(who, asset_id)->Ok_0;
        assert(before.runtime.moved(asset_id, who, pool, debt, false) is Ok);
    }
    let rate = before.storage.rate(asset_id).inner;
    if leads_to(before.after_redeem_all(origin, asset_id), after) {
        let paid = law_effect_of_redeem_all(before, after, who, asset_id);
        assert(before.runtime.moved(asset_id, pool, who, paid, false) is Ok);
        let dividend = rate * before.storage.deposits(asset_id, who).voucher_balance;
        if is_quotient(dividend, DIV as int, amount as int) {
            lemma_one_quotient(dividend, DIV as int, paid as int, amount as int);
        }
    }
    if leads_to(before.after_redeem(origin, asset_id, amount), after) {
        let (vouchers, paid) = law_effect_of_redeem(before, after, who, asset_id, amount);
        assert(before.runtime.moved(asset_id, pool, who, paid, false) is Ok);
        assert(is_quotient(rate * vouchers, DIV as int, paid as int));
    }
}

}
