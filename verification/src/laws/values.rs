//! What amounts are worth, as relations between numbers.

use crate::config::Config;
use crate::fixed::{FixedU128, Liquidity, Rate, Shortfall, ACCURACY, DIV};
use crate::laws::arithmetic::{
    is_part, is_quotient, law_part, law_product, law_product_with_integer, law_ratio,
};
use crate::laws::totals::{law_active_markets_are_walked, lemma_total_is_sum, sum_of_values};
use crate::pallet::State;
use crate::types::{
    overflow, refused, underflow, AccountId, Balance, BorrowSnapshot, CurrencyId, DispatchError,
    Error,
};
use crate::valuation::{checked_total, debt_with_interest, underlying_amount, voucher_amount};
use vstd::prelude::*;

verus! {

/// Vouchers are worth their number times the exchange rate.
pub proof fn law_worth_of_vouchers(vouchers: Balance, exchange_rate: Rate, amount: Balance)
    ensures
        underlying_amount(vouchers, exchange_rate) == Ok::<Balance, DispatchError>(amount)
            <==> is_quotient(exchange_rate.inner * vouchers, DIV as int, amount as int),
        underlying_amount(vouchers, exchange_rate) is Err ==> underlying_amount(
            vouchers,
            exchange_rate,
        )->Err_0 == overflow(),
{
    law_product_with_integer(exchange_rate, vouchers, amount);
}

/// An amount is exchanged for as many vouchers as it holds exchange rates.
pub proof fn law_vouchers_for_amount(amount: Balance, exchange_rate: Rate, vouchers: Balance)
    ensures
        voucher_amount(amount, exchange_rate) == Ok::<Balance, DispatchError>(vouchers)
            <==> is_quotient(amount * DIV, exchange_rate.inner as int, vouchers as int),
        voucher_amount(amount, exchange_rate) is Err ==> voucher_amount(
            amount,
            exchange_rate,
        )->Err_0 == underflow(),
{
    law_ratio(FixedU128 { inner: amount }, exchange_rate, FixedU128 { inner: vouchers });
}

/// Whether a debt is its principal times the growth of the interest index since its last change:
/// the growth is the present index divided by the index of that time.
pub open spec fn is_grown_debt(snapshot: BorrowSnapshot, index: Rate, debt: Balance) -> bool {
    exists|growth: u128|
        is_quotient(index.inner * DIV, snapshot.borrow_index.inner as int, growth as int)
            && #[trigger] is_quotient(growth * snapshot.principal, DIV as int, debt as int)
}

/// A debt is its principal times the growth of the interest index, and nothing where there is no
/// principal or there was no index.
pub proof fn law_debt_grows_with_the_index(snapshot: BorrowSnapshot, index: Rate, debt: Balance)
    ensures
        ({
            let owed = debt_with_interest(snapshot, index);
            if snapshot.principal == 0 || snapshot.borrow_index.inner == 0 {
                owed == Ok::<Balance, DispatchError>(0)
            } else {
                &&& owed == Ok::<Balance, DispatchError>(debt) <==> is_grown_debt(
                    snapshot,
                    index,
                    debt,
                )
                &&& owed is Err ==> owed->Err_0 == overflow()
            }
        }),
{
    if snapshot.principal != 0 && snapshot.borrow_index.inner != 0 {
        if index.spec_checked_div(snapshot.borrow_index) is Some {
            let growth = index.spec_checked_div(snapshot.borrow_index)->Some_0;
            law_ratio(index, snapshot.borrow_index, growth);
            law_product_with_integer(growth, snapshot.principal, debt);
            assert forall|other: u128|
                is_quotient(index.inner * DIV, snapshot.borrow_index.inner as int, other as int)
                    && #[trigger] is_quotient(
                    other * snapshot.principal,
                    DIV as int,
                    debt as int,
                ) implies other == growth.inner by {
                law_ratio(index, snapshot.borrow_index, FixedU128 { inner: other });
            }
            assert(is_quotient(
                index.inner * DIV,
                snapshot.borrow_index.inner as int,
                growth.inner as int,
            ));
            if debt_with_interest(snapshot, index) == Ok::<Balance, DispatchError>(debt) {
                assert(is_quotient(
                    growth.inner * snapshot.principal,
                    DIV as int,
                    debt as int,
                ));
            }
        } else {
            assert forall|other: u128|
                is_quotient(index.inner * DIV, snapshot.borrow_index.inner as int, other as int)
                    && #[trigger] is_quotient(
                    other * snapshot.principal,
                    DIV as int,
                    debt as int,
                ) implies false by {
                law_ratio(index, snapshot.borrow_index, FixedU128 { inner: other });
            }
        }
    }
}

/// The debt and the index at its last change make up the principal and the present index, but for
/// rounding: `debt * then` differs from `principal * now` by less than one `then`, and one
/// `then` for each whole of principal.
pub proof fn law_debt_is_in_proportion_to_the_index(
    snapshot: BorrowSnapshot,
    index: Rate,
    debt: Balance,
)
    requires
        snapshot.principal > 0,
        snapshot.borrow_index.inner > 0,
        debt_with_interest(snapshot, index) == Ok::<Balance, DispatchError>(debt),
    ensures
        ({
            let principal = snapshot.principal;
            let then = snapshot.borrow_index.inner;
            let now = index.inner;
            &&& DIV * (principal * now - debt * then) < then * (principal + DIV)
            &&& 2 * (DIV * (debt * then - principal * now)) <= then * (principal + DIV)
        }),
{
    law_debt_grows_with_the_index(snapshot, index, debt);
    let growth = choose|growth: u128|
        is_quotient(index.inner * DIV, snapshot.borrow_index.inner as int, growth as int)
            && #[trigger] is_quotient(growth * snapshot.principal, DIV as int, debt as int);
    let p = snapshot.principal as int;
    let s = snapshot.borrow_index.inner as int;
    let i = index.inner as int;
    let d = debt as int;
    let g = growth as int;
    let one = DIV as int;
    assert(i * one - s * g < s && 2 * (s * g) <= 2 * (i * one) + s);
    assert(g * p - one * d < one && 2 * (one * d) <= 2 * (g * p) + one);
    assert(one * (p * i - d * s) < s * (p + one)) by (nonlinear_arith)
        requires
            i * one - s * g < s,
            g * p - one * d < one,
            p > 0,
            s > 0,
            one > 0,
    {
        assert((i * one - s * g) * p <= s * p);
        assert((g * p - one * d) * s < one * s);
        assert((i * one - s * g) * p == one * (p * i) - s * g * p);
        assert((g * p - one * d) * s == s * g * p - one * (d * s));
        assert(one * (p * i - d * s) == one * (p * i) - one * (d * s));
        assert(s * (p + one) == s * p + one * s);
    }
    assert(2 * (one * (d * s - p * i)) <= s * (p + one)) by (nonlinear_arith)
        requires
            2 * (s * g) <= 2 * (i * one) + s,
            2 * (one * d) <= 2 * (g * p) + one,
            p > 0,
            s > 0,
            one > 0,
    {
        assert((2 * (s * g) - 2 * (i * one)) * p <= s * p);
        assert((2 * (one * d) - 2 * (g * p)) * s <= one * s);
        assert((2 * (s * g) - 2 * (i * one)) * p == 2 * (s * g * p) - 2 * (one * (p * i)));
        assert((2 * (one * d) - 2 * (g * p)) * s == 2 * (one * (d * s)) - 2 * (s * g * p));
        assert(2 * (one * (d * s - p * i)) == 2 * (one * (d * s)) - 2 * (one * (p * i)));
        assert(s * (p + one) == s * p + one * s);
    }
}

/// What an account owes in an asset is what its last snapshot has grown to by the present index of
/// the asset.
pub proof fn law_account_owes_its_grown_debt<T: Config>(
    state: State<T>,
    who: AccountId,
    asset_id: CurrencyId,
    debt: Balance,
)
    ensures
        ({
            let snapshot = state.storage.debt(asset_id, who);
            let owed = state.borrow_balance(who, asset_id);
            if snapshot.principal == 0 || snapshot.borrow_index.inner == 0 {
                owed == Ok::<Balance, DispatchError>(0)
            } else {
                &&& owed == Ok::<Balance, DispatchError>(debt) <==> is_grown_debt(
                    snapshot,
                    state.storage.index(asset_id),
                    debt,
                )
                &&& owed is Err ==> owed->Err_0 == overflow()
            }
        }),
{
    law_debt_grows_with_the_index(
        state.storage.debt(asset_id, who),
        state.storage.index(asset_id),
        debt,
    );
}

/// An amount of an asset is worth its price for each unit.
pub proof fn law_value_of_amount<T: Config>(
    state: State<T>,
    asset_id: CurrencyId,
    amount: Balance,
    value: FixedU128,
)
    ensures
        state.asset_value(asset_id, amount) == Ok::<FixedU128, DispatchError>(value)
            <==> state.price(asset_id) is Ok && is_quotient(
            state.price(asset_id)->Ok_0.inner * amount,
            DIV as int,
            value.inner as int,
        ),
        state.asset_value(asset_id, amount) is Err ==> state.asset_value(asset_id, amount)->Err_0
            == if state.price(asset_id) is Err {
            state.price(asset_id)->Err_0
        } else {
            overflow()
        },
{
    if state.price(asset_id) is Ok {
        law_product(state.price(asset_id)->Ok_0, FixedU128 { inner: amount }, value);
    }
}

/// What an account owes in an asset is worth the price of the asset for each unit; what is not owed
/// needs no price.
pub proof fn law_value_of_debt<T: Config>(
    state: State<T>,
    who: AccountId,
    asset_id: CurrencyId,
    value: FixedU128,
)
    ensures
        ({
            let debt = state.borrow_balance(who, asset_id);
            let worth = state.borrowed_value(who, asset_id);
            &&& debt is Err ==> worth == Err::<FixedU128, DispatchError>(debt->Err_0)
            &&& debt is Ok && debt->Ok_0 == 0 ==> worth is Ok && worth->Ok_0.inner == 0
            &&& debt is Ok && debt->Ok_0 > 0 ==> (worth == Ok::<FixedU128, DispatchError>(value)
                <==> state.price(asset_id) is Ok && is_quotient(
                state.price(asset_id)->Ok_0.inner * debt->Ok_0,
                DIV as int,
                value.inner as int,
            ))
            &&& debt is Ok && debt->Ok_0 > 0 && worth is Err ==> worth->Err_0
                == if state.price(asset_id) is Err {
                state.price(asset_id)->Err_0
            } else {
                overflow()
            }
        }),
{
    if state.borrow_balance(who, asset_id) is Ok {
        law_value_of_amount(
            state,
            asset_id,
            state.borrow_balance(who, asset_id)->Ok_0,
            value,
        );
    }
}

/// An amount counts as collateral with the part of it that the market lets count.
pub proof fn law_secured_value<T: Config>(
    state: State<T>,
    asset_id: CurrencyId,
    amount: Balance,
    counted: Balance,
    value: FixedU128,
)
    requires
        state.storage.markets.contains_key(asset_id),
        state.storage.markets[asset_id].collateral_factor.parts() <= ACCURACY,
        is_part(
            amount as int,
            state.storage.markets[asset_id].collateral_factor.parts() as int,
            counted as int,
        ),
    ensures
        state.secured_value(asset_id, amount) == Ok::<FixedU128, DispatchError>(value)
            <==> state.price(asset_id) is Ok && is_quotient(
            state.price(asset_id)->Ok_0.inner * counted,
            DIV as int,
            value.inner as int,
        ),
        state.secured_value(asset_id, amount) is Err ==> state.secured_value(
            asset_id,
            amount,
        )->Err_0 == if state.price(asset_id) is Err {
            state.price(asset_id)->Err_0
        } else {
            overflow()
        },
{
    let factor = state.storage.markets[asset_id].collateral_factor;
    law_part(factor, amount);
    assert(factor.spec_mul_ceil(amount) == counted);
    law_value_of_amount(state, asset_id, counted, value);
}

/// Deposits are worth something as collateral only where they are collateral: then they are worth
/// the price of the asset for each unit that counts of what the vouchers are worth.
pub proof fn law_value_of_collateral<T: Config>(
    state: State<T>,
    who: AccountId,
    asset_id: CurrencyId,
    amount: Balance,
    counted: Balance,
    value: FixedU128,
)
    requires
        state.storage.markets.contains_key(asset_id) ==>
            state.storage.markets[asset_id].collateral_factor.parts() <= ACCURACY,
    ensures
        ({
            let deposits = state.storage.deposits(asset_id, who);
            let worth = state.collateral_asset_value(who, asset_id);
            let rate = state.storage.rate(asset_id);
            &&& !deposits.is_collateral || deposits.voucher_balance == 0 ==> worth is Ok
                && worth->Ok_0.inner == 0
            &&& deposits.is_collateral && deposits.voucher_balance > 0 && worth is Ok ==>
                state.storage.markets.contains_key(asset_id) && state.price(asset_id) is Ok
            &&& deposits.is_collateral && deposits.voucher_balance > 0
                && state.storage.markets.contains_key(asset_id) && is_quotient(
                rate.inner * deposits.voucher_balance,
                DIV as int,
                amount as int,
            ) && is_part(
                amount as int,
                state.storage.markets[asset_id].collateral_factor.parts() as int,
                counted as int,
            ) ==> (worth == Ok::<FixedU128, DispatchError>(value) <==> state.price(asset_id) is Ok
                && is_quotient(
                state.price(asset_id)->Ok_0.inner * counted,
                DIV as int,
                value.inner as int,
            )) && (worth is Err ==> worth->Err_0 == if state.price(asset_id) is Err {
                state.price(asset_id)->Err_0
            } else {
                overflow()
            })
            &&& deposits.is_collateral && deposits.voucher_balance > 0
                && !state.storage.markets.contains_key(asset_id) && is_quotient(
                rate.inner * deposits.voucher_balance,
                DIV as int,
                amount as int,
            ) ==> worth == Err::<FixedU128, DispatchError>(refused(Error::MarketDoesNotExist))
        }),
{
    let deposits = state.storage.deposits(asset_id, who);
    law_worth_of_vouchers(deposits.voucher_balance, state.storage.rate(asset_id), amount);
    if state.storage.markets.contains_key(asset_id) && is_part(
        amount as int,
        state.storage.markets[asset_id].collateral_factor.parts() as int,
        counted as int,
    ) {
        law_secured_value(state, asset_id, amount, counted, value);
    }
}

/// Vouchers whose worth does not fit have no value as collateral but an overflow.
pub proof fn law_collateral_that_does_not_fit<T: Config>(
    state: State<T>,
    who: AccountId,
    asset_id: CurrencyId,
)
    requires
        state.storage.deposits(asset_id, who).is_collateral,
        state.storage.deposits(asset_id, who).voucher_balance > 0,
        forall|amount: u128|
            !#[trigger] is_quotient(
                state.storage.rate(asset_id).inner * state.storage.deposits(
                    asset_id,
                    who,
                ).voucher_balance,
                DIV as int,
                amount as int,
            ),
    ensures
        state.collateral_asset_value(who, asset_id) == Err::<FixedU128, DispatchError>(overflow()),
{
    let vouchers = state.storage.deposits(asset_id, who).voucher_balance;
    let rate = state.storage.rate(asset_id);
    if underlying_amount(vouchers, rate) is Ok {
        law_worth_of_vouchers(vouchers, rate, underlying_amount(vouchers, rate)->Ok_0);
    } else {
        law_worth_of_vouchers(vouchers, rate, 0);
    }
}

/// All debts of an account in active markets are worth together what each is worth.
pub proof fn law_total_of_debts<T: Config>(state: State<T>, who: AccountId)
    requires
        state.storage.walks_all_markets(),
    ensures
        ({
            let value = |id: CurrencyId| state.borrowed_value(who, id);
            let sum = sum_of_values(state.storage.active_ids(), value);
            let total = state.total_borrowed_value(who);
            &&& total is Ok <==> (forall|id: CurrencyId| #[trigger]
                state.storage.is_active(id) ==> state.borrowed_value(who, id) is Ok) && sum
                <= u128::MAX
            &&& total is Ok ==> total->Ok_0.inner == sum
        }),
{
    law_active_markets_are_walked(state.storage);
    let ids = state.storage.active_ids();
    let value = |id: CurrencyId| state.borrowed_value(who, id);
    lemma_total_is_sum(ids, value);
    if state.total_borrowed_value(who) is Ok {
        assert forall|id: CurrencyId| #[trigger] state.storage.is_active(id) implies
            state.borrowed_value(who, id) is Ok by {
            assert(ids.contains(id));
            assert(value(id) is Ok);
        }
    }
    if forall|id: CurrencyId| #[trigger]
        state.storage.is_active(id) ==> state.borrowed_value(who, id) is Ok {
        assert forall|id: CurrencyId| #[trigger] ids.contains(id) implies value(id) is Ok by {
            assert(state.storage.is_active(id));
        }
    }
}

/// All collateral of an account in active markets is worth together what each is worth.
pub proof fn law_total_of_collateral<T: Config>(state: State<T>, who: AccountId)
    requires
        state.storage.walks_all_markets(),
    ensures
        ({
            let value = |id: CurrencyId| state.collateral_asset_value(who, id);
            let sum = sum_of_values(state.storage.active_ids(), value);
            let total = state.total_collateral_value(who);
            &&& total is Ok <==> (forall|id: CurrencyId| #[trigger]
                state.storage.is_active(id) ==> state.collateral_asset_value(who, id) is Ok) && sum
                <= u128::MAX
            &&& total is Ok ==> total->Ok_0.inner == sum
        }),
{
    law_active_markets_are_walked(state.storage);
    let ids = state.storage.active_ids();
    let value = |id: CurrencyId| state.collateral_asset_value(who, id);
    lemma_total_is_sum(ids, value);
    if state.total_collateral_value(who) is Ok {
        assert forall|id: CurrencyId| #[trigger] state.storage.is_active(id) implies
            state.collateral_asset_value(who, id) is Ok by {
            assert(ids.contains(id));
            assert(value(id) is Ok);
        }
    }
    if forall|id: CurrencyId| #[trigger]
        state.storage.is_active(id) ==> state.collateral_asset_value(who, id) is Ok {
        assert forall|id: CurrencyId| #[trigger] ids.contains(id) implies value(id) is Ok by {
            assert(state.storage.is_active(id));
        }
    }
}

/// A total fails for the reason of the first asset that has no value, or because the sum up to an
/// asset is too great; everything before that asset has a value, and a sum that fits.
pub proof fn law_total_fails_at_the_first_failure(
    ids: Seq<CurrencyId>,
    value: spec_fn(CurrencyId) -> Result<FixedU128, DispatchError>,
) -> (n: int)
    requires
        ids.no_duplicates(),
        checked_total(ids, value) is Err,
    ensures
        0 <= n < ids.len(),
        checked_total(ids.take(n), value) is Ok,
        value(ids[n]) is Err ==> checked_total(ids, value)->Err_0 == value(ids[n])->Err_0,
        value(ids[n]) is Ok ==> checked_total(ids, value)->Err_0 == overflow() && sum_of_values(
            ids.take(n),
            value,
        ) + value(ids[n])->Ok_0.inner > u128::MAX,
    decreases ids.len(),
{
    let rest = ids.drop_last();
    assert(rest =~= ids.take(ids.len() - 1));
    lemma_total_is_sum(rest, value);
    if checked_total(rest, value) is Err {
        let n = law_total_fails_at_the_first_failure(rest, value);
        assert(rest.take(n) =~= ids.take(n));
        n
    } else {
        ids.len() - 1
    }
}

/// The liquidity of an account is known exactly where its debts and its collateral are; the debts
/// are asked for first.
pub proof fn law_liquidity_is_known<T: Config>(
    state: State<T>,
    who: AccountId,
    liquidity: Liquidity,
    shortfall: Shortfall,
)
    ensures
        ({
            let debts = state.total_borrowed_value(who);
            let collateral = state.total_collateral_value(who);
            let known = state.account_liquidity(who);
            &&& known == Ok::<(Liquidity, Shortfall), DispatchError>((liquidity, shortfall)) <==> {
                &&& debts is Ok && collateral is Ok
                &&& liquidity.inner == 0 || shortfall.inner == 0
                &&& debts->Ok_0.inner + liquidity.inner == collateral->Ok_0.inner
                    + shortfall.inner
            }
            &&& debts is Err ==> known is Err && known->Err_0 == debts->Err_0
            &&& debts is Ok && collateral is Err ==> known is Err && known->Err_0
                == collateral->Err_0
        }),
{
}

/// An account can lose as much value as it has liquidity, and no more.
pub proof fn law_liquidity_is_enough<T: Config>(state: State<T>, who: AccountId, value: FixedU128)
    ensures
        ({
            let liquidity = state.account_liquidity(who);
            let check = state.liquidity_check(who, value);
            &&& check is Ok <==> liquidity is Ok && value.inner <= liquidity->Ok_0.0.inner
            &&& liquidity is Err ==> check == Err::<(), DispatchError>(liquidity->Err_0)
            &&& liquidity is Ok && check is Err ==> check->Err_0 == refused(
                Error::InsufficientLiquidity,
            )
        }),
{
}

/// The pool can pay what it can give away beyond its reserves, and no more.
pub proof fn law_cash_is_enough<T: Config>(state: State<T>, asset_id: CurrencyId, amount: Balance)
    ensures
        ({
            let cash = state.runtime.reducible(asset_id, state.account(), false);
            let reserves = state.storage.reserves(asset_id);
            let check = state.cash_check(asset_id, amount);
            &&& check is Ok <==> reserves + amount <= cash
            &&& check is Err ==> check->Err_0 == if cash < reserves {
                underflow()
            } else {
                refused(Error::InsufficientCash)
            }
        }),
{
}

/// A market has room for what its pool may hold beyond what it holds, and no more.
pub proof fn law_capacity_is_enough<T: Config>(
    state: State<T>,
    asset_id: CurrencyId,
    amount: Balance,
)
    ensures
        ({
            let held = state.runtime.held(asset_id, state.account());
            let check = state.capacity_check(asset_id, amount);
            let known = state.storage.markets.contains_key(asset_id);
            &&& check is Ok <==> known && held + amount <= state.storage.markets[asset_id].cap
            &&& check is Err ==> check->Err_0 == if !known {
                refused(Error::MarketDoesNotExist)
            } else if held + amount > u128::MAX {
                overflow()
            } else {
                refused(Error::ExceededMarketCapacity)
            }
        }),
{
}

}
