//! What each call that succeeds does: to the tokens, to the storage and to the events, and to
//! nothing else.

use crate::call::Call;
use crate::config::Config;
use crate::fixed::{FixedU128, Rate, Ratio, DIV};
use crate::laws::arithmetic::{
    is_quotient, law_product, law_ratio, law_scaled_is_the_quotient,
};
use crate::laws::values::{
    law_value_of_amount, law_vouchers_for_amount, law_worth_of_vouchers,
};
use crate::pallet::State;
use crate::storage::StorageView;
use crate::types::{
    overflow, AccountId, Balance, CurrencyId, DispatchError, EarnedSnapshot, Event, Market,
    MarketState, Origin, Position, Timestamp,
};
use crate::valuation::{underlying_amount, voucher_amount};
use vstd::prelude::*;

verus! {

/// Whether a call leads from one state to another.
pub open spec fn leads_to<T: Config>(
    outcome: Result<State<T>, DispatchError>,
    after: State<T>,
) -> bool {
    outcome == Ok::<State<T>, DispatchError>(after)
}

/// Whether a runtime becomes another by one transfer that it does not refuse.
pub open spec fn becomes_by_transfer<T: Config>(
    before: T,
    after: T,
    asset_id: CurrencyId,
    source: AccountId,
    dest: AccountId,
    amount: Balance,
) -> bool {
    before.moved(asset_id, source, dest, amount, false) == Ok::<T, DispatchError>(after)
}

/// A value as a call means it: each is the call of its name, with its arguments in their places.
pub proof fn law_calls_go_by_their_names<T: Config>(
    state: State<T>,
    origin: Origin,
    asset_id: CurrencyId,
    other_id: CurrencyId,
    amount: Balance,
    who: AccountId,
    enable: bool,
    market: Market<T::RateModel>,
    model: T::RateModel,
    collateral_factor: Ratio,
    reserve_factor: Ratio,
    close_factor: Ratio,
    incentive: Rate,
    address: T::Source,
)
    ensures
        state.after_call(origin, Call::AddMarket { asset_id, market }) == state.after_add_market(
            origin,
            asset_id,
            market,
        ),
        state.after_call(origin, Call::ActivateMarket { asset_id }) == state.after_activate_market(
            origin,
            asset_id,
        ),
        state.after_call(origin, Call::UpdateRateModel { asset_id, rate_model: model })
            == state.after_update_rate_model(origin, asset_id, model),
        state.after_call(
            origin,
            Call::UpdateMarket {
                asset_id,
                collateral_factor,
                reserve_factor,
                close_factor,
                liquidate_incentive: incentive,
                cap: amount,
            },
        ) == state.after_update_market(
            origin,
            asset_id,
            collateral_factor,
            reserve_factor,
            close_factor,
            incentive,
            amount,
        ),
        state.after_call(origin, Call::ForceUpdateMarket { asset_id, market })
            == state.after_force_update_market(origin, asset_id, market),
        state.after_call(origin, Call::Mint { asset_id, mint_amount: amount }) == state.after_mint(
            origin,
            asset_id,
            amount,
        ),
        state.after_call(origin, Call::Redeem { asset_id, redeem_amount: amount })
            == state.after_redeem(origin, asset_id, amount),
        state.after_call(origin, Call::RedeemAll { asset_id }) == state.after_redeem_all(
            origin,
            asset_id,
        ),
        state.after_call(origin, Call::Borrow { asset_id, borrow_amount: amount })
            == state.after_borrow(origin, asset_id, amount),
        state.after_call(origin, Call::RepayBorrow { asset_id, repay_amount: amount })
            == state.after_repay_borrow(origin, asset_id, amount),
        state.after_call(origin, Call::RepayBorrowAll { asset_id }) == state.after_repay_borrow_all(
            origin,
            asset_id,
        ),
        state.after_call(origin, Call::CollateralAsset { asset_id, enable })
            == state.after_collateral_asset(origin, asset_id, enable),
        state.after_call(
            origin,
            Call::LiquidateBorrow {
                borrower: who,
                liquidate_token: asset_id,
                repay_amount: amount,
                collateral_token: other_id,
            },
        ) == state.after_liquidate_borrow(origin, who, asset_id, amount, other_id),
        state.after_call(origin, Call::AddReserves { payer: address, asset_id, add_amount: amount })
            == state.after_add_reserves(origin, address, asset_id, amount),
        state.after_call(
            origin,
            Call::ReduceReserves { receiver: address, asset_id, reduce_amount: amount },
        ) == state.after_reduce_reserves(origin, address, asset_id, amount),
{
}

/// What an account has earned by now is what it had earned before, and for each voucher the growth
/// of the exchange rate since then.
pub proof fn law_earnings<T: Config>(
    state: State<T>,
    who: AccountId,
    asset_id: CurrencyId,
    earned: EarnedSnapshot,
)
    ensures
        ({
            let prior = state.storage.earned(asset_id, who);
            let rate = state.storage.rate(asset_id);
            let vouchers = state.storage.deposits(asset_id, who).voucher_balance;
            let now = state.earned_by_now(who, asset_id);
            &&& now == Ok::<EarnedSnapshot, DispatchError>(earned) <==> {
                &&& prior.exchange_rate_prior.inner <= rate.inner
                &&& earned.exchange_rate_prior == rate
                &&& is_quotient(
                    (rate.inner - prior.exchange_rate_prior.inner) * vouchers,
                    DIV as int,
                    earned.total_earned_prior - prior.total_earned_prior,
                )
            }
            &&& now is Err ==> now->Err_0 == overflow()
        }),
{
    let prior = state.storage.earned(asset_id, who);
    let rate = state.storage.rate(asset_id);
    let vouchers = state.storage.deposits(asset_id, who).voucher_balance;
    if prior.exchange_rate_prior.inner <= rate.inner {
        let growth = (rate.inner - prior.exchange_rate_prior.inner) as u128;
        let gain = earned.total_earned_prior - prior.total_earned_prior;
        law_scaled_is_the_quotient(
            growth as int,
            vouchers as int,
            DIV as int,
            gain,
        );
    }
}

/// Whether between two storages an account has gained vouchers of an asset, which have come into
/// circulation.
pub open spec fn vouchers_issued<M>(
    before: StorageView<M>,
    after: StorageView<M>,
    asset_id: CurrencyId,
    who: AccountId,
    vouchers: int,
) -> bool {
    let at = Position { asset_id, who };
    let old_deposits = before.deposits(asset_id, who);
    let new_deposits = after.deposits(asset_id, who);
    &&& new_deposits.voucher_balance == old_deposits.voucher_balance + vouchers
    &&& new_deposits.is_collateral == old_deposits.is_collateral
    &&& after.account_deposits == before.account_deposits.insert(at, new_deposits)
    &&& after.supply(asset_id) == before.supply(asset_id) + vouchers
    &&& after.total_supply == before.total_supply.insert(asset_id, after.supply(asset_id))
}

/// Whether between two storages an account has given up vouchers of an asset, which have left
/// circulation; of an account without vouchers no deposits are stored.
pub open spec fn vouchers_burnt<M>(
    before: StorageView<M>,
    after: StorageView<M>,
    asset_id: CurrencyId,
    who: AccountId,
    vouchers: int,
) -> bool {
    let at = Position { asset_id, who };
    let old_deposits = before.deposits(asset_id, who);
    let new_deposits = after.deposits(asset_id, who);
    &&& new_deposits.voucher_balance == old_deposits.voucher_balance - vouchers
    &&& if old_deposits.voucher_balance == vouchers {
        after.account_deposits == before.account_deposits.remove(at)
    } else {
        &&& new_deposits.is_collateral == old_deposits.is_collateral
        &&& after.account_deposits == before.account_deposits.insert(at, new_deposits)
    }
    &&& after.supply(asset_id) == before.supply(asset_id) - vouchers
    &&& after.total_supply == before.total_supply.insert(asset_id, after.supply(asset_id))
}

/// Whether between two storages the earnings of an account in an asset have been brought up to the
/// present exchange rate, with the vouchers that the account had before.
pub open spec fn earnings_noted<M>(
    before: StorageView<M>,
    after: StorageView<M>,
    asset_id: CurrencyId,
    who: AccountId,
) -> bool {
    let at = Position { asset_id, who };
    let prior = before.earned(asset_id, who);
    let noted = after.earned(asset_id, who);
    let rate = before.rate(asset_id);
    &&& noted.exchange_rate_prior == rate
    &&& prior.exchange_rate_prior.inner <= rate.inner
    &&& is_quotient(
        (rate.inner - prior.exchange_rate_prior.inner) * before.deposits(
            asset_id,
            who,
        ).voucher_balance,
        DIV as int,
        noted.total_earned_prior - prior.total_earned_prior,
    )
    &&& after.account_earned == before.account_earned.insert(at, noted)
}

/// A supply moves the amount from the account to the pallet, and gives the account as many vouchers
/// as the amount holds exchange rates.
pub proof fn law_effect_of_mint<T: Config>(
    before: State<T>,
    after: State<T>,
    who: AccountId,
    asset_id: CurrencyId,
    amount: Balance,
) -> (vouchers: Balance)
    requires
        leads_to(before.after_mint(Origin::Signed(who), asset_id, amount), after),
    ensures
        is_quotient(amount * DIV, before.storage.rate(asset_id).inner as int, vouchers as int),
        becomes_by_transfer(
            before.runtime,
            after.runtime,
            asset_id,
            who,
            before.account(),
            amount,
        ),
        vouchers_issued(before.storage, after.storage, asset_id, who, vouchers as int),
        earnings_noted(before.storage, after.storage, asset_id, who),
        after.storage == (StorageView {
            account_deposits: after.storage.account_deposits,
            account_earned: after.storage.account_earned,
            total_supply: after.storage.total_supply,
            ..before.storage
        }),
        after.events == before.events.push(Event::Deposited(who, asset_id, amount)),
{
    let vouchers = voucher_amount(amount, before.storage.rate(asset_id))->Ok_0;
    law_vouchers_for_amount(amount, before.storage.rate(asset_id), vouchers);
    law_earnings(before, who, asset_id, before.earned_by_now(who, asset_id)->Ok_0);
    vouchers
}

/// A redemption of vouchers pays the account, out of the pallet, what the vouchers are worth at the
/// present exchange rate, and takes the vouchers.
pub proof fn law_effect_of_redeeming<T: Config>(
    before: State<T>,
    after: State<T>,
    who: AccountId,
    asset_id: CurrencyId,
    vouchers: Balance,
) -> (paid: Balance)
    requires
        leads_to(before.after_redeeming(who, asset_id, vouchers), after),
    ensures
        is_quotient(before.storage.rate(asset_id).inner * vouchers, DIV as int, paid as int),
        underlying_amount(vouchers, before.storage.rate(asset_id)) == Ok::<Balance, DispatchError>(
            paid,
        ),
        becomes_by_transfer(before.runtime, after.runtime, asset_id, before.account(), who, paid),
        vouchers_burnt(before.storage, after.storage, asset_id, who, vouchers as int),
        after.storage == (StorageView {
            account_deposits: after.storage.account_deposits,
            total_supply: after.storage.total_supply,
            ..before.storage
        }),
        after.events == before.events,
{
    let paid = underlying_amount(vouchers, before.storage.rate(asset_id))->Ok_0;
    law_worth_of_vouchers(vouchers, before.storage.rate(asset_id), paid);
    paid
}

/// A call to redeem an amount takes as many vouchers as the amount holds exchange rates, pays what
/// they are worth at the present exchange rate, and reports what it pays.
pub proof fn law_effect_of_redeem<T: Config>(
    before: State<T>,
    after: State<T>,
    who: AccountId,
    asset_id: CurrencyId,
    amount: Balance,
) -> (redeemed: (Balance, Balance))
    requires
        leads_to(before.after_redeem(Origin::Signed(who), asset_id, amount), after),
    ensures
        ({
            let (vouchers, paid) = redeemed;
            let rate = before.storage.rate(asset_id).inner;
            &&& is_quotient(amount * DIV, rate as int, vouchers as int)
            &&& is_quotient(rate * vouchers, DIV as int, paid as int)
            &&& becomes_by_transfer(
                before.runtime,
                after.runtime,
                asset_id,
                before.account(),
                who,
                paid,
            )
            &&& vouchers_burnt(before.storage, after.storage, asset_id, who, vouchers as int)
            &&& earnings_noted(before.storage, after.storage, asset_id, who)
            &&& after.storage == (StorageView {
                account_deposits: after.storage.account_deposits,
                account_earned: after.storage.account_earned,
                total_supply: after.storage.total_supply,
                ..before.storage
            })
            &&& after.events == before.events.push(Event::Redeemed(who, asset_id, paid))
        }),
{
    let rate = before.storage.rate(asset_id);
    let vouchers = voucher_amount(amount, rate)->Ok_0;
    let paid = underlying_amount(vouchers, rate)->Ok_0;
    law_vouchers_for_amount(amount, rate, vouchers);
    law_worth_of_vouchers(vouchers, rate, paid);
    law_earnings(before, who, asset_id, before.earned_by_now(who, asset_id)->Ok_0);
    (vouchers, paid)
}

/// A call to redeem everything takes all vouchers of the account, pays what they are worth at the
/// present exchange rate, and reports what it pays.
pub proof fn law_effect_of_redeem_all<T: Config>(
    before: State<T>,
    after: State<T>,
    who: AccountId,
    asset_id: CurrencyId,
) -> (paid: Balance)
    requires
        leads_to(before.after_redeem_all(Origin::Signed(who), asset_id), after),
    ensures
        ({
            let vouchers = before.storage.deposits(asset_id, who).voucher_balance;
            let rate = before.storage.rate(asset_id).inner;
            &&& is_quotient(rate * vouchers, DIV as int, paid as int)
            &&& becomes_by_transfer(
                before.runtime,
                after.runtime,
                asset_id,
                before.account(),
                who,
                paid,
            )
            &&& vouchers_burnt(before.storage, after.storage, asset_id, who, vouchers as int)
            &&& earnings_noted(before.storage, after.storage, asset_id, who)
            &&& after.storage == (StorageView {
                account_deposits: after.storage.account_deposits,
                account_earned: after.storage.account_earned,
                total_supply: after.storage.total_supply,
                ..before.storage
            })
            &&& after.events == before.events.push(Event::Redeemed(who, asset_id, paid))
        }),
{
    let rate = before.storage.rate(asset_id);
    let vouchers = before.storage.deposits(asset_id, who).voucher_balance;
    let paid = underlying_amount(vouchers, rate)->Ok_0;
    law_worth_of_vouchers(vouchers, rate, paid);
    law_earnings(before, who, asset_id, before.earned_by_now(who, asset_id)->Ok_0);
    paid
}

/// Whether between two storages an account has come to owe so much of an asset, as of the present
/// interest index, and all accounts together so much.
pub open spec fn debt_noted<M>(
    before: StorageView<M>,
    after: StorageView<M>,
    asset_id: CurrencyId,
    who: AccountId,
    debt: int,
    total: int,
) -> bool {
    let at = Position { asset_id, who };
    let noted = after.debt(asset_id, who);
    &&& noted.principal == debt
    &&& noted.borrow_index == before.index(asset_id)
    &&& after.account_borrows == before.account_borrows.insert(at, noted)
    &&& after.borrows(asset_id) == total
    &&& after.total_borrows == before.total_borrows.insert(asset_id, after.borrows(asset_id))
}

/// What remains of an amount when another is taken from it, or nothing where the other is greater.
pub open spec fn rest_of(amount: int, taken: int) -> int {
    if taken <= amount {
        amount - taken
    } else {
        0
    }
}

/// A borrow moves the amount from the pallet to the account, which owes it beside what it owed
/// before, with interest; all accounts together owe the amount more.
pub proof fn law_effect_of_borrow<T: Config>(
    before: State<T>,
    after: State<T>,
    who: AccountId,
    asset_id: CurrencyId,
    amount: Balance,
)
    requires
        leads_to(before.after_borrow(Origin::Signed(who), asset_id, amount), after),
    ensures
        before.borrow_balance(who, asset_id) is Ok,
        becomes_by_transfer(
            before.runtime,
            after.runtime,
            asset_id,
            before.account(),
            who,
            amount,
        ),
        debt_noted(
            before.storage,
            after.storage,
            asset_id,
            who,
            before.borrow_balance(who, asset_id)->Ok_0 + amount,
            before.storage.borrows(asset_id) + amount,
        ),
        after.storage == (StorageView {
            account_borrows: after.storage.account_borrows,
            total_borrows: after.storage.total_borrows,
            ..before.storage
        }),
        after.events == before.events.push(Event::Borrowed(who, asset_id, amount)),
{
}

/// The repayment of a part of a given debt moves the part from the account to the pallet; the rest
/// of the debt stays, and all accounts together owe the part less, or nothing.
pub proof fn law_effect_of_repaying<T: Config>(
    before: State<T>,
    after: State<T>,
    who: AccountId,
    asset_id: CurrencyId,
    debt: Balance,
    amount: Balance,
)
    requires
        leads_to(before.after_repaying(who, asset_id, debt, amount), after),
    ensures
        amount <= debt,
        becomes_by_transfer(
            before.runtime,
            after.runtime,
            asset_id,
            who,
            before.account(),
            amount,
        ),
        debt_noted(
            before.storage,
            after.storage,
            asset_id,
            who,
            debt - amount,
            rest_of(before.storage.borrows(asset_id) as int, amount as int),
        ),
        after.storage == (StorageView {
            account_borrows: after.storage.account_borrows,
            total_borrows: after.storage.total_borrows,
            ..before.storage
        }),
        after.events == before.events,
{
}

/// A repayment moves the amount from the account to the pallet, takes it from what the account owes
/// with interest, and from what all accounts owe together, as far as that goes.
pub proof fn law_effect_of_repay_borrow<T: Config>(
    before: State<T>,
    after: State<T>,
    who: AccountId,
    asset_id: CurrencyId,
    amount: Balance,
)
    requires
        leads_to(before.after_repay_borrow(Origin::Signed(who), asset_id, amount), after),
    ensures
        before.borrow_balance(who, asset_id) is Ok,
        amount <= before.borrow_balance(who, asset_id)->Ok_0,
        becomes_by_transfer(
            before.runtime,
            after.runtime,
            asset_id,
            who,
            before.account(),
            amount,
        ),
        debt_noted(
            before.storage,
            after.storage,
            asset_id,
            who,
            before.borrow_balance(who, asset_id)->Ok_0 - amount,
            rest_of(before.storage.borrows(asset_id) as int, amount as int),
        ),
        after.storage == (StorageView {
            account_borrows: after.storage.account_borrows,
            total_borrows: after.storage.total_borrows,
            ..before.storage
        }),
        after.events == before.events.push(Event::RepaidBorrow(who, asset_id, amount)),
{
}

/// The repayment of everything moves what the account owes with interest to the pallet, and takes
/// just that from what all accounts owe together, as far as that goes: what others owe stays.
pub proof fn law_effect_of_repay_borrow_all<T: Config>(
    before: State<T>,
    after: State<T>,
    who: AccountId,
    asset_id: CurrencyId,
)
    requires
        leads_to(before.after_repay_borrow_all(Origin::Signed(who), asset_id), after),
    ensures
        ({
            let debt = before.borrow_balance(who, asset_id)->Ok_0;
            &&& before.borrow_balance(who, asset_id) is Ok
            &&& becomes_by_transfer(
                before.runtime,
                after.runtime,
                asset_id,
                who,
                before.account(),
                debt,
            )
            &&& debt_noted(
                before.storage,
                after.storage,
                asset_id,
                who,
                0,
                rest_of(before.storage.borrows(asset_id) as int, debt as int),
            )
            &&& after.storage.borrows(asset_id) + debt >= before.storage.borrows(asset_id)
            &&& after.storage == (StorageView {
                account_borrows: after.storage.account_borrows,
                total_borrows: after.storage.total_borrows,
                ..before.storage
            })
            &&& after.events == before.events.push(Event::RepaidBorrow(who, asset_id, debt))
        }),
{
}

/// The choice of collateral marks the deposits of the account, and does nothing else but tell.
pub proof fn law_effect_of_collateral_asset<T: Config>(
    before: State<T>,
    after: State<T>,
    who: AccountId,
    asset_id: CurrencyId,
    enable: bool,
)
    requires
        leads_to(before.after_collateral_asset(Origin::Signed(who), asset_id, enable), after),
    ensures
        ({
            let at = Position { asset_id, who };
            let old_deposits = before.storage.deposits(asset_id, who);
            let new_deposits = after.storage.deposits(asset_id, who);
            &&& after.runtime == before.runtime
            &&& new_deposits.is_collateral == enable
            &&& new_deposits.voucher_balance == old_deposits.voucher_balance
            &&& after.storage == (StorageView {
                account_deposits: before.storage.account_deposits.insert(at, new_deposits),
                ..before.storage
            })
            &&& after.events == before.events.push(
                if enable {
                    Event::CollateralAssetAdded(who, asset_id)
                } else {
                    Event::CollateralAssetRemoved(who, asset_id)
                },
            )
        }),
{
}

/// The settlement of a liquidation moves what is repaid from the liquidator to the pallet, takes it
/// from what the borrower owes with interest and from what all accounts owe together, and passes
/// from the borrower to the liquidator as many vouchers as the seized amount holds exchange rates.
pub proof fn law_effect_of_liquidated_transfer<T: Config>(
    before: State<T>,
    after: State<T>,
    liquidator: AccountId,
    borrower: AccountId,
    repaid_id: CurrencyId,
    seized_id: CurrencyId,
    repaid: Balance,
    seized: Balance,
) -> (vouchers: Balance)
    requires
        leads_to(
            before.after_liquidated_transfer(
                liquidator,
                borrower,
                repaid_id,
                seized_id,
                repaid,
                seized,
            ),
            after,
        ),
    ensures
        is_quotient(seized * DIV, before.storage.rate(seized_id).inner as int, vouchers as int),
        becomes_by_transfer(
            before.runtime,
            after.runtime,
            repaid_id,
            liquidator,
            before.account(),
            repaid,
        ),
        before.borrow_balance(borrower, repaid_id) is Ok,
        debt_noted(
            before.storage,
            after.storage,
            repaid_id,
            borrower,
            before.borrow_balance(borrower, repaid_id)->Ok_0 - repaid,
            before.storage.borrows(repaid_id) - repaid,
        ),
        vouchers_passed(
            before.storage,
            after.storage,
            seized_id,
            borrower,
            liquidator,
            vouchers as int,
        ),
        after.storage == (StorageView {
            account_borrows: after.storage.account_borrows,
            total_borrows: after.storage.total_borrows,
            account_deposits: after.storage.account_deposits,
            ..before.storage
        }),
        after.events == before.events.push(
            Event::LiquidatedBorrow(liquidator, borrower, repaid_id, seized_id, repaid, seized),
        ),
{
    let rate = before.storage.rate(seized_id);
    let vouchers = voucher_amount(seized, rate)->Ok_0;
    law_vouchers_for_amount(seized, rate, vouchers);
    let from = Position { asset_id: seized_id, who: borrower };
    let to = Position { asset_id: seized_id, who: liquidator };
    assert(after.storage.account_deposits =~= before.storage.account_deposits.insert(
        from,
        after.storage.deposits(seized_id, borrower),
    ).insert(to, after.storage.deposits(seized_id, liquidator)));
    vouchers
}

/// Whether between two storages vouchers of an asset have passed from one account to another. What
/// the accounts use as collateral stays so.
pub open spec fn vouchers_passed<M>(
    before: StorageView<M>,
    after: StorageView<M>,
    asset_id: CurrencyId,
    source: AccountId,
    dest: AccountId,
    vouchers: int,
) -> bool {
    let from = Position { asset_id, who: source };
    let to = Position { asset_id, who: dest };
    let held = before.deposits(asset_id, source);
    let left = after.deposits(asset_id, source);
    let had = before.deposits(asset_id, dest);
    let has = after.deposits(asset_id, dest);
    &&& held.voucher_balance >= vouchers
    &&& if source == dest {
        has.voucher_balance == had.voucher_balance
    } else {
        &&& left.voucher_balance == held.voucher_balance - vouchers
        &&& has.voucher_balance == had.voucher_balance + vouchers
    }
    &&& left.is_collateral == held.is_collateral
    &&& has.is_collateral == had.is_collateral
    &&& after.account_deposits == before.account_deposits.insert(from, left).insert(to, has)
}

/// A liquidation moves what is repaid from the liquidator to the pallet, not to the borrower, takes
/// it from the debt, and passes vouchers of the borrower to the liquidator: as many as are worth
/// what is repaid, with the incentive of the market of the repaid asset.
pub proof fn law_effect_of_liquidate_borrow<T: Config>(
    before: State<T>,
    after: State<T>,
    liquidator: AccountId,
    borrower: AccountId,
    repaid_id: CurrencyId,
    repaid: Balance,
    seized_id: CurrencyId,
) -> (amounts: (FixedU128, FixedU128, Balance, Balance))
    requires
        leads_to(
            before.after_liquidate_borrow(
                Origin::Signed(liquidator),
                borrower,
                repaid_id,
                repaid,
                seized_id,
            ),
            after,
        ),
    ensures
        ({
            let (value, due, seized, vouchers) = amounts;
            let incentive = before.storage.markets[repaid_id].liquidate_incentive;
            &&& is_quotient(
                before.price(repaid_id)->Ok_0.inner * repaid,
                DIV as int,
                value.inner as int,
            )
            &&& is_quotient(value.inner * incentive.inner, DIV as int, due.inner as int)
            &&& is_quotient(
                due.inner * DIV,
                before.price(seized_id)->Ok_0.inner as int,
                seized as int,
            )
            &&& is_quotient(
                seized * DIV,
                before.storage.rate(seized_id).inner as int,
                vouchers as int,
            )
            &&& becomes_by_transfer(
                before.runtime,
                after.runtime,
                repaid_id,
                liquidator,
                before.account(),
                repaid,
            )
            &&& before.borrow_balance(borrower, repaid_id) is Ok
            &&& debt_noted(
                before.storage,
                after.storage,
                repaid_id,
                borrower,
                before.borrow_balance(borrower, repaid_id)->Ok_0 - repaid,
                before.storage.borrows(repaid_id) - repaid,
            )
            &&& vouchers_passed(
                before.storage,
                after.storage,
                seized_id,
                borrower,
                liquidator,
                vouchers as int,
            )
            &&& after.storage == (StorageView {
                account_borrows: after.storage.account_borrows,
                total_borrows: after.storage.total_borrows,
                account_deposits: after.storage.account_deposits,
                ..before.storage
            })
            &&& after.events == before.events.push(
                Event::LiquidatedBorrow(
                    liquidator,
                    borrower,
                    repaid_id,
                    seized_id,
                    repaid,
                    seized,
                ),
            )
        }),
{
    let incentive = before.storage.markets[repaid_id].liquidate_incentive;
    let seized = before.seized_amount(borrower, repaid_id, repaid, seized_id, incentive)->Ok_0;
    let value = before.asset_value(repaid_id, repaid)->Ok_0;
    let due = value.spec_checked_mul(incentive)->Some_0;
    law_value_of_amount(before, repaid_id, repaid, value);
    law_product(value, incentive, due);
    law_ratio(due, before.price(seized_id)->Ok_0, FixedU128 { inner: seized });
    let vouchers = law_effect_of_liquidated_transfer(
        before,
        after,
        liquidator,
        borrower,
        repaid_id,
        seized_id,
        repaid,
        seized,
    );
    (value, due, seized, vouchers)
}

/// An addition to the reserves moves the amount from the named account to the pallet, adds it to the
/// reserves of the asset, and reports the admin, the amount and the new total.
pub proof fn law_effect_of_add_reserves<T: Config>(
    before: State<T>,
    after: State<T>,
    origin: Origin,
    payer: T::Source,
    asset_id: CurrencyId,
    amount: Balance,
)
    requires
        leads_to(before.after_add_reserves(origin, payer, asset_id, amount), after),
    ensures
        ({
            let party = before.runtime.named(payer)->Some_0;
            let admin = if origin is Signed {
                origin->Signed_0
            } else {
                party
            };
            let total = after.storage.reserves(asset_id);
            &&& before.runtime.named(payer) is Some
            &&& becomes_by_transfer(
                before.runtime,
                after.runtime,
                asset_id,
                party,
                before.account(),
                amount,
            )
            &&& total == before.storage.reserves(asset_id) + amount
            &&& after.storage == (StorageView {
                total_reserves: before.storage.total_reserves.insert(asset_id, total),
                ..before.storage
            })
            &&& after.events == before.events.push(
                Event::ReservesAdded(admin, asset_id, amount, total),
            )
        }),
{
}

/// A reduction of the reserves moves the amount from the pallet to the named account, takes it from
/// the reserves of the asset, and reports the admin, the amount and the new total.
pub proof fn law_effect_of_reduce_reserves<T: Config>(
    before: State<T>,
    after: State<T>,
    origin: Origin,
    receiver: T::Source,
    asset_id: CurrencyId,
    amount: Balance,
)
    requires
        leads_to(before.after_reduce_reserves(origin, receiver, asset_id, amount), after),
    ensures
        ({
            let party = before.runtime.named(receiver)->Some_0;
            let admin = if origin is Signed {
                origin->Signed_0
            } else {
                party
            };
            let total = after.storage.reserves(asset_id);
            &&& before.runtime.named(receiver) is Some
            &&& becomes_by_transfer(
                before.runtime,
                after.runtime,
                asset_id,
                before.account(),
                party,
                amount,
            )
            &&& total + amount == before.storage.reserves(asset_id)
            &&& after.storage == (StorageView {
                total_reserves: before.storage.total_reserves.insert(asset_id, total),
                ..before.storage
            })
            &&& after.events == before.events.push(
                Event::ReservesReduced(admin, asset_id, amount, total),
            )
        }),
{
}

/// A new market is stored as it is given, walked last, and bound to its voucher token; one unit of
/// its asset is exchanged for fifty vouchers, and its interest index is one.
pub proof fn law_effect_of_add_market<T: Config>(
    before: State<T>,
    after: State<T>,
    origin: Origin,
    asset_id: CurrencyId,
    market: Market<T::RateModel>,
)
    requires
        leads_to(before.after_add_market(origin, asset_id, market), after),
    ensures
        ({
            let opening = after.storage.rate(asset_id);
            let index = after.storage.index(asset_id);
            &&& after.runtime == before.runtime
            &&& opening.inner * 50 == DIV
            &&& index.inner == DIV
            &&& after.storage == (StorageView {
                markets: before.storage.markets.insert(asset_id, market),
                market_order: before.storage.market_order.push(asset_id),
                underlying_asset_id: before.storage.underlying_asset_id.insert(
                    market.ptoken_id,
                    asset_id,
                ),
                exchange_rate: before.storage.exchange_rate.insert(asset_id, opening),
                borrow_index: before.storage.borrow_index.insert(asset_id, index),
                ..before.storage
            })
            &&& after.events == before.events.push(Event::NewMarket(market))
        }),
{
}

/// Whether between two states only one stored market has changed, with one event.
pub open spec fn market_changed<T: Config>(
    before: State<T>,
    after: State<T>,
    asset_id: CurrencyId,
    market: Market<T::RateModel>,
    event: Event<T::RateModel>,
) -> bool {
    &&& before.storage.markets.contains_key(asset_id)
    &&& after.runtime == before.runtime
    &&& after.storage == (StorageView {
        markets: before.storage.markets.insert(asset_id, market),
        ..before.storage
    })
    &&& after.events == before.events.push(event)
}

/// The calls on stored markets change what they are named for, report it, and change nothing else.
pub proof fn law_effect_of_market_calls<T: Config>(
    before: State<T>,
    after: State<T>,
    origin: Origin,
    asset_id: CurrencyId,
    model: T::RateModel,
    market: Market<T::RateModel>,
    collateral_factor: Ratio,
    reserve_factor: Ratio,
    close_factor: Ratio,
    incentive: Rate,
    cap: Balance,
)
    ensures
        ({
            let stored = before.storage.markets[asset_id];
            let active = Market {
                collateral_factor: stored.collateral_factor,
                reserve_factor: stored.reserve_factor,
                close_factor: stored.close_factor,
                liquidate_incentive: stored.liquidate_incentive,
                rate_model: stored.rate_model,
                state: MarketState::Active,
                cap: stored.cap,
                ptoken_id: stored.ptoken_id,
            };
            let remodelled = Market {
                collateral_factor: stored.collateral_factor,
                reserve_factor: stored.reserve_factor,
                close_factor: stored.close_factor,
                liquidate_incentive: stored.liquidate_incentive,
                rate_model: model,
                state: stored.state,
                cap: stored.cap,
                ptoken_id: stored.ptoken_id,
            };
            let updated = Market {
                collateral_factor,
                reserve_factor,
                close_factor,
                liquidate_incentive: incentive,
                rate_model: stored.rate_model,
                state: stored.state,
                cap,
                ptoken_id: stored.ptoken_id,
            };
            &&& leads_to(before.after_activate_market(origin, asset_id), after) ==> if stored.state
                == MarketState::Active {
                after == before
            } else {
                market_changed(before, after, asset_id, active, Event::ActivatedMarket(asset_id))
            }
            &&& leads_to(before.after_update_rate_model(origin, asset_id, model), after)
                ==> market_changed(
                before,
                after,
                asset_id,
                remodelled,
                Event::UpdatedMarket(remodelled),
            )
            &&& leads_to(
                before.after_update_market(
                    origin,
                    asset_id,
                    collateral_factor,
                    reserve_factor,
                    close_factor,
                    incentive,
                    cap,
                ),
                after,
            ) ==> market_changed(before, after, asset_id, updated, Event::UpdatedMarket(updated))
            &&& leads_to(before.after_force_update_market(origin, asset_id, market), after)
                ==> market_changed(before, after, asset_id, market, Event::UpdatedMarket(market))
        }),
{
}

/// Interest is due where at least a hundred seconds and at most five days have passed since the last
/// accrual.
pub proof fn law_interest_is_due<T: Config>(state: State<T>, now: Timestamp)
    ensures
        state.accrual_due(now) <==> state.storage.last_accrued_timestamp + 100 <= now <= (
        state.storage.last_accrued_timestamp + 5 * 24 * 60 * 60),
{
}

/// The start of a block accrues interest for all the time since the last accrual where it is due,
/// and keeps everything that the accrual writes, with the time of the block as that of the last
/// accrual. Else it keeps everything as it was; only the very first block notes its time. It moves
/// no tokens, reports nothing, and weighs one accrual for each active market.
pub proof fn law_effect_of_a_block<T: Config>(before: State<T>, now: Timestamp)
    ensures
        ({
            let last = before.storage.last_accrued_timestamp;
            let noted = StorageView {
                last_accrued_timestamp: if last == 0 {
                    now
                } else {
                    last
                },
                ..before.storage
            };
            let accrued = before.runtime.accrued(noted, (now - last) as u64);
            let due = last + 100 <= now <= last + 432_000;
            let after = before.after_initialize(now);
            let weight = before.initialize_weight(now);
            &&& after.runtime == before.runtime
            &&& after.events == before.events
            &&& if due && accrued is Ok {
                let written = accrued->Ok_0;
                &&& after.storage.last_accrued_timestamp == now
                &&& after.storage.total_supply == written.total_supply
                &&& after.storage.total_borrows == written.total_borrows
                &&& after.storage.total_reserves == written.total_reserves
                &&& after.storage.account_borrows == written.account_borrows
                &&& after.storage.account_deposits == written.account_deposits
                &&& after.storage.account_earned == written.account_earned
                &&& after.storage.borrow_index == written.borrow_index
                &&& after.storage.exchange_rate == written.exchange_rate
                &&& after.storage.borrow_rate == written.borrow_rate
                &&& after.storage.supply_rate == written.supply_rate
                &&& after.storage.utilization_ratio == written.utilization_ratio
                &&& after.storage.markets == written.markets
                &&& after.storage.market_order == written.market_order
                &&& after.storage.underlying_asset_id == written.underlying_asset_id
                &&& weight == T::accrual_weight() * written.active_ids().len()
            } else {
                &&& after.storage == noted
                &&& weight == 0
            }
        }),
{
}

}
