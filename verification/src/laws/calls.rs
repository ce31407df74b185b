//! Who may make a call, where, and what it leaves alone.

use crate::call::Call;
use crate::config::Config;
use crate::pallet::State;
use crate::storage::position;
use crate::types::{refused, AccountId, CurrencyId, DispatchError, Error, Origin};
use vstd::prelude::*;

verus! {

/// Whether a call is one of the update origin.
pub open spec fn is_update_call<T: Config>(call: Call<T>) -> bool {
    call is AddMarket || call is ActivateMarket || call is UpdateRateModel || call is UpdateMarket
        || call is ForceUpdateMarket
}

/// Whether a call is one of the reserve origin.
pub open spec fn is_reserve_call<T: Config>(call: Call<T>) -> bool {
    call is AddReserves || call is ReduceReserves
}

/// Whether an origin may make a call at all: some calls are for the update origin, some for the
/// reserve origin, and the others for accounts.
pub open spec fn is_entitled<T: Config>(state: State<T>, origin: Origin, call: Call<T>) -> bool {
    if is_update_call(call) {
        state.runtime.may_update(origin)
    } else if is_reserve_call(call) {
        state.runtime.may_reserve(origin)
    } else {
        origin is Signed
    }
}

/// Whether a call is about an asset.
pub open spec fn is_about<T: Config>(call: Call<T>, id: CurrencyId) -> bool {
    match call {
        Call::AddMarket { asset_id, market: _ } => asset_id == id,
        Call::ActivateMarket { asset_id } => asset_id == id,
        Call::UpdateRateModel { asset_id, rate_model: _ } => asset_id == id,
        Call::UpdateMarket {
            asset_id,
            collateral_factor: _,
            reserve_factor: _,
            close_factor: _,
            liquidate_incentive: _,
            cap: _,
        } => asset_id == id,
        Call::ForceUpdateMarket { asset_id, market: _ } => asset_id == id,
        Call::Mint { asset_id, mint_amount: _ } => asset_id == id,
        Call::Redeem { asset_id, redeem_amount: _ } => asset_id == id,
        Call::RedeemAll { asset_id } => asset_id == id,
        Call::Borrow { asset_id, borrow_amount: _ } => asset_id == id,
        Call::RepayBorrow { asset_id, repay_amount: _ } => asset_id == id,
        Call::RepayBorrowAll { asset_id } => asset_id == id,
        Call::CollateralAsset { asset_id, enable: _ } => asset_id == id,
        Call::LiquidateBorrow {
            borrower: _,
            liquidate_token,
            repay_amount: _,
            collateral_token,
        } => liquidate_token == id || collateral_token == id,
        Call::AddReserves { payer: _, asset_id, add_amount: _ } => asset_id == id,
        Call::ReduceReserves { receiver: _, asset_id, reduce_amount: _ } => asset_id == id,
    }
}

/// Whether a call is about the deposits and debts of an account: of the one that signs, and of a
/// borrower that is liquidated.
pub open spec fn concerns<T: Config>(origin: Origin, call: Call<T>, who: AccountId) -> bool {
    if is_update_call(call) || is_reserve_call(call) {
        false
    } else {
        ||| origin == Origin::Signed(who)
        ||| call matches Call::LiquidateBorrow {
            borrower,
            liquidate_token: _,
            repay_amount: _,
            collateral_token: _,
        } && borrower == who
    }
}

/// An origin that is not entitled to a call is refused as a bad origin, whatever the state.
pub proof fn law_only_the_entitled<T: Config>(state: State<T>, origin: Origin, call: Call<T>)
    requires
        !is_entitled(state, origin, call),
    ensures
        state.after_call(origin, call) == Err::<State<T>, DispatchError>(DispatchError::BadOrigin),
{
}

/// In a market that is not active nobody supplies, redeems, borrows, repays, changes collateral,
/// liquidates or touches reserves.
pub proof fn law_inactive_markets_are_closed<T: Config>(
    state: State<T>,
    origin: Origin,
    call: Call<T>,
    asset_id: CurrencyId,
)
    requires
        is_about(call, asset_id),
        !is_update_call(call),
        state.active_market(asset_id) is Err,
    ensures
        state.after_call(origin, call) is Err,
        origin is Signed && !is_reserve_call(call) ==> state.after_call(origin, call) == Err::<
            State<T>,
            DispatchError,
        >(refused(Error::MarketNotActivated)),
{
}

/// A call of an account leaves the deposits, the debts and the earnings of every other account
/// alone, and those in every other asset; so do the calls on markets and reserves.
pub proof fn law_other_positions_stay<T: Config>(
    before: State<T>,
    origin: Origin,
    call: Call<T>,
    asset_id: CurrencyId,
    who: AccountId,
)
    requires
        !concerns(origin, call, who) || !is_about(call, asset_id),
        before.after_call(origin, call) is Ok,
    ensures
        ({
            let after = before.after_call(origin, call)->Ok_0;
            &&& after.storage.deposits(asset_id, who) == before.storage.deposits(asset_id, who)
            &&& after.storage.debt(asset_id, who) == before.storage.debt(asset_id, who)
            &&& after.storage.earned(asset_id, who) == before.storage.earned(asset_id, who)
            &&& after.storage.account_deposits.contains_key(position(asset_id, who))
                == before.storage.account_deposits.contains_key(position(asset_id, who))
        }),
{
}

/// A call leaves the totals and the market of every asset alone that it is not about.
pub proof fn law_other_assets_stay<T: Config>(
    before: State<T>,
    origin: Origin,
    call: Call<T>,
    asset_id: CurrencyId,
)
    requires
        !is_about(call, asset_id),
        before.after_call(origin, call) is Ok,
    ensures
        ({
            let after = before.after_call(origin, call)->Ok_0;
            &&& after.storage.supply(asset_id) == before.storage.supply(asset_id)
            &&& after.storage.borrows(asset_id) == before.storage.borrows(asset_id)
            &&& after.storage.reserves(asset_id) == before.storage.reserves(asset_id)
            &&& after.market(asset_id) == before.market(asset_id)
        }),
{
}

/// No call moves the exchange rate, the interest index or the other rates of an asset that has a
/// market, nor the time of the last accrual: only the start of a block does.
pub proof fn law_calls_move_no_rates<T: Config>(
    before: State<T>,
    origin: Origin,
    call: Call<T>,
    asset_id: CurrencyId,
)
    requires
        before.market(asset_id) is Ok,
        before.after_call(origin, call) is Ok,
    ensures
        ({
            let after = before.after_call(origin, call)->Ok_0;
            &&& after.storage.rate(asset_id) == before.storage.rate(asset_id)
            &&& after.storage.index(asset_id) == before.storage.index(asset_id)
            &&& after.storage.borrow_rate == before.storage.borrow_rate
            &&& after.storage.supply_rate == before.storage.supply_rate
            &&& after.storage.utilization_ratio == before.storage.utilization_ratio
            &&& after.storage.last_accrued_timestamp == before.storage.last_accrued_timestamp
        }),
{
}

/// Calls on markets, and the choice of collateral, move no tokens.
pub proof fn law_no_tokens_move<T: Config>(before: State<T>, origin: Origin, call: Call<T>)
    requires
        is_update_call(call) || call is CollateralAsset,
        before.after_call(origin, call) is Ok,
    ensures
        before.after_call(origin, call)->Ok_0.runtime == before.runtime,
{
}

/// A call that succeeds reports one event, after all that were reported before; only the activation
/// of a market that is active reports none.
pub proof fn law_one_event<T: Config>(before: State<T>, origin: Origin, call: Call<T>)
    requires
        before.after_call(origin, call) is Ok,
    ensures
        ({
            let after = before.after_call(origin, call)->Ok_0;
            if call matches Call::ActivateMarket { asset_id } && before.storage.is_active(
                asset_id,
            ) {
                after.events == before.events
            } else {
                after.events.len() == before.events.len() + 1 && after.events.drop_last()
                    == before.events
            }
        }),
{
    let after = before.after_call(origin, call)->Ok_0;
    if after.events.len() == before.events.len() + 1 {
        assert(after.events.drop_last() =~= before.events);
    }
}

}
