//! Markets and their voucher tokens.

use crate::call::Call;
use crate::config::Config;
use crate::fixed::{Rate, Ratio, DIV};
use crate::markets::{is_factor, opening_exchange_rate};
use crate::pallet::State;
use crate::storage::{empty_storage, StorageView};
use crate::types::{
    refused, Balance, CurrencyId, DispatchError, Error, Market, MarketState, Origin, Timestamp,
};
use vstd::prelude::*;

verus! {

impl<M> StorageView<M> {
    /// Assets with a market and voucher tokens belong to each other, one to one.
    pub open spec fn tokens_bound(self) -> bool {
        &&& forall|asset_id: CurrencyId| #[trigger]
            self.markets.contains_key(asset_id) ==> self.underlying_asset_id.contains_key(
                self.markets[asset_id].ptoken_id,
            ) && self.underlying_asset_id[self.markets[asset_id].ptoken_id] == asset_id
        &&& forall|ptoken_id: CurrencyId| #[trigger]
            self.underlying_asset_id.contains_key(ptoken_id) ==> self.markets.contains_key(
                self.underlying_asset_id[ptoken_id],
            ) && self.markets[self.underlying_asset_id[ptoken_id]].ptoken_id == ptoken_id
    }
}

/// Whether a call keeps the voucher token of every market: all do but the replacement of a market
/// by one with another voucher token.
pub open spec fn keeps_tokens<T: Config>(before: State<T>, call: Call<T>) -> bool {
    call matches Call::ForceUpdateMarket { asset_id, market } ==> before.ptoken(asset_id) == Ok::<
        CurrencyId,
        DispatchError,
    >(market.ptoken_id)
}

/// A pallet without markets walks all of them, and its voucher tokens are bound.
pub proof fn law_markets_at_first<M>()
    ensures
        empty_storage::<M>().walks_all_markets(),
        empty_storage::<M>().tokens_bound(),
{
}

/// Every call leaves all markets being walked, each once.
pub proof fn law_all_markets_walked<T: Config>(before: State<T>, origin: Origin, call: Call<T>)
    requires
        before.storage.walks_all_markets(),
        before.after_call(origin, call) is Ok,
    ensures
        before.after_call(origin, call)->Ok_0.storage.walks_all_markets(),
{
    let after = before.after_call(origin, call)->Ok_0;
    let old_order = before.storage.market_order;
    let new_order = after.storage.market_order;
    match call {
        Call::AddMarket { asset_id, market: _ } => {
            assert(!old_order.contains(asset_id));
            assert(new_order == old_order.push(asset_id));
            assert forall|id: CurrencyId| #[trigger]
                after.storage.markets.contains_key(id) <==> new_order.contains(id) by {
                assert(before.storage.markets.contains_key(id) <==> old_order.contains(id));
                if old_order.contains(id) {
                    let i = old_order.index_of(id);
                    assert(new_order[i] == id);
                }
                assert(new_order[old_order.len() as int] == asset_id);
                if new_order.contains(id) && id != asset_id {
                    let i = new_order.index_of(id);
                    assert(old_order[i] == id);
                }
            }
        },
        _ => {
            assert(new_order == old_order);
            assert forall|id: CurrencyId| #[trigger]
                after.storage.markets.contains_key(id) <==> new_order.contains(id) by {
                assert(before.storage.markets.contains_key(id) <==> old_order.contains(id));
            }
        },
    }
}

/// Every call that keeps the voucher tokens of markets leaves assets and voucher tokens bound, one
/// to one.
pub proof fn law_tokens_stay_bound<T: Config>(before: State<T>, origin: Origin, call: Call<T>)
    requires
        before.storage.tokens_bound(),
        keeps_tokens(before, call),
        before.after_call(origin, call) is Ok,
    ensures
        before.after_call(origin, call)->Ok_0.storage.tokens_bound(),
{
    let old_storage = before.storage;
    let new_storage = before.after_call(origin, call)->Ok_0.storage;
    assert forall|asset_id: CurrencyId| #[trigger]
        new_storage.markets.contains_key(
            asset_id,
        ) implies new_storage.underlying_asset_id.contains_key(
        new_storage.markets[asset_id].ptoken_id,
    ) && new_storage.underlying_asset_id[new_storage.markets[asset_id].ptoken_id] == asset_id by {
        assert(old_storage.markets.contains_key(asset_id) || call is AddMarket);
    }
    assert forall|ptoken_id: CurrencyId| #[trigger]
        new_storage.underlying_asset_id.contains_key(
            ptoken_id,
        ) implies new_storage.markets.contains_key(new_storage.underlying_asset_id[ptoken_id])
        && new_storage.markets[new_storage.underlying_asset_id[ptoken_id]].ptoken_id
        == ptoken_id by {
        assert(old_storage.underlying_asset_id.contains_key(ptoken_id) || call is AddMarket);
    }
}

/// The voucher token of an asset leads back to the asset, and the underlying asset of a voucher
/// token back to the token. So two assets never share a voucher token.
pub proof fn law_tokens_and_assets_are_inverse<T: Config>(
    state: State<T>,
    asset_id: CurrencyId,
    ptoken_id: CurrencyId,
)
    requires
        state.storage.tokens_bound(),
    ensures
        state.ptoken(asset_id) == Ok::<CurrencyId, DispatchError>(ptoken_id) <==> state.underlying(
            ptoken_id,
        ) == Ok::<CurrencyId, DispatchError>(asset_id),
{
    assert(state.storage.markets.contains_key(asset_id)
        || !state.storage.markets.contains_key(asset_id));
    assert(state.storage.underlying_asset_id.contains_key(ptoken_id)
        || !state.storage.underlying_asset_id.contains_key(ptoken_id));
}

/// A new market is pending and bound to a voucher token that no market had; its exchange rate and
/// its interest index are the opening ones, and no other market changes.
pub proof fn law_new_market<T: Config>(
    before: State<T>,
    origin: Origin,
    asset_id: CurrencyId,
    market: Market<T::RateModel>,
)
    requires
        before.after_add_market(origin, asset_id, market) is Ok,
    ensures
        ({
            let after = before.after_add_market(origin, asset_id, market)->Ok_0;
            &&& before.market(asset_id) is Err
            &&& before.underlying(market.ptoken_id) is Err
            &&& after.market(asset_id) == Ok::<Market<T::RateModel>, DispatchError>(market)
            &&& after.active_market(asset_id) is Err
            &&& after.ptoken(asset_id) == Ok::<CurrencyId, DispatchError>(market.ptoken_id)
            &&& after.underlying(market.ptoken_id) == Ok::<CurrencyId, DispatchError>(asset_id)
            &&& after.storage.rate(asset_id) == opening_exchange_rate()
            &&& after.storage.index(asset_id).inner == DIV
            &&& forall|other: CurrencyId|
                other != asset_id ==> #[trigger] after.market(other) == before.market(other)
        }),
{
}

/// A market is not added twice, with whatever parameters.
pub proof fn law_market_is_added_once<T: Config>(
    before: State<T>,
    origin: Origin,
    asset_id: CurrencyId,
    market: Market<T::RateModel>,
    other: Market<T::RateModel>,
)
    requires
        before.after_add_market(origin, asset_id, market) is Ok,
    ensures
        before.after_add_market(origin, asset_id, market)->Ok_0.after_add_market(
            origin,
            asset_id,
            other,
        ) == Err::<State<T>, DispatchError>(refused(Error::MarketAlredyExists)),
{
}

/// A voucher token of one market is not accepted for another.
pub proof fn law_voucher_token_is_used_once<T: Config>(
    before: State<T>,
    origin: Origin,
    asset_id: CurrencyId,
    market: Market<T::RateModel>,
    other_id: CurrencyId,
    other: Market<T::RateModel>,
)
    requires
        before.after_add_market(origin, asset_id, market) is Ok,
        other.ptoken_id == market.ptoken_id,
    ensures
        before.after_add_market(origin, asset_id, market)->Ok_0.after_add_market(
            origin,
            other_id,
            other,
        ) is Err,
{
}

/// An activated market is active, keeps its parameters, and its activation once more does nothing.
pub proof fn law_activation<T: Config>(before: State<T>, origin: Origin, asset_id: CurrencyId)
    requires
        before.after_activate_market(origin, asset_id) is Ok,
    ensures
        ({
            let after = before.after_activate_market(origin, asset_id)->Ok_0;
            &&& after.active_market(asset_id) == Ok::<Market<T::RateModel>, DispatchError>(
                Market { state: MarketState::Active, ..before.market(asset_id)->Ok_0 },
            )
            &&& after.after_activate_market(origin, asset_id) == Ok::<State<T>, DispatchError>(
                after,
            )
        }),
{
}

/// New parameters leave the state, the voucher token and the rate model of a market alone.
pub proof fn law_update_keeps_the_rest<T: Config>(
    before: State<T>,
    origin: Origin,
    asset_id: CurrencyId,
    collateral_factor: Ratio,
    reserve_factor: Ratio,
    close_factor: Ratio,
    liquidate_incentive: Rate,
    cap: Balance,
)
    requires
        before.after_update_market(
            origin,
            asset_id,
            collateral_factor,
            reserve_factor,
            close_factor,
            liquidate_incentive,
            cap,
        ) is Ok,
    ensures
        ({
            let after = before.after_update_market(
                origin,
                asset_id,
                collateral_factor,
                reserve_factor,
                close_factor,
                liquidate_incentive,
                cap,
            )->Ok_0;
            let old_market = before.market(asset_id)->Ok_0;
            let new_market = after.market(asset_id)->Ok_0;
            &&& new_market.state == old_market.state
            &&& new_market.ptoken_id == old_market.ptoken_id
            &&& new_market.rate_model == old_market.rate_model
        }),
{
}

/// Whether a market has sound parameters: proper factors, room, and a sound rate model.
pub open spec fn is_sound<T: Config>(market: Market<T::RateModel>) -> bool {
    &&& is_factor(market.collateral_factor)
    &&& is_factor(market.reserve_factor)
    &&& market.cap > 0
    &&& T::sound(market.rate_model)
}

/// Every call leaves all markets with sound parameters, but for the replacement of a market, which
/// asks only for a sound rate model.
pub proof fn law_markets_stay_sound<T: Config>(before: State<T>, origin: Origin, call: Call<T>)
    requires
        forall|id: CurrencyId| #[trigger]
            before.storage.markets.contains_key(id) ==> is_sound::<T>(before.storage.markets[id]),
        call matches Call::ForceUpdateMarket { asset_id: _, market } ==> is_sound::<T>(market),
        before.after_call(origin, call) is Ok,
    ensures
        ({
            let after = before.after_call(origin, call)->Ok_0;
            forall|id: CurrencyId| #[trigger]
                after.storage.markets.contains_key(id) ==> is_sound::<T>(after.storage.markets[id])
        }),
{
    let after = before.after_call(origin, call)->Ok_0;
    assert forall|id: CurrencyId| #[trigger]
        after.storage.markets.contains_key(id) implies is_sound::<T>(
        after.storage.markets[id],
    ) by {
        assert(before.storage.markets.contains_key(id) || call is AddMarket);
    }
}

/// Markets are never removed, and only calls of the update origin change them.
pub proof fn law_only_update_calls_change_markets<T: Config>(
    before: State<T>,
    origin: Origin,
    call: Call<T>,
    asset_id: CurrencyId,
)
    requires
        before.after_call(origin, call) is Ok,
    ensures
        ({
            let after = before.after_call(origin, call)->Ok_0;
            &&& before.market(asset_id) is Ok ==> after.market(asset_id) is Ok
            &&& !before.runtime.may_update(origin) ==> after.market(asset_id) == before.market(
                asset_id,
            )
        }),
{
}

/// Whether the accrual of interest in a block, if it takes place, leaves the markets, their order
/// and their voucher tokens alone.
pub open spec fn accrual_leaves_markets<T: Config>(before: State<T>, now: Timestamp) -> bool {
    before.accrual_due(now) && before.accrual(now) is Ok ==> {
        let accrued = before.accrual(now)->Ok_0;
        &&& accrued.markets == before.storage.markets
        &&& accrued.market_order == before.storage.market_order
        &&& accrued.underlying_asset_id == before.storage.underlying_asset_id
    }
}

/// The start of a block leaves the markets, their order and their voucher tokens alone, where the
/// accrual of interest does.
pub proof fn law_markets_stay_after_accrual<T: Config>(before: State<T>, now: Timestamp)
    requires
        accrual_leaves_markets(before, now),
    ensures
        ({
            let after = before.after_initialize(now);
            &&& after.storage.markets == before.storage.markets
            &&& after.storage.market_order == before.storage.market_order
            &&& after.storage.underlying_asset_id == before.storage.underlying_asset_id
        }),
{
}

}
