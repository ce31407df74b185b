//! Adding markets and changing them.

use crate::config::Config;
use crate::fixed::{FixedU128, Rate, Ratio, ACCURACY, DIV};
use crate::pallet::{settled, Pallet, State};
use crate::storage::StorageView;
use crate::types::{
    refused, Balance, CurrencyId, DispatchError, DispatchResult, Error, Event, Market, MarketState,
    Origin,
};
use vstd::prelude::*;

verus! {

/// The exchange rate of a new market: fifty vouchers for one unit of the underlying asset.
pub open spec fn opening_exchange_rate() -> Rate {
    FixedU128 { inner: 20_000_000_000_000_000 }
}

/// Whether a ratio is neither nothing nor the whole.
pub open spec fn is_factor(ratio: Ratio) -> bool {
    0 < ratio.parts() < ACCURACY
}

impl<T: Config> State<T> {
    /// The underlying asset of a voucher token.
    pub open spec fn underlying(self, ptoken_id: CurrencyId) -> Result<CurrencyId, DispatchError> {
        if self.storage.underlying_asset_id.contains_key(ptoken_id) {
            Ok(self.storage.underlying_asset_id[ptoken_id])
        } else {
            Err(refused(Error::InvalidPtokenId))
        }
    }

    /// The voucher token of an asset.
    pub open spec fn ptoken(self, asset_id: CurrencyId) -> Result<CurrencyId, DispatchError> {
        match self.market(asset_id) {
            Ok(market) => Ok(market.ptoken_id),
            Err(error) => Err(error),
        }
    }

    /// Whether a voucher token is new: it may be neither a known voucher token nor an asset with a
    /// market.
    pub open spec fn ptoken_check(self, ptoken_id: CurrencyId) -> DispatchResult {
        if self.storage.underlying_asset_id.contains_key(ptoken_id)
            || self.storage.markets.contains_key(ptoken_id) {
            Err(refused(Error::InvalidPtokenId))
        } else {
            Ok(())
        }
    }

    /// The state once an asset that has a market has this one.
    pub open spec fn with_market(self, asset_id: CurrencyId, market: Market<T::RateModel>) -> State<
        T,
    > {
        State {
            storage: StorageView {
                markets: self.storage.markets.insert(asset_id, market),
                ..self.storage
            },
            ..self
        }
    }

    /// The state that a new market leads to.
    pub open spec fn after_add_market(
        self,
        origin: Origin,
        asset_id: CurrencyId,
        market: Market<T::RateModel>,
    ) -> Result<State<T>, DispatchError> {
        if !self.runtime.may_update(origin) {
            Err(DispatchError::BadOrigin)
        } else if self.storage.markets.contains_key(asset_id) {
            Err(refused(Error::MarketAlredyExists))
        } else if market.state != MarketState::Pending {
            Err(refused(Error::NewMarketMustHavePendingState))
        } else if !T::sound(market.rate_model) {
            Err(refused(Error::InvalidRateModelParam))
        } else if !is_factor(market.collateral_factor) || !is_factor(market.reserve_factor) {
            Err(refused(Error::InvalidFactor))
        } else if market.cap == 0 {
            Err(refused(Error::ZeroCap))
        } else if self.ptoken_check(market.ptoken_id) is Err {
            Err(self.ptoken_check(market.ptoken_id)->Err_0)
        } else {
            Ok(
                State {
                    storage: StorageView {
                        markets: self.storage.markets.insert(asset_id, market),
                        market_order: self.storage.market_order.push(asset_id),
                        underlying_asset_id: self.storage.underlying_asset_id.insert(
                            market.ptoken_id,
                            asset_id,
                        ),
                        exchange_rate: self.storage.exchange_rate.insert(
                            asset_id,
                            opening_exchange_rate(),
                        ),
                        borrow_index: self.storage.borrow_index.insert(
                            asset_id,
                            FixedU128 { inner: DIV },
                        ),
                        ..self.storage
                    },
                    ..self
                }.reporting(Event::NewMarket(market)),
            )
        }
    }

    /// The state that an activation leads to: an active market stays as it is.
    pub open spec fn after_activate_market(self, origin: Origin, asset_id: CurrencyId) -> Result<
        State<T>,
        DispatchError,
    > {
        let stored = self.market(asset_id);
        if !self.runtime.may_update(origin) {
            Err(DispatchError::BadOrigin)
        } else if stored is Err {
            Err(stored->Err_0)
        } else if stored->Ok_0.state == MarketState::Active {
            Ok(self)
        } else {
            Ok(
                self.with_market(
                    asset_id,
                    Market { state: MarketState::Active, ..stored->Ok_0 },
                ).reporting(Event::ActivatedMarket(asset_id)),
            )
        }
    }

    /// The state that a new rate model leads to.
    pub open spec fn after_update_rate_model(
        self,
        origin: Origin,
        asset_id: CurrencyId,
        rate_model: T::RateModel,
    ) -> Result<State<T>, DispatchError> {
        let stored = self.market(asset_id);
        let market = Market { rate_model, ..stored->Ok_0 };
        if !self.runtime.may_update(origin) {
            Err(DispatchError::BadOrigin)
        } else if !T::sound(rate_model) {
            Err(refused(Error::InvalidRateModelParam))
        } else if stored is Err {
            Err(stored->Err_0)
        } else {
            Ok(self.with_market(asset_id, market).reporting(Event::UpdatedMarket(market)))
        }
    }

    /// The state that new parameters lead to. The state, the voucher token and the rate model of
    /// the market stay.
    pub open spec fn after_update_market(
        self,
        origin: Origin,
        asset_id: CurrencyId,
        collateral_factor: Ratio,
        reserve_factor: Ratio,
        close_factor: Ratio,
        liquidate_incentive: Rate,
        cap: Balance,
    ) -> Result<State<T>, DispatchError> {
        let stored = self.market(asset_id);
        let market = Market {
            collateral_factor,
            reserve_factor,
            close_factor,
            liquidate_incentive,
            cap,
            ..stored->Ok_0
        };
        if !self.runtime.may_update(origin) {
            Err(DispatchError::BadOrigin)
        } else if !is_factor(collateral_factor) || !is_factor(reserve_factor) {
            Err(refused(Error::InvalidFactor))
        } else if cap == 0 {
            Err(refused(Error::ZeroCap))
        } else if stored is Err {
            Err(stored->Err_0)
        } else {
            Ok(self.with_market(asset_id, market).reporting(Event::UpdatedMarket(market)))
        }
    }

    /// The state that the replacement of a market leads to.
    pub open spec fn after_force_update_market(
        self,
        origin: Origin,
        asset_id: CurrencyId,
        market: Market<T::RateModel>,
    ) -> Result<State<T>, DispatchError> {
        if !self.runtime.may_update(origin) {
            Err(DispatchError::BadOrigin)
        } else if !T::sound(market.rate_model) {
            Err(refused(Error::InvalidRateModelParam))
        } else if self.market(asset_id) is Err {
            Err(self.market(asset_id)->Err_0)
        } else {
            Ok(self.with_market(asset_id, market).reporting(Event::UpdatedMarket(market)))
        }
    }
}

impl<T: Config> Pallet<T> {
    /// Ensures that the origin may change markets.
    pub fn ensure_update_origin(&self, origin: &Origin) -> (checked: DispatchResult)
        ensures
            checked == (if self@.runtime.may_update(*origin) {
                Ok(())
            } else {
                Err(DispatchError::BadOrigin)
            }),
    {
        if self.runtime.is_update_origin(origin) {
            Ok(())
        } else {
            Err(DispatchError::BadOrigin)
        }
    }

    /// Ensures that a voucher token is neither a known voucher token nor an asset with a market.
    pub fn ensure_ptoken(&self, ptoken_id: CurrencyId) -> (checked: DispatchResult)
        ensures
            checked == self@.ptoken_check(ptoken_id),
    {
        if self.storage.underlying_asset_id.contains_key(&ptoken_id) {
            return Err(DispatchError::Module(Error::InvalidPtokenId));
        }
        if self.storage.markets.contains_key(&ptoken_id) {
            return Err(DispatchError::Module(Error::InvalidPtokenId));
        }
        Ok(())
    }

    /// Changes a stored market in place, and returns what the change returns, or an error where the
    /// market does not exist.
    pub fn mutate_market<F: FnOnce(&mut Market<T::RateModel>) -> Market<T::RateModel>>(
        &mut self,
        asset_id: CurrencyId,
        change: F,
    ) -> (market: Result<Market<T::RateModel>, DispatchError>)
        requires
            forall|stored: &mut Market<T::RateModel>|
                old(self)@.market(asset_id) == Ok::<Market<T::RateModel>, DispatchError>(*stored)
                    ==> #[trigger] call_requires(change, (stored,)),
        ensures
            match old(self)@.market(asset_id) {
                Ok(before) => market is Ok && exists|stored: &mut Market<T::RateModel>|
                    *stored == before && #[trigger] call_ensures(change, (stored,), market->Ok_0)
                        && final(self)@ == old(self)@.with_market(asset_id, *final(stored)),
                Err(error) => market == Err::<Market<T::RateModel>, DispatchError>(error)
                    && *final(self) == *old(self),
            },
    {
        let mut stored = self.market(asset_id)?;
        let ghost before = stored;
        let market = change(&mut stored);
        let ghost lent = choose|lent: &mut Market<T::RateModel>|
            *lent == before && #[trigger] call_ensures(change, (lent,), market) && *final(lent)
                == stored;
        self.storage.markets.insert(asset_id, stored);
        let result: Result<Market<T::RateModel>, DispatchError> = Ok(market);
        assert(call_ensures(change, (lent,), result->Ok_0));
        assert(self@ =~= old(self)@.with_market(asset_id, *final(lent)));
        result
    }

    /// Stores a new market and its related currency.
    ///
    /// The market must be pending, and its currency may not have a market yet.
    ///
    /// The ptoken id and asset id are bound, the ptoken id of new provided market cannot
    /// be duplicated with the existing one, otherwise it will return `InvalidPtokenId`.
    ///
    /// - `asset_id`: Market related currency
    /// - `market`: The market that is going to be stored
    pub fn add_market(
        &mut self,
        origin: Origin,
        asset_id: CurrencyId,
        market: Market<T::RateModel>,
    ) -> (result: DispatchResult)
        ensures
            settled(
                *old(self),
                *final(self),
                result,
                old(self)@.after_add_market(origin, asset_id, market),
            ),
    {
        self.ensure_update_origin(&origin)?;
        if self.storage.markets.contains_key(&asset_id) {
            return Err(DispatchError::Module(Error::MarketAlredyExists));
        }
        match market.state {
            MarketState::Pending => {},
            _ => {
                return Err(DispatchError::Module(Error::NewMarketMustHavePendingState));
            },
        }
        if !T::check_model(&market.rate_model) {
            return Err(DispatchError::Module(Error::InvalidRateModelParam));
        }
        if !market.collateral_factor.is_proper() {
            return Err(DispatchError::Module(Error::InvalidFactor));
        }
        if !market.reserve_factor.is_proper() {
            return Err(DispatchError::Module(Error::InvalidFactor));
        }
        if market.cap == 0 {
            return Err(DispatchError::Module(Error::ZeroCap));
        }
        self.ensure_ptoken(market.ptoken_id)?;

        self.storage.markets.insert(asset_id, market);
        self.storage.underlying_asset_id.insert(market.ptoken_id, asset_id);
        self.storage.exchange_rate.insert(asset_id, FixedU128::saturating_from_rational(2, 100));
        self.storage.borrow_index.insert(asset_id, FixedU128::one());
        self.events.push(Event::NewMarket(market));
        assert(self@ =~= old(self)@.after_add_market(origin, asset_id, market)->Ok_0);
        Ok(())
    }

    /// Activates a market. Returns `Err` if the market currency does not exist.
    ///
    /// If the market is already activated, does nothing.
    ///
    /// - `asset_id`: Market related currency
    pub fn activate_market(&mut self, origin: Origin, asset_id: CurrencyId) -> (result:
        DispatchResult)
        ensures
            settled(
                *old(self),
                *final(self),
                result,
                old(self)@.after_activate_market(origin, asset_id),
            ),
    {
        self.ensure_update_origin(&origin)?;
        if let MarketState::Active = self.market(asset_id)?.state {
            return Ok(());
        }
        let activated = |stored: &mut Market<T::RateModel>| -> (market: Market<T::RateModel>)
            ensures
                (market == Market { state: MarketState::Active, ..*old(stored) }),
                *final(stored) == market,
        {
            *stored = Market { state: MarketState::Active, ..*stored };
            *stored
        };
        self.mutate_market(asset_id, activated)?;
        self.events.push(Event::ActivatedMarket(asset_id));
        assert(self@ =~= old(self)@.after_activate_market(origin, asset_id)->Ok_0);
        Ok(())
    }

    /// Updates the rate model of a stored market. Returns `Err` if the market
    /// currency does not exist or the rate model is invalid.
    ///
    /// - `asset_id`: Market related currency
    /// - `rate_model`: The new rate model to be updated
    pub fn update_rate_model(
        &mut self,
        origin: Origin,
        asset_id: CurrencyId,
        rate_model: T::RateModel,
    ) -> (result: DispatchResult)
        ensures
            settled(
                *old(self),
                *final(self),
                result,
                old(self)@.after_update_rate_model(origin, asset_id, rate_model),
            ),
    {
        self.ensure_update_origin(&origin)?;
        if !T::check_model(&rate_model) {
            return Err(DispatchError::Module(Error::InvalidRateModelParam));
        }
        let remodelled = |stored: &mut Market<T::RateModel>| -> (market: Market<T::RateModel>)
            ensures
                (market == Market { rate_model, ..*old(stored) }),
                *final(stored) == market,
        {
            *stored = Market { rate_model, ..*stored };
            *stored
        };
        let market = self.mutate_market(asset_id, remodelled)?;
        self.events.push(Event::UpdatedMarket(market));
        assert(self@ =~= old(self)@.after_update_rate_model(origin, asset_id, rate_model)->Ok_0);
        Ok(())
    }

    /// Updates a stored market. Returns `Err` if the market currency does not exist.
    ///
    /// - `asset_id`: market related currency
    /// - `collateral_factor`: the collateral utilization ratio
    /// - `reserve_factor`: fraction of interest currently set aside for reserves
    /// - `close_factor`: maximum liquidation ratio at one time
    /// - `liquidate_incentive`: liquidation incentive ratio
    /// - `cap`: market capacity
    pub fn update_market(
        &mut self,
        origin: Origin,
        asset_id: CurrencyId,
        collateral_factor: Ratio,
        reserve_factor: Ratio,
        close_factor: Ratio,
        liquidate_incentive: Rate,
        cap: Balance,
    ) -> (result: DispatchResult)
        ensures
            settled(
                *old(self),
                *final(self),
                result,
                old(self)@.after_update_market(
                    origin,
                    asset_id,
                    collateral_factor,
                    reserve_factor,
                    close_factor,
                    liquidate_incentive,
                    cap,
                ),
            ),
    {
        self.ensure_update_origin(&origin)?;
        if !collateral_factor.is_proper() {
            return Err(DispatchError::Module(Error::InvalidFactor));
        }
        if !reserve_factor.is_proper() {
            return Err(DispatchError::Module(Error::InvalidFactor));
        }
        if cap == 0 {
            return Err(DispatchError::Module(Error::ZeroCap));
        }
        let updated = |stored: &mut Market<T::RateModel>| -> (market: Market<T::RateModel>)
            ensures
                (market == Market {
                    collateral_factor,
                    reserve_factor,
                    close_factor,
                    liquidate_incentive,
                    cap,
                    ..*old(stored)
                }),
                *final(stored) == market,
        {
            *stored = Market {
                state: stored.state,
                ptoken_id: stored.ptoken_id,
                rate_model: stored.rate_model,
                collateral_factor,
                reserve_factor,
                close_factor,
                liquidate_incentive,
                cap,
            };
            *stored
        };
        let market = self.mutate_market(asset_id, updated)?;
        self.events.push(Event::UpdatedMarket(market));
        assert(self@ =~= old(self)@.after_update_market(
            origin,
            asset_id,
            collateral_factor,
            reserve_factor,
            close_factor,
            liquidate_incentive,
            cap,
        )->Ok_0);
        Ok(())
    }

    /// Force updates a stored market. Returns `Err` if the market currency
    /// does not exist.
    ///
    /// - `asset_id`: market related currency
    /// - `market`: the new market parameters
    pub fn force_update_market(
        &mut self,
        origin: Origin,
        asset_id: CurrencyId,
        market: Market<T::RateModel>,
    ) -> (result: DispatchResult)
        ensures
            settled(
                *old(self),
                *final(self),
                result,
                old(self)@.after_force_update_market(origin, asset_id, market),
            ),
    {
        self.ensure_update_origin(&origin)?;
        if !T::check_model(&market.rate_model) {
            return Err(DispatchError::Module(Error::InvalidRateModelParam));
        }
        let replaced = |stored: &mut Market<T::RateModel>| -> (updated: Market<T::RateModel>)
            ensures
                updated == market,
                *final(stored) == market,
        {
            *stored = market;
            *stored
        };
        let updated_market = self.mutate_market(asset_id, replaced)?;
        self.events.push(Event::UpdatedMarket(updated_market));
        assert(self@ =~= old(self)@.after_force_update_market(origin, asset_id, market)->Ok_0);
        Ok(())
    }

    /// Returns the underlying asset of a voucher token, or an error where the token is invalid.
    pub fn underlying_id(&self, ptoken_id: CurrencyId) -> (asset_id: Result<
        CurrencyId,
        DispatchError,
    >)
        ensures
            asset_id == self@.underlying(ptoken_id),
    {
        match self.storage.underlying_asset_id.get(&ptoken_id) {
            Some(asset_id) => Ok(asset_id),
            None => Err(DispatchError::Module(Error::InvalidPtokenId)),
        }
    }

    /// Returns the voucher token of the related asset, or an error where the market does not exist.
    pub fn ptoken_id(&self, asset_id: CurrencyId) -> (ptoken_id: Result<CurrencyId, DispatchError>)
        ensures
            ptoken_id == self@.ptoken(asset_id),
    {
        match self.market(asset_id) {
            Ok(market) => Ok(market.ptoken_id),
            Err(_) => Err(DispatchError::Module(Error::MarketDoesNotExist)),
        }
    }
}

}
