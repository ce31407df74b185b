//! The calls that an origin can make, as values.

use crate::config::Config;
use crate::fixed::{Rate, Ratio};
use crate::pallet::{settled, Pallet, State};
use crate::types::{
    AccountId, Balance, CurrencyId, DispatchError, DispatchResult, Market, Origin,
};
use vstd::prelude::*;

verus! {

/// A call of the pallet with its arguments, all but the origin.
pub enum Call<T: Config> {
    /// [`Pallet::add_market`]
    AddMarket { asset_id: CurrencyId, market: Market<T::RateModel> },
    /// [`Pallet::activate_market`]
    ActivateMarket { asset_id: CurrencyId },
    /// [`Pallet::update_rate_model`]
    UpdateRateModel { asset_id: CurrencyId, rate_model: T::RateModel },
    /// [`Pallet::update_market`]
    UpdateMarket {
        asset_id: CurrencyId,
        collateral_factor: Ratio,
        reserve_factor: Ratio,
        close_factor: Ratio,
        liquidate_incentive: Rate,
        cap: Balance,
    },
    /// [`Pallet::force_update_market`]
    ForceUpdateMarket { asset_id: CurrencyId, market: Market<T::RateModel> },
    /// [`Pallet::mint`]
    Mint { asset_id: CurrencyId, mint_amount: Balance },
    /// [`Pallet::redeem`]
    Redeem { asset_id: CurrencyId, redeem_amount: Balance },
    /// [`Pallet::redeem_all`]
    RedeemAll { asset_id: CurrencyId },
    /// [`Pallet::borrow`]
    Borrow { asset_id: CurrencyId, borrow_amount: Balance },
    /// [`Pallet::repay_borrow`]
    RepayBorrow { asset_id: CurrencyId, repay_amount: Balance },
    /// [`Pallet::repay_borrow_all`]
    RepayBorrowAll { asset_id: CurrencyId },
    /// [`Pallet::collateral_asset`]
    CollateralAsset { asset_id: CurrencyId, enable: bool },
    /// [`Pallet::liquidate_borrow`]
    LiquidateBorrow {
        borrower: AccountId,
        liquidate_token: CurrencyId,
        repay_amount: Balance,
        collateral_token: CurrencyId,
    },
    /// [`Pallet::add_reserves`]
    AddReserves { payer: T::Source, asset_id: CurrencyId, add_amount: Balance },
    /// [`Pallet::reduce_reserves`]
    ReduceReserves { receiver: T::Source, asset_id: CurrencyId, reduce_amount: Balance },
}

impl<T: Config> State<T> {
    /// The state that a call leads to, or the reason why it fails.
    pub open spec fn after_call(self, origin: Origin, call: Call<T>) -> Result<
        State<T>,
        DispatchError,
    > {
        match call {
            Call::AddMarket { asset_id, market } => self.after_add_market(origin, asset_id, market),
            Call::ActivateMarket { asset_id } => self.after_activate_market(origin, asset_id),
            Call::UpdateRateModel { asset_id, rate_model } => self.after_update_rate_model(
                origin,
                asset_id,
                rate_model,
            ),
            Call::UpdateMarket {
                asset_id,
                collateral_factor,
                reserve_factor,
                close_factor,
                liquidate_incentive,
                cap,
            } => self.after_update_market(
                origin,
                asset_id,
                collateral_factor,
                reserve_factor,
                close_factor,
                liquidate_incentive,
                cap,
            ),
            Call::ForceUpdateMarket { asset_id, market } => self.after_force_update_market(
                origin,
                asset_id,
                market,
            ),
            Call::Mint { asset_id, mint_amount } => self.after_mint(origin, asset_id, mint_amount),
            Call::Redeem { asset_id, redeem_amount } => self.after_redeem(
                origin,
                asset_id,
                redeem_amount,
            ),
            Call::RedeemAll { asset_id } => self.after_redeem_all(origin, asset_id),
            Call::Borrow { asset_id, borrow_amount } => self.after_borrow(
                origin,
                asset_id,
                borrow_amount,
            ),
            Call::RepayBorrow { asset_id, repay_amount } => self.after_repay_borrow(
                origin,
                asset_id,
                repay_amount,
            ),
            Call::RepayBorrowAll { asset_id } => self.after_repay_borrow_all(origin, asset_id),
            Call::CollateralAsset { asset_id, enable } => self.after_collateral_asset(
                origin,
                asset_id,
                enable,
            ),
            Call::LiquidateBorrow { borrower, liquidate_token, repay_amount, collateral_token } =>
            self.after_liquidate_borrow(
                origin,
                borrower,
                liquidate_token,
                repay_amount,
                collateral_token,
            ),
            Call::AddReserves { payer, asset_id, add_amount } => self.after_add_reserves(
                origin,
                payer,
                asset_id,
                add_amount,
            ),
            Call::ReduceReserves { receiver, asset_id, reduce_amount } =>
            self.after_reduce_reserves(origin, receiver, asset_id, reduce_amount),
        }
    }
}

impl<T: Config> Pallet<T> {
    /// Makes a call.
    pub fn dispatch(&mut self, origin: Origin, call: Call<T>) -> (result: DispatchResult)
        ensures
            settled(*old(self), *final(self), result, old(self)@.after_call(origin, call)),
    {
        match call {
            Call::AddMarket { asset_id, market } => self.add_market(origin, asset_id, market),
            Call::ActivateMarket { asset_id } => self.activate_market(origin, asset_id),
            Call::UpdateRateModel { asset_id, rate_model } => self.update_rate_model(
                origin,
                asset_id,
                rate_model,
            ),
            Call::UpdateMarket {
                asset_id,
                collateral_factor,
                reserve_factor,
                close_factor,
                liquidate_incentive,
                cap,
            } => self.update_market(
                origin,
                asset_id,
                collateral_factor,
                reserve_factor,
                close_factor,
                liquidate_incentive,
                cap,
            ),
            Call::ForceUpdateMarket { asset_id, market } => self.force_update_market(
                origin,
                asset_id,
                market,
            ),
            Call::Mint { asset_id, mint_amount } => self.mint(origin, asset_id, mint_amount),
            Call::Redeem { asset_id, redeem_amount } => self.redeem(
                origin,
                asset_id,
                redeem_amount,
            ),
            Call::RedeemAll { asset_id } => self.redeem_all(origin, asset_id),
            Call::Borrow { asset_id, borrow_amount } => self.borrow(
                origin,
                asset_id,
                borrow_amount,
            ),
            Call::RepayBorrow { asset_id, repay_amount } => self.repay_borrow(
                origin,
                asset_id,
                repay_amount,
            ),
            Call::RepayBorrowAll { asset_id } => self.repay_borrow_all(origin, asset_id),
            Call::CollateralAsset { asset_id, enable } => self.collateral_asset(
                origin,
                asset_id,
                enable,
            ),
            Call::LiquidateBorrow { borrower, liquidate_token, repay_amount, collateral_token } =>
            self.liquidate_borrow(origin, borrower, liquidate_token, repay_amount, collateral_token),
            Call::AddReserves { payer, asset_id, add_amount } => self.add_reserves(
                origin,
                payer,
                asset_id,
                add_amount,
            ),
            Call::ReduceReserves { receiver, asset_id, reduce_amount } => self.reduce_reserves(
                origin,
                receiver,
                asset_id,
                reduce_amount,
            ),
        }
    }
}

}
