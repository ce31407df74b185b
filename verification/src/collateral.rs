//! Using deposits as collateral.

use crate::config::Config;
use crate::fixed::FixedU128;
use crate::pallet::{ensure_signed, settled, signer, Pallet, State};
use crate::storage::{position, StorageView};
use crate::types::{
    overflow, refused, AccountId, ArithmeticError, CurrencyId, Deposits, DispatchError,
    DispatchResult, Error, Event, Origin, Position,
};
use vstd::prelude::*;

verus! {

impl<T: Config> State<T> {
    /// Whether an account can do without the collateral of one of its deposits: the rest must
    /// secure its debts.
    pub open spec fn release_check(self, who: AccountId, asset_id: CurrencyId) -> DispatchResult {
        let total = self.total_collateral_value(who);
        let released = self.collateral_asset_value(who, asset_id);
        let borrowed = self.total_borrowed_value(who);
        if total is Err {
            Err(total->Err_0)
        } else if released is Err {
            Err(released->Err_0)
        } else if borrowed is Err {
            Err(borrowed->Err_0)
        } else if borrowed->Ok_0.inner + released->Ok_0.inner > u128::MAX {
            Err(overflow())
        } else if total->Ok_0.inner < borrowed->Ok_0.inner + released->Ok_0.inner {
            Err(refused(Error::InsufficientLiquidity))
        } else {
            Ok(())
        }
    }

    /// The state once the deposits of an account in an asset are, or are not, collateral.
    pub open spec fn with_collateral(self, who: AccountId, asset_id: CurrencyId, enable: bool) -> State<
        T,
    > {
        State {
            storage: StorageView {
                account_deposits: self.storage.account_deposits.insert(
                    position(asset_id, who),
                    Deposits {
                        is_collateral: enable,
                        ..self.storage.deposits(asset_id, who)
                    },
                ),
                ..self.storage
            },
            ..self
        }
    }

    /// The state that turning the use as collateral on or off leads to.
    pub open spec fn after_collateral_asset(self, origin: Origin, asset_id: CurrencyId, enable: bool) -> Result<
        State<T>,
        DispatchError,
    > {
        let who = signer(origin)->Ok_0;
        if signer(origin) is Err {
            Err(signer(origin)->Err_0)
        } else if self.active_market(asset_id) is Err {
            Err(self.active_market(asset_id)->Err_0)
        } else if !self.storage.account_deposits.contains_key(position(asset_id, who)) {
            Err(refused(Error::NoDeposit))
        } else if self.storage.deposits(asset_id, who).is_collateral == enable {
            Err(refused(Error::DuplicateOperation))
        } else if enable {
            Ok(
                self.with_collateral(who, asset_id, true).reporting(
                    Event::CollateralAssetAdded(who, asset_id),
                ),
            )
        } else if self.release_check(who, asset_id) is Err {
            Err(self.release_check(who, asset_id)->Err_0)
        } else {
            Ok(
                self.with_collateral(who, asset_id, false).reporting(
                    Event::CollateralAssetRemoved(who, asset_id),
                ),
            )
        }
    }
}

impl<T: Config> Pallet<T> {
    /// Set the collateral asset.
    ///
    /// - `asset_id`: the asset to be set.
    /// - `enable`: turn on/off the collateral option.
    pub fn collateral_asset(&mut self, origin: Origin, asset_id: CurrencyId, enable: bool) -> (
    result: DispatchResult)
        ensures
            settled(
                *old(self),
                *final(self),
                result,
                old(self)@.after_collateral_asset(origin, asset_id, enable),
            ),
    {
        let who: AccountId = ensure_signed(origin)?;
        self.ensure_active_market(asset_id)?;
        if !self.storage.account_deposits.contains_key(&Position { asset_id, who }) {
            return Err(DispatchError::Module(Error::NoDeposit));
        }
        let mut deposits: Deposits = self.account_deposits(asset_id, &who);
        if deposits.is_collateral == enable {
            return Err(DispatchError::Module(Error::DuplicateOperation));
        }
        // turn on the collateral button
        if enable {
            deposits.is_collateral = true;
            self.storage.account_deposits.insert(Position { asset_id, who }, deposits);
            self.events.push(Event::CollateralAssetAdded(who, asset_id));
            assert(self@ =~= old(self)@.after_collateral_asset(origin, asset_id, enable)->Ok_0);
            return Ok(());
        }
        // turn off the collateral button after checking the liquidity
        let total_collateral_value: FixedU128 = self.total_collateral_value(&who)?;
        let collateral_asset_value: FixedU128 = self.collateral_asset_value(&who, asset_id)?;
        let total_borrowed_value: FixedU128 = self.total_borrowed_value(&who)?;
        match total_borrowed_value.checked_add(&collateral_asset_value) {
            Some(needed) => {
                if total_collateral_value.inner < needed.inner {
                    return Err(DispatchError::Module(Error::InsufficientLiquidity));
                }
            },
            None => {
                return Err(DispatchError::Arithmetic(ArithmeticError::Overflow));
            },
        }

        deposits.is_collateral = false;
        self.storage.account_deposits.insert(Position { asset_id, who }, deposits);
        self.events.push(Event::CollateralAssetRemoved(who, asset_id));
        assert(self@ =~= old(self)@.after_collateral_asset(origin, asset_id, enable)->Ok_0);
        Ok(())
    }
}

}
