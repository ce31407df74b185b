//! The reserves of a market.

use crate::config::Config;
use crate::pallet::{settled, Pallet, State};
use crate::storage::StorageView;
use crate::types::{
    overflow, refused, AccountId, ArithmeticError, Balance, CurrencyId, DispatchError,
    DispatchResult, Error, Event, Origin,
};
use vstd::prelude::*;

verus! {

/// The account that an event on the reserves reports as the admin: the one that signed the call. An
/// origin without an account is reported by the account that the call names.
pub open spec fn reserve_admin(origin: Origin, party: AccountId) -> AccountId {
    match origin {
        Origin::Signed(who) => who,
        _ => party,
    }
}

/// The account that an event on the reserves reports as the admin.
pub fn admin_of(origin: &Origin, party: AccountId) -> (admin: AccountId)
    ensures
        admin == reserve_admin(*origin, party),
{
    match *origin {
        Origin::Signed(who) => who,
        _ => party,
    }
}

impl<T: Config> State<T> {
    /// The account that a call of the reserve origin names.
    pub open spec fn reserve_party(self, origin: Origin, address: T::Source) -> Result<
        AccountId,
        DispatchError,
    > {
        if !self.runtime.may_reserve(origin) {
            Err(DispatchError::BadOrigin)
        } else {
            match self.runtime.named(address) {
                Some(account) => Ok(account),
                None => Err(DispatchError::CannotLookup),
            }
        }
    }

    /// The state once the runtime has moved the tokens and the reserves of an asset are so great.
    pub open spec fn with_reserves(self, runtime: T, asset_id: CurrencyId, total: Balance) -> State<
        T,
    > {
        State {
            runtime,
            storage: StorageView {
                total_reserves: self.storage.total_reserves.insert(asset_id, total),
                ..self.storage
            },
            ..self
        }
    }

    /// The state that an addition to the reserves leads to.
    pub open spec fn after_add_reserves(
        self,
        origin: Origin,
        payer: T::Source,
        asset_id: CurrencyId,
        amount: Balance,
    ) -> Result<State<T>, DispatchError> {
        let account = self.reserve_party(origin, payer);
        let moved = self.runtime.moved(asset_id, account->Ok_0, self.account(), amount, false);
        let total = self.storage.reserves(asset_id) + amount;
        if account is Err {
            Err(account->Err_0)
        } else if self.active_market(asset_id) is Err {
            Err(self.active_market(asset_id)->Err_0)
        } else if moved is Err {
            Err(moved->Err_0)
        } else if total > u128::MAX {
            Err(overflow())
        } else {
            Ok(
                self.with_reserves(moved->Ok_0, asset_id, total as u128).reporting(
                    Event::ReservesAdded(
                        reserve_admin(origin, account->Ok_0),
                        asset_id,
                        amount,
                        total as u128,
                    ),
                ),
            )
        }
    }

    /// The state that a reduction of the reserves leads to.
    pub open spec fn after_reduce_reserves(
        self,
        origin: Origin,
        receiver: T::Source,
        asset_id: CurrencyId,
        amount: Balance,
    ) -> Result<State<T>, DispatchError> {
        let account = self.reserve_party(origin, receiver);
        let moved = self.runtime.moved(asset_id, self.account(), account->Ok_0, amount, false);
        let total = self.storage.reserves(asset_id) - amount;
        if account is Err {
            Err(account->Err_0)
        } else if self.active_market(asset_id) is Err {
            Err(self.active_market(asset_id)->Err_0)
        } else if total < 0 {
            Err(refused(Error::InsufficientReserves))
        } else if moved is Err {
            Err(moved->Err_0)
        } else {
            Ok(
                self.with_reserves(moved->Ok_0, asset_id, total as u128).reporting(
                    Event::ReservesReduced(
                        reserve_admin(origin, account->Ok_0),
                        asset_id,
                        amount,
                        total as u128,
                    ),
                ),
            )
        }
    }
}

impl<T: Config> Pallet<T> {
    /// The account that a call of the reserve origin names, or an error where the origin may not
    /// touch the reserves or the address names no account.
    pub fn ensure_reserve_party(&self, origin: &Origin, address: &T::Source) -> (account: Result<
        AccountId,
        DispatchError,
    >)
        ensures
            account == self@.reserve_party(*origin, *address),
    {
        if !self.runtime.is_reserve_origin(origin) {
            return Err(DispatchError::BadOrigin);
        }
        match self.runtime.lookup(address) {
            Some(account) => Ok(account),
            None => Err(DispatchError::CannotLookup),
        }
    }

    /// Add reserves by transferring from payer.
    ///
    /// May only be called from the reserve origin.
    ///
    /// - `payer`: the payer account.
    /// - `asset_id`: the assets to be added.
    /// - `add_amount`: the amount to be added.
    pub fn add_reserves(
        &mut self,
        origin: Origin,
        payer: T::Source,
        asset_id: CurrencyId,
        add_amount: Balance,
    ) -> (result: DispatchResult)
        ensures
            settled(
                *old(self),
                *final(self),
                result,
                old(self)@.after_add_reserves(origin, payer, asset_id, add_amount),
            ),
    {
        let account: AccountId = self.ensure_reserve_party(&origin, &payer)?;
        self.ensure_active_market(asset_id)?;

        let runtime: T = self.runtime.transfer(
            asset_id,
            &account,
            &self.account_id(),
            add_amount,
            false,
        )?;
        let total_reserves_new: Balance = match self.total_reserves(asset_id).checked_add(
            add_amount,
        ) {
            Some(total) => total,
            None => {
                return Err(DispatchError::Arithmetic(ArithmeticError::Overflow));
            },
        };

        self.runtime = runtime;
        self.storage.total_reserves.insert(asset_id, total_reserves_new);
        let admin: AccountId = admin_of(&origin, account);
        self.events.push(Event::ReservesAdded(admin, asset_id, add_amount, total_reserves_new));
        assert(self@ =~= old(self)@.after_add_reserves(origin, payer, asset_id, add_amount)->Ok_0);
        Ok(())
    }

    /// Reduces reserves by transferring to receiver.
    ///
    /// May only be called from the reserve origin.
    ///
    /// - `receiver`: the receiver account.
    /// - `asset_id`: the assets to be reduced.
    /// - `reduce_amount`: the amount to be reduced.
    pub fn reduce_reserves(
        &mut self,
        origin: Origin,
        receiver: T::Source,
        asset_id: CurrencyId,
        reduce_amount: Balance,
    ) -> (result: DispatchResult)
        ensures
            settled(
                *old(self),
                *final(self),
                result,
                old(self)@.after_reduce_reserves(origin, receiver, asset_id, reduce_amount),
            ),
    {
        let account: AccountId = self.ensure_reserve_party(&origin, &receiver)?;
        self.ensure_active_market(asset_id)?;

        let total_reserves: Balance = self.total_reserves(asset_id);
        if reduce_amount > total_reserves {
            return Err(DispatchError::Module(Error::InsufficientReserves));
        }
        let total_reserves_new: Balance = total_reserves - reduce_amount;
        let runtime: T = self.runtime.transfer(
            asset_id,
            &self.account_id(),
            &account,
            reduce_amount,
            false,
        )?;

        self.runtime = runtime;
        self.storage.total_reserves.insert(asset_id, total_reserves_new);
        let admin: AccountId = admin_of(&origin, account);
        self.events.push(
            Event::ReservesReduced(admin, asset_id, reduce_amount, total_reserves_new),
        );
        assert(self@ =~= old(self)@.after_reduce_reserves(
            origin,
            receiver,
            asset_id,
            reduce_amount,
        )->Ok_0);
        Ok(())
    }
}

}
