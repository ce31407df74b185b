//! Borrowing assets from the pool and repaying them.

use crate::config::Config;
use crate::fixed::FixedU128;
use crate::pallet::{ensure_signed, settled, signer, Pallet, State};
use crate::storage::{position, StorageView};
use crate::types::{
    overflow, refused, AccountId, ArithmeticError, Balance, BorrowSnapshot, CurrencyId,
    DispatchError, DispatchResult, Error, Event, Origin, Position,
};
use vstd::prelude::*;

verus! {

impl<T: Config> State<T> {
    /// Whether an account may borrow so much: the pool must be able to pay, and the collateral of
    /// the account must secure the value besides its debts.
    pub open spec fn borrow_check(self, asset_id: CurrencyId, who: AccountId, amount: Balance) -> DispatchResult {
        let value = self.asset_value(asset_id, amount);
        if self.cash_check(asset_id, amount) is Err {
            self.cash_check(asset_id, amount)
        } else if value is Err {
            Err(value->Err_0)
        } else {
            self.liquidity_check(who, value->Ok_0)
        }
    }

    /// The storage once an account owes so much of an asset, and all accounts together so much.
    pub open spec fn owing(
        self,
        who: AccountId,
        asset_id: CurrencyId,
        debt: Balance,
        total: Balance,
    ) -> StorageView<T::RateModel> {
        StorageView {
            account_borrows: self.storage.account_borrows.insert(
                position(asset_id, who),
                BorrowSnapshot { principal: debt, borrow_index: self.storage.index(asset_id) },
            ),
            total_borrows: self.storage.total_borrows.insert(asset_id, total),
            ..self.storage
        }
    }

    /// The state that a borrow leads to: the debts grow by the amount, which moves to the account.
    pub open spec fn after_borrow(self, origin: Origin, asset_id: CurrencyId, amount: Balance) -> Result<
        State<T>,
        DispatchError,
    > {
        let who = signer(origin)->Ok_0;
        let debt = self.borrow_balance(who, asset_id);
        let total = self.storage.borrows(asset_id);
        let moved = self.runtime.moved(asset_id, self.account(), who, amount, false);
        if signer(origin) is Err {
            Err(signer(origin)->Err_0)
        } else if self.active_market(asset_id) is Err {
            Err(self.active_market(asset_id)->Err_0)
        } else if self.borrow_check(asset_id, who, amount) is Err {
            Err(self.borrow_check(asset_id, who, amount)->Err_0)
        } else if debt is Err {
            Err(debt->Err_0)
        } else if debt->Ok_0 + amount > u128::MAX {
            Err(overflow())
        } else if total + amount > u128::MAX {
            Err(overflow())
        } else if moved is Err {
            Err(moved->Err_0)
        } else {
            Ok(
                State {
                    runtime: moved->Ok_0,
                    storage: self.owing(
                        who,
                        asset_id,
                        (debt->Ok_0 + amount) as u128,
                        (total + amount) as u128,
                    ),
                    ..self
                }.reporting(Event::Borrowed(who, asset_id, amount)),
            )
        }
    }

    /// The state after an account has repaid so much of a debt. The total of all debts falls by the
    /// amount, but not below zero: its interest is calculated in another way than that of an
    /// account, so it can be the smaller of the two.
    pub open spec fn after_repaying(
        self,
        borrower: AccountId,
        asset_id: CurrencyId,
        debt: Balance,
        amount: Balance,
    ) -> Result<State<T>, DispatchError> {
        let total = self.storage.borrows(asset_id);
        let moved = self.runtime.moved(asset_id, borrower, self.account(), amount, false);
        if debt < amount {
            Err(refused(Error::TooMuchRepay))
        } else if moved is Err {
            Err(moved->Err_0)
        } else {
            Ok(
                State {
                    runtime: moved->Ok_0,
                    storage: self.owing(
                        borrower,
                        asset_id,
                        (debt - amount) as u128,
                        if total < amount {
                            0
                        } else {
                            (total - amount) as u128
                        },
                    ),
                    ..self
                },
            )
        }
    }

    /// The state that a repayment leads to: the amount moves to the pool, and the debt falls by it.
    pub open spec fn after_repay_borrow(self, origin: Origin, asset_id: CurrencyId, amount: Balance) -> Result<
        State<T>,
        DispatchError,
    > {
        let who = signer(origin)->Ok_0;
        let debt = self.borrow_balance(who, asset_id);
        let after = self.after_repaying(who, asset_id, debt->Ok_0, amount);
        if signer(origin) is Err {
            Err(signer(origin)->Err_0)
        } else if self.active_market(asset_id) is Err {
            Err(self.active_market(asset_id)->Err_0)
        } else if debt is Err {
            Err(debt->Err_0)
        } else if after is Err {
            after
        } else {
            Ok(after->Ok_0.reporting(Event::RepaidBorrow(who, asset_id, amount)))
        }
    }

    /// The state that the repayment of a whole debt leads to.
    pub open spec fn after_repay_borrow_all(self, origin: Origin, asset_id: CurrencyId) -> Result<
        State<T>,
        DispatchError,
    > {
        let debt = self.borrow_balance(signer(origin)->Ok_0, asset_id);
        self.after_repay_borrow(origin, asset_id, debt->Ok_0)
    }
}

impl<T: Config> Pallet<T> {
    /// Borrower shouldn't borrow more than its total collateral value.
    pub fn borrow_allowed(&self, asset_id: CurrencyId, borrower: &AccountId, borrow_amount: Balance) -> (
    checked: DispatchResult)
        ensures
            checked == self@.borrow_check(asset_id, *borrower, borrow_amount),
    {
        self.ensure_enough_cash(asset_id, borrow_amount)?;
        let borrow_value: FixedU128 = self.get_asset_value(asset_id, borrow_amount)?;
        self.ensure_liquidity(borrower, borrow_value)
    }

    /// Sender borrows assets from the protocol to their own address.
    ///
    /// - `asset_id`: the asset to be borrowed.
    /// - `borrow_amount`: the amount to be borrowed.
    pub fn borrow(&mut self, origin: Origin, asset_id: CurrencyId, borrow_amount: Balance) -> (
    result: DispatchResult)
        ensures
            settled(
                *old(self),
                *final(self),
                result,
                old(self)@.after_borrow(origin, asset_id, borrow_amount),
            ),
    {
        let who: AccountId = ensure_signed(origin)?;
        self.ensure_active_market(asset_id)?;

        self.borrow_allowed(asset_id, &who, borrow_amount)?;
        let account_borrows: Balance = self.current_borrow_balance(&who, asset_id)?;
        let account_borrows_new: Balance = match account_borrows.checked_add(borrow_amount) {
            Some(debt) => debt,
            None => {
                return Err(DispatchError::Arithmetic(ArithmeticError::Overflow));
            },
        };
        let total_borrows_new: Balance = match self.total_borrows(asset_id).checked_add(
            borrow_amount,
        ) {
            Some(total) => total,
            None => {
                return Err(DispatchError::Arithmetic(ArithmeticError::Overflow));
            },
        };
        let runtime: T = self.runtime.transfer(
            asset_id,
            &self.account_id(),
            &who,
            borrow_amount,
            false,
        )?;

        let snapshot = BorrowSnapshot {
            principal: account_borrows_new,
            borrow_index: self.borrow_index(asset_id),
        };
        self.runtime = runtime;
        self.storage.account_borrows.insert(Position { asset_id, who }, snapshot);
        self.storage.total_borrows.insert(asset_id, total_borrows_new);
        self.events.push(Event::Borrowed(who, asset_id, borrow_amount));
        assert(self@ =~= old(self)@.after_borrow(origin, asset_id, borrow_amount)->Ok_0);
        Ok(())
    }

    /// Moves an amount from a borrower to the pool, and lowers its debt and the total by it.
    pub fn repay_borrow_internal(
        &mut self,
        borrower: &AccountId,
        asset_id: CurrencyId,
        account_borrows: Balance,
        repay_amount: Balance,
    ) -> (result: DispatchResult)
        ensures
            settled(
                *old(self),
                *final(self),
                result,
                old(self)@.after_repaying(*borrower, asset_id, account_borrows, repay_amount),
            ),
    {
        if account_borrows < repay_amount {
            return Err(DispatchError::Module(Error::TooMuchRepay));
        }
        let runtime: T = self.runtime.transfer(
            asset_id,
            borrower,
            &self.account_id(),
            repay_amount,
            false,
        )?;

        let account_borrows_new: Balance = account_borrows - repay_amount;
        let total_borrows_new: Balance = self.total_borrows(asset_id).saturating_sub(repay_amount);
        let snapshot = BorrowSnapshot {
            principal: account_borrows_new,
            borrow_index: self.borrow_index(asset_id),
        };
        self.runtime = runtime;
        self.storage.account_borrows.insert(Position { asset_id, who: *borrower }, snapshot);
        self.storage.total_borrows.insert(asset_id, total_borrows_new);
        assert(self@ =~= old(self)@.after_repaying(
            *borrower,
            asset_id,
            account_borrows,
            repay_amount,
        )->Ok_0);
        Ok(())
    }

    /// Sender repays some of their debts.
    ///
    /// - `asset_id`: the asset to be repaid.
    /// - `repay_amount`: the amount to be repaid.
    pub fn repay_borrow(&mut self, origin: Origin, asset_id: CurrencyId, repay_amount: Balance) -> (
    result: DispatchResult)
        ensures
            settled(
                *old(self),
                *final(self),
                result,
                old(self)@.after_repay_borrow(origin, asset_id, repay_amount),
            ),
    {
        let who: AccountId = ensure_signed(origin)?;
        self.ensure_active_market(asset_id)?;

        let account_borrows: Balance = self.current_borrow_balance(&who, asset_id)?;
        self.repay_borrow_internal(&who, asset_id, account_borrows, repay_amount)?;

        self.events.push(Event::RepaidBorrow(who, asset_id, repay_amount));
        assert(self@ =~= old(self)@.after_repay_borrow(origin, asset_id, repay_amount)->Ok_0);
        Ok(())
    }

    /// Sender repays all of their debts.
    ///
    /// - `asset_id`: the asset to be repaid.
    pub fn repay_borrow_all(&mut self, origin: Origin, asset_id: CurrencyId) -> (result:
        DispatchResult)
        ensures
            settled(
                *old(self),
                *final(self),
                result,
                old(self)@.after_repay_borrow_all(origin, asset_id),
            ),
    {
        let who: AccountId = ensure_signed(origin)?;
        self.ensure_active_market(asset_id)?;

        let account_borrows: Balance = self.current_borrow_balance(&who, asset_id)?;
        self.repay_borrow_internal(&who, asset_id, account_borrows, account_borrows)?;

        self.events.push(Event::RepaidBorrow(who, asset_id, account_borrows));
        assert(self@ =~= old(self)@.after_repay_borrow_all(origin, asset_id)->Ok_0);
        Ok(())
    }
}

}
