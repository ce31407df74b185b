//! Liquidating the debts of an account that its collateral no longer secures.

use crate::config::Config;
use crate::fixed::{FixedU128, Price, Rate};
use crate::pallet::{ensure_signed, settled, signer, Pallet, State};
use crate::storage::{position, StorageView};
use crate::types::{
    overflow, refused, underflow, AccountId, ArithmeticError, Balance, BorrowSnapshot, CurrencyId,
    Deposits, DispatchError, DispatchResult, Error, Event, Market, Origin, Position,
};
use crate::valuation::{underlying_amount, voucher_amount};
use vstd::prelude::*;

verus! {

impl<T: Config> State<T> {
    /// Whether so much of a debt may be liquidated: the account must have a shortfall, and the
    /// amount may not exceed the part of the debt that the market lets be repaid at once.
    pub open spec fn liquidation_check(
        self,
        borrower: AccountId,
        liquidate_asset_id: CurrencyId,
        repay_amount: Balance,
        market: Market<T::RateModel>,
    ) -> DispatchResult {
        let liquidity = self.account_liquidity(borrower);
        let debt = self.borrow_balance(borrower, liquidate_asset_id);
        if liquidity is Err {
            Err(liquidity->Err_0)
        } else if liquidity->Ok_0.1.inner == 0 {
            Err(refused(Error::InsufficientShortfall))
        } else if debt is Err {
            Err(debt->Err_0)
        } else if market.close_factor.spec_mul_ceil(debt->Ok_0) < repay_amount {
            Err(refused(Error::TooMuchRepay))
        } else {
            Ok(())
        }
    }

    /// How much of the collateral asset a liquidator receives for what it repays, by value and with
    /// the incentive of the market. The deposits of the borrower must be collateral and worth it.
    pub open spec fn seized_amount(
        self,
        borrower: AccountId,
        liquidate_asset_id: CurrencyId,
        repay_amount: Balance,
        collateral_asset_id: CurrencyId,
        incentive: Rate,
    ) -> Result<Balance, DispatchError> {
        let deposits = self.storage.deposits(collateral_asset_id, borrower);
        let deposited = underlying_amount(
            deposits.voucher_balance,
            self.storage.rate(collateral_asset_id),
        );
        let collateral_value = self.asset_value(collateral_asset_id, deposited->Ok_0);
        let repaid_value = self.asset_value(liquidate_asset_id, repay_amount);
        let liquidate_value = repaid_value->Ok_0.spec_checked_mul(incentive);
        let price = self.price(collateral_asset_id);
        if !deposits.is_collateral {
            Err(refused(Error::DepositsAreNotCollateral))
        } else if deposited is Err {
            Err(deposited->Err_0)
        } else if collateral_value is Err {
            Err(collateral_value->Err_0)
        } else if repaid_value is Err {
            Err(repaid_value->Err_0)
        } else if liquidate_value is None {
            Err(overflow())
        } else if collateral_value->Ok_0.inner < liquidate_value->Some_0.inner {
            Err(refused(Error::InsufficientCollateral))
        } else {
            match liquidate_value->Some_0.spec_checked_div(price->Ok_0) {
                Some(amount) => Ok(amount.inner),
                None => Err(underflow()),
            }
        }
    }

    /// The state after a liquidator has repaid a part of the debt of a borrower, and has received
    /// the vouchers for an amount of the collateral asset from it.
    pub open spec fn after_liquidated_transfer(
        self,
        liquidator: AccountId,
        borrower: AccountId,
        liquidate_asset_id: CurrencyId,
        collateral_asset_id: CurrencyId,
        repay_amount: Balance,
        collateral_underlying_amount: Balance,
    ) -> Result<State<T>, DispatchError> {
        let moved = self.runtime.moved(
            liquidate_asset_id,
            liquidator,
            self.account(),
            repay_amount,
            false,
        );
        let debt = self.borrow_balance(borrower, liquidate_asset_id);
        let total = self.storage.borrows(liquidate_asset_id);
        let vouchers = voucher_amount(
            collateral_underlying_amount,
            self.storage.rate(collateral_asset_id),
        );
        let losing = self.storage.deposits(collateral_asset_id, borrower);
        let repaid = self.owing(
            borrower,
            liquidate_asset_id,
            (debt->Ok_0 - repay_amount) as u128,
            (total - repay_amount) as u128,
        );
        let taken = StorageView {
            account_deposits: repaid.account_deposits.insert(
                position(collateral_asset_id, borrower),
                Deposits {
                    voucher_balance: (losing.voucher_balance - vouchers->Ok_0) as u128,
                    is_collateral: losing.is_collateral,
                },
            ),
            ..repaid
        };
        let gaining = taken.deposits(collateral_asset_id, liquidator);
        let given = StorageView {
            account_deposits: taken.account_deposits.insert(
                position(collateral_asset_id, liquidator),
                Deposits {
                    voucher_balance: (gaining.voucher_balance + vouchers->Ok_0) as u128,
                    is_collateral: gaining.is_collateral,
                },
            ),
            ..taken
        };
        if moved is Err {
            Err(moved->Err_0)
        } else if debt is Err {
            Err(debt->Err_0)
        } else if debt->Ok_0 < repay_amount || total < repay_amount {
            Err(underflow())
        } else if vouchers is Err {
            Err(vouchers->Err_0)
        } else if losing.voucher_balance < vouchers->Ok_0 {
            Err(underflow())
        } else if gaining.voucher_balance + vouchers->Ok_0 > u128::MAX {
            Err(overflow())
        } else {
            Ok(
                State { runtime: moved->Ok_0, storage: given, ..self }.reporting(
                    Event::LiquidatedBorrow(
                        liquidator,
                        borrower,
                        liquidate_asset_id,
                        collateral_asset_id,
                        repay_amount,
                        collateral_underlying_amount,
                    ),
                ),
            )
        }
    }

    /// The state that the liquidation of a part of a debt leads to.
    pub open spec fn after_liquidating(
        self,
        liquidator: AccountId,
        borrower: AccountId,
        liquidate_asset_id: CurrencyId,
        repay_amount: Balance,
        collateral_asset_id: CurrencyId,
    ) -> Result<State<T>, DispatchError> {
        let market = self.active_market(liquidate_asset_id);
        let check = self.liquidation_check(
            borrower,
            liquidate_asset_id,
            repay_amount,
            market->Ok_0,
        );
        let seized = self.seized_amount(
            borrower,
            liquidate_asset_id,
            repay_amount,
            collateral_asset_id,
            market->Ok_0.liquidate_incentive,
        );
        if market is Err {
            Err(market->Err_0)
        } else if self.active_market(collateral_asset_id) is Err {
            Err(self.active_market(collateral_asset_id)->Err_0)
        } else if borrower == liquidator {
            Err(refused(Error::LiquidatorIsBorrower))
        } else if check is Err {
            Err(check->Err_0)
        } else if seized is Err {
            Err(seized->Err_0)
        } else {
            self.after_liquidated_transfer(
                liquidator,
                borrower,
                liquidate_asset_id,
                collateral_asset_id,
                repay_amount,
                seized->Ok_0,
            )
        }
    }

    /// The state that a liquidation leads to.
    pub open spec fn after_liquidate_borrow(
        self,
        origin: Origin,
        borrower: AccountId,
        liquidate_token: CurrencyId,
        repay_amount: Balance,
        collateral_token: CurrencyId,
    ) -> Result<State<T>, DispatchError> {
        match signer(origin) {
            Err(error) => Err(error),
            Ok(who) => self.after_liquidating(
                who,
                borrower,
                liquidate_token,
                repay_amount,
                collateral_token,
            ),
        }
    }
}

impl<T: Config> Pallet<T> {
    /// Checks if the liquidation should be allowed to occur.
    pub fn liquidate_borrow_allowed(
        &self,
        borrower: &AccountId,
        liquidate_asset_id: CurrencyId,
        repay_amount: Balance,
        market: &Market<T::RateModel>,
    ) -> (checked: DispatchResult)
        ensures
            checked == self@.liquidation_check(
                *borrower,
                liquidate_asset_id,
                repay_amount,
                *market,
            ),
    {
        let (_, shortfall) = self.get_account_liquidity(borrower)?;
        if shortfall.is_zero() {
            return Err(DispatchError::Module(Error::InsufficientShortfall));
        }
        // The liquidator may not repay more than the close factor of the borrower's borrow balance.
        let account_borrows: Balance = self.current_borrow_balance(borrower, liquidate_asset_id)?;
        if market.close_factor.mul_ceil(account_borrows) < repay_amount {
            return Err(DispatchError::Module(Error::TooMuchRepay));
        }
        Ok(())
    }

    /// How much of the collateral asset a liquidator receives for what it repays.
    pub fn liquidation_proceeds(
        &self,
        borrower: &AccountId,
        liquidate_asset_id: CurrencyId,
        repay_amount: Balance,
        collateral_asset_id: CurrencyId,
        incentive: Rate,
    ) -> (amount: Result<Balance, DispatchError>)
        ensures
            amount == self@.seized_amount(
                *borrower,
                liquidate_asset_id,
                repay_amount,
                collateral_asset_id,
                incentive,
            ),
    {
        let deposits: Deposits = self.account_deposits(collateral_asset_id, borrower);
        if !deposits.is_collateral {
            return Err(DispatchError::Module(Error::DepositsAreNotCollateral));
        }
        let exchange_rate: Rate = self.exchange_rate(collateral_asset_id);
        let borrower_deposit_amount: Balance = Self::calc_underlying_amount(
            deposits.voucher_balance,
            exchange_rate,
        )?;

        let collateral_value: FixedU128 = self.get_asset_value(
            collateral_asset_id,
            borrower_deposit_amount,
        )?;
        // The value contains the incentive of the liquidator and the punishment of the borrower.
        let repaid_value: FixedU128 = self.get_asset_value(liquidate_asset_id, repay_amount)?;
        let liquidate_value: FixedU128 = match repaid_value.checked_mul(&incentive) {
            Some(value) => value,
            None => {
                return Err(DispatchError::Arithmetic(ArithmeticError::Overflow));
            },
        };
        if collateral_value.inner < liquidate_value.inner {
            return Err(DispatchError::Module(Error::InsufficientCollateral));
        }
        // Prices are per smallest unit, so the inner value of the quotient is the amount.
        let collateral_token_price: Price = self.get_price(collateral_asset_id)?;
        match liquidate_value.checked_div(&collateral_token_price) {
            Some(amount) => Ok(amount.into_inner()),
            None => Err(DispatchError::Arithmetic(ArithmeticError::Underflow)),
        }
    }

    /// Lets a liquidator repay a part of the debt of a borrower and receive the vouchers for an
    /// amount of the collateral asset from it.
    pub fn liquidated_transfer(
        &mut self,
        liquidator: &AccountId,
        borrower: &AccountId,
        liquidate_asset_id: CurrencyId,
        collateral_asset_id: CurrencyId,
        repay_amount: Balance,
        collateral_underlying_amount: Balance,
    ) -> (result: DispatchResult)
        ensures
            settled(
                *old(self),
                *final(self),
                result,
                old(self)@.after_liquidated_transfer(
                    *liquidator,
                    *borrower,
                    liquidate_asset_id,
                    collateral_asset_id,
                    repay_amount,
                    collateral_underlying_amount,
                ),
            ),
    {
        // 1. the liquidator repays the borrower's debt
        let runtime: T = self.runtime.transfer(
            liquidate_asset_id,
            liquidator,
            &self.account_id(),
            repay_amount,
            false,
        )?;

        // 2. the system reduces the borrower's debt
        let account_borrows: Balance = self.current_borrow_balance(borrower, liquidate_asset_id)?;
        let account_borrows_new: Balance = match account_borrows.checked_sub(repay_amount) {
            Some(debt) => debt,
            None => {
                return Err(DispatchError::Arithmetic(ArithmeticError::Underflow));
            },
        };
        let total_borrows_new: Balance = match self.total_borrows(liquidate_asset_id).checked_sub(
            repay_amount,
        ) {
            Some(total) => total,
            None => {
                return Err(DispatchError::Arithmetic(ArithmeticError::Underflow));
            },
        };
        let snapshot = BorrowSnapshot {
            principal: account_borrows_new,
            borrow_index: self.borrow_index(liquidate_asset_id),
        };

        // 3. the liquidator receives vouchers from the borrower
        let exchange_rate: Rate = self.exchange_rate(collateral_asset_id);
        let vouchers: Balance = Self::calc_collateral_amount(
            collateral_underlying_amount,
            exchange_rate,
        )?;
        let mut losing: Deposits = self.account_deposits(collateral_asset_id, borrower);
        losing.voucher_balance = match losing.voucher_balance.checked_sub(vouchers) {
            Some(balance) => balance,
            None => {
                return Err(DispatchError::Arithmetic(ArithmeticError::Underflow));
            },
        };
        let mut gaining: Deposits = if *liquidator == *borrower {
            losing
        } else {
            self.account_deposits(collateral_asset_id, liquidator)
        };
        gaining.voucher_balance = match gaining.voucher_balance.checked_add(vouchers) {
            Some(balance) => balance,
            None => {
                return Err(DispatchError::Arithmetic(ArithmeticError::Overflow));
            },
        };

        self.runtime = runtime;
        self.storage.account_borrows.insert(
            Position { asset_id: liquidate_asset_id, who: *borrower },
            snapshot,
        );
        self.storage.total_borrows.insert(liquidate_asset_id, total_borrows_new);
        self.storage.account_deposits.insert(
            Position { asset_id: collateral_asset_id, who: *borrower },
            losing,
        );
        self.storage.account_deposits.insert(
            Position { asset_id: collateral_asset_id, who: *liquidator },
            gaining,
        );
        self.events.push(
            Event::LiquidatedBorrow(
                *liquidator,
                *borrower,
                liquidate_asset_id,
                collateral_asset_id,
                repay_amount,
                collateral_underlying_amount,
            ),
        );
        assert(self@ =~= old(self)@.after_liquidated_transfer(
            *liquidator,
            *borrower,
            liquidate_asset_id,
            collateral_asset_id,
            repay_amount,
            collateral_underlying_amount,
        )->Ok_0);
        Ok(())
    }

    /// The liquidator will repay a certain amount of the borrower's debt asset from its own
    /// account. Then the protocol will reduce the borrower's debt, and the liquidator will receive
    /// the collateral asset, as vouchers, from the borrower.
    pub fn liquidate_borrow_internal(
        &mut self,
        liquidator: AccountId,
        borrower: AccountId,
        liquidate_asset_id: CurrencyId,
        repay_amount: Balance,
        collateral_asset_id: CurrencyId,
    ) -> (result: DispatchResult)
        ensures
            settled(
                *old(self),
                *final(self),
                result,
                old(self)@.after_liquidating(
                    liquidator,
                    borrower,
                    liquidate_asset_id,
                    repay_amount,
                    collateral_asset_id,
                ),
            ),
    {
        let market = self.ensure_active_market(liquidate_asset_id)?;
        self.ensure_active_market(collateral_asset_id)?;
        if borrower == liquidator {
            return Err(DispatchError::Module(Error::LiquidatorIsBorrower));
        }
        self.liquidate_borrow_allowed(&borrower, liquidate_asset_id, repay_amount, &market)?;
        let collateral_underlying_amount: Balance = self.liquidation_proceeds(
            &borrower,
            liquidate_asset_id,
            repay_amount,
            collateral_asset_id,
            market.liquidate_incentive,
        )?;
        self.liquidated_transfer(
            &liquidator,
            &borrower,
            liquidate_asset_id,
            collateral_asset_id,
            repay_amount,
            collateral_underlying_amount,
        )
    }

    /// The sender liquidates the borrower's collateral.
    ///
    /// - `borrower`: the borrower to be liquidated.
    /// - `liquidate_token`: the asset to be liquidated.
    /// - `repay_amount`: the amount to be repaid borrow.
    /// - `collateral_token`: The collateral to seize from the borrower.
    pub fn liquidate_borrow(
        &mut self,
        origin: Origin,
        borrower: AccountId,
        liquidate_token: CurrencyId,
        repay_amount: Balance,
        collateral_token: CurrencyId,
    ) -> (result: DispatchResult)
        ensures
            settled(
                *old(self),
                *final(self),
                result,
                old(self)@.after_liquidate_borrow(
                    origin,
                    borrower,
                    liquidate_token,
                    repay_amount,
                    collateral_token,
                ),
            ),
    {
        let who: AccountId = ensure_signed(origin)?;
        self.liquidate_borrow_internal(
            who,
            borrower,
            liquidate_token,
            repay_amount,
            collateral_token,
        )
    }
}

}
