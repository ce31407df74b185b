//! Supplying assets to a market and taking them back.

use crate::config::Config;
use crate::fixed::{FixedU128, Rate};
use crate::pallet::{ensure_signed, settled, signer, Pallet, State};
use crate::storage::{position, StorageView};
use crate::types::{
    overflow, refused, underflow, AccountId, ArithmeticError, Balance, CurrencyId, Deposits,
    DispatchError, DispatchResult, EarnedSnapshot, Error, Event, Origin, Position,
};
use crate::valuation::{underlying_amount, voucher_amount};
use vstd::prelude::*;

verus! {

impl<T: Config> State<T> {
    /// What an account has earned in an asset up to now: what it had earned before, and for each
    /// voucher the growth of the exchange rate since then.
    pub open spec fn earned_by_now(self, who: AccountId, asset_id: CurrencyId) -> Result<
        EarnedSnapshot,
        DispatchError,
    > {
        let rate = self.storage.rate(asset_id);
        let prior = self.storage.earned(asset_id, who);
        let vouchers = self.storage.deposits(asset_id, who).voucher_balance;
        if rate.inner < prior.exchange_rate_prior.inner {
            Err(overflow())
        } else {
            let growth = FixedU128 {
                inner: (rate.inner - prior.exchange_rate_prior.inner) as u128,
            };
            match growth.spec_checked_mul_int(vouchers) {
                Some(earned) if earned + prior.total_earned_prior <= u128::MAX => Ok(
                    EarnedSnapshot {
                        exchange_rate_prior: rate,
                        total_earned_prior: (earned + prior.total_earned_prior) as u128,
                    },
                ),
                _ => Err(overflow()),
            }
        }
    }

    /// The state that a supply leads to: the amount moves to the pool, and the account receives
    /// vouchers for it.
    pub open spec fn after_mint(self, origin: Origin, asset_id: CurrencyId, amount: Balance) -> Result<
        State<T>,
        DispatchError,
    > {
        let who = signer(origin)->Ok_0;
        let moved = self.runtime.moved(asset_id, who, self.account(), amount, false);
        let earned = self.earned_by_now(who, asset_id);
        let vouchers = voucher_amount(amount, self.storage.rate(asset_id));
        let deposits = self.storage.deposits(asset_id, who);
        if signer(origin) is Err {
            Err(signer(origin)->Err_0)
        } else if self.active_market(asset_id) is Err {
            Err(self.active_market(asset_id)->Err_0)
        } else if self.capacity_check(asset_id, amount) is Err {
            Err(self.capacity_check(asset_id, amount)->Err_0)
        } else if moved is Err {
            Err(moved->Err_0)
        } else if earned is Err {
            Err(earned->Err_0)
        } else if vouchers is Err {
            Err(vouchers->Err_0)
        } else if deposits.voucher_balance + vouchers->Ok_0 > u128::MAX {
            Err(overflow())
        } else if self.storage.supply(asset_id) + vouchers->Ok_0 > u128::MAX {
            Err(overflow())
        } else {
            Ok(
                State {
                    runtime: moved->Ok_0,
                    storage: StorageView {
                        account_earned: self.storage.account_earned.insert(
                            position(asset_id, who),
                            earned->Ok_0,
                        ),
                        account_deposits: self.storage.account_deposits.insert(
                            position(asset_id, who),
                            Deposits {
                                voucher_balance: (deposits.voucher_balance + vouchers->Ok_0) as u128,
                                is_collateral: deposits.is_collateral,
                            },
                        ),
                        total_supply: self.storage.total_supply.insert(
                            asset_id,
                            (self.storage.supply(asset_id) + vouchers->Ok_0) as u128,
                        ),
                        ..self.storage
                    },
                    ..self
                }.reporting(Event::Deposited(who, asset_id, amount)),
            )
        }
    }

    /// Whether an account may take back so many vouchers: it must hold them, and where they are
    /// collateral, the pool must be able to pay and the rest must secure the debts.
    pub open spec fn redeem_check(
        self,
        asset_id: CurrencyId,
        redeemer: AccountId,
        vouchers: Balance,
    ) -> DispatchResult {
        let deposits = self.storage.deposits(asset_id, redeemer);
        let amount = underlying_amount(vouchers, self.storage.rate(asset_id));
        let value = self.secured_value(asset_id, amount->Ok_0);
        if deposits.voucher_balance < vouchers {
            Err(refused(Error::InsufficientDeposit))
        } else if !deposits.is_collateral {
            Ok(())
        } else if amount is Err {
            Err(amount->Err_0)
        } else if self.cash_check(asset_id, amount->Ok_0) is Err {
            self.cash_check(asset_id, amount->Ok_0)
        } else if value is Err {
            Err(value->Err_0)
        } else {
            self.liquidity_check(redeemer, value->Ok_0)
        }
    }

    /// The state after an account has exchanged so many vouchers for the underlying asset. Without
    /// vouchers left, nothing remains stored of its deposits.
    pub open spec fn after_redeeming(self, who: AccountId, asset_id: CurrencyId, vouchers: Balance) -> Result<
        State<T>,
        DispatchError,
    > {
        let deposits = self.storage.deposits(asset_id, who);
        let amount = underlying_amount(vouchers, self.storage.rate(asset_id));
        let moved = self.runtime.moved(asset_id, self.account(), who, amount->Ok_0, false);
        if self.redeem_check(asset_id, who, vouchers) is Err {
            Err(self.redeem_check(asset_id, who, vouchers)->Err_0)
        } else if amount is Err {
            Err(amount->Err_0)
        } else if self.storage.supply(asset_id) < vouchers {
            Err(underflow())
        } else if moved is Err {
            Err(moved->Err_0)
        } else {
            Ok(
                State {
                    runtime: moved->Ok_0,
                    storage: StorageView {
                        account_deposits: if deposits.voucher_balance == vouchers {
                            self.storage.account_deposits.remove(position(asset_id, who))
                        } else {
                            self.storage.account_deposits.insert(
                                position(asset_id, who),
                                Deposits {
                                    voucher_balance: (deposits.voucher_balance - vouchers) as u128,
                                    is_collateral: deposits.is_collateral,
                                },
                            )
                        },
                        total_supply: self.storage.total_supply.insert(
                            asset_id,
                            (self.storage.supply(asset_id) - vouchers) as u128,
                        ),
                        ..self.storage
                    },
                    ..self
                },
            )
        }
    }

    /// The state that the redemption of so many vouchers leads to, once it is known how many.
    pub open spec fn after_reported_redeeming(
        self,
        who: AccountId,
        asset_id: CurrencyId,
        vouchers: Balance,
    ) -> Result<State<T>, DispatchError> {
        let earned = self.earned_by_now(who, asset_id);
        let after = self.after_redeeming(who, asset_id, vouchers);
        let amount = underlying_amount(vouchers, self.storage.rate(asset_id))->Ok_0;
        if after is Err {
            after
        } else {
            Ok(
                State {
                    storage: StorageView {
                        account_earned: self.storage.account_earned.insert(
                            position(asset_id, who),
                            earned->Ok_0,
                        ),
                        ..after->Ok_0.storage
                    },
                    ..after->Ok_0
                }.reporting(Event::Redeemed(who, asset_id, amount)),
            )
        }
    }

    /// The state that a redemption leads to: the account gives vouchers for the amount, and
    /// receives what they are worth.
    pub open spec fn after_redeem(self, origin: Origin, asset_id: CurrencyId, amount: Balance) -> Result<
        State<T>,
        DispatchError,
    > {
        let who = signer(origin)->Ok_0;
        let vouchers = voucher_amount(amount, self.storage.rate(asset_id));
        if signer(origin) is Err {
            Err(signer(origin)->Err_0)
        } else if self.active_market(asset_id) is Err {
            Err(self.active_market(asset_id)->Err_0)
        } else if self.earned_by_now(who, asset_id) is Err {
            Err(self.earned_by_now(who, asset_id)->Err_0)
        } else if vouchers is Err {
            Err(vouchers->Err_0)
        } else {
            self.after_reported_redeeming(who, asset_id, vouchers->Ok_0)
        }
    }

    /// The state that the redemption of all vouchers of an account leads to.
    pub open spec fn after_redeem_all(self, origin: Origin, asset_id: CurrencyId) -> Result<
        State<T>,
        DispatchError,
    > {
        let who = signer(origin)->Ok_0;
        if signer(origin) is Err {
            Err(signer(origin)->Err_0)
        } else if self.active_market(asset_id) is Err {
            Err(self.active_market(asset_id)->Err_0)
        } else if self.earned_by_now(who, asset_id) is Err {
            Err(self.earned_by_now(who, asset_id)->Err_0)
        } else {
            self.after_reported_redeeming(
                who,
                asset_id,
                self.storage.deposits(asset_id, who).voucher_balance,
            )
        }
    }
}

impl<T: Config> Pallet<T> {
    /// What an account has earned in an asset up to now, as it is stored when its vouchers change.
    pub fn earned_stored(&self, who: &AccountId, asset_id: CurrencyId) -> (earned: Result<
        EarnedSnapshot,
        DispatchError,
    >)
        ensures
            earned == self@.earned_by_now(*who, asset_id),
    {
        let deposits: Deposits = self.account_deposits(asset_id, who);
        let exchange_rate: Rate = self.exchange_rate(asset_id);
        let prior: EarnedSnapshot = self.account_earned(asset_id, who);
        let growth: FixedU128 = match exchange_rate.checked_sub(&prior.exchange_rate_prior) {
            Some(growth) => growth,
            None => {
                return Err(DispatchError::Arithmetic(ArithmeticError::Overflow));
            },
        };
        let earned: Balance = match growth.checked_mul_int(deposits.voucher_balance) {
            Some(earned) => earned,
            None => {
                return Err(DispatchError::Arithmetic(ArithmeticError::Overflow));
            },
        };
        match earned.checked_add(prior.total_earned_prior) {
            Some(total) => Ok(
                EarnedSnapshot { exchange_rate_prior: exchange_rate, total_earned_prior: total },
            ),
            None => Err(DispatchError::Arithmetic(ArithmeticError::Overflow)),
        }
    }

    /// Sender supplies assets into the market and receives internal supplies in exchange.
    ///
    /// - `asset_id`: the asset to be deposited.
    /// - `mint_amount`: the amount to be deposited.
    pub fn mint(&mut self, origin: Origin, asset_id: CurrencyId, mint_amount: Balance) -> (result:
        DispatchResult)
        ensures
            settled(
                *old(self),
                *final(self),
                result,
                old(self)@.after_mint(origin, asset_id, mint_amount),
            ),
    {
        let who: AccountId = ensure_signed(origin)?;
        self.ensure_active_market(asset_id)?;
        self.ensure_capacity(asset_id, mint_amount)?;

        let runtime: T = self.runtime.transfer(
            asset_id,
            &who,
            &self.account_id(),
            mint_amount,
            false,
        )?;
        let earned: EarnedSnapshot = self.earned_stored(&who, asset_id)?;
        let exchange_rate: Rate = self.exchange_rate(asset_id);
        let vouchers: Balance = Self::calc_collateral_amount(mint_amount, exchange_rate)?;
        let mut deposits: Deposits = self.account_deposits(asset_id, &who);
        deposits.voucher_balance = match deposits.voucher_balance.checked_add(vouchers) {
            Some(balance) => balance,
            None => {
                return Err(DispatchError::Arithmetic(ArithmeticError::Overflow));
            },
        };
        let total_supply: Balance = match self.total_supply(asset_id).checked_add(vouchers) {
            Some(total) => total,
            None => {
                return Err(DispatchError::Arithmetic(ArithmeticError::Overflow));
            },
        };

        self.runtime = runtime;
        self.storage.account_earned.insert(Position { asset_id, who }, earned);
        self.storage.account_deposits.insert(Position { asset_id, who }, deposits);
        self.storage.total_supply.insert(asset_id, total_supply);
        self.events.push(Event::Deposited(who, asset_id, mint_amount));
        assert(self@ =~= old(self)@.after_mint(origin, asset_id, mint_amount)->Ok_0);
        Ok(())
    }

    /// Checks if the redeemer should be allowed to redeem tokens in given market.
    pub fn redeem_allowed(&self, asset_id: CurrencyId, redeemer: &AccountId, vouchers: Balance) -> (
    checked: DispatchResult)
        ensures
            checked == self@.redeem_check(asset_id, *redeemer, vouchers),
    {
        let deposits: Deposits = self.account_deposits(asset_id, redeemer);
        if deposits.voucher_balance < vouchers {
            return Err(DispatchError::Module(Error::InsufficientDeposit));
        }
        if !deposits.is_collateral {
            return Ok(());
        }
        let exchange_rate: Rate = self.exchange_rate(asset_id);
        let redeem_amount: Balance = Self::calc_underlying_amount(vouchers, exchange_rate)?;
        self.ensure_enough_cash(asset_id, redeem_amount)?;
        let market = self.market(asset_id)?;
        let effects_amount: Balance = market.collateral_factor.mul_ceil(redeem_amount);
        let redeem_effects_value: FixedU128 = self.get_asset_value(asset_id, effects_amount)?;
        self.ensure_liquidity(redeemer, redeem_effects_value)
    }

    /// Exchanges vouchers of an account for the underlying asset, and returns how much of it the
    /// account receives.
    pub fn redeem_internal(&mut self, who: &AccountId, asset_id: CurrencyId, vouchers: Balance) -> (
    amount: Result<Balance, DispatchError>)
        ensures
            match old(self)@.after_redeeming(*who, asset_id, vouchers) {
                Ok(state) => amount == underlying_amount(
                    vouchers,
                    old(self)@.storage.rate(asset_id),
                ) && amount is Ok && final(self)@ == state,
                Err(error) => amount == Err::<Balance, DispatchError>(error) && *final(self)
                    == *old(self),
            },
    {
        self.redeem_allowed(asset_id, who, vouchers)?;
        let exchange_rate: Rate = self.exchange_rate(asset_id);
        let redeem_amount: Balance = Self::calc_underlying_amount(vouchers, exchange_rate)?;
        let mut deposits: Deposits = self.account_deposits(asset_id, who);
        deposits.voucher_balance = match deposits.voucher_balance.checked_sub(vouchers) {
            Some(balance) => balance,
            None => {
                return Err(DispatchError::Arithmetic(ArithmeticError::Underflow));
            },
        };
        let total_supply: Balance = match self.total_supply(asset_id).checked_sub(vouchers) {
            Some(total) => total,
            None => {
                return Err(DispatchError::Arithmetic(ArithmeticError::Underflow));
            },
        };
        let runtime: T = self.runtime.transfer(
            asset_id,
            &self.account_id(),
            who,
            redeem_amount,
            false,
        )?;

        self.runtime = runtime;
        if deposits.voucher_balance == 0 {
            self.storage.account_deposits.remove(&Position { asset_id, who: *who });
        } else {
            self.storage.account_deposits.insert(Position { asset_id, who: *who }, deposits);
        }
        self.storage.total_supply.insert(asset_id, total_supply);
        assert(self@ =~= old(self)@.after_redeeming(*who, asset_id, vouchers)->Ok_0);
        Ok(redeem_amount)
    }

    /// Sender redeems some of internal supplies in exchange for the underlying asset.
    ///
    /// - `asset_id`: the asset to be redeemed.
    /// - `redeem_amount`: the amount to be redeemed.
    pub fn redeem(&mut self, origin: Origin, asset_id: CurrencyId, redeem_amount: Balance) -> (
    result: DispatchResult)
        ensures
            settled(
                *old(self),
                *final(self),
                result,
                old(self)@.after_redeem(origin, asset_id, redeem_amount),
            ),
    {
        let who: AccountId = ensure_signed(origin)?;
        self.ensure_active_market(asset_id)?;
        let earned: EarnedSnapshot = self.earned_stored(&who, asset_id)?;

        let exchange_rate: Rate = self.exchange_rate(asset_id);
        let vouchers: Balance = Self::calc_collateral_amount(redeem_amount, exchange_rate)?;
        let paid_amount: Balance = self.redeem_internal(&who, asset_id, vouchers)?;

        self.storage.account_earned.insert(Position { asset_id, who }, earned);
        self.events.push(Event::Redeemed(who, asset_id, paid_amount));
        assert(self@ =~= old(self)@.after_redeem(origin, asset_id, redeem_amount)->Ok_0);
        Ok(())
    }

    /// Sender redeems all of internal supplies in exchange for the underlying asset.
    ///
    /// - `asset_id`: the asset to be redeemed.
    pub fn redeem_all(&mut self, origin: Origin, asset_id: CurrencyId) -> (result: DispatchResult)
        ensures
            settled(
                *old(self),
                *final(self),
                result,
                old(self)@.after_redeem_all(origin, asset_id),
            ),
    {
        let who: AccountId = ensure_signed(origin)?;
        self.ensure_active_market(asset_id)?;
        let earned: EarnedSnapshot = self.earned_stored(&who, asset_id)?;

        let deposits: Deposits = self.account_deposits(asset_id, &who);
        let paid_amount: Balance = self.redeem_internal(
            &who,
            asset_id,
            deposits.voucher_balance,
        )?;

        self.storage.account_earned.insert(Position { asset_id, who }, earned);
        self.events.push(Event::Redeemed(who, asset_id, paid_amount));
        assert(self@ =~= old(self)@.after_redeem_all(origin, asset_id)->Ok_0);
        Ok(())
    }
}

}
