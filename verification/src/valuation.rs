//! What amounts are worth: prices, vouchers, debts, and the liquidity of an account.

use crate::config::Config;
use crate::fixed::{FixedU128, Liquidity, Price, Rate, Shortfall};
use crate::pallet::{Pallet, State};
use crate::types::{
    overflow, refused, underflow, AccountId, ArithmeticError, Balance, BorrowSnapshot, CurrencyId,
    DispatchError, DispatchResult, Error, Position,
};
use vstd::prelude::*;

verus! {

/// The underlying amount of so many vouchers.
pub open spec fn underlying_amount(voucher_amount: Balance, exchange_rate: Rate) -> Result<
    Balance,
    DispatchError,
> {
    match exchange_rate.spec_checked_mul_int(voucher_amount) {
        Some(amount) => Ok(amount),
        None => Err(overflow()),
    }
}

/// The vouchers for an underlying amount.
pub open spec fn voucher_amount(underlying_amount: Balance, exchange_rate: Rate) -> Result<
    Balance,
    DispatchError,
> {
    match (FixedU128 { inner: underlying_amount }).spec_checked_div(exchange_rate) {
        Some(vouchers) => Ok(vouchers.inner),
        None => Err(underflow()),
    }
}

/// A debt with the interest up to the present index.
pub open spec fn debt_with_interest(snapshot: BorrowSnapshot, index: Rate) -> Result<
    Balance,
    DispatchError,
> {
    if snapshot.principal == 0 || snapshot.borrow_index.inner == 0 {
        Ok(0)
    } else {
        match index.spec_checked_div(snapshot.borrow_index) {
            Some(growth) => match growth.spec_checked_mul_int(snapshot.principal) {
                Some(debt) => Ok(debt),
                None => Err(overflow()),
            },
            None => Err(overflow()),
        }
    }
}

/// The sum of the values of some assets, taken in order: the first failure, of a value or of the
/// sum so far, is the failure of the whole.
pub open spec fn checked_total(
    ids: Seq<CurrencyId>,
    value: spec_fn(CurrencyId) -> Result<FixedU128, DispatchError>,
) -> Result<FixedU128, DispatchError>
    decreases ids.len(),
{
    if ids.len() == 0 {
        Ok(FixedU128 { inner: 0 })
    } else {
        match checked_total(ids.drop_last(), value) {
            Err(error) => Err(error),
            Ok(sum) => match value(ids.last()) {
                Err(error) => Err(error),
                Ok(last) => match sum.spec_checked_add(last) {
                    Some(total) => Ok(total),
                    None => Err(overflow()),
                },
            },
        }
    }
}

impl<T: Config> State<T> {
    /// The price of an asset: there must be one, and it may not be zero.
    pub open spec fn price(self, asset_id: CurrencyId) -> Result<Price, DispatchError> {
        match self.runtime.oracle(asset_id) {
            None => Err(refused(Error::PriceOracleNotReady)),
            Some((price, _)) => if price.inner == 0 {
                Err(refused(Error::PriceIsZero))
            } else {
                Ok(price)
            },
        }
    }

    /// The value of an amount of an asset.
    pub open spec fn asset_value(self, asset_id: CurrencyId, amount: Balance) -> Result<
        FixedU128,
        DispatchError,
    > {
        match self.price(asset_id) {
            Err(error) => Err(error),
            Ok(price) => match price.spec_checked_mul(FixedU128 { inner: amount }) {
                Some(value) => Ok(value),
                None => Err(overflow()),
            },
        }
    }

    /// What an account owes in an asset.
    pub open spec fn borrow_balance(self, who: AccountId, asset_id: CurrencyId) -> Result<
        Balance,
        DispatchError,
    > {
        debt_with_interest(self.storage.debt(asset_id, who), self.storage.index(asset_id))
    }

    /// The value of what an account owes in an asset.
    pub open spec fn borrowed_value(self, who: AccountId, asset_id: CurrencyId) -> Result<
        FixedU128,
        DispatchError,
    > {
        match self.borrow_balance(who, asset_id) {
            Err(error) => Err(error),
            Ok(amount) => if amount == 0 {
                Ok(FixedU128 { inner: 0 })
            } else {
                self.asset_value(asset_id, amount)
            },
        }
    }

    /// The value of everything that an account owes in active markets.
    pub open spec fn total_borrowed_value(self, who: AccountId) -> Result<
        FixedU128,
        DispatchError,
    > {
        checked_total(
            self.storage.active_ids(),
            |asset_id: CurrencyId| self.borrowed_value(who, asset_id),
        )
    }

    /// The value that an underlying amount of an asset has as collateral.
    pub open spec fn secured_value(self, asset_id: CurrencyId, underlying: Balance) -> Result<
        FixedU128,
        DispatchError,
    > {
        match self.market(asset_id) {
            Err(error) => Err(error),
            Ok(market) => self.asset_value(
                asset_id,
                market.collateral_factor.spec_mul_ceil(underlying) as u128,
            ),
        }
    }

    /// The value that the deposits of an account in an asset have as collateral: none unless they
    /// are used as collateral.
    pub open spec fn collateral_asset_value(self, who: AccountId, asset_id: CurrencyId) -> Result<
        FixedU128,
        DispatchError,
    > {
        let deposits = self.storage.deposits(asset_id, who);
        if !deposits.is_collateral || deposits.voucher_balance == 0 {
            Ok(FixedU128 { inner: 0 })
        } else {
            match underlying_amount(deposits.voucher_balance, self.storage.rate(asset_id)) {
                Err(error) => Err(error),
                Ok(underlying) => self.secured_value(asset_id, underlying),
            }
        }
    }

    /// The value that the deposits of an account in active markets have as collateral.
    pub open spec fn total_collateral_value(self, who: AccountId) -> Result<
        FixedU128,
        DispatchError,
    > {
        checked_total(
            self.storage.active_ids(),
            |asset_id: CurrencyId| self.collateral_asset_value(who, asset_id),
        )
    }

    /// By how much the collateral of an account exceeds its debts, and by how much the debts exceed
    /// the collateral.
    pub open spec fn account_liquidity(self, who: AccountId) -> Result<
        (Liquidity, Shortfall),
        DispatchError,
    > {
        match self.total_borrowed_value(who) {
            Err(error) => Err(error),
            Ok(borrowed) => match self.total_collateral_value(who) {
                Err(error) => Err(error),
                Ok(collateral) => if collateral.inner > borrowed.inner {
                    Ok(
                        (
                            FixedU128 { inner: (collateral.inner - borrowed.inner) as u128 },
                            FixedU128 { inner: 0 },
                        ),
                    )
                } else {
                    Ok(
                        (
                            FixedU128 { inner: 0 },
                            FixedU128 { inner: (borrowed.inner - collateral.inner) as u128 },
                        ),
                    )
                },
            },
        }
    }

    /// Whether an account can lose so much value of its liquidity.
    pub open spec fn liquidity_check(self, who: AccountId, reduce_value: FixedU128) -> DispatchResult {
        match self.account_liquidity(who) {
            Err(error) => Err(error),
            Ok((liquidity, _)) => if liquidity.inner < reduce_value.inner {
                Err(refused(Error::InsufficientLiquidity))
            } else {
                Ok(())
            },
        }
    }

    /// Whether the pool can pay so much of an asset out of what is not reserved.
    pub open spec fn cash_check(self, asset_id: CurrencyId, amount: Balance) -> DispatchResult {
        let cash = self.runtime.reducible(asset_id, self.account(), false);
        let reserves = self.storage.reserves(asset_id);
        if cash < reserves {
            Err(underflow())
        } else if cash - reserves < amount {
            Err(refused(Error::InsufficientCash))
        } else {
            Ok(())
        }
    }

    /// Whether the market has room for so much more of its asset.
    pub open spec fn capacity_check(self, asset_id: CurrencyId, amount: Balance) -> DispatchResult {
        match self.market(asset_id) {
            Err(error) => Err(error),
            Ok(market) => {
                let cash = self.runtime.held(asset_id, self.account());
                if cash + amount > u128::MAX {
                    Err(overflow())
                } else if cash + amount > market.cap {
                    Err(refused(Error::ExceededMarketCapacity))
                } else {
                    Ok(())
                }
            },
        }
    }
}

impl<T: Config> Pallet<T> {
    /// The underlying amount of so many vouchers.
    pub fn calc_underlying_amount(voucher_amount: Balance, exchange_rate: Rate) -> (amount: Result<
        Balance,
        DispatchError,
    >)
        ensures
            amount == underlying_amount(voucher_amount, exchange_rate),
    {
        match exchange_rate.checked_mul_int(voucher_amount) {
            Some(amount) => Ok(amount),
            None => Err(DispatchError::Arithmetic(ArithmeticError::Overflow)),
        }
    }

    /// The vouchers for an underlying amount.
    pub fn calc_collateral_amount(underlying_amount: Balance, exchange_rate: Rate) -> (vouchers:
        Result<Balance, DispatchError>)
        ensures
            vouchers == voucher_amount(underlying_amount, exchange_rate),
    {
        match FixedU128::from_inner(underlying_amount).checked_div(&exchange_rate) {
            Some(vouchers) => Ok(vouchers.into_inner()),
            None => Err(DispatchError::Arithmetic(ArithmeticError::Underflow)),
        }
    }

    /// Returns the uniform format price: the oracle's price times `10.pow(18 - asset_decimal)`, so
    /// that the value of an amount does not depend on the decimals of the asset.
    pub fn get_price(&self, asset_id: CurrencyId) -> (price: Result<Price, DispatchError>)
        ensures
            price == self@.price(asset_id),
    {
        match self.runtime.get_price(asset_id) {
            None => Err(DispatchError::Module(Error::PriceOracleNotReady)),
            Some((price, _)) => if price.is_zero() {
                Err(DispatchError::Module(Error::PriceIsZero))
            } else {
                Ok(price)
            },
        }
    }

    /// Returns the value of an amount of an asset: `price * amount / 1e18`.
    pub fn get_asset_value(&self, asset_id: CurrencyId, amount: Balance) -> (value: Result<
        FixedU128,
        DispatchError,
    >)
        ensures
            value == self@.asset_value(asset_id, amount),
    {
        let price: Price = self.get_price(asset_id)?;
        match price.checked_mul(&FixedU128::from_inner(amount)) {
            Some(value) => Ok(value),
            None => Err(DispatchError::Arithmetic(ArithmeticError::Overflow)),
        }
    }

    /// Calculates and returns the most recent amount of borrowed balance of an asset.
    pub fn current_borrow_balance(&self, who: &AccountId, asset_id: CurrencyId) -> (balance: Result<
        Balance,
        DispatchError,
    >)
        ensures
            balance == self@.borrow_balance(*who, asset_id),
    {
        let snapshot: BorrowSnapshot = self.account_borrows(asset_id, who);
        self.current_balance_from_snapshot(asset_id, snapshot)
    }

    /// Same as `current_borrow_balance` but takes a given `snapshot` instead of fetching the
    /// storage: `principal * borrow_index / snapshot.borrow_index`.
    pub fn current_balance_from_snapshot(&self, asset_id: CurrencyId, snapshot: BorrowSnapshot) -> (
    balance: Result<Balance, DispatchError>)
        ensures
            balance == debt_with_interest(snapshot, self@.storage.index(asset_id)),
    {
        if snapshot.principal == 0 || snapshot.borrow_index.is_zero() {
            return Ok(0);
        }
        match self.borrow_index(asset_id).checked_div(&snapshot.borrow_index) {
            Some(growth) => match growth.checked_mul_int(snapshot.principal) {
                Some(balance) => Ok(balance),
                None => Err(DispatchError::Arithmetic(ArithmeticError::Overflow)),
            },
            None => Err(DispatchError::Arithmetic(ArithmeticError::Overflow)),
        }
    }

    /// The value of everything that an account owes in active markets.
    pub fn total_borrowed_value(&self, borrower: &AccountId) -> (total: Result<
        FixedU128,
        DispatchError,
    >)
        ensures
            total == self@.total_borrowed_value(*borrower),
    {
        let active = self.active_markets();
        let ghost ids = self@.storage.active_ids();
        let ghost value = |asset_id: CurrencyId| self@.borrowed_value(*borrower, asset_id);
        let mut total: FixedU128 = FixedU128::zero();
        let mut i: usize = 0;
        while i < active.len()
            invariant
                i <= active.len(),
                active@.len() == ids.len(),
                ids == self@.storage.active_ids(),
                value == (|asset_id: CurrencyId| self@.borrowed_value(*borrower, asset_id)),
                forall|j: int| 0 <= j < active@.len() ==> (#[trigger] active@[j]).0 == ids[j],
                Ok::<FixedU128, DispatchError>(total) == checked_total(ids.take(i as int), value),
            decreases active.len() - i,
        {
            let asset_id: CurrencyId = active[i].0;
            proof {
                assert(ids.take(i + 1).drop_last() =~= ids.take(i as int));
                assert(ids.take(i + 1).last() == asset_id);
                if checked_total(ids.take(i + 1), value) is Err {
                    lemma_failure_stands(ids, value, i + 1);
                }
            }
            let amount: Balance = self.current_borrow_balance(borrower, asset_id)?;
            if amount != 0 {
                match self.get_asset_value(asset_id, amount)?.checked_add(&total) {
                    Some(sum) => {
                        total = sum;
                    },
                    None => {
                        return Err(DispatchError::Arithmetic(ArithmeticError::Overflow));
                    },
                }
            }
            i += 1;
        }
        assert(ids.take(i as int) =~= ids);
        Ok(total)
    }

    /// The value that the deposits of an account in an asset have as collateral.
    pub fn collateral_asset_value(&self, borrower: &AccountId, asset_id: CurrencyId) -> (value:
        Result<FixedU128, DispatchError>)
        ensures
            value == self@.collateral_asset_value(*borrower, asset_id),
    {
        let deposits = match self.storage.account_deposits.get(
            &Position { asset_id, who: *borrower },
        ) {
            Some(deposits) => deposits,
            None => {
                return Ok(FixedU128::zero());
            },
        };
        if !deposits.is_collateral {
            return Ok(FixedU128::zero());
        }
        if deposits.voucher_balance == 0 {
            return Ok(FixedU128::zero());
        }
        let exchange_rate: Rate = self.exchange_rate(asset_id);
        let underlying: Balance = Self::calc_underlying_amount(
            deposits.voucher_balance,
            exchange_rate,
        )?;
        let market = self.market(asset_id)?;
        let effects_amount: Balance = market.collateral_factor.mul_ceil(underlying);
        self.get_asset_value(asset_id, effects_amount)
    }

    /// The value that the deposits of an account in active markets have as collateral.
    pub fn total_collateral_value(&self, borrower: &AccountId) -> (total: Result<
        FixedU128,
        DispatchError,
    >)
        ensures
            total == self@.total_collateral_value(*borrower),
    {
        let active = self.active_markets();
        let ghost ids = self@.storage.active_ids();
        let ghost value = |asset_id: CurrencyId| self@.collateral_asset_value(*borrower, asset_id);
        let mut total: FixedU128 = FixedU128::zero();
        let mut i: usize = 0;
        while i < active.len()
            invariant
                i <= active.len(),
                active@.len() == ids.len(),
                ids == self@.storage.active_ids(),
                value == (|asset_id: CurrencyId| self@.collateral_asset_value(*borrower, asset_id)),
                forall|j: int| 0 <= j < active@.len() ==> (#[trigger] active@[j]).0 == ids[j],
                Ok::<FixedU128, DispatchError>(total) == checked_total(ids.take(i as int), value),
            decreases active.len() - i,
        {
            let asset_id: CurrencyId = active[i].0;
            proof {
                assert(ids.take(i + 1).drop_last() =~= ids.take(i as int));
                assert(ids.take(i + 1).last() == asset_id);
                if checked_total(ids.take(i + 1), value) is Err {
                    lemma_failure_stands(ids, value, i + 1);
                }
            }
            let amount: FixedU128 = self.collateral_asset_value(borrower, asset_id)?;
            match total.checked_add(&amount) {
                Some(sum) => {
                    total = sum;
                },
                None => {
                    return Err(DispatchError::Arithmetic(ArithmeticError::Overflow));
                },
            }
            i += 1;
        }
        assert(ids.take(i as int) =~= ids);
        Ok(total)
    }

    /// By how much the collateral of an account exceeds its debts, and by how much the debts exceed
    /// the collateral.
    pub fn get_account_liquidity(&self, account: &AccountId) -> (liquidity: Result<
        (Liquidity, Shortfall),
        DispatchError,
    >)
        ensures
            liquidity == self@.account_liquidity(*account),
    {
        let borrowed: FixedU128 = self.total_borrowed_value(account)?;
        let collateral: FixedU128 = self.total_collateral_value(account)?;
        if collateral.inner > borrowed.inner {
            Ok((FixedU128::from_inner(collateral.inner - borrowed.inner), FixedU128::zero()))
        } else {
            Ok((FixedU128::zero(), FixedU128::from_inner(borrowed.inner - collateral.inner)))
        }
    }

    /// Ensures that an account can lose so much value of its liquidity.
    pub fn ensure_liquidity(&self, account: &AccountId, reduce_amount: FixedU128) -> (checked:
        DispatchResult)
        ensures
            checked == self@.liquidity_check(*account, reduce_amount),
    {
        let (liquidity, _) = self.get_account_liquidity(account)?;
        if liquidity.inner < reduce_amount.inner {
            Err(DispatchError::Module(Error::InsufficientLiquidity))
        } else {
            Ok(())
        }
    }

    /// What the pool can pay of an asset.
    pub fn get_total_cash(&self, asset_id: CurrencyId) -> (cash: Balance)
        ensures
            cash == self@.runtime.reducible(asset_id, self@.account(), false),
    {
        self.runtime.reducible_balance(asset_id, &self.account_id(), false)
    }

    /// Makes sure that there is enough cash available in the pool.
    pub fn ensure_enough_cash(&self, asset_id: CurrencyId, amount: Balance) -> (checked:
        DispatchResult)
        ensures
            checked == self@.cash_check(asset_id, amount),
    {
        match self.get_total_cash(asset_id).checked_sub(self.total_reserves(asset_id)) {
            Some(reducible_cash) => if reducible_cash < amount {
                Err(DispatchError::Module(Error::InsufficientCash))
            } else {
                Ok(())
            },
            None => Err(DispatchError::Arithmetic(ArithmeticError::Underflow)),
        }
    }

    /// Ensures that the market has room for so much more of its asset.
    pub fn ensure_capacity(&self, asset_id: CurrencyId, amount: Balance) -> (checked: DispatchResult)
        ensures
            checked == self@.capacity_check(asset_id, amount),
    {
        let market = self.market(asset_id)?;
        let current_cash: Balance = self.runtime.balance(asset_id, &self.account_id());
        match current_cash.checked_add(amount) {
            Some(total_cash) => if total_cash <= market.cap {
                Ok(())
            } else {
                Err(DispatchError::Module(Error::ExceededMarketCapacity))
            },
            None => Err(DispatchError::Arithmetic(ArithmeticError::Overflow)),
        }
    }
}

/// Where the sum of the first assets fails, the whole sum fails in the same way.
proof fn lemma_failure_stands(
    ids: Seq<CurrencyId>,
    value: spec_fn(CurrencyId) -> Result<FixedU128, DispatchError>,
    n: int,
)
    requires
        0 <= n <= ids.len(),
        checked_total(ids.take(n), value) is Err,
    ensures
        checked_total(ids, value) == checked_total(ids.take(n), value),
    decreases ids.len() - n,
{
    if n == ids.len() {
        assert(ids.take(n) =~= ids);
    } else {
        assert(ids.take(n + 1).drop_last() =~= ids.take(n));
        lemma_failure_stands(ids, value, n + 1);
    }
}

}
