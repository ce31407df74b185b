//! When each call succeeds, and for which reason it fails where it does not.

use crate::config::Config;
use crate::fixed::{FixedU128, Rate, Ratio, ACCURACY, DIV};
use crate::laws::arithmetic::{is_quotient, law_part, law_product, law_ratio};
use crate::pallet::State;
use crate::reserves::reserve_admin;
use crate::storage::position;
use crate::types::{
    overflow, refused, underflow, AccountId, Balance, CurrencyId, DispatchError, Error, Market,
    MarketState, Origin,
};
use crate::valuation::{underlying_amount, voucher_amount};
use vstd::prelude::*;

verus! {

/// A supply succeeds for a signer in an active market with room for it, where the runtime moves the
/// tokens and what is to be stored fits.
pub proof fn law_mint_succeeds<T: Config>(
    before: State<T>,
    origin: Origin,
    asset_id: CurrencyId,
    amount: Balance,
)
    ensures
        ({
            let result = before.after_mint(origin, asset_id, amount);
            let who = origin->Signed_0;
            let pool = before.account();
            let held = before.runtime.held(asset_id, pool);
            let moved = before.runtime.moved(asset_id, who, pool, amount, false);
            let earned = before.earned_by_now(who, asset_id);
            let vouchers = voucher_amount(amount, before.storage.rate(asset_id));
            let own = before.storage.deposits(asset_id, who).voucher_balance;
            let all = before.storage.supply(asset_id);
            &&& result is Ok <==> {
                &&& origin is Signed
                &&& before.storage.is_active(asset_id)
                &&& held + amount <= before.storage.markets[asset_id].cap
                &&& moved is Ok && earned is Ok && vouchers is Ok
                &&& own + vouchers->Ok_0 <= u128::MAX
                &&& all + vouchers->Ok_0 <= u128::MAX
            }
            &&& result is Err ==> result->Err_0 == if !(origin is Signed) {
                DispatchError::BadOrigin
            } else if !before.storage.is_active(asset_id) {
                refused(Error::MarketNotActivated)
            } else if held + amount > u128::MAX {
                overflow()
            } else if held + amount > before.storage.markets[asset_id].cap {
                refused(Error::ExceededMarketCapacity)
            } else if moved is Err {
                moved->Err_0
            } else if earned is Err {
                earned->Err_0
            } else if vouchers is Err {
                vouchers->Err_0
            } else {
                overflow()
            }
        }),
{
}

/// Vouchers may be redeemed that the account holds; where they are collateral, also only where the
/// pool can pay beyond its reserves and the account has liquidity for what counted of them.
pub proof fn law_redeeming_is_allowed<T: Config>(
    state: State<T>,
    asset_id: CurrencyId,
    who: AccountId,
    vouchers: Balance,
)
    ensures
        ({
            let check = state.redeem_check(asset_id, who, vouchers);
            let deposits = state.storage.deposits(asset_id, who);
            let worth = underlying_amount(vouchers, state.storage.rate(asset_id));
            let cash = state.runtime.reducible(asset_id, state.account(), false);
            let reserves = state.storage.reserves(asset_id);
            let value = state.secured_value(asset_id, worth->Ok_0);
            let liquidity = state.account_liquidity(who);
            &&& check is Ok <==> {
                &&& vouchers <= deposits.voucher_balance
                &&& deposits.is_collateral ==> {
                    &&& worth is Ok && value is Ok && liquidity is Ok
                    &&& reserves + worth->Ok_0 <= cash
                    &&& value->Ok_0.inner <= liquidity->Ok_0.0.inner
                }
            }
            &&& check is Err ==> check->Err_0 == if deposits.voucher_balance < vouchers {
                refused(Error::InsufficientDeposit)
            } else if worth is Err {
                worth->Err_0
            } else if cash < reserves {
                underflow()
            } else if cash < reserves + worth->Ok_0 {
                refused(Error::InsufficientCash)
            } else if value is Err {
                value->Err_0
            } else if liquidity is Err {
                liquidity->Err_0
            } else {
                refused(Error::InsufficientLiquidity)
            }
        }),
{
}

/// Where there is no market, nothing counts as collateral.
pub proof fn law_nothing_is_secured_without_a_market<T: Config>(
    state: State<T>,
    asset_id: CurrencyId,
    amount: Balance,
)
    requires
        !state.storage.markets.contains_key(asset_id),
    ensures
        state.secured_value(asset_id, amount) == Err::<FixedU128, DispatchError>(
            refused(Error::MarketDoesNotExist),
        ),
{
}

/// Vouchers are redeemed where they may be, their worth and what is to be stored fit, and the
/// runtime moves the tokens.
pub proof fn law_redeeming_succeeds<T: Config>(
    before: State<T>,
    who: AccountId,
    asset_id: CurrencyId,
    vouchers: Balance,
)
    ensures
        ({
            let result = before.after_redeeming(who, asset_id, vouchers);
            let check = before.redeem_check(asset_id, who, vouchers);
            let worth = underlying_amount(vouchers, before.storage.rate(asset_id));
            let moved = before.runtime.moved(
                asset_id,
                before.account(),
                who,
                worth->Ok_0,
                false,
            );
            &&& result is Ok <==> {
                &&& check is Ok && worth is Ok && moved is Ok
                &&& vouchers <= before.storage.supply(asset_id)
            }
            &&& result is Err ==> result->Err_0 == if check is Err {
                check->Err_0
            } else if worth is Err {
                worth->Err_0
            } else if before.storage.supply(asset_id) < vouchers {
                underflow()
            } else {
                moved->Err_0
            }
        }),
{
}

/// A redemption succeeds for a signer in an active market, where earnings and vouchers fit, and the
/// vouchers for the amount are redeemed.
pub proof fn law_redeem_succeeds<T: Config>(
    before: State<T>,
    origin: Origin,
    asset_id: CurrencyId,
    amount: Balance,
)
    ensures
        ({
            let result = before.after_redeem(origin, asset_id, amount);
            let who = origin->Signed_0;
            let earned = before.earned_by_now(who, asset_id);
            let vouchers = voucher_amount(amount, before.storage.rate(asset_id));
            let redeemed = before.after_redeeming(who, asset_id, vouchers->Ok_0);
            &&& result is Ok <==> {
                &&& origin is Signed
                &&& before.storage.is_active(asset_id)
                &&& earned is Ok && vouchers is Ok && redeemed is Ok
            }
            &&& result is Err ==> result->Err_0 == if !(origin is Signed) {
                DispatchError::BadOrigin
            } else if !before.storage.is_active(asset_id) {
                refused(Error::MarketNotActivated)
            } else if earned is Err {
                earned->Err_0
            } else if vouchers is Err {
                vouchers->Err_0
            } else {
                redeemed->Err_0
            }
        }),
{
}

/// The redemption of everything succeeds for a signer in an active market, where earnings fit, and
/// all vouchers of the account are redeemed.
pub proof fn law_redeem_all_succeeds<T: Config>(
    before: State<T>,
    origin: Origin,
    asset_id: CurrencyId,
)
    ensures
        ({
            let result = before.after_redeem_all(origin, asset_id);
            let who = origin->Signed_0;
            let earned = before.earned_by_now(who, asset_id);
            let all = before.storage.deposits(asset_id, who).voucher_balance;
            let redeemed = before.after_redeeming(who, asset_id, all);
            &&& result is Ok <==> {
                &&& origin is Signed
                &&& before.storage.is_active(asset_id)
                &&& earned is Ok && redeemed is Ok
            }
            &&& result is Err ==> result->Err_0 == if !(origin is Signed) {
                DispatchError::BadOrigin
            } else if !before.storage.is_active(asset_id) {
                refused(Error::MarketNotActivated)
            } else if earned is Err {
                earned->Err_0
            } else {
                redeemed->Err_0
            }
        }),
{
}

/// A borrow is allowed where the pool can pay beyond its reserves and the account has liquidity for
/// the whole value of the amount.
pub proof fn law_borrow_is_allowed<T: Config>(
    state: State<T>,
    asset_id: CurrencyId,
    who: AccountId,
    amount: Balance,
)
    ensures
        ({
            let check = state.borrow_check(asset_id, who, amount);
            let cash = state.runtime.reducible(asset_id, state.account(), false);
            let reserves = state.storage.reserves(asset_id);
            let value = state.asset_value(asset_id, amount);
            let liquidity = state.account_liquidity(who);
            &&& check is Ok <==> {
                &&& reserves + amount <= cash
                &&& value is Ok && liquidity is Ok
                &&& value->Ok_0.inner <= liquidity->Ok_0.0.inner
            }
            &&& check is Err ==> check->Err_0 == if cash < reserves {
                underflow()
            } else if cash < reserves + amount {
                refused(Error::InsufficientCash)
            } else if value is Err {
                value->Err_0
            } else if liquidity is Err {
                liquidity->Err_0
            } else {
                refused(Error::InsufficientLiquidity)
            }
        }),
{
}

/// A borrow succeeds for a signer in an active market, where it is allowed, what is to be stored
/// fits, and the runtime moves the tokens.
pub proof fn law_borrow_succeeds<T: Config>(
    before: State<T>,
    origin: Origin,
    asset_id: CurrencyId,
    amount: Balance,
)
    ensures
        ({
            let result = before.after_borrow(origin, asset_id, amount);
            let who = origin->Signed_0;
            let check = before.borrow_check(asset_id, who, amount);
            let debt = before.borrow_balance(who, asset_id);
            let total = before.storage.borrows(asset_id);
            let moved = before.runtime.moved(asset_id, before.account(), who, amount, false);
            &&& result is Ok <==> {
                &&& origin is Signed
                &&& before.storage.is_active(asset_id)
                &&& check is Ok && debt is Ok && moved is Ok
                &&& debt->Ok_0 + amount <= u128::MAX
                &&& total + amount <= u128::MAX
            }
            &&& result is Err ==> result->Err_0 == if !(origin is Signed) {
                DispatchError::BadOrigin
            } else if !before.storage.is_active(asset_id) {
                refused(Error::MarketNotActivated)
            } else if check is Err {
                check->Err_0
            } else if debt is Err {
                debt->Err_0
            } else if debt->Ok_0 + amount > u128::MAX || total + amount > u128::MAX {
                overflow()
            } else {
                moved->Err_0
            }
        }),
{
}

/// A part of a given debt is repaid where it is not more than the debt and the runtime moves the
/// tokens.
pub proof fn law_repaying_succeeds<T: Config>(
    before: State<T>,
    who: AccountId,
    asset_id: CurrencyId,
    debt: Balance,
    amount: Balance,
)
    ensures
        ({
            let result = before.after_repaying(who, asset_id, debt, amount);
            let moved = before.runtime.moved(asset_id, who, before.account(), amount, false);
            &&& result is Ok <==> amount <= debt && moved is Ok
            &&& result is Err ==> result->Err_0 == if debt < amount {
                refused(Error::TooMuchRepay)
            } else {
                moved->Err_0
            }
        }),
{
}

/// A repayment succeeds for a signer in an active market, where it is not more than what the
/// account owes with interest and the runtime moves the tokens.
pub proof fn law_repay_borrow_succeeds<T: Config>(
    before: State<T>,
    origin: Origin,
    asset_id: CurrencyId,
    amount: Balance,
)
    ensures
        ({
            let result = before.after_repay_borrow(origin, asset_id, amount);
            let who = origin->Signed_0;
            let debt = before.borrow_balance(who, asset_id);
            let moved = before.runtime.moved(asset_id, who, before.account(), amount, false);
            &&& result is Ok <==> {
                &&& origin is Signed
                &&& before.storage.is_active(asset_id)
                &&& debt is Ok && moved is Ok
                &&& amount <= debt->Ok_0
            }
            &&& result is Err ==> result->Err_0 == if !(origin is Signed) {
                DispatchError::BadOrigin
            } else if !before.storage.is_active(asset_id) {
                refused(Error::MarketNotActivated)
            } else if debt is Err {
                debt->Err_0
            } else if debt->Ok_0 < amount {
                refused(Error::TooMuchRepay)
            } else {
                moved->Err_0
            }
        }),
{
}

/// The repayment of everything succeeds for a signer in an active market, where the debt is known
/// and the runtime moves the tokens.
pub proof fn law_repay_borrow_all_succeeds<T: Config>(
    before: State<T>,
    origin: Origin,
    asset_id: CurrencyId,
)
    ensures
        ({
            let result = before.after_repay_borrow_all(origin, asset_id);
            let who = origin->Signed_0;
            let debt = before.borrow_balance(who, asset_id);
            let moved = before.runtime.moved(
                asset_id,
                who,
                before.account(),
                debt->Ok_0,
                false,
            );
            &&& result is Ok <==> {
                &&& origin is Signed
                &&& before.storage.is_active(asset_id)
                &&& debt is Ok && moved is Ok
            }
            &&& result is Err ==> result->Err_0 == if !(origin is Signed) {
                DispatchError::BadOrigin
            } else if !before.storage.is_active(asset_id) {
                refused(Error::MarketNotActivated)
            } else if debt is Err {
                debt->Err_0
            } else {
                moved->Err_0
            }
        }),
{
}

/// Collateral is released where what is left of it covers all debts.
pub proof fn law_release_is_allowed<T: Config>(state: State<T>, who: AccountId, asset_id: CurrencyId)
    ensures
        ({
            let check = state.release_check(who, asset_id);
            let collateral = state.total_collateral_value(who);
            let released = state.collateral_asset_value(who, asset_id);
            let debts = state.total_borrowed_value(who);
            let needed = debts->Ok_0.inner + released->Ok_0.inner;
            &&& check is Ok <==> {
                &&& collateral is Ok && released is Ok && debts is Ok
                &&& needed <= collateral->Ok_0.inner
            }
            &&& check is Err ==> check->Err_0 == if collateral is Err {
                collateral->Err_0
            } else if released is Err {
                released->Err_0
            } else if debts is Err {
                debts->Err_0
            } else if needed > u128::MAX {
                overflow()
            } else {
                refused(Error::InsufficientLiquidity)
            }
        }),
{
}

/// The choice of collateral succeeds for a signer with deposits in an active market, where it is
/// not the present one, and where what is released is not needed.
pub proof fn law_collateral_asset_succeeds<T: Config>(
    before: State<T>,
    origin: Origin,
    asset_id: CurrencyId,
    enable: bool,
)
    ensures
        ({
            let result = before.after_collateral_asset(origin, asset_id, enable);
            let who = origin->Signed_0;
            let known = before.storage.account_deposits.contains_key(position(asset_id, who));
            let chosen = before.storage.deposits(asset_id, who).is_collateral;
            let release = before.release_check(who, asset_id);
            &&& result is Ok <==> {
                &&& origin is Signed
                &&& before.storage.is_active(asset_id)
                &&& known
                &&& chosen != enable
                &&& enable || release is Ok
            }
            &&& result is Err ==> result->Err_0 == if !(origin is Signed) {
                DispatchError::BadOrigin
            } else if !before.storage.is_active(asset_id) {
                refused(Error::MarketNotActivated)
            } else if !known {
                refused(Error::NoDeposit)
            } else if chosen == enable {
                refused(Error::DuplicateOperation)
            } else {
                release->Err_0
            }
        }),
{
}

/// A debt may be liquidated where the borrower has a shortfall and the amount is at most the part of
/// the debt, rounded up, that the market lets be repaid at once.
pub proof fn law_liquidation_is_allowed<T: Config>(
    state: State<T>,
    borrower: AccountId,
    repaid_id: CurrencyId,
    repaid: Balance,
    market: Market<T::RateModel>,
)
    ensures
        ({
            let check = state.liquidation_check(borrower, repaid_id, repaid, market);
            let liquidity = state.account_liquidity(borrower);
            let debt = state.borrow_balance(borrower, repaid_id);
            let few = (repaid - 1) * ACCURACY < debt->Ok_0 * market.close_factor.parts();
            &&& check is Ok <==> {
                &&& liquidity is Ok && debt is Ok
                &&& liquidity->Ok_0.1.inner > 0
                &&& few
            }
            &&& check is Err ==> check->Err_0 == if liquidity is Err {
                liquidity->Err_0
            } else if liquidity->Ok_0.1.inner == 0 {
                refused(Error::InsufficientShortfall)
            } else if debt is Err {
                debt->Err_0
            } else {
                refused(Error::TooMuchRepay)
            }
        }),
{
    law_part(market.close_factor, state.borrow_balance(borrower, repaid_id)->Ok_0);
}

/// What is seized is worth what is due: the value of what is repaid, times the incentive. It is
/// seized only from collateral that is worth as much.
pub proof fn law_seizure<T: Config>(
    state: State<T>,
    borrower: AccountId,
    repaid_id: CurrencyId,
    repaid: Balance,
    seized_id: CurrencyId,
    incentive: Rate,
    due: FixedU128,
    amount: Balance,
)
    ensures
        ({
            let seized = state.seized_amount(borrower, repaid_id, repaid, seized_id, incentive);
            let deposits = state.storage.deposits(seized_id, borrower);
            let deposited = underlying_amount(
                deposits.voucher_balance,
                state.storage.rate(seized_id),
            );
            let collateral = state.asset_value(seized_id, deposited->Ok_0);
            let value = state.asset_value(repaid_id, repaid);
            &&& seized is Ok ==> {
                &&& deposits.is_collateral
                &&& deposited is Ok && collateral is Ok && value is Ok
                &&& value->Ok_0.spec_checked_mul(incentive) is Some
            }
            &&& deposited is Ok && collateral is Ok && value is Ok && is_quotient(
                value->Ok_0.inner * incentive.inner,
                DIV as int,
                due.inner as int,
            ) ==> {
                &&& seized == Ok::<Balance, DispatchError>(amount) <==> {
                    &&& deposits.is_collateral
                    &&& due.inner <= collateral->Ok_0.inner
                    &&& is_quotient(
                        due.inner * DIV,
                        state.price(seized_id)->Ok_0.inner as int,
                        amount as int,
                    )
                }
                &&& deposits.is_collateral && collateral->Ok_0.inner < due.inner ==> seized
                    == Err::<Balance, DispatchError>(refused(Error::InsufficientCollateral))
                &&& deposits.is_collateral && due.inner <= collateral->Ok_0.inner && seized is Err
                    ==> seized->Err_0 == underflow()
            }
            &&& !deposits.is_collateral ==> seized == Err::<Balance, DispatchError>(
                refused(Error::DepositsAreNotCollateral),
            )
            &&& deposits.is_collateral && deposited is Err ==> seized == Err::<
                Balance,
                DispatchError,
            >(deposited->Err_0)
            &&& deposits.is_collateral && deposited is Ok && collateral is Err ==> seized == Err::<
                Balance,
                DispatchError,
            >(collateral->Err_0)
            &&& deposits.is_collateral && deposited is Ok && collateral is Ok && value is Err
                ==> seized == Err::<Balance, DispatchError>(value->Err_0)
            &&& deposits.is_collateral && deposited is Ok && collateral is Ok && value is Ok
                && value->Ok_0.spec_checked_mul(incentive) is None ==> seized == Err::<
                Balance,
                DispatchError,
            >(overflow())
        }),
{
    let value = state.asset_value(repaid_id, repaid);
    law_product(value->Ok_0, incentive, due);
    law_ratio(due, state.price(seized_id)->Ok_0, FixedU128 { inner: amount });
}

/// A liquidation is settled where the runtime moves the tokens, the debt and all debts together are
/// at least what is repaid, and the vouchers are there and fit.
pub proof fn law_liquidated_transfer_succeeds<T: Config>(
    before: State<T>,
    liquidator: AccountId,
    borrower: AccountId,
    repaid_id: CurrencyId,
    seized_id: CurrencyId,
    repaid: Balance,
    seized: Balance,
)
    ensures
        ({
            let result = before.after_liquidated_transfer(
                liquidator,
                borrower,
                repaid_id,
                seized_id,
                repaid,
                seized,
            );
            let moved = before.runtime.moved(
                repaid_id,
                liquidator,
                before.account(),
                repaid,
                false,
            );
            let debt = before.borrow_balance(borrower, repaid_id);
            let vouchers = voucher_amount(seized, before.storage.rate(seized_id));
            let losing = before.storage.deposits(seized_id, borrower).voucher_balance;
            let gaining = before.storage.deposits(seized_id, liquidator).voucher_balance;
            &&& result is Ok <==> {
                &&& moved is Ok && debt is Ok && vouchers is Ok
                &&& repaid <= debt->Ok_0
                &&& repaid <= before.storage.borrows(repaid_id)
                &&& vouchers->Ok_0 <= losing
                &&& borrower == liquidator || gaining + vouchers->Ok_0 <= u128::MAX
            }
            &&& result is Err ==> result->Err_0 == if moved is Err {
                moved->Err_0
            } else if debt is Err {
                debt->Err_0
            } else if debt->Ok_0 < repaid || before.storage.borrows(repaid_id) < repaid {
                underflow()
            } else if vouchers is Err {
                vouchers->Err_0
            } else if losing < vouchers->Ok_0 {
                underflow()
            } else {
                overflow()
            }
        }),
{
}

/// A liquidation succeeds for a signer that is not the borrower, in active markets, where it is
/// allowed, and what is due can be seized and settled.
pub proof fn law_liquidate_borrow_succeeds<T: Config>(
    before: State<T>,
    origin: Origin,
    borrower: AccountId,
    repaid_id: CurrencyId,
    repaid: Balance,
    seized_id: CurrencyId,
)
    ensures
        ({
            let result = before.after_liquidate_borrow(
                origin,
                borrower,
                repaid_id,
                repaid,
                seized_id,
            );
            let who = origin->Signed_0;
            let market = before.storage.markets[repaid_id];
            let check = before.liquidation_check(borrower, repaid_id, repaid, market);
            let seized = before.seized_amount(
                borrower,
                repaid_id,
                repaid,
                seized_id,
                market.liquidate_incentive,
            );
            let settlement = before.after_liquidated_transfer(
                who,
                borrower,
                repaid_id,
                seized_id,
                repaid,
                seized->Ok_0,
            );
            &&& origin is Signed ==> result == before.after_liquidating(
                who,
                borrower,
                repaid_id,
                repaid,
                seized_id,
            )
            &&& result is Ok <==> {
                &&& origin is Signed
                &&& before.storage.is_active(repaid_id) && before.storage.is_active(seized_id)
                &&& borrower != who
                &&& check is Ok && seized is Ok && settlement is Ok
            }
            &&& result is Err ==> result->Err_0 == if !(origin is Signed) {
                DispatchError::BadOrigin
            } else if !before.storage.is_active(repaid_id) || !before.storage.is_active(seized_id) {
                refused(Error::MarketNotActivated)
            } else if borrower == who {
                refused(Error::LiquidatorIsBorrower)
            } else if check is Err {
                check->Err_0
            } else if seized is Err {
                seized->Err_0
            } else {
                settlement->Err_0
            }
        }),
{
}

/// A call on the reserves names the account that the runtime knows by the address, for an origin
/// that may touch the reserves; the admin is who signed it, or else the named account.
pub proof fn law_parties_to_the_reserves<T: Config>(
    state: State<T>,
    origin: Origin,
    address: T::Source,
    party: AccountId,
)
    ensures
        ({
            let named = state.reserve_party(origin, address);
            &&& named == Ok::<AccountId, DispatchError>(party) <==> state.runtime.may_reserve(
                origin,
            ) && state.runtime.named(address) == Some(party)
            &&& named is Err ==> named->Err_0 == if !state.runtime.may_reserve(origin) {
                DispatchError::BadOrigin
            } else {
                DispatchError::CannotLookup
            }
            &&& reserve_admin(Origin::Signed(party), party) == party
            &&& forall|who: AccountId| #[trigger]
                reserve_admin(Origin::Signed(who), party) == who
            &&& !(origin is Signed) ==> reserve_admin(origin, party) == party
        }),
{
}

/// An addition to the reserves succeeds for the reserve origin with a known payer in an active
/// market, where the runtime moves the tokens and the total fits.
pub proof fn law_add_reserves_succeeds<T: Config>(
    before: State<T>,
    origin: Origin,
    payer: T::Source,
    asset_id: CurrencyId,
    amount: Balance,
)
    ensures
        ({
            let result = before.after_add_reserves(origin, payer, asset_id, amount);
            let named = before.runtime.named(payer);
            let moved = before.runtime.moved(
                asset_id,
                named->Some_0,
                before.account(),
                amount,
                false,
            );
            &&& result is Ok <==> {
                &&& before.runtime.may_reserve(origin)
                &&& named is Some
                &&& before.storage.is_active(asset_id)
                &&& moved is Ok
                &&& before.storage.reserves(asset_id) + amount <= u128::MAX
            }
            &&& result is Err ==> result->Err_0 == if !before.runtime.may_reserve(origin) {
                DispatchError::BadOrigin
            } else if named is None {
                DispatchError::CannotLookup
            } else if !before.storage.is_active(asset_id) {
                refused(Error::MarketNotActivated)
            } else if moved is Err {
                moved->Err_0
            } else {
                overflow()
            }
        }),
{
}

/// A reduction of the reserves succeeds for the reserve origin with a known receiver in an active
/// market, where the reserves hold the amount and the runtime moves the tokens.
pub proof fn law_reduce_reserves_succeeds<T: Config>(
    before: State<T>,
    origin: Origin,
    receiver: T::Source,
    asset_id: CurrencyId,
    amount: Balance,
)
    ensures
        ({
            let result = before.after_reduce_reserves(origin, receiver, asset_id, amount);
            let named = before.runtime.named(receiver);
            let moved = before.runtime.moved(
                asset_id,
                before.account(),
                named->Some_0,
                amount,
                false,
            );
            &&& result is Ok <==> {
                &&& before.runtime.may_reserve(origin)
                &&& named is Some
                &&& before.storage.is_active(asset_id)
                &&& amount <= before.storage.reserves(asset_id)
                &&& moved is Ok
            }
            &&& result is Err ==> result->Err_0 == if !before.runtime.may_reserve(origin) {
                DispatchError::BadOrigin
            } else if named is None {
                DispatchError::CannotLookup
            } else if !before.storage.is_active(asset_id) {
                refused(Error::MarketNotActivated)
            } else if before.storage.reserves(asset_id) < amount {
                refused(Error::InsufficientReserves)
            } else {
                moved->Err_0
            }
        }),
{
}

/// Whether a ratio is more than nothing and less than the whole.
pub open spec fn is_between(ratio: Ratio) -> bool {
    0 < ratio.parts() && ratio.parts() < 1_000_000
}

/// A market is added for the update origin, where the asset has none, the market is pending with
/// sound parameters, and its voucher token is neither one already nor an asset with a market.
pub proof fn law_add_market_succeeds<T: Config>(
    before: State<T>,
    origin: Origin,
    asset_id: CurrencyId,
    market: Market<T::RateModel>,
)
    ensures
        ({
            let result = before.after_add_market(origin, asset_id, market);
            let factors = is_between(market.collateral_factor) && is_between(
                market.reserve_factor,
            );
            let known = before.storage.underlying_asset_id.contains_key(market.ptoken_id)
                || before.storage.markets.contains_key(market.ptoken_id);
            &&& before.ptoken_check(market.ptoken_id) is Ok <==> !known
            &&& known ==> before.ptoken_check(market.ptoken_id) == Err::<(), DispatchError>(
                refused(Error::InvalidPtokenId),
            )
            &&& result is Ok <==> {
                &&& before.runtime.may_update(origin)
                &&& !before.storage.markets.contains_key(asset_id)
                &&& market.state == MarketState::Pending
                &&& T::sound(market.rate_model)
                &&& factors
                &&& market.cap > 0
                &&& !known
            }
            &&& result is Err ==> result->Err_0 == if !before.runtime.may_update(origin) {
                DispatchError::BadOrigin
            } else if before.storage.markets.contains_key(asset_id) {
                refused(Error::MarketAlredyExists)
            } else if market.state != MarketState::Pending {
                refused(Error::NewMarketMustHavePendingState)
            } else if !T::sound(market.rate_model) {
                refused(Error::InvalidRateModelParam)
            } else if !factors {
                refused(Error::InvalidFactor)
            } else if market.cap == 0 {
                refused(Error::ZeroCap)
            } else {
                refused(Error::InvalidPtokenId)
            }
        }),
{
}

/// A stored market is changed for the update origin, where there is one and what is given is sound.
pub proof fn law_market_calls_succeed<T: Config>(
    before: State<T>,
    origin: Origin,
    asset_id: CurrencyId,
    model: T::RateModel,
    market: Market<T::RateModel>,
    collateral_factor: Ratio,
    reserve_factor: Ratio,
    close_factor: Ratio,
    incentive: Rate,
    cap: Balance,
)
    ensures
        ({
            let activated = before.after_activate_market(origin, asset_id);
            let remodelled = before.after_update_rate_model(origin, asset_id, model);
            let updated = before.after_update_market(
                origin,
                asset_id,
                collateral_factor,
                reserve_factor,
                close_factor,
                incentive,
                cap,
            );
            let replaced = before.after_force_update_market(origin, asset_id, market);
            let entitled = before.runtime.may_update(origin);
            let known = before.storage.markets.contains_key(asset_id);
            let factors = is_between(collateral_factor) && is_between(reserve_factor);
            &&& activated is Ok <==> entitled && known
            &&& remodelled is Ok <==> entitled && known && T::sound(model)
            &&& updated is Ok <==> entitled && known && factors && cap > 0
            &&& replaced is Ok <==> entitled && known && T::sound(market.rate_model)
            &&& activated is Err ==> activated->Err_0 == if !entitled {
                DispatchError::BadOrigin
            } else {
                refused(Error::MarketDoesNotExist)
            }
            &&& remodelled is Err ==> remodelled->Err_0 == if !entitled {
                DispatchError::BadOrigin
            } else if !T::sound(model) {
                refused(Error::InvalidRateModelParam)
            } else {
                refused(Error::MarketDoesNotExist)
            }
            &&& updated is Err ==> updated->Err_0 == if !entitled {
                DispatchError::BadOrigin
            } else if !factors {
                refused(Error::InvalidFactor)
            } else if cap == 0 {
                refused(Error::ZeroCap)
            } else {
                refused(Error::MarketDoesNotExist)
            }
            &&& replaced is Err ==> replaced->Err_0 == if !entitled {
                DispatchError::BadOrigin
            } else if !T::sound(market.rate_model) {
                refused(Error::InvalidRateModelParam)
            } else {
                refused(Error::MarketDoesNotExist)
            }
        }),
{
}

}
