//! Deposits: what supplying and redeeming do to them.

use crate::config::Config;
use crate::fixed::DIV;
use crate::laws::rounding::law_vouchers_are_worth_their_price;
use crate::laws::tokens::moved_exactly;
use crate::pallet::State;
use crate::storage::position;
use crate::types::{
    no_deposits, refused, AccountId, Balance, CurrencyId, DispatchError, Error, Event, Origin,
};
use crate::valuation::{underlying_amount, voucher_amount};
use vstd::prelude::*;

verus! {

/// A supplier receives the vouchers for the amount, and so many come into circulation.
pub proof fn law_supplier_receives_vouchers<T: Config>(
    before: State<T>,
    who: AccountId,
    asset_id: CurrencyId,
    amount: Balance,
)
    requires
        before.after_mint(Origin::Signed(who), asset_id, amount) is Ok,
    ensures
        ({
            let after = before.after_mint(Origin::Signed(who), asset_id, amount)->Ok_0;
            let vouchers = voucher_amount(amount, before.storage.rate(asset_id));
            let old_deposits = before.storage.deposits(asset_id, who);
            let new_deposits = after.storage.deposits(asset_id, who);
            &&& vouchers is Ok
            &&& new_deposits.voucher_balance == old_deposits.voucher_balance + vouchers->Ok_0
            &&& new_deposits.is_collateral == old_deposits.is_collateral
            &&& after.storage.supply(asset_id) == before.storage.supply(asset_id) + vouchers->Ok_0
        }),
{
}

/// Redeeming what was just supplied leaves the account with the vouchers that it had, and as many
/// in circulation. What it is paid differs from what it supplied by less than the worth of one
/// voucher and one unit, and is not more for amounts of up to some 340 units of `1e18`. Where the
/// runtime moves exactly the amounts, the balances of the account and of the pallet change by that
/// difference, and no other balance changes.
pub proof fn law_redeeming_undoes_supplying<T: Config>(
    before: State<T>,
    who: AccountId,
    asset_id: CurrencyId,
    amount: Balance,
)
    requires
        before.after_mint(Origin::Signed(who), asset_id, amount) is Ok,
        before.after_mint(Origin::Signed(who), asset_id, amount)->Ok_0.after_redeem(
            Origin::Signed(who),
            asset_id,
            amount,
        ) is Ok,
    ensures
        ({
            let supplied = before.after_mint(Origin::Signed(who), asset_id, amount)->Ok_0;
            let after = supplied.after_redeem(Origin::Signed(who), asset_id, amount)->Ok_0;
            let pool = before.account();
            let paid = underlying_amount(
                voucher_amount(amount, before.storage.rate(asset_id))->Ok_0,
                before.storage.rate(asset_id),
            )->Ok_0;
            let rate = before.storage.rate(asset_id).inner;
            &&& after.storage.deposits(asset_id, who).voucher_balance == before.storage.deposits(
                asset_id,
                who,
            ).voucher_balance
            &&& after.storage.supply(asset_id) == before.storage.supply(asset_id)
            &&& after.events.last() == Event::<T::RateModel>::Redeemed(who, asset_id, paid)
            &&& DIV * (amount - paid) < rate + DIV
            &&& 2 * (DIV * (paid - amount)) <= rate + DIV
            &&& amount * DIV <= u128::MAX ==> paid <= amount
            &&& moved_exactly(before.runtime, supplied.runtime, asset_id, who, pool, amount)
                && moved_exactly(supplied.runtime, after.runtime, asset_id, pool, who, paid) ==> {
                &&& who != pool ==> after.runtime.held(asset_id, who) == before.runtime.held(
                    asset_id,
                    who,
                ) - amount + paid
                &&& who != pool ==> after.runtime.held(asset_id, pool) == before.runtime.held(
                    asset_id,
                    pool,
                ) + amount - paid
                &&& forall|id: CurrencyId, other: AccountId|
                    id != asset_id || (other != who && other != pool) || who == pool
                        ==> #[trigger] after.runtime.held(id, other) == before.runtime.held(
                        id,
                        other,
                    )
            }
        }),
{
    law_vouchers_are_worth_their_price(amount, before.storage.rate(asset_id));
    let supplied = before.after_mint(Origin::Signed(who), asset_id, amount)->Ok_0;
    let after = supplied.after_redeem(Origin::Signed(who), asset_id, amount)->Ok_0;
    let pool = before.account();
    let paid = underlying_amount(
        voucher_amount(amount, before.storage.rate(asset_id))->Ok_0,
        before.storage.rate(asset_id),
    )->Ok_0;
    if moved_exactly(before.runtime, supplied.runtime, asset_id, who, pool, amount)
        && moved_exactly(supplied.runtime, after.runtime, asset_id, pool, who, paid) {
        let _ = supplied.runtime.held(asset_id, who);
        let _ = supplied.runtime.held(asset_id, pool);
        assert forall|id: CurrencyId, other: AccountId|
            id != asset_id || (other != who && other != pool) || who
                == pool implies #[trigger] after.runtime.held(id, other) == before.runtime.held(
            id,
            other,
        ) by {
            let _ = supplied.runtime.held(id, other);
        }
    }
}

/// Who redeems everything has no deposits left, nor an entry for them.
pub proof fn law_redeeming_all_leaves_nothing<T: Config>(
    before: State<T>,
    who: AccountId,
    asset_id: CurrencyId,
)
    requires
        before.after_redeem_all(Origin::Signed(who), asset_id) is Ok,
    ensures
        ({
            let after = before.after_redeem_all(Origin::Signed(who), asset_id)->Ok_0;
            &&& !after.storage.account_deposits.contains_key(position(asset_id, who))
            &&& after.storage.deposits(asset_id, who) == no_deposits()
            &&& after.storage.supply(asset_id) == before.storage.supply(asset_id)
                - before.storage.deposits(asset_id, who).voucher_balance
        }),
{
}

/// Nobody redeems more vouchers than they hold.
pub proof fn law_nobody_redeems_too_much<T: Config>(
    before: State<T>,
    who: AccountId,
    asset_id: CurrencyId,
    vouchers: Balance,
)
    requires
        before.storage.deposits(asset_id, who).voucher_balance < vouchers,
    ensures
        before.after_redeeming(who, asset_id, vouchers) == Err::<State<T>, DispatchError>(
            refused(Error::InsufficientDeposit),
        ),
{
}

}
