//! Reserves, and the cash that they keep in the pool.

use crate::config::Config;
use crate::laws::tokens::{law_there_and_back, moved_exactly, same_balances};
use crate::pallet::State;
use crate::types::{refused, AccountId, Balance, CurrencyId, DispatchError, Error, Origin};
use crate::valuation::underlying_amount;
use vstd::prelude::*;

verus! {

/// Taking out of the reserves what was just added leaves them as they were; those of other assets
/// never change. Where the payer is the receiver and the runtime moves exactly the amount both
/// times, every balance of tokens is what it was, that of the party and that of the pallet among
/// them.
pub proof fn law_reducing_undoes_adding<T: Config>(
    before: State<T>,
    origin: Origin,
    payer: T::Source,
    receiver: T::Source,
    asset_id: CurrencyId,
    amount: Balance,
)
    requires
        before.after_add_reserves(origin, payer, asset_id, amount) is Ok,
        before.after_add_reserves(origin, payer, asset_id, amount)->Ok_0.after_reduce_reserves(
            origin,
            receiver,
            asset_id,
            amount,
        ) is Ok,
    ensures
        ({
            let added = before.after_add_reserves(origin, payer, asset_id, amount)->Ok_0;
            let after = added.after_reduce_reserves(origin, receiver, asset_id, amount)->Ok_0;
            &&& added.storage.reserves(asset_id) == before.storage.reserves(asset_id) + amount
            &&& after.storage.reserves(asset_id) == before.storage.reserves(asset_id)
            &&& forall|other: CurrencyId|
                other != asset_id ==> #[trigger] added.storage.reserves(other)
                    == before.storage.reserves(other)
            &&& forall|other: CurrencyId| #[trigger]
                after.storage.reserves(other) == before.storage.reserves(other)
            &&& {
                let party = before.reserve_party(origin, payer)->Ok_0;
                let pool = before.account();
                added.reserve_party(origin, receiver)->Ok_0 == party && moved_exactly(
                    before.runtime,
                    added.runtime,
                    asset_id,
                    party,
                    pool,
                    amount,
                ) && moved_exactly(added.runtime, after.runtime, asset_id, pool, party, amount)
                    ==> {
                    &&& same_balances(before.runtime, after.runtime)
                    &&& after.runtime.held(asset_id, party) == before.runtime.held(asset_id, party)
                    &&& after.runtime.held(asset_id, pool) == before.runtime.held(asset_id, pool)
                }
            }
        }),
{
    let added = before.after_add_reserves(origin, payer, asset_id, amount)->Ok_0;
    let after = added.after_reduce_reserves(origin, receiver, asset_id, amount)->Ok_0;
    let party = before.reserve_party(origin, payer)->Ok_0;
    let pool = before.account();
    if moved_exactly(before.runtime, added.runtime, asset_id, party, pool, amount)
        && moved_exactly(added.runtime, after.runtime, asset_id, pool, party, amount) {
        law_there_and_back(
            before.runtime,
            added.runtime,
            after.runtime,
            asset_id,
            party,
            pool,
            amount,
        );
    }
}

/// The reserves never pay out more than they hold.
pub proof fn law_reserves_are_not_overdrawn<T: Config>(
    before: State<T>,
    origin: Origin,
    receiver: T::Source,
    asset_id: CurrencyId,
    amount: Balance,
)
    requires
        before.reserve_party(origin, receiver) is Ok,
        before.active_market(asset_id) is Ok,
        before.storage.reserves(asset_id) < amount,
    ensures
        before.after_reduce_reserves(origin, receiver, asset_id, amount) == Err::<
            State<T>,
            DispatchError,
        >(refused(Error::InsufficientReserves)),
{
}

/// What is borrowed does not come out of the reserves: the pool holds both.
pub proof fn law_borrowing_leaves_the_reserves<T: Config>(
    before: State<T>,
    origin: Origin,
    asset_id: CurrencyId,
    amount: Balance,
)
    requires
        before.after_borrow(origin, asset_id, amount) is Ok,
    ensures
        before.storage.reserves(asset_id) + amount <= before.runtime.reducible(
            asset_id,
            before.account(),
            false,
        ),
{
}

/// What is redeemed of collateral does not come out of the reserves either.
pub proof fn law_redeeming_collateral_leaves_the_reserves<T: Config>(
    before: State<T>,
    who: AccountId,
    asset_id: CurrencyId,
    vouchers: Balance,
)
    requires
        before.after_redeeming(who, asset_id, vouchers) is Ok,
        before.storage.deposits(asset_id, who).is_collateral,
    ensures
        before.storage.reserves(asset_id) + underlying_amount(
            vouchers,
            before.storage.rate(asset_id),
        )->Ok_0 <= before.runtime.reducible(asset_id, before.account(), false),
{
}

/// A supply does not take the pool over the capacity of the market.
pub proof fn law_supplies_stay_within_the_capacity<T: Config>(
    before: State<T>,
    origin: Origin,
    asset_id: CurrencyId,
    amount: Balance,
)
    requires
        before.after_mint(origin, asset_id, amount) is Ok,
    ensures
        before.runtime.held(asset_id, before.account()) + amount <= before.market(
            asset_id,
        )->Ok_0.cap,
{
}

}
