//! What the runtime provides to the pallet.

use crate::fixed::Price;
use crate::storage::{Storage, StorageView};
use crate::types::{
    AccountId, Balance, CurrencyId, DispatchError, DispatchResult, Origin, Timestamp, Weight,
};
use vstd::prelude::*;

verus! {

/// The runtime around the pallet: the tokens that it moves, the oracle, the origins, the lookup of
/// addresses, and the model of interest.
///
/// A value of an implementing type is one state of that runtime. What a method returns depends on
/// that state and on the arguments alone, which is all that is asked of an implementation: each
/// method has a specification function beside it that names its result, and no result is promised.
pub trait Config: Sized {
    /// The parameters of an interest rate model.
    type RateModel: Copy;

    /// An address that the runtime can look up.
    type Source;

    /// The eight bytes that identify the pallet.
    spec fn id() -> [u8; 8];

    fn pallet_id() -> (id: [u8; 8])
        ensures
            id == Self::id(),
    ;

    /// Whether an origin may change markets.
    spec fn may_update(&self, origin: Origin) -> bool;

    fn is_update_origin(&self, origin: &Origin) -> (allowed: bool)
        ensures
            allowed == self.may_update(*origin),
    ;

    /// Whether an origin may add to and reduce reserves.
    spec fn may_reserve(&self, origin: Origin) -> bool;

    fn is_reserve_origin(&self, origin: &Origin) -> (allowed: bool)
        ensures
            allowed == self.may_reserve(*origin),
    ;

    /// The account that an address names.
    spec fn named(&self, source: Self::Source) -> Option<AccountId>;

    fn lookup(&self, source: &Self::Source) -> (account: Option<AccountId>)
        ensures
            account == self.named(*source),
    ;

    /// The price of the smallest unit of an asset, and its time.
    spec fn oracle(&self, asset_id: CurrencyId) -> Option<(Price, Timestamp)>;

    fn get_price(&self, asset_id: CurrencyId) -> (price: Option<(Price, Timestamp)>)
        ensures
            price == self.oracle(asset_id),
    ;

    /// What an account holds of an asset.
    spec fn held(&self, asset_id: CurrencyId, who: AccountId) -> Balance;

    fn balance(&self, asset_id: CurrencyId, who: &AccountId) -> (balance: Balance)
        ensures
            balance == self.held(asset_id, *who),
    ;

    /// What can be taken of an asset from an account.
    spec fn reducible(&self, asset_id: CurrencyId, who: AccountId, keep_alive: bool) -> Balance;

    fn reducible_balance(&self, asset_id: CurrencyId, who: &AccountId, keep_alive: bool) -> (balance:
        Balance)
        ensures
            balance == self.reducible(asset_id, *who, keep_alive),
    ;

    /// The runtime after an amount of an asset has moved from one account to another, or the reason
    /// why it does not move.
    spec fn moved(
        &self,
        asset_id: CurrencyId,
        source: AccountId,
        dest: AccountId,
        amount: Balance,
        keep_alive: bool,
    ) -> Result<Self, DispatchError>;

    fn transfer(
        &self,
        asset_id: CurrencyId,
        source: &AccountId,
        dest: &AccountId,
        amount: Balance,
        keep_alive: bool,
    ) -> (after: Result<Self, DispatchError>)
        ensures
            after == self.moved(asset_id, *source, *dest, amount, keep_alive),
    ;

    /// Whether the parameters of a rate model are sound.
    spec fn sound(model: Self::RateModel) -> bool;

    fn check_model(model: &Self::RateModel) -> (sound: bool)
        ensures
            sound == Self::sound(*model),
    ;

    /// The storage after interest has accrued for so many seconds, or the reason why it does not
    /// accrue.
    spec fn accrued(
        &self,
        storage: StorageView<Self::RateModel>,
        delta_time: Timestamp,
    ) -> Result<StorageView<Self::RateModel>, DispatchError>;

    fn accrue_interest(&self, storage: &mut Storage<Self::RateModel>, delta_time: Timestamp) -> (
    result: DispatchResult)
        ensures
            (match result {
                Ok(_) => Ok(final(storage)@),
                Err(error) => Err(error),
            }) == self.accrued(old(storage)@, delta_time),
    ;

    /// The weight of the accrual of interest in one market.
    spec fn accrual_weight() -> Weight;

    fn accrue_interest_weight() -> (weight: Weight)
        ensures
            weight == Self::accrual_weight(),
    ;
}

}
