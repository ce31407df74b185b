//! The pallet: its storage, the runtime around it, and the events that it has reported.

use crate::account::{account_of, pallet_account, pallet_account_bytes};
use crate::config::Config;
use crate::fixed::{FixedU128, Rate, Ratio};
use crate::storage::{empty_storage, value_or, Storage, StorageView};
use crate::types::{
    refused, AccountId, Balance, BorrowSnapshot, CurrencyId, Deposits, DispatchError,
    DispatchResult, EarnedSnapshot, Error, Event, Market, MarketState, Origin, Position, Timestamp,
};
use vstd::prelude::*;

verus! {

/// A lending pool: its storage, the runtime around it, and the events that it has reported.
pub struct Pallet<T: Config> {
    pub runtime: T,
    pub storage: Storage<T::RateModel>,
    pub events: Vec<Event<T::RateModel>>,
}

/// A pallet as a mathematical value.
#[verifier::ext_equal]
pub struct State<T: Config> {
    pub runtime: T,
    pub storage: StorageView<T::RateModel>,
    pub events: Seq<Event<T::RateModel>>,
}

impl<T: Config> View for Pallet<T> {
    type V = State<T>;

    open spec fn view(&self) -> State<T> {
        State { runtime: self.runtime, storage: self.storage@, events: self.events@ }
    }
}

/// The account that signed a call.
pub open spec fn signer(origin: Origin) -> Result<AccountId, DispatchError> {
    match origin {
        Origin::Signed(who) => Ok(who),
        _ => Err(DispatchError::BadOrigin),
    }
}

/// The account that signed a call, where one did.
pub fn ensure_signed(origin: Origin) -> (who: Result<AccountId, DispatchError>)
    ensures
        who == signer(origin),
{
    match origin {
        Origin::Signed(who) => Ok(who),
        _ => Err(DispatchError::BadOrigin),
    }
}

/// What a call may do: where it succeeds, the pallet is in the state that the call leads to; where
/// it is refused, nothing has changed.
pub open spec fn settled<T: Config>(
    before: Pallet<T>,
    after: Pallet<T>,
    result: DispatchResult,
    outcome: Result<State<T>, DispatchError>,
) -> bool {
    match outcome {
        Ok(state) => result is Ok && after@ == state,
        Err(error) => result == Err::<(), DispatchError>(error) && after == before,
    }
}

impl<T: Config> State<T> {
    /// The state with one more event.
    pub open spec fn reporting(self, event: Event<T::RateModel>) -> State<T> {
        State { events: self.events.push(event), ..self }
    }

    /// The account of the pallet.
    pub open spec fn account(self) -> AccountId {
        account_of(pallet_account_bytes(T::id()@))
    }

    /// The market of an asset, or the refusal that there is none.
    pub open spec fn market(self, asset_id: CurrencyId) -> Result<
        Market<T::RateModel>,
        DispatchError,
    > {
        if self.storage.markets.contains_key(asset_id) {
            Ok(self.storage.markets[asset_id])
        } else {
            Err(refused(Error::MarketDoesNotExist))
        }
    }

    /// The active market of an asset, or the refusal that there is none.
    pub open spec fn active_market(self, asset_id: CurrencyId) -> Result<
        Market<T::RateModel>,
        DispatchError,
    > {
        if self.storage.is_active(asset_id) {
            Ok(self.storage.markets[asset_id])
        } else {
            Err(refused(Error::MarketNotActivated))
        }
    }
}

impl<T: Config> Pallet<T> {
    /// A pallet without markets.
    pub fn new(runtime: T) -> (pallet: Self)
        ensures
            pallet@ == (State::<T> {
                runtime,
                storage: empty_storage(),
                events: Seq::empty(),
            }),
    {
        Pallet { runtime, storage: Storage::new(), events: Vec::new() }
    }

    /// The account of the pallet.
    pub fn account_id(&self) -> (account: AccountId)
        ensures
            account == self@.account(),
    {
        pallet_account(T::pallet_id())
    }

    /// Returns a stored market, or an error where it does not exist.
    pub fn market(&self, asset_id: CurrencyId) -> (market: Result<
        Market<T::RateModel>,
        DispatchError,
    >)
        ensures
            market == self@.market(asset_id),
    {
        match self.storage.markets.get(&asset_id) {
            Some(market) => Ok(market),
            None => Err(DispatchError::Module(Error::MarketDoesNotExist)),
        }
    }

    /// Returns a stored market that is active, or an error where there is none.
    pub fn ensure_active_market(&self, asset_id: CurrencyId) -> (market: Result<
        Market<T::RateModel>,
        DispatchError,
    >)
        ensures
            market == self@.active_market(asset_id),
    {
        match self.storage.markets.get(&asset_id) {
            Some(market) => match market.state {
                MarketState::Active => Ok(market),
                _ => Err(DispatchError::Module(Error::MarketNotActivated)),
            },
            None => Err(DispatchError::Module(Error::MarketNotActivated)),
        }
    }

    /// All markets that are active, in the order in which they are walked.
    pub fn active_markets(&self) -> (active: Vec<(CurrencyId, Market<T::RateModel>)>)
        ensures
            active@.len() == self@.storage.active_ids().len(),
            forall|i: int|
                0 <= i < active@.len() ==> (#[trigger] active@[i]).0
                    == self@.storage.active_ids()[i] && active@[i].1
                    == self@.storage.markets[active@[i].0] && self@.storage.is_active(active@[i].0),
    {
        let mut active: Vec<(CurrencyId, Market<T::RateModel>)> = Vec::new();
        let ghost storage = self@.storage;
        let ghost order = storage.market_order;
        let ghost is_active = |asset_id: CurrencyId| storage.is_active(asset_id);
        let ghost mut ids: Seq<CurrencyId> = Seq::empty();
        let len: usize = self.storage.markets.len();
        let mut i: usize = 0;
        assert(ids =~= order.take(0).filter(is_active)) by {
            reveal(Seq::filter);
        }
        while i < len
            invariant
                i <= len,
                len == order.len(),
                storage == self@.storage,
                order == self.storage.markets.order(),
                forall|key: CurrencyId| #[trigger]
                    self.storage.markets@.contains_key(key) <==> order.contains(key),
                is_active == (|asset_id: CurrencyId| storage.is_active(asset_id)),
                ids == order.take(i as int).filter(is_active),
                active@.len() == ids.len(),
                forall|j: int|
                    0 <= j < active@.len() ==> (#[trigger] active@[j]).0 == ids[j] && active@[j].1
                        == storage.markets[active@[j].0] && storage.is_active(active@[j].0),
            decreases len - i,
        {
            let asset_id: CurrencyId = self.storage.markets.key_at(i);
            proof {
                reveal(Seq::filter);
                assert(order.take(i + 1).drop_last() =~= order.take(i as int));
                assert(order.take(i + 1).last() == asset_id);
            }
            if let Ok(market) = self.ensure_active_market(asset_id) {
                active.push((asset_id, market));
                proof {
                    ids = ids.push(asset_id);
                }
            }
            i += 1;
        }
        assert(order.take(i as int) =~= order);
        active
    }

    /// The timestamp of the last calculation of accrued interest.
    pub fn last_accrued_timestamp(&self) -> (timestamp: Timestamp)
        ensures
            timestamp == self@.storage.last_accrued_timestamp,
    {
        self.storage.last_accrued_timestamp
    }

    /// Total number of vouchers of an asset in circulation.
    pub fn total_supply(&self, asset_id: CurrencyId) -> (value: Balance)
        ensures
            value == self@.storage.supply(asset_id),
    {
        match self.storage.total_supply.get(&asset_id) {
            Some(value) => value,
            None => 0,
        }
    }

    /// Total amount of outstanding borrows of an asset.
    pub fn total_borrows(&self, asset_id: CurrencyId) -> (value: Balance)
        ensures
            value == self@.storage.borrows(asset_id),
    {
        match self.storage.total_borrows.get(&asset_id) {
            Some(value) => value,
            None => 0,
        }
    }

    /// Total amount of reserves of an asset.
    pub fn total_reserves(&self, asset_id: CurrencyId) -> (value: Balance)
        ensures
            value == self@.storage.reserves(asset_id),
    {
        match self.storage.total_reserves.get(&asset_id) {
            Some(value) => value,
            None => 0,
        }
    }

    /// The outstanding borrow of an account in an asset, as last stored.
    pub fn account_borrows(&self, asset_id: CurrencyId, who: &AccountId) -> (value: BorrowSnapshot)
        ensures
            value == self@.storage.debt(asset_id, *who),
    {
        match self.storage.account_borrows.get(&Position { asset_id, who: *who }) {
            Some(value) => value,
            None => BorrowSnapshot::default(),
        }
    }

    /// The deposits of an account in an asset.
    pub fn account_deposits(&self, asset_id: CurrencyId, who: &AccountId) -> (value: Deposits)
        ensures
            value == self@.storage.deposits(asset_id, *who),
    {
        match self.storage.account_deposits.get(&Position { asset_id, who: *who }) {
            Some(value) => value,
            None => Deposits::default(),
        }
    }

    /// The earnings of an account in an asset, as last stored.
    pub fn account_earned(&self, asset_id: CurrencyId, who: &AccountId) -> (value: EarnedSnapshot)
        ensures
            value == self@.storage.earned(asset_id, *who),
    {
        match self.storage.account_earned.get(&Position { asset_id, who: *who }) {
            Some(value) => value,
            None => EarnedSnapshot::default(),
        }
    }

    /// The interest index of an asset.
    pub fn borrow_index(&self, asset_id: CurrencyId) -> (value: Rate)
        ensures
            value == self@.storage.index(asset_id),
    {
        match self.storage.borrow_index.get(&asset_id) {
            Some(value) => value,
            None => FixedU128::zero(),
        }
    }

    /// The exchange rate from the vouchers of an asset to the asset.
    pub fn exchange_rate(&self, asset_id: CurrencyId) -> (value: Rate)
        ensures
            value == self@.storage.rate(asset_id),
    {
        match self.storage.exchange_rate.get(&asset_id) {
            Some(value) => value,
            None => FixedU128::zero(),
        }
    }

    /// The rate that the borrowers of an asset pay.
    pub fn borrow_rate(&self, asset_id: CurrencyId) -> (value: Rate)
        ensures
            value == value_or(self@.storage.borrow_rate, asset_id, FixedU128 { inner: 0 }),
    {
        match self.storage.borrow_rate.get(&asset_id) {
            Some(value) => value,
            None => FixedU128::zero(),
        }
    }

    /// The rate that the suppliers of an asset earn.
    pub fn supply_rate(&self, asset_id: CurrencyId) -> (value: Rate)
        ensures
            value == value_or(self@.storage.supply_rate, asset_id, FixedU128 { inner: 0 }),
    {
        match self.storage.supply_rate.get(&asset_id) {
            Some(value) => value,
            None => FixedU128::zero(),
        }
    }

    /// The part of an asset that is borrowed.
    pub fn utilization_ratio(&self, asset_id: CurrencyId) -> (value: Ratio)
        ensures
            self@.storage.utilization_ratio.contains_key(asset_id) ==> value
                == self@.storage.utilization_ratio[asset_id],
            !self@.storage.utilization_ratio.contains_key(asset_id) ==> value.parts() == 0,
    {
        match self.storage.utilization_ratio.get(&asset_id) {
            Some(value) => value,
            None => Ratio::from_parts(0),
        }
    }
}

}
