//! Everything that the pallet remembers between calls.

use crate::fixed::{FixedU128, Rate, Ratio};
use crate::storage_map::StorageMap;
use crate::types::{
    AccountId, Balance, BorrowSnapshot, CurrencyId, Deposits, EarnedSnapshot, Market, MarketState,
    Position, Timestamp,
};
use vstd::prelude::*;

verus! {

/// The storage of the pallet.
pub struct Storage<M: Copy> {
    /// The timestamp of the last calculation of accrued interest.
    pub last_accrued_timestamp: Timestamp,
    /// Total number of vouchers in circulation, by asset.
    pub total_supply: StorageMap<CurrencyId, Balance>,
    /// Total amount of outstanding borrows, by asset.
    pub total_borrows: StorageMap<CurrencyId, Balance>,
    /// Total amount of reserves, by asset.
    pub total_reserves: StorageMap<CurrencyId, Balance>,
    /// The outstanding borrow of an account in an asset.
    pub account_borrows: StorageMap<Position, BorrowSnapshot>,
    /// The deposits of an account in an asset.
    pub account_deposits: StorageMap<Position, Deposits>,
    /// The interest that an account has earned on its deposits in an asset.
    pub account_earned: StorageMap<Position, EarnedSnapshot>,
    /// Accumulator of the total earned interest rate since the opening of the market.
    pub borrow_index: StorageMap<CurrencyId, Rate>,
    /// The exchange rate from the vouchers to the underlying asset.
    pub exchange_rate: StorageMap<CurrencyId, Rate>,
    /// The rate that borrowers pay, by asset.
    pub borrow_rate: StorageMap<CurrencyId, Rate>,
    /// The rate that suppliers earn, by asset.
    pub supply_rate: StorageMap<CurrencyId, Rate>,
    /// Borrow utilization ratio, by asset.
    pub utilization_ratio: StorageMap<CurrencyId, Ratio>,
    /// The market of an asset.
    pub markets: StorageMap<CurrencyId, Market<M>>,
    /// The underlying asset of a voucher token.
    pub underlying_asset_id: StorageMap<CurrencyId, CurrencyId>,
}

/// The storage as mathematical maps. The markets have an order besides: the one in which they are
/// walked.
#[verifier::ext_equal]
pub struct StorageView<M> {
    pub last_accrued_timestamp: Timestamp,
    pub total_supply: Map<CurrencyId, Balance>,
    pub total_borrows: Map<CurrencyId, Balance>,
    pub total_reserves: Map<CurrencyId, Balance>,
    pub account_borrows: Map<Position, BorrowSnapshot>,
    pub account_deposits: Map<Position, Deposits>,
    pub account_earned: Map<Position, EarnedSnapshot>,
    pub borrow_index: Map<CurrencyId, Rate>,
    pub exchange_rate: Map<CurrencyId, Rate>,
    pub borrow_rate: Map<CurrencyId, Rate>,
    pub supply_rate: Map<CurrencyId, Rate>,
    pub utilization_ratio: Map<CurrencyId, Ratio>,
    pub markets: Map<CurrencyId, Market<M>>,
    pub market_order: Seq<CurrencyId>,
    pub underlying_asset_id: Map<CurrencyId, CurrencyId>,
}

impl<M: Copy> View for Storage<M> {
    type V = StorageView<M>;

    open spec fn view(&self) -> StorageView<M> {
        StorageView {
            last_accrued_timestamp: self.last_accrued_timestamp,
            total_supply: self.total_supply@,
            total_borrows: self.total_borrows@,
            total_reserves: self.total_reserves@,
            account_borrows: self.account_borrows@,
            account_deposits: self.account_deposits@,
            account_earned: self.account_earned@,
            borrow_index: self.borrow_index@,
            exchange_rate: self.exchange_rate@,
            borrow_rate: self.borrow_rate@,
            supply_rate: self.supply_rate@,
            utilization_ratio: self.utilization_ratio@,
            markets: self.markets@,
            market_order: self.markets.order(),
            underlying_asset_id: self.underlying_asset_id@,
        }
    }
}

/// The value of a key, or another value where the map holds none.
pub open spec fn value_or<K, V>(map: Map<K, V>, key: K, otherwise: V) -> V {
    if map.contains_key(key) {
        map[key]
    } else {
        otherwise
    }
}

/// The storage key of an account in an asset.
pub open spec fn position(asset_id: CurrencyId, who: AccountId) -> Position {
    Position { asset_id, who }
}

/// The storage that holds nothing.
pub open spec fn empty_storage<M>() -> StorageView<M> {
    StorageView {
        last_accrued_timestamp: 0,
        total_supply: Map::empty(),
        total_borrows: Map::empty(),
        total_reserves: Map::empty(),
        account_borrows: Map::empty(),
        account_deposits: Map::empty(),
        account_earned: Map::empty(),
        borrow_index: Map::empty(),
        exchange_rate: Map::empty(),
        borrow_rate: Map::empty(),
        supply_rate: Map::empty(),
        utilization_ratio: Map::empty(),
        markets: Map::empty(),
        market_order: Seq::empty(),
        underlying_asset_id: Map::empty(),
    }
}

impl<M> StorageView<M> {
    /// The markets are walked without repetition, and all of them are.
    pub open spec fn walks_all_markets(self) -> bool {
        &&& self.market_order.no_duplicates()
        &&& forall|asset_id: CurrencyId| #[trigger]
            self.markets.contains_key(asset_id) <==> self.market_order.contains(asset_id)
    }

    /// Whether an asset has an active market.
    pub open spec fn is_active(self, asset_id: CurrencyId) -> bool {
        self.markets.contains_key(asset_id) && self.markets[asset_id].state == MarketState::Active
    }

    /// The assets with an active market, in the order in which they are walked.
    pub open spec fn active_ids(self) -> Seq<CurrencyId> {
        self.market_order.filter(|asset_id: CurrencyId| self.is_active(asset_id))
    }

    /// The vouchers in circulation.
    pub open spec fn supply(self, asset_id: CurrencyId) -> Balance {
        value_or(self.total_supply, asset_id, 0)
    }

    /// The outstanding borrows.
    pub open spec fn borrows(self, asset_id: CurrencyId) -> Balance {
        value_or(self.total_borrows, asset_id, 0)
    }

    /// The reserves.
    pub open spec fn reserves(self, asset_id: CurrencyId) -> Balance {
        value_or(self.total_reserves, asset_id, 0)
    }

    /// The debt of an account at the time of its last change.
    pub open spec fn debt(self, asset_id: CurrencyId, who: AccountId) -> BorrowSnapshot {
        value_or(self.account_borrows, position(asset_id, who), crate::types::no_debt())
    }

    /// The deposits of an account.
    pub open spec fn deposits(self, asset_id: CurrencyId, who: AccountId) -> Deposits {
        value_or(self.account_deposits, position(asset_id, who), crate::types::no_deposits())
    }

    /// The earnings of an account at the time of their last change.
    pub open spec fn earned(self, asset_id: CurrencyId, who: AccountId) -> EarnedSnapshot {
        value_or(self.account_earned, position(asset_id, who), crate::types::no_earnings())
    }

    /// The interest index of an asset.
    pub open spec fn index(self, asset_id: CurrencyId) -> Rate {
        value_or(self.borrow_index, asset_id, FixedU128 { inner: 0 })
    }

    /// The exchange rate of an asset.
    pub open spec fn rate(self, asset_id: CurrencyId) -> Rate {
        value_or(self.exchange_rate, asset_id, FixedU128 { inner: 0 })
    }
}

impl<M: Copy> Storage<M> {
    /// A storage that holds nothing.
    pub fn new() -> (storage: Self)
        ensures
            storage@ == empty_storage::<M>(),
    {
        Storage {
            last_accrued_timestamp: 0,
            total_supply: StorageMap::new(),
            total_borrows: StorageMap::new(),
            total_reserves: StorageMap::new(),
            account_borrows: StorageMap::new(),
            account_deposits: StorageMap::new(),
            account_earned: StorageMap::new(),
            borrow_index: StorageMap::new(),
            exchange_rate: StorageMap::new(),
            borrow_rate: StorageMap::new(),
            supply_rate: StorageMap::new(),
            utilization_ratio: StorageMap::new(),
            markets: StorageMap::new(),
            underlying_asset_id: StorageMap::new(),
        }
    }

    /// Another storage that holds the same.
    pub fn copied(&self) -> (storage: Self)
        ensures
            storage@ == self@,
    {
        Storage {
            last_accrued_timestamp: self.last_accrued_timestamp,
            total_supply: self.total_supply.copied(),
            total_borrows: self.total_borrows.copied(),
            total_reserves: self.total_reserves.copied(),
            account_borrows: self.account_borrows.copied(),
            account_deposits: self.account_deposits.copied(),
            account_earned: self.account_earned.copied(),
            borrow_index: self.borrow_index.copied(),
            exchange_rate: self.exchange_rate.copied(),
            borrow_rate: self.borrow_rate.copied(),
            supply_rate: self.supply_rate.copied(),
            utilization_ratio: self.utilization_ratio.copied(),
            markets: self.markets.copied(),
            underlying_asset_id: self.underlying_asset_id.copied(),
        }
    }
}

}
