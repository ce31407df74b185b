//! Calls of the pallet in a small runtime.

use loans::call::Call;
use loans::config::Config;
use loans::fixed::{FixedU128, Price, Ratio, DIV};
use loans::pallet::{ensure_signed, Pallet};
use loans::reserves::admin_of;
use loans::storage::{Storage, StorageView};
use loans::types::{
    AccountId, ArithmeticError, Balance, BorrowSnapshot, CurrencyId, Deposits, DispatchError,
    DispatchResult, EarnedSnapshot, Error, Event, Market, MarketState, Origin, Position, Timestamp,
    TokenError, Weight,
};

const DOT: CurrencyId = 1;
const KSM: CurrencyId = 2;
const USDT: CurrencyId = 3;
const ALICE: AccountId = AccountId { high: 0, low: 1 };
const BOB: AccountId = AccountId { high: 0, low: 2 };
const CHARLIE: AccountId = AccountId { high: 0, low: 3 };
const ADMIN: AccountId = AccountId { high: 0, low: 9 };
const MAX: u128 = u128::MAX;

/// A runtime with balances and prices in lists. Addresses are the low words of accounts.
#[derive(Clone, Debug, PartialEq)]
struct Runtime {
    balances: Vec<(CurrencyId, AccountId, Balance)>,
    prices: Vec<(CurrencyId, u128)>,
    accrual: DispatchResult,
}

impl Runtime {
    fn new() -> Runtime {
        Runtime {
            balances: Vec::new(),
            prices: vec![(DOT, DIV), (KSM, DIV), (USDT, DIV)],
            accrual: Ok(()),
        }
    }

    fn set_balance(&mut self, asset_id: CurrencyId, who: AccountId, amount: Balance) {
        self.balances.retain(|entry| (entry.0, entry.1) != (asset_id, who));
        self.balances.push((asset_id, who, amount));
    }

    fn set_price(&mut self, asset_id: CurrencyId, price: u128) {
        self.prices.retain(|entry| entry.0 != asset_id);
        self.prices.push((asset_id, price));
    }
}

impl Config for Runtime {
    /// A model is sound up to one hundred.
    type RateModel = u32;
    type Source = u128;

    fn id() -> [u8; 8] {
        *b"par/loan"
    }

    fn pallet_id() -> [u8; 8] {
        *b"par/loan"
    }

    fn may_update(&self, origin: Origin) -> bool {
        self.is_update_origin(&origin)
    }

    fn is_update_origin(&self, origin: &Origin) -> bool {
        *origin == Origin::Root || *origin == Origin::Signed(ADMIN)
    }

    fn may_reserve(&self, origin: Origin) -> bool {
        self.is_reserve_origin(&origin)
    }

    fn is_reserve_origin(&self, origin: &Origin) -> bool {
        *origin == Origin::Root || *origin == Origin::Signed(ADMIN)
    }

    fn named(&self, source: u128) -> Option<AccountId> {
        self.lookup(&source)
    }

    fn lookup(&self, source: &u128) -> Option<AccountId> {
        if *source < 100 {
            Some(AccountId { high: 0, low: *source })
        } else {
            None
        }
    }

    fn oracle(&self, asset_id: CurrencyId) -> Option<(Price, Timestamp)> {
        self.get_price(asset_id)
    }

    fn get_price(&self, asset_id: CurrencyId) -> Option<(Price, Timestamp)> {
        self.prices
            .iter()
            .find(|entry| entry.0 == asset_id)
            .map(|entry| (FixedU128::from_inner(entry.1), 0))
    }

    fn held(&self, asset_id: CurrencyId, who: AccountId) -> Balance {
        self.balance(asset_id, &who)
    }

    fn balance(&self, asset_id: CurrencyId, who: &AccountId) -> Balance {
        self.balances
            .iter()
            .find(|entry| entry.0 == asset_id && entry.1 == *who)
            .map_or(0, |entry| entry.2)
    }

    fn reducible(&self, asset_id: CurrencyId, who: AccountId, keep_alive: bool) -> Balance {
        self.reducible_balance(asset_id, &who, keep_alive)
    }

    fn reducible_balance(&self, asset_id: CurrencyId, who: &AccountId, keep_alive: bool) -> Balance {
        let balance = self.balance(asset_id, who);
        if keep_alive {
            balance.saturating_sub(1)
        } else {
            balance
        }
    }

    fn moved(
        &self,
        asset_id: CurrencyId,
        source: AccountId,
        dest: AccountId,
        amount: Balance,
        keep_alive: bool,
    ) -> Result<Self, DispatchError> {
        self.transfer(asset_id, &source, &dest, amount, keep_alive)
    }

    fn transfer(
        &self,
        asset_id: CurrencyId,
        source: &AccountId,
        dest: &AccountId,
        amount: Balance,
        keep_alive: bool,
    ) -> Result<Self, DispatchError> {
        if self.reducible_balance(asset_id, source, keep_alive) < amount {
            return Err(DispatchError::Token(TokenError::NoFunds));
        }
        let mut after = self.clone();
        after.set_balance(asset_id, *source, self.balance(asset_id, source) - amount);
        let received = after.balance(asset_id, dest) + amount;
        after.set_balance(asset_id, *dest, received);
        Ok(after)
    }

    fn sound(model: u32) -> bool {
        Self::check_model(&model)
    }

    fn check_model(model: &u32) -> bool {
        *model <= 100
    }

    fn accrued(
        &self,
        _storage: StorageView<u32>,
        _delta_time: Timestamp,
    ) -> Result<StorageView<u32>, DispatchError> {
        unreachable!()
    }

    /// Raises the index of each market by a tenth and its exchange rate by a twentieth.
    fn accrue_interest(&self, storage: &mut Storage<u32>, delta_time: Timestamp) -> DispatchResult {
        for i in 0..storage.markets.len() {
            let asset_id = storage.markets.key_at(i);
            let index = storage.borrow_index.get(&asset_id).unwrap();
            storage.borrow_index.insert(asset_id, FixedU128::from_inner(index.inner / 10 * 11));
            let rate = storage.exchange_rate.get(&asset_id).unwrap();
            storage.exchange_rate.insert(asset_id, FixedU128::from_inner(rate.inner / 20 * 21));
            storage
                .borrow_rate
                .insert(asset_id, FixedU128::from_inner(delta_time as u128));
        }
        self.accrual
    }

    fn accrual_weight() -> Weight {
        7
    }

    fn accrue_interest_weight() -> Weight {
        7
    }
}

fn market(ptoken_id: CurrencyId) -> Market<u32> {
    Market {
        collateral_factor: Ratio::from_parts(500_000),
        reserve_factor: Ratio::from_parts(150_000),
        close_factor: Ratio::from_parts(500_000),
        liquidate_incentive: FixedU128::from_inner(DIV / 10 * 11),
        rate_model: 5,
        state: MarketState::Pending,
        cap: 1_000_000_000,
        ptoken_id,
    }
}

/// Three active markets, and three accounts with a million of each asset.
fn pallet() -> Pallet<Runtime> {
    let mut pallet = Pallet::new(Runtime::new());
    for asset_id in [DOT, KSM, USDT] {
        assert_eq!(pallet.add_market(Origin::Root, asset_id, market(1000 + asset_id)), Ok(()));
        assert_eq!(pallet.activate_market(Origin::Root, asset_id), Ok(()));
        for who in [ALICE, BOB, CHARLIE] {
            pallet.runtime.set_balance(asset_id, who, 1_000_000);
        }
    }
    pallet.events.clear();
    pallet
}

/// Alice has 200,000 as collateral, and Bob has supplied 500,000 that can be borrowed.
fn lending() -> Pallet<Runtime> {
    let mut pallet = pallet();
    assert_eq!(pallet.mint(by(ALICE), DOT, 200_000), Ok(()));
    assert_eq!(pallet.collateral_asset(by(ALICE), DOT, true), Ok(()));
    assert_eq!(pallet.mint(by(BOB), KSM, 500_000), Ok(()));
    pallet.events.clear();
    pallet
}

fn by(who: AccountId) -> Origin {
    Origin::Signed(who)
}

fn refusal(error: Error) -> DispatchResult {
    Err(DispatchError::Module(error))
}

fn overflow() -> DispatchError {
    DispatchError::Arithmetic(ArithmeticError::Overflow)
}

fn underflow() -> DispatchError {
    DispatchError::Arithmetic(ArithmeticError::Underflow)
}

fn at(asset_id: CurrencyId, who: AccountId) -> Position {
    Position { asset_id, who }
}

fn vouchers(pallet: &Pallet<Runtime>, asset_id: CurrencyId, who: AccountId) -> Balance {
    pallet.account_deposits(asset_id, &who).voucher_balance
}

fn cash(pallet: &Pallet<Runtime>, asset_id: CurrencyId, who: AccountId) -> Balance {
    pallet.runtime.balance(asset_id, &who)
}

/// Everything that a refused call must leave alone.
fn everything(pallet: &Pallet<Runtime>) -> (Runtime, Vec<u128>, Vec<Event<u32>>) {
    let mut numbers = vec![pallet.last_accrued_timestamp() as u128];
    for asset_id in [DOT, KSM, USDT, 1001, 1002, 1003] {
        numbers.push(pallet.total_supply(asset_id));
        numbers.push(pallet.total_borrows(asset_id));
        numbers.push(pallet.total_reserves(asset_id));
        numbers.push(pallet.exchange_rate(asset_id).inner);
        numbers.push(pallet.borrow_index(asset_id).inner);
        numbers.push(pallet.borrow_rate(asset_id).inner);
        numbers.push(pallet.supply_rate(asset_id).inner);
        numbers.push(pallet.utilization_ratio(asset_id).deconstruct() as u128);
        numbers.push(pallet.market(asset_id).map_or(0, |market| market.cap));
        for who in [ALICE, BOB, CHARLIE, ADMIN] {
            let borrows = pallet.account_borrows(asset_id, &who);
            numbers.push(borrows.principal);
            numbers.push(borrows.borrow_index.inner);
            let deposits = pallet.account_deposits(asset_id, &who);
            numbers.push(deposits.voucher_balance);
            numbers.push(deposits.is_collateral as u128);
            let earned = pallet.account_earned(asset_id, &who);
            numbers.push(earned.exchange_rate_prior.inner);
            numbers.push(earned.total_earned_prior);
        }
    }
    (pallet.runtime.clone(), numbers, pallet.events.clone())
}

// Markets.

#[test]
fn new_pallet_is_empty() {
    let pallet = Pallet::new(Runtime::new());
    assert_eq!(pallet.market(DOT), Err(DispatchError::Module(Error::MarketDoesNotExist)));
    assert_eq!(pallet.active_markets().len(), 0);
    assert_eq!(pallet.last_accrued_timestamp(), 0);
    assert_eq!(pallet.account_deposits(DOT, &ALICE), Deposits::default());
    assert_eq!(pallet.account_borrows(DOT, &ALICE), BorrowSnapshot::default());
    assert_eq!(pallet.account_earned(DOT, &ALICE), EarnedSnapshot::default());
    assert_eq!(pallet.account_id().high, 0x6d6f646c_7061722f_6c6f616e_00000000);
    assert_eq!(pallet.get_account_liquidity(&ALICE), Ok((FixedU128::zero(), FixedU128::zero())));
}

#[test]
fn signer_is_required() {
    assert_eq!(ensure_signed(by(BOB)), Ok(BOB));
    assert_eq!(ensure_signed(Origin::Root), Err(DispatchError::BadOrigin));
    assert_eq!(ensure_signed(Origin::Unsigned), Err(DispatchError::BadOrigin));
}

#[test]
fn new_market_is_pending_and_bound() {
    let mut pallet = Pallet::new(Runtime::new());
    assert_eq!(pallet.add_market(Origin::Root, DOT, market(1001)), Ok(()));
    assert_eq!(pallet.market(DOT), Ok(market(1001)));
    assert_eq!(
        pallet.ensure_active_market(DOT),
        Err(DispatchError::Module(Error::MarketNotActivated))
    );
    assert_eq!(pallet.exchange_rate(DOT).inner, DIV / 50);
    assert_eq!(pallet.borrow_index(DOT), FixedU128::one());
    assert_eq!(pallet.underlying_id(1001), Ok(DOT));
    assert_eq!(pallet.ptoken_id(DOT), Ok(1001));
    assert_eq!(pallet.underlying_id(DOT), Err(DispatchError::Module(Error::InvalidPtokenId)));
    assert_eq!(pallet.ptoken_id(KSM), Err(DispatchError::Module(Error::MarketDoesNotExist)));
    assert_eq!(pallet.events, vec![Event::NewMarket(market(1001))]);
}

#[test]
fn market_is_added_once() {
    let mut pallet = pallet();
    assert_eq!(
        pallet.add_market(Origin::Root, DOT, market(7)),
        refusal(Error::MarketAlredyExists)
    );
    assert_eq!(pallet.market(DOT).unwrap().ptoken_id, 1001);
}

#[test]
fn unsound_market_is_refused() {
    let mut pallet = Pallet::new(Runtime::new());
    let sound = market(1001);
    let whole = Ratio::from_parts(1_000_000);
    let none = Ratio::from_parts(0);
    let cases = [
        (Market { state: MarketState::Active, ..sound }, Error::NewMarketMustHavePendingState),
        (Market { rate_model: 101, ..sound }, Error::InvalidRateModelParam),
        (Market { collateral_factor: none, ..sound }, Error::InvalidFactor),
        (Market { collateral_factor: whole, ..sound }, Error::InvalidFactor),
        (Market { reserve_factor: none, ..sound }, Error::InvalidFactor),
        (Market { reserve_factor: whole, ..sound }, Error::InvalidFactor),
        (Market { cap: 0, ..sound }, Error::ZeroCap),
    ];
    for (unsound, error) in cases {
        assert_eq!(pallet.add_market(Origin::Root, DOT, unsound), refusal(error));
        assert_eq!(pallet.market(DOT), Err(DispatchError::Module(Error::MarketDoesNotExist)));
        assert!(pallet.events.is_empty());
    }
    assert_eq!(pallet.add_market(Origin::Root, DOT, sound), Ok(()));
}

#[test]
fn voucher_token_is_used_once() {
    let mut pallet = Pallet::new(Runtime::new());
    assert_eq!(pallet.add_market(Origin::Root, DOT, market(1001)), Ok(()));
    // of another market
    assert_eq!(
        pallet.add_market(Origin::Root, KSM, market(1001)),
        refusal(Error::InvalidPtokenId)
    );
    // an asset with a market
    assert_eq!(pallet.add_market(Origin::Root, KSM, market(DOT)), refusal(Error::InvalidPtokenId));
    assert_eq!(pallet.ensure_ptoken(1002), Ok(()));
    assert_eq!(pallet.add_market(Origin::Root, KSM, market(1002)), Ok(()));
    assert_eq!((pallet.underlying_id(1001), pallet.underlying_id(1002)), (Ok(DOT), Ok(KSM)));
}

#[test]
fn markets_change_only_by_the_update_origin() {
    let mut pallet = pallet();
    let before = everything(&pallet);
    let half = Ratio::from_parts(500_000);
    for origin in [Origin::Unsigned, by(ALICE)] {
        let bad = Err(DispatchError::BadOrigin);
        assert_eq!(pallet.add_market(origin, 4, market(1004)), bad);
        assert_eq!(pallet.activate_market(origin, DOT), bad);
        assert_eq!(pallet.update_rate_model(origin, DOT, 1), bad);
        assert_eq!(
            pallet.update_market(origin, DOT, half, half, half, FixedU128::one(), 1),
            bad
        );
        assert_eq!(pallet.force_update_market(origin, DOT, market(1)), bad);
    }
    assert_eq!(everything(&pallet), before);
    assert_eq!(pallet.update_rate_model(by(ADMIN), DOT, 1), Ok(()));
}

#[test]
fn activation_opens_a_market_once() {
    let mut pallet = Pallet::new(Runtime::new());
    assert_eq!(
        pallet.activate_market(Origin::Root, DOT),
        refusal(Error::MarketDoesNotExist)
    );
    assert_eq!(pallet.add_market(Origin::Root, DOT, market(1001)), Ok(()));
    assert_eq!(pallet.activate_market(Origin::Root, DOT), Ok(()));
    let active = Market { state: MarketState::Active, ..market(1001) };
    assert_eq!(pallet.ensure_active_market(DOT), Ok(active));
    assert_eq!(pallet.events.len(), 2);
    assert_eq!(pallet.events[1], Event::ActivatedMarket(DOT));
    // once more: nothing happens
    assert_eq!(pallet.activate_market(Origin::Root, DOT), Ok(()));
    assert_eq!(pallet.market(DOT), Ok(active));
    assert_eq!(pallet.events.len(), 2);
}

#[test]
fn active_markets_are_walked_in_order() {
    let mut pallet = pallet();
    assert_eq!(pallet.add_market(Origin::Root, 9, market(1009)), Ok(()));
    assert_eq!(pallet.add_market(Origin::Root, 4, market(1004)), Ok(()));
    assert_eq!(pallet.activate_market(Origin::Root, 4), Ok(()));
    let ids: Vec<CurrencyId> = pallet.active_markets().iter().map(|entry| entry.0).collect();
    assert_eq!(ids, vec![DOT, KSM, USDT, 4]);
}

#[test]
fn rate_model_is_replaced() {
    let mut pallet = pallet();
    assert_eq!(
        pallet.update_rate_model(Origin::Root, DOT, 101),
        refusal(Error::InvalidRateModelParam)
    );
    assert_eq!(
        pallet.update_rate_model(Origin::Root, 8, 3),
        refusal(Error::MarketDoesNotExist)
    );
    assert_eq!(pallet.update_rate_model(Origin::Root, DOT, 3), Ok(()));
    let expected = Market { rate_model: 3, state: MarketState::Active, ..market(1001) };
    assert_eq!(pallet.market(DOT), Ok(expected));
    assert_eq!(pallet.events, vec![Event::UpdatedMarket(expected)]);
}

#[test]
fn new_parameters_keep_state_token_and_model() {
    let mut pallet = pallet();
    let part = |percent: u32| Ratio::from_parts(percent * 10_000);
    let two = FixedU128::from_inner(2 * DIV);
    let cases = [
        (part(0), part(10), 5, Error::InvalidFactor),
        (part(100), part(10), 5, Error::InvalidFactor),
        (part(10), part(0), 5, Error::InvalidFactor),
        (part(10), part(100), 5, Error::InvalidFactor),
        (part(10), part(10), 0, Error::ZeroCap),
    ];
    for (collateral, reserve, cap, error) in cases {
        assert_eq!(
            pallet.update_market(Origin::Root, DOT, collateral, reserve, part(100), two, cap),
            refusal(error)
        );
    }
    assert_eq!(
        pallet.update_market(Origin::Root, 8, part(30), part(20), part(100), two, 5),
        refusal(Error::MarketDoesNotExist)
    );
    assert_eq!(
        pallet.update_market(Origin::Root, DOT, part(30), part(20), part(100), two, 5),
        Ok(())
    );
    let expected = Market {
        collateral_factor: part(30),
        reserve_factor: part(20),
        close_factor: part(100),
        liquidate_incentive: two,
        rate_model: 5,
        state: MarketState::Active,
        cap: 5,
        ptoken_id: 1001,
    };
    assert_eq!(pallet.market(DOT), Ok(expected));
    assert_eq!(pallet.events, vec![Event::UpdatedMarket(expected)]);
}

#[test]
fn market_is_replaced_by_force() {
    let mut pallet = pallet();
    let unsound = Market { rate_model: 101, ..market(1001) };
    assert_eq!(
        pallet.force_update_market(Origin::Root, DOT, unsound),
        refusal(Error::InvalidRateModelParam)
    );
    assert_eq!(
        pallet.force_update_market(Origin::Root, 8, market(1)),
        refusal(Error::MarketDoesNotExist)
    );
    let replacement = Market { cap: 0, ..market(77) };
    assert_eq!(pallet.force_update_market(Origin::Root, DOT, replacement), Ok(()));
    assert_eq!(pallet.market(DOT), Ok(replacement));
    assert_eq!(pallet.events, vec![Event::UpdatedMarket(replacement)]);
}

#[test]
fn market_is_mutated_in_place() {
    let mut pallet = pallet();
    let changed = pallet.mutate_market(KSM, |stored| {
        stored.cap = 12;
        *stored
    });
    assert_eq!(changed.unwrap().cap, 12);
    assert_eq!(pallet.market(KSM).unwrap().cap, 12);
    // What is returned need not be what is stored.
    let returned = pallet.mutate_market(KSM, |stored| {
        let before = *stored;
        stored.cap = 13;
        before
    });
    assert_eq!(returned.unwrap().cap, 12);
    assert_eq!(pallet.market(KSM).unwrap().cap, 13);
    let missing = pallet.mutate_market(8, |stored| *stored);
    assert_eq!(missing, Err(DispatchError::Module(Error::MarketDoesNotExist)));
}

// Supplying and redeeming.

#[test]
fn supplier_receives_vouchers() {
    let mut pallet = pallet();
    assert_eq!(pallet.mint(by(ALICE), DOT, 200_000), Ok(()));
    // at fifty vouchers for one unit
    assert_eq!(vouchers(&pallet, DOT, ALICE), 10_000_000);
    assert_eq!(pallet.total_supply(DOT), 10_000_000);
    assert_eq!(cash(&pallet, DOT, ALICE), 800_000);
    assert_eq!(cash(&pallet, DOT, pallet.account_id()), 200_000);
    assert_eq!(pallet.events, vec![Event::Deposited(ALICE, DOT, 200_000)]);
    assert_eq!(pallet.mint(by(ALICE), DOT, 1), Ok(()));
    assert_eq!(vouchers(&pallet, DOT, ALICE), 10_000_050);
}

#[test]
fn supply_is_refused() {
    let mut pallet = pallet();
    assert_eq!(pallet.mint(by(ALICE), DOT, 1), Ok(()));
    let before = everything(&pallet);
    assert_eq!(pallet.mint(Origin::Root, DOT, 1), Err(DispatchError::BadOrigin));
    assert_eq!(pallet.mint(by(ALICE), 8, 1), refusal(Error::MarketNotActivated));
    assert_eq!(pallet.mint(by(ALICE), DOT, 1_000_000_000), refusal(Error::ExceededMarketCapacity));
    assert_eq!(pallet.mint(by(ALICE), DOT, MAX), Err(overflow()));
    assert_eq!(
        pallet.mint(by(ALICE), DOT, 1_000_000),
        Err(DispatchError::Token(TokenError::NoFunds))
    );
    assert_eq!(everything(&pallet), before);
}

#[test]
fn capacity_is_reached_exactly() {
    let mut pallet = pallet();
    let small = Market { cap: 100, state: MarketState::Active, ..market(1001) };
    assert_eq!(pallet.force_update_market(Origin::Root, DOT, small), Ok(()));
    assert_eq!(pallet.mint(by(ALICE), DOT, 101), refusal(Error::ExceededMarketCapacity));
    assert_eq!(pallet.mint(by(ALICE), DOT, 100), Ok(()));
    assert_eq!(pallet.mint(by(ALICE), DOT, 1), refusal(Error::ExceededMarketCapacity));
    assert_eq!(pallet.ensure_capacity(DOT, 0), Ok(()));
    assert_eq!(pallet.ensure_capacity(8, 0), refusal(Error::MarketDoesNotExist));
}

#[test]
fn supply_that_does_not_fit_changes_nothing() {
    let rate = FixedU128::from_inner(DIV / 50);
    // too many vouchers of the account
    let mut full = pallet();
    full.storage.account_deposits.insert(
        at(DOT, ALICE),
        Deposits { voucher_balance: MAX, is_collateral: false },
    );
    let seen = EarnedSnapshot { exchange_rate_prior: rate, total_earned_prior: 3 };
    full.storage.account_earned.insert(at(DOT, ALICE), seen);
    let before = everything(&full);
    assert_eq!(full.mint(by(ALICE), DOT, 1), Err(overflow()));
    assert_eq!(everything(&full), before);
    // too many vouchers in circulation
    let mut full = pallet();
    full.storage.total_supply.insert(DOT, MAX - 49);
    let before = everything(&full);
    assert_eq!(full.mint(by(ALICE), DOT, 1), Err(overflow()));
    assert_eq!(everything(&full), before);
    // no exchange rate
    let mut poor = pallet();
    poor.storage.exchange_rate.remove(&DOT);
    let before = everything(&poor);
    assert_eq!(poor.mint(by(ALICE), DOT, 1), Err(underflow()));
    assert_eq!(everything(&poor), before);
    // a falling exchange rate
    let mut falling = pallet();
    let higher = EarnedSnapshot {
        exchange_rate_prior: FixedU128::one(),
        total_earned_prior: 0,
    };
    falling.storage.account_earned.insert(at(DOT, ALICE), higher);
    assert_eq!(falling.mint(by(ALICE), DOT, 1), Err(overflow()));
}

#[test]
fn redeeming_undoes_supplying() {
    let mut pallet = pallet();
    assert_eq!(pallet.mint(by(ALICE), DOT, 200_000), Ok(()));
    assert_eq!(pallet.redeem(by(ALICE), DOT, 50_000), Ok(()));
    assert_eq!(vouchers(&pallet, DOT, ALICE), 7_500_000);
    assert_eq!(pallet.total_supply(DOT), 7_500_000);
    assert_eq!(cash(&pallet, DOT, ALICE), 850_000);
    assert_eq!(pallet.events[1], Event::Redeemed(ALICE, DOT, 50_000));
    assert_eq!(pallet.redeem(by(ALICE), DOT, 150_000), Ok(()));
    assert!(!pallet.storage.account_deposits.contains_key(&at(DOT, ALICE)));
    assert_eq!(pallet.total_supply(DOT), 0);
    assert_eq!(cash(&pallet, DOT, ALICE), 1_000_000);
}

#[test]
fn redemption_pays_what_the_vouchers_are_worth() {
    let mut pallet = pallet();
    // Three units of underlying for seven vouchers: amounts do not come out even.
    pallet.storage.exchange_rate.insert(DOT, FixedU128::saturating_from_rational(3, 7));
    assert_eq!(pallet.mint(by(ALICE), DOT, 100), Ok(()));
    assert_eq!(vouchers(&pallet, DOT, ALICE), 233);
    assert_eq!(pallet.redeem(by(ALICE), DOT, 100), Ok(()));
    assert_eq!(pallet.events[1], Event::Redeemed(ALICE, DOT, 99));
    assert_eq!(cash(&pallet, DOT, ALICE), 999_999);
}

#[test]
fn everything_is_redeemed() {
    let mut pallet = lending();
    assert_eq!(pallet.redeem_all(by(ALICE), DOT), Ok(()));
    assert!(!pallet.storage.account_deposits.contains_key(&at(DOT, ALICE)));
    assert_eq!(pallet.account_deposits(DOT, &ALICE), Deposits::default());
    assert_eq!(pallet.total_supply(DOT), 0);
    assert_eq!(cash(&pallet, DOT, ALICE), 1_000_000);
    assert_eq!(pallet.events, vec![Event::Redeemed(ALICE, DOT, 200_000)]);
    // of nothing, nothing
    assert_eq!(pallet.redeem_all(by(CHARLIE), DOT), Ok(()));
    assert_eq!(cash(&pallet, DOT, CHARLIE), 1_000_000);
    assert_eq!(pallet.redeem_all(Origin::Unsigned, DOT), Err(DispatchError::BadOrigin));
    assert_eq!(pallet.redeem_all(by(ALICE), 8), refusal(Error::MarketNotActivated));
}

#[test]
fn redemption_is_refused() {
    let mut pallet = lending();
    let before = everything(&pallet);
    assert_eq!(pallet.redeem(Origin::Root, DOT, 1), Err(DispatchError::BadOrigin));
    assert_eq!(pallet.redeem(by(ALICE), 8, 1), refusal(Error::MarketNotActivated));
    assert_eq!(pallet.redeem(by(ALICE), DOT, 200_001), refusal(Error::InsufficientDeposit));
    assert_eq!(pallet.redeem(by(CHARLIE), DOT, 1), refusal(Error::InsufficientDeposit));
    assert_eq!(everything(&pallet), before);
    pallet.storage.total_supply.insert(DOT, 49);
    assert_eq!(pallet.redeem(by(ALICE), DOT, 1), Err(underflow()));
    pallet.storage.exchange_rate.remove(&DOT);
    assert_eq!(pallet.redeem(by(CHARLIE), DOT, 1), Err(underflow()));
}

#[test]
fn redemption_leaves_debts_secured() {
    let mut pallet = lending();
    assert_eq!(pallet.borrow(by(ALICE), KSM, 50_000), Ok(()));
    // Half of what is redeemed counted as collateral, and 50,000 of that are free.
    assert_eq!(pallet.redeem(by(ALICE), DOT, 100_001), refusal(Error::InsufficientLiquidity));
    assert_eq!(pallet.redeem_all(by(ALICE), DOT), refusal(Error::InsufficientLiquidity));
    assert_eq!(pallet.redeem(by(ALICE), DOT, 100_000), Ok(()));
    let none = FixedU128::zero();
    assert_eq!(pallet.get_account_liquidity(&ALICE), Ok((none, none)));
    // Deposits that are no collateral are free.
    assert_eq!(pallet.redeem_all(by(BOB), KSM), Err(DispatchError::Token(TokenError::NoFunds)));
    assert_eq!(pallet.redeem(by(BOB), KSM, 450_000), Ok(()));
}

#[test]
fn redemption_of_collateral_leaves_the_reserves() {
    let mut pallet = lending();
    assert_eq!(pallet.add_reserves(Origin::Root, 3, DOT, 50_000), Ok(()));
    assert_eq!(pallet.collateral_asset(by(BOB), KSM, true), Ok(()));
    assert_eq!(pallet.borrow(by(BOB), DOT, 150_000), Ok(()));
    // 100,000 are left in the pool, and half of them are reserved.
    assert_eq!(pallet.redeem(by(ALICE), DOT, 50_001), refusal(Error::InsufficientCash));
    assert_eq!(pallet.redeem(by(ALICE), DOT, 50_000), Ok(()));
}

#[test]
fn vouchers_are_redeemed_directly() {
    let mut pallet = lending();
    assert_eq!(pallet.redeem_internal(&ALICE, DOT, 500), Ok(10));
    assert_eq!(vouchers(&pallet, DOT, ALICE), 9_999_500);
    assert_eq!(cash(&pallet, DOT, ALICE), 800_010);
    assert!(pallet.events.is_empty());
    assert_eq!(
        pallet.redeem_internal(&ALICE, DOT, 10_000_000),
        Err(DispatchError::Module(Error::InsufficientDeposit))
    );
    assert_eq!(pallet.redeem_allowed(DOT, &ALICE, 9_999_500), Ok(()));
}

#[test]
fn vouchers_add_up() {
    let mut pallet = lending();
    let held = |pallet: &Pallet<Runtime>, asset_id: CurrencyId| -> Balance {
        [ALICE, BOB, CHARLIE].iter().map(|who| vouchers(pallet, asset_id, *who)).sum()
    };
    let check = |pallet: &Pallet<Runtime>| {
        for asset_id in [DOT, KSM, USDT] {
            assert_eq!(pallet.total_supply(asset_id), held(pallet, asset_id));
        }
    };
    check(&pallet);
    assert_eq!(pallet.mint(by(CHARLIE), DOT, 12_345), Ok(()));
    assert_eq!(pallet.redeem(by(CHARLIE), DOT, 345), Ok(()));
    check(&pallet);
    assert_eq!(pallet.borrow(by(ALICE), KSM, 100_000), Ok(()));
    pallet.runtime.set_price(KSM, 2 * DIV);
    assert_eq!(pallet.liquidate_borrow(by(BOB), ALICE, KSM, 50_000, DOT), Ok(()));
    check(&pallet);
    assert_eq!(pallet.redeem_all(by(CHARLIE), DOT), Ok(()));
    check(&pallet);
}

#[test]
fn earnings_follow_the_exchange_rate() {
    let mut pallet = lending();
    let rate = FixedU128::from_inner(DIV / 50);
    let first = EarnedSnapshot { exchange_rate_prior: rate, total_earned_prior: 0 };
    assert_eq!(pallet.account_earned(DOT, &ALICE), first);
    pallet.storage.last_accrued_timestamp = 1000;
    assert_eq!(pallet.on_initialize(1100), 21);
    // a twentieth more for each unit
    assert_eq!(pallet.redeem(by(ALICE), DOT, 21_000), Ok(()));
    assert_eq!(vouchers(&pallet, DOT, ALICE), 9_000_000);
    let earned = EarnedSnapshot {
        exchange_rate_prior: FixedU128::from_inner(DIV / 1000 * 21),
        total_earned_prior: 10_000,
    };
    assert_eq!(pallet.account_earned(DOT, &ALICE), earned);
    // nothing more at the same rate
    assert_eq!(pallet.mint(by(ALICE), DOT, 21), Ok(()));
    assert_eq!(pallet.account_earned(DOT, &ALICE), earned);
    assert_eq!(pallet.earned_stored(&ALICE, DOT), Ok(earned));
    // The interest has come in.
    let pool = pallet.account_id();
    pallet.runtime.set_balance(DOT, pool, 200_000);
    assert_eq!(pallet.redeem_all(by(ALICE), DOT), Ok(()));
    assert_eq!(pallet.account_earned(DOT, &ALICE), earned);
}

// Borrowing and repaying.

#[test]
fn borrower_owes_what_it_borrows() {
    let mut pallet = lending();
    assert_eq!(pallet.borrow(by(ALICE), KSM, 60_000), Ok(()));
    assert_eq!(pallet.borrow(by(ALICE), KSM, 40_000), Ok(()));
    assert_eq!(pallet.current_borrow_balance(&ALICE, KSM), Ok(100_000));
    assert_eq!(pallet.total_borrows(KSM), 100_000);
    assert_eq!(cash(&pallet, KSM, ALICE), 1_100_000);
    let snapshot = BorrowSnapshot { principal: 100_000, borrow_index: FixedU128::one() };
    assert_eq!(pallet.account_borrows(KSM, &ALICE), snapshot);
    assert_eq!(
        pallet.events,
        vec![Event::Borrowed(ALICE, KSM, 60_000), Event::Borrowed(ALICE, KSM, 40_000)]
    );
    assert_eq!(pallet.borrow(by(ALICE), KSM, 1), refusal(Error::InsufficientLiquidity));
}

#[test]
fn borrow_is_refused() {
    let mut pallet = lending();
    let before = everything(&pallet);
    assert_eq!(pallet.borrow(Origin::Root, KSM, 1), Err(DispatchError::BadOrigin));
    assert_eq!(pallet.borrow(by(ALICE), 8, 1), refusal(Error::MarketNotActivated));
    assert_eq!(pallet.borrow(by(ALICE), KSM, 500_001), refusal(Error::InsufficientCash));
    assert_eq!(pallet.borrow(by(ALICE), KSM, 100_001), refusal(Error::InsufficientLiquidity));
    assert_eq!(pallet.borrow(by(BOB), KSM, 1), refusal(Error::InsufficientLiquidity));
    assert_eq!(everything(&pallet), before);
    pallet.storage.total_reserves.insert(KSM, 500_001);
    assert_eq!(pallet.borrow(by(ALICE), KSM, 1), Err(underflow()));
    pallet.storage.total_reserves.insert(KSM, 499_999);
    assert_eq!(pallet.borrow(by(ALICE), KSM, 2), refusal(Error::InsufficientCash));
    pallet.storage.total_borrows.insert(KSM, MAX);
    assert_eq!(pallet.borrow(by(ALICE), KSM, 1), Err(overflow()));
    pallet.storage.total_borrows.insert(KSM, 0);
    pallet.runtime.set_price(KSM, 0);
    assert_eq!(pallet.borrow(by(ALICE), KSM, 1), refusal(Error::PriceIsZero));
    pallet.runtime.prices.clear();
    assert_eq!(pallet.borrow(by(ALICE), KSM, 1), refusal(Error::PriceOracleNotReady));
}

#[test]
fn borrow_is_allowed_up_to_the_collateral() {
    let pallet = lending();
    assert_eq!(pallet.borrow_allowed(KSM, &ALICE, 100_000), Ok(()));
    assert_eq!(pallet.borrow_allowed(KSM, &ALICE, 100_001), refusal(Error::InsufficientLiquidity));
    assert_eq!(pallet.ensure_liquidity(&ALICE, FixedU128::from_inner(100_000)), Ok(()));
    assert_eq!(
        pallet.ensure_liquidity(&ALICE, FixedU128::from_inner(100_001)),
        refusal(Error::InsufficientLiquidity)
    );
}

#[test]
fn repaying_undoes_borrowing() {
    let mut pallet = lending();
    assert_eq!(pallet.borrow(by(ALICE), KSM, 100_000), Ok(()));
    pallet.events.clear();
    assert_eq!(pallet.repay_borrow(by(ALICE), KSM, 30_000), Ok(()));
    assert_eq!(pallet.current_borrow_balance(&ALICE, KSM), Ok(70_000));
    assert_eq!(pallet.total_borrows(KSM), 70_000);
    assert_eq!(cash(&pallet, KSM, ALICE), 1_070_000);
    assert_eq!(pallet.repay_borrow(by(ALICE), KSM, 70_001), refusal(Error::TooMuchRepay));
    assert_eq!(pallet.repay_borrow_all(by(ALICE), KSM), Ok(()));
    assert_eq!(pallet.current_borrow_balance(&ALICE, KSM), Ok(0));
    assert_eq!(pallet.total_borrows(KSM), 0);
    assert_eq!(cash(&pallet, KSM, ALICE), 1_000_000);
    assert_eq!(
        pallet.events,
        vec![Event::RepaidBorrow(ALICE, KSM, 30_000), Event::RepaidBorrow(ALICE, KSM, 70_000)]
    );
}

#[test]
fn repayment_is_refused() {
    let mut pallet = lending();
    assert_eq!(pallet.borrow(by(ALICE), KSM, 100_000), Ok(()));
    pallet.runtime.set_balance(KSM, ALICE, 5);
    let before = everything(&pallet);
    assert_eq!(pallet.repay_borrow(Origin::Root, KSM, 1), Err(DispatchError::BadOrigin));
    assert_eq!(pallet.repay_borrow_all(Origin::Root, KSM), Err(DispatchError::BadOrigin));
    assert_eq!(pallet.repay_borrow(by(ALICE), 8, 1), refusal(Error::MarketNotActivated));
    assert_eq!(pallet.repay_borrow_all(by(ALICE), 8), refusal(Error::MarketNotActivated));
    let poor = Err(DispatchError::Token(TokenError::NoFunds));
    assert_eq!(pallet.repay_borrow(by(ALICE), KSM, 6), poor);
    assert_eq!(pallet.repay_borrow_all(by(ALICE), KSM), poor);
    assert_eq!(pallet.repay_borrow(by(BOB), KSM, 1), refusal(Error::TooMuchRepay));
    assert_eq!(everything(&pallet), before);
    assert_eq!(
        pallet.repay_borrow_internal(&ALICE, KSM, 3, 4),
        refusal(Error::TooMuchRepay)
    );
}

#[test]
fn debts_grow_with_the_index() {
    let mut pallet = lending();
    assert_eq!(pallet.borrow(by(ALICE), KSM, 50_000), Ok(()));
    pallet.storage.last_accrued_timestamp = 1000;
    assert_eq!(pallet.on_initialize(2000), 21);
    assert_eq!(pallet.current_borrow_balance(&ALICE, KSM), Ok(55_000));
    assert_eq!(pallet.total_borrows(KSM), 50_000);
    // The total does not follow; it stops at nothing.
    assert_eq!(pallet.repay_borrow_all(by(ALICE), KSM), Ok(()));
    assert_eq!(pallet.current_borrow_balance(&ALICE, KSM), Ok(0));
    assert_eq!(pallet.total_borrows(KSM), 0);
    assert_eq!(cash(&pallet, KSM, ALICE), 995_000);
}

#[test]
fn balances_from_snapshots() {
    let mut pallet = pallet();
    let snapshot = |principal: Balance, inner: u128| BorrowSnapshot {
        principal,
        borrow_index: FixedU128::from_inner(inner),
    };
    pallet.storage.borrow_index.insert(DOT, FixedU128::from_inner(DIV / 10 * 15));
    assert_eq!(pallet.current_balance_from_snapshot(DOT, snapshot(200, DIV)), Ok(300));
    assert_eq!(pallet.current_balance_from_snapshot(DOT, snapshot(0, DIV)), Ok(0));
    assert_eq!(pallet.current_balance_from_snapshot(DOT, snapshot(200, 0)), Ok(0));
    assert_eq!(pallet.current_balance_from_snapshot(DOT, snapshot(MAX, DIV)), Err(overflow()));
    pallet.storage.borrow_index.insert(DOT, FixedU128::from_inner(MAX));
    assert_eq!(pallet.current_balance_from_snapshot(DOT, snapshot(1, 1)), Err(overflow()));
}

// Values.

#[test]
fn amounts_of_vouchers_and_underlying() {
    let rate = FixedU128::from_inner(DIV / 50);
    assert_eq!(Pallet::<Runtime>::calc_underlying_amount(5_000, rate), Ok(100));
    assert_eq!(Pallet::<Runtime>::calc_underlying_amount(49, rate), Ok(0));
    assert_eq!(Pallet::<Runtime>::calc_collateral_amount(100, rate), Ok(5_000));
    let great = FixedU128::from_inner(2 * DIV);
    assert_eq!(Pallet::<Runtime>::calc_underlying_amount(MAX, great), Err(overflow()));
    assert_eq!(Pallet::<Runtime>::calc_collateral_amount(MAX, rate), Err(underflow()));
    let none = FixedU128::zero();
    assert_eq!(Pallet::<Runtime>::calc_collateral_amount(1, none), Err(underflow()));
}

#[test]
fn prices_and_values() {
    let mut pallet = pallet();
    pallet.runtime.set_price(DOT, DIV / 2 * 5);
    assert_eq!(pallet.get_price(DOT).unwrap().inner, DIV / 2 * 5);
    assert_eq!(pallet.get_asset_value(DOT, 101).unwrap().inner, 252);
    assert_eq!(pallet.get_asset_value(DOT, MAX), Err(overflow()));
    pallet.runtime.set_price(DOT, 0);
    assert_eq!(pallet.get_price(DOT), Err(DispatchError::Module(Error::PriceIsZero)));
    assert_eq!(pallet.get_asset_value(8, 1), Err(DispatchError::Module(Error::PriceOracleNotReady)));
}

#[test]
fn liquidity_or_shortfall() {
    let mut pallet = lending();
    let number = |inner: u128| FixedU128::from_inner(inner);
    assert_eq!(pallet.get_account_liquidity(&ALICE), Ok((number(100_000), number(0))));
    assert_eq!(pallet.borrow(by(ALICE), KSM, 80_000), Ok(()));
    assert_eq!(pallet.total_borrowed_value(&ALICE), Ok(number(80_000)));
    assert_eq!(pallet.total_collateral_value(&ALICE), Ok(number(100_000)));
    assert_eq!(pallet.collateral_asset_value(&ALICE, DOT), Ok(number(100_000)));
    assert_eq!(pallet.collateral_asset_value(&BOB, KSM), Ok(number(0)));
    assert_eq!(pallet.get_account_liquidity(&ALICE), Ok((number(20_000), number(0))));
    pallet.runtime.set_price(KSM, 2 * DIV);
    assert_eq!(pallet.get_account_liquidity(&ALICE), Ok((number(0), number(60_000))));
    // Only active markets count.
    let closed = Market { state: MarketState::Pending, ..market(1002) };
    assert_eq!(pallet.force_update_market(Origin::Root, KSM, closed), Ok(()));
    assert_eq!(pallet.get_account_liquidity(&ALICE), Ok((number(100_000), number(0))));
    // Values that are not needed are not asked for.
    pallet.runtime.prices.retain(|entry| entry.0 == DOT);
    assert_eq!(pallet.get_account_liquidity(&ALICE), Ok((number(100_000), number(0))));
    pallet.runtime.prices.clear();
    assert_eq!(
        pallet.get_account_liquidity(&ALICE),
        Err(DispatchError::Module(Error::PriceOracleNotReady))
    );
}

#[test]
fn totals_that_do_not_fit() {
    let mut pallet = pallet();
    for asset_id in [DOT, KSM] {
        pallet.storage.account_borrows.insert(
            at(asset_id, ALICE),
            BorrowSnapshot { principal: MAX / 2 + 1, borrow_index: FixedU128::one() },
        );
        pallet.storage.account_deposits.insert(
            at(asset_id, BOB),
            Deposits { voucher_balance: MAX, is_collateral: true },
        );
        pallet.storage.exchange_rate.insert(asset_id, FixedU128::one());
    }
    assert_eq!(pallet.total_borrowed_value(&ALICE), Err(overflow()));
    assert_eq!(pallet.total_collateral_value(&BOB), Err(overflow()));
}

#[test]
fn order_of_markets_does_not_matter_to_totals() {
    let build = |ids: [CurrencyId; 3]| -> Pallet<Runtime> {
        let mut pallet = Pallet::new(Runtime::new());
        for id in ids {
            assert_eq!(pallet.add_market(Origin::Root, id, market(1000 + id)), Ok(()));
            assert_eq!(pallet.activate_market(Origin::Root, id), Ok(()));
            pallet.runtime.set_price(id, DIV / 3 * id as u128);
            pallet.runtime.set_balance(id, ALICE, 1_000_000);
        }
        for id in [DOT, KSM, USDT] {
            assert_eq!(pallet.mint(by(ALICE), id, 100_000 * id as u128), Ok(()));
            assert_eq!(pallet.collateral_asset(by(ALICE), id, true), Ok(()));
        }
        for id in [DOT, KSM] {
            assert_eq!(pallet.borrow(by(ALICE), id, 1_234 * id as u128), Ok(()));
        }
        pallet
    };
    let one = build([DOT, KSM, USDT]);
    let other = build([USDT, DOT, KSM]);
    assert_eq!(one.total_borrowed_value(&ALICE), other.total_borrowed_value(&ALICE));
    assert_eq!(one.total_collateral_value(&ALICE), other.total_collateral_value(&ALICE));
    assert_eq!(one.get_account_liquidity(&ALICE), other.get_account_liquidity(&ALICE));
}

#[test]
fn cash_is_what_the_pool_can_pay() {
    let mut pallet = lending();
    assert_eq!(pallet.get_total_cash(KSM), 500_000);
    assert_eq!(pallet.ensure_enough_cash(KSM, 500_000), Ok(()));
    assert_eq!(pallet.ensure_enough_cash(KSM, 500_001), refusal(Error::InsufficientCash));
    pallet.storage.total_reserves.insert(KSM, 500_001);
    assert_eq!(pallet.ensure_enough_cash(KSM, 0), Err(underflow()));
}

// Collateral.

#[test]
fn deposits_become_collateral_and_are_released() {
    let mut pallet = pallet();
    assert_eq!(pallet.collateral_asset(by(ALICE), DOT, true), refusal(Error::NoDeposit));
    assert_eq!(pallet.mint(by(ALICE), DOT, 200_000), Ok(()));
    pallet.events.clear();
    let before = everything(&pallet);
    assert_eq!(
        pallet.collateral_asset(by(ALICE), DOT, false),
        refusal(Error::DuplicateOperation)
    );
    assert_eq!(pallet.collateral_asset(Origin::Root, DOT, true), Err(DispatchError::BadOrigin));
    assert_eq!(pallet.collateral_asset(by(ALICE), 8, true), refusal(Error::MarketNotActivated));
    assert_eq!(everything(&pallet), before);
    assert_eq!(pallet.collateral_asset(by(ALICE), DOT, true), Ok(()));
    let secured = Deposits { voucher_balance: 10_000_000, is_collateral: true };
    assert_eq!(pallet.account_deposits(DOT, &ALICE), secured);
    assert_eq!(pallet.collateral_asset(by(ALICE), DOT, true), refusal(Error::DuplicateOperation));
    assert_eq!(pallet.collateral_asset(by(ALICE), DOT, false), Ok(()));
    assert!(!pallet.account_deposits(DOT, &ALICE).is_collateral);
    assert_eq!(
        pallet.events,
        vec![
            Event::CollateralAssetAdded(ALICE, DOT),
            Event::CollateralAssetRemoved(ALICE, DOT)
        ]
    );
}

#[test]
fn needed_collateral_is_not_released() {
    let mut pallet = lending();
    assert_eq!(pallet.mint(by(ALICE), USDT, 100_000), Ok(()));
    assert_eq!(pallet.collateral_asset(by(ALICE), USDT, true), Ok(()));
    assert_eq!(pallet.borrow(by(ALICE), KSM, 100_000), Ok(()));
    let before = everything(&pallet);
    assert_eq!(
        pallet.collateral_asset(by(ALICE), DOT, false),
        refusal(Error::InsufficientLiquidity)
    );
    assert_eq!(everything(&pallet), before);
    // The other deposits are not needed.
    assert_eq!(pallet.collateral_asset(by(ALICE), USDT, false), Ok(()));
    let none = FixedU128::zero();
    assert_eq!(pallet.get_account_liquidity(&ALICE), Ok((none, none)));
}

#[test]
fn release_asks_for_prices() {
    let mut pallet = lending();
    pallet.runtime.prices.clear();
    assert_eq!(
        pallet.collateral_asset(by(ALICE), DOT, false),
        refusal(Error::PriceOracleNotReady)
    );
    assert_eq!(pallet.mint(by(ALICE), USDT, 1), Ok(()));
    assert_eq!(pallet.collateral_asset(by(ALICE), USDT, true), Ok(()));
}

#[test]
fn release_that_does_not_fit() {
    let mut pallet = pallet();
    pallet.storage.exchange_rate.insert(DOT, FixedU128::one());
    pallet.storage.account_deposits.insert(
        at(DOT, ALICE),
        Deposits { voucher_balance: MAX, is_collateral: true },
    );
    pallet.storage.account_borrows.insert(
        at(KSM, ALICE),
        BorrowSnapshot { principal: MAX / 2 + 1, borrow_index: FixedU128::one() },
    );
    assert_eq!(pallet.collateral_asset(by(ALICE), DOT, false), Err(overflow()));
}

// Liquidation.

/// Alice owes 100,000 of an asset whose price has doubled.
fn shortfall() -> Pallet<Runtime> {
    let mut pallet = lending();
    assert_eq!(pallet.borrow(by(ALICE), KSM, 100_000), Ok(()));
    pallet.runtime.set_price(KSM, 2 * DIV);
    pallet.events.clear();
    pallet
}

#[test]
fn liquidator_repays_and_receives_vouchers() {
    let mut pallet = shortfall();
    assert_eq!(pallet.liquidate_borrow(by(BOB), ALICE, KSM, 50_000, DOT), Ok(()));
    assert_eq!(pallet.current_borrow_balance(&ALICE, KSM), Ok(50_000));
    assert_eq!(pallet.total_borrows(KSM), 50_000);
    assert_eq!(cash(&pallet, KSM, BOB), 450_000);
    // 50,000 at twice the price, and a tenth more
    assert_eq!(vouchers(&pallet, DOT, ALICE), 4_500_000);
    assert_eq!(vouchers(&pallet, DOT, BOB), 5_500_000);
    assert_eq!(pallet.total_supply(DOT), 10_000_000);
    assert_eq!(
        pallet.events,
        vec![Event::LiquidatedBorrow(BOB, ALICE, KSM, DOT, 50_000, 110_000)]
    );
}

#[test]
fn liquidation_is_refused() {
    let mut pallet = shortfall();
    let before = everything(&pallet);
    assert_eq!(
        pallet.liquidate_borrow(Origin::Root, ALICE, KSM, 1, DOT),
        Err(DispatchError::BadOrigin)
    );
    assert_eq!(
        pallet.liquidate_borrow(by(BOB), ALICE, 8, 1, DOT),
        refusal(Error::MarketNotActivated)
    );
    assert_eq!(
        pallet.liquidate_borrow(by(BOB), ALICE, KSM, 1, 8),
        refusal(Error::MarketNotActivated)
    );
    assert_eq!(
        pallet.liquidate_borrow(by(ALICE), ALICE, KSM, 1, DOT),
        refusal(Error::LiquidatorIsBorrower)
    );
    assert_eq!(
        pallet.liquidate_borrow(by(BOB), CHARLIE, KSM, 1, DOT),
        refusal(Error::InsufficientShortfall)
    );
    assert_eq!(
        pallet.liquidate_borrow(by(BOB), ALICE, KSM, 50_001, DOT),
        refusal(Error::TooMuchRepay)
    );
    assert_eq!(
        pallet.liquidate_borrow(by(BOB), ALICE, KSM, 1, USDT),
        refusal(Error::DepositsAreNotCollateral)
    );
    assert_eq!(
        pallet.liquidate_borrow(by(ADMIN), ALICE, KSM, 1, DOT),
        Err(DispatchError::Token(TokenError::NoFunds))
    );
    assert_eq!(everything(&pallet), before);
    pallet.runtime.set_price(KSM, 10 * DIV);
    assert_eq!(
        pallet.liquidate_borrow(by(BOB), ALICE, KSM, 50_000, DOT),
        refusal(Error::InsufficientCollateral)
    );
    pallet.runtime.prices.clear();
    assert_eq!(
        pallet.liquidate_borrow(by(BOB), ALICE, KSM, 1, DOT),
        refusal(Error::PriceOracleNotReady)
    );
}

#[test]
fn solvent_account_is_not_liquidated() {
    let mut pallet = shortfall();
    pallet.runtime.set_price(KSM, DIV);
    assert_eq!(
        pallet.liquidate_borrow(by(BOB), ALICE, KSM, 1, DOT),
        refusal(Error::InsufficientShortfall)
    );
}

#[test]
fn liquidation_that_does_not_fit_changes_nothing() {
    // less borrowed in all than is repaid
    let mut few = shortfall();
    few.storage.total_borrows.insert(KSM, 9);
    let before = everything(&few);
    assert_eq!(few.liquidate_borrow(by(BOB), ALICE, KSM, 10, DOT), Err(underflow()));
    assert_eq!(everything(&few), before);
    // too many vouchers of the liquidator
    let mut many = shortfall();
    many.storage.account_deposits.insert(
        at(DOT, BOB),
        Deposits { voucher_balance: MAX, is_collateral: false },
    );
    let before = everything(&many);
    assert_eq!(many.liquidate_borrow(by(BOB), ALICE, KSM, 10, DOT), Err(overflow()));
    assert_eq!(everything(&many), before);
    // an incentive beyond all values
    let mut generous = shortfall();
    let beyond = Market {
        liquidate_incentive: FixedU128::from_inner(MAX),
        state: MarketState::Active,
        ..market(1002)
    };
    assert_eq!(generous.force_update_market(Origin::Root, KSM, beyond), Ok(()));
    assert_eq!(
        generous.liquidate_borrow(by(BOB), ALICE, KSM, 50_000, DOT),
        refusal(Error::InsufficientCollateral)
    );
}

#[test]
fn parts_of_a_liquidation() {
    let mut pallet = shortfall();
    let stored = pallet.market(KSM).unwrap();
    assert_eq!(pallet.liquidate_borrow_allowed(&ALICE, KSM, 50_000, &stored), Ok(()));
    assert_eq!(
        pallet.liquidate_borrow_allowed(&ALICE, KSM, 50_001, &stored),
        refusal(Error::TooMuchRepay)
    );
    let incentive = stored.liquidate_incentive;
    assert_eq!(pallet.liquidation_proceeds(&ALICE, KSM, 50_000, DOT, incentive), Ok(110_000));
    let beyond = FixedU128::from_inner(MAX);
    pallet.runtime.set_price(KSM, MAX / 2);
    assert_eq!(
        pallet.liquidation_proceeds(&ALICE, KSM, 1_000_000_000, DOT, beyond),
        Err(overflow())
    );
    // an account that pays itself
    assert_eq!(pallet.liquidated_transfer(&ALICE, &ALICE, KSM, DOT, 10, 20), Ok(()));
    assert_eq!(vouchers(&pallet, DOT, ALICE), 10_000_000);
    assert_eq!(pallet.current_borrow_balance(&ALICE, KSM), Ok(99_990));
    assert_eq!(
        pallet.liquidated_transfer(&BOB, &ALICE, KSM, DOT, 10, 200_001),
        Err(underflow())
    );
    assert_eq!(
        pallet.liquidated_transfer(&BOB, &ALICE, KSM, DOT, 100_000, 1),
        Err(underflow())
    );
    assert_eq!(
        pallet.liquidate_borrow_internal(BOB, BOB, KSM, 1, DOT),
        refusal(Error::LiquidatorIsBorrower)
    );
}

// Reserves.

#[test]
fn reducing_undoes_adding_reserves() {
    let mut pallet = pallet();
    assert_eq!(pallet.add_reserves(Origin::Root, 1, DOT, 100), Ok(()));
    assert_eq!(pallet.add_reserves(Origin::Root, 2, DOT, 11), Ok(()));
    assert_eq!(pallet.total_reserves(DOT), 111);
    assert_eq!(cash(&pallet, DOT, ALICE), 999_900);
    assert_eq!(pallet.reduce_reserves(Origin::Root, 3, DOT, 11), Ok(()));
    assert_eq!(pallet.total_reserves(DOT), 100);
    assert_eq!(cash(&pallet, DOT, CHARLIE), 1_000_011);
    assert_eq!(
        pallet.events,
        vec![
            Event::ReservesAdded(ALICE, DOT, 100, 100),
            Event::ReservesAdded(BOB, DOT, 11, 111),
            Event::ReservesReduced(CHARLIE, DOT, 11, 100)
        ]
    );
}

#[test]
fn tokens_come_back_where_calls_are_undone() {
    let mut pallet = lending();
    let balances = |pallet: &Pallet<Runtime>| -> Vec<Balance> {
        let accounts = [ALICE, BOB, CHARLIE, ADMIN, pallet.account_id()];
        [DOT, KSM, USDT]
            .iter()
            .flat_map(|id| accounts.iter().map(|who| cash(pallet, *id, *who)))
            .collect()
    };
    let before = balances(&pallet);
    assert_eq!(pallet.borrow(by(ALICE), KSM, 77_777), Ok(()));
    assert_ne!(balances(&pallet), before);
    assert_eq!(pallet.repay_borrow(by(ALICE), KSM, 77_777), Ok(()));
    assert_eq!(balances(&pallet), before);
    assert_eq!(pallet.add_reserves(Origin::Root, 3, USDT, 4_321), Ok(()));
    assert_eq!((pallet.total_reserves(USDT), pallet.total_reserves(DOT)), (4_321, 0));
    assert_ne!(balances(&pallet), before);
    assert_eq!(pallet.reduce_reserves(Origin::Root, 3, USDT, 4_321), Ok(()));
    assert_eq!((pallet.total_reserves(USDT), pallet.total_reserves(DOT)), (0, 0));
    assert_eq!(balances(&pallet), before);
    assert_eq!(pallet.mint(by(CHARLIE), DOT, 100), Ok(()));
    assert_eq!(pallet.redeem(by(CHARLIE), DOT, 100), Ok(()));
    assert_eq!(balances(&pallet), before);
}

#[test]
fn cleared_debt_stays_cleared() {
    let mut pallet = lending();
    assert_eq!(pallet.borrow(by(ALICE), KSM, 50_000), Ok(()));
    assert_eq!(pallet.repay_borrow_all(by(ALICE), KSM), Ok(()));
    pallet.storage.last_accrued_timestamp = 1_000;
    assert_eq!(pallet.on_initialize(2_000), 21);
    assert_eq!(pallet.current_borrow_balance(&ALICE, KSM), Ok(0));
    pallet.storage.borrow_index.insert(KSM, FixedU128::from_inner(MAX));
    assert_eq!(pallet.current_borrow_balance(&ALICE, KSM), Ok(0));
}

#[test]
fn reserve_events_report_the_admin() {
    let mut pallet = pallet();
    assert_eq!(pallet.add_reserves(by(ADMIN), 1, DOT, 100), Ok(()));
    assert_eq!(pallet.add_reserves(by(ADMIN), 2, DOT, 10), Ok(()));
    assert_eq!(pallet.reduce_reserves(by(ADMIN), 3, DOT, 30), Ok(()));
    assert_eq!(
        pallet.events,
        vec![
            Event::ReservesAdded(ADMIN, DOT, 100, 100),
            Event::ReservesAdded(ADMIN, DOT, 10, 110),
            Event::ReservesReduced(ADMIN, DOT, 30, 80)
        ]
    );
    // The tokens still move from the payers and to the receiver.
    assert_eq!(cash(&pallet, DOT, ALICE), 999_900);
    assert_eq!(cash(&pallet, DOT, BOB), 999_990);
    assert_eq!(cash(&pallet, DOT, CHARLIE), 1_000_030);
    assert_eq!(cash(&pallet, DOT, ADMIN), 0);
    // An origin without an account is reported by the account that the call names.
    assert_eq!(admin_of(&Origin::Root, BOB), BOB);
    assert_eq!(admin_of(&Origin::Unsigned, BOB), BOB);
    assert_eq!(admin_of(&by(ADMIN), BOB), ADMIN);
}

#[test]
fn reserve_calls_are_refused() {
    let mut pallet = pallet();
    assert_eq!(pallet.add_reserves(Origin::Root, 1, DOT, 100), Ok(()));
    let before = everything(&pallet);
    assert_eq!(pallet.add_reserves(by(ALICE), 1, DOT, 1), Err(DispatchError::BadOrigin));
    assert_eq!(pallet.reduce_reserves(by(ALICE), 1, DOT, 1), Err(DispatchError::BadOrigin));
    assert_eq!(pallet.add_reserves(Origin::Root, 100, DOT, 1), Err(DispatchError::CannotLookup));
    assert_eq!(
        pallet.reduce_reserves(Origin::Root, 100, DOT, 1),
        Err(DispatchError::CannotLookup)
    );
    assert_eq!(pallet.add_reserves(Origin::Root, 1, 8, 1), refusal(Error::MarketNotActivated));
    assert_eq!(pallet.reduce_reserves(Origin::Root, 1, 8, 1), refusal(Error::MarketNotActivated));
    assert_eq!(
        pallet.add_reserves(Origin::Root, 1, DOT, 1_000_000),
        Err(DispatchError::Token(TokenError::NoFunds))
    );
    assert_eq!(
        pallet.reduce_reserves(Origin::Root, 1, DOT, 101),
        refusal(Error::InsufficientReserves)
    );
    assert_eq!(everything(&pallet), before);
    pallet.storage.total_reserves.insert(DOT, MAX);
    assert_eq!(pallet.add_reserves(Origin::Root, 1, DOT, 1), Err(overflow()));
    assert_eq!(
        pallet.reduce_reserves(Origin::Root, 1, DOT, 101),
        Err(DispatchError::Token(TokenError::NoFunds))
    );
    assert_eq!(pallet.total_reserves(DOT), MAX);
}

// Interest.

#[test]
fn first_block_notes_its_time() {
    let mut pallet = pallet();
    assert_eq!(pallet.on_initialize(1_700_000_000), 0);
    assert_eq!(pallet.last_accrued_timestamp(), 1_700_000_000);
    assert_eq!(pallet.borrow_index(DOT), FixedU128::one());
    // an early first block accrues at once
    let mut early = Pallet::new(Runtime::new());
    assert_eq!(early.add_market(Origin::Root, DOT, market(1001)), Ok(()));
    assert_eq!(early.activate_market(Origin::Root, DOT), Ok(()));
    assert_eq!(early.on_initialize(100), 7);
    assert_eq!(early.last_accrued_timestamp(), 100);
    assert_eq!(early.borrow_rate(DOT).inner, 100);
    assert_eq!(early.on_initialize(0), 0);
    assert_eq!(early.last_accrued_timestamp(), 100);
}

#[test]
fn interest_accrues_in_due_time() {
    let mut pallet = pallet();
    pallet.storage.last_accrued_timestamp = 1_000_000;
    let before = everything(&pallet);
    // not later, too early, too late
    for now in [999_000, 1_000_000, 1_000_099, 1_432_001] {
        assert_eq!(pallet.on_initialize(now), 0);
        assert_eq!(everything(&pallet), before);
    }
    assert_eq!(pallet.on_initialize(1_000_100), 21);
    assert_eq!(pallet.last_accrued_timestamp(), 1_000_100);
    assert_eq!(pallet.borrow_index(DOT).inner, DIV / 10 * 11);
    assert_eq!(pallet.borrow_rate(DOT).inner, 100);
    // once for a time
    let after = everything(&pallet);
    assert_eq!(pallet.on_initialize(1_000_100), 0);
    assert_eq!(everything(&pallet), after);
    assert_eq!(pallet.on_initialize(1_432_100), 21);
    assert_eq!(pallet.borrow_rate(DOT).inner, 432_000);
}

#[test]
fn interest_that_fails_is_made_up() {
    let mut pallet = pallet();
    pallet.storage.last_accrued_timestamp = 1_000;
    pallet.runtime.accrual = Err(DispatchError::Other);
    let before = everything(&pallet);
    assert_eq!(pallet.on_initialize(1_200), 0);
    assert_eq!(everything(&pallet), before);
    pallet.runtime.accrual = Ok(());
    assert_eq!(pallet.on_initialize(1_500), 21);
    assert_eq!(pallet.borrow_rate(DOT).inner, 500);
    assert_eq!(pallet.last_accrued_timestamp(), 1_500);
}

#[test]
fn block_tells_its_weight() {
    let mut pallet = pallet();
    pallet.storage.last_accrued_timestamp = 1_000;
    assert_eq!(pallet.try_on_initialize(1_050), Some(0));
    assert_eq!(pallet.try_on_initialize(1_200), Some(21));
    let closed = Market { state: MarketState::Pending, ..market(1002) };
    assert_eq!(pallet.force_update_market(Origin::Root, KSM, closed), Ok(()));
    assert_eq!(pallet.try_on_initialize(1_400), Some(14));
}

// Calls as values.

#[test]
fn calls_can_be_made_as_values() {
    let mut one = pallet();
    let mut other = pallet();
    let half = Ratio::from_parts(500_000);
    let incentive = FixedU128::from_inner(DIV / 10 * 11);
    let double = |pallet: &mut Pallet<Runtime>| pallet.runtime.set_price(KSM, 2 * DIV);

    assert_eq!(
        one.dispatch(Origin::Root, Call::AddMarket { asset_id: 4, market: market(1004) }),
        other.add_market(Origin::Root, 4, market(1004))
    );
    assert_eq!(
        one.dispatch(Origin::Root, Call::ActivateMarket { asset_id: 4 }),
        other.activate_market(Origin::Root, 4)
    );
    assert_eq!(
        one.dispatch(Origin::Root, Call::UpdateRateModel { asset_id: 4, rate_model: 6 }),
        other.update_rate_model(Origin::Root, 4, 6)
    );
    assert_eq!(
        one.dispatch(
            Origin::Root,
            Call::UpdateMarket {
                asset_id: DOT,
                collateral_factor: half,
                reserve_factor: half,
                close_factor: half,
                liquidate_incentive: incentive,
                cap: 900_000
            }
        ),
        other.update_market(Origin::Root, DOT, half, half, half, incentive, 900_000)
    );
    assert_eq!(
        one.dispatch(Origin::Root, Call::ForceUpdateMarket { asset_id: 4, market: market(1004) }),
        other.force_update_market(Origin::Root, 4, market(1004))
    );
    assert_eq!(
        one.dispatch(by(ALICE), Call::Mint { asset_id: DOT, mint_amount: 200_000 }),
        other.mint(by(ALICE), DOT, 200_000)
    );
    assert_eq!(
        one.dispatch(by(ALICE), Call::Redeem { asset_id: DOT, redeem_amount: 10 }),
        other.redeem(by(ALICE), DOT, 10)
    );
    assert_eq!(
        one.dispatch(by(ALICE), Call::CollateralAsset { asset_id: DOT, enable: true }),
        other.collateral_asset(by(ALICE), DOT, true)
    );
    assert_eq!(
        one.dispatch(by(BOB), Call::Mint { asset_id: KSM, mint_amount: 500_000 }),
        other.mint(by(BOB), KSM, 500_000)
    );
    assert_eq!(
        one.dispatch(by(ALICE), Call::Borrow { asset_id: KSM, borrow_amount: 99_000 }),
        other.borrow(by(ALICE), KSM, 99_000)
    );
    assert_eq!(
        one.dispatch(by(ALICE), Call::RepayBorrow { asset_id: KSM, repay_amount: 9 }),
        other.repay_borrow(by(ALICE), KSM, 9)
    );
    double(&mut one);
    double(&mut other);
    assert_eq!(
        one.dispatch(
            by(BOB),
            Call::LiquidateBorrow {
                borrower: ALICE,
                liquidate_token: KSM,
                repay_amount: 1_000,
                collateral_token: DOT
            }
        ),
        other.liquidate_borrow(by(BOB), ALICE, KSM, 1_000, DOT)
    );
    assert_eq!(
        one.dispatch(by(ALICE), Call::RepayBorrowAll { asset_id: KSM }),
        other.repay_borrow_all(by(ALICE), KSM)
    );
    assert_eq!(
        one.dispatch(by(ALICE), Call::RedeemAll { asset_id: DOT }),
        other.redeem_all(by(ALICE), DOT)
    );
    assert_eq!(
        one.dispatch(
            Origin::Root,
            Call::AddReserves { payer: 1, asset_id: DOT, add_amount: 7 }
        ),
        other.add_reserves(Origin::Root, 1, DOT, 7)
    );
    assert_eq!(
        one.dispatch(
            Origin::Root,
            Call::ReduceReserves { receiver: 2, asset_id: DOT, reduce_amount: 3 }
        ),
        other.reduce_reserves(Origin::Root, 2, DOT, 3)
    );
    assert_eq!(one.events.len(), 16);
    assert_eq!(everything(&one), everything(&other));
}

#[test]
fn other_accounts_are_left_alone() {
    let mut pallet = lending();
    let others = |pallet: &Pallet<Runtime>| {
        let of = |who: AccountId| -> Vec<(Deposits, BorrowSnapshot, EarnedSnapshot)> {
            [DOT, KSM, USDT]
                .iter()
                .map(|id| {
                    (
                        pallet.account_deposits(*id, &who),
                        pallet.account_borrows(*id, &who),
                        pallet.account_earned(*id, &who),
                    )
                })
                .collect()
        };
        (of(BOB), of(CHARLIE))
    };
    let before = others(&pallet);
    assert_eq!(pallet.mint(by(ALICE), USDT, 70_000), Ok(()));
    assert_eq!(pallet.borrow(by(ALICE), KSM, 9_000), Ok(()));
    assert_eq!(pallet.repay_borrow(by(ALICE), KSM, 1_000), Ok(()));
    assert_eq!(pallet.redeem(by(ALICE), DOT, 5_000), Ok(()));
    assert_eq!(pallet.collateral_asset(by(ALICE), USDT, true), Ok(()));
    assert_eq!(others(&pallet), before);
}

#[test]
fn more_is_exchanged_for_more() {
    let rate = FixedU128::saturating_from_rational(3, 7);
    let mut last = (0, 0);
    for amount in 0..200 {
        let vouchers = Pallet::<Runtime>::calc_collateral_amount(amount, rate).unwrap();
        let worth = Pallet::<Runtime>::calc_underlying_amount(amount, rate).unwrap();
        assert!(last.0 <= vouchers && last.1 <= worth);
        last = (vouchers, worth);
    }
    assert_eq!(last, (464, 85));
}

#[test]
fn calls_move_no_rates() {
    let mut pallet = shortfall();
    let rates = |pallet: &Pallet<Runtime>| -> Vec<u128> {
        [DOT, KSM, USDT]
            .iter()
            .flat_map(|id| [pallet.exchange_rate(*id).inner, pallet.borrow_index(*id).inner])
            .collect()
    };
    let before = rates(&pallet);
    assert_eq!(pallet.liquidate_borrow(by(BOB), ALICE, KSM, 50_000, DOT), Ok(()));
    assert_eq!(pallet.repay_borrow_all(by(ALICE), KSM), Ok(()));
    assert_eq!(pallet.redeem_all(by(ALICE), DOT), Ok(()));
    assert_eq!(pallet.add_reserves(Origin::Root, 1, DOT, 100), Ok(()));
    assert_eq!(rates(&pallet), before);
}

#[test]
fn market_calls_and_choice_of_collateral_move_no_tokens() {
    let mut pallet = lending();
    let before = pallet.runtime.clone();
    assert_eq!(pallet.add_market(Origin::Root, 4, market(1004)), Ok(()));
    assert_eq!(pallet.activate_market(Origin::Root, 4), Ok(()));
    assert_eq!(pallet.update_rate_model(Origin::Root, 4, 9), Ok(()));
    assert_eq!(pallet.collateral_asset(by(ALICE), DOT, false), Ok(()));
    assert_eq!(pallet.runtime, before);
}

#[test]
fn rounding_adds_at_most_two_to_a_secured_debt() {
    let mut pallet = lending();
    // Nine tenths of the smallest unit of value for one unit of the asset.
    pallet.runtime.set_price(KSM, DIV / 10 * 9);
    assert_eq!(pallet.borrow(by(ALICE), KSM, 1), Ok(()));
    assert_eq!(pallet.total_borrowed_value(&ALICE).unwrap().inner, 0);
    assert_eq!(pallet.borrow(by(ALICE), KSM, 111_110), Ok(()));
    let borrowed = pallet.total_borrowed_value(&ALICE).unwrap().inner;
    let collateral = pallet.total_collateral_value(&ALICE).unwrap().inner;
    assert_eq!((borrowed, collateral), (99_999, 100_000));
    assert_eq!(pallet.borrow(by(ALICE), KSM, 3), refusal(Error::InsufficientLiquidity));
    assert_eq!(pallet.borrow(by(ALICE), KSM, 2), Ok(()));
    assert_eq!(pallet.total_borrowed_value(&ALICE).unwrap().inner, 100_001);
}

#[test]
fn books_hold_through_blocks_and_price_changes() {
    let mut pallet = lending();
    let check = |pallet: &Pallet<Runtime>| {
        for asset_id in [DOT, KSM, USDT] {
            let held: Balance =
                [ALICE, BOB, CHARLIE].iter().map(|who| vouchers(pallet, asset_id, *who)).sum();
            assert_eq!(pallet.total_supply(asset_id), held);
            let ptoken_id = pallet.ptoken_id(asset_id).unwrap();
            assert_eq!(pallet.underlying_id(ptoken_id), Ok(asset_id));
        }
        assert_eq!(pallet.active_markets().len(), 3);
    };
    assert_eq!(pallet.on_initialize(1_000_000), 0);
    check(&pallet);
    assert_eq!(pallet.borrow(by(ALICE), KSM, 100_000), Ok(()));
    assert_eq!(pallet.on_initialize(1_000_200), 21);
    check(&pallet);
    // Interest alone has made a shortfall.
    assert_eq!(pallet.current_borrow_balance(&ALICE, KSM), Ok(110_000));
    assert_eq!(pallet.get_account_liquidity(&ALICE).unwrap().1.inner, 5_000);
    pallet.runtime.set_price(KSM, 2 * DIV);
    check(&pallet);
    assert_eq!(pallet.liquidate_borrow(by(BOB), ALICE, KSM, 55_000, DOT), Ok(()));
    check(&pallet);
    let stored = pallet.market(DOT).unwrap();
    let roomy = Market { cap: 2_000_000_000, ..stored };
    assert_eq!(pallet.force_update_market(Origin::Root, DOT, roomy), Ok(()));
    pallet.runtime.accrual = Err(DispatchError::Other);
    assert_eq!(pallet.on_initialize(1_000_400), 0);
    assert_eq!(pallet.mint(by(CHARLIE), DOT, 1_000), Ok(()));
    check(&pallet);
}
