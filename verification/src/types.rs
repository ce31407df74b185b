//! The values that the pallet stores, reports and refuses with.

use crate::fixed::{FixedU128, Rate, Ratio};
use crate::storage_map::StorageKey;
use vstd::prelude::*;

verus! {

/// An amount of an asset, in its smallest unit.
pub type Balance = u128;

/// The id of an asset.
pub type CurrencyId = u32;

/// A point in time, in seconds.
pub type Timestamp = u64;

/// The computational weight of a call.
pub type Weight = u64;

/// The id of an account: thirty-two bytes, as two big-endian words.
#[derive(Clone, Copy, Debug, PartialEq, Eq, Structural)]
pub struct AccountId {
    pub high: u128,
    pub low: u128,
}

impl StorageKey for CurrencyId {
    fn same_key(&self, other: &Self) -> (same: bool) {
        *self == *other
    }
}

/// What an account holds in one asset is stored under both.
#[derive(Clone, Copy, Debug, PartialEq, Eq, Structural)]
pub struct Position {
    pub asset_id: CurrencyId,
    pub who: AccountId,
}

impl StorageKey for Position {
    fn same_key(&self, other: &Self) -> (same: bool) {
        *self == *other
    }
}

/// Where a call comes from.
#[derive(Clone, Copy, Debug, PartialEq, Eq, Structural)]
pub enum Origin {
    /// The system itself.
    Root,
    /// An account that signed the call.
    Signed(AccountId),
    /// Neither of these.
    Unsigned,
}

/// Whether a market takes part in the protocol.
#[derive(Clone, Copy, Debug, PartialEq, Eq, Structural)]
pub enum MarketState {
    /// The market is open.
    Active,
    /// The market waits to be activated.
    Pending,
}

/// The parameters of a market.
#[derive(Clone, Copy, Debug, PartialEq)]
pub struct Market<M> {
    /// The secured portion of an amount that counts as collateral.
    pub collateral_factor: Ratio,
    /// The portion of the interest that goes to the reserves.
    pub reserve_factor: Ratio,
    /// The portion of a debt that one liquidation may repay at most.
    pub close_factor: Ratio,
    /// What a liquidator receives for each unit of value that it repays.
    pub liquidate_incentive: Rate,
    /// How interest depends on the use of the market.
    pub rate_model: M,
    /// Whether the market takes part in the protocol.
    pub state: MarketState,
    /// How much of the asset the market may hold.
    pub cap: Balance,
    /// The id of the voucher token.
    pub ptoken_id: CurrencyId,
}

/// A debt at the time of its last change.
#[derive(Clone, Copy, Debug, PartialEq, Eq, Structural)]
pub struct BorrowSnapshot {
    /// The debt.
    pub principal: Balance,
    /// The interest index at that time.
    pub borrow_index: Rate,
}

/// The deposits of an account in one asset.
#[derive(Clone, Copy, Debug, PartialEq, Eq, Structural)]
pub struct Deposits {
    /// How many vouchers the account holds.
    pub voucher_balance: Balance,
    /// Whether the deposits secure the debts of the account.
    pub is_collateral: bool,
}

/// What an account has earned in one asset up to its last change.
#[derive(Clone, Copy, Debug, PartialEq, Eq, Structural)]
pub struct EarnedSnapshot {
    /// The exchange rate at that time.
    pub exchange_rate_prior: Rate,
    /// What the account had earned by that time.
    pub total_earned_prior: Balance,
}

/// No debt.
pub open spec fn no_debt() -> BorrowSnapshot {
    BorrowSnapshot { principal: 0, borrow_index: FixedU128 { inner: 0 } }
}

/// No deposits.
pub open spec fn no_deposits() -> Deposits {
    Deposits { voucher_balance: 0, is_collateral: false }
}

/// No earnings.
pub open spec fn no_earnings() -> EarnedSnapshot {
    EarnedSnapshot { exchange_rate_prior: FixedU128 { inner: 0 }, total_earned_prior: 0 }
}

impl Default for BorrowSnapshot {
    fn default() -> (snapshot: Self)
        ensures
            snapshot == no_debt(),
    {
        BorrowSnapshot { principal: 0, borrow_index: FixedU128 { inner: 0 } }
    }
}

impl Default for Deposits {
    fn default() -> (deposits: Self)
        ensures
            deposits == no_deposits(),
    {
        Deposits { voucher_balance: 0, is_collateral: false }
    }
}

impl Default for EarnedSnapshot {
    fn default() -> (snapshot: Self)
        ensures
            snapshot == no_earnings(),
    {
        EarnedSnapshot { exchange_rate_prior: FixedU128 { inner: 0 }, total_earned_prior: 0 }
    }
}

/// Why the pallet refuses a call.
#[derive(Clone, Copy, Debug, PartialEq, Eq, Structural)]
pub enum Error {
    /// Insufficient liquidity to borrow more or disable collateral
    InsufficientLiquidity,
    /// Insufficient deposit to redeem
    InsufficientDeposit,
    /// Repay amount greater than allowed
    TooMuchRepay,
    /// Asset already enabled/disabled collateral
    DuplicateOperation,
    /// No deposit asset
    NoDeposit,
    /// Repay amount more than collateral amount
    InsufficientCollateral,
    /// Liquidator is same as borrower
    LiquidatorIsBorrower,
    /// Deposits are not used as a collateral
    DepositsAreNotCollateral,
    /// Insufficient shortfall to repay
    InsufficientShortfall,
    /// Insufficient reserves
    InsufficientReserves,
    /// Invalid rate model params
    InvalidRateModelParam,
    /// Market not activated
    MarketNotActivated,
    /// Oracle price not ready
    PriceOracleNotReady,
    /// Oracle price is zero
    PriceIsZero,
    /// Invalid asset id
    InvalidCurrencyId,
    /// Invalid ptoken id
    InvalidPtokenId,
    /// Market does not exist
    MarketDoesNotExist,
    /// Market already exists
    MarketAlredyExists,
    /// New markets must have a pending state
    NewMarketMustHavePendingState,
    /// Market reached its upper limitation
    ExceededMarketCapacity,
    /// Insufficient cash in the pool
    InsufficientCash,
    /// The factor should be bigger than 0% and smaller than 100%
    InvalidFactor,
    /// The cap cannot be zero
    ZeroCap,
    /// Payer cannot be signer
    PayerIsSigner,
}

/// Why a computation has no result.
#[derive(Clone, Copy, Debug, PartialEq, Eq, Structural)]
pub enum ArithmeticError {
    /// The result is too small.
    Underflow,
    /// The result is too great.
    Overflow,
    /// The divisor is zero.
    DivisionByZero,
}

/// Why the runtime refuses to move tokens.
#[derive(Clone, Copy, Debug, PartialEq, Eq, Structural)]
pub enum TokenError {
    /// Funds are unavailable.
    NoFunds,
    /// Account that must exist would die.
    WouldDie,
    /// Account cannot exist with the funds that would be given.
    BelowMinimum,
    /// Account cannot be created.
    CannotCreate,
    /// The asset in question is unknown.
    UnknownAsset,
    /// Funds exist but are frozen.
    Frozen,
    /// Operation is not supported by the asset.
    Unsupported,
}

/// Why a call fails.
#[derive(Clone, Copy, Debug, PartialEq, Eq, Structural)]
pub enum DispatchError {
    /// The origin may not make the call.
    BadOrigin,
    /// An address names no account.
    CannotLookup,
    /// A computation has no result.
    Arithmetic(ArithmeticError),
    /// This pallet refuses the call.
    Module(Error),
    /// The runtime refuses to move tokens.
    Token(TokenError),
    /// Another pallet refuses the call.
    Foreign {
        /// The index of that pallet in the runtime.
        index: u8,
        /// Its error.
        error: u32,
    },
    /// At least one consumer of an account remains.
    ConsumerRemaining,
    /// There are no providers of an account.
    NoProviders,
    /// There are too many consumers of an account.
    TooManyConsumers,
    /// The runtime gives another reason.
    Other,
}

/// What a call without a value of its own returns.
pub type DispatchResult = Result<(), DispatchError>;

/// What the pallet reports.
#[derive(Clone, Copy, Debug, PartialEq)]
pub enum Event<M> {
    /// Enable collateral for certain asset: sender and asset.
    CollateralAssetAdded(AccountId, CurrencyId),
    /// Disable collateral for certain asset: sender and asset.
    CollateralAssetRemoved(AccountId, CurrencyId),
    /// Assets are deposited: sender, asset and amount.
    Deposited(AccountId, CurrencyId, Balance),
    /// Assets are redeemed: sender, asset and amount.
    Redeemed(AccountId, CurrencyId, Balance),
    /// Cash is borrowed: sender, asset and amount.
    Borrowed(AccountId, CurrencyId, Balance),
    /// A borrow is repaid: sender, asset and amount.
    RepaidBorrow(AccountId, CurrencyId, Balance),
    /// A borrow is liquidated: liquidator, borrower, the repaid and the seized asset, and the
    /// amount of each.
    LiquidatedBorrow(AccountId, AccountId, CurrencyId, CurrencyId, Balance, Balance),
    /// The reserves are reduced: admin, asset, reduced amount and total reserves.
    ReservesReduced(AccountId, CurrencyId, Balance, Balance),
    /// The reserves are added to: admin, asset, added amount and total reserves.
    ReservesAdded(AccountId, CurrencyId, Balance, Balance),
    /// A market is added.
    NewMarket(Market<M>),
    /// A market is activated.
    ActivatedMarket(CurrencyId),
    /// A market is changed.
    UpdatedMarket(Market<M>),
}

/// The refusal of this pallet for a reason.
pub open spec fn refused(reason: Error) -> DispatchError {
    DispatchError::Module(reason)
}

/// The failure of a sum or product that is too great.
pub open spec fn overflow() -> DispatchError {
    DispatchError::Arithmetic(ArithmeticError::Overflow)
}

/// The failure of a difference that is negative, or of a quotient.
pub open spec fn underflow() -> DispatchError {
    DispatchError::Arithmetic(ArithmeticError::Underflow)
}

}
