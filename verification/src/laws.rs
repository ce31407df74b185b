//! What holds of the pallet as a whole: properties of all calls, and of one call after another.

pub mod arithmetic;
pub mod calls;
pub mod debts;
pub mod deposits;
pub mod effects;
pub mod histories;
pub mod interest;
pub mod liquidity;
pub mod markets;
pub mod reads;
pub mod refusals;
pub mod reserves;
pub mod rounding;
pub mod sums;
pub mod tokens;
pub mod totals;
pub mod values;
pub mod vouchers;
