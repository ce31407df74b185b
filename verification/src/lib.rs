//! # Loans
//!
//! A lending protocol with a pool-based strategy that aggregates each user's supplied assets. The
//! interest rate is dynamically determined by the supply and demand.
//!
//! A [`pallet::Pallet`] is a pool. Its calls are in [`markets`], [`supply`], [`credit`],
//! [`collateral`], [`liquidation`], [`reserves`] and [`hooks`], and [`call::Call`] has them all as
//! values. Each call is specified by a function on [`pallet::State`], the mathematical value of a
//! pool, that gives the state to which the call leads, or the reason why it fails. What holds of
//! all of them together is in [`laws`].

pub mod account;
pub mod call;
pub mod collateral;
pub mod config;
pub mod credit;
pub mod fixed;
pub mod hooks;
pub mod laws;
pub mod liquidation;
pub mod markets;
pub mod pallet;
pub mod reserves;
pub mod storage;
pub mod storage_map;
pub mod supply;
pub mod types;
pub mod valuation;
