//! Verified core of a staking program for Metaplex Core assets: market-hour
//! rules, oracle validation, configuration and the burn-reward computation.

mod constants;
pub mod account;
pub mod address;
pub mod burn;
pub mod collection;
pub mod config;
pub mod error;
pub mod market;
pub mod oracle;
pub mod text;

pub use constants::{MARKET_CLOSE_TIME, MARKET_OPEN_CLOSE_MARGIN, MARKET_OPEN_TIME, SECONDS_IN_A_DAY};
