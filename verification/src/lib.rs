//! A merchant loyalty-points ledger kept in the instance storage of a
//! Soroban contract.
//!
//! Merchants register themselves, issue points to users, and users redeem
//! points at any registered merchant. Every operation validates first and
//! writes afterwards, so a rejected call leaves the stored ledger as it was,
//! and the stored supply counter always equals the sum of the stored
//! balances.
pub mod contract;
pub mod error;
pub mod host;
pub mod laws;
pub mod model;
pub mod records;

pub use contract::LoyaltyTokenContract;
pub use error::Error;
pub use model::LedgerState;
pub use records::{MerchantBook, MerchantData, UserBalance, UserBook};
