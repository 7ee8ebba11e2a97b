//! The redeem module of the PolkaBTC bridge: users lock PolkaBTC and ask a
//! vault to send them BTC; the vault proves the payment, or the user cancels
//! and is compensated from the vault's collateral.
pub mod types;
pub mod storage;
pub mod arithmetic;
pub mod dispatch;
pub mod laws;

pub use crate::storage::Module;
pub use crate::types::{
    AccountId, BlockNumber, BtcAddress, DispatchError, Error, Event, PolkaBTC, RedeemId, RedeemRequest,
    Trait, Weight, WeightInfo, DOT,
};
