//! Plain data of the redeem module: amounts, identifiers, stored requests,
//! errors and events.
use vstd::prelude::*;

verus! {

/// An account of the parachain (users and vaults alike).
pub type AccountId = u64;

/// A height of the parachain.
pub type BlockNumber = u64;

/// An amount of PolkaBTC, the token backed by BTC.
pub type PolkaBTC = u64;

/// An amount of DOT, the collateral currency.
pub type DOT = u64;

/// A weight of a dispatchable call.
pub type Weight = u64;

/// The 256-bit identifier of a redeem request.
#[derive(Clone, Copy, Debug, PartialEq, Eq)]
pub struct RedeemId(pub [u8; 32]);

/// The 160-bit hash of the bitcoin address that receives the redeemed BTC.
#[derive(Clone, Copy, Debug, PartialEq, Eq)]
pub struct BtcAddress(pub [u8; 20]);

/// A request of a user to exchange PolkaBTC for BTC sent by a vault.
#[derive(Clone, Copy, Debug, PartialEq, Eq)]
pub struct RedeemRequest {
    /// The vault that is to send the BTC.
    pub vault: AccountId,
    /// The height at which the request was opened.
    pub opentime: BlockNumber,
    /// The PolkaBTC locked by the user for this request.
    pub amount_polka_btc: PolkaBTC,
    /// The part of the amount that the vault pays out in BTC.
    pub amount_btc: PolkaBTC,
    /// The part of the amount that is paid out in DOT (liquidation only).
    pub amount_dot: DOT,
    /// The premium in DOT that the vault pays to the user.
    pub premium_dot: DOT,
    /// The user who asked for the redeem.
    pub redeemer: AccountId,
    /// Where the BTC is to be sent.
    pub btc_address: BtcAddress,
}

/// The errors of the redeem module.
#[derive(Clone, Copy, Debug, PartialEq, Eq, Structural)]
pub enum Error {
    AmountExceedsUserBalance,
    AmountExceedsVaultBalance,
    UnauthorizedVault,
    CommitPeriodExpired,
    UnauthorizedUser,
    TimeNotExpired,
    RedeemIdNotFound,
    ConversionError,
    AmountBelowDustAmount,
}

/// The reason a call failed: an error of this module, or an error that a
/// module it consults (such as the exchange rate oracle) reported.
#[derive(Debug, PartialEq, Eq)]
pub enum DispatchError<E> {
    Module(Error),
    Other(E),
}

/// The events of the redeem module.
#[derive(Clone, Copy, Debug, PartialEq, Eq)]
pub enum Event {
    /// id, redeemer, amount of PolkaBTC, vault, bitcoin address
    RequestRedeem(RedeemId, AccountId, PolkaBTC, AccountId, BtcAddress),
    /// id, redeemer, vault
    ExecuteRedeem(RedeemId, AccountId, AccountId),
    /// id, redeemer
    CancelRedeem(RedeemId, AccountId),
}

/// The weights of the dispatchable calls of this module.
pub trait WeightInfo {
    fn request_redeem() -> Weight;

    fn execute_redeem() -> Weight;

    fn cancel_redeem() -> Weight;
}

/// The configuration of the module that a runtime supplies.
pub trait Trait {
    /// Weight information for the dispatchable calls of this module.
    type WeightInfo: WeightInfo;
}

} // verus!
