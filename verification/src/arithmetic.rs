//! Conversions between amounts and raw `u128` values, and the share of a
//! redeem that is paid out in DOT while vaults are being liquidated.
use vstd::prelude::*;
use crate::laws::{
    law_partial_redeem_factor_is_quotient, law_partial_redeem_is_scaled_floor, law_to_amount,
};
use crate::storage::Module;
use crate::types::{DispatchError, Error, PolkaBTC, DOT};

verus! {

/// The denominator of the partial redeem factor and of the punishment fee.
pub const SCALE: u128 = 100_000;

/// The fraction (scaled by `SCALE`) of a redeem that is paid out in DOT,
/// given the total liquidation value and the total PolkaBTC supply.
pub open spec fn spec_partial_redeem_factor(total_liquidation_value: u128, total_supply: PolkaBTC) -> int {
    total_liquidation_value as int / total_supply as int
}

/// The part of `raw_btc` that is paid out in DOT, or `None` where the
/// product overflows a `u128`.
pub open spec fn spec_partial_redeem(raw_btc: int, factor: int) -> Option<int> {
    if raw_btc * factor > u128::MAX {
        None
    } else {
        Some(raw_btc * factor / SCALE as int)
    }
}

/// The value of a raw amount as an amount of the `u64` currencies.
pub open spec fn spec_to_amount(x: int) -> Result<u64, Error> {
    if 0 <= x <= u64::MAX {
        Ok(x as u64)
    } else {
        Err(Error::ConversionError)
    }
}

impl Module {
    /// The raw value of an amount of PolkaBTC.
    pub fn btc_to_u128(amount: PolkaBTC) -> (r: Result<u128, Error>)
        ensures
            r == Ok::<u128, Error>(amount as u128),
    {
        Ok(amount as u128)
    }

    /// The raw value of an amount of DOT.
    pub fn dot_to_u128(amount: DOT) -> (r: Result<u128, Error>)
        ensures
            r == Ok::<u128, Error>(amount as u128),
    {
        Ok(amount as u128)
    }

    /// A raw value as an amount of DOT, or `ConversionError` where it does
    /// not fit.
    pub fn u128_to_dot(x: u128) -> (r: Result<DOT, Error>)
        ensures
            r == spec_to_amount(x as int),
            r is Ok <==> x <= u64::MAX,
            r matches Ok(v) ==> v == x,
            r is Err ==> r == Err::<u64, Error>(Error::ConversionError),
    {
        proof {
            law_to_amount(x as int);
        }
        if x <= u64::MAX as u128 {
            Ok(x as u64)
        } else {
            Err(Error::ConversionError)
        }
    }

    /// A raw value as an amount of PolkaBTC, or `ConversionError` where it
    /// does not fit.
    pub fn u128_to_btc(x: u128) -> (r: Result<PolkaBTC, Error>)
        ensures
            r == spec_to_amount(x as int),
            r is Ok <==> x <= u64::MAX,
            r matches Ok(v) ==> v == x,
            r is Err ==> r == Err::<u64, Error>(Error::ConversionError),
    {
        proof {
            law_to_amount(x as int);
        }
        if x <= u64::MAX as u128 {
            Ok(x as u64)
        } else {
            Err(Error::ConversionError)
        }
    }

    /// The fraction of BTC to be redeemed in DOT while the parachain is in
    /// error because of a liquidation: the total liquidation value divided by
    /// the total PolkaBTC supply.
    pub fn get_partial_redeem_factor(total_liquidation_value: u128, total_supply: PolkaBTC) -> (r:
        Result<u128, Error>)
        requires
            total_supply > 0,
        ensures
            r matches Ok(f) && f == spec_partial_redeem_factor(total_liquidation_value, total_supply),
            r matches Ok(f) && f * total_supply <= total_liquidation_value
                && total_liquidation_value < (f + 1) * total_supply,
    {
        proof {
            law_partial_redeem_factor_is_quotient(total_liquidation_value, total_supply);
        }
        let total_supply = Self::btc_to_u128(total_supply)?;
        Ok(total_liquidation_value / total_supply)
    }

    /// The part of `raw_btc` that is paid out in DOT during a liquidation:
    /// `raw_btc` times the partial redeem factor, divided by `SCALE`;
    /// `ConversionError` where the product overflows.
    pub fn partial_redeem(raw_btc: u128, total_liquidation_value: u128, total_supply: PolkaBTC) -> (r:
        Result<u128, Error>)
        requires
            total_supply > 0,
        ensures
            r == (match spec_partial_redeem(
                raw_btc as int,
                spec_partial_redeem_factor(total_liquidation_value, total_supply),
            ) {
                Some(v) => Ok::<u128, Error>(v as u128),
                None => Err(Error::ConversionError),
            }),
            r matches Ok(d) ==> {
                &&& d * 100_000 <= raw_btc * (total_liquidation_value as int / total_supply as int)
                &&& raw_btc * (total_liquidation_value as int / total_supply as int) < (d + 1)
                    * 100_000
            },
            raw_btc * (total_liquidation_value as int / total_supply as int) <= u128::MAX ==> r is Ok,
            r is Err ==> r == Err::<u128, Error>(Error::ConversionError),
    {
        proof {
            law_partial_redeem_is_scaled_floor(
                raw_btc,
                (total_liquidation_value as int / total_supply as int) as u128,
            );
            law_partial_redeem_factor_is_quotient(total_liquidation_value, total_supply);
        }
        let factor = Self::get_partial_redeem_factor(total_liquidation_value, total_supply)?;
        match raw_btc.checked_mul(factor) {
            Some(product) => match product.checked_div(SCALE) {
                Some(v) => {
                    assert(0 <= v <= product) by (nonlinear_arith)
                        requires
                            v == product / 100_000,
                    ;
                    Ok(v)
                },
                None => Err(Error::ConversionError),
            },
            None => Err(Error::ConversionError),
        }
    }

    /// The value in DOT of a raw amount of BTC, as the exchange rate oracle
    /// `btc_to_dots` converts it: `ConversionError` where the amount does not
    /// fit in PolkaBTC, else the oracle's answer or its error.
    pub fn rawbtc_to_rawdot<E, F: Fn(PolkaBTC) -> Result<DOT, E>>(btc: u128, btc_to_dots: F) -> (r:
        Result<u128, DispatchError<E>>)
        requires
            forall|b: PolkaBTC| btc_to_dots.requires((b,)),
        ensures
            btc > u64::MAX ==> r matches Err(DispatchError::Module(Error::ConversionError)),
            btc <= u64::MAX ==> match r {
                Ok(v) => v <= u64::MAX && btc_to_dots.ensures((btc as u64,), Ok(v as u64)),
                Err(DispatchError::Other(e)) => btc_to_dots.ensures((btc as u64,), Err(e)),
                Err(DispatchError::Module(_)) => false,
            },
    {
        let amount = match Self::u128_to_btc(btc) {
            Ok(a) => a,
            Err(e) => {
                return Err(DispatchError::Module(e));
            },
        };
        match btc_to_dots(amount) {
            Ok(dots) => match Self::dot_to_u128(dots) {
                Ok(v) => Ok(v),
                Err(e) => Err(DispatchError::Module(e)),
            },
            Err(e) => Err(DispatchError::Other(e)),
        }
    }
}

} // verus!
