//! Properties of the redeem module that span its functions.
use vstd::prelude::*;
use crate::arithmetic::{spec_partial_redeem, spec_partial_redeem_factor, spec_to_amount, SCALE};
use crate::dispatch::{
    cancel_time_check, execute_time_check, liquidation_split, new_request, request_check,
    request_redeem_defined, spec_slash_amount, vault_redeem_action, RedeemAmounts, RequestRedeem,
    RequestRedeemReads, VaultRedeemAction,
};
use crate::storage::lookup;
use crate::types::{BlockNumber, DispatchError, Error, PolkaBTC, RedeemId, RedeemRequest, DOT};

verus! {

/// A request to redeem that passes its checks asks for no more than the user
/// holds and the vault has issued, and for no less than the dust value.
pub proof fn law_accepted_request_within_bounds<E>(
    amount: PolkaBTC,
    dust: PolkaBTC,
    reads: RequestRedeemReads<E>,
)
    requires
        request_check(amount, dust, reads) is None,
    ensures
        amount <= reads.redeemer_balance,
        dust <= amount,
        reads.vault_issued_tokens matches Ok(issued) && amount <= issued,
        reads.vault_not_banned is Ok,
{
}

/// A request stored under an identifier is what looking that identifier up
/// gives afterwards, and the requests under other identifiers stay as they
/// were.
pub proof fn law_lookup_after_insert(
    requests: Map<RedeemId, RedeemRequest>,
    key: RedeemId,
    value: RedeemRequest,
    other: RedeemId,
)
    ensures
        lookup(requests.insert(key, value), key) == Ok::<RedeemRequest, Error>(value),
        other != key ==> lookup(requests.insert(key, value), other) == lookup(requests, other),
{
}

/// Once the request under an identifier is removed (on execution or
/// cancellation), looking it up fails with `RedeemIdNotFound`, and the
/// requests under other identifiers stay as they were.
pub proof fn law_lookup_after_remove(
    requests: Map<RedeemId, RedeemRequest>,
    key: RedeemId,
    other: RedeemId,
)
    ensures
        lookup(requests.remove(key), key) == Err::<RedeemRequest, Error>(Error::RedeemIdNotFound),
        other != key ==> lookup(requests.remove(key), other) == lookup(requests, other),
{
}

/// At every height a request can either still be executed by its vault or be
/// cancelled by its user, never both and never neither.
pub proof fn law_execute_or_cancel(opentime: BlockNumber, period: BlockNumber, height: BlockNumber)
    ensures
        execute_time_check(opentime, period, height) is Ok <==> cancel_time_check(
            opentime,
            period,
            height,
        ) is Err,
{
}

/// During a liquidation the redeemed amount splits into the part the vault
/// pays in BTC and the part paid in DOT: the two add up to the amount, and
/// where the request passes its checks and is decided, neither part is
/// negative.
pub proof fn law_liquidation_split_adds_up<E>(
    amount: PolkaBTC,
    dust: PolkaBTC,
    reads: RequestRedeemReads<E>,
)
    ensures
        liquidation_split(amount, reads) matches Ok((dot_in_btc, amount_btc)) ==> {
            &&& dot_in_btc + amount_btc == amount
            &&& (request_redeem_defined(amount, dust, reads) && request_check(amount, dust, reads)
                is None && reads.liquidation) ==> 0 <= dot_in_btc && 0 <= amount_btc <= amount
        },
{
    if let Ok(tlv) = reads.total_liquidation_value {
        if reads.total_supply > 0 {
            let f = spec_partial_redeem_factor(tlv, reads.total_supply);
            assert(f >= 0) by (nonlinear_arith)
                requires
                    f == tlv as int / reads.total_supply as int,
                    reads.total_supply > 0,
                    tlv >= 0,
            ;
            if let Some(d) = spec_partial_redeem(amount as int, f) {
                assert(d >= 0) by (nonlinear_arith)
                    requires
                        d == (amount as int * f) / 100_000,
                        amount >= 0,
                        f >= 0,
                ;
            }
        }
    }
}

/// Where the partial redeem factor is at most `SCALE` (the liquidation value
/// does not exceed the supply scaled by `SCALE`), the DOT part of a redeem
/// never exceeds the redeemed amount, so a liquidation redeem is always
/// decided.
pub proof fn law_partial_redeem_within_amount(raw_btc: u128, factor: u128)
    requires
        factor <= SCALE,
    ensures
        spec_partial_redeem(raw_btc as int, factor as int) matches Some(d) ==> 0 <= d <= raw_btc,
{
    if let Some(d) = spec_partial_redeem(raw_btc as int, factor as int) {
        assert(0 <= d <= raw_btc) by (nonlinear_arith)
            requires
                d == (raw_btc as int * factor as int) / 100_000,
                factor <= 100_000,
                raw_btc >= 0,
                factor >= 0,
        ;
    }
}

/// A user who cancels and asks to be reimbursed gets the whole value of the
/// request plus exactly the collateral that is slashed to a user who keeps
/// the PolkaBTC.
pub proof fn law_reimbursement_is_value_plus_slash(amount_in_dot: DOT, punishment_fee: DOT)
    ensures
        spec_slash_amount(amount_in_dot as int, punishment_fee as int, true) matches Ok(x) ==> (
        spec_slash_amount(amount_in_dot as int, punishment_fee as int, false) matches Ok(y) && x
            == amount_in_dot + y),
{
    let d = amount_in_dot as int;
    let fee = punishment_fee as int;
    assert(d * (100_000 + fee) == d * 100_000 + d * fee) by (nonlinear_arith);
    assert((d * 100_000 + d * fee) / 100_000 == d + (d * fee) / 100_000) by (nonlinear_arith)
        requires
            d >= 0,
            fee >= 0,
    ;
    assert(d * fee <= d * (100_000 + fee)) by (nonlinear_arith)
        requires
            d >= 0,
            fee >= 0,
    ;
    assert(0 <= (d * fee) / 100_000) by (nonlinear_arith)
        requires
            d >= 0,
            fee >= 0,
    ;
}

/// A user may redeem up to the whole balance: the balance check fails
/// exactly when the amount exceeds the balance, and a request within the
/// balance, the vault's issued tokens and above the dust value, at a vault
/// that exists and is not banned, passes all checks.
pub proof fn law_balance_check<E>(amount: PolkaBTC, dust: PolkaBTC, reads: RequestRedeemReads<E>)
    ensures
        request_check(amount, dust, reads) == Some(
            DispatchError::<E>::Module(Error::AmountExceedsUserBalance),
        ) <==> amount > reads.redeemer_balance,
        reads.vault_issued_tokens matches Ok(issued) ==> ((amount <= reads.redeemer_balance
            && amount <= issued && reads.vault_not_banned is Ok && dust <= amount)
            ==> request_check(amount, dust, reads) is None),
{
}

/// A request can be executed up to and including its deadline, the height at
/// which it opened plus the redeem period, and cancelled only after it.
pub proof fn law_commit_deadline(opentime: BlockNumber, period: BlockNumber, height: BlockNumber)
    ensures
        execute_time_check(opentime, period, height) is Ok <==> height <= opentime + period,
        execute_time_check(opentime, period, height) is Err ==> execute_time_check(
            opentime,
            period,
            height,
        ) == Err::<(), Error>(Error::CommitPeriodExpired),
        cancel_time_check(opentime, period, height) is Ok <==> height > opentime + period,
        cancel_time_check(opentime, period, height) is Err ==> cancel_time_check(
            opentime,
            period,
            height,
        ) == Err::<(), Error>(Error::TimeNotExpired),
{
}

/// The partial redeem factor is the whole number of times the supply fits in
/// the liquidation value.
pub proof fn law_partial_redeem_factor_is_quotient(total_liquidation_value: u128, total_supply: PolkaBTC)
    requires
        total_supply > 0,
    ensures
        ({
            let f = spec_partial_redeem_factor(total_liquidation_value, total_supply);
            &&& 0 <= f
            &&& f * total_supply <= total_liquidation_value
            &&& total_liquidation_value < (f + 1) * total_supply
        }),
{
    let f = spec_partial_redeem_factor(total_liquidation_value, total_supply);
    let t = total_liquidation_value as int;
    let q = total_supply as int;
    assert(0 <= f && f * q <= t && t < (f + 1) * q) by (nonlinear_arith)
        requires
            f == t / q,
            q > 0,
            t >= 0,
    ;
}

/// The DOT share of a raw amount is the amount times the factor, divided by
/// `SCALE` and rounded down; it is missing exactly where the product does
/// not fit in a `u128`.
pub proof fn law_partial_redeem_is_scaled_floor(raw_btc: u128, factor: u128)
    ensures
        spec_partial_redeem(raw_btc as int, factor as int) is None <==> raw_btc * factor > u128::MAX,
        spec_partial_redeem(raw_btc as int, factor as int) matches Some(d) ==> {
            &&& 0 <= d
            &&& d * 100_000 <= raw_btc * factor
            &&& raw_btc * factor < (d + 1) * 100_000
        },
{
    if let Some(d) = spec_partial_redeem(raw_btc as int, factor as int) {
        let p = raw_btc as int * factor as int;
        assert(p >= 0) by (nonlinear_arith)
            requires
                raw_btc >= 0,
                factor >= 0,
                p == raw_btc as int * factor as int,
        ;
        assert(0 <= d && d * 100_000 <= p && p < (d + 1) * 100_000) by (nonlinear_arith)
            requires
                d == p / 100_000,
                p >= 0,
        ;
    }
}

/// The collateral slashed to a user who keeps the PolkaBTC is the value of
/// the request times the punishment fee, divided by `SCALE` and rounded
/// down; to a user who is reimbursed, the value times `SCALE` plus the fee,
/// divided by `SCALE` and rounded down. Either is given exactly where it
/// fits in DOT; otherwise the error is `ConversionError`.
pub proof fn law_slash_amount_is_scaled_floor(amount_in_dot: u128, punishment_fee: DOT)
    ensures
        spec_slash_amount(amount_in_dot as int, punishment_fee as int, false) matches Ok(s) ==> {
            &&& s * 100_000 <= amount_in_dot * punishment_fee
            &&& amount_in_dot * punishment_fee < (s + 1) * 100_000
        },
        amount_in_dot * punishment_fee < 100_000 * (u64::MAX + 1) ==> spec_slash_amount(
            amount_in_dot as int,
            punishment_fee as int,
            false,
        ) is Ok,
        spec_slash_amount(amount_in_dot as int, punishment_fee as int, true) matches Ok(s) ==> {
            &&& s * 100_000 <= amount_in_dot * (100_000 + punishment_fee)
            &&& amount_in_dot * (100_000 + punishment_fee) < (s + 1) * 100_000
        },
        amount_in_dot * (100_000 + punishment_fee) < 100_000 * (u64::MAX + 1) ==> spec_slash_amount(
            amount_in_dot as int,
            punishment_fee as int,
            true,
        ) is Ok,
        spec_slash_amount(amount_in_dot as int, punishment_fee as int, false) is Err
            ==> spec_slash_amount(amount_in_dot as int, punishment_fee as int, false) == Err::<
            DOT,
            Error,
        >(Error::ConversionError),
        spec_slash_amount(amount_in_dot as int, punishment_fee as int, true) is Err
            ==> spec_slash_amount(amount_in_dot as int, punishment_fee as int, true) == Err::<
            DOT,
            Error,
        >(Error::ConversionError),
{
    let d = amount_in_dot as int;
    let fee = punishment_fee as int;
    let p0 = d * fee;
    let p1 = d * (100_000 + fee);
    assert(p0 >= 0 && p1 >= 0) by (nonlinear_arith)
        requires
            d >= 0,
            fee >= 0,
            p0 == d * fee,
            p1 == d * (100_000 + fee),
    ;
    assert(p0 / 100_000 * 100_000 <= p0 && p0 < (p0 / 100_000 + 1) * 100_000) by (nonlinear_arith)
        requires
            p0 >= 0,
    ;
    assert(p1 / 100_000 * 100_000 <= p1 && p1 < (p1 / 100_000 + 1) * 100_000) by (nonlinear_arith)
        requires
            p1 >= 0,
    ;
}

/// The request stored when a redeem is opened records the call as made: the
/// whole amount of PolkaBTC the user locked (whatever its split), the vault,
/// the user, the address, the opening height, and the split; its premium is
/// the redeem premium fee where the vault is below the premium threshold,
/// else nothing.
pub proof fn law_stored_request_records_call(
    call: RequestRedeem,
    height: BlockNumber,
    amounts: RedeemAmounts,
    below_premium_threshold: bool,
    redeem_premium_fee: DOT,
)
    ensures
        ({
            let r = new_request(call, height, amounts, below_premium_threshold, redeem_premium_fee);
            &&& r.amount_polka_btc == call.amount_polka_btc
            &&& r.vault == call.vault_id
            &&& r.redeemer == call.redeemer
            &&& r.btc_address == call.btc_address
            &&& r.opentime == height
            &&& r.amount_btc == amounts.amount_btc
            &&& r.amount_dot == amounts.amount_dot
            &&& below_premium_threshold ==> r.premium_dot == redeem_premium_fee
            &&& !below_premium_threshold ==> r.premium_dot == 0
        }),
{
}

/// The checks of a redeem request, in order: the user's balance, then the
/// vault lookup and ban (whose errors are passed on), then the vault's
/// issued tokens, then the dust value.
pub proof fn law_request_checks_in_order<E>(amount: PolkaBTC, dust: PolkaBTC, reads: RequestRedeemReads<E>)
    ensures
        amount <= reads.redeemer_balance ==> (reads.vault_issued_tokens matches Err(e)
            ==> request_check(amount, dust, reads) == Some(DispatchError::<E>::Other(e))),
        amount <= reads.redeemer_balance ==> (reads.vault_issued_tokens is Ok
            ==> (reads.vault_not_banned matches Err(e) ==> request_check(amount, dust, reads) == Some(
            DispatchError::<E>::Other(e),
        ))),
        reads.vault_issued_tokens matches Ok(issued) ==> ((amount <= reads.redeemer_balance
            && reads.vault_not_banned is Ok && amount > issued) ==> request_check(amount, dust, reads)
            == Some(DispatchError::<E>::Module(Error::AmountExceedsVaultBalance))),
        reads.vault_issued_tokens matches Ok(issued) ==> ((amount <= reads.redeemer_balance
            && reads.vault_not_banned is Ok && amount <= issued && amount < dust) ==> request_check(
            amount,
            dust,
            reads,
        ) == Some(DispatchError::<E>::Module(Error::AmountBelowDustAmount))),
{
}

/// When a request is executed, the vault registry is asked to pay the
/// premium exactly where the request carries one, and always for the whole
/// PolkaBTC amount of the request, its vault and (with a premium) its user.
pub proof fn law_vault_redeem_action(request: RedeemRequest)
    ensures
        vault_redeem_action(request) is RedeemTokensPremium <==> request.premium_dot > 0,
        vault_redeem_action(request) matches VaultRedeemAction::RedeemTokensPremium {
            vault,
            amount_polka_btc,
            premium_dot,
            redeemer,
        } ==> vault == request.vault && amount_polka_btc == request.amount_polka_btc && premium_dot
            == request.premium_dot && redeemer == request.redeemer,
        vault_redeem_action(request) matches VaultRedeemAction::RedeemTokens {
            vault,
            amount_polka_btc,
        } ==> vault == request.vault && amount_polka_btc == request.amount_polka_btc,
{
}

/// A raw value converts to an amount exactly where it fits in a `u64`, and
/// then to itself.
pub proof fn law_to_amount(x: int)
    ensures
        spec_to_amount(x) is Ok <==> 0 <= x <= u64::MAX,
        spec_to_amount(x) matches Ok(v) ==> v == x,
        spec_to_amount(x) is Err ==> spec_to_amount(x) == Err::<u64, Error>(Error::ConversionError),
{
}

} // verus!
