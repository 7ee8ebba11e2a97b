//! The decisions of the three calls of the redeem module.
//!
//! Each call consults other modules (treasury, vault registry, security,
//! exchange rate oracle, BTC relay) and asks them to move tokens. The
//! functions here take what those modules reported, decide, and describe
//! what is to be done; the state of this module changes only through
//! `complete_request_redeem` and `remove_redeem_request`, once the other
//! modules have done their part.
use vstd::prelude::*;
use crate::arithmetic::{
    spec_partial_redeem, spec_partial_redeem_factor, spec_to_amount, SCALE,
};
use crate::laws::{
    law_balance_check, law_commit_deadline, law_request_checks_in_order,
    law_slash_amount_is_scaled_floor, law_stored_request_records_call, law_vault_redeem_action,
};
use crate::storage::{lookup, Module};
use crate::types::{
    AccountId, BlockNumber, BtcAddress, DispatchError, Error, Event, PolkaBTC, RedeemId,
    RedeemRequest, DOT,
};

verus! {

/// The arguments of a call that asks to redeem PolkaBTC.
#[derive(Clone, Copy, Debug)]
pub struct RequestRedeem {
    /// The user who signed the call.
    pub redeemer: AccountId,
    /// The amount of PolkaBTC to redeem.
    pub amount_polka_btc: PolkaBTC,
    /// Where the BTC is to be sent.
    pub btc_address: BtcAddress,
    /// The vault asked to send the BTC.
    pub vault_id: AccountId,
}

/// What other modules report when a user asks to redeem.
pub struct RequestRedeemReads<E> {
    /// The PolkaBTC balance of the redeemer (treasury).
    pub redeemer_balance: PolkaBTC,
    /// The tokens issued by the vault, or the error of looking the vault up
    /// (vault registry).
    pub vault_issued_tokens: Result<PolkaBTC, E>,
    /// Whether the vault is not banned at the current height (vault registry).
    pub vault_not_banned: Result<(), E>,
    /// Whether the parachain is in error because of a liquidation (security).
    pub liquidation: bool,
    /// The total liquidation value (vault registry).
    pub total_liquidation_value: Result<u128, E>,
    /// The total supply of PolkaBTC (treasury).
    pub total_supply: PolkaBTC,
}

/// How a redeem is paid out.
#[derive(Clone, Copy, Debug, PartialEq, Eq, Structural)]
pub struct RedeemAmounts {
    /// The part that the vault pays in BTC.
    pub amount_btc: PolkaBTC,
    /// The part that is paid in DOT from the liquidation vault.
    pub amount_dot: DOT,
}

/// The outcome of the checks of a redeem request: the first that fails, or
/// `None` where all pass.
pub open spec fn request_check<E>(amount: PolkaBTC, dust: PolkaBTC, reads: RequestRedeemReads<E>) -> Option<
    DispatchError<E>,
> {
    if amount > reads.redeemer_balance {
        Some(DispatchError::Module(Error::AmountExceedsUserBalance))
    } else {
        match reads.vault_issued_tokens {
            Err(e) => Some(DispatchError::Other(e)),
            Ok(issued) => match reads.vault_not_banned {
                Err(e) => Some(DispatchError::Other(e)),
                Ok(_) => if amount > issued {
                    Some(DispatchError::Module(Error::AmountExceedsVaultBalance))
                } else if amount < dust {
                    Some(DispatchError::Module(Error::AmountBelowDustAmount))
                } else {
                    None
                },
            },
        }
    }
}

/// During a liquidation: the part of the amount to be paid in DOT, in BTC
/// (what the oracle is asked to convert), and the part the vault pays in
/// BTC; or the error that stops the request first.
pub open spec fn liquidation_split<E>(amount: PolkaBTC, reads: RequestRedeemReads<E>) -> Result<
    (int, int),
    DispatchError<E>,
> {
    match reads.total_liquidation_value {
        Err(e) => Err(DispatchError::Other(e)),
        Ok(tlv) => match spec_partial_redeem(
            amount as int,
            spec_partial_redeem_factor(tlv, reads.total_supply),
        ) {
            None => Err(DispatchError::Module(Error::ConversionError)),
            Some(dot_in_btc) => Ok((dot_in_btc, amount - dot_in_btc)),
        },
    }
}

/// The inputs on which deciding a redeem request does not panic: where the
/// liquidation split is computed, the total supply is not zero and the DOT
/// part does not exceed the amount.
pub open spec fn request_redeem_defined<E>(
    amount: PolkaBTC,
    dust: PolkaBTC,
    reads: RequestRedeemReads<E>,
) -> bool {
    request_check(amount, dust, reads) is None && reads.liquidation
        && reads.total_liquidation_value is Ok ==> {
        &&& reads.total_supply > 0
        &&& liquidation_split(amount, reads) matches Ok((dot_in_btc, _)) ==> dot_in_btc <= amount
    }
}

/// The request that `complete_request_redeem` stores.
pub open spec fn new_request(
    call: RequestRedeem,
    height: BlockNumber,
    amounts: RedeemAmounts,
    below_premium_threshold: bool,
    redeem_premium_fee: DOT,
) -> RedeemRequest {
    RedeemRequest {
        vault: call.vault_id,
        opentime: height,
        amount_polka_btc: call.amount_polka_btc,
        amount_btc: amounts.amount_btc,
        amount_dot: amounts.amount_dot,
        premium_dot: if below_premium_threshold {
            redeem_premium_fee
        } else {
            0
        },
        redeemer: call.redeemer,
        btc_address: call.btc_address,
    }
}

/// Whether a request opened at `opentime` may still be executed at
/// `height`: the commit period has not run out.
pub open spec fn within_commit_period(
    opentime: BlockNumber,
    period: BlockNumber,
    height: BlockNumber,
) -> bool {
    height <= opentime + period
}

/// The time check of executing a request.
pub open spec fn execute_time_check(
    opentime: BlockNumber,
    period: BlockNumber,
    height: BlockNumber,
) -> Result<(), Error> {
    if within_commit_period(opentime, period, height) {
        Ok(())
    } else {
        Err(Error::CommitPeriodExpired)
    }
}

/// The time check of cancelling a request: only once it was not completed
/// in time.
pub open spec fn cancel_time_check(
    opentime: BlockNumber,
    period: BlockNumber,
    height: BlockNumber,
) -> Result<(), Error> {
    if within_commit_period(opentime, period, height) {
        Err(Error::TimeNotExpired)
    } else {
        Ok(())
    }
}

/// What the vault registry is asked to do when a redeem is executed.
#[derive(Clone, Copy, Debug, PartialEq, Eq, Structural)]
pub enum VaultRedeemAction {
    /// Redeem the tokens and pay the premium to the redeemer.
    RedeemTokensPremium {
        vault: AccountId,
        amount_polka_btc: PolkaBTC,
        premium_dot: DOT,
        redeemer: AccountId,
    },
    /// Redeem the tokens.
    RedeemTokens { vault: AccountId, amount_polka_btc: PolkaBTC },
}

/// The vault registry call of executing a request.
pub open spec fn vault_redeem_action(request: RedeemRequest) -> VaultRedeemAction {
    if request.premium_dot > 0 {
        VaultRedeemAction::RedeemTokensPremium {
            vault: request.vault,
            amount_polka_btc: request.amount_polka_btc,
            premium_dot: request.premium_dot,
            redeemer: request.redeemer,
        }
    } else {
        VaultRedeemAction::RedeemTokens {
            vault: request.vault,
            amount_polka_btc: request.amount_polka_btc,
        }
    }
}

/// What is to be done to execute a redeem request.
pub struct ExecuteRedeemPlan {
    /// The request being executed.
    pub request: RedeemRequest,
    /// The amount of BTC the transaction must pay, as the BTC relay takes it.
    pub amount: i64,
    /// The bytes of the address the transaction must pay.
    pub btc_address: Vec<u8>,
    /// The bytes of the request's identifier, which the transaction must carry.
    pub redeem_id: Vec<u8>,
    /// What the vault registry is to do once the PolkaBTC is burned.
    pub vault_action: VaultRedeemAction,
    /// The event to emit.
    pub event: Event,
}

/// What is to be done to cancel a redeem request.
pub struct CancelRedeemPlan {
    /// The request being cancelled.
    pub request: RedeemRequest,
    /// Whether the user is reimbursed in DOT (else the user keeps the PolkaBTC).
    pub reimburse: bool,
    /// The value in DOT of the request's PolkaBTC, as the oracle gave it.
    pub amount_in_dot: u128,
    /// The collateral of the vault to slash to the user, or the error that
    /// computing it gives.
    pub slash_amount: Result<DOT, Error>,
    /// The event to emit.
    pub event: Event,
}

/// The collateral slashed when a request is cancelled: the value of the
/// request times the punishment fee (plus the whole value where the user is
/// reimbursed), divided by `SCALE`.
pub open spec fn spec_slash_amount(amount_in_dot: int, punishment_fee: int, reimburse: bool) -> Result<
    DOT,
    Error,
> {
    let factor = if reimburse {
        SCALE + punishment_fee
    } else {
        punishment_fee
    };
    if amount_in_dot * factor > u128::MAX {
        Err(Error::ConversionError)
    } else {
        spec_to_amount(amount_in_dot * factor / SCALE as int)
    }
}

/// The bytes of an array, in order.
fn bytes_of<const N: usize>(a: &[u8; N]) -> (v: Vec<u8>)
    ensures
        v@ == a@,
{
    let mut v: Vec<u8> = Vec::new();
    let mut i: usize = 0;
    while i < N
        invariant
            0 <= i <= N,
            a@.len() == N,
            v@ == a@.subrange(0, i as int),
        decreases N - i,
    {
        v.push(a[i]);
        i = i + 1;
        assert(v@ =~= a@.subrange(0, i as int));
    }
    assert(a@.subrange(0, N as int) =~= a@);
    v
}

/// The collateral slashed when a request is cancelled.
pub fn slash_amount(amount_in_dot: u128, punishment_fee: DOT, reimburse: bool) -> (r: Result<
    DOT,
    Error,
>)
    ensures
        r == spec_slash_amount(amount_in_dot as int, punishment_fee as int, reimburse),
        !reimburse ==> (r matches Ok(s) ==> s * 100_000 <= amount_in_dot * punishment_fee
            && amount_in_dot * punishment_fee < (s + 1) * 100_000),
        reimburse ==> (r matches Ok(s) ==> s * 100_000 <= amount_in_dot * (100_000
            + punishment_fee) && amount_in_dot * (100_000 + punishment_fee) < (s + 1) * 100_000),
        !reimburse && amount_in_dot * punishment_fee < 100_000 * (u64::MAX + 1) ==> r is Ok,
        reimburse && amount_in_dot * (100_000 + punishment_fee) < 100_000 * (u64::MAX + 1) ==> r is Ok,
        r is Err ==> r == Err::<DOT, Error>(Error::ConversionError),
{
    proof {
        law_slash_amount_is_scaled_floor(amount_in_dot, punishment_fee);
    }
    let raw_punishment_fee = match Module::dot_to_u128(punishment_fee) {
        Ok(f) => f,
        Err(e) => {
            return Err(e);
        },
    };
    let factor = if reimburse {
        SCALE + raw_punishment_fee
    } else {
        raw_punishment_fee
    };
    let product = match amount_in_dot.checked_mul(factor) {
        Some(p) => p,
        None => {
            return Err(Error::ConversionError);
        },
    };
    let v = match product.checked_div(SCALE) {
        Some(v) => v,
        None => {
            return Err(Error::ConversionError);
        },
    };
    Module::u128_to_dot(v)
}

impl Module {
    /// Decides on a request to redeem `amount_polka_btc`: the user must hold
    /// the amount, the vault must exist, not be banned, have issued at least
    /// the amount, and the amount must not be below the dust value. During a
    /// liquidation a part of the amount is paid in DOT, converted by the
    /// oracle `btc_to_dots`. Gives how the redeem is paid out.
    pub fn request_redeem<E, F: Fn(PolkaBTC) -> Result<DOT, E>>(
        &self,
        amount_polka_btc: PolkaBTC,
        reads: RequestRedeemReads<E>,
        btc_to_dots: F,
    ) -> (r: Result<RedeemAmounts, DispatchError<E>>)
        requires
            forall|b: PolkaBTC| btc_to_dots.requires((b,)),
            request_redeem_defined(amount_polka_btc, self.spec_redeem_btc_dust_value(), reads),
        ensures
            match request_check(amount_polka_btc, self.spec_redeem_btc_dust_value(), reads) {
                Some(err) => r == Err::<RedeemAmounts, DispatchError<E>>(err),
                None => if !reads.liquidation {
                    r == Ok::<RedeemAmounts, DispatchError<E>>(
                        RedeemAmounts { amount_btc: amount_polka_btc, amount_dot: 0 },
                    )
                } else {
                    match liquidation_split(amount_polka_btc, reads) {
                        Err(err) => r == Err::<RedeemAmounts, DispatchError<E>>(err),
                        Ok((dot_in_btc, amount_btc)) => match r {
                            Ok(a) => a.amount_btc == amount_btc && btc_to_dots.ensures(
                                (dot_in_btc as u64,),
                                Ok(a.amount_dot),
                            ),
                            Err(DispatchError::Other(e)) => btc_to_dots.ensures(
                                (dot_in_btc as u64,),
                                Err(e),
                            ),
                            Err(DispatchError::Module(_)) => false,
                        },
                    }
                },
            },
            r matches Err(DispatchError::Module(Error::AmountExceedsUserBalance)) <==> amount_polka_btc
                > reads.redeemer_balance,
            reads.vault_issued_tokens matches Ok(issued) ==> ((!reads.liquidation && amount_polka_btc
                <= reads.redeemer_balance && amount_polka_btc <= issued && reads.vault_not_banned is Ok
                && self.spec_redeem_btc_dust_value() <= amount_polka_btc) ==> r == Ok::<
                RedeemAmounts,
                DispatchError<E>,
            >(RedeemAmounts { amount_btc: amount_polka_btc, amount_dot: 0 })),
            reads.vault_issued_tokens matches Ok(issued) ==> ((amount_polka_btc
                <= reads.redeemer_balance && reads.vault_not_banned is Ok && amount_polka_btc > issued)
                ==> r == Err::<RedeemAmounts, DispatchError<E>>(
                DispatchError::Module(Error::AmountExceedsVaultBalance),
            )),
            reads.vault_issued_tokens matches Ok(issued) ==> ((amount_polka_btc
                <= reads.redeemer_balance && reads.vault_not_banned is Ok && amount_polka_btc <= issued
                && amount_polka_btc < self.spec_redeem_btc_dust_value()) ==> r == Err::<
                RedeemAmounts,
                DispatchError<E>,
            >(DispatchError::Module(Error::AmountBelowDustAmount))),
    {
        proof {
            law_balance_check(amount_polka_btc, self.spec_redeem_btc_dust_value(), reads);
            law_request_checks_in_order(amount_polka_btc, self.spec_redeem_btc_dust_value(), reads);
        }
        let ghost reads0 = reads;
        let RequestRedeemReads {
            redeemer_balance,
            vault_issued_tokens,
            vault_not_banned,
            liquidation,
            total_liquidation_value,
            total_supply,
        } = reads;
        if amount_polka_btc > redeemer_balance {
            return Err(DispatchError::Module(Error::AmountExceedsUserBalance));
        }
        let issued = match vault_issued_tokens {
            Ok(issued) => issued,
            Err(e) => {
                return Err(DispatchError::Other(e));
            },
        };
        match vault_not_banned {
            Ok(()) => {},
            Err(e) => {
                return Err(DispatchError::Other(e));
            },
        }
        if amount_polka_btc > issued {
            return Err(DispatchError::Module(Error::AmountExceedsVaultBalance));
        }
        let dust_value = self.redeem_btc_dust_value();
        if amount_polka_btc < dust_value {
            return Err(DispatchError::Module(Error::AmountBelowDustAmount));
        }
        if !liquidation {
            return Ok(RedeemAmounts { amount_btc: amount_polka_btc, amount_dot: 0 });
        }
        let tlv = match total_liquidation_value {
            Ok(v) => v,
            Err(e) => {
                return Err(DispatchError::Other(e));
            },
        };
        let raw_amount_polka_btc = match Self::btc_to_u128(amount_polka_btc) {
            Ok(v) => v,
            Err(e) => {
                return Err(DispatchError::Module(e));
            },
        };
        let amount_dot_in_btc = match Self::partial_redeem(raw_amount_polka_btc, tlv, total_supply) {
            Ok(v) => v,
            Err(e) => {
                return Err(DispatchError::Module(e));
            },
        };
        assert(liquidation_split(amount_polka_btc, reads0) matches Ok((d, _)) && d
            == amount_dot_in_btc);
        let amount_btc: u128 = raw_amount_polka_btc - amount_dot_in_btc;
        let amount_dot = match Self::rawbtc_to_rawdot(amount_dot_in_btc, btc_to_dots) {
            Ok(v) => v,
            Err(e) => {
                return Err(e);
            },
        };
        let amount_btc = match Self::u128_to_btc(amount_btc) {
            Ok(v) => v,
            Err(e) => {
                return Err(DispatchError::Module(e));
            },
        };
        let amount_dot = match Self::u128_to_dot(amount_dot) {
            Ok(v) => v,
            Err(e) => {
                return Err(DispatchError::Module(e));
            },
        };
        Ok(RedeemAmounts { amount_btc, amount_dot })
    }

    /// Whether deciding a request to redeem `amount_polka_btc` with these
    /// reads is defined: false exactly where the liquidation split would
    /// divide by a zero supply or take more than the amount.
    pub fn request_redeem_is_defined<E>(&self, amount_polka_btc: PolkaBTC, reads: &RequestRedeemReads<E>) -> (r: bool)
        ensures
            r == request_redeem_defined(amount_polka_btc, self.spec_redeem_btc_dust_value(), *reads),
    {
        if amount_polka_btc > reads.redeemer_balance {
            return true;
        }
        let issued = match &reads.vault_issued_tokens {
            Ok(issued) => *issued,
            Err(_) => {
                return true;
            },
        };
        if reads.vault_not_banned.is_err() || amount_polka_btc > issued
            || amount_polka_btc < self.redeem_btc_dust_value() || !reads.liquidation {
            return true;
        }
        let tlv = match &reads.total_liquidation_value {
            Ok(v) => *v,
            Err(_) => {
                return true;
            },
        };
        if reads.total_supply == 0 {
            return false;
        }
        match Self::partial_redeem(amount_polka_btc as u128, tlv, reads.total_supply) {
            Ok(dot_in_btc) => dot_in_btc <= amount_polka_btc as u128,
            Err(_) => true,
        }
    }

    /// Stores the request of `call` under `redeem_id` once the other modules
    /// have locked the user's PolkaBTC and reserved the vault's tokens: it
    /// opens at `height`, is paid out as `amounts`, and carries the redeem
    /// premium where the vault is below the premium threshold. Gives the
    /// event to emit.
    pub fn complete_request_redeem(
        &mut self,
        redeem_id: RedeemId,
        call: RequestRedeem,
        height: BlockNumber,
        amounts: RedeemAmounts,
        below_premium_threshold: bool,
        redeem_premium_fee: DOT,
    ) -> (ev: Event)
        requires
            old(self).wf(),
        ensures
            final(self).wf(),
            final(self).requests() == old(self).requests().insert(
                redeem_id,
                new_request(call, height, amounts, below_premium_threshold, redeem_premium_fee),
            ),
            final(self).spec_redeem_period() == old(self).spec_redeem_period(),
            final(self).spec_redeem_btc_dust_value() == old(self).spec_redeem_btc_dust_value(),
            ev == Event::RequestRedeem(
                redeem_id,
                call.redeemer,
                call.amount_polka_btc,
                call.vault_id,
                call.btc_address,
            ),
            final(self).requests().contains_key(redeem_id),
            final(self).requests()[redeem_id].amount_polka_btc == call.amount_polka_btc,
            final(self).requests()[redeem_id].vault == call.vault_id,
            final(self).requests()[redeem_id].redeemer == call.redeemer,
            final(self).requests()[redeem_id].btc_address == call.btc_address,
            final(self).requests()[redeem_id].opentime == height,
            final(self).requests()[redeem_id].amount_btc == amounts.amount_btc,
            final(self).requests()[redeem_id].amount_dot == amounts.amount_dot,
            below_premium_threshold ==> final(self).requests()[redeem_id].premium_dot
                == redeem_premium_fee,
            !below_premium_threshold ==> final(self).requests()[redeem_id].premium_dot == 0,
    {
        proof {
            law_stored_request_records_call(
                call,
                height,
                amounts,
                below_premium_threshold,
                redeem_premium_fee,
            );
        }
        let premium_dot = if below_premium_threshold {
            redeem_premium_fee
        } else {
            0
        };
        let request = RedeemRequest {
            vault: call.vault_id,
            opentime: height,
            amount_polka_btc: call.amount_polka_btc,
            amount_btc: amounts.amount_btc,
            amount_dot: amounts.amount_dot,
            premium_dot,
            redeemer: call.redeemer,
            btc_address: call.btc_address,
        };
        self.insert_redeem_request(redeem_id, request);
        Event::RequestRedeem(
            redeem_id,
            call.redeemer,
            call.amount_polka_btc,
            call.vault_id,
            call.btc_address,
        )
    }

    /// Decides on executing the request `redeem_id` by the vault `vault_id`
    /// at `height`: the request must exist, belong to the vault, and its
    /// commit period must not have run out. Gives what the BTC relay is to
    /// check and what the vault registry is to do.
    pub fn execute_redeem(&self, vault_id: AccountId, redeem_id: &RedeemId, height: BlockNumber) -> (r:
        Result<ExecuteRedeemPlan, Error>)
        requires
            self.wf(),
        ensures
            match lookup(self.requests(), *redeem_id) {
                Err(e) => r matches Err(x) && x == e,
                Ok(request) => if vault_id != request.vault {
                    r matches Err(Error::UnauthorizedVault)
                } else if execute_time_check(request.opentime, self.spec_redeem_period(), height)
                    is Err {
                    r matches Err(Error::CommitPeriodExpired)
                } else if request.amount_btc > usize::MAX {
                    r matches Err(Error::ConversionError)
                } else {
                    r matches Ok(plan) && {
                        &&& plan.request == request
                        &&& plan.amount == request.amount_btc as i64
                        &&& plan.btc_address@ == request.btc_address.0@
                        &&& plan.redeem_id@ == redeem_id.0@
                        &&& plan.vault_action == vault_redeem_action(request)
                        &&& plan.event == Event::ExecuteRedeem(
                            *redeem_id,
                            request.redeemer,
                            request.vault,
                        )
                    }
                },
            },
            r matches Err(Error::CommitPeriodExpired) <==> (self.requests().contains_key(*redeem_id)
                && vault_id == self.requests()[*redeem_id].vault && height > self.requests()[*redeem_id].opentime
                + self.spec_redeem_period()),
            r matches Ok(plan) ==> {
                &&& plan.request == self.requests()[*redeem_id]
                &&& (plan.vault_action is RedeemTokensPremium <==> plan.request.premium_dot > 0)
                &&& plan.vault_action matches VaultRedeemAction::RedeemTokensPremium {
                    vault,
                    amount_polka_btc,
                    premium_dot,
                    redeemer,
                } ==> vault == plan.request.vault && amount_polka_btc == plan.request.amount_polka_btc
                    && premium_dot == plan.request.premium_dot && redeemer == plan.request.redeemer
                &&& plan.vault_action matches VaultRedeemAction::RedeemTokens { vault, amount_polka_btc }
                    ==> vault == plan.request.vault && amount_polka_btc == plan.request.amount_polka_btc
            },
    {
        proof {
            if self.requests().contains_key(*redeem_id) {
                let req = self.requests()[*redeem_id];
                law_commit_deadline(req.opentime, self.spec_redeem_period(), height);
                law_vault_redeem_action(req);
            }
        }
        let redeem = self.get_redeem_request_from_id(redeem_id)?;
        if vault_id != redeem.vault {
            return Err(Error::UnauthorizedVault);
        }
        let period = self.redeem_period();
        if !((height as u128) <= (redeem.opentime as u128) + (period as u128)) {
            return Err(Error::CommitPeriodExpired);
        }
        if (redeem.amount_btc as u128) > (usize::MAX as u128) {
            return Err(Error::ConversionError);
        }
        let amount: usize = redeem.amount_btc as usize;
        let vault_action = if redeem.premium_dot > 0 {
            VaultRedeemAction::RedeemTokensPremium {
                vault: redeem.vault,
                amount_polka_btc: redeem.amount_polka_btc,
                premium_dot: redeem.premium_dot,
                redeemer: redeem.redeemer,
            }
        } else {
            VaultRedeemAction::RedeemTokens {
                vault: redeem.vault,
                amount_polka_btc: redeem.amount_polka_btc,
            }
        };
        Ok(
            ExecuteRedeemPlan {
                request: redeem,
                amount: amount as i64,
                btc_address: bytes_of(&redeem.btc_address.0),
                redeem_id: bytes_of(&redeem_id.0),
                vault_action,
                event: Event::ExecuteRedeem(*redeem_id, redeem.redeemer, redeem.vault),
            },
        )
    }

    /// Decides on cancelling the request `redeem_id` by `redeemer` at
    /// `height`: the request must exist, belong to the user, and not have
    /// been completed within its commit period. Its PolkaBTC is valued in DOT
    /// by the oracle `btc_to_dots`; the vault's collateral is slashed by that
    /// value times the punishment fee, plus the whole value where the user
    /// asks to be reimbursed.
    pub fn cancel_redeem<E, F: Fn(PolkaBTC) -> Result<DOT, E>>(
        &self,
        redeemer: AccountId,
        redeem_id: &RedeemId,
        reimburse: bool,
        height: BlockNumber,
        punishment_fee: DOT,
        btc_to_dots: F,
    ) -> (r: Result<CancelRedeemPlan, DispatchError<E>>)
        requires
            self.wf(),
            forall|b: PolkaBTC| btc_to_dots.requires((b,)),
        ensures
            match lookup(self.requests(), *redeem_id) {
                Err(e) => r matches Err(DispatchError::Module(x)) && x == e,
                Ok(request) => if redeemer != request.redeemer {
                    r matches Err(DispatchError::Module(Error::UnauthorizedUser))
                } else if cancel_time_check(request.opentime, self.spec_redeem_period(), height)
                    is Err {
                    r matches Err(DispatchError::Module(Error::TimeNotExpired))
                } else {
                    match r {
                        Ok(plan) => {
                            &&& plan.request == request
                            &&& plan.reimburse == reimburse
                            &&& plan.amount_in_dot <= u64::MAX
                            &&& btc_to_dots.ensures(
                                (request.amount_polka_btc,),
                                Ok(plan.amount_in_dot as u64),
                            )
                            &&& plan.slash_amount == spec_slash_amount(
                                plan.amount_in_dot as int,
                                punishment_fee as int,
                                reimburse,
                            )
                            &&& plan.event == Event::CancelRedeem(*redeem_id, redeemer)
                        },
                        Err(DispatchError::Other(e)) => btc_to_dots.ensures(
                            (request.amount_polka_btc,),
                            Err(e),
                        ),
                        Err(DispatchError::Module(_)) => false,
                    }
                },
            },
            r matches Err(DispatchError::Module(Error::TimeNotExpired)) <==> (self.requests().contains_key(
                *redeem_id,
            ) && redeemer == self.requests()[*redeem_id].redeemer && height
                <= self.requests()[*redeem_id].opentime + self.spec_redeem_period()),
    {
        proof {
            if self.requests().contains_key(*redeem_id) {
                let req = self.requests()[*redeem_id];
                law_commit_deadline(req.opentime, self.spec_redeem_period(), height);
            }
        }
        let redeem = match self.get_redeem_request_from_id(redeem_id) {
            Ok(r) => r,
            Err(e) => {
                return Err(DispatchError::Module(e));
            },
        };
        if redeemer != redeem.redeemer {
            return Err(DispatchError::Module(Error::UnauthorizedUser));
        }
        let period = self.redeem_period();
        if (height as u128) <= (redeem.opentime as u128) + (period as u128) {
            return Err(DispatchError::Module(Error::TimeNotExpired));
        }
        let raw_amount_polka_btc = match Self::btc_to_u128(redeem.amount_polka_btc) {
            Ok(v) => v,
            Err(e) => {
                return Err(DispatchError::Module(e));
            },
        };
        let amount_in_dot = Self::rawbtc_to_rawdot(raw_amount_polka_btc, btc_to_dots)?;
        Ok(
            CancelRedeemPlan {
                request: redeem,
                reimburse,
                amount_in_dot,
                slash_amount: slash_amount(amount_in_dot, punishment_fee, reimburse),
                event: Event::CancelRedeem(*redeem_id, redeemer),
            },
        )
    }
}

} // verus!
