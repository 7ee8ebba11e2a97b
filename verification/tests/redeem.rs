use redeem::dispatch::{
    slash_amount, RedeemAmounts, RequestRedeem, RequestRedeemReads, VaultRedeemAction,
};
use redeem::{BtcAddress, DispatchError, Error, Event, Module, RedeemId, RedeemRequest};

const PERIOD: u64 = 10;
const DUST: u64 = 5;
const USER: u64 = 1;
const VAULT: u64 = 2;
const OTHER_USER: u64 = 3;
const OTHER_VAULT: u64 = 4;

fn id(n: u8) -> RedeemId {
    let mut bytes = [0u8; 32];
    bytes[31] = n;
    RedeemId(bytes)
}

fn address() -> BtcAddress {
    BtcAddress([0x11; 20])
}

fn request(redeemer: u64, vault: u64, opentime: u64, amount: u64, premium: u64) -> RedeemRequest {
    RedeemRequest {
        vault,
        opentime,
        amount_polka_btc: amount,
        amount_btc: amount,
        amount_dot: 0,
        premium_dot: premium,
        redeemer,
        btc_address: address(),
    }
}

fn reads(balance: u64, issued: Result<u64, &'static str>) -> RequestRedeemReads<&'static str> {
    RequestRedeemReads {
        redeemer_balance: balance,
        vault_issued_tokens: issued,
        vault_not_banned: Ok(()),
        liquidation: false,
        total_liquidation_value: Ok(0),
        total_supply: 1,
    }
}

fn identity_oracle(b: u64) -> Result<u64, &'static str> {
    Ok(b)
}

fn double_oracle(b: u64) -> Result<u64, &'static str> {
    Ok(b * 2)
}

fn failing_oracle(_b: u64) -> Result<u64, &'static str> {
    Err("no exchange rate")
}

#[test]
fn new_module_has_configuration_and_no_request() {
    let m = Module::new(PERIOD, DUST);
    assert_eq!(m.redeem_period(), PERIOD);
    assert_eq!(m.redeem_btc_dust_value(), DUST);
    assert_eq!(m.get_redeem_request_from_id(&id(1)), Err(Error::RedeemIdNotFound));
    assert!(m.get_redeem_requests_for_account(USER).is_empty());
}

#[test]
fn lookup_after_insert_gives_the_request() {
    let mut m = Module::new(PERIOD, DUST);
    let r1 = request(USER, VAULT, 0, 100, 0);
    let r2 = request(OTHER_USER, VAULT, 0, 50, 0);
    m.insert_redeem_request(id(1), r1);
    m.insert_redeem_request(id(2), r2);
    assert_eq!(m.get_redeem_request_from_id(&id(1)), Ok(r1));
    assert_eq!(m.get_redeem_request_from_id(&id(2)), Ok(r2));
    // Inserting again under an identifier replaces the request.
    let r3 = request(USER, OTHER_VAULT, 7, 70, 0);
    m.insert_redeem_request(id(1), r3);
    assert_eq!(m.get_redeem_request_from_id(&id(1)), Ok(r3));
    assert_eq!(m.get_redeem_request_from_id(&id(2)), Ok(r2));
    assert_eq!(m.get_redeem_requests_for_account(USER).len(), 1);
}

#[test]
fn lookup_after_remove_fails() {
    let mut m = Module::new(PERIOD, DUST);
    let r1 = request(USER, VAULT, 0, 100, 0);
    let r2 = request(OTHER_USER, VAULT, 0, 50, 0);
    m.insert_redeem_request(id(1), r1);
    m.insert_redeem_request(id(2), r2);
    assert_eq!(m.remove_redeem_request(&id(1)), Some(r1));
    assert_eq!(m.get_redeem_request_from_id(&id(1)), Err(Error::RedeemIdNotFound));
    assert_eq!(m.get_redeem_request_from_id(&id(2)), Ok(r2));
    assert_eq!(m.remove_redeem_request(&id(1)), None);
}

#[test]
fn requests_for_account_and_vault() {
    let mut m = Module::new(PERIOD, DUST);
    m.insert_redeem_request(id(1), request(USER, VAULT, 0, 100, 0));
    m.insert_redeem_request(id(2), request(OTHER_USER, VAULT, 0, 50, 0));
    m.insert_redeem_request(id(3), request(USER, OTHER_VAULT, 0, 60, 0));
    let mine = m.get_redeem_requests_for_account(USER);
    let mut ids: Vec<u8> = mine.iter().map(|(k, _)| k.0[31]).collect();
    ids.sort();
    assert_eq!(ids, vec![1, 3]);
    assert!(mine.iter().all(|(_, r)| r.redeemer == USER));
    let vaults = m.get_redeem_requests_for_vault(VAULT);
    let mut ids: Vec<u8> = vaults.iter().map(|(k, _)| k.0[31]).collect();
    ids.sort();
    assert_eq!(ids, vec![1, 2]);
    assert!(m.get_redeem_requests_for_vault(99).is_empty());
}

#[test]
fn conversions() {
    assert_eq!(Module::btc_to_u128(7), Ok(7));
    assert_eq!(Module::dot_to_u128(u64::MAX), Ok(u64::MAX as u128));
    assert_eq!(Module::u128_to_dot(u64::MAX as u128), Ok(u64::MAX));
    assert_eq!(Module::u128_to_dot(u64::MAX as u128 + 1), Err(Error::ConversionError));
    assert_eq!(Module::u128_to_btc(12), Ok(12));
    assert_eq!(Module::u128_to_btc(u128::MAX), Err(Error::ConversionError));
}

#[test]
fn partial_redeem_factor_and_share() {
    assert_eq!(Module::get_partial_redeem_factor(200_000, 4), Ok(50_000));
    assert_eq!(Module::get_partial_redeem_factor(3, 4), Ok(0));
    // 1000 * 50_000 / 100_000
    assert_eq!(Module::partial_redeem(1000, 200_000, 4), Ok(500));
    assert_eq!(Module::partial_redeem(999, 200_000, 4), Ok(499));
    assert_eq!(Module::partial_redeem(u128::MAX, 200_000, 1), Err(Error::ConversionError));
}

#[test]
fn rawbtc_to_rawdot_asks_the_oracle() {
    assert_eq!(Module::rawbtc_to_rawdot(21, double_oracle), Ok(42));
    assert_eq!(
        Module::rawbtc_to_rawdot(21, failing_oracle),
        Err(DispatchError::Other("no exchange rate"))
    );
    assert_eq!(
        Module::rawbtc_to_rawdot(u64::MAX as u128 + 1, identity_oracle),
        Err(DispatchError::Module(Error::ConversionError))
    );
}

#[test]
fn request_redeem_checks_in_order() {
    let m = Module::new(PERIOD, DUST);
    assert_eq!(
        m.request_redeem(101, reads(100, Err("no vault")), identity_oracle),
        Err(DispatchError::Module(Error::AmountExceedsUserBalance))
    );
    assert_eq!(
        m.request_redeem(50, reads(100, Err("no vault")), identity_oracle),
        Err(DispatchError::Other("no vault"))
    );
    let mut banned = reads(100, Ok(100));
    banned.vault_not_banned = Err("banned");
    assert_eq!(m.request_redeem(50, banned, identity_oracle), Err(DispatchError::Other("banned")));
    assert_eq!(
        m.request_redeem(50, reads(100, Ok(40)), identity_oracle),
        Err(DispatchError::Module(Error::AmountExceedsVaultBalance))
    );
    assert_eq!(
        m.request_redeem(4, reads(100, Ok(40)), identity_oracle),
        Err(DispatchError::Module(Error::AmountBelowDustAmount))
    );
    assert_eq!(
        m.request_redeem(40, reads(100, Ok(40)), failing_oracle),
        Ok(RedeemAmounts { amount_btc: 40, amount_dot: 0 })
    );
}

#[test]
fn request_redeem_during_liquidation_splits_the_amount() {
    let m = Module::new(PERIOD, DUST);
    let mut r = reads(1000, Ok(1000));
    r.liquidation = true;
    r.total_liquidation_value = Ok(100_000);
    r.total_supply = 4; // factor 25_000: a quarter is paid in DOT
    assert_eq!(
        m.request_redeem(400, r, double_oracle),
        Ok(RedeemAmounts { amount_btc: 300, amount_dot: 200 })
    );
    let mut r = reads(1000, Ok(1000));
    r.liquidation = true;
    r.total_liquidation_value = Ok(100_000);
    r.total_supply = 4;
    assert_eq!(m.request_redeem(400, r, failing_oracle), Err(DispatchError::Other("no exchange rate")));
    let mut r = reads(1000, Ok(1000));
    r.liquidation = true;
    r.total_liquidation_value = Err("liquidation value");
    assert_eq!(m.request_redeem(400, r, double_oracle), Err(DispatchError::Other("liquidation value")));
}

#[test]
fn complete_request_redeem_stores_the_request() {
    let mut m = Module::new(PERIOD, DUST);
    let call = RequestRedeem { redeemer: USER, amount_polka_btc: 400, btc_address: address(), vault_id: VAULT };
    let amounts = RedeemAmounts { amount_btc: 300, amount_dot: 100 };
    let ev = m.complete_request_redeem(id(9), call, 17, amounts, true, 12);
    assert_eq!(ev, Event::RequestRedeem(id(9), USER, 400, VAULT, address()));
    let stored = m.get_redeem_request_from_id(&id(9)).unwrap();
    assert_eq!(stored.opentime, 17);
    assert_eq!(stored.amount_btc, 300);
    assert_eq!(stored.amount_dot, 100);
    assert_eq!(stored.premium_dot, 12);
    assert_eq!(stored.redeemer, USER);
    assert_eq!(stored.vault, VAULT);
    m.complete_request_redeem(id(10), call, 17, amounts, false, 12);
    assert_eq!(m.get_redeem_request_from_id(&id(10)).unwrap().premium_dot, 0);
}

#[test]
fn execute_redeem_checks_vault_and_period() {
    let mut m = Module::new(PERIOD, DUST);
    m.insert_redeem_request(id(1), request(USER, VAULT, 5, 100, 0));
    m.insert_redeem_request(id(2), request(USER, VAULT, 5, 100, 3));
    assert!(matches!(m.execute_redeem(VAULT, &id(7), 6), Err(Error::RedeemIdNotFound)));
    assert!(matches!(m.execute_redeem(OTHER_VAULT, &id(1), 6), Err(Error::UnauthorizedVault)));
    assert!(matches!(m.execute_redeem(VAULT, &id(1), 16), Err(Error::CommitPeriodExpired)));
    let plan = m.execute_redeem(VAULT, &id(1), 15).unwrap();
    assert_eq!(plan.amount, 100);
    assert_eq!(plan.btc_address, vec![0x11; 20]);
    assert_eq!(plan.redeem_id, id(1).0.to_vec());
    assert_eq!(plan.vault_action, VaultRedeemAction::RedeemTokens { vault: VAULT, amount_polka_btc: 100 });
    assert_eq!(plan.event, Event::ExecuteRedeem(id(1), USER, VAULT));
    let plan = m.execute_redeem(VAULT, &id(2), 15).unwrap();
    assert_eq!(
        plan.vault_action,
        VaultRedeemAction::RedeemTokensPremium { vault: VAULT, amount_polka_btc: 100, premium_dot: 3, redeemer: USER }
    );
}

#[test]
fn cancel_redeem_checks_user_and_period() {
    let mut m = Module::new(PERIOD, DUST);
    m.insert_redeem_request(id(1), request(USER, VAULT, 5, 1000, 0));
    assert!(matches!(
        m.cancel_redeem(USER, &id(7), true, 16, 10_000, identity_oracle),
        Err(DispatchError::Module(Error::RedeemIdNotFound))
    ));
    assert!(matches!(
        m.cancel_redeem(OTHER_USER, &id(1), true, 16, 10_000, identity_oracle),
        Err(DispatchError::Module(Error::UnauthorizedUser))
    ));
    assert!(matches!(
        m.cancel_redeem(USER, &id(1), true, 15, 10_000, identity_oracle),
        Err(DispatchError::Module(Error::TimeNotExpired))
    ));
    assert!(matches!(
        m.cancel_redeem(USER, &id(1), true, 16, 10_000, failing_oracle),
        Err(DispatchError::Other("no exchange rate"))
    ));
    let plan = m.cancel_redeem(USER, &id(1), true, 16, 10_000, double_oracle).unwrap();
    assert_eq!(plan.amount_in_dot, 2000);
    // 2000 * 110_000 / 100_000
    assert_eq!(plan.slash_amount, Ok(2200));
    assert_eq!(plan.event, Event::CancelRedeem(id(1), USER));
    let plan = m.cancel_redeem(USER, &id(1), false, 16, 10_000, double_oracle).unwrap();
    // 2000 * 10_000 / 100_000
    assert_eq!(plan.slash_amount, Ok(200));
}

#[test]
fn execute_and_cancel_windows_meet() {
    let mut m = Module::new(PERIOD, DUST);
    m.insert_redeem_request(id(1), request(USER, VAULT, 5, 100, 0));
    for height in 0..40u64 {
        let exec_ok = m.execute_redeem(VAULT, &id(1), height).is_ok();
        let cancel_ok = m.cancel_redeem(USER, &id(1), false, height, 1, identity_oracle).is_ok();
        assert!(exec_ok != cancel_ok, "height {}", height);
    }
}

#[test]
fn slash_amounts() {
    assert_eq!(slash_amount(1000, 10_000, false), Ok(100));
    assert_eq!(slash_amount(1000, 10_000, true), Ok(1100));
    assert_eq!(slash_amount(999, 1, false), Ok(0));
    assert_eq!(slash_amount(u128::MAX, 2, false), Err(Error::ConversionError));
    // The product fits, the amount does not fit in DOT.
    assert_eq!(slash_amount(u64::MAX as u128 * 2, 100_000, false), Err(Error::ConversionError));
}

#[test]
fn reimbursement_is_value_plus_slash() {
    for (d, fee) in [(1000u128, 10_000u64), (12345, 777), (99_999, 3), (0, 5)] {
        let with = slash_amount(d, fee, true).unwrap();
        let without = slash_amount(d, fee, false).unwrap();
        assert_eq!(with as u128, d + without as u128);
    }
}

#[test]
fn request_redeem_is_defined_only_where_the_split_is() {
    let m = Module::new(PERIOD, DUST);
    let mut r = reads(1000, Ok(1000));
    r.liquidation = true;
    r.total_liquidation_value = Ok(100_000);
    r.total_supply = 0;
    assert!(!m.request_redeem_is_defined(400, &r));
    // factor 200_000: twice the amount would be paid in DOT
    r.total_supply = 1;
    r.total_liquidation_value = Ok(200_000);
    assert!(!m.request_redeem_is_defined(400, &r));
    r.total_liquidation_value = Ok(100_000);
    assert!(m.request_redeem_is_defined(400, &r));
    // A request that fails an earlier check is decided whatever the supply.
    r.total_supply = 0;
    assert!(m.request_redeem_is_defined(2000, &r));
    let plain = reads(1000, Ok(1000));
    assert!(m.request_redeem_is_defined(400, &plain));
}
