use ag_supply::dispute::{raise_dispute, resolve_dispute};
use ag_supply::error::ErrorCode;
use ag_supply::participant::{register_participant, Participant, ParticipantRole, Principal};
use ag_supply::payment::{
    compute_rewards, fund_vault, initialize_vault, plan_settlement, process_delivery_payment,
    process_payment, SettlementOutcome, Vault,
};
use ag_supply::produce::{
    confirm_delivery, log_harvest, record_delivery, record_pickup, verify_quality, Produce,
    ProduceStatus,
};

fn key(n: u64) -> Principal {
    Principal { w0: n, w1: n, w2: 0, w3: 0 }
}

fn member(n: u64, role: ParticipantRole) -> Participant {
    register_participant(key(n), role, "n".to_string(), "c".to_string(), 1).unwrap()
}

fn shipped(quality: u8, price: u64, fee: u64, temperature: i16, humidity: u8) -> Produce {
    let farmer = member(1, ParticipantRole::Farmer);
    let mut p = log_harvest(
        &farmer,
        1,
        "grain".to_string(),
        10,
        100,
        quality,
        "uri".to_string(),
        price,
        fee,
        200,
    )
    .unwrap();
    let carrier = member(2, ParticipantRole::Transporter);
    record_pickup(&mut p, &carrier, temperature, humidity, 300).unwrap();
    record_delivery(&mut p, &carrier, 400).unwrap();
    p
}

fn vault_with(balance: u64) -> Vault {
    let mut v = initialize_vault(3);
    v.balance = balance;
    v
}

#[test]
fn rewards_high_quality_bonus() {
    let p = shipped(90, 100, 50, 20, 50);
    assert_eq!(compute_rewards(&p), Ok((120, 55)));
}

#[test]
fn rewards_low_quality_penalty() {
    let p = shipped(40, 100, 50, 20, 50);
    assert_eq!(compute_rewards(&p), Ok((70, 43)));
}

#[test]
fn rewards_middle_quality_unchanged() {
    let p = shipped(60, 100, 50, 20, 50);
    assert_eq!(compute_rewards(&p), Ok((100, 50)));
}

#[test]
fn rewards_hot_transport_cuts_carrier_only() {
    let p = shipped(60, 100, 50, 35, 50);
    assert_eq!(compute_rewards(&p), Ok((100, 40)));
}

#[test]
fn rewards_humid_transport_cuts_carrier() {
    let p = shipped(60, 100, 50, 20, 95);
    assert_eq!(compute_rewards(&p), Ok((100, 45)));
}

#[test]
fn rewards_penalties_compound_as_product() {
    let p = shipped(40, 100, 1000, 35, 95);
    // 1000 -> 850 (quality) -> 680 (heat) -> 612 (humidity)
    assert_eq!(compute_rewards(&p), Ok((70, 612)));
}

#[test]
fn rewards_boundaries_are_exclusive() {
    let p = shipped(80, 100, 50, 30, 90);
    assert_eq!(compute_rewards(&p), Ok((120, 55)));
    let q = shipped(50, 100, 50, 31, 91);
    assert_eq!(compute_rewards(&q), Ok((100, 36)));
}

#[test]
fn rewards_bonus_overflow_is_reported() {
    let p = shipped(95, u64::MAX, u64::MAX, 20, 50);
    assert_eq!(compute_rewards(&p), Err(ErrorCode::Overflow));
}

#[test]
fn rewards_low_quality_penalty_on_large_amounts() {
    let p = shipped(10, u64::MAX, u64::MAX, 20, 50);
    let (f, t) = compute_rewards(&p).unwrap();
    assert_eq!(f as u128, u64::MAX as u128 - (u64::MAX as u128) * 3 / 10);
    assert_eq!(t as u128, u64::MAX as u128 - (u64::MAX as u128) * 15 / 100);
}

#[test]
fn rewards_are_deterministic() {
    let p = shipped(85, 333, 77, 31, 92);
    assert_eq!(compute_rewards(&p), compute_rewards(&p));
}

#[test]
fn payout_is_floored_at_minimum() {
    let mut p = shipped(60, 3, 0, 20, 50);
    let retailer = member(3, ParticipantRole::Retailer);
    let mut vault = vault_with(100);
    let r = confirm_delivery(&mut p, &retailer, &mut vault, 500).unwrap();
    assert_eq!(r, SettlementOutcome::Paid { farmer_amount: 10, transporter_amount: 10 });
    assert_eq!(vault.balance, 80);
}

#[test]
fn hot_transport_scenario_pays_reduced_fee() {
    let mut p = shipped(60, 100, 50, 35, 50);
    let retailer = member(3, ParticipantRole::Retailer);
    let mut vault = vault_with(1000);
    let r = confirm_delivery(&mut p, &retailer, &mut vault, 500).unwrap();
    assert_eq!(r, SettlementOutcome::Paid { farmer_amount: 100, transporter_amount: 40 });
}

#[test]
fn plan_settlement_changes_nothing() {
    let p = shipped(90, 100, 50, 20, 50);
    assert_eq!(
        plan_settlement(&p, 175),
        Ok(SettlementOutcome::Paid { farmer_amount: 120, transporter_amount: 55 })
    );
    assert_eq!(plan_settlement(&p, 174), Err(ErrorCode::InsufficientFunds));
    assert!(!p.settled);
}

#[test]
fn process_payment_after_confirm_does_not_pay_twice() {
    let mut p = shipped(90, 100, 50, 20, 50);
    let retailer = member(3, ParticipantRole::Retailer);
    let mut vault = vault_with(1000);
    confirm_delivery(&mut p, &retailer, &mut vault, 500).unwrap();
    assert_eq!(vault.balance, 825);
    assert_eq!(process_payment(&mut p, &mut vault), Ok(SettlementOutcome::AlreadySettled));
    assert_eq!(process_payment(&mut p, &mut vault), Ok(SettlementOutcome::AlreadySettled));
    assert_eq!(process_delivery_payment(&mut p, &mut vault), Ok(SettlementOutcome::AlreadySettled));
    assert_eq!(vault.balance, 825);
}

#[test]
fn process_payment_with_short_vault_is_insufficient_and_unchanged() {
    let mut p = shipped(90, 100, 50, 20, 50);
    let retailer = member(3, ParticipantRole::Retailer);
    let mut vault = vault_with(1000);
    let farmer = member(1, ParticipantRole::Farmer);
    let arbitrator = member(5, ParticipantRole::Arbitrator);
    let mut d = raise_dispute(&mut p, farmer.owner, "late".to_string(), 450).unwrap();
    assert_eq!(
        confirm_delivery(&mut p, &retailer, &mut vault, 500),
        Ok(SettlementOutcome::Deferred)
    );
    resolve_dispute(&mut d, &mut p, &arbitrator, true).unwrap();
    vault.balance = 100;
    let before = format!("{:?}", p);
    assert_eq!(process_payment(&mut p, &mut vault), Err(ErrorCode::InsufficientFunds));
    assert_eq!(vault.balance, 100);
    assert_eq!(format!("{:?}", p), before);
}

#[test]
fn process_payment_before_delivery_is_invalid() {
    let mut p = shipped(90, 100, 50, 20, 50);
    let mut vault = vault_with(1000);
    assert_eq!(process_payment(&mut p, &mut vault), Err(ErrorCode::InvalidStatus));
    assert_eq!(vault.balance, 1000);
}

#[test]
fn dispute_defers_until_resolved_in_favour() {
    let mut p = shipped(90, 100, 50, 20, 50);
    let retailer = member(3, ParticipantRole::Retailer);
    let arbitrator = member(5, ParticipantRole::Arbitrator);
    let mut vault = vault_with(1000);
    let mut d = raise_dispute(&mut p, retailer.owner, "bruised".to_string(), 450).unwrap();
    assert_eq!(
        confirm_delivery(&mut p, &retailer, &mut vault, 500),
        Ok(SettlementOutcome::Deferred)
    );
    assert_eq!(vault.balance, 1000);
    assert_eq!(process_payment(&mut p, &mut vault), Ok(SettlementOutcome::Deferred));
    assert_eq!(vault.balance, 1000);
    resolve_dispute(&mut d, &mut p, &arbitrator, true).unwrap();
    assert_eq!(
        process_payment(&mut p, &mut vault),
        Ok(SettlementOutcome::Paid { farmer_amount: 120, transporter_amount: 55 })
    );
    assert_eq!(vault.balance, 825);
    assert_eq!(process_payment(&mut p, &mut vault), Ok(SettlementOutcome::AlreadySettled));
    assert_eq!(vault.balance, 825);
}

#[test]
fn low_quality_scenario_defers_then_pays_penalised() {
    let mut p = shipped(90, 100, 50, 20, 50);
    let w = member(4, ParticipantRole::Wholesaler);
    let retailer = member(3, ParticipantRole::Retailer);
    let arbitrator = member(5, ParticipantRole::Arbitrator);
    let mut vault = vault_with(1000);
    let mut d = raise_dispute(&mut p, retailer.owner, "check".to_string(), 450).unwrap();
    assert_eq!(
        confirm_delivery(&mut p, &retailer, &mut vault, 500),
        Ok(SettlementOutcome::Deferred)
    );
    assert_eq!(verify_quality(&mut p, &w, 40, 550).unwrap().is_none(), true);
    assert_eq!(p.status, ProduceStatus::Disputed);
    assert!(p.dispute_raised);
    assert_eq!(process_payment(&mut p, &mut vault), Err(ErrorCode::InvalidStatus));
    assert_eq!(vault.balance, 1000);
    resolve_dispute(&mut d, &mut p, &arbitrator, true).unwrap();
    assert_eq!(p.status, ProduceStatus::Delivered);
    assert_eq!(
        process_payment(&mut p, &mut vault),
        Ok(SettlementOutcome::Paid { farmer_amount: 70, transporter_amount: 43 })
    );
    assert_eq!(vault.balance, 887);
}

#[test]
fn automatic_dispute_is_resolvable() {
    let mut p = shipped(90, 100, 50, 20, 50);
    let w = member(4, ParticipantRole::Wholesaler);
    let arbitrator = member(5, ParticipantRole::Arbitrator);
    let mut d = verify_quality(&mut p, &w, 30, 450).unwrap().unwrap();
    assert_eq!(d.produce, 1);
    assert_eq!(d.raiser, w.owner);
    assert_eq!(d.created_at, 450);
    assert!(!d.resolved);
    assert_eq!(raise_dispute(&mut p, w.owner, "again".to_string(), 460).unwrap_err(), ErrorCode::DisputeAlreadyOpen);
    resolve_dispute(&mut d, &mut p, &arbitrator, false).unwrap();
    assert_eq!(p.status, ProduceStatus::Disputed);
    let mut vault = vault_with(1000);
    assert_eq!(process_payment(&mut p, &mut vault), Err(ErrorCode::InvalidStatus));
    assert_eq!(vault.balance, 1000);
}

#[test]
fn fund_vault_requires_price_and_fee() {
    let p = shipped(90, 100, 50, 20, 50);
    let mut vault = vault_with(0);
    assert_eq!(fund_vault(&mut vault, &p, 149), Err(ErrorCode::InsufficientFunds));
    assert_eq!(vault.balance, 0);
    assert_eq!(fund_vault(&mut vault, &p, 150), Ok(()));
    assert_eq!(vault.balance, 150);
    assert_eq!(vault.bump, 3);
}

#[test]
fn fund_vault_overflow_is_reported() {
    let p = shipped(90, 100, 50, 20, 50);
    let mut vault = vault_with(u64::MAX - 10);
    assert_eq!(fund_vault(&mut vault, &p, 200), Err(ErrorCode::Overflow));
    assert_eq!(vault.balance, u64::MAX - 10);
}

#[test]
fn fund_vault_total_overflow_is_reported() {
    let p = shipped(90, u64::MAX, 50, 20, 50);
    let mut vault = vault_with(0);
    assert_eq!(fund_vault(&mut vault, &p, u64::MAX), Err(ErrorCode::Overflow));
    assert_eq!(vault.balance, 0);
}

#[test]
fn bonus_overflow_is_fatal_even_after_heat_penalty() {
    let mut p = shipped(85, 0, u64::MAX, 35, 50);
    let retailer = member(3, ParticipantRole::Retailer);
    let mut vault = vault_with(u64::MAX);
    let before = format!("{:?}", p);
    assert_eq!(confirm_delivery(&mut p, &retailer, &mut vault, 500), Err(ErrorCode::Overflow));
    assert_eq!(format!("{:?}", p), before);
    assert_eq!(vault.balance, u64::MAX);
}

#[test]
fn settled_record_in_later_state_is_invalid_status() {
    let mut p = shipped(90, 100, 50, 20, 50);
    let retailer = member(3, ParticipantRole::Retailer);
    let w = member(4, ParticipantRole::Wholesaler);
    let mut vault = vault_with(1000);
    confirm_delivery(&mut p, &retailer, &mut vault, 500).unwrap();
    verify_quality(&mut p, &w, 85, 600).unwrap();
    assert_eq!(p.status, ProduceStatus::QualityVerified);
    assert_eq!(process_payment(&mut p, &mut vault), Err(ErrorCode::InvalidStatus));
    assert_eq!(vault.balance, 825);
}

#[test]
fn both_entry_points_refuse_unsettled_quality_verified_record() {
    let mut p = shipped(90, 100, 50, 20, 50);
    let retailer = member(3, ParticipantRole::Retailer);
    let w = member(4, ParticipantRole::Wholesaler);
    let mut vault = vault_with(1000);
    raise_dispute(&mut p, retailer.owner, "late".to_string(), 450).unwrap();
    confirm_delivery(&mut p, &retailer, &mut vault, 500).unwrap();
    verify_quality(&mut p, &w, 85, 600).unwrap();
    p.dispute_raised = false;
    assert!(p.delivery_confirmed && !p.settled);
    assert_eq!(process_payment(&mut p, &mut vault), Err(ErrorCode::InvalidStatus));
    assert_eq!(process_delivery_payment(&mut p, &mut vault), Err(ErrorCode::InvalidStatus));
    assert_eq!(vault.balance, 1000);
}
