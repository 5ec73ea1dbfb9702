use crowdfunding::escrow::CrowdfundingContract;
use crowdfunding::escrow::Escrow;
use crowdfunding::escrow::EscrowError;
use crowdfunding::escrow::Status;

const ADMIN1: u64 = 1;
const ADMIN2: u64 = 2;
const ALICE: u64 = 7;
const BOB: u64 = 8;
const MALLORY: u64 = 9;
const DEADLINE: u64 = 100;

fn campaign() -> Escrow {
    Escrow::init(ADMIN1, 1000, DEADLINE, 0, 0, ADMIN2, 10).unwrap()
}

#[test]
fn init_sets_configuration() {
    let c = campaign();
    assert_eq!(c.get_target(), 1000);
    assert_eq!(c.get_deadline(), DEADLINE);
    assert_eq!(c.get_min_deposit(), 0);
    assert_eq!(c.get_max_per_wallet(), 0);
    assert_eq!(c.get_max_total(), 1100);
    assert_eq!(c.get_total_funds(), 0);
    assert!(!c.is_terminated());
    assert!(c.get_invoice_hash().is_empty());
}

#[test]
fn init_rejects_zero_target() {
    let r = Escrow::init(ADMIN1, 0, DEADLINE, 0, 0, ADMIN2, 10);
    assert_eq!(r.err(), Some(EscrowError::InvalidConfig));
}

#[test]
fn init_rejects_deadline_not_in_future() {
    let r = Escrow::init(ADMIN1, 1000, 10, 0, 0, ADMIN2, 10);
    assert_eq!(r.err(), Some(EscrowError::InvalidConfig));
}

#[test]
fn init_rejects_cap_overflow() {
    let r = Escrow::init(ADMIN1, u128::MAX, DEADLINE, 0, 0, ADMIN2, 10);
    assert_eq!(r.err(), Some(EscrowError::InvalidConfig));
}

#[test]
fn is_admin_accepts_both_and_nobody_else() {
    let c = campaign();
    assert!(c.is_admin(ADMIN1));
    assert!(c.is_admin(ADMIN2));
    assert!(!c.is_admin(MALLORY));
}

#[test]
fn fund_accumulates_per_depositor() {
    let mut c = campaign();
    assert_eq!(c.fund(ALICE, 600, 50), Ok(()));
    assert_eq!(c.fund(ALICE, 50, 60), Ok(()));
    assert_eq!(c.fund(BOB, 200, 70), Ok(()));
    assert_eq!(c.get_deposit(ALICE), 650);
    assert_eq!(c.get_deposit(BOB), 200);
    assert_eq!(c.get_deposit(MALLORY), 0);
    assert_eq!(c.get_total_funds(), 850);
}

#[test]
fn conservation_holds_between_calls() {
    let mut c = campaign();
    c.fund(ALICE, 600, 50).unwrap();
    c.fund(BOB, 300, 60).unwrap();
    c.fund(ALICE, 100, 70).unwrap();
    assert_eq!(c.get_total_funds(), c.get_deposit(ALICE) + c.get_deposit(BOB));
}

#[test]
fn fund_after_deadline_fails() {
    let mut c = campaign();
    assert_eq!(c.fund(ALICE, 100, DEADLINE + 1), Err(EscrowError::DeadlinePassed));
    assert_eq!(c.get_deposit(ALICE), 0);
    assert_eq!(c.get_total_funds(), 0);
}

#[test]
fn fund_below_minimum_fails() {
    let mut c = Escrow::init(ADMIN1, 1000, DEADLINE, 50, 0, ADMIN2, 10).unwrap();
    assert_eq!(c.fund(ALICE, 10, 50), Err(EscrowError::BelowMinimum));
    assert_eq!(c.get_deposit(ALICE), 0);
    assert_eq!(c.fund(ALICE, 50, 50), Ok(()));
}

#[test]
fn fund_over_wallet_cap_fails() {
    let mut c = Escrow::init(ADMIN1, 1000, DEADLINE, 0, 100, ADMIN2, 10).unwrap();
    assert_eq!(c.fund(ALICE, 60, 50), Ok(()));
    assert_eq!(c.fund(ALICE, 41, 60), Err(EscrowError::WalletCapExceeded));
    assert_eq!(c.get_deposit(ALICE), 60);
    assert_eq!(c.fund(ALICE, 40, 70), Ok(()));
    assert_eq!(c.get_deposit(ALICE), 100);
}

#[test]
fn fund_over_total_cap_fails() {
    let mut c = campaign();
    assert_eq!(c.fund(ALICE, 1100, 50), Ok(()));
    assert_eq!(c.fund(BOB, 1, 60), Err(EscrowError::TotalCapExceeded));
    assert_eq!(c.get_total_funds(), 1100);
}

#[test]
fn status_derivation() {
    let mut c = campaign();
    assert_eq!(c.get_status(DEADLINE), Status::FundingPeriod);
    c.fund(ALICE, 1000, 50).unwrap();
    assert_eq!(c.get_status(50), Status::FundingPeriod);
    assert_eq!(c.get_status(DEADLINE + 1), Status::Successful);
    let mut poor = campaign();
    poor.fund(ALICE, 300, 50).unwrap();
    assert_eq!(poor.get_status(DEADLINE + 1), Status::Failed);
}

#[test]
fn successful_campaign_pays_out_once() {
    let mut c = campaign();
    c.fund(ALICE, 600, 50).unwrap();
    c.fund(BOB, 500, 60).unwrap();
    assert_eq!(c.get_status(150), Status::Successful);
    assert_eq!(c.claimFunds(ADMIN1, 150), Ok(1100));
    assert_eq!(c.get_total_funds(), 0);
    assert_eq!(c.claimFunds(ADMIN1, 150), Err(EscrowError::ThresholdNotMet));
}

#[test]
fn refund_after_payout_finds_nothing() {
    let mut c = campaign();
    c.fund(ALICE, 600, 50).unwrap();
    c.fund(BOB, 500, 60).unwrap();
    assert_eq!(c.claimFunds(ADMIN2, 150), Ok(1100));
    assert_eq!(c.claimRefund(ALICE, 150), Err(EscrowError::NothingToClaim));
    assert_eq!(c.claimRefund(BOB, 150), Err(EscrowError::NothingToClaim));
    // the stale entries are still readable, but carry no claim
    assert_eq!(c.get_deposit(ALICE), 600);
    assert_eq!(c.get_total_funds(), 0);
}

#[test]
fn payout_by_non_admin_fails() {
    let mut c = campaign();
    c.fund(ALICE, 1100, 50).unwrap();
    assert_eq!(c.claimFunds(MALLORY, 150), Err(EscrowError::Unauthorized));
    assert_eq!(c.get_total_funds(), 1100);
}

#[test]
fn payout_during_funding_period_fails() {
    let mut c = campaign();
    c.fund(ALICE, 1100, 50).unwrap();
    assert_eq!(c.claimFunds(ADMIN1, DEADLINE), Err(EscrowError::WindowClosed));
}

#[test]
fn payout_below_target_fails() {
    let mut c = campaign();
    c.fund(ALICE, 999, 50).unwrap();
    assert_eq!(c.claimFunds(ADMIN1, 150), Err(EscrowError::ThresholdNotMet));
}

#[test]
fn payout_after_termination_fails() {
    let mut c = campaign();
    c.fund(ALICE, 1100, 50).unwrap();
    c.terminateCampaign(ADMIN1).unwrap();
    assert_eq!(c.claimFunds(ADMIN1, 150), Err(EscrowError::CampaignTerminated));
}

#[test]
fn failed_campaign_refunds_exactly_once() {
    let mut c = campaign();
    c.fund(ALICE, 300, 50).unwrap();
    assert_eq!(c.get_status(150), Status::Failed);
    assert_eq!(c.claimRefund(ALICE, 150), Ok(300));
    assert_eq!(c.get_deposit(ALICE), 0);
    assert_eq!(c.get_total_funds(), 0);
    assert_eq!(c.claimRefund(ALICE, 150), Err(EscrowError::NothingToClaim));
}

#[test]
fn refund_during_funding_period_fails() {
    let mut c = campaign();
    c.fund(ALICE, 300, 50).unwrap();
    assert_eq!(c.claimRefund(ALICE, 60), Err(EscrowError::NotEligible));
    assert_eq!(c.get_deposit(ALICE), 300);
}

#[test]
fn refund_of_successful_campaign_fails() {
    let mut c = campaign();
    c.fund(ALICE, 1000, 50).unwrap();
    assert_eq!(c.claimRefund(ALICE, 150), Err(EscrowError::NotEligible));
}

#[test]
fn refund_without_deposit_fails() {
    let mut c = campaign();
    c.fund(ALICE, 300, 50).unwrap();
    assert_eq!(c.claimRefund(BOB, 150), Err(EscrowError::NothingToClaim));
}

#[test]
fn termination_opens_refund_before_deadline() {
    let mut c = campaign();
    c.fund(ALICE, 100, 50).unwrap();
    assert_eq!(c.terminateCampaign(ADMIN1), Ok(()));
    assert_eq!(c.claimRefund(ALICE, 60), Ok(100));
    assert_eq!(c.get_deposit(ALICE), 0);
}

#[test]
fn terminate_requires_admin() {
    let mut c = campaign();
    assert_eq!(c.terminateCampaign(MALLORY), Err(EscrowError::Unauthorized));
    assert!(!c.is_terminated());
}

#[test]
fn terminate_twice_is_like_once() {
    let mut once = campaign();
    once.fund(ALICE, 100, 50).unwrap();
    let mut twice = campaign();
    twice.fund(ALICE, 100, 50).unwrap();
    once.terminateCampaign(ADMIN1).unwrap();
    twice.terminateCampaign(ADMIN1).unwrap();
    twice.terminateCampaign(ADMIN2).unwrap();
    assert_eq!(once.is_terminated(), twice.is_terminated());
    assert_eq!(once.get_total_funds(), twice.get_total_funds());
    assert_eq!(once.get_deposit(ALICE), twice.get_deposit(ALICE));
    assert_eq!(once.get_min_deposit(), twice.get_min_deposit());
    assert_eq!(once.get_max_per_wallet(), twice.get_max_per_wallet());
}

#[test]
fn upgrade_params_changes_only_the_bounds() {
    let mut c = campaign();
    c.fund(ALICE, 300, 50).unwrap();
    assert_eq!(c.upgradeParams(ADMIN2, 25, 400), Ok(()));
    assert_eq!(c.get_min_deposit(), 25);
    assert_eq!(c.get_max_per_wallet(), 400);
    assert_eq!(c.get_deposit(ALICE), 300);
    assert_eq!(c.get_total_funds(), 300);
}

#[test]
fn upgrade_params_requires_admin() {
    let mut c = campaign();
    assert_eq!(c.upgradeParams(MALLORY, 25, 400), Err(EscrowError::Unauthorized));
    assert_eq!(c.get_min_deposit(), 0);
    assert_eq!(c.get_max_per_wallet(), 0);
}

#[test]
fn lowered_cap_keeps_old_entries_but_limits_new_pledges() {
    let mut c = campaign();
    c.fund(ALICE, 300, 50).unwrap();
    c.upgradeParams(ADMIN1, 0, 200).unwrap();
    // the existing over-cap entry is not forcibly refunded
    assert_eq!(c.get_deposit(ALICE), 300);
    // but any further pledge by that depositor is over the cap
    assert_eq!(c.fund(ALICE, 1, 60), Err(EscrowError::WalletCapExceeded));
    assert_eq!(c.fund(BOB, 200, 60), Ok(()));
    assert_eq!(c.fund(BOB, 1, 70), Err(EscrowError::WalletCapExceeded));
}

#[test]
fn invoice_hash_is_stored_for_admins_only() {
    let mut c = campaign();
    assert_eq!(
        c.uploadInvoiceHash(MALLORY, vec![1, 2, 3]),
        Err(EscrowError::Unauthorized)
    );
    assert!(c.get_invoice_hash().is_empty());
    assert_eq!(c.uploadInvoiceHash(ADMIN1, vec![1, 2, 3]), Ok(()));
    assert_eq!(c.get_invoice_hash().as_slice(), &[1, 2, 3]);
}

#[test]
fn zero_pledge_is_accepted_when_unrestricted_but_claims_nothing() {
    let mut c = campaign();
    assert_eq!(c.fund(ALICE, 0, 50), Ok(()));
    assert_eq!(c.get_deposit(ALICE), 0);
    assert_eq!(c.claimRefund(ALICE, 150), Err(EscrowError::NothingToClaim));
}

#[test]
fn pledge_exactly_at_total_cap_succeeds() {
    let mut c = campaign();
    assert_eq!(c.fund(ALICE, 1100, 50), Ok(()));
    assert_eq!(c.get_total_funds(), 1100);
}
