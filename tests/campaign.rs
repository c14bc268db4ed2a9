use crowdfunding_sc::address::{same_address, Address};
use crowdfunding_sc::campaign::{CrowdfundingSc, Transfer};
use crowdfunding_sc::error::CampaignError;
use crowdfunding_sc::status::{derive_status, Status};

const OWNER: Address = [7u8; 32];
const ALICE: Address = [1u8; 32];
const BOB: Address = [2u8; 32];
const DEADLINE: u64 = 1_000;

fn campaign() -> CrowdfundingSc {
    CrowdfundingSc::init(1000, DEADLINE, 10).unwrap()
}

#[test]
fn init_rejects_zero_target() {
    assert_eq!(CrowdfundingSc::init(0, DEADLINE, 10).err(), Some(CampaignError::InvalidTarget));
    assert_eq!(CrowdfundingSc::init(0, 5, 10).err(), Some(CampaignError::InvalidTarget));
}

#[test]
fn init_rejects_deadline_not_in_future() {
    assert_eq!(CrowdfundingSc::init(1000, 10, 10).err(), Some(CampaignError::InvalidDeadline));
    assert_eq!(CrowdfundingSc::init(1000, 9, 10).err(), Some(CampaignError::InvalidDeadline));
}

#[test]
fn init_stores_configuration() {
    let c = CrowdfundingSc::init(1000, 11, 10).unwrap();
    assert_eq!(c.target(), 1000);
    assert_eq!(c.deadline(), 11);
    assert_eq!(c.max_per_wallet(), None);
    assert_eq!(c.deposit(&ALICE), 0);
}

#[test]
fn fund_accumulates_without_cap_and_owner_claims_all() {
    let mut c = campaign();
    assert_eq!(c.fund(ALICE, 600, 500), Ok(()));
    assert_eq!(c.deposit(&ALICE), 600);
    assert_eq!(c.fund(ALICE, 500, 999), Ok(()));
    assert_eq!(c.deposit(&ALICE), 1100);
    assert_eq!(c.status(DEADLINE + 1, 1100), Status::Successful);
    assert_eq!(
        c.claim(OWNER, OWNER, DEADLINE + 1, 1100),
        Ok(Some(Transfer { to: OWNER, amount: 1100 }))
    );
    assert_eq!(c.claim(ALICE, OWNER, DEADLINE + 2, 1100), Err(CampaignError::Unauthorized));
    assert_eq!(c.deposit(&ALICE), 1100);
}

#[test]
fn cap_blocks_contribution_above_it() {
    let mut c = campaign();
    assert_eq!(c.set_max_per_wallet(OWNER, OWNER, 500), Ok(()));
    assert_eq!(c.max_per_wallet(), Some(500));
    assert_eq!(c.fund(ALICE, 600, 500), Err(CampaignError::WalletCapExceeded));
    assert_eq!(c.deposit(&ALICE), 0);
}

#[test]
fn cap_allows_exactly_the_cap() {
    let mut c = campaign();
    c.set_max_per_wallet(OWNER, OWNER, 500).unwrap();
    assert_eq!(c.fund(ALICE, 300, 1), Ok(()));
    assert_eq!(c.fund(ALICE, 200, 2), Ok(()));
    assert_eq!(c.deposit(&ALICE), 500);
    assert_eq!(c.fund(ALICE, 1, 3), Err(CampaignError::WalletCapExceeded));
    assert_eq!(c.deposit(&ALICE), 500);
    assert_eq!(c.fund(BOB, 500, 4), Ok(()));
    assert_eq!(c.deposit(&BOB), 500);
}

#[test]
fn cap_setting_is_owner_only_and_positive() {
    let mut c = campaign();
    assert_eq!(c.set_max_per_wallet(ALICE, OWNER, 500), Err(CampaignError::Unauthorized));
    assert_eq!(c.set_max_per_wallet(ALICE, OWNER, 0), Err(CampaignError::Unauthorized));
    assert_eq!(c.set_max_per_wallet(OWNER, OWNER, 0), Err(CampaignError::InvalidCap));
    assert_eq!(c.max_per_wallet(), None);
    assert_eq!(c.set_max_per_wallet(OWNER, OWNER, 500), Ok(()));
    assert_eq!(c.set_max_per_wallet(OWNER, OWNER, 200), Ok(()));
    assert_eq!(c.max_per_wallet(), Some(200));
}

#[test]
fn failed_campaign_refunds_once() {
    let mut c = campaign();
    assert_eq!(c.fund(ALICE, 300, 100), Ok(()));
    assert_eq!(c.status(DEADLINE + 1, 300), Status::Failed);
    assert_eq!(
        c.claim(ALICE, OWNER, DEADLINE + 1, 300),
        Ok(Some(Transfer { to: ALICE, amount: 300 }))
    );
    assert_eq!(c.deposit(&ALICE), 0);
    assert_eq!(c.claim(ALICE, OWNER, DEADLINE + 2, 0), Ok(None));
    assert_eq!(c.deposit(&ALICE), 0);
}

#[test]
fn refund_leaves_other_contributors() {
    let mut c = campaign();
    c.fund(ALICE, 300, 100).unwrap();
    c.fund(BOB, 200, 100).unwrap();
    assert_eq!(
        c.claim(BOB, OWNER, DEADLINE + 1, 500),
        Ok(Some(Transfer { to: BOB, amount: 200 }))
    );
    assert_eq!(c.deposit(&ALICE), 300);
    assert_eq!(c.deposit(&BOB), 0);
    assert_eq!(c.claim(OWNER, OWNER, DEADLINE + 1, 300), Ok(None));
}

#[test]
fn fund_at_deadline_is_closed_while_status_is_open() {
    let mut c = campaign();
    assert_eq!(c.status(DEADLINE, 0), Status::FundingPeriod);
    assert_eq!(c.fund(ALICE, 100, DEADLINE), Err(CampaignError::CampaignClosed));
    assert_eq!(c.fund(ALICE, 100, DEADLINE + 5), Err(CampaignError::CampaignClosed));
    assert_eq!(c.deposit(&ALICE), 0);
}

#[test]
fn claim_before_or_at_deadline_is_too_early() {
    let mut c = campaign();
    c.fund(ALICE, 2000, 1).unwrap();
    assert_eq!(c.claim(OWNER, OWNER, DEADLINE, 2000), Err(CampaignError::TooEarly));
    assert_eq!(c.claim(ALICE, OWNER, 5, 2000), Err(CampaignError::TooEarly));
    assert_eq!(c.deposit(&ALICE), 2000);
}

#[test]
fn status_boundary_and_tie() {
    assert_eq!(derive_status(DEADLINE, DEADLINE, 0, 1000), Status::FundingPeriod);
    assert_eq!(derive_status(DEADLINE + 1, DEADLINE, 1000, 1000), Status::Successful);
    assert_eq!(derive_status(DEADLINE + 1, DEADLINE, 999, 1000), Status::Failed);
    let c = campaign();
    assert_eq!(c.status(DEADLINE, 5000), Status::FundingPeriod);
    assert_eq!(c.status(DEADLINE + 1, 5000), Status::Successful);
    assert_eq!(c.status(DEADLINE + 1, 0), Status::Failed);
}

#[test]
fn zero_payment_is_accepted() {
    let mut c = campaign();
    assert_eq!(c.fund(ALICE, 0, 1), Ok(()));
    assert_eq!(c.deposit(&ALICE), 0);
}

#[test]
fn non_owner_gets_nothing_in_success() {
    let mut c = campaign();
    c.fund(ALICE, 1000, 1).unwrap();
    assert_eq!(c.claim(ALICE, OWNER, DEADLINE + 1, 1000), Err(CampaignError::Unauthorized));
    assert_eq!(c.claim(BOB, OWNER, DEADLINE + 1, 1000), Err(CampaignError::Unauthorized));
    assert_eq!(c.deposit(&ALICE), 1000);
}

#[test]
fn addresses_compare_by_every_byte() {
    let mut other = ALICE;
    assert!(same_address(&ALICE, &other));
    other[31] = 9;
    assert!(!same_address(&ALICE, &other));
    assert!(!same_address(&ALICE, &BOB));
}

#[test]
fn restore_rebuilds_one_contributor() {
    assert_eq!(
        CrowdfundingSc::restore(0, DEADLINE, None, ALICE, 5).err(),
        Some(CampaignError::InvalidTarget)
    );
    assert_eq!(
        CrowdfundingSc::restore(1000, DEADLINE, Some(0), ALICE, 5).err(),
        Some(CampaignError::InvalidCap)
    );
    let mut c = CrowdfundingSc::restore(1000, DEADLINE, Some(400), ALICE, 300).unwrap();
    assert_eq!(c.deposit(&ALICE), 300);
    assert_eq!(c.deposit(&BOB), 0);
    assert_eq!(c.max_per_wallet(), Some(400));
    assert_eq!(c.fund(ALICE, 101, 1), Err(CampaignError::WalletCapExceeded));
    assert_eq!(c.fund(ALICE, 100, 1), Ok(()));
    assert_eq!(c.deposit(&ALICE), 400);
}
