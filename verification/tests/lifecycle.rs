//! Creating, finalizing and committing a campaign.

use cto_dex_escrow::{
    finalize, init_campaign, set_delegate_authority, set_merchant_hash, Campaign, CampaignStatus,
    Contribution, EscrowError, Finalize, InitCampaign, Pubkey, SetDelegateAuthority,
    SetMerchantHash, MAX_CAMPAIGN_DURATION, MAX_CAMPAIGN_TARGET, MIN_CAMPAIGN_DURATION,
    MIN_CONTRIBUTION_AMOUNT, REENTRANCY_GUARD_DURATION,
};

const NOW: i64 = 1_700_000_000;

fn key(tag: u8) -> Pubkey {
    Pubkey::new([tag; 32])
}

fn init_accounts() -> InitCampaign {
    InitCampaign {
        creator: key(1),
        creator_lamports: 6_000_000,
        pay_mint: key(2),
        campaign: Campaign::default(),
        bump: 253,
        campaign_rent: 4_000_000,
        vault_rent: 2_000_000,
    }
}

fn init_refused(ctx: &InitCampaign, target: u64, deadline: i64, now: i64) -> EscrowError {
    let mut tried = ctx.clone();
    let error = init_campaign(&mut tried, target, deadline, now).unwrap_err();
    assert_eq!(&tried, ctx);
    error
}

fn campaign(status: CampaignStatus, total: u64) -> Campaign {
    let mut campaign = Campaign::default();
    campaign.creator = key(1);
    campaign.pay_mint = key(2);
    campaign.target_amount = 10_000_000;
    campaign.total_contributed = total;
    campaign.deadline = NOW + 7200;
    campaign.status = status;
    campaign.top_contributor = key(10);
    campaign.top_contributor_amount = total;
    campaign
}

#[test]
fn constants_have_their_values() {
    assert_eq!(MIN_CONTRIBUTION_AMOUNT, 1_000_000);
    assert_eq!(MAX_CAMPAIGN_TARGET, 1_000_000_000_000_000);
    assert_eq!(MIN_CAMPAIGN_DURATION, 3600);
    assert_eq!(MAX_CAMPAIGN_DURATION, 365 * 24 * 3600);
    assert_eq!(REENTRANCY_GUARD_DURATION, 300);
    assert_eq!(Campaign::MAX_URI_LEN, 256);
    assert_eq!(Campaign::SPACE, 504);
    assert_eq!(Contribution::SPACE, 81);
}

#[test]
fn init_campaign_fills_in_a_pending_campaign() {
    let mut ctx = init_accounts();
    ctx.campaign.total_contributed = 99;
    ctx.campaign.reentrancy_guard = true;
    ctx.campaign.status = CampaignStatus::Paid;
    assert_eq!(init_campaign(&mut ctx, 10_000_000, NOW + 7200, NOW), Ok(()));
    let mut expected = Campaign::default();
    expected.creator = key(1);
    expected.pay_mint = key(2);
    expected.bump = 253;
    expected.target_amount = 10_000_000;
    expected.deadline = NOW + 7200;
    assert_eq!(ctx.campaign, expected);
    assert_eq!(ctx.campaign.status, CampaignStatus::Pending);
    assert_eq!(ctx.campaign.total_contributed, 0);
    assert_eq!(ctx.campaign.top_contributor, Pubkey::default());
    assert_eq!(ctx.campaign.metadata_uri, "");
    assert_eq!(ctx.campaign.metadata_hash, [0u8; 32]);
    assert_eq!(ctx.campaign.merchant_hash, [0u8; 32]);
    assert!(!ctx.campaign.merchant_hash_set);
    assert!(!ctx.campaign.reentrancy_guard);
    assert_eq!(ctx.campaign.last_operation_timestamp, 0);
    assert_eq!(ctx.creator_lamports, 6_000_000);
}

#[test]
fn init_campaign_bounds_the_target() {
    let ctx = init_accounts();
    assert_eq!(init_refused(&ctx, 0, NOW + 7200, NOW), EscrowError::AmountTooSmall);
    assert_eq!(init_refused(&ctx, 999_999, NOW + 7200, NOW), EscrowError::AmountTooSmall);
    assert_eq!(
        init_refused(&ctx, MAX_CAMPAIGN_TARGET + 1, NOW + 7200, NOW),
        EscrowError::AmountTooLarge
    );
    let mut low = ctx.clone();
    assert_eq!(init_campaign(&mut low, 1_000_000, NOW + 7200, NOW), Ok(()));
    let mut high = ctx.clone();
    assert_eq!(init_campaign(&mut high, MAX_CAMPAIGN_TARGET, NOW + 7200, NOW), Ok(()));
}

#[test]
fn init_campaign_bounds_the_deadline() {
    let ctx = init_accounts();
    assert_eq!(init_refused(&ctx, 5_000_000, NOW, NOW), EscrowError::InvalidDeadline);
    assert_eq!(init_refused(&ctx, 5_000_000, NOW - 1, NOW), EscrowError::InvalidDeadline);
    assert_eq!(init_refused(&ctx, 5_000_000, NOW + 1, NOW), EscrowError::DurationTooShort);
    assert_eq!(init_refused(&ctx, 5_000_000, NOW + 3599, NOW), EscrowError::DurationTooShort);
    assert_eq!(
        init_refused(&ctx, 5_000_000, NOW + 31_536_001, NOW),
        EscrowError::DurationTooLong
    );
    let mut shortest = ctx.clone();
    assert_eq!(init_campaign(&mut shortest, 5_000_000, NOW + 3600, NOW), Ok(()));
    let mut longest = ctx.clone();
    assert_eq!(init_campaign(&mut longest, 5_000_000, NOW + 31_536_000, NOW), Ok(()));
}

#[test]
fn init_campaign_takes_times_at_the_ends_of_the_range() {
    let ctx = init_accounts();
    assert_eq!(init_refused(&ctx, 5_000_000, i64::MAX, i64::MIN), EscrowError::DurationTooLong);
    assert_eq!(init_refused(&ctx, 5_000_000, i64::MIN, i64::MAX), EscrowError::InvalidDeadline);
    assert_eq!(init_refused(&ctx, 5_000_000, i64::MAX, -1), EscrowError::DurationTooLong);
    let mut late = ctx.clone();
    assert_eq!(init_campaign(&mut late, 5_000_000, i64::MAX, i64::MAX - 3600), Ok(()));
}

#[test]
fn init_campaign_wants_the_rent_covered() {
    let mut ctx = init_accounts();
    ctx.creator_lamports = 5_999_999;
    assert_eq!(init_refused(&ctx, 5_000_000, NOW + 7200, NOW), EscrowError::InsufficientRent);
    ctx.creator_lamports = u64::MAX;
    ctx.campaign_rent = u64::MAX;
    ctx.vault_rent = 1;
    assert_eq!(init_refused(&ctx, 5_000_000, NOW + 7200, NOW), EscrowError::InsufficientRent);
    ctx.vault_rent = 0;
    assert_eq!(init_campaign(&mut ctx, 5_000_000, NOW + 7200, NOW), Ok(()));
}

#[test]
fn init_campaign_names_the_first_check_that_fails() {
    let mut ctx = init_accounts();
    ctx.creator_lamports = 0;
    assert_eq!(init_refused(&ctx, 0, NOW - 5, NOW), EscrowError::AmountTooSmall);
    assert_eq!(init_refused(&ctx, 5_000_000, NOW - 5, NOW), EscrowError::InvalidDeadline);
    assert_eq!(init_refused(&ctx, 5_000_000, NOW + 5, NOW), EscrowError::DurationTooShort);
    assert_eq!(init_refused(&ctx, 5_000_000, NOW + 7200, NOW), EscrowError::InsufficientRent);
}

#[test]
fn finalize_succeeds_early_when_the_target_is_met() {
    let mut ctx = Finalize { campaign: campaign(CampaignStatus::Pending, 10_000_000) };
    assert_eq!(finalize(&mut ctx, NOW + 10), Ok(()));
    assert_eq!(ctx.campaign.status, CampaignStatus::Succeeded);
    assert_eq!(ctx.campaign.last_operation_timestamp, NOW + 10);
    assert!(!ctx.campaign.reentrancy_guard);
    assert_eq!(ctx.campaign.total_contributed, 10_000_000);
}

#[test]
fn finalize_succeeds_after_the_deadline_when_the_target_is_met() {
    let mut ctx = Finalize { campaign: campaign(CampaignStatus::Pending, 10_000_000) };
    assert_eq!(finalize(&mut ctx, NOW + 9000), Ok(()));
    assert_eq!(ctx.campaign.status, CampaignStatus::Succeeded);
}

#[test]
fn finalize_fails_the_campaign_only_after_the_deadline() {
    let mut ctx = Finalize { campaign: campaign(CampaignStatus::Pending, 9_999_999) };
    let before = ctx.clone();
    assert_eq!(finalize(&mut ctx, NOW + 10), Err(EscrowError::GoalNotMet));
    assert_eq!(finalize(&mut ctx, NOW + 7200), Err(EscrowError::GoalNotMet));
    assert_eq!(ctx, before);
    assert_eq!(finalize(&mut ctx, NOW + 7201), Ok(()));
    assert_eq!(ctx.campaign.status, CampaignStatus::Failed);
    assert_eq!(ctx.campaign.last_operation_timestamp, NOW + 7201);
}

#[test]
fn finalize_is_for_pending_campaigns_only() {
    for status in [CampaignStatus::Succeeded, CampaignStatus::Failed, CampaignStatus::Paid] {
        let mut ctx = Finalize { campaign: campaign(status, 10_000_000) };
        let before = ctx.clone();
        assert_eq!(finalize(&mut ctx, NOW + 9000), Err(EscrowError::WrongStatus));
        assert_eq!(ctx, before);
    }
}

#[test]
fn finalize_refuses_while_the_guard_is_held() {
    let mut held = campaign(CampaignStatus::Pending, 10_000_000);
    held.reentrancy_guard = true;
    let mut ctx = Finalize { campaign: held.clone() };
    assert_eq!(finalize(&mut ctx, NOW + 10), Err(EscrowError::ReentrancyDetected));
    assert_eq!(ctx.campaign, held);
    let mut short = campaign(CampaignStatus::Pending, 1);
    short.reentrancy_guard = true;
    let mut ctx = Finalize { campaign: short.clone() };
    assert_eq!(finalize(&mut ctx, NOW + 10), Err(EscrowError::GoalNotMet));
    assert_eq!(finalize(&mut ctx, NOW + 9000), Err(EscrowError::ReentrancyDetected));
    assert_eq!(ctx.campaign, short);
}

#[test]
fn set_merchant_hash_is_accepted_from_each_permitted_signer() {
    let mut base = campaign(CampaignStatus::Succeeded, 10_000_000);
    base.delegate_authority = key(30);
    for signer in [key(1), key(10), key(30)] {
        let mut ctx = SetMerchantHash { authority: signer, campaign: base.clone() };
        assert_eq!(set_merchant_hash(&mut ctx, [7u8; 32], NOW + 5), Ok(()));
        assert_eq!(ctx.campaign.merchant_hash, [7u8; 32]);
        assert!(ctx.campaign.merchant_hash_set);
        assert!(!ctx.campaign.reentrancy_guard);
        assert_eq!(ctx.campaign.last_operation_timestamp, NOW + 5);
        assert_eq!(ctx.campaign.status, CampaignStatus::Succeeded);
    }
    let mut ctx = SetMerchantHash { authority: key(31), campaign: base.clone() };
    assert_eq!(set_merchant_hash(&mut ctx, [7u8; 32], NOW + 5), Err(EscrowError::Unauthorized));
    assert_eq!(ctx.campaign, base);
}

#[test]
fn set_merchant_hash_is_for_succeeded_campaigns_only() {
    for status in [CampaignStatus::Pending, CampaignStatus::Failed, CampaignStatus::Paid] {
        let mut ctx = SetMerchantHash { authority: key(1), campaign: campaign(status, 10_000_000) };
        let before = ctx.clone();
        assert_eq!(set_merchant_hash(&mut ctx, [7u8; 32], NOW), Err(EscrowError::WrongStatus));
        assert_eq!(ctx, before);
    }
}

#[test]
fn set_merchant_hash_refuses_the_zero_hash() {
    let mut ctx = SetMerchantHash {
        authority: key(1),
        campaign: campaign(CampaignStatus::Succeeded, 10_000_000),
    };
    let before = ctx.clone();
    assert_eq!(set_merchant_hash(&mut ctx, [0u8; 32], NOW), Err(EscrowError::InvalidMerchantHash));
    assert_eq!(ctx, before);
    let mut nearly = [0u8; 32];
    nearly[31] = 1;
    assert_eq!(set_merchant_hash(&mut ctx, nearly, NOW), Ok(()));
}

#[test]
fn set_merchant_hash_can_be_set_once() {
    let mut ctx = SetMerchantHash {
        authority: key(1),
        campaign: campaign(CampaignStatus::Succeeded, 10_000_000),
    };
    assert_eq!(set_merchant_hash(&mut ctx, [7u8; 32], NOW), Ok(()));
    let before = ctx.clone();
    assert_eq!(set_merchant_hash(&mut ctx, [8u8; 32], NOW + 1), Err(EscrowError::Unauthorized));
    assert_eq!(set_merchant_hash(&mut ctx, [7u8; 32], NOW + 1), Err(EscrowError::Unauthorized));
    assert_eq!(ctx, before);
    assert_eq!(ctx.campaign.merchant_hash, [7u8; 32]);
}

#[test]
fn set_merchant_hash_refuses_while_the_guard_is_held() {
    let mut held = campaign(CampaignStatus::Succeeded, 10_000_000);
    held.reentrancy_guard = true;
    let mut ctx = SetMerchantHash { authority: key(1), campaign: held.clone() };
    assert_eq!(set_merchant_hash(&mut ctx, [7u8; 32], NOW), Err(EscrowError::ReentrancyDetected));
    assert_eq!(ctx.campaign, held);
    assert_eq!(set_merchant_hash(&mut ctx, [0u8; 32], NOW), Err(EscrowError::InvalidMerchantHash));
}

#[test]
fn set_delegate_authority_is_for_the_creator() {
    let base = campaign(CampaignStatus::Pending, 0);
    let mut ctx = SetDelegateAuthority { creator: key(1), campaign: base.clone() };
    assert_eq!(set_delegate_authority(&mut ctx, key(30), NOW + 3), Ok(()));
    assert_eq!(ctx.campaign.delegate_authority, key(30));
    assert_eq!(ctx.campaign.last_operation_timestamp, NOW + 3);
    assert!(!ctx.campaign.reentrancy_guard);
    assert_eq!(set_delegate_authority(&mut ctx, key(31), NOW + 4), Ok(()));
    assert_eq!(ctx.campaign.delegate_authority, key(31));

    let mut stranger = SetDelegateAuthority { creator: key(10), campaign: base.clone() };
    assert_eq!(set_delegate_authority(&mut stranger, key(30), NOW), Err(EscrowError::Unauthorized));
    assert_eq!(stranger.campaign, base);
}

#[test]
fn set_delegate_authority_refuses_while_the_guard_is_held() {
    let mut held = campaign(CampaignStatus::Paid, 10_000_000);
    held.reentrancy_guard = true;
    let mut ctx = SetDelegateAuthority { creator: key(1), campaign: held.clone() };
    assert_eq!(
        set_delegate_authority(&mut ctx, key(30), NOW),
        Err(EscrowError::ReentrancyDetected)
    );
    assert_eq!(ctx.campaign, held);
}
