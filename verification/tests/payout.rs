//! `payout`, `payout_with_commitment` and `confirm_payout`, call by call.

use cto_dex_escrow::{
    commitment_hash, confirm_payout, payout, payout_with_commitment, Campaign, CampaignSeeds,
    CampaignStatus, EscrowError, Payout, Pubkey, TokenAccount, TransferRequest,
    MAX_CONTRIBUTION_AMOUNT,
};

fn key(tag: u8) -> Pubkey {
    Pubkey::new([tag; 32])
}

fn succeeded(total: u64, committed_amount: u64) -> Campaign {
    let mut campaign = Campaign::default();
    campaign.creator = key(1);
    campaign.pay_mint = key(2);
    campaign.bump = 251;
    campaign.target_amount = total;
    campaign.total_contributed = total;
    campaign.status = CampaignStatus::Succeeded;
    campaign.merchant_hash = commitment_hash(&key(2), &key(5), committed_amount);
    campaign.merchant_hash_set = true;
    campaign
}

fn accounts(campaign: Campaign, vault: u64) -> Payout {
    Payout {
        campaign_key: key(3),
        campaign,
        vault: TokenAccount { key: key(4), amount: vault },
        merchant_ata: TokenAccount { key: key(5), amount: 0 },
    }
}

fn refused(ctx: &Payout, amount: u64) -> EscrowError {
    let mut tried = ctx.clone();
    let error = payout(&mut tried, amount, 900).unwrap_err();
    assert_eq!(&tried, ctx);
    error
}

#[test]
fn payout_hands_out_the_transfer_and_takes_the_guard() {
    let mut ctx = accounts(succeeded(10_000_000, 10_000_000), 10_000_000);
    let request = payout(&mut ctx, 10_000_000, 900).unwrap();
    assert_eq!(
        request,
        TransferRequest {
            from: key(4),
            to: key(5),
            authority: key(3),
            amount: 10_000_000,
            signer_seeds: Some(CampaignSeeds { creator: key(1), bump: 251 }),
        }
    );
    assert!(ctx.campaign.reentrancy_guard);
    assert_eq!(ctx.campaign.last_operation_timestamp, 900);
    assert_eq!(ctx.campaign.status, CampaignStatus::Succeeded);
    assert_eq!(confirm_payout(&mut ctx), Ok(()));
    assert_eq!(ctx.campaign.status, CampaignStatus::Paid);
    assert!(!ctx.campaign.reentrancy_guard);
    assert_eq!(ctx.campaign.total_contributed, 10_000_000);
}

#[test]
fn payout_is_for_succeeded_campaigns_only() {
    for status in [CampaignStatus::Pending, CampaignStatus::Failed, CampaignStatus::Paid] {
        let mut campaign = succeeded(10_000_000, 10_000_000);
        campaign.status = status;
        assert_eq!(refused(&accounts(campaign, 10_000_000), 10_000_000), EscrowError::WrongStatus);
    }
}

#[test]
fn payout_wants_the_merchant_hash_set() {
    let mut campaign = succeeded(10_000_000, 10_000_000);
    campaign.merchant_hash_set = false;
    assert_eq!(
        refused(&accounts(campaign, 10_000_000), 10_000_000),
        EscrowError::MerchantHashNotSet
    );
}

#[test]
fn payout_bounds_the_amount() {
    let ctx = accounts(succeeded(u64::MAX, 10_000_000), u64::MAX);
    assert_eq!(refused(&ctx, 0), EscrowError::InvalidAmount);
    assert_eq!(refused(&ctx, 1), EscrowError::AmountTooSmall);
    assert_eq!(refused(&ctx, 999_999), EscrowError::AmountTooSmall);
    assert_eq!(refused(&ctx, MAX_CONTRIBUTION_AMOUNT + 1), EscrowError::AmountTooLarge);
    assert_eq!(refused(&ctx, 1_000_000), EscrowError::MerchantHashMismatch);
    assert_eq!(refused(&ctx, MAX_CONTRIBUTION_AMOUNT), EscrowError::MerchantHashMismatch);
}

#[test]
fn payout_wants_the_vault_and_the_total_to_cover_it() {
    let short_vault = accounts(succeeded(10_000_000, 10_000_000), 9_999_999);
    assert_eq!(refused(&short_vault, 10_000_000), EscrowError::InsufficientVaultBalance);
    let short_total = accounts(succeeded(9_999_999, 10_000_000), 10_000_000);
    assert_eq!(refused(&short_total, 10_000_000), EscrowError::ExceedsCampaignTotal);
}

#[test]
fn payout_of_part_is_accepted_when_the_hash_commits_to_that_part() {
    let mut ctx = accounts(succeeded(10_000_000, 4_000_000), 10_000_000);
    assert_eq!(refused(&ctx, 10_000_000), EscrowError::MerchantHashMismatch);
    let request = payout(&mut ctx, 4_000_000, 900).unwrap();
    assert_eq!(request.amount, 4_000_000);
}

#[test]
fn payout_refuses_while_the_guard_is_held() {
    let mut campaign = succeeded(10_000_000, 10_000_000);
    campaign.reentrancy_guard = true;
    let ctx = accounts(campaign, 10_000_000);
    assert_eq!(refused(&ctx, 10_000_000), EscrowError::ReentrancyDetected);
    assert_eq!(refused(&ctx, 9_000_000), EscrowError::MerchantHashMismatch);
}

#[test]
fn payout_with_commitment_compares_every_byte() {
    let stored = commitment_hash(&key(2), &key(5), 10_000_000);
    let ctx = accounts(succeeded(10_000_000, 10_000_000), 10_000_000);
    for at in [0usize, 15, 31] {
        let mut off = stored;
        off[at] ^= 0x80;
        let mut tried = ctx.clone();
        assert_eq!(
            payout_with_commitment(&mut tried, 10_000_000, 900, &off),
            Err(EscrowError::MerchantHashMismatch)
        );
        assert_eq!(tried, ctx);
    }
    let mut tried = ctx.clone();
    assert!(payout_with_commitment(&mut tried, 10_000_000, 900, &stored).is_ok());
    assert!(tried.campaign.reentrancy_guard);
}

#[test]
fn payout_with_commitment_takes_the_commitment_as_given() {
    let mut campaign = succeeded(10_000_000, 10_000_000);
    campaign.merchant_hash = [3u8; 32];
    let mut ctx = accounts(campaign, 10_000_000);
    let request = payout_with_commitment(&mut ctx, 2_000_000, 900, &[3u8; 32]).unwrap();
    assert_eq!(request.amount, 2_000_000);
    assert_eq!(request.to, key(5));
}

#[test]
fn confirm_payout_wants_the_guard_held() {
    let mut ctx = accounts(succeeded(10_000_000, 10_000_000), 0);
    let before = ctx.clone();
    assert_eq!(confirm_payout(&mut ctx), Err(EscrowError::ReentrancyDetected));
    assert_eq!(ctx, before);
}

#[test]
fn confirm_payout_makes_no_illegal_move() {
    for status in [CampaignStatus::Pending, CampaignStatus::Failed, CampaignStatus::Paid] {
        let mut campaign = succeeded(10_000_000, 10_000_000);
        campaign.status = status;
        campaign.reentrancy_guard = true;
        let mut ctx = accounts(campaign, 0);
        assert_eq!(confirm_payout(&mut ctx), Err(EscrowError::WrongStatus));
        assert_eq!(ctx.campaign.status, status);
        assert!(!ctx.campaign.reentrancy_guard);
    }
}
