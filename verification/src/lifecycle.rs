//! Creating a campaign, deciding its outcome, and naming who is paid.

use crate::accounts::{Finalize, InitCampaign, SetDelegateAuthority, SetMerchantHash};
use crate::error::EscrowError;
use crate::guard::{enter, exit};
use crate::pubkey::{bytes32_is_zero, is_permitted, is_zero32, Pubkey};
use crate::state::{
    Campaign, CampaignStatus, MAX_CAMPAIGN_DURATION, MAX_CAMPAIGN_TARGET, MIN_CAMPAIGN_DURATION,
    MIN_CONTRIBUTION_AMOUNT,
};
use vstd::prelude::*;

verus! {

/// `campaign` after an operation that took the guard at `now` and released
/// it: the guard is free and the time of the operation is kept.
pub open spec fn stamped(campaign: Campaign, now: i64) -> Campaign {
    Campaign { reentrancy_guard: false, last_operation_timestamp: now, ..campaign }
}

/// What `init_campaign` answers. The checks are made in this order; the
/// first that fails names the error.
pub open spec fn init_campaign_check(
    ctx: InitCampaign,
    target_amount: u64,
    deadline_unix: i64,
    now: i64,
) -> Result<(), EscrowError> {
    if target_amount < MIN_CONTRIBUTION_AMOUNT {
        Err(EscrowError::AmountTooSmall)
    } else if target_amount > MAX_CAMPAIGN_TARGET {
        Err(EscrowError::AmountTooLarge)
    } else if deadline_unix <= now {
        Err(EscrowError::InvalidDeadline)
    } else if deadline_unix - now < MIN_CAMPAIGN_DURATION {
        Err(EscrowError::DurationTooShort)
    } else if deadline_unix - now > MAX_CAMPAIGN_DURATION {
        Err(EscrowError::DurationTooLong)
    } else if ctx.creator_lamports < ctx.campaign_rent + ctx.vault_rent {
        Err(EscrowError::InsufficientRent)
    } else {
        Ok(())
    }
}

/// Whether `campaign` is the record that `init_campaign` writes: the
/// creator, asset, bump, target and deadline as given, everything else zero,
/// empty or unset, and the status `Pending`.
pub open spec fn is_new_campaign(
    campaign: Campaign,
    ctx: InitCampaign,
    target_amount: u64,
    deadline_unix: i64,
) -> bool {
    &&& campaign.creator == ctx.creator
    &&& campaign.pay_mint == ctx.pay_mint
    &&& campaign.bump == ctx.bump
    &&& campaign.target_amount == target_amount
    &&& campaign.total_contributed == 0
    &&& campaign.deadline == deadline_unix
    &&& campaign.status is Pending
    &&& is_zero32(campaign.top_contributor.bytes)
    &&& campaign.top_contributor_amount == 0
    &&& campaign.metadata_uri@.len() == 0
    &&& is_zero32(campaign.metadata_hash)
    &&& is_zero32(campaign.merchant_hash)
    &&& !campaign.merchant_hash_set
    &&& is_zero32(campaign.delegate_authority.bytes)
    &&& !campaign.reentrancy_guard
    &&& campaign.last_operation_timestamp == 0
}

/// Creates a campaign with the given target and deadline, at time `now`.
/// The target must lie between `MIN_CONTRIBUTION_AMOUNT` and
/// `MAX_CAMPAIGN_TARGET`, the deadline between `MIN_CAMPAIGN_DURATION` and
/// `MAX_CAMPAIGN_DURATION` seconds ahead, and the creator must be able to pay
/// for storing the campaign and its vault.
pub fn init_campaign(
    ctx: &mut InitCampaign,
    target_amount: u64,
    deadline_unix: i64,
    now: i64,
) -> (result: Result<(), EscrowError>)
    ensures
        result == init_campaign_check(*old(ctx), target_amount, deadline_unix, now),
        result is Ok ==> {
            &&& is_new_campaign(final(ctx).campaign, *old(ctx), target_amount, deadline_unix)
            &&& final(ctx).campaign.wf()
            &&& *final(ctx) == (InitCampaign { campaign: final(ctx).campaign, ..*old(ctx) })
        },
        result is Err ==> *final(ctx) == *old(ctx),
{
    if target_amount < MIN_CONTRIBUTION_AMOUNT {
        return Err(EscrowError::AmountTooSmall);
    }
    if target_amount > MAX_CAMPAIGN_TARGET {
        return Err(EscrowError::AmountTooLarge);
    }
    if deadline_unix <= now {
        return Err(EscrowError::InvalidDeadline);
    }
    let duration: i128 = deadline_unix as i128 - now as i128;
    if duration < MIN_CAMPAIGN_DURATION as i128 {
        return Err(EscrowError::DurationTooShort);
    }
    if duration > MAX_CAMPAIGN_DURATION as i128 {
        return Err(EscrowError::DurationTooLong);
    }
    let rent: u128 = ctx.campaign_rent as u128 + ctx.vault_rent as u128;
    if (ctx.creator_lamports as u128) < rent {
        return Err(EscrowError::InsufficientRent);
    }
    ctx.campaign = Campaign {
        creator: ctx.creator,
        pay_mint: ctx.pay_mint,
        bump: ctx.bump,
        target_amount,
        total_contributed: 0,
        deadline: deadline_unix,
        status: CampaignStatus::Pending,
        top_contributor: Pubkey::default(),
        top_contributor_amount: 0,
        metadata_uri: String::new(),
        metadata_hash: [0u8; 32],
        merchant_hash: [0u8; 32],
        merchant_hash_set: false,
        delegate_authority: Pubkey::default(),
        reentrancy_guard: false,
        last_operation_timestamp: 0,
    };
    Ok(())
}

/// What `finalize` decides: the status that the campaign takes, or why it
/// takes none. A met target is looked at first, whatever the deadline.
pub open spec fn finalize_outcome(campaign: Campaign, now: i64) -> Result<
    CampaignStatus,
    EscrowError,
> {
    if !(campaign.status is Pending) {
        Err(EscrowError::WrongStatus)
    } else if campaign.total_contributed < campaign.target_amount && now <= campaign.deadline {
        Err(EscrowError::GoalNotMet)
    } else if campaign.reentrancy_guard {
        Err(EscrowError::ReentrancyDetected)
    } else if campaign.total_contributed >= campaign.target_amount {
        Ok(CampaignStatus::Succeeded)
    } else {
        Ok(CampaignStatus::Failed)
    }
}

/// Closes a pending campaign: `Succeeded` if the target is met, else
/// `Failed` if the deadline has passed, else refused with `GoalNotMet`.
/// Anyone may call it.
pub fn finalize(ctx: &mut Finalize, now: i64) -> (result: Result<(), EscrowError>)
    ensures
        match result {
            Ok(()) => {
                &&& finalize_outcome(old(ctx).campaign, now) matches Ok(status)
                &&& final(ctx).campaign == (Campaign { status, ..stamped(old(ctx).campaign, now) })
            },
            Err(e) => {
                &&& finalize_outcome(old(ctx).campaign, now) == Err::<CampaignStatus, EscrowError>(e)
                &&& *final(ctx) == *old(ctx)
            },
        },
        old(ctx).campaign.evolves_to(final(ctx).campaign),
{
    if ctx.campaign.status != CampaignStatus::Pending {
        return Err(EscrowError::WrongStatus);
    }
    let next = if ctx.campaign.total_contributed >= ctx.campaign.target_amount {
        CampaignStatus::Succeeded
    } else if now > ctx.campaign.deadline {
        CampaignStatus::Failed
    } else {
        return Err(EscrowError::GoalNotMet);
    };
    match ctx.campaign.status.advance(next) {
        Ok(status) => {
            match enter(&mut ctx.campaign, now) {
                Ok(()) => {
                    ctx.campaign.status = status;
                    exit(&mut ctx.campaign);
                    Ok(())
                },
                Err(e) => Err(e),
            }
        },
        Err(e) => Err(e),
    }
}

/// Who may submit the merchant hash: the top contributor, the creator and
/// the delegate, and nobody once a hash is set.
pub open spec fn may_set_merchant_hash(campaign: Campaign, signer: Pubkey) -> bool {
    &&& !campaign.merchant_hash_set
    &&& (signer == campaign.top_contributor || signer == campaign.creator || signer
        == campaign.delegate_authority)
}

/// What `set_merchant_hash` answers. The checks are made in this order; the
/// first that fails names the error.
pub open spec fn set_merchant_hash_check(ctx: SetMerchantHash, merchant_hash: [u8; 32]) -> Result<
    (),
    EscrowError,
> {
    if !(ctx.campaign.status is Succeeded) {
        Err(EscrowError::WrongStatus)
    } else if !may_set_merchant_hash(ctx.campaign, ctx.authority) {
        Err(EscrowError::Unauthorized)
    } else if is_zero32(merchant_hash) {
        Err(EscrowError::InvalidMerchantHash)
    } else if ctx.campaign.reentrancy_guard {
        Err(EscrowError::ReentrancyDetected)
    } else {
        Ok(())
    }
}

/// Commits a succeeded campaign to its payout: `merchant_hash` is the
/// commitment to the asset, the destination and the amount. The hash must
/// not be all zero. It can be set once; after that the call is refused with
/// `Unauthorized`, whoever signs.
pub fn set_merchant_hash(ctx: &mut SetMerchantHash, merchant_hash: [u8; 32], now: i64) -> (result:
    Result<(), EscrowError>)
    ensures
        result == set_merchant_hash_check(*old(ctx), merchant_hash),
        result is Ok ==> *final(ctx) == (SetMerchantHash {
            campaign: Campaign {
                merchant_hash,
                merchant_hash_set: true,
                ..stamped(old(ctx).campaign, now)
            },
            ..*old(ctx)
        }),
        result is Err ==> *final(ctx) == *old(ctx),
        old(ctx).campaign.evolves_to(final(ctx).campaign),
{
    if ctx.campaign.status != CampaignStatus::Succeeded {
        return Err(EscrowError::WrongStatus);
    }
    let permitted = [
        ctx.campaign.top_contributor,
        ctx.campaign.creator,
        ctx.campaign.delegate_authority,
    ];
    if ctx.campaign.merchant_hash_set || !is_permitted(&ctx.authority, &permitted) {
        return Err(EscrowError::Unauthorized);
    }
    if bytes32_is_zero(&merchant_hash) {
        return Err(EscrowError::InvalidMerchantHash);
    }
    match enter(&mut ctx.campaign, now) {
        Ok(()) => {
            ctx.campaign.merchant_hash = merchant_hash;
            ctx.campaign.merchant_hash_set = true;
            exit(&mut ctx.campaign);
            Ok(())
        },
        Err(e) => Err(e),
    }
}

/// What `set_delegate_authority` answers: only the creator may call it.
pub open spec fn set_delegate_authority_check(ctx: SetDelegateAuthority) -> Result<
    (),
    EscrowError,
> {
    if ctx.creator != ctx.campaign.creator {
        Err(EscrowError::Unauthorized)
    } else if ctx.campaign.reentrancy_guard {
        Err(EscrowError::ReentrancyDetected)
    } else {
        Ok(())
    }
}

/// Names `delegate` as a further principal who may submit the merchant
/// hash. Only the creator may call it.
pub fn set_delegate_authority(ctx: &mut SetDelegateAuthority, delegate: Pubkey, now: i64) -> (result:
    Result<(), EscrowError>)
    ensures
        result == set_delegate_authority_check(*old(ctx)),
        result is Ok ==> *final(ctx) == (SetDelegateAuthority {
            campaign: Campaign { delegate_authority: delegate, ..stamped(old(ctx).campaign, now) },
            ..*old(ctx)
        }),
        result is Err ==> *final(ctx) == *old(ctx),
        old(ctx).campaign.evolves_to(final(ctx).campaign),
{
    if ctx.creator != ctx.campaign.creator {
        return Err(EscrowError::Unauthorized);
    }
    match enter(&mut ctx.campaign, now) {
        Ok(()) => {
            ctx.campaign.delegate_authority = delegate;
            exit(&mut ctx.campaign);
            Ok(())
        },
        Err(e) => Err(e),
    }
}

} // verus!
