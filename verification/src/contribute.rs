//! Contributing to a pending campaign.

use crate::accounts::Contribute;
use crate::error::EscrowError;
use crate::guard::{enter, entered, exit, exited};
use crate::pubkey::Pubkey;
use crate::state::{
    Campaign, CampaignStatus, Contribution, TransferRequest, MAX_CONTRIBUTION_AMOUNT,
    MIN_CONTRIBUTION_AMOUNT,
};
use vstd::prelude::*;

verus! {

/// What `contribute` answers. The checks are made in this order; the first
/// that fails names the error.
pub open spec fn contribute_check(ctx: Contribute, amount: u64, now: i64) -> Result<
    (),
    EscrowError,
> {
    if amount < MIN_CONTRIBUTION_AMOUNT {
        Err(EscrowError::AmountTooSmall)
    } else if amount > MAX_CONTRIBUTION_AMOUNT {
        Err(EscrowError::AmountTooLarge)
    } else if !(ctx.campaign.status is Pending) {
        Err(EscrowError::WrongStatus)
    } else if now > ctx.campaign.deadline {
        Err(EscrowError::DeadlinePassed)
    } else if ctx.contributor_ata.amount < amount {
        Err(EscrowError::InsufficientBalance)
    } else if ctx.campaign.total_contributed + amount > u64::MAX {
        Err(EscrowError::Overflow)
    } else if ctx.campaign.total_contributed + amount > ctx.campaign.target_amount {
        Err(EscrowError::ExceedsTarget)
    } else if ctx.campaign.reentrancy_guard {
        Err(EscrowError::ReentrancyDetected)
    } else {
        Ok(())
    }
}

/// The transfer that an accepted contribution asks for: from the
/// contributor's account to the vault, signed by the contributor.
pub open spec fn contribute_request(ctx: Contribute, amount: u64) -> TransferRequest {
    TransferRequest {
        from: ctx.contributor_ata.key,
        to: ctx.vault.key,
        authority: ctx.contributor,
        amount,
        signer_seeds: None,
    }
}

/// The accounts while an accepted contribution's transfer is in flight.
pub open spec fn contribute_begun(ctx: Contribute, now: i64) -> Contribute {
    Contribute { campaign: entered(ctx.campaign, now), ..ctx }
}

/// Begins a contribution of `amount` at time `now`. The amount lies between
/// `MIN_CONTRIBUTION_AMOUNT` and `MAX_CONTRIBUTION_AMOUNT`, the campaign is
/// pending and not past its deadline, the contributor holds the amount, and
/// the campaign's total stays within its target: an amount that would pass
/// the target is refused whole. When accepted, the guard is taken and the
/// transfer to make is returned; the totals change only in
/// `confirm_contribution`. When refused, nothing changes.
pub fn contribute(ctx: &mut Contribute, amount: u64, now: i64) -> (result: Result<
    TransferRequest,
    EscrowError,
>)
    ensures
        match result {
            Ok(request) => {
                &&& contribute_check(*old(ctx), amount, now) is Ok
                &&& request == contribute_request(*old(ctx), amount)
                &&& *final(ctx) == contribute_begun(*old(ctx), now)
            },
            Err(e) => {
                &&& contribute_check(*old(ctx), amount, now) == Err::<(), EscrowError>(e)
                &&& *final(ctx) == *old(ctx)
            },
        },
        old(ctx).campaign.evolves_to(final(ctx).campaign),
{
    if amount < MIN_CONTRIBUTION_AMOUNT {
        return Err(EscrowError::AmountTooSmall);
    }
    if amount > MAX_CONTRIBUTION_AMOUNT {
        return Err(EscrowError::AmountTooLarge);
    }
    if ctx.campaign.status != CampaignStatus::Pending {
        return Err(EscrowError::WrongStatus);
    }
    if now > ctx.campaign.deadline {
        return Err(EscrowError::DeadlinePassed);
    }
    if ctx.contributor_ata.amount < amount {
        return Err(EscrowError::InsufficientBalance);
    }
    let new_total = match ctx.campaign.total_contributed.checked_add(amount) {
        Some(total) => total,
        None => {
            return Err(EscrowError::Overflow);
        },
    };
    if new_total > ctx.campaign.target_amount {
        return Err(EscrowError::ExceedsTarget);
    }
    let request = TransferRequest {
        from: ctx.contributor_ata.key,
        to: ctx.vault.key,
        authority: ctx.contributor,
        amount,
        signer_seeds: None,
    };
    match enter(&mut ctx.campaign, now) {
        Ok(()) => Ok(request),
        Err(e) => Err(e),
    }
}

/// What `confirm_contribution` answers: it wants the guard held, a pending
/// campaign, a total that stays within the target, and a record whose amount
/// does not overflow.
pub open spec fn confirm_contribution_check(ctx: Contribute, amount: u64) -> Result<
    (),
    EscrowError,
> {
    if !ctx.campaign.reentrancy_guard {
        Err(EscrowError::ReentrancyDetected)
    } else if !(ctx.campaign.status is Pending) {
        Err(EscrowError::WrongStatus)
    } else if ctx.campaign.total_contributed + amount > u64::MAX {
        Err(EscrowError::Overflow)
    } else if ctx.campaign.total_contributed + amount > ctx.campaign.target_amount {
        Err(EscrowError::ExceedsTarget)
    } else if ctx.contribution.amount + amount > u64::MAX {
        Err(EscrowError::Overflow)
    } else {
        Ok(())
    }
}

/// A contributor's record after `amount` more: a record that held nothing is
/// first made out to the contributor and the campaign.
pub open spec fn credited(
    record: Contribution,
    contributor: Pubkey,
    campaign_key: Pubkey,
    amount: u64,
) -> Contribution {
    if record.amount == 0 {
        Contribution { contributor, campaign: campaign_key, amount, refunded: false }
    } else {
        Contribution { amount: (record.amount + amount) as u64, ..record }
    }
}

/// The campaign after `contributor` gave `amount` and now stands at
/// `contributed` in all: the total grows by `amount`, and the contributor
/// becomes the top contributor if `contributed` is strictly more than the top
/// amount so far. The guard is released.
pub open spec fn funded(
    campaign: Campaign,
    contributor: Pubkey,
    contributed: u64,
    amount: u64,
) -> Campaign {
    let total = (campaign.total_contributed + amount) as u64;
    if contributed > campaign.top_contributor_amount {
        Campaign {
            total_contributed: total,
            top_contributor: contributor,
            top_contributor_amount: contributed,
            ..exited(campaign)
        }
    } else {
        Campaign { total_contributed: total, ..exited(campaign) }
    }
}

/// The accounts after a confirmed contribution of `amount`.
pub open spec fn contribution_confirmed(ctx: Contribute, amount: u64) -> Contribute {
    let record = credited(ctx.contribution, ctx.contributor, ctx.campaign_key, amount);
    Contribute {
        campaign: funded(ctx.campaign, ctx.contributor, record.amount, amount),
        contribution: record,
        ..ctx
    }
}

/// Records that the transfer of a contribution of `amount` was made: the
/// contributor's record and the campaign's total grow by `amount`, and the
/// top contributor is updated. The guard is released whatever the answer;
/// nothing else changes when the call is refused.
pub fn confirm_contribution(ctx: &mut Contribute, amount: u64) -> (result: Result<
    (),
    EscrowError,
>)
    ensures
        result == confirm_contribution_check(*old(ctx), amount),
        result is Ok ==> *final(ctx) == contribution_confirmed(*old(ctx), amount),
        result is Err ==> *final(ctx) == (Contribute {
            campaign: exited(old(ctx).campaign),
            ..*old(ctx)
        }),
        old(ctx).campaign.evolves_to(final(ctx).campaign),
{
    if !ctx.campaign.reentrancy_guard {
        return Err(EscrowError::ReentrancyDetected);
    }
    exit(&mut ctx.campaign);
    if ctx.campaign.status != CampaignStatus::Pending {
        return Err(EscrowError::WrongStatus);
    }
    let new_total = match ctx.campaign.total_contributed.checked_add(amount) {
        Some(total) => total,
        None => {
            return Err(EscrowError::Overflow);
        },
    };
    if new_total > ctx.campaign.target_amount {
        return Err(EscrowError::ExceedsTarget);
    }
    let contributed = match ctx.contribution.amount.checked_add(amount) {
        Some(sum) => sum,
        None => {
            return Err(EscrowError::Overflow);
        },
    };
    if ctx.contribution.amount == 0 {
        ctx.contribution.contributor = ctx.contributor;
        ctx.contribution.campaign = ctx.campaign_key;
        ctx.contribution.refunded = false;
    }
    ctx.contribution.amount = contributed;
    ctx.campaign.total_contributed = new_total;
    if contributed > ctx.campaign.top_contributor_amount {
        ctx.campaign.top_contributor_amount = contributed;
        ctx.campaign.top_contributor = ctx.contributor;
    }
    Ok(())
}

} // verus!
