//! Refunding the contributors of a failed campaign.

use crate::accounts::Refund;
use crate::error::EscrowError;
use crate::guard::{enter, entered, exit, exited};
use crate::state::{CampaignSeeds, CampaignStatus, Contribution, TransferRequest};
use vstd::prelude::*;

verus! {

/// What `refund` answers. The checks are made in this order; the first that
/// fails names the error.
pub open spec fn refund_check(ctx: Refund) -> Result<(), EscrowError> {
    if !(ctx.campaign.status is Failed) {
        Err(EscrowError::WrongStatus)
    } else if ctx.contribution.refunded {
        Err(EscrowError::AlreadyRefunded)
    } else if ctx.contribution.amount == 0 {
        Err(EscrowError::NothingToRefund)
    } else if ctx.vault.amount < ctx.contribution.amount {
        Err(EscrowError::InsufficientVaultBalance)
    } else if ctx.campaign.reentrancy_guard {
        Err(EscrowError::ReentrancyDetected)
    } else {
        Ok(())
    }
}

/// The transfer that an accepted refund asks for: the whole recorded amount,
/// from the vault back to the contributor's account, signed by the campaign
/// itself.
pub open spec fn refund_request(ctx: Refund) -> TransferRequest {
    TransferRequest {
        from: ctx.vault.key,
        to: ctx.contributor_ata.key,
        authority: ctx.campaign_key,
        amount: ctx.contribution.amount,
        signer_seeds: Some(CampaignSeeds { creator: ctx.campaign.creator, bump: ctx.campaign.bump }),
    }
}

/// The accounts while an accepted refund's transfer is in flight.
pub open spec fn refund_begun(ctx: Refund, now: i64) -> Refund {
    Refund { campaign: entered(ctx.campaign, now), ..ctx }
}

/// Begins the refund of a contribution to a failed campaign. The record must
/// not be refunded yet and must hold something, and the vault must hold as
/// much. When accepted, the guard is taken and the transfer to make is
/// returned; when refused, nothing changes.
pub fn refund(ctx: &mut Refund, now: i64) -> (result: Result<TransferRequest, EscrowError>)
    ensures
        match result {
            Ok(request) => {
                &&& refund_check(*old(ctx)) is Ok
                &&& request == refund_request(*old(ctx))
                &&& *final(ctx) == refund_begun(*old(ctx), now)
            },
            Err(e) => {
                &&& refund_check(*old(ctx)) == Err::<(), EscrowError>(e)
                &&& *final(ctx) == *old(ctx)
            },
        },
        old(ctx).campaign.evolves_to(final(ctx).campaign),
{
    if ctx.campaign.status != CampaignStatus::Failed {
        return Err(EscrowError::WrongStatus);
    }
    if ctx.contribution.refunded {
        return Err(EscrowError::AlreadyRefunded);
    }
    let amount = ctx.contribution.amount;
    if amount == 0 {
        return Err(EscrowError::NothingToRefund);
    }
    if ctx.vault.amount < amount {
        return Err(EscrowError::InsufficientVaultBalance);
    }
    let request = TransferRequest {
        from: ctx.vault.key,
        to: ctx.contributor_ata.key,
        authority: ctx.campaign_key,
        amount,
        signer_seeds: Some(CampaignSeeds { creator: ctx.campaign.creator, bump: ctx.campaign.bump }),
    };
    match enter(&mut ctx.campaign, now) {
        Ok(()) => Ok(request),
        Err(e) => Err(e),
    }
}

/// What `confirm_refund` answers: it wants the guard held, a failed
/// campaign, and a record that is not refunded yet.
pub open spec fn confirm_refund_check(ctx: Refund) -> Result<(), EscrowError> {
    if !ctx.campaign.reentrancy_guard {
        Err(EscrowError::ReentrancyDetected)
    } else if !(ctx.campaign.status is Failed) {
        Err(EscrowError::WrongStatus)
    } else if ctx.contribution.refunded {
        Err(EscrowError::AlreadyRefunded)
    } else {
        Ok(())
    }
}

/// The accounts after a confirmed refund: the record is marked, for good,
/// and the guard is released.
pub open spec fn refund_confirmed(ctx: Refund) -> Refund {
    Refund {
        campaign: exited(ctx.campaign),
        contribution: Contribution { refunded: true, ..ctx.contribution },
        ..ctx
    }
}

/// Records that the transfer of a refund was made: the contribution is
/// marked as refunded. The guard is released whatever the answer; nothing
/// else changes when the call is refused.
pub fn confirm_refund(ctx: &mut Refund) -> (result: Result<(), EscrowError>)
    ensures
        result == confirm_refund_check(*old(ctx)),
        result is Ok ==> *final(ctx) == refund_confirmed(*old(ctx)),
        result is Err ==> *final(ctx) == (Refund { campaign: exited(old(ctx).campaign), ..*old(ctx) }),
        old(ctx).campaign.evolves_to(final(ctx).campaign),
{
    if !ctx.campaign.reentrancy_guard {
        return Err(EscrowError::ReentrancyDetected);
    }
    exit(&mut ctx.campaign);
    if ctx.campaign.status != CampaignStatus::Failed {
        return Err(EscrowError::WrongStatus);
    }
    if ctx.contribution.refunded {
        return Err(EscrowError::AlreadyRefunded);
    }
    ctx.contribution.refunded = true;
    Ok(())
}

} // verus!
