//! Paying a succeeded campaign out to the committed destination.

use crate::accounts::Payout;
use crate::commitment::{commitment_hash, commitment_of};
use crate::error::EscrowError;
use crate::guard::{enter, entered, exit, exited};
use crate::pubkey::bytes32_eq;
use crate::state::{
    Campaign, CampaignSeeds, CampaignStatus, TransferRequest, MAX_CONTRIBUTION_AMOUNT,
    MIN_CONTRIBUTION_AMOUNT,
};
use vstd::prelude::*;

verus! {

/// What `payout` answers when `commitment` is the hash of the asset, the
/// destination and the amount. The checks are made in this order; the first
/// that fails names the error.
pub open spec fn payout_check(ctx: Payout, amount: u64, commitment: Seq<u8>) -> Result<
    (),
    EscrowError,
> {
    if !(ctx.campaign.status is Succeeded) {
        Err(EscrowError::WrongStatus)
    } else if !ctx.campaign.merchant_hash_set {
        Err(EscrowError::MerchantHashNotSet)
    } else if amount == 0 {
        Err(EscrowError::InvalidAmount)
    } else if amount < MIN_CONTRIBUTION_AMOUNT {
        Err(EscrowError::AmountTooSmall)
    } else if amount > MAX_CONTRIBUTION_AMOUNT {
        Err(EscrowError::AmountTooLarge)
    } else if ctx.vault.amount < amount {
        Err(EscrowError::InsufficientVaultBalance)
    } else if amount > ctx.campaign.total_contributed {
        Err(EscrowError::ExceedsCampaignTotal)
    } else if commitment != ctx.campaign.merchant_hash@ {
        Err(EscrowError::MerchantHashMismatch)
    } else if ctx.campaign.reentrancy_guard {
        Err(EscrowError::ReentrancyDetected)
    } else {
        Ok(())
    }
}

/// The transfer that an accepted payout asks for: from the vault to the
/// merchant's account, signed by the campaign itself.
pub open spec fn payout_request(ctx: Payout, amount: u64) -> TransferRequest {
    TransferRequest {
        from: ctx.vault.key,
        to: ctx.merchant_ata.key,
        authority: ctx.campaign_key,
        amount,
        signer_seeds: Some(CampaignSeeds { creator: ctx.campaign.creator, bump: ctx.campaign.bump }),
    }
}

/// The accounts while an accepted payout's transfer is in flight.
pub open spec fn payout_begun(ctx: Payout, now: i64) -> Payout {
    Payout { campaign: entered(ctx.campaign, now), ..ctx }
}

/// Validates a payout of `amount` against an already computed `commitment`.
/// When accepted, the guard is taken and the transfer to make is returned;
/// when refused, nothing changes.
pub fn payout_with_commitment(
    ctx: &mut Payout,
    amount: u64,
    now: i64,
    commitment: &[u8; 32],
) -> (result: Result<TransferRequest, EscrowError>)
    ensures
        match result {
            Ok(request) => {
                &&& payout_check(*old(ctx), amount, commitment@) is Ok
                &&& request == payout_request(*old(ctx), amount)
                &&& *final(ctx) == payout_begun(*old(ctx), now)
            },
            Err(e) => {
                &&& payout_check(*old(ctx), amount, commitment@) == Err::<(), EscrowError>(e)
                &&& *final(ctx) == *old(ctx)
            },
        },
        old(ctx).campaign.evolves_to(final(ctx).campaign),
{
    if ctx.campaign.status != CampaignStatus::Succeeded {
        return Err(EscrowError::WrongStatus);
    }
    if !ctx.campaign.merchant_hash_set {
        return Err(EscrowError::MerchantHashNotSet);
    }
    if amount == 0 {
        return Err(EscrowError::InvalidAmount);
    }
    if amount < MIN_CONTRIBUTION_AMOUNT {
        return Err(EscrowError::AmountTooSmall);
    }
    if amount > MAX_CONTRIBUTION_AMOUNT {
        return Err(EscrowError::AmountTooLarge);
    }
    if ctx.vault.amount < amount {
        return Err(EscrowError::InsufficientVaultBalance);
    }
    if amount > ctx.campaign.total_contributed {
        return Err(EscrowError::ExceedsCampaignTotal);
    }
    if !bytes32_eq(commitment, &ctx.campaign.merchant_hash) {
        return Err(EscrowError::MerchantHashMismatch);
    }
    let request = TransferRequest {
        from: ctx.vault.key,
        to: ctx.merchant_ata.key,
        authority: ctx.campaign_key,
        amount,
        signer_seeds: Some(CampaignSeeds { creator: ctx.campaign.creator, bump: ctx.campaign.bump }),
    };
    match enter(&mut ctx.campaign, now) {
        Ok(()) => Ok(request),
        Err(e) => Err(e),
    }
}

/// Begins a payout of `amount` to `ctx.merchant_ata`. Anyone may call it. It
/// is accepted only for a succeeded campaign whose stored merchant hash is
/// the commitment to exactly this asset, destination and amount. When
/// accepted, the guard is taken and the transfer to make is returned; when
/// refused, nothing changes.
pub fn payout(ctx: &mut Payout, amount: u64, now: i64) -> (result: Result<
    TransferRequest,
    EscrowError,
>)
    ensures
        match result {
            Ok(request) => {
                &&& payout_check(
                    *old(ctx),
                    amount,
                    commitment_of(old(ctx).campaign.pay_mint, old(ctx).merchant_ata.key, amount),
                ) is Ok
                &&& request == payout_request(*old(ctx), amount)
                &&& *final(ctx) == payout_begun(*old(ctx), now)
            },
            Err(e) => {
                &&& payout_check(
                    *old(ctx),
                    amount,
                    commitment_of(old(ctx).campaign.pay_mint, old(ctx).merchant_ata.key, amount),
                ) == Err::<(), EscrowError>(e)
                &&& *final(ctx) == *old(ctx)
            },
        },
        old(ctx).campaign.evolves_to(final(ctx).campaign),
{
    let commitment = commitment_hash(&ctx.campaign.pay_mint, &ctx.merchant_ata.key, amount);
    payout_with_commitment(ctx, amount, now, &commitment)
}

/// What `confirm_payout` answers: it wants the guard held and a succeeded
/// campaign.
pub open spec fn confirm_payout_check(ctx: Payout) -> Result<(), EscrowError> {
    if !ctx.campaign.reentrancy_guard {
        Err(EscrowError::ReentrancyDetected)
    } else if !(ctx.campaign.status is Succeeded) {
        Err(EscrowError::WrongStatus)
    } else {
        Ok(())
    }
}

/// The campaign once its payout is confirmed: paid, and the guard released.
pub open spec fn paid_out(campaign: Campaign) -> Campaign {
    Campaign { status: CampaignStatus::Paid, ..exited(campaign) }
}

/// Records that the transfer of a payout was made: the campaign becomes
/// `Paid`. The guard is released whatever the answer; nothing else changes
/// when the call is refused.
pub fn confirm_payout(ctx: &mut Payout) -> (result: Result<(), EscrowError>)
    ensures
        result == confirm_payout_check(*old(ctx)),
        result is Ok ==> *final(ctx) == (Payout { campaign: paid_out(old(ctx).campaign), ..*old(ctx) }),
        result is Err ==> *final(ctx) == (Payout { campaign: exited(old(ctx).campaign), ..*old(ctx) }),
        old(ctx).campaign.evolves_to(final(ctx).campaign),
{
    if !ctx.campaign.reentrancy_guard {
        return Err(EscrowError::ReentrancyDetected);
    }
    let advanced = ctx.campaign.status.advance(CampaignStatus::Paid);
    exit(&mut ctx.campaign);
    match advanced {
        Ok(status) => {
            ctx.campaign.status = status;
            Ok(())
        },
        Err(e) => Err(e),
    }
}

} // verus!
