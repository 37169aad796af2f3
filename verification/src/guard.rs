//! The reentrancy guard: a flag on the campaign that admits one mutating
//! operation at a time.

use crate::accounts::ClearReentrancyGuard;
use crate::error::EscrowError;
use crate::pubkey::{is_permitted, Pubkey};
use crate::state::{Campaign, REENTRANCY_GUARD_DURATION};
use vstd::prelude::*;

verus! {

/// `campaign` with its guard taken at time `now`.
pub open spec fn entered(campaign: Campaign, now: i64) -> Campaign {
    Campaign { reentrancy_guard: true, last_operation_timestamp: now, ..campaign }
}

/// `campaign` with its guard released.
pub open spec fn exited(campaign: Campaign) -> Campaign {
    Campaign { reentrancy_guard: false, ..campaign }
}

/// Takes the guard, stamping the time. Refused with `ReentrancyDetected`
/// while the guard is held.
pub fn enter(campaign: &mut Campaign, now: i64) -> (result: Result<(), EscrowError>)
    ensures
        result is Ok <==> !old(campaign).reentrancy_guard,
        result is Ok ==> *final(campaign) == entered(*old(campaign), now),
        result is Err ==> result == Err::<(), EscrowError>(EscrowError::ReentrancyDetected)
            && *final(campaign) == *old(campaign),
        old(campaign).evolves_to(*final(campaign)),
{
    if campaign.reentrancy_guard {
        return Err(EscrowError::ReentrancyDetected);
    }
    campaign.reentrancy_guard = true;
    campaign.last_operation_timestamp = now;
    Ok(())
}

/// Releases the guard, held or not. Every protected section ends with this,
/// however it ends; a caller whose transfer failed calls it in place of the
/// operation's `confirm_*` function.
pub fn exit(campaign: &mut Campaign)
    ensures
        *final(campaign) == exited(*old(campaign)),
        old(campaign).evolves_to(*final(campaign)),
{
    campaign.reentrancy_guard = false;
}

/// Whether a guard is stuck at time `now`: held, and for more than
/// `REENTRANCY_GUARD_DURATION` seconds.
pub open spec fn guard_is_stuck(campaign: Campaign, now: i64) -> bool {
    campaign.reentrancy_guard && now - campaign.last_operation_timestamp
        > REENTRANCY_GUARD_DURATION
}

/// Who may clear a stuck guard: the creator and the top contributor.
pub open spec fn may_clear_guard(campaign: Campaign, signer: Pubkey) -> bool {
    signer == campaign.creator || signer == campaign.top_contributor
}

/// What `clear_reentrancy_guard` answers.
pub open spec fn clear_guard_check(ctx: ClearReentrancyGuard, now: i64) -> Result<
    (),
    EscrowError,
> {
    if !guard_is_stuck(ctx.campaign, now) {
        Err(EscrowError::CannotClearGuard)
    } else if !may_clear_guard(ctx.campaign, ctx.authority) {
        Err(EscrowError::Unauthorized)
    } else {
        Ok(())
    }
}

/// The campaign after its stuck guard was cleared.
pub open spec fn guard_cleared(campaign: Campaign) -> Campaign {
    Campaign { reentrancy_guard: false, last_operation_timestamp: 0, ..campaign }
}

/// Clears a guard that an operation left behind. Only a guard held for more
/// than `REENTRANCY_GUARD_DURATION` seconds can be cleared, and only by the
/// creator or the top contributor.
pub fn clear_reentrancy_guard(ctx: &mut ClearReentrancyGuard, now: i64) -> (result: Result<
    (),
    EscrowError,
>)
    ensures
        result == clear_guard_check(*old(ctx), now),
        result is Ok ==> *final(ctx) == (ClearReentrancyGuard {
            campaign: guard_cleared(old(ctx).campaign),
            ..*old(ctx)
        }),
        result is Err ==> *final(ctx) == *old(ctx),
        old(ctx).campaign.evolves_to(final(ctx).campaign),
{
    let held_for: i128 = now as i128 - ctx.campaign.last_operation_timestamp as i128;
    if !(ctx.campaign.reentrancy_guard && held_for > REENTRANCY_GUARD_DURATION as i128) {
        return Err(EscrowError::CannotClearGuard);
    }
    let permitted = [ctx.campaign.creator, ctx.campaign.top_contributor];
    if !is_permitted(&ctx.authority, &permitted) {
        return Err(EscrowError::Unauthorized);
    }
    ctx.campaign.reentrancy_guard = false;
    ctx.campaign.last_operation_timestamp = 0;
    Ok(())
}

} // verus!
