//! Escrow-based crowdfunding: contributors pool funds in a vault until a
//! campaign reaches its target or its deadline expires; a succeeded campaign
//! pays out once, to a destination committed to by hash.
//!
//! Every operation is a function from plain account values to plain account
//! values. Token transfers are not made here: an operation that moves funds
//! validates, takes the campaign's guard and hands back the transfer to make;
//! the caller makes it and reports back with the matching `confirm_*`
//! function, or with `guard::exit` when the transfer failed.

pub mod accounts;
pub mod commitment;
pub mod contribute;
pub mod error;
pub mod guard;
pub mod lifecycle;
pub mod metadata;
pub mod payout;
pub mod pubkey;
pub mod refund;
pub mod state;
pub mod theorems;

pub use accounts::{
    ClearReentrancyGuard, Contribute, Finalize, InitCampaign, Payout, Refund, SetDelegateAuthority,
    SetMerchantHash, SubmitMetadata, TokenAccount,
};
pub use commitment::commitment_hash;
pub use contribute::{confirm_contribution, contribute};
pub use error::EscrowError;
pub use guard::clear_reentrancy_guard;
pub use lifecycle::{finalize, init_campaign, set_delegate_authority, set_merchant_hash};
pub use metadata::submit_metadata;
pub use payout::{confirm_payout, payout, payout_with_commitment};
pub use pubkey::Pubkey;
pub use refund::{confirm_refund, refund};
pub use state::{
    Campaign, CampaignSeeds, CampaignStatus, Contribution, TransferRequest,
    MAX_CAMPAIGN_DURATION, MAX_CAMPAIGN_TARGET, MAX_CONTRIBUTION_AMOUNT, MIN_CAMPAIGN_DURATION,
    MIN_CONTRIBUTION_AMOUNT, REENTRANCY_GUARD_DURATION,
};
