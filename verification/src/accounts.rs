//! What each operation is handed: the accounts it reads and writes, as plain
//! values.

use crate::pubkey::Pubkey;
use crate::state::{Campaign, Contribution};
use vstd::prelude::*;

verus! {

/// A token account: where it lives and what it holds.
#[derive(Clone, Copy, Debug, PartialEq, Eq)]
pub struct TokenAccount {
    pub key: Pubkey,
    pub amount: u64,
}

/// Accounts of `init_campaign`.
#[derive(Clone, Debug, PartialEq, Eq)]
pub struct InitCampaign {
    /// Who creates the campaign, and pays for its storage.
    pub creator: Pubkey,
    /// What the creator can pay with.
    pub creator_lamports: u64,
    /// The asset that the campaign collects.
    pub pay_mint: Pubkey,
    /// The record to fill in.
    pub campaign: Campaign,
    /// The bump of the campaign's derived address.
    pub bump: u8,
    /// What storing the campaign costs.
    pub campaign_rent: u64,
    /// What storing the vault costs.
    pub vault_rent: u64,
}

/// Accounts of `contribute`.
#[derive(Clone, Debug, PartialEq, Eq)]
pub struct Contribute {
    pub contributor: Pubkey,
    /// The address of `campaign`.
    pub campaign_key: Pubkey,
    pub campaign: Campaign,
    /// The contributor's token account.
    pub contributor_ata: TokenAccount,
    /// The campaign's token account.
    pub vault: TokenAccount,
    /// The contributor's record with this campaign; all zero before the first
    /// contribution.
    pub contribution: Contribution,
}

/// Accounts of `submit_metadata`.
#[derive(Clone, Debug, PartialEq, Eq)]
pub struct SubmitMetadata {
    pub submitter: Pubkey,
    pub campaign: Campaign,
}

/// Accounts of `finalize`.
#[derive(Clone, Debug, PartialEq, Eq)]
pub struct Finalize {
    pub campaign: Campaign,
}

/// Accounts of `refund`.
#[derive(Clone, Debug, PartialEq, Eq)]
pub struct Refund {
    pub contributor: Pubkey,
    /// The address of `campaign`, which is also the vault's authority.
    pub campaign_key: Pubkey,
    pub campaign: Campaign,
    /// The contributor's token account.
    pub contributor_ata: TokenAccount,
    /// The campaign's token account.
    pub vault: TokenAccount,
    /// The contributor's record with this campaign.
    pub contribution: Contribution,
}

/// Accounts of `set_merchant_hash`.
#[derive(Clone, Debug, PartialEq, Eq)]
pub struct SetMerchantHash {
    pub authority: Pubkey,
    pub campaign: Campaign,
}

/// Accounts of `set_delegate_authority`.
#[derive(Clone, Debug, PartialEq, Eq)]
pub struct SetDelegateAuthority {
    pub creator: Pubkey,
    pub campaign: Campaign,
}

/// Accounts of `payout`.
#[derive(Clone, Debug, PartialEq, Eq)]
pub struct Payout {
    /// The address of `campaign`, which is also the vault's authority.
    pub campaign_key: Pubkey,
    pub campaign: Campaign,
    /// The campaign's token account.
    pub vault: TokenAccount,
    /// The token account to pay.
    pub merchant_ata: TokenAccount,
}

/// Accounts of `clear_reentrancy_guard`.
#[derive(Clone, Debug, PartialEq, Eq)]
pub struct ClearReentrancyGuard {
    pub campaign: Campaign,
    pub authority: Pubkey,
}

} // verus!
