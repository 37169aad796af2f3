//! The records an escrow keeps: a campaign, and one contribution per
//! contributor.

use crate::error::EscrowError;
use crate::pubkey::{is_zero32, Pubkey};
use vstd::prelude::*;

verus! {

/// Smallest amount of a contribution, of a payout and of a campaign target.
pub const MIN_CONTRIBUTION_AMOUNT: u64 = 1_000_000;

/// Largest amount of a single contribution and of a payout.
pub const MAX_CONTRIBUTION_AMOUNT: u64 = 1_000_000_000_000;

/// Shortest time, in seconds, between a campaign's creation and its deadline.
pub const MIN_CAMPAIGN_DURATION: i64 = 3600;

/// Longest time, in seconds, between a campaign's creation and its deadline.
pub const MAX_CAMPAIGN_DURATION: i64 = 31_536_000;

/// Largest target a campaign may have.
pub const MAX_CAMPAIGN_TARGET: u64 = 1_000_000_000_000_000;

/// Seconds a guard must have been held before it may be cleared by hand.
pub const REENTRANCY_GUARD_DURATION: i64 = 300;

/// Where a campaign stands in its life.
#[derive(Clone, Copy, Debug, PartialEq, Eq, Structural)]
pub enum CampaignStatus {
    /// Accepting contributions.
    Pending,
    /// The target was met; the payout is awaited.
    Succeeded,
    /// The deadline passed short of the target; refunds are awaited.
    Failed,
    /// The payout was made. Nothing follows.
    Paid,
}

impl CampaignStatus {
    /// The three legal moves: Pending to Succeeded, Pending to Failed,
    /// Succeeded to Paid.
    pub open spec fn may_become(self, next: CampaignStatus) -> bool {
        ||| (self is Pending && next is Succeeded)
        ||| (self is Pending && next is Failed)
        ||| (self is Succeeded && next is Paid)
    }

    /// Whether `later` is this status or can follow it after any number of
    /// legal moves.
    pub open spec fn reaches(self, later: CampaignStatus) -> bool {
        ||| self == later
        ||| self.may_become(later)
        ||| (self is Pending && later is Paid)
    }

    /// The byte under which a status is stored: 0 for `Pending`, 1 for
    /// `Succeeded`, 2 for `Failed`, 3 for `Paid`.
    pub open spec fn code_of(self) -> u8 {
        match self {
            CampaignStatus::Pending => 0,
            CampaignStatus::Succeeded => 1,
            CampaignStatus::Failed => 2,
            CampaignStatus::Paid => 3,
        }
    }

    /// The byte under which this status is stored.
    pub fn code(self) -> (code: u8)
        ensures
            code == self.code_of(),
    {
        match self {
            CampaignStatus::Pending => 0,
            CampaignStatus::Succeeded => 1,
            CampaignStatus::Failed => 2,
            CampaignStatus::Paid => 3,
        }
    }

    /// The status stored under `code`, if `code` is the byte of one.
    pub fn from_code(code: u8) -> (status: Option<CampaignStatus>)
        ensures
            code <= 3 <==> status is Some,
            status matches Some(found) ==> found.code_of() == code,
    {
        match code {
            0 => Some(CampaignStatus::Pending),
            1 => Some(CampaignStatus::Succeeded),
            2 => Some(CampaignStatus::Failed),
            3 => Some(CampaignStatus::Paid),
            _ => None,
        }
    }

    /// Tests whether a campaign in this status may move to `next`.
    pub fn can_become(self, next: CampaignStatus) -> (legal: bool)
        ensures
            legal == self.may_become(next),
    {
        match (self, next) {
            (CampaignStatus::Pending, CampaignStatus::Succeeded) => true,
            (CampaignStatus::Pending, CampaignStatus::Failed) => true,
            (CampaignStatus::Succeeded, CampaignStatus::Paid) => true,
            _ => false,
        }
    }

    /// The status after a move to `next`, which is refused with
    /// `WrongStatus` unless the move is legal.
    pub fn advance(self, next: CampaignStatus) -> (result: Result<CampaignStatus, EscrowError>)
        ensures
            result == (if self.may_become(next) {
                Ok::<CampaignStatus, EscrowError>(next)
            } else {
                Err::<CampaignStatus, EscrowError>(EscrowError::WrongStatus)
            }),
    {
        if self.can_become(next) {
            Ok(next)
        } else {
            Err(EscrowError::WrongStatus)
        }
    }
}

/// The UTF-8 bytes of a URI.
pub open spec fn uri_bytes(uri: Seq<char>) -> Seq<u8> {
    vstd::utf8::encode_utf8(uri)
}

/// A crowdfunding campaign.
#[derive(Clone, Debug, PartialEq, Eq)]
pub struct Campaign {
    pub creator: Pubkey,
    pub pay_mint: Pubkey,
    pub bump: u8,
    pub target_amount: u64,
    pub total_contributed: u64,
    pub deadline: i64,
    pub status: CampaignStatus,
    pub top_contributor: Pubkey,
    pub top_contributor_amount: u64,
    pub metadata_uri: String,
    pub metadata_hash: [u8; 32],
    pub merchant_hash: [u8; 32],
    pub merchant_hash_set: bool,
    pub delegate_authority: Pubkey,
    pub reentrancy_guard: bool,
    pub last_operation_timestamp: i64,
}

impl Campaign {
    /// Most bytes a metadata URI may have.
    pub const MAX_URI_LEN: usize = 256;

    /// Bytes a stored campaign takes: an 8-byte tag, then each field, the URI
    /// with a 4-byte length before it.
    pub const SPACE: usize = 8 + 32 + 32 + 1 + 8 + 8 + 8 + 1 + 32 + 8 + 4
        + Campaign::MAX_URI_LEN + 32 + 32 + 1 + 32 + 1 + 8;

    /// What every campaign made by `init_campaign` satisfies, and every
    /// operation keeps.
    pub open spec fn wf(&self) -> bool {
        &&& MIN_CONTRIBUTION_AMOUNT <= self.target_amount <= MAX_CAMPAIGN_TARGET
        &&& self.total_contributed <= self.target_amount
        &&& uri_bytes(self.metadata_uri@).len() <= Campaign::MAX_URI_LEN
        &&& (uri_bytes(self.metadata_uri@).len() == 0) == is_zero32(self.metadata_hash)
        &&& (self.status is Succeeded || self.status is Paid) ==> self.total_contributed
            == self.target_amount
        &&& self.merchant_hash_set ==> (self.status is Succeeded || self.status is Paid)
        &&& self.merchant_hash_set == !is_zero32(self.merchant_hash)
    }

    /// What holds between a campaign and the same campaign after any
    /// operation: who made it, what it collects, its target and its deadline
    /// stay; its status only moves forward; its total never shrinks; a
    /// merchant hash that is set stays as it is; and a well-formed campaign
    /// stays well-formed.
    pub open spec fn evolves_to(self, next: Campaign) -> bool {
        &&& next.creator == self.creator
        &&& next.pay_mint == self.pay_mint
        &&& next.bump == self.bump
        &&& next.target_amount == self.target_amount
        &&& next.deadline == self.deadline
        &&& self.status.reaches(next.status)
        &&& next.total_contributed >= self.total_contributed
        &&& self.merchant_hash_set ==> next.merchant_hash_set && next.merchant_hash
            == self.merchant_hash
        &&& self.wf() ==> next.wf()
    }
}

impl Default for Campaign {
    /// A campaign record before `init_campaign` has filled it in: every field
    /// zero, empty or unset, the status `Pending`.
    fn default() -> (campaign: Campaign)
        ensures
            is_zero32(campaign.creator.bytes),
            is_zero32(campaign.pay_mint.bytes),
            campaign.bump == 0,
            campaign.target_amount == 0,
            campaign.total_contributed == 0,
            campaign.deadline == 0,
            campaign.status is Pending,
            is_zero32(campaign.top_contributor.bytes),
            campaign.top_contributor_amount == 0,
            campaign.metadata_uri@.len() == 0,
            is_zero32(campaign.metadata_hash),
            is_zero32(campaign.merchant_hash),
            !campaign.merchant_hash_set,
            is_zero32(campaign.delegate_authority.bytes),
            !campaign.reentrancy_guard,
            campaign.last_operation_timestamp == 0,
    {
        Campaign {
            creator: Pubkey::default(),
            pay_mint: Pubkey::default(),
            bump: 0,
            target_amount: 0,
            total_contributed: 0,
            deadline: 0,
            status: CampaignStatus::Pending,
            top_contributor: Pubkey::default(),
            top_contributor_amount: 0,
            metadata_uri: String::new(),
            metadata_hash: [0u8; 32],
            merchant_hash: [0u8; 32],
            merchant_hash_set: false,
            delegate_authority: Pubkey::default(),
            reentrancy_guard: false,
            last_operation_timestamp: 0,
        }
    }
}

/// What one contributor has put into one campaign.
#[derive(Clone, Copy, Debug, PartialEq, Eq)]
pub struct Contribution {
    pub contributor: Pubkey,
    pub campaign: Pubkey,
    pub amount: u64,
    pub refunded: bool,
}

impl Contribution {
    /// Bytes a stored contribution takes: an 8-byte tag, then each field.
    pub const SPACE: usize = 8 + 32 + 32 + 8 + 1;
}

impl Default for Contribution {
    /// A record that nobody has contributed to yet.
    fn default() -> (record: Contribution)
        ensures
            record.amount == 0,
            !record.refunded,
            is_zero32(record.contributor.bytes),
            is_zero32(record.campaign.bytes),
    {
        Contribution {
            contributor: Pubkey::default(),
            campaign: Pubkey::default(),
            amount: 0,
            refunded: false,
        }
    }
}

/// The seeds from which a campaign's own signing authority is derived.
#[derive(Clone, Copy, Debug, PartialEq, Eq)]
pub struct CampaignSeeds {
    pub creator: Pubkey,
    pub bump: u8,
}

/// A transfer of tokens that the caller is asked to make.
#[derive(Clone, Copy, Debug, PartialEq, Eq)]
pub struct TransferRequest {
    /// The token account to debit.
    pub from: Pubkey,
    /// The token account to credit.
    pub to: Pubkey,
    /// Who authorizes the debit.
    pub authority: Pubkey,
    /// How much to move.
    pub amount: u64,
    /// Set when the authority is the campaign itself, which signs with these
    /// seeds; `None` when the authority signs in person.
    pub signer_seeds: Option<CampaignSeeds>,
}

} // verus!
