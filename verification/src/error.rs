//! The ways an escrow operation can be refused.

use vstd::prelude::*;

verus! {

/// Why an operation was refused. An operation that returns one of these has
/// changed nothing.
#[derive(Clone, Copy, Debug, PartialEq, Eq, Structural)]
pub enum EscrowError {
    InvalidAmount,
    InvalidDeadline,
    WrongStatus,
    DeadlinePassed,
    Overflow,
    Unauthorized,
    UriTooLong,
    GoalNotMet,
    AlreadyRefunded,
    NothingToRefund,
    MerchantHashNotSet,
    MerchantHashMismatch,
    AmountTooSmall,
    AmountTooLarge,
    DurationTooShort,
    DurationTooLong,
    InsufficientRent,
    InsufficientBalance,
    ExceedsTarget,
    EmptyUri,
    InvalidUriFormat,
    InvalidMerchantHash,
    InvalidMetadataHash,
    ExceedsCampaignTotal,
    InsufficientVaultBalance,
    ReentrancyDetected,
    CannotClearGuard,
}

impl EscrowError {
    /// The text shown for each error.
    pub open spec fn message_text(self) -> Seq<char> {
        match self {
            EscrowError::InvalidAmount => "Invalid amount"@,
            EscrowError::InvalidDeadline => "Invalid deadline"@,
            EscrowError::WrongStatus => "Wrong status for this action"@,
            EscrowError::DeadlinePassed => "Deadline passed"@,
            EscrowError::Overflow => "Overflow"@,
            EscrowError::Unauthorized => "Unauthorized"@,
            EscrowError::UriTooLong => "URI too long"@,
            EscrowError::GoalNotMet => "Goal not met"@,
            EscrowError::AlreadyRefunded => "Already refunded"@,
            EscrowError::NothingToRefund => "Nothing to refund"@,
            EscrowError::MerchantHashNotSet => "Merchant hash not set"@,
            EscrowError::MerchantHashMismatch => "Merchant hash mismatch"@,
            EscrowError::AmountTooSmall => "Amount too small"@,
            EscrowError::AmountTooLarge => "Amount too large"@,
            EscrowError::DurationTooShort => "Duration too short"@,
            EscrowError::DurationTooLong => "Duration too long"@,
            EscrowError::InsufficientRent => "Insufficient rent"@,
            EscrowError::InsufficientBalance => "Insufficient balance"@,
            EscrowError::ExceedsTarget => "Exceeds target"@,
            EscrowError::EmptyUri => "Empty URI"@,
            EscrowError::InvalidUriFormat => "Invalid URI format"@,
            EscrowError::InvalidMerchantHash => "Invalid merchant hash"@,
            EscrowError::InvalidMetadataHash => "Invalid metadata hash"@,
            EscrowError::ExceedsCampaignTotal => "Exceeds campaign total"@,
            EscrowError::InsufficientVaultBalance => "Insufficient vault balance"@,
            EscrowError::ReentrancyDetected => "Reentrancy detected"@,
            EscrowError::CannotClearGuard => "Cannot clear guard"@,
        }
    }

    /// The text shown for this error.
    pub fn message(&self) -> (text: &'static str)
        ensures
            text@ == self.message_text(),
    {
        match self {
            EscrowError::InvalidAmount => "Invalid amount",
            EscrowError::InvalidDeadline => "Invalid deadline",
            EscrowError::WrongStatus => "Wrong status for this action",
            EscrowError::DeadlinePassed => "Deadline passed",
            EscrowError::Overflow => "Overflow",
            EscrowError::Unauthorized => "Unauthorized",
            EscrowError::UriTooLong => "URI too long",
            EscrowError::GoalNotMet => "Goal not met",
            EscrowError::AlreadyRefunded => "Already refunded",
            EscrowError::NothingToRefund => "Nothing to refund",
            EscrowError::MerchantHashNotSet => "Merchant hash not set",
            EscrowError::MerchantHashMismatch => "Merchant hash mismatch",
            EscrowError::AmountTooSmall => "Amount too small",
            EscrowError::AmountTooLarge => "Amount too large",
            EscrowError::DurationTooShort => "Duration too short",
            EscrowError::DurationTooLong => "Duration too long",
            EscrowError::InsufficientRent => "Insufficient rent",
            EscrowError::InsufficientBalance => "Insufficient balance",
            EscrowError::ExceedsTarget => "Exceeds target",
            EscrowError::EmptyUri => "Empty URI",
            EscrowError::InvalidUriFormat => "Invalid URI format",
            EscrowError::InvalidMerchantHash => "Invalid merchant hash",
            EscrowError::InvalidMetadataHash => "Invalid metadata hash",
            EscrowError::ExceedsCampaignTotal => "Exceeds campaign total",
            EscrowError::InsufficientVaultBalance => "Insufficient vault balance",
            EscrowError::ReentrancyDetected => "Reentrancy detected",
            EscrowError::CannotClearGuard => "Cannot clear guard",
        }
    }
}

} // verus!
