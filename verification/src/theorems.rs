//! What holds of the escrow across operations: funds are conserved, a
//! contribution is refunded once, the status only moves forward, a payout is
//! bound to its commitment, and the guard admits one operation at a time.

use crate::accounts::{
    Contribute, InitCampaign, Payout, Refund, SetDelegateAuthority, SetMerchantHash,
    SubmitMetadata, TokenAccount,
};
use crate::commitment::{commitment_of, commitment_preimage, lemma_preimage_injective};
use crate::contribute::{
    confirm_contribution_check, contribute_begun, contribute_check, contribution_confirmed,
    credited,
};
use crate::error::EscrowError;
use crate::guard::{entered, exited};
use crate::lifecycle::{
    finalize_outcome, is_new_campaign, set_delegate_authority_check, set_merchant_hash_check,
    stamped,
};
use crate::metadata::submit_metadata_check;
use crate::payout::{confirm_payout_check, paid_out, payout_begun, payout_check};
use crate::pubkey::Pubkey;
use crate::refund::{
    confirm_refund_check, refund_begun, refund_check, refund_confirmed, refund_request,
};
use crate::state::{Campaign, CampaignStatus, Contribution};
use vstd::prelude::*;

verus! {

/// The sum of the amounts of `records`.
pub open spec fn total_recorded(records: Seq<Contribution>) -> int
    decreases records.len(),
{
    if records.len() == 0 {
        0
    } else {
        total_recorded(records.drop_last()) + records.last().amount
    }
}

/// A campaign together with the records of its contributors, one slot for
/// each contributor; the slot of one who has not contributed holds a record
/// with amount zero.
pub struct Book {
    pub campaign: Campaign,
    pub records: Seq<Contribution>,
}

impl Book {
    /// The records add up to the campaign's total, which is within the
    /// target.
    pub open spec fn conserved(self) -> bool {
        &&& total_recorded(self.records) == self.campaign.total_contributed
        &&& self.campaign.total_contributed <= self.campaign.target_amount
    }

    /// No record holds more than the campaign's top amount, which is within
    /// the campaign's total.
    pub open spec fn top_is_largest(self) -> bool {
        &&& forall|i: int|
            0 <= i < self.records.len() ==> (#[trigger] self.records[i]).amount
                <= self.campaign.top_contributor_amount
        &&& self.campaign.top_contributor_amount <= self.campaign.total_contributed
    }
}

/// One attempt to contribute: a call of `contribute` for the record in
/// `slot`, the transfer that it asks for, which is made or fails, and the
/// call of `confirm_contribution` or of `guard::exit` that follows.
pub struct Deposit {
    pub slot: int,
    pub contributor: Pubkey,
    pub campaign_key: Pubkey,
    pub contributor_ata: TokenAccount,
    pub vault: TokenAccount,
    pub amount: u64,
    pub now: i64,
    pub transferred: bool,
}

/// The accounts that the attempt `deposit` hands to `contribute`.
pub open spec fn deposit_accounts(book: Book, deposit: Deposit) -> Contribute {
    Contribute {
        contributor: deposit.contributor,
        campaign_key: deposit.campaign_key,
        campaign: book.campaign,
        contributor_ata: deposit.contributor_ata,
        vault: deposit.vault,
        contribution: book.records[deposit.slot],
    }
}

/// Whether the attempt `deposit` goes through: `contribute` accepts it and
/// the transfer is made.
pub open spec fn deposit_accepted(book: Book, deposit: Deposit) -> bool {
    &&& 0 <= deposit.slot < book.records.len()
    &&& contribute_check(deposit_accounts(book, deposit), deposit.amount, deposit.now) is Ok
    &&& deposit.transferred
}

/// The book after the attempt `deposit`, whether it goes through or not.
pub open spec fn after_deposit(book: Book, deposit: Deposit) -> Book {
    let ctx = deposit_accounts(book, deposit);
    if !(0 <= deposit.slot < book.records.len()) || contribute_check(
        ctx,
        deposit.amount,
        deposit.now,
    ) is Err {
        book
    } else {
        let begun = contribute_begun(ctx, deposit.now);
        if !deposit.transferred || confirm_contribution_check(begun, deposit.amount) is Err {
            Book { campaign: exited(begun.campaign), ..book }
        } else {
            let done = contribution_confirmed(begun, deposit.amount);
            Book {
                campaign: done.campaign,
                records: book.records.update(deposit.slot, done.contribution),
            }
        }
    }
}

/// The book after the attempts `deposits`, made in order.
pub open spec fn after_deposits(book: Book, deposits: Seq<Deposit>) -> Book
    decreases deposits.len(),
{
    if deposits.len() == 0 {
        book
    } else {
        after_deposit(after_deposits(book, deposits.drop_last()), deposits.last())
    }
}

/// A sum of amounts is not negative.
pub proof fn lemma_total_not_negative(records: Seq<Contribution>)
    ensures
        0 <= total_recorded(records),
    decreases records.len(),
{
    if records.len() > 0 {
        lemma_total_not_negative(records.drop_last());
    }
}

/// No record holds more than all records together.
pub proof fn lemma_record_within_total(records: Seq<Contribution>, slot: int)
    requires
        0 <= slot < records.len(),
    ensures
        records[slot].amount <= total_recorded(records),
    decreases records.len(),
{
    lemma_total_not_negative(records.drop_last());
    if slot < records.len() - 1 {
        lemma_record_within_total(records.drop_last(), slot);
    }
}

/// Replacing one record changes the sum by the difference of the two
/// amounts.
pub proof fn lemma_total_after_update(
    records: Seq<Contribution>,
    slot: int,
    record: Contribution,
)
    requires
        0 <= slot < records.len(),
    ensures
        total_recorded(records.update(slot, record)) == total_recorded(records)
            - records[slot].amount + record.amount,
    decreases records.len(),
{
    let updated = records.update(slot, record);
    if slot == records.len() - 1 {
        assert(updated.drop_last() =~= records.drop_last());
    } else {
        assert(updated.drop_last() =~= records.drop_last().update(slot, record));
        lemma_total_after_update(records.drop_last(), slot, record);
    }
}

/// Records that hold nothing add up to nothing.
pub proof fn lemma_total_of_empty_records(records: Seq<Contribution>)
    requires
        forall|i: int| 0 <= i < records.len() ==> records[i].amount == 0,
    ensures
        total_recorded(records) == 0,
    decreases records.len(),
{
    if records.len() > 0 {
        lemma_total_of_empty_records(records.drop_last());
    }
}

/// Conservation at the start: a campaign as `init_campaign` makes it, with
/// records that hold nothing, is conserved.
pub proof fn lemma_new_book_conserved(
    book: Book,
    ctx: InitCampaign,
    target_amount: u64,
    deadline_unix: i64,
)
    requires
        is_new_campaign(book.campaign, ctx, target_amount, deadline_unix),
        forall|i: int| 0 <= i < book.records.len() ==> book.records[i].amount == 0,
    ensures
        book.conserved(),
        book.top_is_largest(),
{
    lemma_total_of_empty_records(book.records);
}

/// Conservation, one step: whatever becomes of one attempt to contribute,
/// the records still add up to the campaign's total, and the total is still
/// within the target. An attempt that `contribute` accepted and whose
/// transfer was made is never refused by `confirm_contribution`, and adds
/// exactly its amount to the total.
pub proof fn lemma_deposit_conserves(book: Book, deposit: Deposit)
    requires
        book.conserved(),
    ensures
        after_deposit(book, deposit).conserved(),
        deposit_accepted(book, deposit) ==> {
            &&& confirm_contribution_check(
                contribute_begun(deposit_accounts(book, deposit), deposit.now),
                deposit.amount,
            ) is Ok
            &&& after_deposit(book, deposit).campaign.total_contributed
                == book.campaign.total_contributed + deposit.amount
        },
        !deposit_accepted(book, deposit) ==> {
            &&& after_deposit(book, deposit).records == book.records
            &&& after_deposit(book, deposit).campaign.total_contributed
                == book.campaign.total_contributed
        },
{
    let ctx = deposit_accounts(book, deposit);
    if 0 <= deposit.slot < book.records.len() && contribute_check(ctx, deposit.amount, deposit.now)
        is Ok {
        let begun = contribute_begun(ctx, deposit.now);
        lemma_record_within_total(book.records, deposit.slot);
        assert(confirm_contribution_check(begun, deposit.amount) is Ok);
        if deposit.transferred {
            let done = contribution_confirmed(begun, deposit.amount);
            lemma_total_after_update(book.records, deposit.slot, done.contribution);
        }
    }
}

/// The top contributor: whatever becomes of one attempt to contribute, no
/// record holds more than the campaign's top amount afterwards. The top
/// contributor changes only when a contributor's record comes to hold
/// strictly more than the top amount; on a tie the earlier holder stays.
pub proof fn lemma_deposit_keeps_top(book: Book, deposit: Deposit)
    requires
        book.conserved(),
        book.top_is_largest(),
    ensures
        after_deposit(book, deposit).top_is_largest(),
        deposit_accepted(book, deposit) ==> {
            let held = book.records[deposit.slot].amount + deposit.amount;
            let after = after_deposit(book, deposit).campaign;
            if held > book.campaign.top_contributor_amount {
                after.top_contributor == deposit.contributor && after.top_contributor_amount == held
            } else {
                after.top_contributor == book.campaign.top_contributor
                    && after.top_contributor_amount == book.campaign.top_contributor_amount
            }
        },
        !deposit_accepted(book, deposit) ==> {
            let after = after_deposit(book, deposit).campaign;
            after.top_contributor == book.campaign.top_contributor && after.top_contributor_amount
                == book.campaign.top_contributor_amount
        },
{
    lemma_deposit_conserves(book, deposit);
    if deposit_accepted(book, deposit) {
        lemma_record_within_total(book.records, deposit.slot);
    }
}

/// Conservation: after any sequence of attempts to contribute, accepted or
/// refused, with transfers made or failed, the records add up to the
/// campaign's total, and the total is within the target.
pub proof fn lemma_deposits_conserve(book: Book, deposits: Seq<Deposit>)
    requires
        book.conserved(),
    ensures
        after_deposits(book, deposits).conserved(),
    decreases deposits.len(),
{
    if deposits.len() > 0 {
        lemma_deposits_conserve(book, deposits.drop_last());
        lemma_deposit_conserves(after_deposits(book, deposits.drop_last()), deposits.last());
    }
}

/// No double refund: once a refund was accepted and confirmed, a second
/// refund of the same contribution is refused with `AlreadyRefunded`,
/// whatever the token accounts hold by then. The first call asks for a
/// transfer of exactly the recorded amount out of the vault; the second,
/// being refused, asks for none. A refund leaves the recorded amount and the
/// campaign's total as they were.
pub proof fn lemma_no_double_refund(first: Refund, now: i64, second: Refund)
    requires
        refund_check(first) is Ok,
        second.campaign == refund_confirmed(refund_begun(first, now)).campaign,
        second.contribution == refund_confirmed(refund_begun(first, now)).contribution,
    ensures
        confirm_refund_check(refund_begun(first, now)) is Ok,
        refund_request(first).amount == first.contribution.amount,
        refund_request(first).from == first.vault.key,
        refund_confirmed(refund_begun(first, now)).contribution.amount == first.contribution.amount,
        refund_confirmed(refund_begun(first, now)).campaign.total_contributed
            == first.campaign.total_contributed,
        refund_check(second) == Err::<(), EscrowError>(EscrowError::AlreadyRefunded),
{
}

/// A record that was refunded is never refunded again, and stays marked
/// whatever is contributed to it: its funds cannot leave the vault twice.
pub proof fn lemma_refund_is_final(
    ctx: Refund,
    record: Contribution,
    contributor: Pubkey,
    campaign_key: Pubkey,
    amount: u64,
)
    requires
        ctx.contribution.refunded,
        record.refunded,
        record.amount > 0,
    ensures
        refund_check(ctx) is Err,
        confirm_refund_check(ctx) is Err,
        credited(record, contributor, campaign_key, amount).refunded,
{
}

/// The status never moves backward: what can be reached from a status by
/// legal moves never leads back to it, and `Paid` leads nowhere.
pub proof fn lemma_status_moves_forward(
    first: CampaignStatus,
    second: CampaignStatus,
    third: CampaignStatus,
)
    ensures
        first.reaches(first),
        first.may_become(second) ==> first.reaches(second),
        first.reaches(second) && second.reaches(third) ==> first.reaches(third),
        first.reaches(second) && second.reaches(first) ==> first == second,
        !CampaignStatus::Paid.may_become(first),
        !CampaignStatus::Failed.may_become(first),
        !first.may_become(CampaignStatus::Pending),
{
}

/// What `evolves_to` states of one operation holds of any number of them.
pub proof fn lemma_evolution_composes(first: Campaign, second: Campaign, third: Campaign)
    ensures
        first.evolves_to(first),
        first.evolves_to(second) && second.evolves_to(third) ==> first.evolves_to(third),
{
}

/// A payout is accepted only for a succeeded campaign, and its confirmation
/// makes the campaign `Paid`.
pub proof fn lemma_payout_pays_once(ctx: Payout, amount: u64, now: i64, commitment: Seq<u8>)
    requires
        payout_check(ctx, amount, commitment) is Ok,
    ensures
        ctx.campaign.status is Succeeded,
        confirm_payout_check(payout_begun(ctx, now)) is Ok,
        paid_out(payout_begun(ctx, now).campaign).status is Paid,
{
}

/// `Paid` is final: a paid campaign refuses every further payout and every
/// merchant hash with `WrongStatus`, whatever else is handed in, and cannot
/// be finalized, given metadata, or refunded from.
pub proof fn lemma_paid_is_terminal(
    campaign: Campaign,
    payout: Payout,
    amount: u64,
    commitment: Seq<u8>,
    set_hash: SetMerchantHash,
    merchant_hash: [u8; 32],
    now: i64,
    submit: SubmitMetadata,
    uri: Seq<char>,
    metadata_hash: [u8; 32],
    refund: Refund,
)
    requires
        campaign.status is Paid,
        payout.campaign == campaign,
        set_hash.campaign == campaign,
        submit.campaign == campaign,
        refund.campaign == campaign,
    ensures
        payout_check(payout, amount, commitment) == Err::<(), EscrowError>(
            EscrowError::WrongStatus,
        ),
        confirm_payout_check(payout) is Err,
        set_merchant_hash_check(set_hash, merchant_hash) == Err::<(), EscrowError>(
            EscrowError::WrongStatus,
        ),
        finalize_outcome(campaign, now) == Err::<CampaignStatus, EscrowError>(
            EscrowError::WrongStatus,
        ),
        submit_metadata_check(submit, uri, metadata_hash) == Err::<(), EscrowError>(
            EscrowError::WrongStatus,
        ),
        refund_check(refund) == Err::<(), EscrowError>(EscrowError::WrongStatus),
{
}

/// Commitment binding: a payout of `amount` to `ctx.merchant_ata` is
/// accepted only if the stored merchant hash is the Keccak-256 digest of the
/// campaign's asset, that destination and that amount.
pub proof fn lemma_payout_matches_commitment(ctx: Payout, amount: u64)
    requires
        payout_check(
            ctx,
            amount,
            commitment_of(ctx.campaign.pay_mint, ctx.merchant_ata.key, amount),
        ) is Ok,
    ensures
        ctx.campaign.merchant_hash@ == commitment_of(
            ctx.campaign.pay_mint,
            ctx.merchant_ata.key,
            amount,
        ),
{
}

/// Commitment binding, the other way: let the stored hash commit to paying
/// `amount` to `destination`. A payout with another destination or another
/// amount hashes other bytes; unless Keccak-256 gives those bytes the very
/// same digest, it is refused, and with `MerchantHashMismatch` if nothing
/// else is wrong with it.
pub proof fn lemma_altered_payout_refused(
    destination: Pubkey,
    amount: u64,
    altered: Payout,
    altered_amount: u64,
)
    requires
        altered.campaign.merchant_hash@ == commitment_of(
            altered.campaign.pay_mint,
            destination,
            amount,
        ),
        altered.merchant_ata.key != destination || altered_amount != amount,
        commitment_of(altered.campaign.pay_mint, altered.merchant_ata.key, altered_amount)
            != commitment_of(altered.campaign.pay_mint, destination, amount),
    ensures
        commitment_preimage(altered.campaign.pay_mint, altered.merchant_ata.key, altered_amount)
            != commitment_preimage(altered.campaign.pay_mint, destination, amount),
        payout_check(
            altered,
            altered_amount,
            commitment_of(altered.campaign.pay_mint, altered.merchant_ata.key, altered_amount),
        ) is Err,
        payout_check(altered, altered_amount, altered.campaign.merchant_hash@) is Ok
            ==> payout_check(
            altered,
            altered_amount,
            commitment_of(altered.campaign.pay_mint, altered.merchant_ata.key, altered_amount),
        ) == Err::<(), EscrowError>(EscrowError::MerchantHashMismatch),
{
    lemma_preimage_injective(
        altered.campaign.pay_mint,
        altered.merchant_ata.key,
        altered_amount,
        altered.campaign.pay_mint,
        destination,
        amount,
    );
}

/// Guard exclusivity, for the operations that move funds: while the guard
/// is held none of them is accepted, and one that would be accepted with the
/// guard free is refused with `ReentrancyDetected`.
pub proof fn lemma_held_guard_refuses_transfers(
    contribute: Contribute,
    amount: u64,
    now: i64,
    refund: Refund,
    payout: Payout,
    payout_amount: u64,
    commitment: Seq<u8>,
)
    requires
        contribute.campaign.reentrancy_guard,
        refund.campaign.reentrancy_guard,
        payout.campaign.reentrancy_guard,
    ensures
        contribute_check(contribute, amount, now) is Err,
        contribute_check(Contribute { campaign: exited(contribute.campaign), ..contribute }, amount, now)
            is Ok ==> contribute_check(contribute, amount, now) == Err::<(), EscrowError>(
            EscrowError::ReentrancyDetected,
        ),
        refund_check(refund) is Err,
        refund_check(Refund { campaign: exited(refund.campaign), ..refund }) is Ok ==> refund_check(
            refund,
        ) == Err::<(), EscrowError>(EscrowError::ReentrancyDetected),
        payout_check(payout, payout_amount, commitment) is Err,
        payout_check(Payout { campaign: exited(payout.campaign), ..payout }, payout_amount, commitment)
            is Ok ==> payout_check(payout, payout_amount, commitment) == Err::<(), EscrowError>(
            EscrowError::ReentrancyDetected,
        ),
{
}

/// Guard exclusivity, for the operations that only write the campaign:
/// while the guard is held none of them is accepted, and one that would be
/// accepted with the guard free is refused with `ReentrancyDetected`.
pub proof fn lemma_held_guard_refuses_updates(
    campaign: Campaign,
    now: i64,
    submit: SubmitMetadata,
    uri: Seq<char>,
    metadata_hash: [u8; 32],
    set_hash: SetMerchantHash,
    merchant_hash: [u8; 32],
    set_delegate: SetDelegateAuthority,
)
    requires
        campaign.reentrancy_guard,
        submit.campaign == campaign,
        set_hash.campaign == campaign,
        set_delegate.campaign == campaign,
    ensures
        finalize_outcome(campaign, now) is Err,
        finalize_outcome(exited(campaign), now) is Ok ==> finalize_outcome(campaign, now)
            == Err::<CampaignStatus, EscrowError>(EscrowError::ReentrancyDetected),
        submit_metadata_check(submit, uri, metadata_hash) is Err,
        submit_metadata_check(
            SubmitMetadata { campaign: exited(campaign), ..submit },
            uri,
            metadata_hash,
        ) is Ok ==> submit_metadata_check(submit, uri, metadata_hash) == Err::<(), EscrowError>(
            EscrowError::ReentrancyDetected,
        ),
        set_merchant_hash_check(set_hash, merchant_hash) is Err,
        set_merchant_hash_check(
            SetMerchantHash { campaign: exited(campaign), ..set_hash },
            merchant_hash,
        ) is Ok ==> set_merchant_hash_check(set_hash, merchant_hash) == Err::<(), EscrowError>(
            EscrowError::ReentrancyDetected,
        ),
        set_delegate_authority_check(set_delegate) is Err,
        set_delegate_authority_check(
            SetDelegateAuthority { campaign: exited(campaign), ..set_delegate },
        ) is Ok ==> set_delegate_authority_check(set_delegate) == Err::<(), EscrowError>(
            EscrowError::ReentrancyDetected,
        ),
{
}

/// The guard is held exactly while a transfer is in flight: taken when the
/// operation is accepted, and free again after the operation ends, by its
/// confirmation or by `guard::exit`. An operation that only writes the
/// campaign leaves the guard free.
pub proof fn lemma_guard_is_released(
    campaign: Campaign,
    now: i64,
    contribute: Contribute,
    amount: u64,
    refund: Refund,
    payout: Payout,
)
    ensures
        entered(campaign, now).reentrancy_guard,
        !exited(campaign).reentrancy_guard,
        !stamped(campaign, now).reentrancy_guard,
        contribute_begun(contribute, now).campaign.reentrancy_guard,
        !contribution_confirmed(contribute, amount).campaign.reentrancy_guard,
        refund_begun(refund, now).campaign.reentrancy_guard,
        !refund_confirmed(refund).campaign.reentrancy_guard,
        payout_begun(payout, now).campaign.reentrancy_guard,
        !paid_out(payout.campaign).reentrancy_guard,
{
}

} // verus!
