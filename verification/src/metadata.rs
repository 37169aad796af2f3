//! Attaching a metadata URI, with the hash of what it points to, to a
//! pending campaign.

use crate::accounts::SubmitMetadata;
use crate::error::EscrowError;
use crate::guard::{enter, exit};
use crate::lifecycle::stamped;
use crate::pubkey::{bytes32_is_zero, is_permitted, is_zero32, Pubkey};
use crate::state::{uri_bytes, Campaign, CampaignStatus};
use vstd::prelude::*;

verus! {

/// The bytes of `ipfs://`.
pub open spec fn ipfs_scheme() -> Seq<u8> {
    seq![0x69u8, 0x70u8, 0x66u8, 0x73u8, 0x3au8, 0x2fu8, 0x2fu8]
}

/// The bytes of `ar://`.
pub open spec fn arweave_scheme() -> Seq<u8> {
    seq![0x61u8, 0x72u8, 0x3au8, 0x2fu8, 0x2fu8]
}

/// The bytes of `https://`.
pub open spec fn https_scheme() -> Seq<u8> {
    seq![0x68u8, 0x74u8, 0x74u8, 0x70u8, 0x73u8, 0x3au8, 0x2fu8, 0x2fu8]
}

/// Whether a URI starts with an accepted scheme: `ipfs://` or `ar://` with
/// something after it, or `https://`.
pub open spec fn uri_scheme_accepted(uri: Seq<u8>) -> bool {
    ||| (ipfs_scheme().is_prefix_of(uri) && uri.len() > 7)
    ||| (arweave_scheme().is_prefix_of(uri) && uri.len() > 5)
    ||| https_scheme().is_prefix_of(uri)
}

/// Tests whether `bytes` begins with `prefix`.
pub fn starts_with(bytes: &[u8], prefix: &[u8]) -> (found: bool)
    ensures
        found == prefix@.is_prefix_of(bytes@),
{
    if prefix.len() > bytes.len() {
        return false;
    }
    let mut i: usize = 0;
    while i < prefix.len()
        invariant
            i <= prefix.len() <= bytes.len(),
            forall|j: int| 0 <= j < i ==> prefix@[j] == bytes@[j],
        decreases prefix.len() - i,
    {
        if prefix[i] != bytes[i] {
            assert(bytes@.subrange(0, prefix@.len() as int)[i as int] != prefix@[i as int]);
            return false;
        }
        i += 1;
    }
    assert(prefix@ =~= bytes@.subrange(0, prefix@.len() as int));
    true
}

/// Tests whether the URI in `uri` starts with an accepted scheme.
pub fn has_accepted_scheme(uri: &[u8]) -> (accepted: bool)
    ensures
        accepted == uri_scheme_accepted(uri@),
{
    let ipfs: [u8; 7] = [0x69, 0x70, 0x66, 0x73, 0x3a, 0x2f, 0x2f];
    let arweave: [u8; 5] = [0x61, 0x72, 0x3a, 0x2f, 0x2f];
    let https: [u8; 8] = [0x68, 0x74, 0x74, 0x70, 0x73, 0x3a, 0x2f, 0x2f];
    assert(ipfs@ =~= ipfs_scheme());
    assert(arweave@ =~= arweave_scheme());
    assert(https@ =~= https_scheme());
    let is_ipfs = starts_with(uri, ipfs.as_slice()) && uri.len() > 7;
    let is_arweave = starts_with(uri, arweave.as_slice()) && uri.len() > 5;
    let is_https = starts_with(uri, https.as_slice());
    is_ipfs || is_arweave || is_https
}

/// Who may submit metadata: the top contributor and the creator.
pub open spec fn may_submit_metadata(campaign: Campaign, signer: Pubkey) -> bool {
    signer == campaign.top_contributor || signer == campaign.creator
}

/// What `submit_metadata` answers. The checks are made in this order; the
/// first that fails names the error.
pub open spec fn submit_metadata_check(
    ctx: SubmitMetadata,
    uri: Seq<char>,
    metadata_hash: [u8; 32],
) -> Result<(), EscrowError> {
    if !(ctx.campaign.status is Pending) {
        Err(EscrowError::WrongStatus)
    } else if !may_submit_metadata(ctx.campaign, ctx.submitter) {
        Err(EscrowError::Unauthorized)
    } else if uri_bytes(uri).len() == 0 {
        Err(EscrowError::EmptyUri)
    } else if uri_bytes(uri).len() > Campaign::MAX_URI_LEN {
        Err(EscrowError::UriTooLong)
    } else if !uri_scheme_accepted(uri_bytes(uri)) {
        Err(EscrowError::InvalidUriFormat)
    } else if is_zero32(metadata_hash) {
        Err(EscrowError::InvalidMetadataHash)
    } else if ctx.campaign.reentrancy_guard {
        Err(EscrowError::ReentrancyDetected)
    } else {
        Ok(())
    }
}

/// Attaches `uri` and the hash of its content to a pending campaign,
/// replacing what was attached before. The URI has 1 to 256 bytes and an
/// accepted scheme; the hash is not all zero.
pub fn submit_metadata(
    ctx: &mut SubmitMetadata,
    uri: String,
    metadata_hash: [u8; 32],
    now: i64,
) -> (result: Result<(), EscrowError>)
    ensures
        result == submit_metadata_check(*old(ctx), uri@, metadata_hash),
        result is Ok ==> *final(ctx) == (SubmitMetadata {
            campaign: Campaign {
                metadata_uri: uri,
                metadata_hash,
                ..stamped(old(ctx).campaign, now)
            },
            ..*old(ctx)
        }),
        result is Err ==> *final(ctx) == *old(ctx),
        old(ctx).campaign.evolves_to(final(ctx).campaign),
{
    if ctx.campaign.status != CampaignStatus::Pending {
        return Err(EscrowError::WrongStatus);
    }
    let permitted = [ctx.campaign.top_contributor, ctx.campaign.creator];
    if !is_permitted(&ctx.submitter, &permitted) {
        return Err(EscrowError::Unauthorized);
    }
    let bytes = uri.as_str().as_bytes();
    if bytes.len() == 0 {
        return Err(EscrowError::EmptyUri);
    }
    if bytes.len() > Campaign::MAX_URI_LEN {
        return Err(EscrowError::UriTooLong);
    }
    if !has_accepted_scheme(bytes) {
        return Err(EscrowError::InvalidUriFormat);
    }
    if bytes32_is_zero(&metadata_hash) {
        return Err(EscrowError::InvalidMetadataHash);
    }
    match enter(&mut ctx.campaign, now) {
        Ok(()) => {
            ctx.campaign.metadata_uri = uri;
            ctx.campaign.metadata_hash = metadata_hash;
            exit(&mut ctx.campaign);
            Ok(())
        },
        Err(e) => Err(e),
    }
}

} // verus!
