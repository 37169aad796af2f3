//! The payout commitment: a Keccak-256 digest that binds a payout to one
//! asset, one destination and one amount.

use crate::pubkey::{lemma_pubkey_view_injective, Pubkey};
use tiny_keccak::{Hasher, Keccak};
use vstd::bytes::{
    lemma_auto_spec_u64_to_from_le_bytes, spec_u64_from_le_bytes, spec_u64_to_le_bytes,
    u64_to_le_bytes,
};
use vstd::prelude::*;

verus! {

/// The Keccak-256 digest of `input`, as `tiny_keccak` computes it.
pub uninterp spec fn keccak256(input: Seq<u8>) -> Seq<u8>;

/// Hashes `input` with `tiny_keccak`: `Keccak::v256`, one `Hasher::update`
/// with the whole input, then `Hasher::finalize` into 32 bytes. Believed,
/// not proved: that the 32 bytes are a function of the input bytes alone,
/// the one that `keccak256` names. Nothing is claimed of their value.
#[verifier::external_body]
fn keccak256_digest(input: &[u8]) -> (digest: [u8; 32])
    ensures
        digest@ == keccak256(input@),
{
    let mut hasher = Keccak::v256();
    hasher.update(input);
    let mut digest = [0u8; 32];
    hasher.finalize(&mut digest);
    digest
}

/// What is hashed: the asset's 32 bytes, the destination's 32 bytes, then the
/// amount as 8 little-endian bytes.
pub open spec fn commitment_preimage(pay_mint: Pubkey, destination: Pubkey, amount: u64) -> Seq<
    u8,
> {
    pay_mint@ + destination@ + spec_u64_to_le_bytes(amount)
}

/// The commitment to paying `amount` of `pay_mint` to `destination`.
pub open spec fn commitment_of(pay_mint: Pubkey, destination: Pubkey, amount: u64) -> Seq<u8> {
    keccak256(commitment_preimage(pay_mint, destination, amount))
}

fn append_bytes(buffer: &mut Vec<u8>, bytes: &[u8])
    ensures
        final(buffer)@ == old(buffer)@ + bytes@,
{
    let ghost before = buffer@;
    let mut i: usize = 0;
    while i < bytes.len()
        invariant
            i <= bytes.len(),
            buffer@ == before + bytes@.subrange(0, i as int),
        decreases bytes.len() - i,
    {
        buffer.push(bytes[i]);
        i += 1;
        assert(buffer@ =~= before + bytes@.subrange(0, i as int));
    }
    assert(bytes@.subrange(0, i as int) =~= bytes@);
}

/// Computes the commitment to paying `amount` of `pay_mint` to
/// `destination`: the hash to hand to `set_merchant_hash`.
pub fn commitment_hash(pay_mint: &Pubkey, destination: &Pubkey, amount: u64) -> (hash: [u8; 32])
    ensures
        hash@ == commitment_of(*pay_mint, *destination, amount),
{
    let mut input: Vec<u8> = Vec::with_capacity(72);
    append_bytes(&mut input, pay_mint.bytes.as_slice());
    append_bytes(&mut input, destination.bytes.as_slice());
    let amount_bytes = u64_to_le_bytes(amount);
    append_bytes(&mut input, amount_bytes.as_slice());
    assert(input@ =~= commitment_preimage(*pay_mint, *destination, amount));
    keccak256_digest(input.as_slice())
}

/// The preimage has 72 bytes and determines the asset, the destination and
/// the amount: two different payouts never hash the same bytes.
pub proof fn lemma_preimage_injective(
    pay_mint: Pubkey,
    destination: Pubkey,
    amount: u64,
    other_mint: Pubkey,
    other_destination: Pubkey,
    other_amount: u64,
)
    ensures
        commitment_preimage(pay_mint, destination, amount).len() == 72,
        commitment_preimage(pay_mint, destination, amount) == commitment_preimage(
            other_mint,
            other_destination,
            other_amount,
        ) ==> pay_mint == other_mint && destination == other_destination && amount
            == other_amount,
{
    lemma_auto_spec_u64_to_from_le_bytes();
    let p = commitment_preimage(pay_mint, destination, amount);
    let q = commitment_preimage(other_mint, other_destination, other_amount);
    assert(p.len() == 72);
    if p == q {
        assert(p.subrange(0, 32) =~= pay_mint@);
        assert(q.subrange(0, 32) =~= other_mint@);
        assert(p.subrange(32, 64) =~= destination@);
        assert(q.subrange(32, 64) =~= other_destination@);
        assert(p.subrange(64, 72) =~= spec_u64_to_le_bytes(amount));
        assert(q.subrange(64, 72) =~= spec_u64_to_le_bytes(other_amount));
        lemma_pubkey_view_injective(pay_mint, other_mint);
        lemma_pubkey_view_injective(destination, other_destination);
        assert(spec_u64_from_le_bytes(spec_u64_to_le_bytes(amount)) == amount);
        assert(spec_u64_from_le_bytes(spec_u64_to_le_bytes(other_amount)) == other_amount);
    }
}

} // verus!
