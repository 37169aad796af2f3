//! The payout commitment against known Keccak-256 digests.

use cto_dex_escrow::{commitment_hash, Pubkey};
use tiny_keccak::{Hasher, Keccak};

fn digest_of(bytes: &[u8]) -> [u8; 32] {
    let mut hasher = Keccak::v256();
    hasher.update(bytes);
    let mut out = [0u8; 32];
    hasher.finalize(&mut out);
    out
}

#[test]
fn commitment_matches_a_known_digest() {
    let mint = Pubkey::new([1u8; 32]);
    let destination = Pubkey::new([2u8; 32]);
    let expected: [u8; 32] = [
        18, 59, 184, 106, 148, 215, 118, 41, 57, 114, 55, 201, 111, 229, 96, 44, 222, 122, 181,
        223, 146, 144, 242, 38, 113, 107, 124, 55, 30, 237, 223, 122,
    ];
    assert_eq!(commitment_hash(&mint, &destination, 10_000_000), expected);
}

#[test]
fn commitment_of_distinct_bytes_matches_a_known_digest() {
    let mut mint = [0u8; 32];
    let mut destination = [0u8; 32];
    for i in 0..32 {
        mint[i] = i as u8;
        destination[i] = 32 + i as u8;
    }
    let expected: [u8; 32] = [
        148, 249, 11, 137, 219, 170, 188, 76, 146, 228, 245, 21, 218, 214, 24, 127, 24, 161, 117,
        222, 159, 123, 244, 109, 194, 104, 64, 215, 187, 151, 129, 122,
    ];
    assert_eq!(
        commitment_hash(&Pubkey::new(mint), &Pubkey::new(destination), 10_000_000),
        expected
    );
}

#[test]
fn commitment_hashes_mint_then_destination_then_amount_little_endian() {
    let mint = Pubkey::new([7u8; 32]);
    let destination = Pubkey::new([9u8; 32]);
    let amount: u64 = 0x0102_0304_0506_0708;
    let mut preimage = Vec::new();
    preimage.extend_from_slice(&[7u8; 32]);
    preimage.extend_from_slice(&[9u8; 32]);
    preimage.extend_from_slice(&[0x08, 0x07, 0x06, 0x05, 0x04, 0x03, 0x02, 0x01]);
    assert_eq!(preimage.len(), 72);
    assert_eq!(commitment_hash(&mint, &destination, amount), digest_of(&preimage));
}

#[test]
fn commitment_is_not_its_input() {
    let mint = Pubkey::new([1u8; 32]);
    let destination = Pubkey::new([2u8; 32]);
    let hash = commitment_hash(&mint, &destination, 1_000_000);
    assert_ne!(hash, mint.to_bytes());
    assert_ne!(hash, destination.to_bytes());
    assert_ne!(hash, [0u8; 32]);
    let expected: [u8; 32] = [
        54, 101, 80, 79, 212, 105, 151, 20, 124, 226, 240, 188, 9, 247, 139, 151, 150, 125, 110,
        173, 189, 144, 111, 205, 242, 199, 148, 116, 111, 110, 74, 93,
    ];
    assert_eq!(hash, expected);
}

#[test]
fn commitment_changes_with_each_part() {
    let mint = Pubkey::new([1u8; 32]);
    let destination = Pubkey::new([2u8; 32]);
    let base = commitment_hash(&mint, &destination, 10_000_000);
    assert_eq!(base, commitment_hash(&mint, &destination, 10_000_000));
    assert_ne!(base, commitment_hash(&mint, &destination, 10_000_001));
    assert_ne!(base, commitment_hash(&destination, &mint, 10_000_000));
    assert_ne!(base, commitment_hash(&mint, &Pubkey::new([3u8; 32]), 10_000_000));
    assert_ne!(base, commitment_hash(&Pubkey::new([3u8; 32]), &destination, 10_000_000));
}
