//! Account identities and 32-byte values.

use vstd::prelude::*;
use vstd::std_specs::cmp::PartialEqSpecImpl;

verus! {

/// Whether every byte of `bytes` is zero: the value that stands for "no hash".
pub open spec fn is_zero32(bytes: [u8; 32]) -> bool {
    forall|i: int| 0 <= i < 32 ==> bytes[i] == 0u8
}

/// Compares two 32-byte values byte by byte.
pub fn bytes32_eq(a: &[u8; 32], b: &[u8; 32]) -> (equal: bool)
    ensures
        equal == (*a == *b),
        equal == (a@ == b@),
{
    let mut i: usize = 0;
    while i < 32
        invariant
            i <= 32,
            forall|j: int| 0 <= j < i ==> a[j] == b[j],
        decreases 32 - i,
    {
        if a[i] != b[i] {
            return false;
        }
        i += 1;
    }
    assert(*a =~= *b);
    true
}

/// Tests whether every byte of `bytes` is zero.
pub fn bytes32_is_zero(bytes: &[u8; 32]) -> (zero: bool)
    ensures
        zero == is_zero32(*bytes),
{
    let mut i: usize = 0;
    while i < 32
        invariant
            i <= 32,
            forall|j: int| 0 <= j < i ==> bytes[j] == 0u8,
        decreases 32 - i,
    {
        if bytes[i] != 0 {
            return false;
        }
        i += 1;
    }
    true
}

/// The identity of an account: 32 bytes, compared byte by byte.
#[derive(Clone, Copy, Debug, Eq, Hash)]
pub struct Pubkey {
    pub bytes: [u8; 32],
}

impl View for Pubkey {
    type V = Seq<u8>;

    open spec fn view(&self) -> Seq<u8> {
        self.bytes@
    }
}

impl PartialEq for Pubkey {
    fn eq(&self, other: &Pubkey) -> (equal: bool) {
        bytes32_eq(&self.bytes, &other.bytes)
    }
}

impl PartialEqSpecImpl for Pubkey {
    open spec fn obeys_eq_spec() -> bool {
        true
    }

    open spec fn eq_spec(&self, other: &Pubkey) -> bool {
        self.bytes == other.bytes
    }
}

impl Default for Pubkey {
    /// The all-zero identity, which stands for "nobody".
    fn default() -> (key: Pubkey)
        ensures
            is_zero32(key.bytes),
    {
        Pubkey { bytes: [0u8; 32] }
    }
}

impl Pubkey {
    /// The identity made of `bytes`.
    pub fn new(bytes: [u8; 32]) -> (key: Pubkey)
        ensures
            key.bytes == bytes,
    {
        Pubkey { bytes }
    }

    /// The 32 bytes of this identity.
    pub fn to_bytes(&self) -> (bytes: [u8; 32])
        ensures
            bytes == self.bytes,
    {
        self.bytes
    }
}

/// Two identities with the same bytes are the same identity.
pub proof fn lemma_pubkey_view_injective(a: Pubkey, b: Pubkey)
    requires
        a@ == b@,
    ensures
        a == b,
{
    assert(a.bytes =~= b.bytes);
}

/// Tests whether `signer` is one of the principals in `permitted`.
pub fn is_permitted(signer: &Pubkey, permitted: &[Pubkey]) -> (found: bool)
    ensures
        found == permitted@.contains(*signer),
{
    let mut i: usize = 0;
    while i < permitted.len()
        invariant
            i <= permitted.len(),
            forall|j: int| 0 <= j < i ==> permitted@[j] != *signer,
        decreases permitted.len() - i,
    {
        if permitted[i] == *signer {
            return true;
        }
        i += 1;
    }
    false
}

} // verus!
