//! Account identities: 32-byte values standing for the host chain's public
//! keys and account addresses.

use vstd::prelude::*;

verus! {

broadcast use vstd::array::group_array_axioms;

/// A 32-byte account identity (a public key or a derived address).
pub type AccountId = [u8; 32];

/// The all-zero 32-byte identity: the value an unset key field holds.
pub open spec fn zero_id() -> AccountId {
    vstd::array::spec_array_fill_for_copy_type::<u8, 32>(0u8)
}

/// Holds when every byte of `s` is zero.
pub open spec fn is_zero_bytes(s: Seq<u8>) -> bool {
    forall|i: int| 0 <= i < s.len() ==> s[i] == 0u8
}

/// The 32-byte value whose view is `s`.  Meaningful whenever some 32-byte
/// value has that view; `lemma_id_from_bytes` recovers it from a witness.
pub open spec fn id_from_bytes(s: Seq<u8>) -> AccountId {
    choose|a: AccountId| a@ == s
}

/// A 32-byte value is recovered exactly by `id_from_bytes` of its view.
pub proof fn lemma_id_from_bytes(a: AccountId)
    ensures
        id_from_bytes(a@) == a,
{
    assert(exists|x: AccountId| x@ == a@) by {
        assert(a@ == a@);
    }
    let b = id_from_bytes(a@);
    assert(b@ == a@);
    assert(b =~= a);
}

/// Compare two 32-byte values for equality.
pub fn bytes32_eq(a: &[u8; 32], b: &[u8; 32]) -> (r: bool)
    ensures
        r == (*a == *b),
{
    let mut i: usize = 0;
    while i < 32
        invariant
            0 <= i <= 32,
            forall|j: int| 0 <= j < i ==> a@[j] == b@[j],
        decreases 32 - i,
    {
        if a[i] != b[i] {
            proof {
                assert(a@[i as int] != b@[i as int]);
            }
            return false;
        }
        i += 1;
    }
    proof {
        assert(*a =~= *b);
    }
    true
}

/// Does a 32-byte buffer hold only zero bytes?
pub fn is_zero_buffer(b: &[u8; 32]) -> (r: bool)
    ensures
        r == is_zero_bytes(b@),
{
    let mut i: usize = 0;
    while i < 32
        invariant
            0 <= i <= 32,
            forall|j: int| 0 <= j < i ==> b@[j] == 0u8,
        decreases 32 - i,
    {
        if b[i] != 0 {
            return false;
        }
        i += 1;
    }
    true
}

} // verus!
