//! From a 32-byte random buffer to an outcome in [1, 100] and a reward
//! bucket: the first 16 bytes, read as a little-endian unsigned integer,
//! are reduced modulo 100 and shifted by one; three fixed ranges of the
//! outcome select one of the three reward mints, and the values 66 and 100
//! fall in no range at all.

use vstd::prelude::*;

verus! {

/// The unsigned integer held little-endian in the first 16 bytes of `s`.
pub open spec fn u128_le_of(s: Seq<u8>) -> int {
    s[0] + s[1] * 0x100 + s[2] * 0x1_0000 + s[3] * 0x100_0000 + s[4] * 0x1_0000_0000
        + s[5] * 0x100_0000_0000 + s[6] * 0x1_0000_0000_0000 + s[7] * 0x100_0000_0000_0000
        + s[8] * 0x1_0000_0000_0000_0000 + s[9] * 0x100_0000_0000_0000_0000
        + s[10] * 0x1_0000_0000_0000_0000_0000 + s[11] * 0x100_0000_0000_0000_0000_0000
        + s[12] * 0x1_0000_0000_0000_0000_0000_0000 + s[13] * 0x100_0000_0000_0000_0000_0000_0000
        + s[14] * 0x1_0000_0000_0000_0000_0000_0000_0000
        + s[15] * 0x100_0000_0000_0000_0000_0000_0000_0000
}

/// The outcome derived from a raw random value: a number in [1, 100].
pub open spec fn outcome_of(raw: int) -> int {
    raw % 100 + 1
}

/// Which of the three reward buckets an outcome falls in: outcomes in
/// [1, 33] select the first mint, [34, 65] the second, [67, 99] the third,
/// and 66 and 100 select none.
pub open spec fn bucket_of(outcome: int) -> Option<int> {
    if 1 <= outcome <= 33 {
        Some(1)
    } else if 34 <= outcome <= 65 {
        Some(2)
    } else if 67 <= outcome <= 99 {
        Some(3)
    } else {
        None
    }
}

/// Read the first 16 bytes of a 32-byte buffer as a little-endian integer.
pub fn read_u128_le(b: &[u8; 32]) -> (r: u128)
    ensures
        r == u128_le_of(b@),
{
    (b[0] as u128) + (b[1] as u128) * 0x100 + (b[2] as u128) * 0x1_0000
        + (b[3] as u128) * 0x100_0000 + (b[4] as u128) * 0x1_0000_0000
        + (b[5] as u128) * 0x100_0000_0000 + (b[6] as u128) * 0x1_0000_0000_0000
        + (b[7] as u128) * 0x100_0000_0000_0000 + (b[8] as u128) * 0x1_0000_0000_0000_0000
        + (b[9] as u128) * 0x100_0000_0000_0000_0000
        + (b[10] as u128) * 0x1_0000_0000_0000_0000_0000
        + (b[11] as u128) * 0x100_0000_0000_0000_0000_0000
        + (b[12] as u128) * 0x1_0000_0000_0000_0000_0000_0000
        + (b[13] as u128) * 0x100_0000_0000_0000_0000_0000_0000
        + (b[14] as u128) * 0x1_0000_0000_0000_0000_0000_0000_0000
        + (b[15] as u128) * 0x100_0000_0000_0000_0000_0000_0000_0000
}

/// Derive the outcome in [1, 100] from a raw random value.
pub fn derive_outcome(raw: u128) -> (r: u128)
    ensures
        r == outcome_of(raw as int),
        1 <= r <= 100,
{
    raw % 100 + 1
}

} // verus!
