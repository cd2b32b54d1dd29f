use vstd::prelude::*;

verus! {

/// The 64-bit value the randomness oracle's helper derives from a 32-byte
/// seed: the little-endian integer of the seed's bytes 0, 4, 8, 12, 16, 20,
/// 24 and 28.
pub open spec fn spec_random_u64(bytes: Seq<u8>) -> u64
    recommends
        bytes.len() == 32,
{
    (bytes[0] as int
        + bytes[4] as int * 0x100
        + bytes[8] as int * 0x1_0000
        + bytes[12] as int * 0x100_0000
        + bytes[16] as int * 0x1_0000_0000
        + bytes[20] as int * 0x100_0000_0000
        + bytes[24] as int * 0x1_0000_0000_0000
        + bytes[28] as int * 0x100_0000_0000_0000) as u64
}

/// Relies on `ephemeral_vrf_sdk::rnd::random_u64`: it returns the
/// little-endian `u64` assembled from bytes 0, 4, 8, 12, 16, 20, 24 and 28
/// of the seed, a function of the seed alone.
#[verifier::external_body]
pub(crate) fn random_u64_of(bytes: &[u8; 32]) -> (r: u64)
    ensures
        r == spec_random_u64(bytes@),
{
    ephemeral_vrf_sdk::rnd::random_u64(bytes)
}

} // verus!
