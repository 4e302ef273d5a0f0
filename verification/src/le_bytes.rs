//! Little-endian byte images of the integers that attributes hold.
use vstd::prelude::*;
use vstd::bytes::{spec_u64_to_le_bytes, spec_u64_from_le_bytes, spec_u64_to_le_bytes_to_open, lemma_auto_spec_u64_to_from_le_bytes};

verus! {

/// The eight bytes of `x`, least significant first, as
/// `u64::to_le_bytes` gives them.
pub fn u64_le_bytes(x: u64) -> (r: [u8; 8])
    ensures
        r@ == spec_u64_to_le_bytes(x),
{
    let r: [u8; 8] = [
        (x & 0xff) as u8,
        ((x >> 8u64) & 0xff) as u8,
        ((x >> 16u64) & 0xff) as u8,
        ((x >> 24u64) & 0xff) as u8,
        ((x >> 32u64) & 0xff) as u8,
        ((x >> 40u64) & 0xff) as u8,
        ((x >> 48u64) & 0xff) as u8,
        ((x >> 56u64) & 0xff) as u8,
    ];
    proof {
        spec_u64_to_le_bytes_to_open(x);
        assert(r@ =~= spec_u64_to_le_bytes(x));
    }
    r
}

/// Distinct integers have distinct little-endian images: the image of `x`
/// decodes back to `x`.
pub proof fn lemma_le_bytes_injective(x: u64, y: u64)
    ensures
        spec_u64_to_le_bytes(x).len() == 8,
        spec_u64_from_le_bytes(spec_u64_to_le_bytes(x)) == x,
        spec_u64_to_le_bytes(x) == spec_u64_to_le_bytes(y) <==> x == y,
{
    lemma_auto_spec_u64_to_from_le_bytes();
    assert(spec_u64_to_le_bytes(x).len() == 8);
    assert(spec_u64_to_le_bytes(y).len() == 8);
}

} // verus!
