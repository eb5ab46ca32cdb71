//! Single-bit access to bytes, and the lemmas that connect bit-level views
//! with the byte masks the rest of the crate states its contracts over.

use vstd::prelude::*;

verus! {

/// True when bit `i` of `b` is set; bit 0 is the least significant bit.
pub open spec fn bit_get(b: u8, i: u8) -> bool {
    (b >> i) & 1 == 1
}

/// Reads bit `i` of `b`.
pub fn get_bit(b: u8, i: u8) -> (r: bool)
    requires
        i < 8,
    ensures
        r == bit_get(b, i),
{
    (b >> i) & 1 == 1
}

/// Returns `b` with bit `i` forced to `v` and every other bit unchanged.
pub fn set_bit(b: u8, i: u8, v: bool) -> (r: u8)
    requires
        i < 8,
    ensures
        forall|j: u8| j < 8 ==> bit_get(r, j) == (if j == i { v } else { bit_get(b, j) }),
{
    if v {
        let r = b | (1u8 << i);
        proof {
            assert(forall|j: u8|
                j < 8 ==> bit_get(b | (1u8 << i), j) == (if j == i { true } else { bit_get(b, j) }))
                by (bit_vector)
                requires
                    i < 8,
            ;
        }
        r
    } else {
        let r = b & !(1u8 << i);
        proof {
            assert(forall|j: u8|
                j < 8 ==> bit_get(b & !(1u8 << i), j) == (if j == i { false } else {
                    bit_get(b, j)
                }))
                by (bit_vector)
                requires
                    i < 8,
            ;
        }
        r
    }
}

/// Two bytes that agree on all eight bits are equal.
pub proof fn lemma_byte_eq(a: u8, b: u8)
    requires
        forall|j: u8| j < 8 ==> bit_get(a, j) == bit_get(b, j),
    ensures
        a == b,
{
    assert(a == b) by (bit_vector)
        requires
            bit_get(a, 0) == bit_get(b, 0),
            bit_get(a, 1) == bit_get(b, 1),
            bit_get(a, 2) == bit_get(b, 2),
            bit_get(a, 3) == bit_get(b, 3),
            bit_get(a, 4) == bit_get(b, 4),
            bit_get(a, 5) == bit_get(b, 5),
            bit_get(a, 6) == bit_get(b, 6),
            bit_get(a, 7) == bit_get(b, 7),
    ;
}

/// No bit of zero is set.
pub proof fn lemma_zero_bits()
    by (bit_vector)
    ensures
        forall|j: u8| j < 8 ==> !bit_get(0u8, j),
{
}

/// The mask `0b1111_1100` selects exactly bits 2 through 7: a byte survives it
/// as zero exactly when those six bits are clear.
pub proof fn lemma_padding_mask(b: u8)
    by (bit_vector)
    ensures
        (b & 0xFC == 0) <==> (!bit_get(b, 2) && !bit_get(b, 3) && !bit_get(b, 4) && !bit_get(b, 5)
            && !bit_get(b, 6) && !bit_get(b, 7)),
{
}

/// A byte carries `0100` on its high nibble exactly when, of bits 7 down to 4,
/// only bit 6 is set.
pub proof fn lemma_version_mask(b: u8)
    by (bit_vector)
    ensures
        (b & 0xF0 == 0x40) <==> (!bit_get(b, 7) && bit_get(b, 6) && !bit_get(b, 5) && !bit_get(
            b,
            4,
        )),
{
}

/// A byte carries `10` on its top two bits exactly when bit 7 is set and bit 6
/// is clear.
pub proof fn lemma_variant_mask(b: u8)
    by (bit_vector)
    ensures
        (b & 0xC0 == 0x80) <==> (bit_get(b, 7) && !bit_get(b, 6)),
{
}

} // verus!
