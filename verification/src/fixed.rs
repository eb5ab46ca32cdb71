//! The fixed-bit table: which positions of the 128-bit identifier layout are
//! structurally fixed (the version nibble and the variant bits), the values
//! they must carry, and the index maps between the 128 identifier bits and
//! the 122 free bits. Both directions of the transform consult this module,
//! so another layout would only change the table, not the traversal logic.

use vstd::prelude::*;
use crate::bits::bit_get;
use crate::bits::get_bit;

verus! {

/// Byte index of the version nibble.
pub const VERSION_BYTE: usize = 6;

/// Mask of the version nibble inside its byte.
pub const VERSION_MASK: u8 = 0xF0;

/// Required value of the version nibble under its mask: `0100` on bits 7..4.
pub const VERSION_VALUE: u8 = 0x40;

/// Byte index of the variant field.
pub const VARIANT_BYTE: usize = 8;

/// Mask of the variant field inside its byte.
pub const VARIANT_MASK: u8 = 0xC0;

/// Required value of the variant field under its mask: `10` on bits 7..6.
pub const VARIANT_VALUE: u8 = 0x80;

/// Mask of the padding bits of the last compact payload byte, which must be
/// zero in every valid compact payload.
pub const PADDING_MASK: u8 = 0xFC;

/// Whether identifier bit `k` is structurally fixed. Bits are counted
/// most-significant-bit-first: bit 0 is the high bit of byte 0, so the
/// version nibble occupies bits 48..52 and the variant field bits 64..66.
pub open spec fn is_fixed_pos(k: int) -> bool {
    (48 <= k < 52) || (64 <= k < 66)
}

/// The canonical value of fixed identifier bit `k`: of the six fixed bits,
/// only bit 6 of the version byte (`0100`) and bit 7 of the variant byte
/// (`10`) are set.
pub open spec fn fixed_bit(k: int) -> bool {
    k == 49 || k == 64
}

/// Where free bit `j` (0 <= j < 122) sits in the identifier: the j-th
/// non-fixed position, counted most-significant-bit-first.
pub open spec fn free_src(j: int) -> int {
    if j < 48 {
        j
    } else if j < 60 {
        j + 4
    } else {
        j + 6
    }
}

/// The free-bit index of a non-fixed identifier position `k`: the inverse of
/// `free_src`.
pub open spec fn free_inv(k: int) -> int {
    if k < 48 {
        k
    } else if k < 64 {
        k - 4
    } else {
        k - 6
    }
}

/// How many of the identifier positions below `k` are free.
pub open spec fn count_free(k: int) -> int {
    if k <= 48 {
        k
    } else if k <= 52 {
        48
    } else if k <= 64 {
        k - 4
    } else if k <= 66 {
        60
    } else {
        k - 6
    }
}

/// `free_src` and `free_inv` are mutually inverse bijections between the 122
/// free-bit indices and the non-fixed identifier positions.
pub proof fn lemma_free_maps(j: int, k: int)
    ensures
        0 <= j < 122 ==> 0 <= free_src(j) < 128 && !is_fixed_pos(free_src(j)) && free_inv(
            free_src(j),
        ) == j,
        0 <= k < 128 && !is_fixed_pos(k) ==> 0 <= free_inv(k) < 122 && free_src(free_inv(k)) == k,
{
}

/// Consults the fixed-bit table: is bit `bit` of byte `byte_idx` (bit 0 the
/// least significant) one of the structurally fixed positions?
pub fn fixed_at(byte_idx: usize, bit: usize) -> (r: bool)
    requires
        byte_idx < 16,
        bit < 8,
    ensures
        r == is_fixed_pos(8 * byte_idx + (7 - bit)),
{
    proof {
        assert(forall|i: u8| i < 8 ==> (bit_get(0xF0u8, i) <==> i >= 4)) by (bit_vector);
        assert(forall|i: u8| i < 8 ==> (bit_get(0xC0u8, i) <==> i >= 6)) by (bit_vector);
    }
    (byte_idx == VERSION_BYTE && get_bit(VERSION_MASK, bit as u8)) || (byte_idx == VARIANT_BYTE
        && get_bit(VARIANT_MASK, bit as u8))
}

/// Consults the fixed-bit table: the canonical value of the fixed position at
/// bit `bit` of byte `byte_idx`.
pub fn fixed_val_at(byte_idx: usize, bit: usize) -> (r: bool)
    requires
        byte_idx < 16,
        bit < 8,
        is_fixed_pos(8 * byte_idx + (7 - bit)),
    ensures
        r == fixed_bit(8 * byte_idx + (7 - bit)),
{
    proof {
        assert(forall|i: u8| i < 8 ==> (bit_get(0x40u8, i) <==> i == 6)) by (bit_vector);
        assert(forall|i: u8| i < 8 ==> (bit_get(0x80u8, i) <==> i == 7)) by (bit_vector);
    }
    if byte_idx == VERSION_BYTE {
        get_bit(VERSION_VALUE, bit as u8)
    } else {
        get_bit(VARIANT_VALUE, bit as u8)
    }
}

/// Computes `free_inv` for a non-fixed identifier position.
pub fn free_index(k: usize) -> (r: usize)
    requires
        k < 128,
        !is_fixed_pos(k as int),
    ensures
        r == free_inv(k as int),
        r < 122,
{
    if k < 48 {
        k
    } else if k < 64 {
        k - 4
    } else {
        k - 6
    }
}

} // verus!
