//! The laws that relate the two directions of the transform and the text
//! codec: the packing relation is deterministic, packing then unpacking
//! reconstructs the identifier, and re-encoding a decoded value reproduces
//! the original text.

use vstd::prelude::*;
use crate::api::decode_succeeds;
use crate::base45::base45_encoding;
use crate::bits::bit_get;
use crate::bits::lemma_padding_mask;
use crate::fixed::PADDING_MASK;
use crate::bits::lemma_byte_eq;
use crate::bits::lemma_variant_mask;
use crate::bits::lemma_version_mask;
use crate::fixed::free_inv;
use crate::fixed::free_src;
use crate::fixed::is_fixed_pos;
use crate::fixed::lemma_free_maps;
use crate::transform::canonical_fixed;
use crate::transform::compact_bit;
use crate::transform::id_bit;
use crate::transform::packs_to;

verus! {

/// An identifier admits exactly one compact payload: the packing relation
/// is a function of the identifier. In particular, whatever payload `pack`
/// returns is the only one, since its 122 data bits and 6 zero padding bits
/// are all pinned.
pub proof fn lemma_pack_deterministic(u: Seq<u8>, c1: Seq<u8>, c2: Seq<u8>)
    requires
        packs_to(u, c1),
        packs_to(u, c2),
    ensures
        c1 == c2,
{
    assert forall|i: int| 0 <= i < 16 implies c1[i] == c2[i] by {
        assert forall|b: u8| b < 8 implies bit_get(c1[i], b) == bit_get(c2[i], b) by {
            let j: int = 8 * i + b;
            assert(compact_bit(c1, j) == compact_bit(c2, j));
            assert(j / 8 == i && j % 8 == b);
        }
        lemma_byte_eq(c1[i], c2[i]);
    }
    assert(c1 =~= c2);
}

/// Round trip: unpacking a packed identifier reconstructs its 122 free bits
/// exactly, and reconstructs the identifier itself exactly whenever its
/// fixed bits already carried the canonical version and variant values.
/// Here `c` is any payload packed from `u`, and `u2` any canonical
/// identifier unpacked from `c`, as the transform contracts state them.
pub proof fn lemma_unpack_pack_roundtrip(u: Seq<u8>, c: Seq<u8>, u2: Seq<u8>)
    requires
        packs_to(u, c),
        packs_to(u2, c),
        canonical_fixed(u2),
    ensures
        forall|j: int| 0 <= j < 122 ==> #[trigger] id_bit(u2, free_src(j)) == id_bit(
            u,
            free_src(j),
        ),
        canonical_fixed(u) ==> u2 == u,
{
    assert forall|j: int| 0 <= j < 122 implies #[trigger] id_bit(u2, free_src(j)) == id_bit(
        u,
        free_src(j),
    ) by {
        assert(compact_bit(c, j) == id_bit(u, free_src(j)));
        assert(compact_bit(c, j) == id_bit(u2, free_src(j)));
    }
    if canonical_fixed(u) {
        assert forall|i: int| 0 <= i < 16 implies u[i] == u2[i] by {
            assert forall|b: u8| b < 8 implies bit_get(u[i], b) == bit_get(u2[i], b) by {
                let k: int = 8 * i + 7 - b;
                assert(k / 8 == i && 7 - k % 8 == b);
                if is_fixed_pos(k) {
                    lemma_version_mask(u[6]);
                    lemma_version_mask(u2[6]);
                    lemma_variant_mask(u[8]);
                    lemma_variant_mask(u2[8]);
                } else {
                    lemma_free_maps(free_inv(k), k);
                    let j = free_inv(k);
                    assert(id_bit(u2, free_src(j)) == id_bit(u, free_src(j)));
                }
            }
            lemma_byte_eq(u[i], u2[i]);
        }
        assert(u =~= u2);
    }
}

/// A packed payload's reserved bits read as a zero mask on its last byte:
/// the form the decode contracts state the padding check in.
pub proof fn lemma_packed_padding(u: Seq<u8>, c: Seq<u8>)
    requires
        packs_to(u, c),
    ensures
        c[15] & PADDING_MASK == 0,
{
    assert forall|b: u8| 2 <= b < 8 implies !bit_get(c[15], b) by {
        assert(!compact_bit(c, 120 + b));
    }
    lemma_padding_mask(c[15]);
}

/// Round trip through the text codec: the text encoded from a canonical
/// identifier decodes successfully, and back to that identifier exactly.
/// Here `c` is the payload packed from `u` and `s` its text, as the encode
/// contracts state them, and `u2` is any identifier the decode contracts
/// admit for `s`.
pub proof fn lemma_text_roundtrip(u: Seq<u8>, c: Seq<u8>, u2: Seq<u8>, s: Seq<char>)
    requires
        packs_to(u, c),
        canonical_fixed(u),
        s == base45_encoding(c),
        canonical_fixed(u2),
        forall|b: Seq<u8>| (#[trigger] base45_encoding(b)) == s ==> packs_to(u2, b),
    ensures
        decode_succeeds(s),
        u2 == u,
{
    lemma_packed_padding(u, c);
    assert(packs_to(u2, c));
    lemma_unpack_pack_roundtrip(u, c, u2);
}

/// Re-encode stability: encoding the identifier decoded from a text
/// reproduces that text exactly. Here `b` is the payload the text `s`
/// encodes, `u` the identifier unpacked from it, and `c` any payload packed
/// from `u` again, as the codec contracts state them; the text of `c` is
/// the original `s`.
pub proof fn lemma_reencode_stable(s: Seq<char>, b: Seq<u8>, u: Seq<u8>, c: Seq<u8>)
    requires
        base45_encoding(b) == s,
        packs_to(u, b),
        packs_to(u, c),
    ensures
        base45_encoding(c) == s,
{
    lemma_pack_deterministic(u, b, c);
}

} // verus!
