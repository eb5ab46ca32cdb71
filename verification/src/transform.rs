//! The core bit-level transform between the canonical 16-byte identifier
//! layout and the 122-bit compact payload, in both directions, with the
//! validation that makes the transform a bijection on canonical identifiers.

use vstd::prelude::*;
use crate::Uuid45Error;
use crate::bits::bit_get;
use crate::bits::get_bit;
use crate::bits::lemma_byte_eq;
use crate::bits::lemma_padding_mask;
use crate::bits::lemma_variant_mask;
use crate::bits::lemma_version_mask;
use crate::bits::lemma_zero_bits;
use crate::bits::set_bit;
use crate::fixed::PADDING_MASK;
use crate::fixed::VARIANT_BYTE;
use crate::fixed::VARIANT_MASK;
use crate::fixed::VARIANT_VALUE;
use crate::fixed::VERSION_BYTE;
use crate::fixed::VERSION_MASK;
use crate::fixed::VERSION_VALUE;
use crate::fixed::count_free;
use crate::fixed::fixed_at;
use crate::fixed::fixed_bit;
use crate::fixed::fixed_val_at;
use crate::fixed::free_index;
use crate::fixed::free_inv;
use crate::fixed::free_src;
use crate::fixed::is_fixed_pos;
use crate::fixed::lemma_free_maps;

verus! {

/// Bit `k` of a 16-byte identifier, counted most-significant-bit-first:
/// bit 0 is the high bit of byte 0.
pub open spec fn id_bit(u: Seq<u8>, k: int) -> bool
    recommends
        u.len() == 16,
        0 <= k < 128,
{
    bit_get(u[k / 8], (7 - k % 8) as u8)
}

/// Bit `j` of a 16-byte compact payload, counted least-significant-bit-first:
/// bit 0 is the low bit of byte 0.
pub open spec fn compact_bit(c: Seq<u8>, j: int) -> bool
    recommends
        c.len() == 16,
        0 <= j < 128,
{
    bit_get(c[j / 8], (j % 8) as u8)
}

/// The compact payload `c` is the packed form of identifier `u`: compact bit
/// `j` carries the `j`-th free identifier bit, and the 6 bits past the 122
/// significant ones are zero padding.
pub open spec fn packs_to(u: Seq<u8>, c: Seq<u8>) -> bool {
    &&& u.len() == 16
    &&& c.len() == 16
    &&& forall|j: int| 0 <= j < 122 ==> #[trigger] compact_bit(c, j) == id_bit(u, free_src(j))
    &&& forall|j: int| 122 <= j < 128 ==> !#[trigger] compact_bit(c, j)
}

/// The identifier's two fixed fields carry their canonical values: version
/// nibble `0100`, variant bits `10`.
pub open spec fn canonical_fixed(u: Seq<u8>) -> bool
    recommends
        u.len() == 16,
{
    &&& u[VERSION_BYTE as int] & VERSION_MASK == VERSION_VALUE
    &&& u[VARIANT_BYTE as int] & VARIANT_MASK == VARIANT_VALUE
}

/// What identifier bit `k` must be when rebuilt from compact payload `c`:
/// fixed positions take their canonical value, every other position takes
/// the corresponding payload bit.
pub open spec fn unpacked_bit(c: Seq<u8>, k: int) -> bool
    recommends
        c.len() == 16,
        0 <= k < 128,
{
    if is_fixed_pos(k) {
        fixed_bit(k)
    } else {
        compact_bit(c, free_inv(k))
    }
}

/// Packs a canonical 16-byte identifier into its 16-byte compact payload:
/// the 122 non-fixed bits, in most-significant-bit-first order, repacked
/// least-significant-bit-first, the 6 high bits of the last byte left zero.
///
/// The fixed positions of the input are dropped without being checked: the
/// caller is trusted to pass an identifier whose version and variant fields
/// are already canonical, and reconstruction forces them anyway. The
/// operation never fails.
pub fn uuid_to_compact_bytes(uuid_bytes: &[u8]) -> (r: Result<Vec<u8>, Uuid45Error>)
    requires
        uuid_bytes@.len() == 16,
    ensures
        r matches Ok(c) && packs_to(uuid_bytes@, c@) && c@[15] & PADDING_MASK == 0,
{
    // Gather the 122 free bits, most-significant-bit-first, skipping the
    // positions the fixed-bit table marks.
    let mut fb: Vec<bool> = Vec::new();
    let mut k: usize = 0;
    while k < 128
        invariant
            k <= 128,
            uuid_bytes@.len() == 16,
            fb@.len() == count_free(k as int),
            forall|j: int| 0 <= j < fb@.len() ==> #[trigger] fb@[j] == id_bit(
                uuid_bytes@,
                free_src(j),
            ),
        decreases 128 - k,
    {
        let byte_idx = k / 8;
        let rem = k % 8;
        let bit = 7 - rem;
        if !fixed_at(byte_idx, bit) {
            let b = uuid_bytes[byte_idx];
            proof {
                assert(free_src(count_free(k as int)) == k as int);
            }
            fb.push(get_bit(b, bit as u8));
        }
        k += 1;
    }
    assert(fb@.len() == 122);

    // Repack least-significant-bit-first into 16 bytes; everything past bit
    // 121 stays zero.
    let mut out: Vec<u8> = Vec::new();
    let mut i: usize = 0;
    while i < 16
        invariant
            i <= 16,
            uuid_bytes@.len() == 16,
            out@.len() == i,
            fb@.len() == 122,
            forall|j: int| 0 <= j < fb@.len() ==> #[trigger] fb@[j] == id_bit(
                uuid_bytes@,
                free_src(j),
            ),
            forall|j: int| 0 <= j < 8 * i && j < 122 ==> #[trigger] compact_bit(out@, j) == fb@[j],
            forall|j: int| 122 <= j < 8 * i ==> !#[trigger] compact_bit(out@, j),
        decreases 16 - i,
    {
        let mut acc: u8 = 0;
        proof {
            lemma_zero_bits();
        }
        let mut t: usize = 0;
        while t < 8
            invariant
                t <= 8,
                i < 16,
                fb@.len() == 122,
                forall|tt: int| 0 <= tt < t ==> #[trigger] bit_get(acc, tt as u8) == (8 * i + tt
                    < 122 && fb@[8 * i + tt]),
                forall|tt: int| t <= tt < 8 ==> !#[trigger] bit_get(acc, tt as u8),
            decreases 8 - t,
        {
            let j = 8 * i + t;
            if j < 122 && *fb.get(j).unwrap() {
                acc = set_bit(acc, t as u8, true);
            }
            t += 1;
        }
        let ghost pre = out@;
        out.push(acc);
        proof {
            assert forall|j: int| 0 <= j < 8 * (i + 1) && j < 122 implies #[trigger] compact_bit(
                out@,
                j,
            ) == fb@[j] by {
                if j < 8 * i {
                    assert(j / 8 < i);
                    assert(out@[j / 8] == pre[j / 8]);
                    assert(compact_bit(pre, j) == fb@[j]);
                } else {
                    assert(j / 8 == i && j % 8 == j - 8 * i);
                    assert(bit_get(acc, (j - 8 * i) as u8) == (8 * i + (j - 8 * i) < 122 && fb@[8
                        * i + (j - 8 * i)]));
                }
            }
            assert forall|j: int| 122 <= j < 8 * (i + 1) implies !#[trigger] compact_bit(
                out@,
                j,
            ) by {
                if j < 8 * i {
                    assert(j / 8 < i);
                    assert(out@[j / 8] == pre[j / 8]);
                    assert(!compact_bit(pre, j));
                } else {
                    assert(j / 8 == i && j % 8 == j - 8 * i);
                    assert(bit_get(acc, (j - 8 * i) as u8) == (8 * i + (j - 8 * i) < 122 && fb@[8
                        * i + (j - 8 * i)]));
                }
            }
        }
        i += 1;
    }

    proof {
        assert forall|j: int| 0 <= j < 122 implies #[trigger] compact_bit(out@, j) == id_bit(
            uuid_bytes@,
            free_src(j),
        ) by {
            assert(compact_bit(out@, j) == fb@[j]);
        }
        assert forall|b: u8| 2 <= b < 8 implies !bit_get(out@[15], b) by {
            assert(!compact_bit(out@, 120 + b));
        }
        lemma_padding_mask(out@[15]);
        assert(packs_to(uuid_bytes@, out@));
    }
    Ok(out)
}

/// Rebuilds the canonical 16-byte identifier from a compact payload.
///
/// The payload must be exactly 16 bytes, else an invalid-length failure
/// reporting the expected and actual lengths; its 6 reserved high bits must
/// be zero, else a non-zero-padding failure, checked before any payload bit
/// is interpreted. On success the fixed positions are forced to their
/// canonical values from the fixed-bit table, never read from the payload,
/// so the result is always structurally valid.
pub fn compact_bytes_to_uuid(compact: &[u8]) -> (r: Result<Vec<u8>, Uuid45Error>)
    ensures
        r is Ok <==> compact@.len() == 16 && compact@[15] & PADDING_MASK == 0,
        r matches Ok(u) ==> packs_to(u@, compact@) && canonical_fixed(u@),
        compact@.len() != 16 ==> (r matches Err(e) && e == (Uuid45Error::InvalidLength {
            expected: 16,
            actual: compact@.len() as usize,
        })),
        compact@.len() == 16 && compact@[15] & PADDING_MASK != 0 ==> (r matches Err(e) && e
            == Uuid45Error::NonZeroPadding),
{
    if compact.len() != 16 {
        return Err(Uuid45Error::InvalidLength { expected: 16, actual: compact.len() });
    }
    if compact[15] & PADDING_MASK != 0 {
        return Err(Uuid45Error::NonZeroPadding);
    }

    let mut out: Vec<u8> = Vec::new();
    let mut i: usize = 0;
    while i < 16
        invariant
            i <= 16,
            out@.len() == i,
            compact@.len() == 16,
            forall|kk: int| 0 <= kk < 8 * i ==> #[trigger] id_bit(out@, kk) == unpacked_bit(
                compact@,
                kk,
            ),
        decreases 16 - i,
    {
        let mut acc: u8 = 0;
        proof {
            lemma_zero_bits();
        }
        let mut p: usize = 0;
        while p < 8
            invariant
                p <= 8,
                i < 16,
                compact@.len() == 16,
                forall|b: int| 8 - p <= b < 8 ==> #[trigger] bit_get(acc, b as u8) == unpacked_bit(
                    compact@,
                    8 * i + 7 - b,
                ),
                forall|b: int| 0 <= b < 8 - p ==> !#[trigger] bit_get(acc, b as u8),
            decreases 8 - p,
        {
            let idx = 7 - p;
            let v = if fixed_at(i, idx) {
                fixed_val_at(i, idx)
            } else {
                let j = free_index(8 * i + p);
                get_bit(compact[j / 8], (j % 8) as u8)
            };
            acc = set_bit(acc, idx as u8, v);
            p += 1;
        }
        let ghost pre = out@;
        out.push(acc);
        proof {
            assert forall|kk: int| 0 <= kk < 8 * (i + 1) implies #[trigger] id_bit(out@, kk)
                == unpacked_bit(compact@, kk) by {
                if kk < 8 * i {
                    assert(kk / 8 < i);
                    assert(out@[kk / 8] == pre[kk / 8]);
                    assert(id_bit(pre, kk) == unpacked_bit(compact@, kk));
                } else {
                    assert(kk / 8 == i && kk % 8 == kk - 8 * i);
                    assert(bit_get(acc, (7 - (kk - 8 * i)) as u8) == unpacked_bit(
                        compact@,
                        8 * i + 7 - (7 - (kk - 8 * i)),
                    ));
                }
            }
        }
        i += 1;
    }

    proof {
        assert forall|j: int| 0 <= j < 122 implies #[trigger] compact_bit(compact@, j) == id_bit(
            out@,
            free_src(j),
        ) by {
            lemma_free_maps(j, free_src(j));
            assert(id_bit(out@, free_src(j)) == unpacked_bit(compact@, free_src(j)));
        }
        lemma_padding_mask(compact@[15]);
        assert forall|j: int| 122 <= j < 128 implies !#[trigger] compact_bit(compact@, j) by {
            assert(j / 8 == 15 && 2 <= j % 8 < 8);
            assert(!bit_get(compact@[15], (j % 8) as u8));
        }
        assert(packs_to(out@, compact@));
        // The version nibble was synthesized as 0100 and the variant bits as
        // 10, as the contracts of the fixed-bit table require.
        assert(id_bit(out@, 48) == unpacked_bit(compact@, 48));
        assert(id_bit(out@, 49) == unpacked_bit(compact@, 49));
        assert(id_bit(out@, 50) == unpacked_bit(compact@, 50));
        assert(id_bit(out@, 51) == unpacked_bit(compact@, 51));
        assert(id_bit(out@, 64) == unpacked_bit(compact@, 64));
        assert(id_bit(out@, 65) == unpacked_bit(compact@, 65));
        lemma_version_mask(out@[6]);
        lemma_variant_mask(out@[8]);
        assert(canonical_fixed(out@));
    }
    Ok(out)
}

} // verus!
