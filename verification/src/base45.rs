//! The external Base45 text codec, consumed as a black box at its boundary:
//! the library only relies on the codec being a deterministic, invertible map
//! from byte sequences to printable text that accepts exactly its own output.

use vstd::prelude::*;

verus! {

/// The text the Base45 codec produces for a byte sequence. The exact
/// characters are the codec's own business; contracts reach them only
/// through this name.
pub uninterp spec fn base45_encoding(b: Seq<u8>) -> Seq<char>;

/// Relies on qr_base45::encode: the printable Base45 form of `bytes`,
/// computed from the bytes alone (each two bytes become three alphabet
/// characters, a trailing byte becomes two).
#[verifier::external_body]
pub(crate) fn b45_encode(bytes: &[u8]) -> (r: String)
    ensures
        r@ == base45_encoding(bytes@),
{
    qr_base45::encode(bytes)
}

/// Relies on qr_base45::decode: the inverse of qr_base45::encode. Each
/// accepted three-character group must be alphabet characters carrying a
/// value of at most 65535 and a trailing group must be two characters
/// carrying at most 255, which makes every accepted string the one canonical
/// encoding of its bytes; anything else — an out-of-alphabet character, a
/// dangling single character, an overflowing group — is rejected, with the
/// reason reported as text. So decoding succeeds exactly on the strings that
/// encoding produces, and returns the unique byte sequence encoding to the
/// input.
#[verifier::external_body]
pub(crate) fn b45_decode(s: &str) -> (r: Result<Vec<u8>, String>)
    ensures
        r is Ok <==> exists|b: Seq<u8>| (#[trigger] base45_encoding(b)) == s@,
        r matches Ok(v) ==> forall|b: Seq<u8>| ((#[trigger] base45_encoding(b)) == s@ <==> b
            == v@),
{
    match qr_base45::decode(s) {
        Ok(v) => Ok(v),
        Err(e) => Err(e.to_string()),
    }
}

} // verus!
