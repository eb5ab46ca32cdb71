//! The external identifier parser and generator, consumed at their boundary:
//! parsing is a deterministic function of the text, generation promises no
//! more than canonical fixed bits.

use vstd::prelude::*;
use crate::api::UuidV4;
use crate::transform::canonical_fixed;

verus! {

/// The 16 bytes the identifier text parser accepts for `s`, if it accepts
/// `s` at all; a function of the text alone.
pub uninterp spec fn parsed_uuid(s: Seq<char>) -> Option<Seq<u8>>;

/// Relies on uuid::Uuid::parse_str (with uuid::Uuid::into_bytes reading the
/// result): parses an identifier text in any form the parser recognizes into
/// its 16 bytes, deterministically in the text alone; a rejection is
/// reported as text.
#[verifier::external_body]
pub(crate) fn parse_uuid_text(s: &str) -> (r: Result<Vec<u8>, String>)
    ensures
        r is Ok <==> parsed_uuid(s@) is Some,
        r matches Ok(v) ==> parsed_uuid(s@) == Some(v@) && v@.len() == 16,
{
    match uuid::Uuid::parse_str(s) {
        Ok(u) => Ok(u.into_bytes().to_vec()),
        Err(e) => Err(e.to_string()),
    }
}

/// Relies on uuid::Uuid::new_v4: a randomly generated identifier whose
/// version nibble and variant bits the generator forces to their canonical
/// values. Nothing is promised of the remaining 122 bits.
#[verifier::external_body]
pub fn generate_v4() -> (r: UuidV4)
    ensures
        r.wf(),
        canonical_fixed(r@),
{
    UuidV4::from_bytes(uuid::Uuid::new_v4().into_bytes().to_vec())
}

} // verus!
