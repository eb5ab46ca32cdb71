//! The public codec entry points: encode an identifier (structured, textual
//! or raw) into its compact Base45 text, and decode that text back into the
//! identifier, composing the bit-level transform with the external text
//! codec and identifier parsing and formatting.

use vstd::prelude::*;
use vstd::string::StringExecFns;
use crate::Uuid45Error;
use crate::base45::b45_decode;
use crate::base45::b45_encode;
use crate::base45::base45_encoding;
use crate::fixed::PADDING_MASK;
use crate::text::format_hyphenated;
use crate::text::hex32_bytes;
use crate::text::hyphenated_str;
use crate::text::is_hex32;
use crate::text::parse_hex32;
use crate::transform::canonical_fixed;
use crate::transform::compact_bytes_to_uuid;
use crate::transform::packs_to;
use crate::transform::uuid_to_compact_bytes;
use crate::uuid_str::parse_uuid_text;
use crate::uuid_str::parsed_uuid;

verus! {

/// A 16-byte identifier value, held as plain bytes.
#[derive(Debug, PartialEq, Eq)]
pub struct UuidV4 {
    bytes: Vec<u8>,
}

impl View for UuidV4 {
    type V = Seq<u8>;

    closed spec fn view(&self) -> Seq<u8> {
        self.bytes@
    }
}

impl UuidV4 {
    /// A well-formed identifier holds exactly 16 bytes.
    pub open spec fn wf(&self) -> bool {
        self@.len() == 16
    }

    /// Wraps 16 raw bytes as an identifier.
    pub fn from_bytes(bytes: Vec<u8>) -> (r: UuidV4)
        requires
            bytes@.len() == 16,
        ensures
            r@ == bytes@,
            r.wf(),
    {
        UuidV4 { bytes }
    }

    /// Borrows the identifier's bytes.
    pub fn as_bytes(&self) -> (r: &Vec<u8>)
        ensures
            r@ == self@,
    {
        &self.bytes
    }

    /// The identifier's bytes, owned.
    pub fn into_bytes(self) -> (r: Vec<u8>)
        ensures
            r@ == self@,
    {
        self.bytes
    }

    /// The version number carried by the identifier's version nibble.
    pub fn get_version_num(&self) -> (r: usize)
        requires
            self.wf(),
        ensures
            r == self@[6] / 16,
    {
        (self.bytes[6] / 16) as usize
    }
}

/// Decoding text `s` succeeds exactly when `s` is the Base45 encoding of a
/// 16-byte payload whose 6 reserved high bits are zero.
pub open spec fn decode_succeeds(s: Seq<char>) -> bool {
    exists|b: Seq<u8>|
        (#[trigger] base45_encoding(b)) == s && b.len() == 16 && b[15] & PADDING_MASK == 0
}

/// Which failure decoding text `s` must report: an invalid-text failure when
/// `s` is no Base45 encoding at all, an invalid-length failure naming the
/// expected and actual lengths when the encoded payload is not 16 bytes, and
/// a non-zero-padding failure when its reserved bits are set.
pub open spec fn decode_error_reported(s: Seq<char>, e: Uuid45Error) -> bool {
    &&& (!(exists|b: Seq<u8>| (#[trigger] base45_encoding(b)) == s)
        ==> e matches Uuid45Error::InvalidBase45(_))
    &&& (forall|b: Seq<u8>|
        (#[trigger] base45_encoding(b)) == s && b.len() != 16 ==> e == (
        Uuid45Error::InvalidLength { expected: 16, actual: b.len() as usize }))
    &&& (forall|b: Seq<u8>|
        (#[trigger] base45_encoding(b)) == s && b.len() == 16 && b[15] & PADDING_MASK != 0 ==> e
            == Uuid45Error::NonZeroPadding)
}

/// Encodes an identifier into its compact Base45 text: the identifier is
/// packed to its 122-bit compact payload, and the payload is handed to the
/// text codec. Never fails on a well-formed identifier.
pub fn encode_uuid(uuid: &UuidV4) -> (r: String)
    requires
        uuid.wf(),
    ensures
        exists|c: Seq<u8>| #[trigger] packs_to(uuid@, c) && r@ == base45_encoding(c),
{
    let compact = uuid_to_compact_bytes(uuid.as_bytes().as_slice()).unwrap();
    let r = b45_encode(compact.as_slice());
    proof {
        assert(packs_to(uuid@, compact@) && r@ == base45_encoding(compact@));
    }
    r
}

/// Encodes an identifier given in a textual form the identifier parser
/// accepts; rejects any other text with an invalid-identifier failure.
pub fn encode_uuid_str(s: &str) -> (r: Result<String, Uuid45Error>)
    ensures
        r is Ok <==> parsed_uuid(s@) is Some,
        r matches Ok(t) ==> exists|c: Seq<u8>| #[trigger] packs_to(parsed_uuid(s@).unwrap(), c)
            && t@ == base45_encoding(c),
        r matches Err(e) ==> e matches Uuid45Error::InvalidUuid(_),
{
    match parse_uuid_text(s) {
        Ok(bytes) => {
            let u = UuidV4::from_bytes(bytes);
            let t = encode_uuid(&u);
            proof {
                let c = choose|c: Seq<u8>| #[trigger] packs_to(u@, c) && t@ == base45_encoding(c);
                assert(packs_to(parsed_uuid(s@).unwrap(), c) && t@ == base45_encoding(c));
            }
            Ok(t)
        },
        Err(msg) => Err(Uuid45Error::InvalidUuid(msg)),
    }
}

/// Encodes an identifier given as its raw 16 bytes.
pub fn encode_uuid_bytes(bytes: &[u8; 16]) -> (r: String)
    ensures
        exists|c: Seq<u8>| #[trigger] packs_to(bytes@, c) && r@ == base45_encoding(c),
{
    let compact = uuid_to_compact_bytes(bytes.as_slice()).unwrap();
    let r = b45_encode(compact.as_slice());
    proof {
        assert(packs_to(bytes@, compact@) && r@ == base45_encoding(compact@));
    }
    r
}

/// Decodes compact Base45 text back into the identifier it encodes. The
/// reconstructed identifier carries the canonical version and variant bits,
/// and its free bits are exactly those of the encoded payload.
pub fn decode_to_uuid(s: &str) -> (r: Result<UuidV4, Uuid45Error>)
    ensures
        r is Ok <==> decode_succeeds(s@),
        r matches Ok(u) ==> u.wf() && canonical_fixed(u@) && (forall|b: Seq<u8>|
            (#[trigger] base45_encoding(b)) == s@ ==> packs_to(u@, b)),
        r matches Err(e) ==> decode_error_reported(s@, e),
{
    let bytes = match b45_decode(s) {
        Ok(v) => v,
        Err(msg) => { return Err(Uuid45Error::InvalidBase45(msg)) },
    };
    match compact_bytes_to_uuid(bytes.as_slice()) {
        Ok(arr) => Ok(UuidV4::from_bytes(arr)),
        Err(e) => Err(e),
    }
}

/// Decodes compact Base45 text into the identifier's raw 16 bytes.
pub fn decode_to_bytes(s: &str) -> (r: Result<Vec<u8>, Uuid45Error>)
    ensures
        r is Ok <==> decode_succeeds(s@),
        r matches Ok(v) ==> v@.len() == 16 && canonical_fixed(v@) && (forall|b: Seq<u8>|
            (#[trigger] base45_encoding(b)) == s@ ==> packs_to(v@, b)),
        r matches Err(e) ==> decode_error_reported(s@, e),
{
    match decode_to_uuid(s) {
        Ok(u) => Ok(u.into_bytes()),
        Err(e) => Err(e),
    }
}

/// Decodes compact Base45 text into the identifier's canonical hyphenated
/// text.
pub fn decode_to_string(s: &str) -> (r: Result<String, Uuid45Error>)
    ensures
        r is Ok <==> decode_succeeds(s@),
        r matches Ok(t) ==> exists|u: Seq<u8>|
            {
                &&& #[trigger] canonical_fixed(u)
                &&& forall|b: Seq<u8>| (#[trigger] base45_encoding(b)) == s@ ==> packs_to(u, b)
                &&& t@ == hyphenated_str(u)
            },
        r matches Err(e) ==> decode_error_reported(s@, e),
{
    match decode_to_uuid(s) {
        Ok(u) => {
            let t = format_hyphenated(u.as_bytes().as_slice());
            proof {
                assert(canonical_fixed(u@) && t@ == hyphenated_str(u@));
            }
            Ok(t)
        },
        Err(e) => Err(e),
    }
}

/// Parses an identifier from either a textual form the identifier parser
/// accepts or a 32-digit dashless hexadecimal text, in that order; any other
/// input is rejected with an invalid-identifier failure.
pub fn parse_uuid_input(arg: &str) -> (r: Result<Vec<u8>, Uuid45Error>)
    ensures
        r is Ok <==> (parsed_uuid(arg@) is Some || is_hex32(arg@)),
        r matches Ok(v) ==> v@.len() == 16,
        parsed_uuid(arg@) is Some ==> (r matches Ok(v) && Some(v@) == parsed_uuid(arg@)),
        parsed_uuid(arg@) is None && is_hex32(arg@) ==> (r matches Ok(v) && v@ == hex32_bytes(
            arg@,
        )),
        r matches Err(e) ==> e matches Uuid45Error::InvalidUuid(_),
{
    match parse_uuid_text(arg) {
        Ok(v) => { return Ok(v) },
        Err(_) => {},
    }
    match parse_hex32(arg) {
        Some(v) => Ok(v),
        None => Err(Uuid45Error::InvalidUuid(String::from_str("invalid UUID input format"))),
    }
}

} // verus!
