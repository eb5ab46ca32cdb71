use uuid45::UuidV4;
use uuid45::Uuid45Error;
use uuid45::compact_bytes_to_uuid;
use uuid45::decode_to_bytes;
use uuid45::decode_to_string;
use uuid45::decode_to_uuid;
use uuid45::encode_uuid;
use uuid45::encode_uuid_bytes;
use uuid45::encode_uuid_str;
use uuid45::generate_v4;
use uuid45::parse_uuid_input;
use uuid45::uuid_to_compact_bytes;

fn lib_uuid(u: uuid::Uuid) -> UuidV4 {
    UuidV4::from_bytes(u.as_bytes().to_vec())
}

#[test]
fn roundtrip_random_v4() {
    for _ in 0..200 {
        let u = generate_v4();
        let s = encode_uuid(&u);
        let d = decode_to_uuid(&s).unwrap();
        assert_eq!(u, d);
    }
}

#[test]
fn known_uuid_roundtrip() {
    let u = uuid::Uuid::parse_str("550e8400-e29b-41d4-a716-446655440000").unwrap();
    // Ensure version=4 and variant RFC4122
    assert_eq!(u.get_version_num(), 4);
    assert!(matches!(u.get_variant(), uuid::Variant::RFC4122));
    let lu = lib_uuid(u);
    let s = encode_uuid(&lu);
    let d = decode_to_uuid(&s).unwrap();
    assert_eq!(lu, d);
}

#[test]
fn padding_bits_zero() {
    let u = uuid::Uuid::parse_str("ffffffff-ffff-4fff-bfff-ffffffffffff").unwrap();
    // Encode and decode
    let enc = encode_uuid(&lib_uuid(u));
    let raw = qr_base45::decode(&enc).unwrap();
    assert_eq!(raw.len(), 16);
    assert_eq!(raw[15] & 0b1111_1100, 0);
}

#[test]
fn invalid_base45_char() {
    assert!(qr_base45::decode("A\u{f0}\u{178}\u{2dc}\u{20ac}").is_err());
    assert!(qr_base45::decode("a").is_err()); // lowercase not allowed
}

#[test]
fn invalid_base45_dangling() {
    assert!(qr_base45::decode("A").is_err()); // dangling single char
}

#[test]
fn invalid_base45_overflow() {
    // ':::' => a=b=c=44 -> x=91124 > 65535 -> overflow
    assert!(qr_base45::decode(":::").is_err());
}

#[test]
fn non_zero_padding_rejected() {
    let u = generate_v4();
    let s = encode_uuid(&u);
    let mut compact = qr_base45::decode(&s).unwrap();
    assert_eq!(compact.len(), 16);
    // Flip a high padding bit in last byte
    compact[15] |= 0b0001_0000;
    let err = compact_bytes_to_uuid(&compact).unwrap_err();
    match err {
        Uuid45Error::NonZeroPadding => {}
        _ => panic!("expected NonZeroPadding, got {err:?}"),
    }
}

#[test]
fn invalid_length_rejected() {
    let u = generate_v4();
    let s = encode_uuid(&u);
    let compact = qr_base45::decode(&s).unwrap();
    let err = compact_bytes_to_uuid(&compact[..15]).unwrap_err();
    match err {
        Uuid45Error::InvalidLength { .. } => {}
        _ => panic!("expected InvalidLength, got {err:?}"),
    }
}

#[test]
fn version_and_variant_preserved() {
    for _ in 0..100 {
        let u = generate_v4();
        let s = encode_uuid(&u);
        let d = decode_to_uuid(&s).unwrap();
        assert_eq!(d.get_version_num(), 4);
        let du = uuid::Uuid::from_slice(d.as_bytes()).unwrap();
        assert!(matches!(du.get_variant(), uuid::Variant::RFC4122));
    }
}

#[test]
fn reencode_stability() {
    for _ in 0..50 {
        let u = generate_v4();
        let s1 = encode_uuid(&u);
        let u2 = decode_to_uuid(&s1).unwrap();
        let s2 = encode_uuid(&u2);
        assert_eq!(s1, s2);
    }
}

#[test]
fn extreme_known_values() {
    // Minimal v4/RFC4122 compliant bits
    let u_min = uuid::Uuid::parse_str("00000000-0000-4000-8000-000000000000").unwrap();
    let lu_min = lib_uuid(u_min);
    let s = encode_uuid(&lu_min);
    let d = decode_to_uuid(&s).unwrap();
    assert_eq!(lu_min, d);

    // Maximal within v4/RFC4122 mask already covered by padding_bits_zero
    let u_max = uuid::Uuid::parse_str("ffffffff-ffff-4fff-bfff-ffffffffffff").unwrap();
    let lu_max = lib_uuid(u_max);
    let s2 = encode_uuid(&lu_max);
    let d2 = decode_to_uuid(&s2).unwrap();
    assert_eq!(lu_max, d2);
}

#[test]
fn decode_to_string_reproduces_canonical_text() {
    let text = "550e8400-e29b-41d4-a716-446655440000";
    let s = encode_uuid_str(text).unwrap();
    assert_eq!(decode_to_string(&s).unwrap(), text);
}

#[test]
fn decode_to_bytes_matches_original_bytes() {
    let u = uuid::Uuid::parse_str("550e8400-e29b-41d4-a716-446655440000").unwrap();
    let s = encode_uuid(&lib_uuid(u));
    assert_eq!(decode_to_bytes(&s).unwrap(), u.as_bytes().to_vec());
}

#[test]
fn pack_concrete_extremes() {
    // All free bits zero: the compact payload is all zero.
    let zero = uuid::Uuid::parse_str("00000000-0000-4000-8000-000000000000").unwrap();
    let c = uuid_to_compact_bytes(zero.as_bytes()).unwrap();
    assert_eq!(c, vec![0u8; 16]);

    // All free bits one: 122 one bits, then 6 zero padding bits.
    let ones = uuid::Uuid::parse_str("ffffffff-ffff-4fff-bfff-ffffffffffff").unwrap();
    let c = uuid_to_compact_bytes(ones.as_bytes()).unwrap();
    let mut expected = vec![0xFFu8; 16];
    expected[15] = 0b0000_0011;
    assert_eq!(c, expected);
}

#[test]
fn unpack_reverses_pack_exactly() {
    let u = uuid::Uuid::parse_str("550e8400-e29b-41d4-a716-446655440000").unwrap();
    let c = uuid_to_compact_bytes(u.as_bytes()).unwrap();
    let back = compact_bytes_to_uuid(&c).unwrap();
    assert_eq!(back, u.as_bytes().to_vec());
}

#[test]
fn pack_is_lenient_and_unpack_normalizes() {
    // A version-1 identifier: packing does not reject it, and reconstruction
    // forces the canonical version and variant bits while keeping every free
    // bit.
    let v1 = uuid::Uuid::parse_str("550e8400-e29b-11d4-a716-446655440000").unwrap();
    let c = uuid_to_compact_bytes(v1.as_bytes()).unwrap();
    let back = compact_bytes_to_uuid(&c).unwrap();
    let normalized = uuid::Uuid::parse_str("550e8400-e29b-41d4-a716-446655440000").unwrap();
    assert_eq!(back, normalized.as_bytes().to_vec());
}

#[test]
fn seventeen_byte_payload_rejected() {
    let mut compact = vec![0u8; 17];
    compact[0] = 1;
    let err = compact_bytes_to_uuid(&compact).unwrap_err();
    match err {
        Uuid45Error::InvalidLength { expected, actual } => {
            assert_eq!(expected, 16);
            assert_eq!(actual, 17);
        }
        _ => panic!("expected InvalidLength, got {err:?}"),
    }
}

#[test]
fn fifteen_byte_payload_reports_lengths() {
    let err = compact_bytes_to_uuid(&[0u8; 15]).unwrap_err();
    match err {
        Uuid45Error::InvalidLength { expected, actual } => {
            assert_eq!(expected, 16);
            assert_eq!(actual, 15);
        }
        _ => panic!("expected InvalidLength, got {err:?}"),
    }
}

#[test]
fn encode_uuid_str_rejects_bad_text() {
    let err = encode_uuid_str("not an identifier").unwrap_err();
    assert!(matches!(err, Uuid45Error::InvalidUuid(_)));
}

#[test]
fn decode_rejects_malformed_text_with_invalid_base45() {
    for bad in ["a", "A", ":::", "A\u{f0}\u{178}\u{2dc}\u{20ac}"] {
        let err = decode_to_uuid(bad).unwrap_err();
        assert!(matches!(err, Uuid45Error::InvalidBase45(_)), "input {bad:?}");
    }
}

#[test]
fn parse_uuid_input_accepts_canonical_and_hex_forms() {
    let expected = uuid::Uuid::parse_str("550e8400-e29b-41d4-a716-446655440000")
        .unwrap()
        .as_bytes()
        .to_vec();
    let canonical = parse_uuid_input("550e8400-e29b-41d4-a716-446655440000").unwrap();
    assert_eq!(canonical, expected);
    let hex32 = parse_uuid_input("550e8400e29b41d4a716446655440000").unwrap();
    assert_eq!(hex32, expected);
    let upper = parse_uuid_input("550E8400E29B41D4A716446655440000").unwrap();
    assert_eq!(upper, expected);
}

#[test]
fn parse_uuid_input_rejects_other_text() {
    let err = parse_uuid_input("550e8400e29b41d4a71644665544000g").unwrap_err();
    assert!(matches!(err, Uuid45Error::InvalidUuid(_)));
    let err = parse_uuid_input("").unwrap_err();
    assert!(matches!(err, Uuid45Error::InvalidUuid(_)));
}

#[test]
fn encode_uuid_bytes_matches_encode_uuid() {
    let u = uuid::Uuid::parse_str("ffffffff-ffff-4fff-bfff-ffffffffffff").unwrap();
    let via_bytes = encode_uuid_bytes(u.as_bytes());
    let via_value = encode_uuid(&lib_uuid(u));
    assert_eq!(via_bytes, via_value);
}
