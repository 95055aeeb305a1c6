use lolid::{byte_to_hex, hex_to_byte, ParseError, Timestamp, Uuid, Version};

#[test]
fn should_convert_byte_to_hex() {
    assert_eq!([byte_to_hex(254, 1), byte_to_hex(254, 0)], *b"fe");
    assert_eq!([byte_to_hex(255, 1), byte_to_hex(255, 0)], *b"ff");
    assert_eq!([byte_to_hex(1, 1), byte_to_hex(1, 0)], *b"01");
    assert_eq!([byte_to_hex(15, 1), byte_to_hex(15, 0)], *b"0f");
    assert_eq!([byte_to_hex(0, 1), byte_to_hex(0, 0)], *b"00");
}

#[test]
fn hex_codec_round_trips_every_byte() {
    for b in 0..=255u8 {
        let text = [byte_to_hex(b, 1), byte_to_hex(b, 0)];
        assert_eq!(hex_to_byte(&text, 0), Ok(b));
    }
}

#[test]
fn hex_to_byte_accepts_both_cases() {
    assert_eq!(hex_to_byte(b"aF", 0), Ok(0xaf));
    assert_eq!(hex_to_byte(b"xx9A", 2), Ok(0x9a));
}

#[test]
fn hex_to_byte_reports_left_character_first() {
    assert_eq!(hex_to_byte(b"gz", 0), Err(ParseError::InvalidByte(b'g', 0)));
    assert_eq!(hex_to_byte(b"0z", 0), Err(ParseError::InvalidByte(b'z', 1)));
    assert_eq!(hex_to_byte(b"--0:", 2), Err(ParseError::InvalidByte(b':', 3)));
}

#[test]
fn nil_formats_to_zeros() {
    let nil = Uuid::nil();
    assert_eq!(nil.to_str().as_str(), "00000000-0000-0000-0000-000000000000");
    assert_eq!(nil.bytes(), [0u8; 16]);
    assert_eq!(Uuid::default(), nil);
}

#[test]
fn format_then_parse_gives_the_same_uuid() {
    let samples = [
        [0u8; 16],
        [0xff; 16],
        [0x12, 0x34, 0x56, 0x78, 0x9a, 0xbc, 0xde, 0xf0, 0x0f, 0xed, 0xcb, 0xa9, 0x87, 0x65, 0x43, 0x21],
    ];
    for bytes in samples.iter() {
        let uuid = Uuid::from_bytes(*bytes);
        let text = uuid.to_str();
        assert_eq!(text.as_bytes().len(), 36);
        assert_eq!(Uuid::parse_str(text.as_str()), Ok(uuid));
        assert_eq!(Uuid::parse_ascii_bytes(text.as_bytes()), Ok(uuid));
    }
}

#[test]
fn formats_lowercase_with_hyphens() {
    let uuid = Uuid::from_bytes([
        0x6b, 0xa7, 0xb8, 0x10, 0x9d, 0xad, 0x11, 0xd1, 0x80, 0xb4, 0x00, 0xc0, 0x4f, 0xd4, 0x30, 0xc8,
    ]);
    assert_eq!(uuid.to_str().as_str(), "6ba7b810-9dad-11d1-80b4-00c04fd430c8");
    assert_eq!(Uuid::namespace_dns(), uuid);
}

#[test]
fn parse_is_case_insensitive() {
    let upper = Uuid::parse_str("6BA7B810-9DAD-11D1-80B4-00C04FD430C8");
    let lower = Uuid::parse_str("6ba7b810-9dad-11d1-80b4-00c04fd430c8");
    assert!(upper.is_ok());
    assert_eq!(upper, lower);
    assert_eq!(lower, Ok(Uuid::namespace_dns()));
}

#[test]
fn parse_accepts_compact_form() {
    let compact = Uuid::parse_str("6ba7b8119dad11d180b400c04fd430c8");
    assert_eq!(compact, Ok(Uuid::namespace_url()));
    let parsed: Uuid = "6ba7b812-9dad-11d1-80b4-00c04fd430c8".parse().unwrap();
    assert_eq!(parsed, Uuid::namespace_oid());
}

#[test]
fn parse_rejects_other_lengths() {
    let base = "6ba7b8149dad11d180b400c04fd430c8aaaaaaaa";
    for len in [0usize, 31, 33, 35, 37, 40] {
        assert_eq!(Uuid::parse_str(&base[..len]), Err(ParseError::InvalidLength(len)));
    }
    assert_eq!(Uuid::parse_str(&base[..32]), Ok(Uuid::namespace_x500()));
}

#[test]
fn parse_checks_separators_before_digits() {
    assert_eq!(
        Uuid::parse_str("6ba7b810-9dadx11d1-80b4-00c04fd430c8"),
        Err(ParseError::InvalidGroup(2))
    );
    assert_eq!(
        Uuid::parse_str("g0000000x0000-0000-0000-000000000000"),
        Err(ParseError::InvalidGroup(1))
    );
    assert_eq!(
        Uuid::parse_str("00000000-0000-0000x0000-000000000000"),
        Err(ParseError::InvalidGroup(3))
    );
    assert_eq!(
        Uuid::parse_str("00000000-0000-0000-0000x000000000000"),
        Err(ParseError::InvalidGroup(4))
    );
}

#[test]
fn parse_stops_at_first_invalid_character() {
    assert_eq!(
        Uuid::parse_str("g0000000-0000-0000-0000-000000000000"),
        Err(ParseError::InvalidByte(b'g', 0))
    );
    assert_eq!(
        Uuid::parse_str("00000000-0000-0000-0000-00000000000z"),
        Err(ParseError::InvalidByte(b'z', 35))
    );
    assert_eq!(
        Uuid::parse_str("00000000-0Z00-0000-0000-00000000000z"),
        Err(ParseError::InvalidByte(b'Z', 10))
    );
    assert_eq!(
        Uuid::parse_str("0000000000000000000000000000000-"),
        Err(ParseError::InvalidByte(b'-', 31))
    );
}

#[test]
fn set_variant_and_version_are_idempotent() {
    let uuid = Uuid::from_bytes([0xff; 16]);
    let once = uuid.set_variant();
    assert_eq!(once.set_variant(), once);
    assert_eq!(once.bytes()[8], 0xbf);
    assert!(once.is_variant());
    assert!(!uuid.is_variant());
    let versioned = uuid.set_version(Version::Sha1);
    assert_eq!(versioned.set_version(Version::Sha1), versioned);
    assert_eq!(versioned.bytes()[6], 0x5f);
    assert!(versioned.is_version(Version::Sha1));
    assert!(!versioned.is_version(Version::Md5));
}

#[test]
fn v4_from_sets_version_and_variant() {
    for bytes in [[0u8; 16], [0xff; 16], [0x5a; 16]] {
        let uuid = Uuid::v4_from(bytes);
        assert_eq!(uuid, Uuid::v4_from(bytes));
        assert!(uuid.is_version(Version::Random));
        assert!(uuid.is_variant());
        assert_eq!(uuid.bytes()[6] >> 4, 4);
        assert_eq!(uuid.bytes()[8] >> 6, 2);
    }
    assert_eq!(Uuid::v4_from([0; 16]).to_str().as_str(), "00000000-0000-4000-8000-000000000000");
}

#[test]
fn v4_prng_sets_version_and_variant() {
    let rand = squares_rnd::Rand::new(1);
    let first = Uuid::v4_prng(&rand);
    let second = Uuid::v4_prng(&rand);
    assert!(first.is_version(Version::Random) && first.is_variant());
    assert!(second.is_version(Version::Random) && second.is_variant());
    assert_ne!(first, second);
}

#[test]
fn v4_from_words_lays_out_lower_half_first() {
    let uuid = Uuid::v4_from_words(0x0f0e0d0c0b0a0908, 0x0706050403020100);
    assert_eq!(uuid.to_str().as_str(), "00010203-0405-4607-8809-0a0b0c0d0e0f");
}

#[test]
fn v1_known_vector() {
    let uuid = Uuid::v1(Timestamp::from_parts(0, 0), [1, 2, 3, 4, 5, 6]);
    assert_eq!(uuid.time_high_and_version() >> 12, 1);
    assert_eq!(uuid.node(), [1, 2, 3, 4, 5, 6]);
    assert!(uuid.is_version(Version::Mac));
    assert!(uuid.is_variant());
    assert_eq!(uuid.to_str().as_str(), "00000000-0000-1000-8000-010203040506");
}

#[test]
fn v1_splits_ticks_and_counter() {
    let ts = Timestamp::from_parts(0x0123_4567_89ab_cdef, 0).set_counter(0x3fff);
    assert_eq!(ts.into_parts(), (0x0123_4567_89ab_cdef, 0x3fff));
    let uuid = Uuid::v1(ts, [1, 2, 3, 4, 5, 6]);
    assert_eq!(uuid.to_str().as_str(), "89abcdef-4567-1123-bfff-010203040506");
    assert_eq!(uuid.time_low(), 0x89ab_cdef);
    assert_eq!(uuid.time_mid(), 0x4567);
    assert_eq!(uuid.time_high_and_version(), 0x1123);
    assert_eq!(uuid.clock_sequence(), 0xbfff);
}

#[test]
fn from_guid_swaps_integer_fields() {
    let uuid = Uuid::from_guid(0xAABBCCDD, 0x1122, 0x3344, [0; 8]);
    assert_eq!(
        uuid.bytes(),
        [0xDD, 0xCC, 0xBB, 0xAA, 0x22, 0x11, 0x44, 0x33, 0, 0, 0, 0, 0, 0, 0, 0]
    );
    let tail = Uuid::from_guid(0, 0, 0, [1, 2, 3, 4, 5, 6, 7, 8]);
    assert_eq!(&tail.as_bytes()[8..], &[1, 2, 3, 4, 5, 6, 7, 8]);
}

#[test]
fn from_slice_needs_sixteen_bytes() {
    assert_eq!(Uuid::from_slice(&[7u8; 15]), None);
    assert_eq!(Uuid::from_slice(&[7u8; 17]), None);
    assert_eq!(Uuid::from_slice(&[7u8; 16]), Some(Uuid::from_bytes([7; 16])));
    assert_eq!(Uuid::from([7u8; 16]), Uuid::from_bytes([7; 16]));
    let uuid = Uuid::from_bytes([7; 16]);
    let as_ref: &[u8] = uuid.as_ref();
    assert_eq!(as_ref, &[7u8; 16]);
}

#[test]
fn v3_known_vector() {
    let uuid = Uuid::v3(Uuid::namespace_dns(), b"python.org");
    assert_eq!(uuid.to_str().as_str(), "6fa459ea-ee8a-3ca4-894e-db77e160355e");
    assert_eq!(Uuid::v3(Uuid::namespace_dns(), b"python.org"), uuid);
    assert_ne!(Uuid::v3(Uuid::namespace_dns(), b"python.orh"), uuid);
    assert!(uuid.is_version(Version::Md5) && uuid.is_variant());
}

#[test]
fn v5_known_vector() {
    let uuid = Uuid::v5(Uuid::namespace_dns(), b"python.org");
    assert_eq!(uuid.to_str().as_str(), "886313e1-3b8a-5372-9b90-0c9aee199e5d");
    assert_eq!(Uuid::v5(Uuid::namespace_dns(), b"python.org"), uuid);
    assert_ne!(Uuid::v5(Uuid::namespace_dns(), b"Python.org"), uuid);
    assert!(uuid.is_version(Version::Sha1) && uuid.is_variant());
}

#[test]
fn digest_constructors_set_bits() {
    let v3 = Uuid::v3_from([0xff; 16]);
    assert_eq!(v3.to_str().as_str(), "ffffffff-ffff-3fff-bfff-ffffffffffff");
    let mut digest = [0u8; 20];
    digest[16] = 0xff;
    let v5 = Uuid::v5_from(digest);
    assert_eq!(v5.to_str().as_str(), "00000000-0000-5000-8000-000000000000");
}

#[test]
fn from_unix_adds_gregorian_offset() {
    let epoch = Timestamp::from_unix(std::time::Duration::from_secs(0));
    assert_eq!(epoch.into_parts(), (0x01B2_1DD2_1381_4000, 0));
    let later = Timestamp::from_unix(std::time::Duration::new(1, 250));
    assert_eq!(later.into_parts(), (0x01B2_1DD2_1381_4000 + 10_000_002, 0));
    assert_eq!(
        Timestamp::from_unix_parts(1, 250).into_parts(),
        (0x01B2_1DD2_1381_4000 + 10_000_002, 0)
    );
}

#[test]
fn text_compares_with_strings() {
    let text = Uuid::nil().to_str();
    let expected = "00000000-0000-0000-0000-000000000000";
    assert!(text == expected);
    assert!(expected == text);
    assert!(text == *expected);
    assert!(*expected == text);
    assert!(!(text == "00000000-0000-0000-0000-000000000001"));
    assert!(!("0000" == text));
    assert_eq!(&*text, expected);
    assert_eq!(text.len(), 36);
}
