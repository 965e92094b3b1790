use std::collections::HashSet;
use std::time::{SystemTime, UNIX_EPOCH};

use object_id::{is_object_id, parse_idc, parse_time, IdError, IdGenerator, Timestamp};

const ALPHABET: &str = "-0123456789ABCDEFGHIJKLMNOPQRSTUVWXYZ_abcdefghijklmnopqrstuvwxyz";

fn decode24(id: &str) -> Vec<u8> {
    let alphabet = base64::alphabet::Alphabet::new(ALPHABET).unwrap();
    let engine = base64::engine::GeneralPurpose::new(
        &alphabet,
        base64::engine::GeneralPurposeConfig::new().with_encode_padding(false),
    );
    base64::Engine::decode(&engine, &id[..24]).unwrap()
}

fn now_millis() -> u64 {
    SystemTime::now()
        .duration_since(UNIX_EPOCH)
        .unwrap()
        .as_millis() as u64
}

#[test]
fn test_single_threaded_unique_ids() {
    const NUM_IDS: usize = 10_000;
    let mut generator = IdGenerator::new(None).expect("initialization failed");
    let mut ids = HashSet::with_capacity(NUM_IDS);

    for _ in 0..NUM_IDS {
        let id = generator.generate_id();
        assert!(
            ids.insert(id),
            "Duplicate ID generated in single-threaded test"
        );
    }
}

#[test]
fn test_generated_id_length() {
    let mut generator = IdGenerator::new(None).expect("initialization failed");
    for _ in 0..100 {
        let id = generator.generate_id();
        assert_eq!(id.chars().count(), 26);
        assert_eq!(id.len(), 26);
    }
}

#[test]
fn test_round_trip_time() {
    let mut generator = IdGenerator::new(None).expect("initialization failed");
    let before = now_millis();
    let id = generator.generate_id();
    let after = now_millis();
    let parsed = parse_time(&id).expect("generated id must parse");
    assert!(before <= parsed.millis && parsed.millis <= after);
}

#[test]
fn test_site_tag_embedding() {
    let mut generator = IdGenerator::new(Some("AB")).expect("initialization failed");
    for _ in 0..10 {
        let id = generator.generate_id();
        assert!(id.ends_with("AB"));
        assert_eq!(parse_idc(&id), "AB");
    }
}

#[test]
fn test_default_site_tag() {
    let mut generator = IdGenerator::new(None).expect("initialization failed");
    let id = generator.generate_id();
    assert!(id.ends_with("00"));
    assert_eq!(parse_idc(&id), "00");
}

#[test]
fn test_invalid_site_tag_rejected() {
    assert_eq!(IdGenerator::new(Some("A")).err(), Some(IdError::InvalidSiteTag));
    assert_eq!(IdGenerator::new(Some("ABC")).err(), Some(IdError::InvalidSiteTag));
    assert_eq!(IdGenerator::new(Some("a!")).err(), Some(IdError::InvalidSiteTag));
    assert_eq!(IdGenerator::new(Some("")).err(), Some(IdError::InvalidSiteTag));
    assert_eq!(IdGenerator::new(Some("=A")).err(), Some(IdError::InvalidSiteTag));
}

#[test]
fn test_valid_site_tags_accepted() {
    assert!(IdGenerator::new(Some("--")).is_ok());
    assert!(IdGenerator::new(Some("_z")).is_ok());
    assert!(IdGenerator::new(Some("09")).is_ok());
}

#[test]
fn test_parse_time_wrong_length() {
    assert_eq!(parse_time("").err(), Some(IdError::WrongLength));
    assert_eq!(parse_time("abc").err(), Some(IdError::WrongLength));
    assert_eq!(
        parse_time("-------------------------").err(),
        Some(IdError::WrongLength)
    );
    assert_eq!(
        parse_time("---------------------------").err(),
        Some(IdError::WrongLength)
    );
}

#[test]
fn test_parse_time_invalid_encoding() {
    assert_eq!(
        parse_time("!-----------------------00").err(),
        Some(IdError::InvalidEncoding)
    );
    assert_eq!(
        parse_time("-----------------------=00").err(),
        Some(IdError::InvalidEncoding)
    );
    assert_eq!(
        parse_time("----------- ------------00").err(),
        Some(IdError::InvalidEncoding)
    );
}

#[test]
fn test_parse_time_known_values() {
    assert_eq!(
        parse_time("------------------------00"),
        Ok(Timestamp { millis: 0 })
    );
    // '0' is the second alphabet symbol, so the leading six-bit group is 1
    // and the first record byte is 1 << 2 = 4: the timestamp is 4 << 40.
    assert_eq!(
        parse_time("0-----------------------ZZ"),
        Ok(Timestamp {
            millis: 4u64 << 40
        })
    );
}

#[test]
fn test_mint_at_embeds_time() {
    let mut generator = IdGenerator::new(Some("QQ")).expect("initialization failed");
    let id = generator.mint_at(1_700_000_000_000);
    assert_eq!(
        parse_time(&id),
        Ok(Timestamp {
            millis: 1_700_000_000_000
        })
    );
    assert!(id.ends_with("QQ"));

    let id_zero = generator.mint_at(0);
    assert_eq!(parse_time(&id_zero), Ok(Timestamp { millis: 0 }));

    // Only 47 timestamp bits are stored: the marker bit and the bits above
    // it are shed on the way through the record.
    let id_max = generator.mint_at(u64::MAX);
    assert_eq!(
        parse_time(&id_max),
        Ok(Timestamp {
            millis: u64::MAX & 0x7FFF_FFFF_FFFF
        })
    );
}

#[test]
fn test_parse_idc_malformed() {
    assert_eq!(parse_idc(""), "");
    assert_eq!(parse_idc("AB"), "");
    assert_eq!(parse_idc("-------------------------"), "");
    assert_eq!(parse_idc("---------------------------"), "");
}

#[test]
fn test_is_object_id() {
    let mut generator = IdGenerator::new(None).expect("initialization failed");
    let id = generator.generate_id();
    assert!(is_object_id(&id));
    assert!(!is_object_id(""));
    assert!(!is_object_id("not an id"));
    assert!(!is_object_id("!-----------------------00"));
    assert!(is_object_id("------------------------00"));
}

#[test]
fn test_binary_layout_of_generated_ids() {
    let mut generator = IdGenerator::new(Some("XY")).expect("initialization failed");
    let first = generator.generate_id();
    let second = generator.generate_id();
    let b1 = decode24(&first);
    let b2 = decode24(&second);
    assert_eq!(b1.len(), 18);
    assert_eq!(b2.len(), 18);

    // Marker bit: the high bit of the first byte is always set.
    assert_eq!(b1[0] & 0x80, 0x80);
    assert_eq!(b2[0] & 0x80, 0x80);

    // Process tag: bytes 6..9 are the first three digest bytes of the
    // host's network name, and bytes 6..14 agree across identifiers.
    let host = hostname::get().unwrap().to_string_lossy().into_owned();
    let digest = md5::compute(host.as_bytes());
    assert_eq!(&b1[6..9], &digest.0[..3]);
    assert_eq!(&b1[6..14], &b2[6..14]);

    // Sequence: bytes 14..18 advance by exactly one per identifier.
    let c1 = u32::from_be_bytes([b1[14], b1[15], b1[16], b1[17]]);
    let c2 = u32::from_be_bytes([b2[14], b2[15], b2[16], b2[17]]);
    assert_eq!(c1.wrapping_add(1), c2);
}
