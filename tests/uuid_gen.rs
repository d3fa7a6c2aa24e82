use devtools_core::uuid_gen::{format_uuid, generate_uuid, new_uuid, UuidVersion};
use std::collections::HashSet;
use std::time::{SystemTime, UNIX_EPOCH};
use uuid::Uuid;

#[test]
fn test_generates_one_uuid() {
    let uuids = generate_uuid(1, UuidVersion::V4, false, true);
    assert_eq!(uuids.len(), 1);
}

#[test]
fn test_generates_multiple_unique_uuids() {
    let uuids = generate_uuid(100, UuidVersion::V4, false, true);
    let unique_uuids: Vec<&String> = uuids
        .iter()
        .collect::<HashSet<&String>>()
        .into_iter()
        .collect();
    assert_eq!(uuids.len(), 100);
    assert_eq!(unique_uuids.len(), 100);
}

#[test]
fn test_generates_uuid_v4() {
    let uuids = generate_uuid(1, UuidVersion::V4, false, false);
    assert_eq!(uuids.len(), 1);
    assert_eq!(uuids[0].len(), 32);

    let parsed = Uuid::parse_str(&uuids[0]).unwrap();
    assert_eq!(parsed.get_version_num(), 4);
    assert_eq!(parsed.get_version(), Some(uuid::Version::Random));
    assert_eq!(parsed.get_variant(), uuid::Variant::RFC4122);
}

#[test]
fn test_generates_uuid_v7() {
    let uuids = generate_uuid(1, UuidVersion::V7, false, false);
    assert_eq!(uuids.len(), 1);
    assert_eq!(uuids[0].len(), 32);

    let parsed = Uuid::parse_str(&uuids[0]).unwrap();
    assert_eq!(parsed.get_version_num(), 7);
    assert_eq!(parsed.get_version(), Some(uuid::Version::SortRand));
    assert_eq!(parsed.get_variant(), uuid::Variant::RFC4122);

    // The timestamp lies within the last minute.
    let timestamp = parsed.get_timestamp().unwrap();
    let now = SystemTime::now()
        .duration_since(UNIX_EPOCH)
        .unwrap()
        .as_secs();
    let (timestamp_secs, _) = timestamp.to_unix();
    assert!(timestamp_secs <= now);
    assert!(timestamp_secs > now - 60);
}

#[test]
fn test_format_with_hyphens() {
    let uuids = generate_uuid(1, UuidVersion::V7, false, true);
    let uuid = &uuids[0];

    assert_eq!(uuid.chars().filter(|&c| c == '-').count(), 4);

    // 8-4-4-4-12
    assert_eq!(uuid.chars().nth(8), Some('-'));
    assert_eq!(uuid.chars().nth(13), Some('-'));
    assert_eq!(uuid.chars().nth(18), Some('-'));
    assert_eq!(uuid.chars().nth(23), Some('-'));
}

#[test]
fn test_format_without_hyphens() {
    let uuids = generate_uuid(1, UuidVersion::V7, false, false);
    let uuid = &uuids[0];

    assert_eq!(uuid.len(), 32);
    assert!(!uuid.contains('-'));
}

#[test]
fn test_format_uppercase() {
    let uuids = generate_uuid(1, UuidVersion::V7, true, false);
    let uuid = &uuids[0];

    assert!(uuid.chars().all(|c| !c.is_alphabetic() || c.is_uppercase()));
    assert!(uuid.chars().any(|c| c.is_uppercase()));
}

#[test]
fn test_format_lowercase() {
    let uuids = generate_uuid(1, UuidVersion::V7, false, false);
    let uuid = &uuids[0];

    assert_eq!(uuid.len(), 32);
    assert!(uuid.chars().all(|c| !c.is_alphabetic() || c.is_lowercase()));
    assert!(uuid.chars().any(|c| c.is_lowercase()));
}

#[test]
fn formats_a_known_value_each_way() {
    let value: u128 = 0x67e5504410b1426f9247bb680e5fe0c8;
    assert_eq!(format_uuid(value, false, true), "67e55044-10b1-426f-9247-bb680e5fe0c8");
    assert_eq!(format_uuid(value, false, false), "67e5504410b1426f9247bb680e5fe0c8");
    assert_eq!(format_uuid(value, true, true), "67E55044-10B1-426F-9247-BB680E5FE0C8");
    assert_eq!(format_uuid(value, true, false), "67E5504410B1426F9247BB680E5FE0C8");
}

#[test]
fn new_values_carry_their_version() {
    assert_eq!((new_uuid(UuidVersion::V4) >> 76) & 0xf, 4);
    assert_eq!((new_uuid(UuidVersion::V7) >> 76) & 0xf, 7);
}

#[test]
fn zero_uuids_requested() {
    assert!(generate_uuid(0, UuidVersion::V4, true, true).is_empty());
}

#[test]
fn every_format_has_its_length_and_case() {
    for version in [UuidVersion::V4, UuidVersion::V7] {
        for uppercase in [false, true] {
            for hyphens in [false, true] {
                for u in generate_uuid(5, version, uppercase, hyphens) {
                    assert_eq!(u.len(), if hyphens { 36 } else { 32 });
                    assert!(u.chars().all(|c| c.is_ascii_hexdigit() || c == '-'));
                    if uppercase {
                        assert!(!u.chars().any(|c| ('a'..='f').contains(&c)));
                    } else {
                        assert!(!u.chars().any(|c| ('A'..='F').contains(&c)));
                    }
                    let parsed = Uuid::parse_str(&u).unwrap();
                    assert_eq!(parsed.get_variant(), uuid::Variant::RFC4122);
                }
            }
        }
    }
}
