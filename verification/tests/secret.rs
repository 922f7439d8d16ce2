use std::collections::hash_map::DefaultHasher;
use std::hash::{Hash, Hasher};

use pokedraft::secret::{hash_secret, hash_uuid, issue_secret, secret_from_key};
use uuid::{Uuid, Variant, Version};

fn plain_hash(uuid: &Uuid) -> i64 {
    let mut hasher = DefaultHasher::new();
    uuid.hash(&mut hasher);
    hasher.finish() as i64
}

#[test]
fn hash_is_that_of_the_uuid() {
    for key in [0u128, 1, 0xa1a2a3a4b1b2c1c2d1d2d3d4d5d6d7d8, u128::MAX] {
        assert_eq!(hash_uuid(key), plain_hash(&Uuid::from_u128(key)));
    }
}

#[test]
fn hash_is_that_of_the_sixteen_bytes_in_one_write() {
    let key = 0xa1a2a3a4b1b2c1c2d1d2d3d4d5d6d7d8u128;
    let mut hasher = DefaultHasher::new();
    hasher.write(&key.to_be_bytes());
    assert_eq!(hash_uuid(key), hasher.finish() as i64);
}

#[test]
fn hash_tells_keys_apart() {
    assert_ne!(hash_uuid(1), hash_uuid(2));
    assert_ne!(hash_uuid(1), 1);
}

#[test]
fn secret_text_is_hyphenated_lower_case() {
    let (hash, text) = secret_from_key(0xA1A2A3A4B1B2C1C2D1D2D3D4D5D6D7D8);
    assert_eq!(text, "a1a2a3a4-b1b2-c1c2-d1d2-d3d4d5d6d7d8");
    assert_eq!(hash, hash_uuid(0xa1a2a3a4b1b2c1c2d1d2d3d4d5d6d7d8));
    assert_eq!(secret_from_key(0).1, "00000000-0000-0000-0000-000000000000");
    assert_eq!(secret_from_key(0x0123456789abcdef0123456789abcdef).1, "01234567-89ab-cdef-0123-456789abcdef");
}

#[test]
fn secret_text_hashes_to_the_stored_hash() {
    let (hash, text) = secret_from_key(0x550e8400e29b41d4a716446655440000);
    assert_eq!(hash_secret(&text), Some(hash));
}

#[test]
fn hash_secret_reads_the_notations_of_a_uuid() {
    let hash = Some(hash_uuid(0x550e8400e29b41d4a716446655440000));
    assert_eq!(hash_secret("550e8400-e29b-41d4-a716-446655440000"), hash);
    assert_eq!(hash_secret("550E8400-E29B-41D4-A716-446655440000"), hash);
    assert_eq!(hash_secret("550e8400e29b41d4a716446655440000"), hash);
    assert_eq!(hash_secret("urn:uuid:550e8400-e29b-41d4-a716-446655440000"), hash);
}

#[test]
fn hash_secret_refuses_what_is_no_key() {
    assert_eq!(hash_secret(""), None);
    assert_eq!(hash_secret("secret"), None);
    assert_eq!(hash_secret("550e8400-e29b-41d4-a716-44665544000"), None);
    assert_eq!(hash_secret("550e8400-e29b-41d4-a716-44665544000g"), None);
}

#[test]
fn issued_secrets_are_random_keys() {
    let (hash, text) = issue_secret();
    let uuid = Uuid::parse_str(&text).unwrap();
    assert_eq!(uuid.get_version(), Some(Version::Random));
    assert_eq!(uuid.get_variant(), Variant::RFC4122);
    assert_eq!(uuid.as_u128() & 0xf000_c000_0000_0000_0000, 0x4000_8000_0000_0000_0000);
    assert_eq!(text.len(), 36);
    assert_eq!(text, uuid.to_string());
    assert_eq!(hash, plain_hash(&uuid));
    assert_eq!(hash_secret(&text), Some(hash));
}

#[test]
fn issued_secrets_differ() {
    let (_, first) = issue_secret();
    let (_, second) = issue_secret();
    assert_ne!(first, second);
}
