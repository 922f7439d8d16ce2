//! The secret that a player is handed on joining: a random 128-bit key. The
//! player keeps its text; a session keeps only a hash of the key and compares
//! hashes when the player acts. The hash is a fast general-purpose one: it
//! keeps players from acting for each other by mistake and is no defence
//! against an attacker.

use std::collections::hash_map::DefaultHasher;
use std::hash::{Hash, Hasher};
use uuid::Uuid;
use vstd::prelude::*;
use vstd::std_specs::hash::DefaultHasherAdditionalSpecFns;

verus! {

/// The sixteen bytes of a key, most significant first.
pub open spec fn key_bytes(key: u128) -> Seq<u8> {
    Seq::new(16, |i: int| ((key >> (((15 - i) * 8) as u128)) & 0xff) as u8)
}

/// The hash that a session stores for a key: what the standard hasher makes
/// of the key's sixteen bytes written in one piece, read as a signed number.
pub open spec fn key_hash(key: u128) -> i64 {
    DefaultHasher::spec_finish(seq![key_bytes(key)]) as i64
}

/// The sixteen hexadecimal digits, in lower case.
pub open spec fn hex_digit(nibble: u128) -> char
    recommends
        nibble < 16,
{
    seq![
        '0', '1', '2', '3', '4', '5', '6', '7', '8', '9', 'a', 'b', 'c', 'd', 'e', 'f',
    ][nibble as int]
}

/// The number of hyphens that stand before place `pos` of a key's text.
pub open spec fn hyphens_before(pos: int) -> int {
    if pos < 8 {
        0
    } else if pos < 13 {
        1
    } else if pos < 18 {
        2
    } else if pos < 23 {
        3
    } else {
        4
    }
}

/// The text of a key: its 32 hexadecimal digits in lower case, most
/// significant first, in groups of 8, 4, 4, 4 and 12 with a hyphen between
/// two groups.
pub open spec fn key_text(key: u128) -> Seq<char> {
    Seq::new(
        36,
        |pos: int|
            if pos == 8 || pos == 13 || pos == 18 || pos == 23 {
                '-'
            } else {
                hex_digit((key >> (((31 - (pos - hyphens_before(pos))) * 4) as u128)) & 0xf)
            },
    )
}

/// The key that a text stands for, if it is the text of a key in one of the
/// notations that the `uuid` crate reads.
pub uninterp spec fn parsed_key(text: Seq<char>) -> Option<u128>;

/// The hash of the key that a text stands for, if it stands for one.
pub open spec fn secret_hash(text: Seq<char>) -> Option<i64> {
    match parsed_key(text) {
        Some(key) => Some(key_hash(key)),
        None => None,
    }
}

/// Draws a key with `Uuid::new_v4`, which asks the operating system for
/// random bits and then marks the key as a random one: the version digit is 4
/// and the two variant bits are `10`. Nothing else is known of the key. The
/// call fails only if the operating system has no random bits to give.
#[verifier::external_body]
pub(crate) fn fresh_key() -> (key: u128)
    ensures
        key & 0xf000_c000_0000_0000_0000 == 0x4000_8000_0000_0000_0000,
{
    Uuid::new_v4().as_u128()
}

/// Feeds a key to a hasher through the `Hash` impl of `Uuid`, which hands the
/// hasher the key's sixteen bytes in a single write.
#[verifier::external_body]
fn write_key(key: u128, state: &mut DefaultHasher)
    ensures
        final(state)@ == old(state)@.push(key_bytes(key)),
{
    Uuid::from_u128(key).hash(state)
}

/// What `Uuid::parse_str` says of a text that it refuses. Nothing is read
/// from it.
#[verifier::external_type_specification]
#[verifier::external_body]
pub struct ExKeyError(uuid::Error);

/// Reads a key with `Uuid::parse_str`. Which texts it accepts is `uuid`'s
/// business: the key it reads from a text, if any, is `parsed_key` of the text.
#[verifier::external_body]
fn parse_key(text: &str) -> (key: Result<u128, uuid::Error>)
    ensures
        match key {
            Ok(read) => parsed_key(text@) == Some(read),
            Err(_) => parsed_key(text@) is None,
        },
{
    match Uuid::parse_str(text) {
        Ok(uuid) => Ok(uuid.as_u128()),
        Err(error) => Err(error),
    }
}

/// Writes a key as `Uuid`'s `Display` does: hyphenated, in lower case. The
/// `uuid` crate reads back every text that it writes.
#[verifier::external_body]
fn format_key(key: u128) -> (text: String)
    ensures
        text@ == key_text(key),
        parsed_key(text@) == Some(key),
{
    format!("{}", Uuid::from_u128(key))
}

/// The hash that a session stores for a key.
pub fn hash_uuid(key: u128) -> (hash: i64)
    ensures
        hash == key_hash(key),
{
    let mut hasher = DefaultHasher::new();
    write_key(key, &mut hasher);
    let finished: u64 = hasher.finish();
    assert(hasher@ =~= seq![key_bytes(key)]);
    #[verifier::truncate]
    (finished as i64)
}

/// The hash of the key that a secret's text stands for, or `None` if the
/// text is no key.
pub fn hash_secret(secret: &str) -> (hash: Option<i64>)
    ensures
        hash == secret_hash(secret@),
{
    match parse_key(secret) {
        Ok(key) => Some(hash_uuid(key)),
        Err(_) => None,
    }
}

/// A secret made from a given key: the hash to store and the text to hand to
/// the player.
pub fn secret_from_key(key: u128) -> (secret: (i64, String))
    ensures
        secret.0 == key_hash(key),
        secret.1@ == key_text(key),
        secret_hash(secret.1@) == Some(secret.0),
{
    (hash_uuid(key), format_key(key))
}

/// A fresh secret: the hash to store and the text to hand to the player. The
/// text is that of some key, and hashing it gives the stored hash again.
pub fn issue_secret() -> (secret: (i64, String))
    ensures
        exists|key: u128| secret.0 == key_hash(key) && secret.1@ == #[trigger] key_text(key),
        secret_hash(secret.1@) == Some(secret.0),
{
    let key: u128 = fresh_key();
    secret_from_key(key)
}

} // verus!
