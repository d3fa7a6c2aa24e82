use vstd::prelude::*;
use crate::text::{ascii_upper_text, is_ascii_text, to_upper};

verus! {

/// Which kind of UUID to generate.
#[derive(Clone, Copy, Debug, PartialEq, Eq, Structural)]
pub enum UuidVersion {
    /// Random.
    V4,
    /// Time-ordered with random bits.
    V7,
}

pub open spec fn version_number(v: UuidVersion) -> u128 {
    match v {
        UuidVersion::V4 => 4,
        UuidVersion::V7 => 7,
    }
}

/// The version field of a UUID held as a big-endian 128-bit number.
pub open spec fn uuid_version(value: u128) -> u128 {
    (value >> 76u128) & 0xfu128
}

/// The variant field (two bits) of a UUID; 2 is the RFC 4122 variant.
pub open spec fn uuid_variant(value: u128) -> u128 {
    (value >> 62u128) & 3u128
}

/// Lower-case hexadecimal digit for `0 <= n < 16`.
pub open spec fn hex_digit(n: int) -> char {
    seq!['0', '1', '2', '3', '4', '5', '6', '7', '8', '9', 'a', 'b', 'c', 'd', 'e', 'f'][n]
}

/// The `i`-th four-bit group of a UUID, most significant first (`0 <= i < 32`).
pub open spec fn nibble(value: u128, i: int) -> int {
    ((value >> ((124 - 4 * i) as u128)) & 0xfu128) as int
}

/// Lower-case hexadecimal text of a UUID, 32 digits without hyphens.
pub open spec fn simple_of(value: u128) -> Seq<char> {
    Seq::new(32, |i: int| hex_digit(nibble(value, i)))
}

/// Lower-case hexadecimal text of a UUID in the 8-4-4-4-12 hyphenated form.
pub open spec fn hyphenated_of(value: u128) -> Seq<char> {
    let d = simple_of(value);
    d.subrange(0, 8) + seq!['-'] + d.subrange(8, 12) + seq!['-'] + d.subrange(12, 16) + seq![
        '-',
    ] + d.subrange(16, 20) + seq!['-'] + d.subrange(20, 32)
}

/// Length of the text of a UUID: 36 with hyphens, 32 without.
pub open spec fn uuid_text_len(hyphens: bool) -> nat {
    if hyphens {
        36
    } else {
        32
    }
}

/// Text of a UUID in the requested format.
pub open spec fn uuid_text(value: u128, uppercase: bool, hyphens: bool) -> Seq<char> {
    let base = if hyphens {
        hyphenated_of(value)
    } else {
        simple_of(value)
    };
    if uppercase {
        ascii_upper_text(base)
    } else {
        base
    }
}

proof fn lemma_nibble_range(value: u128, i: int)
    requires
        0 <= i < 32,
    ensures
        0 <= nibble(value, i) < 16,
{
    let s = (124 - 4 * i) as u128;
    assert(((value >> s) & 0xfu128) < 16u128) by (bit_vector);
}

/// The lower-case texts of a UUID are ASCII, and have 32 and 36 characters.
proof fn lemma_base_text(value: u128, hyphens: bool)
    ensures
        is_ascii_text(
            if hyphens {
                hyphenated_of(value)
            } else {
                simple_of(value)
            },
        ),
        simple_of(value).len() == 32,
        hyphenated_of(value).len() == 36,
        uuid_text(value, false, hyphens).len() == uuid_text_len(hyphens),
        uuid_text(value, true, hyphens).len() == uuid_text_len(hyphens),
{
    let d = simple_of(value);
    assert forall|i: int| 0 <= i < d.len() implies (#[trigger] d[i] as u32) < 128 by {
        lemma_nibble_range(value, i);
        let n = nibble(value, i);
        assert(0 <= n < 16);
    }
    let h = hyphenated_of(value);
    assert forall|i: int| 0 <= i < h.len() implies (#[trigger] h[i] as u32) < 128 by {
        if i < 8 {
            assert(h[i] == d[i]);
        } else if i == 8 || i == 13 || i == 18 || i == 23 {
            assert(h[i] == '-');
        } else if i < 13 {
            assert(h[i] == d[i - 1]);
        } else if i < 18 {
            assert(h[i] == d[i - 2]);
        } else if i < 23 {
            assert(h[i] == d[i - 3]);
        } else {
            assert(h[i] == d[i - 4]);
        }
    }
}

/// `text` is the text of some RFC 4122 UUID of the given version, in the
/// given format.
pub open spec fn is_uuid_text(text: Seq<char>, version: UuidVersion, uppercase: bool, hyphens: bool) -> bool {
    exists|v: u128|
        uuid_version(v) == version_number(version) && uuid_variant(v) == 2 && #[trigger] uuid_text(
            v,
            uppercase,
            hyphens,
        ) == text
}

/// Relies on uuid's `Uuid::new_v4` (read back with `as_u128`): a random UUID
/// whose version field is 4 and whose variant is RFC 4122.
#[verifier::external_body]
fn random_v4() -> (r: u128)
    ensures
        uuid_version(r) == 4,
        uuid_variant(r) == 2,
{
    uuid::Uuid::new_v4().as_u128()
}

/// Relies on uuid's `Uuid::new_v7` over `Timestamp::now(&ContextV7::new())`:
/// a UUID for the current time whose version field is 7 and whose variant is
/// RFC 4122.
#[verifier::external_body]
fn timed_v7() -> (r: u128)
    ensures
        uuid_version(r) == 7,
        uuid_variant(r) == 2,
{
    uuid::Uuid::new_v7(uuid::Timestamp::now(&uuid::ContextV7::new())).as_u128()
}

/// Relies on uuid's `Hyphenated::encode_lower` (of `Uuid::from_u128`, which
/// takes the value big-endian): the lower-case digits in 8-4-4-4-12 groups.
#[verifier::external_body]
fn hyphenated_lower(value: u128) -> (r: String)
    ensures
        r@ == hyphenated_of(value),
{
    let mut buffer = uuid::Uuid::encode_buffer();
    uuid::Uuid::from_u128(value).hyphenated().encode_lower(&mut buffer).to_string()
}

/// Relies on uuid's `Simple::encode_lower` (of `Uuid::from_u128`, which takes
/// the value big-endian): the 32 lower-case digits.
#[verifier::external_body]
fn simple_lower(value: u128) -> (r: String)
    ensures
        r@ == simple_of(value),
{
    let mut buffer = uuid::Uuid::encode_buffer();
    uuid::Uuid::from_u128(value).simple().encode_lower(&mut buffer).to_string()
}

/// Formats a UUID: hyphenated or as 32 plain digits, in lower or upper case.
pub fn format_uuid(value: u128, uppercase: bool, hyphens: bool) -> (r: String)
    ensures
        r@ == uuid_text(value, uppercase, hyphens),
        r@.len() == uuid_text_len(hyphens),
{
    proof {
        lemma_base_text(value, hyphens);
    }
    let base = if hyphens {
        hyphenated_lower(value)
    } else {
        simple_lower(value)
    };
    if uppercase {
        to_upper(base.as_str())
    } else {
        base
    }
}

/// A new RFC 4122 UUID of the given version.
pub fn new_uuid(version: UuidVersion) -> (r: u128)
    ensures
        uuid_version(r) == version_number(version),
        uuid_variant(r) == 2,
{
    match version {
        UuidVersion::V4 => random_v4(),
        UuidVersion::V7 => timed_v7(),
    }
}

/// Generates `number_of_uuids` UUIDs of the given version, each formatted as asked.
pub fn generate_uuid(
    number_of_uuids: u16,
    version: UuidVersion,
    uppercase: bool,
    hyphens: bool,
) -> (r: Vec<String>)
    ensures
        r.len() == number_of_uuids,
        forall|i: int|
            0 <= i < r.len() ==> is_uuid_text((#[trigger] r@[i])@, version, uppercase, hyphens),
        forall|i: int| 0 <= i < r.len() ==> (#[trigger] r@[i])@.len() == uuid_text_len(hyphens),
{
    let mut uuids: Vec<String> = Vec::with_capacity(number_of_uuids as usize);
    let ghost mut values: Seq<u128> = Seq::empty();
    let mut n: u16 = 0;
    while n < number_of_uuids
        invariant
            n <= number_of_uuids,
            uuids.len() == n,
            values.len() == n,
            forall|i: int|
                0 <= i < n ==> uuid_version(#[trigger] values[i]) == version_number(version)
                    && uuid_variant(values[i]) == 2 && uuids@[i]@ == uuid_text(
                    values[i],
                    uppercase,
                    hyphens,
                ) && uuids@[i]@.len() == uuid_text_len(hyphens),
        decreases number_of_uuids - n,
    {
        let value = new_uuid(version);
        let text = format_uuid(value, uppercase, hyphens);
        uuids.push(text);
        proof {
            values = values.push(value);
        }
        n += 1;
    }
    assert forall|i: int| 0 <= i < uuids.len() implies is_uuid_text(
        (#[trigger] uuids@[i])@,
        version,
        uppercase,
        hyphens,
    ) by {
        assert(uuid_text(values[i], uppercase, hyphens) == uuids@[i]@);
    }
    uuids
}

} // verus!
