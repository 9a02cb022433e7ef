//! Universally unique identifiers, held as their 128-bit value; `uuid` generates
//! and formats them.
use vstd::prelude::*;

verus! {

/// A UUID, as its 128-bit big-endian value.
pub type Uuid = u128;

/// The lowercase hexadecimal digit for `n` in `0..16`.
pub open spec fn hex_digit(n: int) -> char {
    if n < 10 {
        (48 + n) as char
    } else {
        (87 + n) as char
    }
}

/// The `count` lowest hexadecimal digits of `value`, most significant first.
pub open spec fn hex_digits(value: int, count: nat) -> Seq<char>
    decreases count,
{
    if count == 0 {
        Seq::empty()
    } else {
        hex_digits(value / 16, (count - 1) as nat).push(hex_digit(value % 16))
    }
}

/// The hyphenated form of a UUID: 32 lowercase hexadecimal digits in groups of
/// 8, 4, 4, 4 and 12, separated by `-`.
pub open spec fn hyphenated(u: Uuid) -> Seq<char> {
    let h = hex_digits(u as int, 32);
    h.subrange(0, 8) + seq!['-'] + h.subrange(8, 12) + seq!['-'] + h.subrange(12, 16) + seq!['-']
        + h.subrange(16, 20) + seq!['-'] + h.subrange(20, 32)
}

/// `hex_digits` gives as many digits as it is asked for.
pub proof fn lemma_hex_digits_len(value: int, count: nat)
    ensures
        hex_digits(value, count).len() == count,
    decreases count,
{
    if count > 0 {
        lemma_hex_digits_len(value / 16, (count - 1) as nat);
    }
}

/// The hyphenated form of a UUID has 36 characters, with `-` at positions 8, 13, 18 and 23.
pub proof fn lemma_hyphenated_shape(u: Uuid)
    ensures
        hyphenated(u).len() == 36,
        hyphenated(u)[8] == '-',
        hyphenated(u)[13] == '-',
        hyphenated(u)[18] == '-',
        hyphenated(u)[23] == '-',
{
    lemma_hex_digits_len(u as int, 32);
}

/// Whether a UUID carries the version (4, random) and variant (RFC 4122) bits that
/// `uuid::Uuid::new_v4` sets.
pub open spec fn is_random_v4(u: Uuid) -> bool {
    &&& (u >> 76u128) & 0xfu128 == 4u128
    &&& (u >> 62u128) & 0x3u128 == 2u128
}

/// Calls `uuid::Uuid::to_string` (its `Display`); the contract claims the hyphenated
/// lowercase form, as the crate's `format_hyphenated` writes it.
#[verifier::external_body]
pub(crate) fn uuid_to_string(u: Uuid) -> (r: String)
    ensures
        r@ == hyphenated(u),
{
    uuid::Uuid::from_u128(u).to_string()
}

/// Calls `uuid::Uuid::new_v4`; the contract claims only the version and variant bits that
/// it sets: the other 122 bits are random.
#[verifier::external_body]
pub(crate) fn new_v4() -> (r: Uuid)
    ensures
        is_random_v4(r),
{
    uuid::Uuid::new_v4().as_u128()
}

} // verus!
