//! Values that differ on every call: the clock and random identifiers.

use vstd::prelude::*;


verus! {

/// Whether a text is a version 4 UUID in its hyphenated lowercase form: 36
/// characters, `-` at the four group boundaries, lowercase hexadecimal digits
/// elsewhere, the version digit `4`, and a variant digit of `8`, `9`, `a` or
/// `b`.
pub open spec fn is_uuid_v4_hyphenated(s: Seq<char>) -> bool {
    &&& s.len() == 36
    &&& forall|i: int| 0 <= i < 36 ==> if i == 8 || i == 13 || i == 18 || i == 23 {
        #[trigger] s[i] == '-'
    } else {
        is_lower_hex_digit(s[i])
    }
    &&& s[14] == '4'
    &&& (s[19] == '8' || s[19] == '9' || s[19] == 'a' || s[19] == 'b')
}

/// Calls `uuid::Uuid::new_v4` and formats the identifier with `to_string`,
/// which writes the hyphenated lowercase form. `new_v4` sets the version bits
/// to 4 and the variant bits to `10`; the rest is random, so only the form is
/// claimed.
#[verifier::external_body]
pub(crate) fn new_uuid_v4_string() -> (r: String)
    ensures
        is_uuid_v4_hyphenated(r@),
{
    uuid::Uuid::new_v4().to_string()
}

/// Lowest Unix time, in nanoseconds, that `time` can report.
pub const MIN_UNIX_NANOS: i128 = -9_223_372_036_854_775_808_000_000_000;

/// Highest Unix time, in nanoseconds, that `time` can report.
pub const MAX_UNIX_NANOS: i128 = 9_223_372_036_854_775_807_999_999_999;

/// Calls `time::OffsetDateTime::now_utc().unix_timestamp_nanos()`. The clock
/// is read afresh on each call, so nothing is claimed of the value but its
/// range: a Unix time in whole seconds that fits an `i64`, in nanoseconds,
/// plus the nanoseconds of the second.
#[verifier::external_body]
pub(crate) fn current_unix_timestamp_nanos() -> (r: i128)
    ensures
        MIN_UNIX_NANOS <= r <= MAX_UNIX_NANOS,
{
    time::OffsetDateTime::now_utc().unix_timestamp_nanos()
}


/// Calls `nanoid::format` with the default random source over an alphabet.
/// The id is random; it is claimed to have the requested number of
/// characters, each from the alphabet. The alphabet has at most 255
/// characters (`format` asserts it), all ASCII (`format` counts bytes), and the
/// size is not zero (`format` would not return).
#[verifier::external_body]
pub(crate) fn nanoid_from_alphabet(alphabet: &[char], size: usize) -> (r: String)
    requires
        1 <= alphabet@.len() <= 255,
        forall|i: int| 0 <= i < alphabet@.len() ==> (#[trigger] alphabet@[i] as u32) < 0x80,
        1 <= size <= 1024,
    ensures
        r@.len() == size,
        forall|i: int| 0 <= i < r@.len() ==> alphabet@.contains(#[trigger] r@[i]),
{
    nanoid::format(nanoid::rngs::default, alphabet, size)
}

/// Whether a character is a lowercase hexadecimal digit.
pub open spec fn is_lower_hex_digit(c: char) -> bool {
    ('0' <= c <= '9') || ('a' <= c <= 'f')
}

/// Calls `uuid::Uuid::now_v7` and formats the identifier in its simple form:
/// 32 lowercase hexadecimal digits, no hyphens (as `uuid::fmt::Simple` writes
/// it). The identifier is time-ordered and random; only its form is claimed.
#[verifier::external_body]
pub(crate) fn new_uuid_v7_simple() -> (r: String)
    ensures
        r@.len() == 32,
        forall|i: int| 0 <= i < r@.len() ==> is_lower_hex_digit(#[trigger] r@[i]),
{
    uuid::Uuid::now_v7().as_simple().to_string()
}

} // verus!
