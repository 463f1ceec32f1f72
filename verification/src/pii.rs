//! Personal data: email addresses and how emails, IP addresses, UPI VPAs and
//! encrypted data are masked when they are shown.

use vstd::prelude::*;

use crate::consts::REDACTED;
use crate::ids::ValidationError;
use crate::text::{
    byte_len, concat3, contains_char, split_all, split_all_char, split_once_char, split_once_spec, str_eq,
    string_views, text_byte_len, u64_to_decimal, nat_decimal,
};

verus! {

/// Whether a text is accepted as an email: the redacted marker, or a text
/// with an `@` that is longer than three bytes.
pub open spec fn is_email_text(s: Seq<char>) -> bool {
    s == REDACTED@ || (s.contains('@') && byte_len(s) > 3)
}

/// An email address.
#[derive(Clone, Debug)]
pub struct Email(pub String);

/// Errors of parsing a value.
#[derive(Clone, Copy, Debug, PartialEq, Eq, Structural)]
pub enum ParsingError {
    EmailParsingError,
}

impl Email {
    /// The address itself.
    pub fn expose(self) -> (r: String)
        ensures
            r@ == self.0@,
    {
        self.0
    }

    /// Reads an email: the redacted marker, or a text with an `@` that is
    /// longer than three bytes.
    pub fn from_str(email: &str) -> (r: Result<Email, ValidationError>)
        ensures
            is_email_text(email@) ==> (r matches Ok(e) && e.0@ == email@),
            !is_email_text(email@) ==> (r matches Err(ValidationError::InvalidValue { message })
                && message@ == "Invalid email address format"@),
    {
        if str_eq(email, REDACTED) {
            return Ok(Email(String::from_str(email)));
        }
        if contains_char(email, '@') && text_byte_len(email) > 3 {
            Ok(Email(String::from_str(email)))
        } else {
            Err(ValidationError::InvalidValue { message: String::from_str("Invalid email address format") })
        }
    }

    /// Reads an email from an owned text, as `from_str` does.
    pub fn try_from(value: String) -> (r: Result<Email, ParsingError>)
        ensures
            is_email_text(value@) ==> (r matches Ok(e) && e.0@ == value@),
            !is_email_text(value@) ==> r == Err::<Email, ParsingError>(ParsingError::EmailParsingError),
    {
        match Email::from_str(value.as_str()) {
            Ok(e) => Ok(e),
            Err(_) => Err(ParsingError::EmailParsingError),
        }
    }
}

/// A run of `*`.
pub open spec fn stars(n: nat) -> Seq<char> {
    Seq::new(n, |i: int| '*')
}

/// What a value is masked to when nothing more specific applies: its type's
/// name between `*** ` and ` ***`.
pub open spec fn masked_with_type(kind_label: Seq<char>) -> Seq<char> {
    "*** "@ + kind_label + " ***"@
}

/// The text before an `@` masked, a star for each of its bytes, and the text
/// after it kept; a text without `@` is masked with its type's name.
pub open spec fn masked_at(s: Seq<char>, kind_label: Seq<char>) -> Seq<char> {
    match split_once_spec(s, '@') {
        Some((a, b)) => stars(byte_len(a)) + "@"@ + b,
        None => masked_with_type(kind_label),
    }
}

fn mask_with_type(kind_label: &str) -> (r: String)
    ensures
        r@ == masked_with_type(kind_label@),
{
    concat3("*** ", kind_label, " ***")
}

fn star_run(n: usize) -> (r: String)
    ensures
        r@ == stars(n as nat),
{
    let mut out = String::new();
    let mut i: usize = 0;
    while i < n
        invariant
            i <= n,
            out@ == stars(i as nat),
        decreases n - i,
    {
        let ghost before = out@;
        crate::text::push_char(&mut out, '*');
        assert(out@ =~= stars((i + 1) as nat));
        i = i + 1;
    }
    out
}

fn mask_before_at(value: &str, kind_label: &str) -> (r: String)
    ensures
        r@ == masked_at(value@, kind_label@),
{
    match split_once_char(value, '@') {
        Some((user, rest)) => {
            let masked = star_run(text_byte_len(user.as_str()));
            concat3(masked.as_str(), "@", rest.as_str())
        },
        None => mask_with_type(kind_label),
    }
}

/// How an email is masked.
#[derive(Clone, Copy, Debug)]
pub struct EmailStrategy;

impl EmailStrategy {
    /// The email with its local part starred out, byte by byte.
    pub fn fmt(value: &str, kind_label: &str) -> (r: String)
        ensures
            r@ == masked_at(value@, kind_label@),
    {
        mask_before_at(value, kind_label)
    }
}

/// How a UPI VPA is masked.
#[derive(Debug)]
pub struct UpiVpaMaskingStrategy;

impl UpiVpaMaskingStrategy {
    /// The VPA with its user part starred out, byte by byte.
    pub fn fmt(value: &str, kind_label: &str) -> (r: String)
        ensures
            r@ == masked_at(value@, kind_label@),
    {
        mask_before_at(value, kind_label)
    }
}

/// Whether a text reads as an IP address: four dot-separated segments, each of
/// one to three bytes.
pub open spec fn ip_shaped(s: Seq<char>) -> bool {
    let segments = split_all(s, '.');
    segments.len() == 4 && forall|i: int| 0 <= i < 4 ==> 1 <= #[trigger] byte_len(segments[i]) <= 3
}

/// An IP address with all but its first segment masked; other text is masked
/// with its type's name.
pub open spec fn masked_ip(s: Seq<char>, kind_label: Seq<char>) -> Seq<char> {
    if ip_shaped(s) {
        split_all(s, '.')[0] + ".**.**.**"@
    } else {
        masked_with_type(kind_label)
    }
}

/// How an IP address is masked.
#[derive(Debug)]
pub struct IpAddress;

impl IpAddress {
    /// The first segment of the address, the others masked.
    pub fn fmt(value: &str, kind_label: &str) -> (r: String)
        ensures
            r@ == masked_ip(value@, kind_label@),
    {
        let segments = split_all_char(value, '.');
        let ghost views = string_views(segments@);
        if segments.len() != 4 {
            return mask_with_type(kind_label);
        }
        let mut i: usize = 0;
        while i < 4
            invariant
                segments@.len() == 4,
                views == string_views(segments@),
                views == split_all(value@, '.'),
                i <= 4,
                forall|j: int| 0 <= j < i ==> 1 <= #[trigger] byte_len(views[j]) <= 3,
            decreases 4 - i,
        {
            let len = text_byte_len(segments[i].as_str());
            assert(views[i as int] == segments@[i as int]@);
            if len == 0 || len > 3 {
                return mask_with_type(kind_label);
            }
            i = i + 1;
        }
        assert(views[0] == segments@[0]@);
        crate::text::concat(segments[0].as_str(), ".**.**.**")
    }
}

/// What encrypted data is shown as: its length in bytes.
pub open spec fn masked_encrypted(len: nat) -> Seq<char> {
    "*** Encrypted data of length "@ + nat_decimal(len) + " bytes ***"@
}

/// How encrypted data is masked.
#[derive(Debug)]
pub struct EncryptionStrategy;

impl EncryptionStrategy {
    /// A note of the length of the data, in bytes.
    pub fn fmt(value: &[u8]) -> (r: String)
        ensures
            r@ == masked_encrypted(value@.len()),
    {
        let len = u64_to_decimal(value.len() as u64);
        concat3("*** Encrypted data of length ", len.as_str(), " bytes ***")
    }
}

} // verus!
