//! Text encodings: hexadecimal bytes, form-urlencoded pairs, base64, and the
//! JSON text of a connector session.

use vstd::prelude::*;

use crate::json::{JsonModel, JsonValue};
use crate::text::{opt_str, pair_views};

verus! {

/// The value of a hexadecimal digit, in either case.
pub open spec fn hex_digit_value(c: char) -> Option<int> {
    if '0' <= c && c <= '9' {
        Some(c as int - '0' as int)
    } else if 'a' <= c && c <= 'f' {
        Some(c as int - 'a' as int + 10)
    } else if 'A' <= c && c <= 'F' {
        Some(c as int - 'A' as int + 10)
    } else {
        None
    }
}

/// Whether a text is an even number of hexadecimal digits.
pub open spec fn is_hex_text(s: Seq<char>) -> bool {
    &&& s.len() % 2 == 0
    &&& forall|i: int| 0 <= i < s.len() ==> (#[trigger] hex_digit_value(s[i])) is Some
}

/// The bytes a hexadecimal text spells, two digits to a byte, high digit first.
pub open spec fn hex_bytes(s: Seq<char>) -> Seq<u8> {
    Seq::new(
        s.len() / 2,
        |i: int| (16 * hex_digit_value(s[2 * i])->0 + hex_digit_value(s[2 * i + 1])->0) as u8,
    )
}

/// Calls `hex::decode`. It succeeds exactly on an even number of hexadecimal
/// digits of either case, and gives the byte of each pair of digits in turn;
/// its error is dropped.
#[verifier::external_body]
pub(crate) fn hex_decode(text: &str) -> (r: Option<Vec<u8>>)
    ensures
        r is Some <==> is_hex_text(text@),
        r matches Some(bytes) ==> bytes@ == hex_bytes(text@),
{
    hex::decode(text).ok()
}


/// The key and value pairs a form-urlencoded text decodes to, in order, as
/// `serde_urlencoded` decodes them, or the text of the error it reports.
pub uninterp spec fn form_urlencoded_pairs(text: Seq<char>) -> Result<Seq<(Seq<char>, Seq<char>)>, Seq<char>>;

/// Calls `serde_urlencoded::from_str` into a list of key and value pairs, with
/// the error turned into its text. The contract claims that the pairs, or the
/// error text, are a function of the text alone, and that an empty text gives
/// no pairs (it holds no `&`-separated part to decode).
#[verifier::external_body]
pub(crate) fn decode_form_pairs(text: &str) -> (r: Result<Vec<(String, String)>, String>)
    ensures
        text@.len() == 0 ==> r is Ok && r->Ok_0@.len() == 0,
        match r {
            Ok(pairs) => form_urlencoded_pairs(text@) == Ok::<Seq<(Seq<char>, Seq<char>)>, Seq<char>>(pair_views(pairs@)),
            Err(e) => form_urlencoded_pairs(text@) == Err::<Seq<(Seq<char>, Seq<char>)>, Seq<char>>(e@),
        },
{
    match serde_urlencoded::from_str::<Vec<(String, String)>>(text) {
        Ok(pairs) => Ok(pairs),
        Err(e) => Err(e.to_string()),
    }
}

/// The character of a six-bit value in the standard base64 alphabet.
pub open spec fn base64_char(v: int) -> char {
    if v < 26 {
        ('A' as int + v) as char
    } else if v < 52 {
        ('a' as int + (v - 26)) as char
    } else if v < 62 {
        ('0' as int + (v - 52)) as char
    } else if v == 62 {
        '+'
    } else {
        '/'
    }
}

/// The standard base64 encoding of bytes (RFC 4648, section 4): each three
/// bytes give four characters, and a last one or two bytes are padded with `=`.
pub open spec fn base64_standard(data: Seq<u8>) -> Seq<char>
    decreases data.len(),
{
    let b0 = if data.len() > 0 { data[0] as int } else { 0 };
    let b1 = if data.len() > 1 { data[1] as int } else { 0 };
    let b2 = if data.len() > 2 { data[2] as int } else { 0 };
    if data.len() == 0 {
        Seq::empty()
    } else if data.len() == 1 {
        seq![base64_char(b0 / 4), base64_char((b0 % 4) * 16), '=', '=']
    } else if data.len() == 2 {
        seq![base64_char(b0 / 4), base64_char((b0 % 4) * 16 + b1 / 16), base64_char((b1 % 16) * 4), '=']
    } else {
        seq![
            base64_char(b0 / 4),
            base64_char((b0 % 4) * 16 + b1 / 16),
            base64_char((b1 % 16) * 4 + b2 / 64),
            base64_char(b2 % 64),
        ] + base64_standard(data.skip(3))
    }
}

/// Calls `base64::engine::general_purpose::STANDARD.encode`: the standard
/// alphabet, with padding.
#[verifier::external_body]
pub(crate) fn base64_encode(data: &[u8]) -> (r: String)
    ensures
        r@ == base64_standard(data@),
{
    base64::Engine::encode(&base64::engine::general_purpose::STANDARD, data)
}


/// The meaning `serde_json` gives a JSON text, as a `serde_json::Value`: none
/// for a text that is not JSON.
pub uninterp spec fn json_text_model(text: Seq<char>) -> Option<JsonModel>;

/// The meaning of a value that may be missing.
pub open spec fn opt_json_model(v: Option<JsonValue>) -> Option<JsonModel> {
    match v {
        Some(x) => Some(x.model()),
        None => None,
    }
}

/// `serde_json::Value`, carried as it is.
#[verifier::external_type_specification]
#[verifier::external_body]
pub struct ExSerdeJsonValue(serde_json::Value);

/// Moves a `serde_json::Value` into a `JsonValue`, variant for variant: a
/// number becomes its text, an object its fields in the map's order.
#[verifier::external_body]
fn json_value_from_serde(v: serde_json::Value) -> (r: JsonValue) {
    match v {
        serde_json::Value::Null => JsonValue::Null,
        serde_json::Value::Bool(b) => JsonValue::Bool(b),
        serde_json::Value::Number(n) => JsonValue::Number(n.to_string()),
        serde_json::Value::String(t) => JsonValue::Text(t),
        serde_json::Value::Array(a) => JsonValue::Array(a.into_iter().map(json_value_from_serde).collect()),
        serde_json::Value::Object(m) => JsonValue::Object(m.into_iter().map(|(k, x)| (k, json_value_from_serde(x))).collect()),
    }
}

/// Calls `serde_json::from_str` into a `serde_json::Value` and moves the value
/// into a `JsonValue`. The contract claims that the outcome is a function of
/// the text alone; the error is dropped. Of an object with a repeated key,
/// `serde_json::Value` keeps the last value.
#[verifier::external_body]
pub(crate) fn parse_json(text: &str) -> (r: Option<JsonValue>)
    ensures
        opt_json_model(r) == json_text_model(text@),
{
    serde_json::from_str::<serde_json::Value>(text).ok().map(json_value_from_serde)
}

/// Calls `char::is_numeric`: whether a character has a general category for
/// numbers. The ASCII digits are numeric.
#[verifier::external_body]
pub(crate) fn char_is_numeric(c: char) -> (r: bool)
    ensures
        r == unicode_numeric(c),
        ('0' <= c && c <= '9') ==> r,
{
    c.is_numeric()
}

/// Whether a character has a Unicode general category for numbers.
pub uninterp spec fn unicode_numeric(c: char) -> bool;


/// A lowercase hexadecimal digit.
pub open spec fn hex_lower(v: int) -> char {
    if v < 10 { ('0' as int + v) as char } else { ('a' as int + (v - 10)) as char }
}

/// How JSON writes a character of a string: a quote, a backslash and the
/// control characters are escaped (the short escapes where JSON has them,
/// `\u00XX` otherwise); every other character is written as it is.
pub open spec fn json_char_escape(c: char) -> Seq<char> {
    let u = c as u32;
    if c == '"' {
        seq!['\\', '"']
    } else if c == '\\' {
        seq!['\\', '\\']
    } else if u == 0x08 {
        seq!['\\', 'b']
    } else if u == 0x09 {
        seq!['\\', 't']
    } else if u == 0x0A {
        seq!['\\', 'n']
    } else if u == 0x0C {
        seq!['\\', 'f']
    } else if u == 0x0D {
        seq!['\\', 'r']
    } else if u < 0x20 {
        seq!['\\', 'u', '0', '0', hex_lower(u as int / 16), hex_lower(u as int % 16)]
    } else {
        seq![c]
    }
}

/// The characters of a string as JSON writes them inside quotes.
pub open spec fn json_escaped(s: Seq<char>) -> Seq<char>
    decreases s.len(),
{
    if s.len() == 0 {
        Seq::empty()
    } else {
        json_escaped(s.drop_last()) + json_char_escape(s.last())
    }
}

/// The JSON text of a string value: quoted, with JSON escapes.
#[verifier::opaque]
pub open spec fn json_quoted(s: Seq<char>) -> Seq<char> {
    seq!['"'] + json_escaped(s) + seq!['"']
}

/// Calls `to_string` on `serde_json::Value::String`, which writes the string
/// quoted, with the escapes of `json_char_escape`.
#[verifier::external_body]
pub(crate) fn json_string_literal(s: &str) -> (r: String)
    ensures
        r@ == json_quoted(s@),
{
    serde_json::Value::String(s.to_string()).to_string()
}

/// The serialization of an absolute URL, and the key and value pairs of its
/// query, as the `url` crate parses them; none for a text it does not parse.
pub uninterp spec fn parsed_url(text: Seq<char>) -> Option<(Seq<char>, Seq<(Seq<char>, Seq<char>)>)>;

/// Calls `url::Url::parse`, then takes the URL's serialization (`as_str`) and
/// its query pairs (`query_pairs`), in order. The contract claims that both are
/// a function of the text alone; the parse error is dropped.
#[verifier::external_body]
pub(crate) fn parse_url(text: &str) -> (r: Option<(String, Vec<(String, String)>)>)
    ensures
        match r {
            Some((href, pairs)) => parsed_url(text@) == Some((href@, pair_views(pairs@))),
            None => parsed_url(text@) is None,
        },
{
    match url::Url::parse(text) {
        Ok(u) => Some((u.as_str().to_string(), u.query_pairs().into_owned().collect())),
        Err(_) => None,
    }
}

} // verus!
