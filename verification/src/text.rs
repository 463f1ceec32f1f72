//! Text helpers shared by the library: character-level string building,
//! decimal rendering of integers, comparison and trimming.

use vstd::prelude::*;
use vstd::string::StringSliceAdditionalSpecFns;

verus! {

/// The decimal digit character for a value below ten.
pub open spec fn digit_char(d: nat) -> char {
    ((48 + d) as u8) as char
}

/// Decimal rendering of a natural number, most significant digit first.
pub open spec fn nat_decimal(n: nat) -> Seq<char>
    decreases n,
{
    if n < 10 {
        seq![digit_char(n)]
    } else {
        nat_decimal(n / 10).push(digit_char(n % 10))
    }
}

/// Decimal rendering of an integer with a leading `-` for negative values.
pub open spec fn int_decimal(i: int) -> Seq<char> {
    if i < 0 {
        seq!['-'] + nat_decimal((-i) as nat)
    } else {
        nat_decimal(i as nat)
    }
}

/// Appends one character to a string (`String::push`).
#[verifier::external_body]
pub(crate) fn push_char(s: &mut String, c: char)
    ensures
        final(s)@ == old(s)@.push(c),
{
    s.push(c);
}

fn digit(d: u64) -> (c: char)
    requires
        d < 10,
    ensures
        c == digit_char(d as nat),
{
    let b: u8 = 48u8 + (d as u8);
    b as char
}

/// Decimal rendering of an unsigned integer.
pub fn u64_to_decimal(n: u64) -> (r: String)
    ensures
        r@ == nat_decimal(n as nat),
    decreases n,
{
    if n < 10 {
        let mut s = String::new();
        push_char(&mut s, digit(n));
        s
    } else {
        let mut s = u64_to_decimal(n / 10);
        push_char(&mut s, digit(n % 10));
        s
    }
}


/// Decimal rendering of a signed integer.
pub fn i64_to_decimal(n: i64) -> (r: String)
    ensures
        r@ == int_decimal(n as int),
{
    if n < 0 {
        let m: u64 = if n == i64::MIN {
            9223372036854775808u64
        } else {
            (-n) as u64
        };
        let digits = u64_to_decimal(m);
        let mut s = String::new();
        push_char(&mut s, '-');
        s.append(digits.as_str());
        assert(s@ == seq!['-'] + nat_decimal((-n) as nat));
        s
    } else {
        u64_to_decimal(n as u64)
    }
}

/// The concatenation of two strings.
pub fn concat(a: &str, b: &str) -> (r: String)
    ensures
        r@ == a@ + b@,
{
    let mut s = String::from_str(a);
    s.append(b);
    s
}

/// The concatenation of three strings.
pub fn concat3(a: &str, b: &str, c: &str) -> (r: String)
    ensures
        r@ == a@ + b@ + c@,
{
    let mut s = String::from_str(a);
    s.append(b);
    s.append(c);
    s
}

/// Whether two strings hold the same characters.
pub fn str_eq(a: &str, b: &str) -> (r: bool)
    ensures
        r == (a@ == b@),
{
    let n = a.unicode_len();
    if n != b.unicode_len() {
        return false;
    }
    let mut i: usize = 0;
    while i < n
        invariant
            n == a@.len(),
            n == b@.len(),
            i <= n,
            forall|j: int| 0 <= j < i ==> a@[j] == b@[j],
        decreases n - i,
    {
        if a.get_char(i) != b.get_char(i) {
            return false;
        }
        i = i + 1;
    }
    assert(a@ =~= b@);
    true
}

/// The length in bytes of the UTF-8 encoding of a string.
pub open spec fn byte_len(s: Seq<char>) -> nat {
    vstd::utf8::encode_utf8(s).len()
}

/// The length in bytes of the UTF-8 encoding of a string.
pub fn text_byte_len(s: &str) -> (r: usize)
    ensures
        r == byte_len(s@),
{
    assert(s.spec_bytes() == vstd::utf8::encode_utf8(s@));
    s.as_bytes().len()
}

fn char_width(c: char) -> (w: usize)
    ensures
        w == vstd::utf8::encode_scalar(c as u32).len(),
        1 <= w <= 4,
{
    proof {
        vstd::utf8::char_is_scalar(c);
    }
    let u = c as u32;
    if u < 0x80 {
        1
    } else if u < 0x800 {
        2
    } else if u < 0x10000 {
        3
    } else {
        4
    }
}

/// Whether the UTF-8 encoding of a string is longer than `max` bytes.
pub fn byte_len_exceeds(s: &str, max: usize) -> (r: bool)
    ensures
        r == (byte_len(s@) > max),
{
    let n = s.unicode_len();
    let mut i: usize = n;
    let mut acc: usize = 0;
    assert(s@.skip(n as int) =~= Seq::<char>::empty());
    while i > 0
        invariant
            n == s@.len(),
            i <= n,
            acc == byte_len(s@.skip(i as int)),
            acc <= max,
        decreases i,
    {
        let c = s.get_char(i - 1);
        let w = char_width(c);
        assert(s@.skip(i - 1).drop_first() =~= s@.skip(i as int));
        assert(s@.skip(i - 1)[0] == c);
        if w > max - acc {
            proof {
                lemma_byte_len_suffix_le(s@, (i - 1) as int);
            }
            return true;
        }
        acc = acc + w;
        i = i - 1;
    }
    assert(s@.skip(0) =~= s@);
    false
}

proof fn lemma_byte_len_suffix_le(s: Seq<char>, i: int)
    requires
        0 <= i <= s.len(),
    ensures
        byte_len(s.skip(i)) <= byte_len(s),
    decreases i,
{
    if i > 0 {
        lemma_byte_len_suffix_le(s, i - 1);
        assert(s.skip(i - 1).drop_first() =~= s.skip(i));
        assert(vstd::utf8::encode_utf8(s.skip(i - 1)) == vstd::utf8::encode_scalar(
            s.skip(i - 1)[0] as u32,
        ) + vstd::utf8::encode_utf8(s.skip(i)));
    } else {
        assert(s.skip(0) =~= s);
    }
}

/// Cuts a string to its first `max` bytes when it is longer than that.
pub fn truncate_bytes(s: String, max: usize) -> (r: String)
    requires
        can_cut(s@, max as nat),
    ensures
        is_byte_cut(r@, s@, max as nat),
{
    if byte_len_exceeds(s.as_str(), max) {
        let t = s.as_str();
        let (a, _b) = t.split_at(max);
        let r = a.to_owned();
        r
    } else {
        s
    }
}

/// The characters of an optional string.
pub open spec fn opt_str(o: Option<String>) -> Option<Seq<char>> {
    match o {
        Some(s) => Some(s@),
        None => None,
    }
}

/// A copy of an optional string.
pub fn clone_opt(o: &Option<String>) -> (r: Option<String>)
    ensures
        opt_str(r) == opt_str(*o),
{
    match o {
        Some(s) => Some(s.clone()),
        None => None,
    }
}

/// The result of cutting a string to `max` bytes: its first `max` bytes when it is
/// longer, the string itself otherwise.
pub open spec fn is_byte_cut(r: Seq<char>, s: Seq<char>, max: nat) -> bool {
    if byte_len(s) > max {
        vstd::utf8::encode_utf8(r) == vstd::utf8::encode_utf8(s).subrange(0, max as int)
    } else {
        r == s
    }
}

/// Whether cutting a string to `max` bytes splits no character.
pub open spec fn can_cut(s: Seq<char>, max: nat) -> bool {
    byte_len(s) > max ==> vstd::utf8::is_char_boundary(vstd::utf8::encode_utf8(s), max as int)
}

/// Index of the first occurrence of a character.
pub open spec fn first_index_of(s: Seq<char>, c: char) -> Option<int> {
    if exists|i: int| 0 <= i < s.len() && s[i] == c {
        Some(choose|i: int| 0 <= i < s.len() && s[i] == c && forall|j: int| 0 <= j < i ==> s[j] != c)
    } else {
        None
    }
}

/// The first occurrence of a character is a position of the string holding it,
/// with none before it.
pub proof fn lemma_first_index_of(s: Seq<char>, c: char)
    ensures
        first_index_of(s, c) matches Some(i) ==> 0 <= i < s.len() && s[i] == c && forall|j: int|
            0 <= j < i ==> s[j] != c,
        first_index_of(s, c) is None ==> forall|j: int| 0 <= j < s.len() ==> s[j] != c,
{
    if exists|i: int| 0 <= i < s.len() && s[i] == c {
        let w = choose|i: int| 0 <= i < s.len() && s[i] == c;
        lemma_minimal_occurrence(s, c, w);
    }
}

proof fn lemma_minimal_occurrence(s: Seq<char>, c: char, w: int)
    requires
        0 <= w < s.len(),
        s[w] == c,
    ensures
        exists|i: int| 0 <= i < s.len() && s[i] == c && forall|j: int| 0 <= j < i ==> s[j] != c,
    decreases w,
{
    if exists|j: int| 0 <= j < w && s[j] == c {
        let j = choose|j: int| 0 <= j < w && s[j] == c;
        lemma_minimal_occurrence(s, c, j);
    } else {
        assert(forall|j: int| 0 <= j < w ==> s[j] != c);
    }
}

/// Position of the first occurrence of a character in a string.
pub fn find_char(s: &str, c: char) -> (r: Option<usize>)
    ensures
        r matches Some(i) ==> i < s@.len() && s@[i as int] == c && forall|j: int|
            0 <= j < i ==> s@[j] != c,
        r is None ==> forall|j: int| 0 <= j < s@.len() ==> s@[j] != c,
        r matches Some(i) ==> first_index_of(s@, c) == Some(i as int),
        r is None ==> first_index_of(s@, c) is None,
{
    let n = s.unicode_len();
    let mut i: usize = 0;
    while i < n
        invariant
            n == s@.len(),
            i <= n,
            forall|j: int| 0 <= j < i ==> s@[j] != c,
        decreases n - i,
    {
        if s.get_char(i) == c {
            proof {
                let k = choose|k: int| 0 <= k < s@.len() && s@[k] == c && forall|j: int|
                    0 <= j < k ==> s@[j] != c;
                assert(0 <= i < s@.len() && s@[i as int] == c && forall|j: int|
                    0 <= j < i ==> s@[j] != c);
                if k < i {
                } else if k > i {
                    assert(s@[i as int] != c);
                }
            }
            return Some(i);
        }
        i = i + 1;
    }
    None
}

/// The parts before and after the first occurrence of a separator.
pub open spec fn split_once_spec(s: Seq<char>, c: char) -> Option<(Seq<char>, Seq<char>)> {
    match first_index_of(s, c) {
        Some(i) => Some((s.subrange(0, i), s.subrange(i + 1, s.len() as int))),
        None => None,
    }
}

/// Splits a string at the first occurrence of a separator (`str::split_once`).
pub fn split_once_char(s: &str, c: char) -> (r: Option<(String, String)>)
    ensures
        match split_once_spec(s@, c) {
            Some((a, b)) => r matches Some((x, y)) && x@ == a && y@ == b,
            None => r is None,
        },
{
    match find_char(s, c) {
        Some(i) => {
            let n = s.unicode_len();
            let a = s.substring_char(0, i).to_owned();
            let b = s.substring_char(i + 1, n).to_owned();
            Some((a, b))
        },
        None => None,
    }
}

/// Whether a string holds a character.
pub fn contains_char(s: &str, c: char) -> (r: bool)
    ensures
        r == s@.contains(c),
{
    match find_char(s, c) {
        Some(i) => {
            assert(s@[i as int] == c);
            true
        },
        None => false,
    }
}


/// The rest of a string after a prefix, when the string starts with it
/// (`str::strip_prefix`).
pub open spec fn strip_prefix_spec(s: Seq<char>, prefix: Seq<char>) -> Option<Seq<char>> {
    if prefix.len() <= s.len() && s.subrange(0, prefix.len() as int) == prefix {
        Some(s.subrange(prefix.len() as int, s.len() as int))
    } else {
        None
    }
}

/// Removes a prefix from a string, when the string starts with it.
pub fn strip_prefix(s: &str, prefix: &str) -> (r: Option<String>)
    ensures
        match strip_prefix_spec(s@, prefix@) {
            Some(rest) => r matches Some(x) && x@ == rest,
            None => r is None,
        },
{
    let n = s.unicode_len();
    let m = prefix.unicode_len();
    if m > n {
        return None;
    }
    let mut i: usize = 0;
    while i < m
        invariant
            n == s@.len(),
            m == prefix@.len(),
            m <= n,
            i <= m,
            forall|j: int| 0 <= j < i ==> s@[j] == prefix@[j],
        decreases m - i,
    {
        if s.get_char(i) != prefix.get_char(i) {
            assert(s@.subrange(0, m as int)[i as int] != prefix@[i as int]);
            return None;
        }
        i = i + 1;
    }
    assert(s@.subrange(0, m as int) =~= prefix@);
    Some(s.substring_char(m, n).to_owned())
}


/// The views of a sequence of strings.
pub open spec fn string_views(parts: Seq<String>) -> Seq<Seq<char>> {
    parts.map_values(|s: String| s@)
}

/// The pieces of a string between the occurrences of a separator, in order,
/// empty pieces included (`str::split` with a character).
pub open spec fn split_all(s: Seq<char>, c: char) -> Seq<Seq<char>>
    decreases s.len(),
{
    proof {
        lemma_first_index_of(s, c);
    }
    match first_index_of(s, c) {
        Some(i) => seq![s.subrange(0, i)] + split_all(s.subrange(i + 1, s.len() as int), c),
        None => seq![s],
    }
}

/// Splits a string at every occurrence of a separator.
pub fn split_all_char(s: &str, c: char) -> (r: Vec<String>)
    ensures
        string_views(r@) == split_all(s@, c),
{
    let mut out: Vec<String> = Vec::new();
    let mut rest = String::from_str(s);
    assert(string_views(out@) + split_all(rest@, c) =~= split_all(s@, c));
    loop
        invariant
            string_views(out@) + split_all(rest@, c) == split_all(s@, c),
        decreases rest@.len(),
    {
        proof {
            lemma_first_index_of(rest@, c);
        }
        match split_once_char(rest.as_str(), c) {
            Some((head, tail)) => {
                let ghost before = out@;
                out.push(head);
                proof {
                    assert(string_views(out@) =~= string_views(before).push(head@));
                    assert(split_all(rest@, c) == seq![head@] + split_all(tail@, c));
                    assert(string_views(out@) + split_all(tail@, c) =~= string_views(before) + split_all(rest@, c));
                }
                rest = tail;
            },
            None => {
                let ghost before = out@;
                out.push(rest);
                proof {
                    assert(string_views(out@) =~= string_views(before) + split_all(rest@, c));
                }
                return out;
            },
        }
    }
}

/// Parts joined with a separator between each two (`[T]::join`).
pub open spec fn join_with(parts: Seq<Seq<char>>, sep: Seq<char>) -> Seq<char>
    decreases parts.len(),
{
    if parts.len() == 0 {
        Seq::empty()
    } else if parts.len() == 1 {
        parts[0]
    } else {
        join_with(parts.drop_last(), sep) + sep + parts.last()
    }
}

/// Joins strings with a separator.
pub fn join(parts: &Vec<String>, sep: &str) -> (r: String)
    ensures
        r@ == join_with(string_views(parts@), sep@),
{
    let mut out = String::new();
    let n = parts.len();
    let mut i: usize = 0;
    while i < n
        invariant
            n == parts@.len(),
            i <= n,
            out@ == join_with(string_views(parts@.subrange(0, i as int)), sep@),
        decreases n - i,
    {
        proof {
            let next = string_views(parts@.subrange(0, i + 1));
            assert(next.drop_last() =~= string_views(parts@.subrange(0, i as int)));
            assert(next.last() == parts@[i as int]@);
        }
        if i > 0 {
            out.append(sep);
        }
        out.append(parts[i].as_str());
        i = i + 1;
    }
    assert(parts@.subrange(0, n as int) =~= parts@);
    out
}


/// The views of key and value pairs.
pub open spec fn pair_views(pairs: Seq<(String, String)>) -> Seq<(Seq<char>, Seq<char>)> {
    pairs.map_values(|p: (String, String)| (p.0@, p.1@))
}

/// How many pairs have a key.
pub open spec fn key_count(pairs: Seq<(Seq<char>, Seq<char>)>, key: Seq<char>) -> nat
    decreases pairs.len(),
{
    if pairs.len() == 0 {
        0
    } else {
        key_count(pairs.drop_last(), key) + if pairs.last().0 == key { 1nat } else { 0nat }
    }
}

/// The value of the first pair with a key.
pub open spec fn first_value(pairs: Seq<(Seq<char>, Seq<char>)>, key: Seq<char>) -> Option<Seq<char>>
    decreases pairs.len(),
{
    if pairs.len() == 0 {
        None
    } else if pairs[0].0 == key {
        Some(pairs[0].1)
    } else {
        first_value(pairs.drop_first(), key)
    }
}

/// Counts the pairs with a key.
pub fn count_key(pairs: &Vec<(String, String)>, key: &str) -> (r: usize)
    ensures
        r == key_count(pair_views(pairs@), key@),
{
    let n = pairs.len();
    let mut count: usize = 0;
    let mut i: usize = 0;
    while i < n
        invariant
            n == pairs@.len(),
            i <= n,
            count <= i,
            count == key_count(pair_views(pairs@.subrange(0, i as int)), key@),
        decreases n - i,
    {
        proof {
            let next = pair_views(pairs@.subrange(0, i + 1));
            assert(next.drop_last() =~= pair_views(pairs@.subrange(0, i as int)));
            assert(next.last() == (pairs@[i as int].0@, pairs@[i as int].1@));
        }
        if str_eq(pairs[i].0.as_str(), key) {
            count = count + 1;
        }
        i = i + 1;
    }
    assert(pairs@.subrange(0, n as int) =~= pairs@);
    count
}

/// The value of the first pair with a key.
pub fn find_value(pairs: &Vec<(String, String)>, key: &str) -> (r: Option<String>)
    ensures
        opt_str(r) == first_value(pair_views(pairs@), key@),
{
    let n = pairs.len();
    let mut i: usize = 0;
    assert(pair_views(pairs@).subrange(0, n as int) =~= pair_views(pairs@));
    while i < n
        invariant
            n == pairs@.len(),
            i <= n,
            first_value(pair_views(pairs@), key@) == first_value(
                pair_views(pairs@).subrange(i as int, n as int),
                key@,
            ),
        decreases n - i,
    {
        assert(pair_views(pairs@).subrange(i as int, n as int).drop_first() =~= pair_views(
            pairs@,
        ).subrange(i + 1, n as int));
        if str_eq(pairs[i].0.as_str(), key) {
            return Some(pairs[i].1.clone());
        }
        i = i + 1;
    }
    None
}


/// The text `String::from_utf8_lossy` makes of bytes.
pub uninterp spec fn utf8_lossy_text(bytes: Seq<u8>) -> Seq<char>;

/// Calls `String::from_utf8_lossy`. As its documentation says, valid UTF-8 is
/// decoded as it is; what it makes of other bytes (replacement characters) is
/// a function of the bytes alone.
#[verifier::external_body]
pub(crate) fn utf8_lossy(bytes: &[u8]) -> (r: String)
    ensures
        r@ == utf8_lossy_text(bytes@),
        vstd::utf8::valid_utf8(bytes@) ==> r@ == vstd::utf8::decode_utf8(bytes@),
{
    String::from_utf8_lossy(bytes).into_owned()
}

/// The text the `Debug` format gives a string: quoted, with escapes.
pub uninterp spec fn debug_text(s: Seq<char>) -> Seq<char>;

/// Formats a string with `{:?}`. The text is a function of the string alone.
#[verifier::external_body]
pub(crate) fn debug_string(s: &str) -> (r: String)
    ensures
        r@ == debug_text(s@),
{
    format!("{:?}", s)
}


fn digit128(d: u128) -> (c: char)
    requires
        d < 10,
    ensures
        c == digit_char(d as nat),
{
    let b: u8 = 48u8 + (d as u8);
    b as char
}

/// Decimal rendering of a wide unsigned integer.
pub fn u128_to_decimal(n: u128) -> (r: String)
    ensures
        r@ == nat_decimal(n as nat),
    decreases n,
{
    if n < 10 {
        let mut s = String::new();
        push_char(&mut s, digit128(n));
        s
    } else {
        let mut s = u128_to_decimal(n / 10);
        push_char(&mut s, digit128(n % 10));
        s
    }
}

/// Decimal rendering of a wide signed integer.
pub fn i128_to_decimal(n: i128) -> (r: String)
    ensures
        r@ == int_decimal(n as int),
{
    if n < 0 {
        let m: u128 = if n == i128::MIN {
            170141183460469231731687303715884105728u128
        } else {
            (-n) as u128
        };
        let digits = u128_to_decimal(m);
        let mut s = String::new();
        push_char(&mut s, '-');
        s.append(digits.as_str());
        assert(s@ == seq!['-'] + nat_decimal((-n) as nat));
        s
    } else {
        u128_to_decimal(n as u128)
    }
}


/// The UTF-8 encoding of two strings one after the other is the encodings of
/// each, one after the other.
pub proof fn lemma_encode_concat(a: Seq<char>, b: Seq<char>)
    ensures
        vstd::utf8::encode_utf8(a + b) == vstd::utf8::encode_utf8(a) + vstd::utf8::encode_utf8(b),
    decreases a.len(),
{
    if a.len() == 0 {
        assert(a + b =~= b);
        assert(vstd::utf8::encode_utf8(a) =~= Seq::<u8>::empty());
        assert(vstd::utf8::encode_utf8(a) + vstd::utf8::encode_utf8(b) =~= vstd::utf8::encode_utf8(b));
    } else {
        lemma_encode_concat(a.drop_first(), b);
        assert((a + b).drop_first() =~= a.drop_first() + b);
        assert((a + b)[0] == a[0]);
        assert(vstd::utf8::encode_scalar(a[0] as u32) + (vstd::utf8::encode_utf8(a.drop_first()) + vstd::utf8::encode_utf8(b))
            =~= (vstd::utf8::encode_scalar(a[0] as u32) + vstd::utf8::encode_utf8(a.drop_first())) + vstd::utf8::encode_utf8(b));
    }
}

/// A string takes at most four bytes per character.
pub proof fn lemma_byte_len_bound(s: Seq<char>)
    ensures
        byte_len(s) <= 4 * s.len(),
    decreases s.len(),
{
    if s.len() > 0 {
        lemma_byte_len_bound(s.drop_first());
        vstd::utf8::char_is_scalar(s[0]);
        assert(vstd::utf8::encode_scalar(s[0] as u32).len() <= 4);
    }
}

/// Ten to a power.
pub open spec fn pow10(k: nat) -> nat
    decreases k,
{
    if k == 0 { 1 } else { 10 * pow10((k - 1) as nat) }
}

/// A number below ten to the `k` has at most `k` decimal digits.
pub proof fn lemma_nat_decimal_len(n: nat, k: nat)
    requires
        k >= 1,
        n < pow10(k),
    ensures
        nat_decimal(n).len() <= k,
    decreases k,
{
    if n >= 10 {
        reveal_with_fuel(pow10, 2);
        assert(k >= 2);
        assert(n / 10 < pow10((k - 1) as nat));
        lemma_nat_decimal_len(n / 10, (k - 1) as nat);
    }
}

/// The decimal text of a wide signed integer has at most forty characters.
pub proof fn lemma_i128_decimal_len(i: i128)
    ensures
        int_decimal(i as int).len() <= 40,
{
    assert(pow10(39) == 1000000000000000000000000000000000000000nat) by {
        reveal_with_fuel(pow10, 40);
    }
    let m: nat = if i < 0 { (-i) as nat } else { i as nat };
    assert(m < pow10(39));
    lemma_nat_decimal_len(m, 39);
}


/// Calls `String::from_utf8` on a copy of the bytes. As its documentation
/// says, it succeeds exactly on valid UTF-8, with the text the bytes encode.
#[verifier::external_body]
pub(crate) fn utf8_to_string(bytes: &[u8]) -> (r: Option<String>)
    ensures
        r is Some <==> vstd::utf8::valid_utf8(bytes@),
        r matches Some(s) ==> s@ == vstd::utf8::decode_utf8(bytes@),
{
    String::from_utf8(bytes.to_vec()).ok()
}

/// Whether a character has the Unicode `White_Space` property, the set
/// `char::is_whitespace` tests for.
pub open spec fn unicode_whitespace(c: char) -> bool {
    let u = c as u32;
    (0x09 <= u <= 0x0D) || u == 0x20 || u == 0x85 || u == 0xA0 || u == 0x1680 || (0x2000 <= u <= 0x200A)
        || u == 0x2028 || u == 0x2029 || u == 0x202F || u == 0x205F || u == 0x3000
}

/// Whether a character is white space (`char::is_whitespace`).
pub fn char_is_whitespace(c: char) -> (r: bool)
    ensures
        r == unicode_whitespace(c),
{
    let u = c as u32;
    (0x09 <= u && u <= 0x0D) || u == 0x20 || u == 0x85 || u == 0xA0 || u == 0x1680 || (0x2000 <= u && u <= 0x200A)
        || u == 0x2028 || u == 0x2029 || u == 0x202F || u == 0x205F || u == 0x3000
}

/// Whether a text is only white space (`str::trim` leaves nothing of it).
pub open spec fn all_whitespace(s: Seq<char>) -> bool {
    forall|i: int| 0 <= i < s.len() ==> #[trigger] unicode_whitespace(s[i])
}

/// Whether trimming a string leaves nothing of it.
pub fn trims_to_empty(s: &str) -> (r: bool)
    ensures
        r == all_whitespace(s@),
{
    let n = s.unicode_len();
    let mut i: usize = 0;
    while i < n
        invariant
            n == s@.len(),
            i <= n,
            forall|j: int| 0 <= j < i ==> #[trigger] unicode_whitespace(s@[j]),
        decreases n - i,
    {
        if !char_is_whitespace(s.get_char(i)) {
            return false;
        }
        i = i + 1;
    }
    true
}


/// The Unicode upper case of a text.
pub uninterp spec fn unicode_uppercase(s: Seq<char>) -> Seq<char>;

/// Calls `str::to_uppercase`. The text is a function of the string alone.
#[verifier::external_body]
pub(crate) fn to_uppercase(s: &str) -> (r: String)
    ensures
        r@ == unicode_uppercase(s@),
{
    s.to_uppercase()
}


/// A text without the white space it starts with.
pub open spec fn trim_start_spec(s: Seq<char>) -> Seq<char>
    decreases s.len(),
{
    if s.len() > 0 && unicode_whitespace(s[0]) {
        trim_start_spec(s.drop_first())
    } else {
        s
    }
}

/// A text without the white space it ends with.
pub open spec fn trim_end_spec(s: Seq<char>) -> Seq<char>
    decreases s.len(),
{
    if s.len() > 0 && unicode_whitespace(s.last()) {
        trim_end_spec(s.drop_last())
    } else {
        s
    }
}

/// A text without leading and trailing white space (`str::trim`).
pub open spec fn trim_spec(s: Seq<char>) -> Seq<char> {
    trim_end_spec(trim_start_spec(s))
}

proof fn lemma_trim_start_head(s: Seq<char>)
    ensures
        trim_start_spec(s).len() == 0 || !unicode_whitespace(trim_start_spec(s)[0]),
    decreases s.len(),
{
    if s.len() > 0 && unicode_whitespace(s[0]) {
        lemma_trim_start_head(s.drop_first());
    }
}

proof fn lemma_trim_end_prefix(s: Seq<char>)
    ensures
        trim_end_spec(s).len() <= s.len(),
        trim_end_spec(s) == s.subrange(0, trim_end_spec(s).len() as int),
        trim_end_spec(s).len() == 0 || !unicode_whitespace(trim_end_spec(s).last()),
    decreases s.len(),
{
    if s.len() > 0 && unicode_whitespace(s.last()) {
        lemma_trim_end_prefix(s.drop_last());
        let t = trim_end_spec(s.drop_last());
        assert(s.drop_last().subrange(0, t.len() as int) =~= s.subrange(0, t.len() as int));
    } else {
        assert(s.subrange(0, s.len() as int) =~= s);
    }
}

/// Trimming a trimmed text leaves it as it is.
pub proof fn lemma_trim_idempotent(s: Seq<char>)
    ensures
        trim_spec(trim_spec(s)) == trim_spec(s),
{
    let a = trim_start_spec(s);
    lemma_trim_start_head(s);
    lemma_trim_end_prefix(a);
    let b = trim_end_spec(a);
    if b.len() > 0 {
        assert(b[0] == a[0]);
    }
    assert(trim_start_spec(b) == b);
    assert(trim_end_spec(b) == b);
}

proof fn lemma_trim_start_len(s: Seq<char>)
    ensures
        trim_start_spec(s).len() <= s.len(),
    decreases s.len(),
{
    if s.len() > 0 && unicode_whitespace(s[0]) {
        lemma_trim_start_len(s.drop_first());
    }
}

/// A text that is its own trim neither starts nor ends with white space.
pub proof fn lemma_trimmed_ends(s: Seq<char>)
    requires
        trim_spec(s) == s,
        s.len() > 0,
    ensures
        !unicode_whitespace(s[0]),
        !unicode_whitespace(s.last()),
{
    lemma_trim_end_prefix(trim_start_spec(s));
    if unicode_whitespace(s[0]) {
        lemma_trim_start_len(s.drop_first());
        assert(false);
    }
    assert(trim_start_spec(s) == s);
    if unicode_whitespace(s.last()) {
        lemma_trim_end_prefix(s.drop_last());
        assert(false);
    }
}

/// A text that neither starts nor ends with white space is its own trim.
pub proof fn lemma_trim_untouched(s: Seq<char>)
    requires
        s.len() > 0 ==> !unicode_whitespace(s[0]) && !unicode_whitespace(s.last()),
    ensures
        trim_spec(s) == s,
{
}

/// A text of ASCII characters takes one byte per character.
pub proof fn lemma_ascii_byte_len(s: Seq<char>)
    requires
        forall|i: int| 0 <= i < s.len() ==> (#[trigger] s[i] as u32) < 0x80,
    ensures
        byte_len(s) == s.len(),
    decreases s.len(),
{
    if s.len() > 0 {
        assert forall|i: int| 0 <= i < s.drop_first().len() implies (#[trigger] s.drop_first()[i] as u32) < 0x80 by {
            assert(s.drop_first()[i] == s[i + 1]);
        }
        lemma_ascii_byte_len(s.drop_first());
    }
}

/// Removes leading and trailing white space.
pub fn trim(s: &str) -> (r: String)
    ensures
        r@ == trim_spec(s@),
{
    let n = s.unicode_len();
    let mut i: usize = 0;
    assert(s@.subrange(0, n as int) =~= s@);
    while i < n && char_is_whitespace(s.get_char(i))
        invariant
            n == s@.len(),
            i <= n,
            trim_start_spec(s@) == trim_start_spec(s@.subrange(i as int, n as int)),
        decreases n - i,
    {
        assert(s@.subrange(i as int, n as int).drop_first() =~= s@.subrange(i + 1, n as int));
        i = i + 1;
    }
    assert(trim_start_spec(s@.subrange(i as int, n as int)) == s@.subrange(i as int, n as int));
    let mut j: usize = n;
    while j > i && char_is_whitespace(s.get_char(j - 1))
        invariant
            n == s@.len(),
            i <= j <= n,
            trim_end_spec(s@.subrange(i as int, n as int)) == trim_end_spec(s@.subrange(i as int, j as int)),
        decreases j - i,
    {
        assert(s@.subrange(i as int, j as int).drop_last() =~= s@.subrange(i as int, j - 1));
        j = j - 1;
    }
    assert(trim_end_spec(s@.subrange(i as int, j as int)) == s@.subrange(i as int, j as int));
    s.substring_char(i, j).to_owned()
}

} // verus!
