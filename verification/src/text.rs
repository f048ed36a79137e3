//! Character-level building blocks: decimal rendering of integers,
//! ASCII case mapping, and thin wrappers around `std` string operations.

use vstd::prelude::*;
use vstd::string::*;
use vstd::utf8::*;

verus! {

/// The character of a decimal digit.
pub open spec fn digit_char(d: nat) -> char
    recommends
        d < 10,
{
    (48 + d) as char
}

/// Decimal digits of a natural number, most significant first, without sign.
pub open spec fn decimal(n: nat) -> Seq<char>
    decreases n,
{
    if n < 10 {
        seq![digit_char(n)]
    } else {
        decimal(n / 10).push(digit_char(n % 10))
    }
}

/// Decimal rendering of an integer as `Display` writes it: a leading `-` for
/// negative values, then the digits of the magnitude.
pub open spec fn decimal_int(i: int) -> Seq<char> {
    if i < 0 {
        seq!['-'] + decimal((-i) as nat)
    } else {
        decimal(i as nat)
    }
}

/// Appends one character (`String::push`).
#[verifier::external_body]
pub(crate) fn push_char(s: &mut String, c: char)
    ensures
        final(s)@ == old(s)@.push(c),
{
    s.push(c);
}

/// String-slice equality (`<str as PartialEq>::eq`): equal exactly when the
/// two slices hold the same characters.
#[verifier::external_body]
pub(crate) fn str_eq(a: &str, b: &str) -> (r: bool)
    ensures
        r == (a@ == b@),
{
    a == b
}

fn digit(d: u64) -> (c: char)
    requires
        d < 10,
    ensures
        c == digit_char(d as nat),
{
    let b: u8 = 48u8 + (d as u8);
    b as char
}

/// Appends the decimal digits of `n`.
pub fn push_decimal(s: &mut String, n: u64)
    ensures
        final(s)@ == old(s)@ + decimal(n as nat),
    decreases n,
{
    if n >= 10 {
        push_decimal(s, n / 10);
        push_char(s, digit(n % 10));
        assert(s@ =~= old(s)@ + decimal(n as nat));
    } else {
        push_char(s, digit(n));
        assert(s@ =~= old(s)@ + decimal(n as nat));
    }
}

/// Appends the decimal rendering of a signed integer.
pub fn push_decimal_i64(s: &mut String, n: i64)
    ensures
        final(s)@ == old(s)@ + decimal_int(n as int),
{
    if n < 0 {
        push_char(s, '-');
        let magnitude: u64 = ((-(n + 1)) as u64) + 1;
        push_decimal(s, magnitude);
        assert(s@ =~= old(s)@ + decimal_int(n as int));
    } else {
        push_decimal(s, n as u64);
    }
}

/// ASCII lower-casing of one character: `A`..`Z` become `a`..`z`.
pub open spec fn ascii_lower_char(c: char) -> char {
    if 'A' <= c && c <= 'Z' {
        ((c as u32) + 32) as char
    } else {
        c
    }
}

/// ASCII upper-casing of one character: `a`..`z` become `A`..`Z`.
pub open spec fn ascii_upper_char(c: char) -> char {
    if 'a' <= c && c <= 'z' {
        ((c as u32) - 32) as char
    } else {
        c
    }
}

pub open spec fn ascii_lower(s: Seq<char>) -> Seq<char> {
    s.map_values(|c: char| ascii_lower_char(c))
}

pub open spec fn ascii_upper(s: Seq<char>) -> Seq<char> {
    s.map_values(|c: char| ascii_upper_char(c))
}

/// What `str::to_lowercase` returns for a string: its Unicode lower-case
/// mapping (the Unicode `Lowercase` derived property, with final-sigma rules).
pub uninterp spec fn unicode_lowercase(s: Seq<char>) -> Seq<char>;

/// What `str::to_uppercase` returns for a string: its Unicode upper-case mapping.
pub uninterp spec fn unicode_uppercase(s: Seq<char>) -> Seq<char>;

/// `str::to_lowercase`. Claims: the result is the Unicode lower-case mapping of
/// the input, which for ASCII text is the ASCII lower-casing of each character.
/// The full Unicode mapping is left to its name.
#[verifier::external_body]
pub(crate) fn to_lowercase(s: &str) -> (r: String)
    ensures
        r@ == unicode_lowercase(s@),
        is_ascii_chars(s@) ==> r@ == ascii_lower(s@),
{
    s.to_lowercase()
}

/// `str::to_uppercase`. Claims: the result is the Unicode upper-case mapping of
/// the input, which for ASCII text is the ASCII upper-casing of each character.
/// The full Unicode mapping is left to its name.
#[verifier::external_body]
pub(crate) fn to_uppercase(s: &str) -> (r: String)
    ensures
        r@ == unicode_uppercase(s@),
        is_ascii_chars(s@) ==> r@ == ascii_upper(s@),
{
    s.to_uppercase()
}

/// The last character boundary of a UTF-8 text at or before byte `n`.
pub open spec fn boundary_at_or_before(bytes: Seq<u8>, n: nat) -> nat
    decreases n,
{
    if n == 0 || is_char_boundary(bytes, n as int) {
        n
    } else {
        boundary_at_or_before(bytes, (n - 1) as nat)
    }
}

/// The longest prefix of a text whose UTF-8 encoding fits in `n` bytes: the
/// text itself when it fits, else its bytes up to the last character
/// boundary at or before byte `n`.
pub open spec fn clip_bytes(s: Seq<char>, n: nat) -> Seq<char> {
    if encode_utf8(s).len() > n {
        decode_utf8(encode_utf8(s).subrange(0, boundary_at_or_before(encode_utf8(s), n) as int))
    } else {
        s
    }
}

proof fn lemma_boundary_at_or_before(bytes: Seq<u8>, n: nat)
    requires
        valid_utf8(bytes),
        n <= bytes.len(),
    ensures
        boundary_at_or_before(bytes, n) <= n,
        is_char_boundary(bytes, boundary_at_or_before(bytes, n) as int),
    decreases n,
{
    if n == 0 {
        is_char_boundary_start_end_of_seq(bytes);
    } else if !is_char_boundary(bytes, n as int) {
        lemma_boundary_at_or_before(bytes, (n - 1) as nat);
    }
}

/// The longest prefix of `s` that fits in `n` bytes of UTF-8 without cutting
/// through a character.
pub fn clip_to_bytes(s: &str, n: usize) -> (r: &str)
    ensures
        r@ == clip_bytes(s@, n as nat),
{
    if s.as_bytes().len() <= n {
        return s;
    }
    let ghost bytes = s.spec_bytes();
    proof {
        encode_utf8_valid_utf8(s@);
    }
    let mut k: usize = n;
    while k > 0 && !s.is_char_boundary(k)
        invariant
            bytes == s.spec_bytes(),
            valid_utf8(bytes),
            k <= n < bytes.len(),
            boundary_at_or_before(bytes, n as nat) == boundary_at_or_before(bytes, k as nat),
        decreases k,
    {
        k = k - 1;
    }
    proof {
        lemma_boundary_at_or_before(bytes, k as nat);
    }
    let (head, _tail) = s.split_at(k);
    proof {
        encode_utf8_decode_utf8(head@);
    }
    head
}

/// UTF-8 encoding distributes over concatenation.
pub proof fn lemma_encode_utf8_concat(a: Seq<char>, b: Seq<char>)
    ensures
        encode_utf8(a + b) == encode_utf8(a) + encode_utf8(b),
    decreases a.len(),
{
    if a.len() == 0 {
        assert(a + b =~= b);
        assert(encode_utf8(a) =~= Seq::<u8>::empty());
        assert(encode_utf8(a) + encode_utf8(b) =~= encode_utf8(b));
    } else {
        lemma_encode_utf8_concat(a.drop_first(), b);
        assert((a + b).drop_first() =~= a.drop_first() + b);
        assert((a + b)[0] == a[0]);
        assert(encode_utf8(a + b) =~= encode_utf8(a) + encode_utf8(b));
    }
}

/// Clipping keeps whole characters from the front: the clipped text is a
/// prefix of the full text, and it encodes to the full text's bytes up to the
/// last character boundary at or before byte `n`, so it never exceeds `n`
/// bytes; a text that fits is kept whole.
pub proof fn lemma_clip_bytes_prefix(s: Seq<char>, n: nat)
    ensures
        encode_utf8(clip_bytes(s, n)) == if encode_utf8(s).len() > n {
            encode_utf8(s).subrange(0, boundary_at_or_before(encode_utf8(s), n) as int)
        } else {
            encode_utf8(s)
        },
        encode_utf8(s).len() > n ==> encode_utf8(clip_bytes(s, n)).len() <= n,
        encode_utf8(s).len() <= n ==> clip_bytes(s, n) == s,
        clip_bytes(s, n) == s.take(clip_bytes(s, n).len() as int),
{
    let bytes = encode_utf8(s);
    if bytes.len() > n {
        let b = boundary_at_or_before(bytes, n);
        encode_utf8_valid_utf8(s);
        lemma_boundary_at_or_before(bytes, n);
        valid_utf8_split(bytes, b as int);
        decode_utf8_encode_utf8(bytes.subrange(0, b as int));
        decode_utf8_split(bytes, b as int);
        encode_utf8_decode_utf8(s);
        let head = decode_utf8(bytes.subrange(0, b as int));
        assert(s == head + decode_utf8(bytes.subrange(b as int, bytes.len() as int)));
        assert(s.take(head.len() as int) =~= head);
    } else {
        assert(s.take(s.len() as int) =~= s);
    }
}

/// The character content of an optional string.
pub open spec fn opt_view(o: Option<String>) -> Option<Seq<char>> {
    match o {
        Some(s) => Some(s@),
        None => None,
    }
}

/// The character content of an optional string slice.
pub open spec fn opt_str_view(o: Option<&str>) -> Option<Seq<char>> {
    match o {
        Some(s) => Some(s@),
        None => None,
    }
}

/// An owned copy of an optional string.
pub fn clone_opt(o: &Option<String>) -> (r: Option<String>)
    ensures
        r == *o,
{
    match o {
        Some(s) => Some(s.clone()),
        None => None,
    }
}

/// An owned copy of a string slice.
pub fn owned(s: &str) -> (r: String)
    ensures
        r@ == s@,
{
    String::from_str(s)
}

} // verus!
