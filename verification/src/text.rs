use vstd::prelude::*;

verus! {

/// The Unicode `White_Space` property, which `char::is_whitespace` tests.
pub open spec fn spec_is_whitespace(c: char) -> bool {
    let v = c as u32;
    (0x9 <= v && v <= 0xD) || v == 0x20 || v == 0x85 || v == 0xA0 || v == 0x1680
        || (0x2000 <= v && v <= 0x200A) || v == 0x2028 || v == 0x2029 || v == 0x202F
        || v == 0x205F || v == 0x3000
}

/// Whether `c` has the Unicode `White_Space` property.
pub fn is_whitespace(c: char) -> (b: bool)
    ensures
        b == spec_is_whitespace(c),
{
    let v = c as u32;
    (0x9 <= v && v <= 0xD) || v == 0x20 || v == 0x85 || v == 0xA0 || v == 0x1680
        || (0x2000 <= v && v <= 0x200A) || v == 0x2028 || v == 0x2029 || v == 0x202F
        || v == 0x205F || v == 0x3000
}

/// Whether `c` is an ASCII character.
pub open spec fn spec_is_ascii(c: char) -> bool {
    (c as u32) < 0x80
}

/// What `char::is_alphanumeric` answers for `c` (Unicode `Alphabetic` or `Numeric`).
pub uninterp spec fn char_is_alphanumeric(c: char) -> bool;

/// ASCII letters and digits.
pub open spec fn spec_is_ascii_alphanumeric(c: char) -> bool {
    ('a' <= c && c <= 'z') || ('A' <= c && c <= 'Z') || ('0' <= c && c <= '9')
}

/// Calls `char::is_alphanumeric`. The contract names its answer and states that on ASCII
/// input it holds exactly for letters and digits; the Unicode tables are not restated.
#[verifier::external_body]
pub(crate) fn is_alphanumeric(c: char) -> (b: bool)
    ensures
        b == char_is_alphanumeric(c),
        spec_is_ascii(c) ==> (b <==> spec_is_ascii_alphanumeric(c)),
{
    c.is_alphanumeric()
}

/// Whether `s` reads `lit`.
pub(crate) fn text_is(s: &String, lit: &str) -> (b: bool)
    ensures
        b == (s@ == lit@),
{
    *s == String::from_str(lit)
}

/// Calls `String::push`, which appends one character.
#[verifier::external_body]
pub(crate) fn push_char(s: &mut String, c: char)
    ensures
        final(s)@ == old(s)@.push(c),
{
    s.push(c);
}

/// `c` made small when it is an ASCII capital.
pub open spec fn ascii_lower_char(c: char) -> char {
    if 'A' <= c <= 'Z' { ((c as u32) + 32) as char } else { c }
}

/// `c` made capital when it is a small ASCII letter.
pub open spec fn ascii_upper_char(c: char) -> char {
    if 'a' <= c <= 'z' { ((c as u32) - 32) as char } else { c }
}

/// Whether every character of `s` is ASCII.
pub open spec fn all_ascii(s: Seq<char>) -> bool {
    forall|i: int| 0 <= i < s.len() ==> spec_is_ascii(#[trigger] s[i])
}

/// `s` lowercased: ASCII capitals made small in ASCII text, the full Unicode mapping of
/// `str::to_lowercase` otherwise.
pub open spec fn case_lower(s: Seq<char>) -> Seq<char> {
    if all_ascii(s) { s.map_values(|c: char| ascii_lower_char(c)) } else { lowercase(s) }
}

/// `s` uppercased: small ASCII letters made capital in ASCII text, the full Unicode mapping of
/// `str::to_uppercase` otherwise.
pub open spec fn case_upper(s: Seq<char>) -> Seq<char> {
    if all_ascii(s) { s.map_values(|c: char| ascii_upper_char(c)) } else { uppercase(s) }
}

/// The lowercase mapping that `str::to_lowercase` applies to a whole string.
pub uninterp spec fn lowercase(s: Seq<char>) -> Seq<char>;

/// Calls `str::to_lowercase`. Every character maps to one or more characters, so the result is
/// empty exactly when the input is and never shorter; ASCII text has its capitals made small
/// and nothing else changed. The Unicode case tables beyond ASCII are not restated.
#[verifier::external_body]
pub(crate) fn to_lowercase(s: &str) -> (r: String)
    ensures
        r@ == lowercase(s@),
        r@.len() >= s@.len(),
        s@.len() == 0 ==> r@.len() == 0,
        all_ascii(s@) ==> r@ == s@.map_values(|c: char| ascii_lower_char(c)),
        r@ == case_lower(s@),
{
    s.to_lowercase()
}

/// The uppercase mapping that `str::to_uppercase` applies to a whole string.
pub uninterp spec fn uppercase(s: Seq<char>) -> Seq<char>;

/// Calls `str::to_uppercase`. Every character maps to one or more characters, so the result is
/// empty exactly when the input is and never shorter; ASCII text has its small letters made
/// capital and nothing else changed. The Unicode case tables beyond ASCII are not restated.
#[verifier::external_body]
pub(crate) fn to_uppercase(s: &str) -> (r: String)
    ensures
        r@ == uppercase(s@),
        r@.len() >= s@.len(),
        s@.len() == 0 ==> r@.len() == 0,
        all_ascii(s@) ==> r@ == s@.map_values(|c: char| ascii_upper_char(c)),
        r@ == case_upper(s@),
{
    s.to_uppercase()
}

/// The decimal digits of `n`, most significant first, without leading zeros.
pub open spec fn digits(n: nat) -> Seq<char>
    decreases n,
{
    if n < 10 {
        seq![(48 + n) as char]
    } else {
        digits(n / 10).push((48 + n % 10) as char)
    }
}

/// `v` in decimal, with a minus sign when negative.
pub open spec fn signed_digits(v: int) -> Seq<char> {
    if v < 0 {
        seq!['-'] + digits((-v) as nat)
    } else {
        digits(v as nat)
    }
}

/// Appends the decimal digits of `n` to `s`.
pub fn push_digits(s: &mut String, n: u64)
    ensures
        final(s)@ == old(s)@ + digits(n as nat),
    decreases n,
{
    if n < 10 {
        let d = (48u8 + n as u8) as char;
        push_char(s, d);
        assert(s@ =~= old(s)@ + digits(n as nat));
    } else {
        push_digits(s, n / 10);
        let d = (48u8 + (n % 10) as u8) as char;
        push_char(s, d);
        assert(s@ =~= old(s)@ + digits(n as nat));
    }
}

/// Appends `v` in decimal to `s`, with a minus sign when negative.
pub fn push_signed_digits(s: &mut String, v: i64)
    requires
        v > i64::MIN,
    ensures
        final(s)@ == old(s)@ + signed_digits(v as int),
{
    if v < 0 {
        push_char(s, '-');
        push_digits(s, (-v) as u64);
        assert(s@ =~= old(s)@ + signed_digits(v as int));
    } else {
        push_digits(s, v as u64);
    }
}

} // verus!

verus! {

/// Calls `std::str::from_utf8` and copies the text out: `Some` exactly for valid UTF-8, holding
/// the decoded characters.
#[verifier::external_body]
pub(crate) fn utf8_text(bytes: &[u8]) -> (r: Option<String>)
    ensures
        r is Some <==> vstd::utf8::valid_utf8(bytes@),
        r matches Some(s) ==> s@ == vstd::utf8::decode_utf8(bytes@),
{
    match std::str::from_utf8(bytes) {
        Ok(s) => Some(s.to_string()),
        Err(_) => None,
    }
}

} // verus!
