//! Trusted text helpers: the few places the lexer and the registry rely
//! on the standard library's Unicode handling.
//!
//! Each character class and the case fold are given a name; the library's
//! contracts are stated over those names, and every other step is
//! verified.

use vstd::prelude::*;

verus! {

/// What `char::is_whitespace` returns for `c`.
pub uninterp spec fn is_unicode_whitespace(c: char) -> bool;

/// What `char::is_alphanumeric` returns for `c`.
pub uninterp spec fn is_unicode_alphanumeric(c: char) -> bool;

/// What `char::is_numeric` returns for `c`.
pub uninterp spec fn is_unicode_numeric(c: char) -> bool;

/// What `str::to_uppercase` returns for the character sequence `s`.
pub uninterp spec fn upper_of(s: Seq<char>) -> Seq<char>;

/// Relies on char::is_whitespace: true exactly for the White_Space
/// characters, among them space, tab and the line break.
#[verifier::external_body]
pub fn char_is_whitespace(c: char) -> (r: bool)
    ensures
        r == is_unicode_whitespace(c),
        c == ' ' || c == '\t' || c == '\n' || c == '\r' ==> r,
{
    c.is_whitespace()
}

/// Relies on char::is_alphanumeric: true exactly for alphabetic and
/// numeric characters; the ASCII letters and digits are among them, the
/// ASCII punctuation is not.
#[verifier::external_body]
pub fn char_is_alphanumeric(c: char) -> (r: bool)
    ensures
        r == is_unicode_alphanumeric(c),
        ('0' <= c && c <= '9') || ('a' <= c && c <= 'z') || ('A' <= c && c <= 'Z') ==> r,
        c == ',' || c == '.' || c == '-' || c == '/' || c == '*' || c == '_' ==> !r,
        is_unicode_whitespace(c) ==> !r,
{
    c.is_alphanumeric()
}

/// Relies on char::is_numeric: true exactly for numeric characters; the
/// ASCII digits are among them.
#[verifier::external_body]
pub fn char_is_numeric(c: char) -> (r: bool)
    ensures
        r == is_unicode_numeric(c),
        '0' <= c && c <= '9' ==> r,
{
    c.is_numeric()
}

/// Relies on str::to_uppercase: the result is a function of the
/// characters alone, and the uppercase of the empty string is empty.
#[verifier::external_body]
pub fn to_upper(s: &str) -> (r: String)
    ensures
        r@ == upper_of(s@),
        s@.len() == 0 ==> r@.len() == 0,
{
    s.to_uppercase()
}

/// Relies on str::chars: iterating a string yields exactly its
/// characters, in order.
#[verifier::external_body]
pub fn str_to_chars(s: &str) -> (r: Vec<char>)
    ensures
        r@ == s@,
{
    s.chars().collect()
}

/// Relies on FromIterator for String: collecting characters builds the
/// string of exactly those characters, in order.
#[verifier::external_body]
pub fn chars_to_string(v: &Vec<char>) -> (r: String)
    ensures
        r@ == v@,
{
    v.iter().collect()
}

} // verus!
