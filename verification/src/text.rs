//! Contracts for the few operations on strings that the logic takes from std.
use vstd::prelude::*;

verus! {

/// What `str::to_lowercase` returns for a string that is not all ASCII: the
/// Unicode lowercase mapping of its characters, which may change the length and
/// depends on context (a final sigma).
pub uninterp spec fn lowercase(s: Seq<char>) -> Seq<char>;

/// Whether every character of `s` is ASCII.
pub open spec fn is_ascii_text(s: Seq<char>) -> bool {
    forall|i: int| 0 <= i < s.len() ==> (#[trigger] s[i] as u32) < 0x80
}

/// An ASCII uppercase letter as its lowercase letter; any other character as it is.
pub open spec fn ascii_lower_char(c: char) -> char {
    if 'A' <= c <= 'Z' {
        ((c as u32) + 32) as char
    } else {
        c
    }
}

/// An ASCII lowercase letter as its uppercase letter; any other character as it is.
pub open spec fn ascii_upper_char(c: char) -> char {
    if 'a' <= c <= 'z' {
        ((c as u32) - 32) as char
    } else {
        c
    }
}

/// Every ASCII uppercase letter of `s` made lowercase.
pub open spec fn ascii_lower(s: Seq<char>) -> Seq<char> {
    s.map_values(|c: char| ascii_lower_char(c))
}

/// Every ASCII lowercase letter of `s` made uppercase.
pub open spec fn ascii_upper(s: Seq<char>) -> Seq<char> {
    s.map_values(|c: char| ascii_upper_char(c))
}

/// What `str::to_lowercase` returns: for ASCII text, its letters made lowercase
/// one by one (Unicode's lowercase mapping of `A`-`Z` is `a`-`z`, and no other
/// ASCII character changes); for other text, the named result.
pub open spec fn lowercased(s: Seq<char>) -> Seq<char> {
    if is_ascii_text(s) {
        ascii_lower(s)
    } else {
        lowercase(s)
    }
}

/// What `str::trim` returns for a string: the string without its leading and
/// trailing Unicode white space.
pub uninterp spec fn trimmed(s: Seq<char>) -> Seq<char>;

/// `str::to_lowercase` gives the lowercase equivalent of the string: on ASCII
/// text the ASCII letters lowercased; on other text a result that is named, as
/// the Unicode case tables take pages to state.
pub assume_specification[ str::to_lowercase ](s: &str) -> (r: String)
    ensures
        is_ascii_text(s@) ==> r@ == ascii_lower(s@),
        !is_ascii_text(s@) ==> r@ == lowercase(s@),
;

/// `str::trim` gives the string with leading and trailing white space removed;
/// its result is named, as the Unicode white-space table is not restated here.
pub assume_specification<'a>[ str::trim ](s: &'a str) -> (r: &'a str)
    ensures
        r@ == trimmed(s@),
;

/// `String::push` appends one character.
pub assume_specification[ String::push ](s: &mut String, ch: char)
    ensures
        final(s)@ == old(s)@.push(ch),
;

/// `String::pop` removes the last character and hands it back, or gives `None`
/// on an empty string.
pub assume_specification[ String::pop ](s: &mut String) -> (r: Option<char>)
    ensures
        old(s)@.len() == 0 ==> r == None::<char> && final(s)@ == old(s)@,
        old(s)@.len() > 0 ==> r == Some(old(s)@.last()) && final(s)@ == old(s)@.drop_last(),
;

/// `String::clear` removes all contents.
pub assume_specification[ String::clear ](s: &mut String)
    ensures
        final(s)@ == Seq::<char>::empty(),
;

/// Whether `s` begins with `prefix`.
pub open spec fn has_prefix(s: Seq<char>, prefix: Seq<char>) -> bool {
    prefix.len() <= s.len() && s.subrange(0, prefix.len() as int) == prefix
}

/// Whether `needle` occurs somewhere inside `s`.
pub open spec fn has_infix(s: Seq<char>, needle: Seq<char>) -> bool {
    exists|i: int|
        0 <= i && i + needle.len() <= s.len() && #[trigger] s.subrange(i, i + needle.len())
            == needle
}

/// `str::starts_with` with a string pattern: true when the pattern is a prefix.
#[verifier::external_body]
pub(crate) fn starts_with(s: &str, prefix: &str) -> (b: bool)
    ensures
        b == has_prefix(s@, prefix@),
{
    s.starts_with(prefix)
}

/// `str::contains` with a string pattern: true when the pattern occurs as a
/// contiguous part of the string.
#[verifier::external_body]
pub(crate) fn contains(s: &str, needle: &str) -> (b: bool)
    ensures
        b == has_infix(s@, needle@),
{
    s.contains(needle)
}

/// `==` on string slices: equal characters in equal order.
#[verifier::external_body]
pub(crate) fn str_eq(a: &str, b: &str) -> (r: bool)
    ensures
        r == (a@ == b@),
{
    a == b
}

/// The first character of a string, if any.
pub fn first_char(s: &str) -> (r: Option<char>)
    ensures
        s@.len() == 0 ==> r == None::<char>,
        s@.len() > 0 ==> r == Some(s@[0]),
{
    let mut it = s.chars();
    it.next()
}

} // verus!
