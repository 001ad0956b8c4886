//! The string operations of the standard library that the search rests
//! on. Their contracts are taken from the standard library's
//! documentation and are not proved here.

use vstd::prelude::*;
use crate::text::has_substring;

verus! {

/// The lowercase form that `str::to_lowercase` gives to a string, as a
/// function of the string's characters. Unicode's rules for it fill
/// tables, so the function is named and not defined.
pub uninterp spec fn lowercase_of(s: Seq<char>) -> Seq<char>;

/// `str::split_once` with a line feed as the delimiter: the parts before
/// and after the first line feed of `s`, or `None` where `s` holds none.
#[verifier::external_body]
pub(crate) fn split_once_newline<'a>(s: &'a str) -> (parts: Option<(&'a str, &'a str)>)
    ensures
        match parts {
            Some((head, tail)) => s@ == head@ + seq!['\n'] + tail@ && !head@.contains('\n'),
            None => !s@.contains('\n'),
        },
{
    s.split_once('\n')
}

/// `str::strip_suffix` with a carriage return as the suffix: `s` without
/// its last character where that is a carriage return, else `None`.
#[verifier::external_body]
pub(crate) fn strip_suffix_cr<'a>(s: &'a str) -> (stripped: Option<&'a str>)
    ensures
        match stripped {
            Some(front) => s@ == front@.push('\r'),
            None => s@.len() == 0 || s@.last() != '\r',
        },
{
    s.strip_suffix('\r')
}

/// `str::contains` with a string as the pattern: whether `needle` is a
/// contiguous part of `hay`.
#[verifier::external_body]
pub(crate) fn str_contains(hay: &str, needle: &str) -> (found: bool)
    ensures
        found == has_substring(hay@, needle@),
{
    hay.contains(needle)
}

/// `str::to_lowercase`: the lowercase form of `s` as a new string.
#[verifier::external_body]
pub(crate) fn str_to_lowercase(s: &str) -> (lower: String)
    ensures
        lower@ == lowercase_of(s@),
{
    s.to_lowercase()
}

} // verus!
