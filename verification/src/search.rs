//! Splitting a text into lines and keeping the lines that match a query.

use vstd::prelude::*;
use crate::strings::{
    lowercase_of, split_once_newline, str_contains, str_to_lowercase, strip_suffix_cr,
};
use crate::text::{
    has_substring, lemma_lines_of_split, lemma_lines_of_unbroken, lines_of, without_cr,
};

verus! {

/// The test that a line passes in a case-sensitive search for `query`:
/// the line contains `query` as it stands.
pub open spec fn literal_match(query: Seq<char>) -> spec_fn(Seq<char>) -> bool {
    |line: Seq<char>| has_substring(line, query)
}

/// The test that a line passes in a case-insensitive search for `query`:
/// the lowercase form of the line contains the lowercase form of `query`.
pub open spec fn folded_match(query: Seq<char>) -> spec_fn(Seq<char>) -> bool {
    |line: Seq<char>| has_substring(lowercase_of(line), lowercase_of(query))
}

/// The lines among `lines` that contain `query`, in the order of `lines`.
pub open spec fn matching_lines(lines: Seq<Seq<char>>, query: Seq<char>) -> Seq<Seq<char>> {
    lines.filter(literal_match(query))
}

/// The lines among `lines` whose lowercase form contains the lowercase
/// form of `query`, in the order of `lines`.
pub open spec fn matching_lines_folded(lines: Seq<Seq<char>>, query: Seq<char>) -> Seq<
    Seq<char>,
> {
    lines.filter(folded_match(query))
}

/// Of the first `n` lines, those whose key contains `needle`, in order.
/// The key of `lines[i]` is `keys[i]`.
pub open spec fn selected_upto(
    lines: Seq<Seq<char>>,
    keys: Seq<Seq<char>>,
    needle: Seq<char>,
    n: int,
) -> Seq<Seq<char>>
    decreases n,
{
    if n <= 0 {
        Seq::empty()
    } else {
        let front = selected_upto(lines, keys, needle, n - 1);
        if has_substring(keys[n - 1], needle) {
            front.push(lines[n - 1])
        } else {
            front
        }
    }
}

/// The lines whose key contains `needle`, in order. Lines and keys are
/// paired by position, as far as both go.
pub open spec fn selected(lines: Seq<Seq<char>>, keys: Seq<Seq<char>>, needle: Seq<char>) -> Seq<
    Seq<char>,
> {
    let n = if lines.len() <= keys.len() {
        lines.len()
    } else {
        keys.len()
    };
    selected_upto(lines, keys, needle, n as int)
}

/// Selecting by keys is filtering, where a test on the line itself says
/// whether its key contains the needle.
pub proof fn lemma_selected_is_filter(
    lines: Seq<Seq<char>>,
    keys: Seq<Seq<char>>,
    needle: Seq<char>,
    n: int,
    test: spec_fn(Seq<char>) -> bool,
)
    requires
        0 <= n <= lines.len(),
        n <= keys.len(),
        forall|i: int| 0 <= i < n ==> test(lines[i]) == has_substring(#[trigger] keys[i], needle),
    ensures
        selected_upto(lines, keys, needle, n) == lines.take(n).filter(test),
    decreases n,
{
    if n == 0 {
        reveal(Seq::filter);
    } else {
        lemma_selected_is_filter(lines, keys, needle, n - 1, test);
        assert(lines.take(n) =~= lines.take(n - 1).push(lines[n - 1]));
        lines.take(n - 1).lemma_filter_push(lines[n - 1], test);
    }
}

/// Splits `contents` into its lines, each a slice of `contents`.
pub fn lines<'a>(contents: &'a str) -> (out: Vec<&'a str>)
    ensures
        out.deep_view() == lines_of(contents@),
{
    let mut out: Vec<&'a str> = Vec::new();
    let mut rest: &'a str = contents;
    while !rest.is_empty()
        invariant
            out.deep_view() + lines_of(rest@) == lines_of(contents@),
        decreases rest@.len(),
    {
        match split_once_newline(rest) {
            Some((head, tail)) => {
                let line = match strip_suffix_cr(head) {
                    Some(front) => front,
                    None => head,
                };
                proof {
                    lemma_lines_of_split(rest@, head@, tail@);
                    assert(line@ =~= without_cr(head@));
                }
                out.push(line);
                rest = tail;
            },
            None => {
                proof {
                    lemma_lines_of_unbroken(rest@);
                }
                out.push(rest);
                return out;
            },
        }
    }
    out
}

/// Keeps the lines whose key contains `needle`, in order. The key of
/// `lines[i]` is `keys[i]`; a line without a key is left out.
pub fn select_by_keys<'a>(lines: &Vec<&'a str>, keys: &Vec<String>, needle: &str) -> (found: Vec<
    &'a str,
>)
    ensures
        found.deep_view() == selected(lines.deep_view(), keys.deep_view(), needle@),
{
    let n: usize = if lines.len() <= keys.len() {
        lines.len()
    } else {
        keys.len()
    };
    let mut found: Vec<&'a str> = Vec::new();
    let mut i: usize = 0;
    while i < n
        invariant
            i <= n,
            n <= lines.len(),
            n <= keys.len(),
            found.deep_view() == selected_upto(
                lines.deep_view(),
                keys.deep_view(),
                needle@,
                i as int,
            ),
        decreases n - i,
    {
        if str_contains(keys[i].as_str(), needle) {
            found.push(lines[i]);
        }
        i += 1;
    }
    found
}

/// The lines of `contents` that contain `query`, in the order in which
/// they stand in `contents`. Each is a slice of `contents`.
pub fn search<'a>(query: &str, contents: &'a str) -> (found: Vec<&'a str>)
    ensures
        found.deep_view() == matching_lines(lines_of(contents@), query@),
{
    let all = lines(contents);
    let mut found: Vec<&'a str> = Vec::new();
    let mut i: usize = 0;
    proof {
        reveal(Seq::filter);
    }
    while i < all.len()
        invariant
            i <= all.len(),
            found.deep_view() == matching_lines(all.deep_view().take(i as int), query@),
        decreases all.len() - i,
    {
        let ghost seen = all.deep_view().take(i as int);
        proof {
            assert(all.deep_view().take(i + 1) =~= seen.push(all[i as int]@));
            seen.lemma_filter_push(all[i as int]@, literal_match(query@));
        }
        if str_contains(all[i], query) {
            found.push(all[i]);
        }
        i += 1;
    }
    assert(all.deep_view().take(all.len() as int) =~= all.deep_view());
    found
}

/// The lines of `contents` whose lowercase form contains the lowercase
/// form of `query`, in the order in which they stand in `contents`. Each
/// is a slice of `contents`, in the case in which it stands there.
pub fn search_case_insensitive<'a>(query: &str, contents: &'a str) -> (found: Vec<&'a str>)
    ensures
        found.deep_view() == matching_lines_folded(lines_of(contents@), query@),
{
    let all = lines(contents);
    let needle = str_to_lowercase(query);
    let mut keys: Vec<String> = Vec::new();
    let mut i: usize = 0;
    while i < all.len()
        invariant
            i <= all.len(),
            keys.len() == i,
            forall|j: int| 0 <= j < i ==> (#[trigger] keys[j])@ == lowercase_of(all[j]@),
        decreases all.len() - i,
    {
        keys.push(str_to_lowercase(all[i]));
        i += 1;
    }
    let found = select_by_keys(&all, &keys, needle.as_str());
    proof {
        let n = all.len() as int;
        lemma_selected_is_filter(
            all.deep_view(),
            keys.deep_view(),
            needle@,
            n,
            folded_match(query@),
        );
        assert(all.deep_view().take(n) =~= all.deep_view());
    }
    found
}

} // verus!
