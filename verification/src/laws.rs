//! What holds of every search, proved from the definitions.

use vstd::prelude::*;
use crate::search::{folded_match, literal_match, matching_lines, matching_lines_folded};
use crate::strings::lowercase_of;
use crate::text::{
    first_newline, has_substring, lemma_first_newline, lines_of, occurs_at, without_cr,
};

verus! {

/// Lowercasing keeps the matches of `query` among `lines`: wherever a
/// line contains `query`, its lowercase form contains the lowercase form
/// of `query`.
pub open spec fn lowercasing_keeps_matches(lines: Seq<Seq<char>>, query: Seq<char>) -> bool {
    forall|i: int|
        0 <= i < lines.len() && has_substring(#[trigger] lines[i], query) ==> has_substring(
            lowercase_of(lines[i]),
            lowercase_of(query),
        )
}

/// A test that every item passes filters nothing out.
proof fn lemma_filter_keeps_all(lines: Seq<Seq<char>>, test: spec_fn(Seq<char>) -> bool)
    requires
        forall|i: int| 0 <= i < lines.len() ==> test(#[trigger] lines[i]),
    ensures
        lines.filter(test) == lines,
    decreases lines.len(),
{
    reveal(Seq::filter);
    if lines.len() > 0 {
        let front = lines.drop_last();
        lemma_filter_keeps_all(front, test);
    }
}

/// Where one test implies another on every item, the first keeps no more
/// items than the second.
proof fn lemma_filter_len_monotone(
    lines: Seq<Seq<char>>,
    narrow: spec_fn(Seq<char>) -> bool,
    wide: spec_fn(Seq<char>) -> bool,
)
    requires
        forall|i: int| 0 <= i < lines.len() && narrow(#[trigger] lines[i]) ==> wide(lines[i]),
    ensures
        lines.filter(narrow).len() <= lines.filter(wide).len(),
    decreases lines.len(),
{
    reveal(Seq::filter);
    if lines.len() > 0 {
        let front = lines.drop_last();
        lemma_filter_len_monotone(front, narrow, wide);
    }
}

/// Every line of a text stands in the text as it is, and holds no line
/// feed.
pub proof fn law_lines_are_parts_of_the_text(text: Seq<char>)
    ensures
        forall|i: int|
            0 <= i < lines_of(text).len() ==> {
                &&& has_substring(text, #[trigger] lines_of(text)[i])
                &&& !lines_of(text)[i].contains('\n')
            },
    decreases text.len(),
{
    let n = first_newline(text);
    let lines = lines_of(text);
    lemma_first_newline(text);
    if text.len() == 0 {
    } else if n < text.len() {
        let head = without_cr(text.take(n));
        let tail = text.skip(n + 1);
        law_lines_are_parts_of_the_text(tail);
        assert forall|i: int| 0 <= i < lines.len() implies {
            &&& has_substring(text, #[trigger] lines[i])
            &&& !lines[i].contains('\n')
        } by {
            if i == 0 {
                assert(text.subrange(0, head.len() as int) =~= head);
                assert(occurs_at(text, head, 0));
            } else {
                let line = lines_of(tail)[i - 1];
                let at = choose|at: int| occurs_at(tail, line, at);
                assert(text.subrange(n + 1 + at, n + 1 + at + line.len()) =~= tail.subrange(
                    at,
                    at + line.len(),
                ));
                assert(occurs_at(text, line, n + 1 + at));
            }
        }
    } else {
        assert(text.subrange(0, text.len() as int) =~= text);
        assert(occurs_at(text, text, 0));
    }
}

/// Filtering returns exactly the items that pass the test, in order:
/// every item returned is one of `lines` and passes; every one of `lines`
/// that passes is returned; and wherever `lines` is cut in two, what is
/// kept of the first part comes first, then what is kept of the second.
proof fn lemma_filter_is_exact(lines: Seq<Seq<char>>, test: spec_fn(Seq<char>) -> bool)
    ensures
        forall|i: int|
            0 <= i < lines.filter(test).len() ==> {
                &&& test(#[trigger] lines.filter(test)[i])
                &&& lines.contains(lines.filter(test)[i])
            },
        forall|j: int|
            0 <= j < lines.len() && test(#[trigger] lines[j]) ==> lines.filter(test).contains(
                lines[j],
            ),
        forall|k: int|
            0 <= k <= lines.len() ==> lines.filter(test) == (#[trigger] lines.take(k)).filter(test)
                + lines.skip(k).filter(test),
{
    let found = lines.filter(test);
    assert forall|i: int| 0 <= i < found.len() implies {
        &&& test(#[trigger] found[i])
        &&& lines.contains(found[i])
    } by {
        lines.lemma_filter_pred(test, i);
        lines.lemma_filter_contains_rev(test, found[i]);
    }
    assert forall|j: int| 0 <= j < lines.len() && test(#[trigger] lines[j]) implies found.contains(
        lines[j],
    ) by {
        lines.lemma_filter_contains(test, j);
    }
    assert forall|k: int| 0 <= k <= lines.len() implies found == (#[trigger] lines.take(k)).filter(
        test,
    ) + lines.skip(k).filter(test) by {
        assert(lines.take(k) + lines.skip(k) =~= lines);
        Seq::filter_distributes_over_add(lines.take(k), lines.skip(k), test);
    }
}

/// A case-sensitive search returns exactly the lines that contain the
/// query, in the order of the text: every line returned is a line of the
/// text and contains the query; every line of the text that contains the
/// query is returned; and wherever the text's lines are cut in two, the
/// lines found before the cut come first, then those found after it.
pub proof fn law_case_sensitive_search_is_exact(query: Seq<char>, text: Seq<char>)
    ensures
        forall|i: int|
            0 <= i < matching_lines(lines_of(text), query).len() ==> {
                &&& has_substring(#[trigger] matching_lines(lines_of(text), query)[i], query)
                &&& lines_of(text).contains(matching_lines(lines_of(text), query)[i])
            },
        forall|j: int|
            0 <= j < lines_of(text).len() && has_substring(#[trigger] lines_of(text)[j], query)
                ==> matching_lines(lines_of(text), query).contains(lines_of(text)[j]),
        forall|k: int|
            0 <= k <= lines_of(text).len() ==> matching_lines(lines_of(text), query)
                == matching_lines(#[trigger] lines_of(text).take(k), query) + matching_lines(
                lines_of(text).skip(k),
                query,
            ),
{
    lemma_filter_is_exact(lines_of(text), literal_match(query));
}

/// A case-insensitive search returns exactly the lines whose lowercase
/// form contains the lowercase form of the query, in the order of the
/// text: every line returned is a line of the text and passes that test;
/// every line of the text that passes it is returned; and wherever the
/// text's lines are cut in two, the lines found before the cut come
/// first, then those found after it.
pub proof fn law_case_insensitive_search_is_exact(query: Seq<char>, text: Seq<char>)
    ensures
        forall|i: int|
            0 <= i < matching_lines_folded(lines_of(text), query).len() ==> {
                &&& has_substring(
                    lowercase_of(#[trigger] matching_lines_folded(lines_of(text), query)[i]),
                    lowercase_of(query),
                )
                &&& lines_of(text).contains(matching_lines_folded(lines_of(text), query)[i])
            },
        forall|j: int|
            0 <= j < lines_of(text).len() && has_substring(
                lowercase_of(#[trigger] lines_of(text)[j]),
                lowercase_of(query),
            ) ==> matching_lines_folded(lines_of(text), query).contains(lines_of(text)[j]),
        forall|k: int|
            0 <= k <= lines_of(text).len() ==> matching_lines_folded(lines_of(text), query)
                == matching_lines_folded(#[trigger] lines_of(text).take(k), query)
                + matching_lines_folded(lines_of(text).skip(k), query),
{
    lemma_filter_is_exact(lines_of(text), folded_match(query));
}

/// Where lowercasing keeps the matches of the query among the lines of
/// the text, a case-insensitive search returns every line that the
/// case-sensitive search returns, and at least as many lines.
pub proof fn law_case_insensitive_search_finds_no_less(query: Seq<char>, text: Seq<char>)
    requires
        lowercasing_keeps_matches(lines_of(text), query),
    ensures
        matching_lines(lines_of(text), query).len() <= matching_lines_folded(
            lines_of(text),
            query,
        ).len(),
        forall|i: int|
            0 <= i < matching_lines(lines_of(text), query).len() ==> matching_lines_folded(
                lines_of(text),
                query,
            ).contains(#[trigger] matching_lines(lines_of(text), query)[i]),
{
    let lines = lines_of(text);
    let found = matching_lines(lines, query);
    lemma_filter_len_monotone(lines, literal_match(query), folded_match(query));
    assert forall|i: int| 0 <= i < found.len() implies matching_lines_folded(
        lines,
        query,
    ).contains(#[trigger] found[i]) by {
        lines.lemma_filter_pred(literal_match(query), i);
        lines.lemma_filter_contains_rev(literal_match(query), found[i]);
        let j = choose|j: int| 0 <= j < lines.len() && lines[j] == found[i];
        lines.lemma_filter_contains(folded_match(query), j);
    }
}

/// What a search returns depends on the characters of the query and of
/// the text alone: equal inputs give equal results.
pub proof fn law_search_is_determined(
    query: Seq<char>,
    text: Seq<char>,
    same_query: Seq<char>,
    same_text: Seq<char>,
)
    requires
        query == same_query,
        text == same_text,
    ensures
        matching_lines(lines_of(text), query) == matching_lines(lines_of(same_text), same_query),
        matching_lines_folded(lines_of(text), query) == matching_lines_folded(
            lines_of(same_text),
            same_query,
        ),
{
}

/// A case-sensitive search for the empty query returns every line of the
/// text, unchanged.
pub proof fn law_empty_query_finds_every_line(text: Seq<char>)
    ensures
        matching_lines(lines_of(text), Seq::empty()) == lines_of(text),
{
    let lines = lines_of(text);
    let nothing = Seq::<char>::empty();
    assert forall|i: int| 0 <= i < lines.len() implies literal_match(nothing)(
        #[trigger] lines[i],
    ) by {
        assert(lines[i].subrange(0, 0) =~= nothing);
        assert(occurs_at(lines[i], nothing, 0));
    }
    lemma_filter_keeps_all(lines, literal_match(nothing));
}

/// The empty text has no lines, so no search finds anything in it.
pub proof fn law_empty_text_has_no_match(query: Seq<char>)
    ensures
        lines_of(Seq::empty()) == Seq::<Seq<char>>::empty(),
        matching_lines(lines_of(Seq::empty()), query) == Seq::<Seq<char>>::empty(),
        matching_lines_folded(lines_of(Seq::empty()), query) == Seq::<Seq<char>>::empty(),
{
    reveal(Seq::filter);
}

} // verus!
