//! The mathematical model: texts and lines as sequences of characters.

use vstd::prelude::*;

verus! {

/// `needle` fills the positions `at .. at + needle.len()` of `hay`.
pub open spec fn occurs_at(hay: Seq<char>, needle: Seq<char>, at: int) -> bool {
    &&& 0 <= at
    &&& at + needle.len() <= hay.len()
    &&& hay.subrange(at, at + needle.len()) == needle
}

/// `needle` is a contiguous part of `hay`. The empty sequence is a part
/// of every sequence.
pub open spec fn has_substring(hay: Seq<char>, needle: Seq<char>) -> bool {
    exists|at: int| occurs_at(hay, needle, at)
}

/// The position of the first line feed in `text`, or `text.len()` where
/// there is none.
pub open spec fn first_newline(text: Seq<char>) -> int
    decreases text.len(),
{
    if text.len() == 0 || text[0] == '\n' {
        0
    } else {
        1 + first_newline(text.drop_first())
    }
}

/// `line` without the carriage return that it ends with, if it ends with one.
pub open spec fn without_cr(line: Seq<char>) -> Seq<char> {
    if line.len() > 0 && line.last() == '\r' {
        line.drop_last()
    } else {
        line
    }
}

/// The lines of `text`.
///
/// A line ends at a line feed, or at a carriage return directly followed
/// by a line feed; neither belongs to the line. What follows the last
/// line feed is a line of its own unless it is empty, and it keeps a
/// carriage return at its end: only a line feed makes a line ending.
pub open spec fn lines_of(text: Seq<char>) -> Seq<Seq<char>>
    decreases text.len(),
{
    let n = first_newline(text);
    if text.len() == 0 {
        Seq::empty()
    } else if 0 <= n < text.len() {
        seq![without_cr(text.take(n))] + lines_of(text.skip(n + 1))
    } else {
        seq![text]
    }
}

/// `first_newline` is in range, nothing before it is a line feed, and
/// where it is an index it holds a line feed.
pub proof fn lemma_first_newline(text: Seq<char>)
    ensures
        0 <= first_newline(text) <= text.len(),
        forall|j: int| 0 <= j < first_newline(text) ==> text[j] != '\n',
        first_newline(text) < text.len() ==> text[first_newline(text)] == '\n',
    decreases text.len(),
{
    if text.len() != 0 && text[0] != '\n' {
        let rest = text.drop_first();
        lemma_first_newline(rest);
        assert forall|j: int| 0 <= j < first_newline(text) implies text[j] != '\n' by {
            if j > 0 {
                assert(text[j] == rest[j - 1]);
            }
        }
    }
}

/// A position with no line feed before it, which holds one or is the end
/// of `text`, is `first_newline(text)`.
pub proof fn lemma_first_newline_is(text: Seq<char>, at: int)
    requires
        0 <= at <= text.len(),
        forall|j: int| 0 <= j < at ==> text[j] != '\n',
        at < text.len() ==> text[at] == '\n',
    ensures
        first_newline(text) == at,
{
    lemma_first_newline(text);
}

/// A text that is a line-feed-free `head`, a line feed and a `tail` has
/// `head`, without its carriage return, as its first line, and then the
/// lines of `tail`.
pub proof fn lemma_lines_of_split(text: Seq<char>, head: Seq<char>, tail: Seq<char>)
    requires
        text == head + seq!['\n'] + tail,
        !head.contains('\n'),
    ensures
        lines_of(text) == seq![without_cr(head)] + lines_of(tail),
{
    let at = head.len() as int;
    lemma_first_newline_is(text, at);
    assert(text.take(at) =~= head);
    assert(text.skip(at + 1) =~= tail);
}

/// A text without a line feed that is not empty is its own single line.
pub proof fn lemma_lines_of_unbroken(text: Seq<char>)
    requires
        text.len() > 0,
        !text.contains('\n'),
    ensures
        lines_of(text) == seq![text],
{
    lemma_first_newline_is(text, text.len() as int);
}

} // verus!
