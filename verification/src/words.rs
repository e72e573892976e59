//! The words of a line: its maximal runs of characters that are not
//! whitespace.

use vstd::prelude::*;
use crate::chars::{all_space, is_space};

verus! {

/// Whether a word begins at place `i` of `line`: a character that is not
/// whitespace stands there, and it is the first of the line or follows
/// whitespace.
pub open spec fn starts_word(line: Seq<char>, i: int) -> bool {
    &&& 0 <= i < line.len()
    &&& !is_space(line[i])
    &&& (i == 0 || is_space(line[i - 1]))
}

/// The number of words in `line`. Each word begins at exactly one place, so
/// this is the number of places at which one begins.
pub open spec fn word_count(line: Seq<char>) -> nat
    decreases line.len(),
{
    if line.len() == 0 {
        0
    } else {
        word_count(line.drop_last()) + if starts_word(line, line.len() - 1) {
            1nat
        } else {
            0nat
        }
    }
}

/// Whether the characters of `line` from place `from` up to, not including,
/// place `to` are a word: a run of characters that are not whitespace, which
/// is not empty and cannot be made longer at either end.
pub open spec fn is_word(line: Seq<char>, from: int, to: int) -> bool {
    &&& 0 <= from < to <= line.len()
    &&& forall|k: int| from <= k < to ==> !is_space(line[k])
    &&& (from == 0 || is_space(line[from - 1]))
    &&& (to == line.len() || is_space(line[to]))
}

/// The first place at or behind `from` that holds whitespace, or the length
/// of `line` if there is none.
pub open spec fn word_end(line: Seq<char>, from: int) -> int
    decreases line.len() - from,
{
    if from < 0 || from >= line.len() || is_space(line[from]) {
        from
    } else {
        word_end(line, from + 1)
    }
}

/// The texts `parts` set one behind the other, with `gaps[i]` between part
/// `i` and the next.
pub open spec fn spaced(parts: Seq<Seq<char>>, gaps: Seq<Seq<char>>) -> Seq<char>
    decreases parts.len(),
{
    if parts.len() == 0 {
        Seq::empty()
    } else if parts.len() == 1 {
        parts[0]
    } else {
        spaced(parts.drop_last(), gaps.drop_last()) + gaps.last() + parts.last()
    }
}

/// Whether `gaps` are runs of whitespace to hold `parts` apart: one between
/// each part and the next, none of them empty.
pub open spec fn holds_apart(gaps: Seq<Seq<char>>, parts: Seq<Seq<char>>) -> bool {
    &&& gaps.len() + 1 == parts.len()
    &&& forall|i: int| 0 <= i < gaps.len() ==> (#[trigger] gaps[i]).len() > 0 && all_space(gaps[i])
}

/// The words of all of `parts`, each part counted by itself.
pub open spec fn word_total(parts: Seq<Seq<char>>) -> nat
    decreases parts.len(),
{
    if parts.len() == 0 {
        0
    } else {
        word_total(parts.drop_last()) + word_count(parts.last())
    }
}

/// Whether a character put behind `line` would begin a word, if it is not
/// whitespace itself.
pub open spec fn at_word_boundary(line: Seq<char>) -> bool {
    line.len() == 0 || is_space(line.last())
}

/// What one more character does to the number of words.
pub proof fn lemma_word_count_push(line: Seq<char>, c: char)
    ensures
        word_count(line.push(c)) == word_count(line) + if !is_space(c) && at_word_boundary(line) {
            1nat
        } else {
            0nat
        },
{
    assert(line.push(c).drop_last() == line);
}

/// Up to `word_end` no whitespace stands, and whitespace or the end of the
/// line stands there.
pub proof fn lemma_word_end(line: Seq<char>, from: int)
    requires
        0 <= from <= line.len(),
    ensures
        from <= word_end(line, from) <= line.len(),
        forall|k: int| from <= k < word_end(line, from) ==> !is_space(line[k]),
        word_end(line, from) == line.len() || is_space(line[word_end(line, from)]),
    decreases line.len() - from,
{
    if from < line.len() && !is_space(line[from]) {
        lemma_word_end(line, from + 1);
    }
}

/// The words of a line and the places at which one begins match one to one:
/// a word begins where `starts_word` says, there is a word from each such
/// place, and only one.
pub proof fn lemma_words_match_starts(line: Seq<char>, from: int)
    ensures
        starts_word(line, from) <==> exists|to: int| is_word(line, from, to),
        forall|to: int| is_word(line, from, to) ==> to == word_end(line, from),
{
    if starts_word(line, from) {
        lemma_word_end(line, from);
        assert(is_word(line, from, word_end(line, from)));
    }
    assert forall|to: int| is_word(line, from, to) implies to == word_end(line, from) by {
        lemma_word_end(line, from);
    }
}

/// Where the first part ends at a word boundary, the words of the two parts
/// add up.
pub proof fn lemma_word_count_concat(a: Seq<char>, b: Seq<char>)
    requires
        at_word_boundary(a),
    ensures
        word_count(a + b) == word_count(a) + word_count(b),
    decreases b.len(),
{
    if b.len() > 0 {
        assert((a + b).drop_last() == a + b.drop_last());
        lemma_word_count_concat(a, b.drop_last());
    }
}

/// Whitespace at the end of a line adds no word.
pub proof fn lemma_word_count_trailing_space(a: Seq<char>, gap: Seq<char>)
    requires
        all_space(gap),
    ensures
        word_count(a + gap) == word_count(a),
        gap.len() > 0 ==> at_word_boundary(a + gap),
    decreases gap.len(),
{
    if gap.len() > 0 {
        assert((a + gap).drop_last() == a + gap.drop_last());
        lemma_word_count_trailing_space(a, gap.drop_last());
    }
}

/// Two parts that whitespace holds apart have their words counted apart,
/// however much whitespace it is.
pub proof fn lemma_word_count_gap(a: Seq<char>, gap: Seq<char>, b: Seq<char>)
    requires
        all_space(gap),
        gap.len() > 0,
    ensures
        word_count(a + gap + b) == word_count(a) + word_count(b),
{
    lemma_word_count_trailing_space(a, gap);
    lemma_word_count_concat(a + gap, b);
}

/// Parts that whitespace holds apart have their words counted apart,
/// however many parts there are and however much whitespace between them.
pub proof fn lemma_word_count_spaced(parts: Seq<Seq<char>>, gaps: Seq<Seq<char>>)
    requires
        holds_apart(gaps, parts),
    ensures
        word_count(spaced(parts, gaps)) == word_total(parts),
    decreases parts.len(),
{
    if parts.len() == 1 {
        assert(word_total(parts.drop_last()) == 0);
    } else {
        lemma_word_count_spaced(parts.drop_last(), gaps.drop_last());
        lemma_word_count_gap(spaced(parts.drop_last(), gaps.drop_last()), gaps.last(), parts.last());
    }
}

} // verus!
