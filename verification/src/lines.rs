//! How a text falls into lines.
//!
//! A line feed ends a line, and nothing else does: a line is all that
//! stands before its line feed, a carriage return too. The last line needs
//! no terminator, and a text that ends with a line feed has no further,
//! empty line behind it.

use vstd::prelude::*;

verus! {

/// The number of characters before the first line feed of `text`: all of
/// them if it holds none.
pub open spec fn first_line_len(text: Seq<char>) -> nat
    decreases text.len(),
{
    if text.len() == 0 || text[0] == '\n' {
        0
    } else {
        1 + first_line_len(text.drop_first())
    }
}

/// The lines of `text`, each without the line feed that ends it.
pub open spec fn lines_of(text: Seq<char>) -> Seq<Seq<char>>
    decreases text.len(),
{
    let n = first_line_len(text) as int;
    if text.len() == 0 {
        Seq::empty()
    } else if n >= text.len() {
        seq![text]
    } else {
        seq![text.take(n)] + lines_of(text.skip(n + 1))
    }
}

/// Whether `text` holds no line feed.
pub open spec fn no_line_feed(text: Seq<char>) -> bool {
    forall|i: int| 0 <= i < text.len() ==> text[i] != '\n'
}

/// Whether every line of `text` has its terminator: the text is empty or
/// ends with a line feed.
pub open spec fn is_terminated(text: Seq<char>) -> bool {
    text.len() == 0 || text.last() == '\n'
}

/// `first_line_len` is the place of the first line feed, or the length of a
/// text without one.
pub proof fn lemma_first_line_len(text: Seq<char>)
    ensures
        first_line_len(text) <= text.len(),
        forall|j: int| 0 <= j < first_line_len(text) ==> text[j] != '\n',
        first_line_len(text) < text.len() ==> text[first_line_len(text) as int] == '\n',
    decreases text.len(),
{
    if text.len() > 0 && text[0] != '\n' {
        let rest = text.drop_first();
        lemma_first_line_len(rest);
        assert forall|j: int| 0 <= j < first_line_len(text) implies text[j] != '\n' by {
            if j > 0 {
                assert(text[j] == rest[j - 1]);
            }
        }
    }
}

/// Only one place can be that of the first line feed.
pub proof fn lemma_first_line_len_is(text: Seq<char>, k: int)
    requires
        0 <= k <= text.len(),
        forall|j: int| 0 <= j < k ==> text[j] != '\n',
        k < text.len() ==> text[k] == '\n',
    ensures
        first_line_len(text) == k,
{
    lemma_first_line_len(text);
}

/// A text without a line feed is one line, or none if it is empty.
pub proof fn lemma_lines_of_unterminated(text: Seq<char>)
    requires
        no_line_feed(text),
    ensures
        lines_of(text) == if text.len() == 0 {
            Seq::<Seq<char>>::empty()
        } else {
            seq![text]
        },
{
    lemma_first_line_len_is(text, text.len() as int);
}

/// A line feed behind a text without one makes it a single line.
pub proof fn lemma_lines_of_single_line(line: Seq<char>)
    requires
        no_line_feed(line),
    ensures
        lines_of(line.push('\n')) == seq![line],
{
    let text = line.push('\n');
    lemma_first_line_len_is(text, line.len() as int);
    assert(text.take(line.len() as int) == line);
    assert(text.skip(line.len() as int + 1) == Seq::<char>::empty());
    assert(lines_of(Seq::<char>::empty()) == Seq::<Seq<char>>::empty());
}

/// Behind a text whose lines all have their terminator, the lines of a
/// second text follow unchanged.
pub proof fn lemma_lines_of_concat(a: Seq<char>, b: Seq<char>)
    requires
        is_terminated(a),
    ensures
        lines_of(a + b) == lines_of(a) + lines_of(b),
    decreases a.len(),
{
    if a.len() > 0 {
        lemma_first_line_len(a);
        let n = first_line_len(a) as int;
        let whole = a + b;
        lemma_first_line_len_is(whole, n);
        let rest = a.skip(n + 1);
        assert(whole.take(n) == a.take(n));
        assert(whole.skip(n + 1) == rest + b);
        lemma_lines_of_concat(rest, b);
    }
}

} // verus!
