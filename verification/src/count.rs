//! The counting pass: one scan of a text that yields its five counts.

use vstd::prelude::*;
use vstd::string::StringSliceAdditionalSpecFns;
use crate::chars::{encoded_width, is_whitespace, utf8_len};
use crate::chars::{lemma_utf8_len_concat, lemma_utf8_len_push};
use crate::lines::{first_line_len, is_terminated, lines_of, no_line_feed};
use crate::lines::{lemma_first_line_len, lemma_lines_of_concat, lemma_lines_of_single_line, lemma_lines_of_unterminated};
use crate::words::{at_word_boundary, holds_apart, spaced, word_count, word_total};
use crate::words::{lemma_word_count_gap, lemma_word_count_push, lemma_word_count_spaced};

verus! {

/// What one counting pass found in one source.
#[derive(Clone, Copy, Debug, PartialEq, Eq, Structural)]
pub struct CountResults {
    pub bytes: u64,
    pub chars: u64,
    pub lines: u64,
    pub words: u64,
    pub max_line_length: u64,
}

/// The five counts as mathematical numbers.
pub struct Counts {
    pub lines: nat,
    pub words: nat,
    pub bytes: nat,
    pub chars: nat,
    pub max_line_length: nat,
}

impl Counts {
    /// The counts before any line was read.
    pub open spec fn zero() -> Counts {
        Counts { lines: 0, words: 0, bytes: 0, chars: 0, max_line_length: 0 }
    }

    /// The counts after one more line was read. `line` comes without its
    /// terminator, for which the bytes and the characters count one more
    /// each, whether the source held it or not; the longest line is
    /// measured without it.
    pub open spec fn with_line(self, line: Seq<char>) -> Counts {
        Counts {
            lines: self.lines + 1,
            words: self.words + word_count(line),
            bytes: self.bytes + utf8_len(line) + 1,
            chars: self.chars + line.len() + 1,
            max_line_length: if line.len() > self.max_line_length {
                line.len()
            } else {
                self.max_line_length
            },
        }
    }

    /// The counts of two sources taken together: the sums of the lines,
    /// words, bytes and characters, and the longer of the longest lines.
    pub open spec fn joined(self, other: Counts) -> Counts {
        Counts {
            lines: self.lines + other.lines,
            words: self.words + other.words,
            bytes: self.bytes + other.bytes,
            chars: self.chars + other.chars,
            max_line_length: if other.max_line_length > self.max_line_length {
                other.max_line_length
            } else {
                self.max_line_length
            },
        }
    }
}

impl View for CountResults {
    type V = Counts;

    open spec fn view(&self) -> Counts {
        Counts {
            lines: self.lines as nat,
            words: self.words as nat,
            bytes: self.bytes as nat,
            chars: self.chars as nat,
            max_line_length: self.max_line_length as nat,
        }
    }
}

/// The counts of a sequence of lines, read one after the other.
pub open spec fn tally(lines: Seq<Seq<char>>) -> Counts
    decreases lines.len(),
{
    if lines.len() == 0 {
        Counts::zero()
    } else {
        tally(lines.drop_last()).with_line(lines.last())
    }
}

/// The counts of a text: those of its lines.
pub open spec fn count_text(text: Seq<char>) -> Counts {
    tally(lines_of(text))
}

/// The counts of two runs of lines, one read after the other, are the two
/// counts joined.
pub proof fn lemma_tally_concat(first: Seq<Seq<char>>, second: Seq<Seq<char>>)
    ensures
        tally(first + second) == tally(first).joined(tally(second)),
    decreases second.len(),
{
    if second.len() > 0 {
        assert((first + second).drop_last() == first + second.drop_last());
        lemma_tally_concat(first, second.drop_last());
    }
}

/// One more line behind a text whose lines all have their terminator.
pub proof fn lemma_count_text_line_end(done: Seq<char>, line: Seq<char>)
    requires
        is_terminated(done),
        no_line_feed(line),
    ensures
        count_text(done + line.push('\n')) == count_text(done).with_line(line),
{
    lemma_lines_of_concat(done, line.push('\n'));
    lemma_lines_of_single_line(line);
    let last = seq![line];
    lemma_tally_concat(lines_of(done), last);
    assert(tally(last) == Counts::zero().with_line(line)) by {
        reveal_with_fuel(tally, 2);
    }
}

/// A last line without terminator behind a text whose lines all have theirs.
pub proof fn lemma_count_text_last_line(done: Seq<char>, line: Seq<char>)
    requires
        is_terminated(done),
        no_line_feed(line),
    ensures
        count_text(done + line) == if line.len() == 0 {
            count_text(done)
        } else {
            count_text(done).with_line(line)
        },
{
    lemma_lines_of_concat(done, line);
    lemma_lines_of_unterminated(line);
    lemma_tally_concat(lines_of(done), lines_of(line));
    if line.len() > 0 {
        let last = seq![line];
        assert(tally(last) == Counts::zero().with_line(line)) by {
            reveal_with_fuel(tally, 2);
        }
    }
}

/// An empty text has no lines, so all five of its counts are zero.
pub proof fn count_text_of_empty(text: Seq<char>)
    requires
        text.len() == 0,
    ensures
        count_text(text) == Counts::zero(),
{
}

/// A text that is not empty and holds no line feed is one line: its
/// characters and its bytes are counted with one more each for the
/// terminator that it lacks, and it is itself the longest line.
pub proof fn count_text_of_one_line(text: Seq<char>)
    requires
        text.len() > 0,
        no_line_feed(text),
    ensures
        count_text(text) == (Counts {
            lines: 1,
            words: word_count(text),
            bytes: utf8_len(text) + 1,
            chars: text.len() + 1,
            max_line_length: text.len(),
        }),
{
    lemma_lines_of_unterminated(text);
    assert(tally(seq![text]) == Counts::zero().with_line(text)) by {
        reveal_with_fuel(tally, 2);
    }
}

/// Counting two sources apart and joining the counts gives what counting
/// the first followed by the second gives, where the last line of the first
/// has its terminator: the lines, words, bytes and characters add up, and
/// the longest line is the longer of the two.
pub proof fn count_text_concat(first: Seq<char>, second: Seq<char>)
    requires
        is_terminated(first),
    ensures
        count_text(first + second) == count_text(first).joined(count_text(second)),
{
    lemma_lines_of_concat(first, second);
    lemma_tally_concat(lines_of(first), lines_of(second));
}

/// The words of a text are those of its lines: a line terminator is
/// whitespace, so no word reaches over it.
pub proof fn count_text_words(text: Seq<char>)
    ensures
        count_text(text).words == word_count(text),
    decreases text.len(),
{
    lemma_first_line_len(text);
    let n = first_line_len(text) as int;
    if text.len() == 0 {
    } else if n >= text.len() {
        count_text_of_one_line(text);
    } else {
        let line = text.take(n);
        let rest = text.skip(n + 1);
        let gap = seq!['\n'];
        count_text_words(rest);
        assert(text == line.push('\n') + rest);
        lemma_count_text_line_end(Seq::<char>::empty(), line);
        count_text_concat(line.push('\n'), rest);
        assert(line.push('\n') == line + gap);
        lemma_word_count_gap(line, gap, rest);
    }
}

/// How much whitespace holds the parts of a text apart makes no difference
/// to the number of its words: between any part and the next, one run of
/// whitespace counts as any other, so more whitespace may be put into any
/// of the runs, or all of them made a single space.
pub proof fn count_text_words_ignore_gap_widths(
    parts: Seq<Seq<char>>,
    gaps: Seq<Seq<char>>,
    other_gaps: Seq<Seq<char>>,
)
    requires
        holds_apart(gaps, parts),
        holds_apart(other_gaps, parts),
    ensures
        count_text(spaced(parts, gaps)).words == count_text(spaced(parts, other_gaps)).words,
        count_text(spaced(parts, gaps)).words == word_total(parts),
{
    count_text_words(spaced(parts, gaps));
    count_text_words(spaced(parts, other_gaps));
    lemma_word_count_spaced(parts, gaps);
    lemma_word_count_spaced(parts, other_gaps);
}

/// Counts the lines, words, bytes and characters of `text` and measures its
/// longest line, in one pass.
///
/// The text is shorter than `u64::MAX` bytes, so that each count fits its 64
/// bits; `try_count` is for a caller who does not know that.
pub fn do_count(text: &str) -> (res: CountResults)
    requires
        utf8_len(text@) < u64::MAX,
    ensures
        res@ == count_text(text@),
        text@.len() == 0 ==> res@ == Counts::zero(),
        text@.len() > 0 && no_line_feed(text@) ==> res@ == (Counts {
            lines: 1,
            words: word_count(text@),
            bytes: utf8_len(text@) + 1,
            chars: text@.len() + 1,
            max_line_length: text@.len(),
        }),
{
    let mut res = CountResults { bytes: 0, chars: 0, lines: 0, words: 0, max_line_length: 0 };
    let mut line_bytes: u64 = 0;
    let mut line_chars: u64 = 0;
    let mut line_words: u64 = 0;
    let mut after_space = true;
    let ghost mut start: int = 0;
    for c in it: text.chars()
        invariant
            it.seq() == text@,
            0 <= start <= it.index(),
            is_terminated(text@.take(start)),
            res@ == count_text(text@.take(start)),
            no_line_feed(text@.subrange(start, it.index())),
            line_bytes == utf8_len(text@.subrange(start, it.index())),
            line_chars == it.index() - start,
            line_words == word_count(text@.subrange(start, it.index())),
            after_space == at_word_boundary(text@.subrange(start, it.index())),
            res.bytes + line_bytes <= utf8_len(text@.take(it.index())),
            res.chars + line_chars <= it.index(),
            res.lines <= start,
            res.words + line_words <= it.index(),
            res.max_line_length <= it.index(),
            it.index() <= utf8_len(text@.take(it.index())),
            utf8_len(text@.take(it.index())) <= utf8_len(text@),
            utf8_len(text@) < u64::MAX,
    {
        let ghost i = it.index();
        let ghost done = text@.take(start);
        let ghost line = text@.subrange(start, i);
        proof {
            assert(text@.take(i + 1) == text@.take(i).push(c));
            lemma_utf8_len_push(text@.take(i), c);
            assert(text@ == text@.take(i + 1) + text@.skip(i + 1));
            lemma_utf8_len_concat(text@.take(i + 1), text@.skip(i + 1));
            assert(text@.subrange(start, i + 1) == line.push(c));
            assert(text@.take(i + 1) == done + line.push(c));
        }
        if c == '\n' {
            proof {
                lemma_count_text_line_end(done, line);
            }
            res.lines += 1;
            res.bytes += line_bytes + 1;
            res.words += line_words;
            res.chars += line_chars + 1;
            if line_chars > res.max_line_length {
                res.max_line_length = line_chars;
            }
            line_bytes = 0;
            line_chars = 0;
            line_words = 0;
            after_space = true;
            proof {
                start = i + 1;
            }
        } else {
            let space = is_whitespace(c);
            proof {
                lemma_utf8_len_push(line, c);
                lemma_word_count_push(line, c);
            }
            line_bytes += encoded_width(c);
            line_chars += 1;
            if !space && after_space {
                line_words += 1;
            }
            after_space = space;
        }
    }
    proof {
        let done = text@.take(start);
        let line = text@.subrange(start, text@.len() as int);
        assert(text@ == done + line);
        lemma_count_text_last_line(done, line);
        if text@.len() > 0 && no_line_feed(text@) {
            count_text_of_one_line(text@);
        }
    }
    if line_chars > 0 {
        res.lines += 1;
        res.bytes += line_bytes + 1;
        res.words += line_words;
        res.chars += line_chars + 1;
        if line_chars > res.max_line_length {
            res.max_line_length = line_chars;
        }
    }
    res
}

/// Counts `text` where its counts are sure to fit their 64 bits each: where
/// it is shorter than `u64::MAX` bytes.
pub fn try_count(text: &str) -> (counted: Option<CountResults>)
    ensures
        match counted {
            Some(res) => utf8_len(text@) < u64::MAX && res@ == count_text(text@),
            None => utf8_len(text@) >= u64::MAX,
        },
{
    let bytes = text.as_bytes();
    if (bytes.len() as u64) < u64::MAX {
        Some(do_count(text))
    } else {
        None
    }
}

} // verus!
