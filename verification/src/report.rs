//! The report: one line for each source, with the counts that were asked
//! for and the label of the source.

use vstd::prelude::*;
use vstd::string::StringExecFns;
use crate::count::{CountResults, Counts};
use crate::decimal::{decimal, push_decimal};

verus! {

/// The counts that a report shows.
#[derive(Clone, Copy, Debug, PartialEq, Eq, Structural)]
pub struct RequestedMetrics {
    pub lines: bool,
    pub words: bool,
    pub bytes: bool,
    pub chars: bool,
    pub max_line_length: bool,
}

impl RequestedMetrics {
    /// Whether no count at all is shown.
    pub open spec fn is_empty(self) -> bool {
        !self.lines && !self.words && !self.bytes && !self.chars && !self.max_line_length
    }
}

/// What a report shows of one count: where it was asked for, its value in
/// decimal and one space; else nothing.
pub open spec fn metric_text(requested: bool, value: nat) -> Seq<char> {
    if requested {
        decimal(value).push(' ')
    } else {
        Seq::empty()
    }
}

/// The line that reports `counts` for the source `label`: the lines, the
/// words, the bytes, the characters and the longest line, in this order and
/// as far as `metrics` asks for them, then the label.
pub open spec fn report_line(counts: Counts, metrics: RequestedMetrics, label: Seq<char>) -> Seq<
    char,
> {
    metric_text(metrics.lines, counts.lines) + metric_text(metrics.words, counts.words)
        + metric_text(metrics.bytes, counts.bytes) + metric_text(metrics.chars, counts.chars)
        + metric_text(metrics.max_line_length, counts.max_line_length) + label
}

/// The line that reports a source that could not be opened: its label, a
/// colon and a space, and what the system said.
pub open spec fn open_error_line(label: Seq<char>, message: Seq<char>) -> Seq<char> {
    label + seq![':', ' '] + message
}

/// Writes one count behind what `out` holds, if it was asked for.
fn push_metric(out: &mut String, requested: bool, value: u64)
    ensures
        final(out)@ == old(out)@ + metric_text(requested, value as nat),
{
    if requested {
        push_decimal(out, value);
        out.append(" ");
        proof {
            reveal_strlit(" ");
        }
    }
}

/// Makes the line that reports `counts` for the source `label`, without a
/// line feed at its end.
pub fn format_results(counts: &CountResults, metrics: &RequestedMetrics, label: &str) -> (line:
    String)
    ensures
        line@ == report_line(counts@, *metrics, label@),
        metrics.is_empty() ==> line@ == label@,
{
    let mut line = String::new();
    push_metric(&mut line, metrics.lines, counts.lines);
    push_metric(&mut line, metrics.words, counts.words);
    push_metric(&mut line, metrics.bytes, counts.bytes);
    push_metric(&mut line, metrics.chars, counts.chars);
    push_metric(&mut line, metrics.max_line_length, counts.max_line_length);
    line.append(label);
    line
}

/// Makes the line that reports that the source `label` could not be opened,
/// without a line feed at its end.
pub fn format_open_error(label: &str, message: &str) -> (line: String)
    ensures
        line@ == open_error_line(label@, message@),
{
    let mut line = String::new();
    line.append(label);
    line.append(": ");
    line.append(message);
    proof {
        reveal_strlit(": ");
    }
    line
}

} // verus!
