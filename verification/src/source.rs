//! The sources of a run, and what is written for each of them.

use vstd::prelude::*;
use vstd::string::StringExecFns;
use crate::cli::{Invocation, InvocationModel};
use crate::count::CountResults;
use crate::report::{format_open_error, format_results, open_error_line, report_line, RequestedMetrics};

verus! {

/// One source of text to count.
#[derive(Clone, Debug, PartialEq, Eq)]
pub enum Source {
    /// The standard input.
    Stdin,
    /// The file at this path.
    File(String),
}

/// A `Source` as a mathematical value.
pub enum SourceModel {
    Stdin,
    File(Seq<char>),
}

impl View for Source {
    type V = SourceModel;

    open spec fn view(&self) -> SourceModel {
        match self {
            Source::Stdin => SourceModel::Stdin,
            Source::File(path) => SourceModel::File(path@),
        }
    }
}

impl DeepView for Source {
    type V = SourceModel;

    open spec fn deep_view(&self) -> SourceModel {
        self@
    }
}

impl SourceModel {
    /// The label under which the source is reported: `<stdin>` for the
    /// standard input, its path for a file.
    pub open spec fn label(self) -> Seq<char> {
        match self {
            SourceModel::Stdin => "<stdin>"@,
            SourceModel::File(path) => path,
        }
    }
}

/// The sources that `invocation` has read: none where it asks for help,
/// else the standard input where it names no file, else the files that it
/// names, in their order.
pub open spec fn planned_sources(invocation: InvocationModel) -> Seq<SourceModel> {
    if invocation.help {
        Seq::empty()
    } else if invocation.files.len() == 0 {
        seq![SourceModel::Stdin]
    } else {
        Seq::new(invocation.files.len(), |i: int| SourceModel::File(invocation.files[i]))
    }
}

/// What is written for one source.
#[derive(Clone, Debug, PartialEq, Eq)]
pub enum Output {
    /// A line for the standard output: the report of the counts.
    Stdout(String),
    /// A line for the standard error: the source could not be opened.
    Stderr(String),
}

impl Source {
    /// The label under which the source is reported.
    pub fn label(&self) -> (label: String)
        ensures
            label@ == self@.label(),
    {
        match self {
            Source::Stdin => String::from_str("<stdin>"),
            Source::File(path) => path.clone(),
        }
    }
}

impl Invocation {
    /// The sources to read, in the order in which they are read.
    pub fn sources(&self) -> (sources: Vec<Source>)
        ensures
            sources.deep_view() == planned_sources(self@),
    {
        let mut sources: Vec<Source> = Vec::new();
        if self.help {
            return sources;
        }
        if self.files.len() == 0 {
            sources.push(Source::Stdin);
            return sources;
        }
        let mut i: usize = 0;
        while i < self.files.len()
            invariant
                i <= self.files.len(),
                sources.len() == i,
                forall|j: int| 0 <= j < i ==> sources[j]@ == SourceModel::File(self.files[j]@),
            decreases self.files.len() - i,
        {
            sources.push(Source::File(self.files[i].clone()));
            i += 1;
        }
        sources
    }
}

/// Makes what is written for `source`: for a source that was read, the line
/// that reports its counts as far as `metrics` asks for them; for one that
/// could not be opened, the line that says so with the system's words.
pub fn report_source(
    source: &Source,
    outcome: &Result<CountResults, String>,
    metrics: &RequestedMetrics,
) -> (output: Output)
    ensures
        match outcome {
            Ok(counts) => output matches Output::Stdout(line) && line@ == report_line(
                counts@,
                *metrics,
                source@.label(),
            ),
            Err(message) => output matches Output::Stderr(line) && line@ == open_error_line(
                source@.label(),
                message@,
            ),
        },
{
    let label = source.label();
    match outcome {
        Ok(counts) => Output::Stdout(format_results(counts, metrics, label.as_str())),
        Err(message) => Output::Stderr(format_open_error(label.as_str(), message.as_str())),
    }
}

} // verus!
