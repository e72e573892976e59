//! Counting the lines, words, bytes and characters of a text, and the length
//! of its longest line, with the command line and the report that go with it.

pub mod chars;
pub mod cli;
pub mod count;
pub mod decimal;
pub mod lines;
pub mod options;
pub mod report;
pub mod source;
pub mod words;

pub use cli::{interpret_args, usage_text, Invocation, UsageError};
pub use count::{do_count, try_count, CountResults};
pub use report::{format_open_error, format_results, RequestedMetrics};
pub use source::{report_source, Output, Source};
