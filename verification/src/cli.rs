//! The command line: which counts were asked for, and of which sources.

use vstd::prelude::*;
use vstd::slice::slice_subrange;
use vstd::string::StringExecFns;
use getopts::Options;
use crate::options::{all_named, declared, flags_only, parse_outcome, usage_frame, usage_rows};
use crate::options::{declare_flag, fail_message, flag_present, free_arguments, new_options, parse_args, usage};
use crate::report::RequestedMetrics;

verus! {

/// What a command line asks for.
#[derive(Clone, Debug, PartialEq, Eq)]
pub struct Invocation {
    /// Whether help was asked for.
    pub help: bool,
    /// The counts to show.
    pub metrics: RequestedMetrics,
    /// The files to count, in the order in which they were named.
    pub files: Vec<String>,
}

/// An `Invocation` as a mathematical value.
pub struct InvocationModel {
    pub help: bool,
    pub metrics: RequestedMetrics,
    pub files: Seq<Seq<char>>,
}

impl View for Invocation {
    type V = InvocationModel;

    open spec fn view(&self) -> InvocationModel {
        InvocationModel { help: self.help, metrics: self.metrics, files: self.files.deep_view() }
    }
}

/// A command line that the option parser did not accept.
#[derive(Clone, Debug, PartialEq, Eq)]
pub struct UsageError {
    /// What was wrong with it, in words.
    pub message: String,
}

/// The flags of the command line: of each its short name, its long name and
/// its description.
pub open spec fn flag_table() -> Seq<(Seq<char>, Seq<char>, Seq<char>)> {
    seq![
        ("l"@, "lines"@, "print the newline counts"@),
        ("w"@, "words"@, "print the word counts"@),
        ("c"@, "bytes"@, "print the byte counts"@),
        ("m"@, "chars"@, "print the character counts"@),
        ("L"@, "max-line-length"@, "print the length of the longest line"@),
        ("h"@, "help"@, "display this help and exit"@),
    ]
}

/// What the flags that were given and the free arguments ask for.
pub open spec fn interpreted(given: Map<Seq<char>, bool>, free: Seq<Seq<char>>) -> InvocationModel {
    InvocationModel {
        help: given["h"@],
        metrics: RequestedMetrics {
            lines: given["lines"@],
            words: given["words"@],
            bytes: given["bytes"@],
            chars: given["chars"@],
            max_line_length: given["max-line-length"@],
        },
        files: free,
    }
}

/// The arguments of a command line: all but the first, which is the
/// program's name.
pub open spec fn arguments_of(command_line: Seq<Seq<char>>) -> Seq<Seq<char>> {
    if command_line.len() == 0 {
        command_line
    } else {
        command_line.skip(1)
    }
}

/// The first line of the help text for the program called `program`.
pub open spec fn usage_brief(program: Seq<char>) -> Seq<char> {
    "Usage: "@ + program + " [options] [<file>]"@
}

/// Declares the flags of the command line.
fn declare_flags() -> (opts: Options)
    ensures
        declared(opts) == flag_table(),
        flags_only(opts),
        all_named(flag_table()),
{
    proof {
        reveal_strlit("l");
        reveal_strlit("w");
        reveal_strlit("c");
        reveal_strlit("m");
        reveal_strlit("L");
        reveal_strlit("h");
        reveal_strlit("lines");
        reveal_strlit("words");
        reveal_strlit("bytes");
        reveal_strlit("chars");
        reveal_strlit("max-line-length");
        reveal_strlit("help");
    }
    let mut opts = new_options();
    declare_flag(&mut opts, "l", "lines", "print the newline counts");
    declare_flag(&mut opts, "w", "words", "print the word counts");
    declare_flag(&mut opts, "c", "bytes", "print the byte counts");
    declare_flag(&mut opts, "m", "chars", "print the character counts");
    declare_flag(&mut opts, "L", "max-line-length", "print the length of the longest line");
    declare_flag(&mut opts, "h", "help", "display this help and exit");
    opts
}

/// Reads a command line: the program's name, which is passed over, and
/// behind it the arguments.
///
/// The option parser decides which arguments it accepts. Of accepted ones,
/// the result holds whether `-h` was given, which of the five counts were
/// asked for by their flags, and the free arguments as the files to count.
/// Of rejected ones, it holds the parser's words.
pub fn interpret_args(args: &[String]) -> (r: Result<Invocation, UsageError>)
    ensures
        match parse_outcome(flag_table(), arguments_of(args.deep_view())) {
            Ok(found) => r matches Ok(invocation) && invocation@ == interpreted(found.0, found.1),
            Err(text) => r matches Err(error) && error.message@ == text,
        },
{
    let opts = declare_flags();
    let arguments = if args.len() == 0 {
        args
    } else {
        slice_subrange(args, 1, args.len())
    };
    assert(arguments.deep_view() == arguments_of(args.deep_view()));
    match parse_args(&opts, arguments) {
        Ok(matches) => {
            proof {
                reveal_strlit("h");
                reveal_strlit("lines");
                reveal_strlit("words");
                reveal_strlit("bytes");
                reveal_strlit("chars");
                reveal_strlit("max-line-length");
            }
            let help = flag_present(&matches, "h");
            let metrics = RequestedMetrics {
                lines: flag_present(&matches, "lines"),
                words: flag_present(&matches, "words"),
                bytes: flag_present(&matches, "bytes"),
                chars: flag_present(&matches, "chars"),
                max_line_length: flag_present(&matches, "max-line-length"),
            };
            let files = free_arguments(&matches);
            Ok(Invocation { help, metrics, files })
        },
        Err(fail) => Err(UsageError { message: fail_message(&fail) }),
    }
}

/// Makes the help text for the program called `program`: it begins with
/// the line `Usage: <program> [options] [<file>]`, and below it stands what
/// the option parser derives from the flags.
pub fn usage_text(program: &str) -> (text: String)
    ensures
        text@ == usage_frame(usage_brief(program@), usage_rows(flag_table())),
        text@.len() > usage_brief(program@).len(),
        text@.take(usage_brief(program@).len() as int) == usage_brief(program@),
        text@[usage_brief(program@).len() as int] == '\n',
{
    let opts = declare_flags();
    let mut brief = String::new();
    brief.append("Usage: ");
    brief.append(program);
    brief.append(" [options] [<file>]");
    usage(&opts, brief.as_str())
}

} // verus!
