//! The option parser that the command line is read with: the `getopts`
//! crate, as far as this library calls it.
//!
//! Nothing in this file is proved. Each function makes one call into
//! `getopts`, and its contract says what the source of `getopts` shows of
//! that call.

use vstd::prelude::*;
use getopts::{Fail, Matches, Options};

verus! {

/// `getopts::Options`: the options that a program takes. What one holds is
/// spoken of through `declared`.
#[verifier::external_type_specification]
#[verifier::external_body]
pub struct ExOptions(Options);

/// `getopts::Matches`: what the parser found in accepted arguments. What
/// one holds is spoken of through `matched` and `free_of`.
#[verifier::external_type_specification]
#[verifier::external_body]
pub struct ExMatches(Matches);

/// `getopts::Fail`: why the parser rejected the arguments. What one says
/// is spoken of through `fail_text`.
#[verifier::external_type_specification]
#[verifier::external_body]
pub struct ExFail(Fail);

/// The options that `opts` holds, in the order in which they were declared:
/// of each its short name, its long name and its description.
pub uninterp spec fn declared(opts: Options) -> Seq<(Seq<char>, Seq<char>, Seq<char>)>;

/// Whether `opts` is as `Options::new` made it but for flags declared by
/// `Options::optflag`: it parses in the style that `getopts` starts with,
/// and each of its options may be given at most once and takes no argument.
/// Then what `declared` tells of it is all that parsing and the help text
/// depend on.
pub uninterp spec fn flags_only(opts: Options) -> bool;

/// What `Options::parse` makes of the arguments `args` under the flags
/// `table`: for accepted arguments, which of the names `Matches::opt_present`
/// would find present, and the arguments left free, in their order; for
/// rejected ones, the text that `Fail` displays.
pub uninterp spec fn parse_outcome(
    table: Seq<(Seq<char>, Seq<char>, Seq<char>)>,
    args: Seq<Seq<char>>,
) -> Result<(Map<Seq<char>, bool>, Seq<Seq<char>>), Seq<char>>;

/// The option names that `matches` knows, each with whether it was given.
pub uninterp spec fn matched(matches: Matches) -> Map<Seq<char>, bool>;

/// The free arguments that `matches` holds, in their order.
pub uninterp spec fn free_of(matches: Matches) -> Seq<Seq<char>>;

/// The text that `fail` displays.
pub uninterp spec fn fail_text(fail: Fail) -> Seq<char>;

/// The rows of the help text that `Options::usage` derives from the flags
/// `table`, one row for each flag, with a line feed between one row and the
/// next.
pub uninterp spec fn usage_rows(table: Seq<(Seq<char>, Seq<char>, Seq<char>)>) -> Seq<char>;

/// The help text around its rows, as `Options::usage` lays it out: the line
/// `brief`, an empty line, the heading `Options:`, the rows, and a line
/// feed.
pub open spec fn usage_frame(brief: Seq<char>, rows: Seq<char>) -> Seq<char> {
    brief + seq!['\n', '\n', 'O', 'p', 't', 'i', 'o', 'n', 's', ':', '\n'] + rows + seq!['\n']
}

/// Whether `short` and `long` can name a flag: `getopts` takes an empty short
/// name or one of a single byte, and an empty long name or one of more than
/// one byte. A single character below 128 is a single byte, and two or more
/// characters are more than one.
pub open spec fn names_accepted(short: Seq<char>, long: Seq<char>) -> bool {
    &&& short.len() <= 1
    &&& short.len() == 1 ==> (short[0] as u32) < 0x80
    &&& long.len() != 1
}

/// Whether each flag of `table` has a name. `Options::parse` does not take
/// a flag without one.
pub open spec fn all_named(table: Seq<(Seq<char>, Seq<char>, Seq<char>)>) -> bool {
    forall|i: int| 0 <= i < table.len() ==> (#[trigger] table[i]).0.len() > 0 || table[i].1.len() > 0
}

/// Whether `names` holds every name of every flag of `table`.
pub open spec fn knows_all(names: Set<Seq<char>>, table: Seq<(Seq<char>, Seq<char>, Seq<char>)>) -> bool {
    forall|i: int|
        0 <= i < table.len() ==> {
            &&& (#[trigger] table[i]).0.len() > 0 ==> names.contains(table[i].0)
            &&& table[i].1.len() > 0 ==> names.contains(table[i].1)
        }
}

/// `Options::new`: a set of options that holds no flag yet.
#[verifier::external_body]
pub(crate) fn new_options() -> (opts: Options)
    ensures
        declared(opts) == Seq::<(Seq<char>, Seq<char>, Seq<char>)>::empty(),
        flags_only(opts),
{
    Options::new()
}

/// `Options::optflag`: declares one more flag, which may be given at most
/// once and takes no argument, behind those that `opts` holds.
#[verifier::external_body]
pub(crate) fn declare_flag(opts: &mut Options, short: &str, long: &str, desc: &str)
    requires
        names_accepted(short@, long@),
    ensures
        declared(*final(opts)) == declared(*old(opts)).push((short@, long@, desc@)),
        flags_only(*final(opts)) == flags_only(*old(opts)),
{
    opts.optflag(short, long, desc);
}

/// `Options::parse`: reads `args` under the flags of `opts`, which holds
/// flags only. The result is `parse_outcome` of the flags and the arguments,
/// and accepted arguments come with matches that know every name of every
/// flag.
#[verifier::external_body]
pub(crate) fn parse_args(opts: &Options, args: &[String]) -> (r: Result<Matches, Fail>)
    requires
        flags_only(*opts),
        all_named(declared(*opts)),
    ensures
        match r {
            Ok(matches) => {
                &&& parse_outcome(declared(*opts), args.deep_view()) == Ok::<
                    (Map<Seq<char>, bool>, Seq<Seq<char>>),
                    Seq<char>,
                >((matched(matches), free_of(matches)))
                &&& knows_all(matched(matches).dom(), declared(*opts))
            },
            Err(fail) => parse_outcome(declared(*opts), args.deep_view()) == Err::<
                (Map<Seq<char>, bool>, Seq<Seq<char>>),
                Seq<char>,
            >(fail_text(fail)),
        },
{
    opts.parse(args)
}

/// `Matches::opt_present`: whether the option `name` was given. `getopts`
/// panics on a name that it does not know.
#[verifier::external_body]
pub(crate) fn flag_present(matches: &Matches, name: &str) -> (present: bool)
    requires
        matched(*matches).dom().contains(name@),
    ensures
        present == matched(*matches)[name@],
{
    matches.opt_present(name)
}

/// The field `free` of `Matches`: the arguments that are no options.
#[verifier::external_body]
pub(crate) fn free_arguments(matches: &Matches) -> (free: Vec<String>)
    ensures
        free.deep_view() == free_of(*matches),
{
    matches.free.clone()
}

/// The `Display` of `Fail`: what was wrong with the arguments, in words.
#[verifier::external_body]
pub(crate) fn fail_message(fail: &Fail) -> (text: String)
    ensures
        text@ == fail_text(*fail),
{
    fail.to_string()
}

/// `Options::usage`: the help text for the flags of `opts`, which holds
/// flags only, under the first line `brief`. `getopts` lays it out as
/// `usage_frame` says; the rows are its own.
#[verifier::external_body]
pub(crate) fn usage(opts: &Options, brief: &str) -> (text: String)
    requires
        flags_only(*opts),
    ensures
        text@ == usage_frame(brief@, usage_rows(declared(*opts))),
{
    opts.usage(brief)
}

} // verus!
