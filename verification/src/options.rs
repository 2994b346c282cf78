//! The command-line options, as the `getopts` crate declares and parses them.
//!
//! Nothing in this file is proved: it states what the rest of the library
//! takes the crate to do.

use vstd::prelude::*;
use vstd::string::*;

verus! {

/// `getopts::Options`: a table of declared options.
#[verifier::external_type_specification]
#[verifier::external_body]
pub struct ExOptions(getopts::Options);

/// `getopts::Matches`: a parsed command line.
#[verifier::external_type_specification]
#[verifier::external_body]
pub struct ExMatches(getopts::Matches);

/// One declared option that may be given at most once: its short and long
/// name, its description and the hint for its argument, and whether it
/// takes an argument.
pub struct Declared {
    pub short: Seq<char>,
    pub long: Seq<char>,
    pub desc: Seq<char>,
    pub hint: Seq<char>,
    pub takes_value: bool,
}

impl Declared {
    /// Names that `getopts` accepts and finds again: one ASCII character as
    /// the short name, two characters or more as the long name.
    pub open spec fn well_named(self) -> bool {
        &&& self.short.len() == 1
        &&& self.short[0] as u32 <= 0x7f
        &&& self.long.len() >= 2
    }
}

/// The options that `opts` holds, in the order in which they were declared.
pub uninterp spec fn declared(opts: getopts::Options) -> Seq<Declared>;

/// Whether `opts` parses as `getopts::Options::new` sets it up: options and
/// free arguments in any order, long options behind two dashes.
pub uninterp spec fn floating(opts: getopts::Options) -> bool;

/// What `m` holds: for each name that it knows, the occurrences of that
/// option in the order of the command line, each with its argument where
/// one was given.
pub uninterp spec fn matched(m: getopts::Matches) -> Map<Seq<char>, Seq<Option<Seq<char>>>>;

/// What `getopts::Options::parse` makes of the arguments `args` with the
/// options `table`: the occurrences of each option, or the message of the
/// failure.
pub uninterp spec fn parsed(table: Seq<Declared>, args: Seq<Seq<char>>) -> Result<
    Map<Seq<char>, Seq<Option<Seq<char>>>>,
    Seq<char>,
>;

/// The text that `getopts::Options::usage` makes of the options `table`
/// under the heading `brief`.
pub uninterp spec fn usage_text(table: Seq<Declared>, brief: Seq<char>) -> Seq<char>;

/// The arguments as sequences of characters.
pub open spec fn texts(args: Seq<String>) -> Seq<Seq<char>> {
    args.map_values(|s: String| s@)
}

/// `getopts::Options::new`: a table without options, in the default mode.
pub assume_specification[ getopts::Options::new ]() -> (opts: getopts::Options)
    ensures
        declared(opts) == Seq::<Declared>::empty(),
        floating(opts),
;

/// `getopts::Options::optopt`: adds an option that takes an argument and
/// may be given at most once. The names are those that the crate accepts
/// without panicking.
#[verifier::external_body]
pub(crate) fn declare_opt(
    opts: &mut getopts::Options,
    short: &str,
    long: &str,
    desc: &str,
    hint: &str,
)
    requires
        (Declared { short: short@, long: long@, desc: desc@, hint: hint@, takes_value: true })
            .well_named(),
    ensures
        declared(*final(opts)) == declared(*old(opts)).push(
            Declared { short: short@, long: long@, desc: desc@, hint: hint@, takes_value: true },
        ),
        floating(*final(opts)) == floating(*old(opts)),
{
    opts.optopt(short, long, desc, hint);
}

/// `getopts::Options::optflag`: adds an option that takes no argument and
/// may be given at most once.
#[verifier::external_body]
pub(crate) fn declare_flag(opts: &mut getopts::Options, short: &str, long: &str, desc: &str)
    requires
        (Declared {
            short: short@,
            long: long@,
            desc: desc@,
            hint: Seq::empty(),
            takes_value: false,
        }).well_named(),
    ensures
        declared(*final(opts)) == declared(*old(opts)).push(
            Declared {
                short: short@,
                long: long@,
                desc: desc@,
                hint: Seq::empty(),
                takes_value: false,
            },
        ),
        floating(*final(opts)) == floating(*old(opts)),
{
    opts.optflag(short, long, desc);
}

/// `getopts::Options::parse`, with the failure turned into its message by
/// `to_string`. The result depends on the table and the arguments alone, and
/// what comes back on success knows every name of the table.
#[verifier::external_body]
pub(crate) fn parse(opts: &getopts::Options, args: &[String]) -> (r: Result<
    getopts::Matches,
    String,
>)
    requires
        floating(*opts),
        forall|i: int| 0 <= i < declared(*opts).len() ==> (#[trigger] declared(*opts)[i]).well_named(),
    ensures
        match r {
            Ok(m) => {
                &&& parsed(declared(*opts), texts(args@)) == Ok::<_, Seq<char>>(matched(m))
                &&& forall|i: int|
                    0 <= i < declared(*opts).len() ==> {
                        &&& matched(m).dom().contains((#[trigger] declared(*opts)[i]).short)
                        &&& matched(m).dom().contains(declared(*opts)[i].long)
                    }
            },
            Err(msg) => parsed(declared(*opts), texts(args@)) == Err::<
                Map<Seq<char>, Seq<Option<Seq<char>>>>,
                _,
            >(msg@),
        },
{
    match opts.parse(args) {
        Ok(m) => Ok(m),
        Err(f) => Err(f.to_string()),
    }
}

/// `getopts::Matches::opt_present`: whether the option occurred. It panics
/// on a name that `m` does not know.
pub assume_specification[ getopts::Matches::opt_present ](
    m: &getopts::Matches,
    name: &str,
) -> (r: bool)
    requires
        matched(*m).dom().contains(name@),
    ensures
        r == (matched(*m)[name@].len() > 0),
;

/// `getopts::Matches::opt_str`: the argument of the option's first
/// occurrence, if it occurred and had one. It panics on a name that `m`
/// does not know.
pub assume_specification[ getopts::Matches::opt_str ](m: &getopts::Matches, name: &str) -> (r:
    Option<String>)
    requires
        matched(*m).dom().contains(name@),
    ensures
        match r {
            Some(s) => matched(*m)[name@].len() > 0 && matched(*m)[name@][0] == Some(s@),
            None => matched(*m)[name@].len() == 0 || matched(*m)[name@][0] is None,
        },
;

/// `getopts::Options::usage`: the result depends on the table and the
/// heading alone.
pub assume_specification[ getopts::Options::usage ](opts: &getopts::Options, brief: &str) -> (r:
    String)
    requires
        floating(*opts),
        forall|i: int| 0 <= i < declared(*opts).len() ==> (#[trigger] declared(*opts)[i]).well_named(),
    ensures
        r@ == usage_text(declared(*opts), brief@),
;

} // verus!
