//! What a run is asked to do, as the command line says it.

use vstd::prelude::*;
use vstd::slice::*;
use vstd::string::*;
use crate::options::{
    declare_flag, declare_opt, declared, floating, matched, parse, parsed, texts, usage_text,
    Declared,
};
use crate::palette::{dump_text, table_colors, Palette, SchemeError};
use crate::scheme::{Scheme, SchemeView};
use crate::text::text_eq;

verus! {

/// The parameters of a run that installs a colour scheme.
#[derive(Clone, Debug, PartialEq, Eq)]
pub struct Job {
    /// The name under which the program was called.
    pub this: String,
    /// The colour scheme to switch to.
    pub scheme: Scheme,
}

/// A `Job` as plain values.
pub struct JobView {
    pub this: Seq<char>,
    pub scheme: SchemeView,
}

/// What a run does.
#[derive(Clone, Debug, PartialEq, Eq)]
pub enum Action {
    /// List the built-in schemes.
    List,
    /// Print the colours of a scheme.
    Dump(Scheme),
    /// Install a scheme on the console.
    Apply(Job),
}

/// An `Action` as plain values.
pub enum ActionView {
    List,
    Dump(SchemeView),
    Apply(JobView),
}

/// A run: what it does, and whether it reports on its progress.
#[derive(Clone, Debug, PartialEq, Eq)]
pub struct Invocation {
    pub verbose: bool,
    pub action: Action,
}

/// An `Invocation` as plain values.
pub struct InvocationView {
    pub verbose: bool,
    pub action: ActionView,
}

/// Why the command line asks for no run.
#[derive(Clone, Debug, PartialEq, Eq)]
pub enum CliError {
    /// The arguments do not fit the options; the text says why.
    Parse(String),
    /// The option to print a scheme names none.
    NoSchemeGiven,
    /// The option to read a file names none.
    NoFileGiven,
}

/// A `CliError` as plain values.
pub enum CliErrorView {
    Parse(Seq<char>),
    NoSchemeGiven,
    NoFileGiven,
}

/// The options that were given on the command line: for each flag whether it
/// occurred, and for each option that takes an argument whether it occurred
/// and what its argument was.
#[derive(Clone, Debug, PartialEq, Eq)]
pub struct Given {
    pub verbose: bool,
    pub list: bool,
    pub dump: bool,
    pub dump_name: Option<String>,
    pub file: bool,
    pub file_name: Option<String>,
    pub scheme: Option<String>,
}

/// A `Given` as plain values.
pub struct GivenView {
    pub verbose: bool,
    pub list: bool,
    pub dump: bool,
    pub dump_name: Option<Seq<char>>,
    pub file: bool,
    pub file_name: Option<Seq<char>>,
    pub scheme: Option<Seq<char>>,
}

/// The characters of a string that may be absent.
pub open spec fn opt_text(s: Option<String>) -> Option<Seq<char>> {
    match s {
        Some(t) => Some(t@),
        None => None,
    }
}

impl View for Job {
    type V = JobView;

    open spec fn view(&self) -> JobView {
        JobView { this: self.this@, scheme: self.scheme@ }
    }
}

impl View for Action {
    type V = ActionView;

    open spec fn view(&self) -> ActionView {
        match self {
            Action::List => ActionView::List,
            Action::Dump(s) => ActionView::Dump(s@),
            Action::Apply(j) => ActionView::Apply(j@),
        }
    }
}

impl View for Invocation {
    type V = InvocationView;

    open spec fn view(&self) -> InvocationView {
        InvocationView { verbose: self.verbose, action: self.action@ }
    }
}

impl View for CliError {
    type V = CliErrorView;

    open spec fn view(&self) -> CliErrorView {
        match self {
            CliError::Parse(msg) => CliErrorView::Parse(msg@),
            CliError::NoSchemeGiven => CliErrorView::NoSchemeGiven,
            CliError::NoFileGiven => CliErrorView::NoFileGiven,
        }
    }
}

impl View for Given {
    type V = GivenView;

    open spec fn view(&self) -> GivenView {
        GivenView {
            verbose: self.verbose,
            list: self.list,
            dump: self.dump,
            dump_name: opt_text(self.dump_name),
            file: self.file,
            file_name: opt_text(self.file_name),
            scheme: opt_text(self.scheme),
        }
    }
}

/// A result as plain values.
pub open spec fn result_view(r: Result<Invocation, CliError>) -> Result<
    InvocationView,
    CliErrorView,
> {
    match r {
        Ok(inv) => Ok(inv@),
        Err(e) => Err(e@),
    }
}

/// Whether the option `name` occurred.
pub open spec fn occurred(m: Map<Seq<char>, Seq<Option<Seq<char>>>>, name: Seq<char>) -> bool {
    m[name].len() > 0
}

/// The argument of the first occurrence of the option `name`.
pub open spec fn first_value(
    m: Map<Seq<char>, Seq<Option<Seq<char>>>>,
    name: Seq<char>,
) -> Option<Seq<char>> {
    if m[name].len() > 0 {
        m[name][0]
    } else {
        None
    }
}

impl CliError {
    /// The message for this error.
    pub open spec fn text(self) -> Seq<char> {
        match self {
            CliError::Parse(msg) => msg@,
            CliError::NoSchemeGiven => "no color scheme given, aborting"@,
            CliError::NoFileGiven => "no file name specified, aborting"@,
        }
    }

    /// The message for this error.
    pub fn message(&self) -> (s: String)
        ensures
            s@ == self.text(),
    {
        match self {
            CliError::Parse(msg) => msg.clone(),
            CliError::NoSchemeGiven => String::from_str("no color scheme given, aborting"),
            CliError::NoFileGiven => String::from_str("no file name specified, aborting"),
        }
    }
}

impl Job {
    /// The options of the command line.
    pub open spec fn table() -> Seq<Declared> {
        seq![
            Declared {
                short: "s"@,
                long: "scheme"@,
                desc: "predefined color scheme"@,
                hint: "NAME"@,
                takes_value: true,
            },
            Declared {
                short: "d"@,
                long: "dump"@,
                desc: "dump predefined scheme"@,
                hint: "NAME"@,
                takes_value: true,
            },
            Declared {
                short: "f"@,
                long: "file"@,
                desc: "apply scheme from file"@,
                hint: "PATH"@,
                takes_value: true,
            },
            Declared {
                short: "v"@,
                long: "verbose"@,
                desc: "enable verbose messages"@,
                hint: Seq::empty(),
                takes_value: false,
            },
            Declared {
                short: "l"@,
                long: "list"@,
                desc: "list available color schemes"@,
                hint: Seq::empty(),
                takes_value: false,
            },
            Declared {
                short: "h"@,
                long: "help"@,
                desc: "print this message"@,
                hint: Seq::empty(),
                takes_value: false,
            },
        ]
    }

    /// What the occurrences `m` of the options say.
    pub open spec fn given(m: Map<Seq<char>, Seq<Option<Seq<char>>>>) -> GivenView {
        GivenView {
            verbose: occurred(m, "v"@),
            list: occurred(m, "l"@),
            dump: occurred(m, "d"@),
            dump_name: first_value(m, "d"@),
            file: occurred(m, "f"@),
            file_name: first_value(m, "f"@),
            scheme: first_value(m, "s"@),
        }
    }

    /// The scheme that a name on the command line stands for, where `-`
    /// stands for standard input: for the name of a file it is that file,
    /// for the name of a scheme what `Scheme::named` says.
    pub open spec fn chosen(name: Option<Seq<char>>, is_file: bool) -> SchemeView {
        match name {
            None => SchemeView::Custom(None),
            Some(n) => if n == "-"@ {
                SchemeView::Custom(None)
            } else if is_file {
                SchemeView::Custom(Some(n))
            } else {
                Scheme::named(n)
            },
        }
    }

    /// The run that the options `g` ask for, when the program was called as
    /// `this`. Listing comes before printing a scheme, and that before
    /// installing one; a file comes before the name of a scheme; and
    /// without either the scheme is read from standard input.
    pub open spec fn decide(this: Seq<char>, g: GivenView) -> Result<InvocationView, CliErrorView> {
        if g.list {
            Ok(InvocationView { verbose: g.verbose, action: ActionView::List })
        } else if g.dump {
            match g.dump_name {
                None => Err(CliErrorView::NoSchemeGiven),
                Some(name) => Ok(
                    InvocationView {
                        verbose: g.verbose,
                        action: ActionView::Dump(Scheme::named(name)),
                    },
                ),
            }
        } else if g.file && g.file_name is None {
            Err(CliErrorView::NoFileGiven)
        } else {
            Ok(
                InvocationView {
                    verbose: g.verbose,
                    action: ActionView::Apply(
                        JobView {
                            this,
                            scheme: if g.file {
                                Job::chosen(g.file_name, true)
                            } else {
                                Job::chosen(g.scheme, false)
                            },
                        },
                    ),
                },
            )
        }
    }

    /// What the command line `argv` asks for: the run that `decide` finds in
    /// what parsing the arguments behind the program's name gives, or the
    /// reason why parsing failed.
    pub open spec fn asked(argv: Seq<Seq<char>>) -> Result<InvocationView, CliErrorView> {
        match parsed(Job::table(), argv.skip(1)) {
            Ok(m) => Job::decide(argv[0], Job::given(m)),
            Err(msg) => Err(CliErrorView::Parse(msg)),
        }
    }

    /// The heading of the usage text.
    pub open spec fn brief(this: Seq<char>) -> Seq<char> {
        "usage: "@ + this + " [options]"@
    }

    /// The list of the built-in schemes.
    pub open spec fn listing() -> Seq<char> {
        "Available color schemes:\n      · solarized_dark\n      · solarized_light\n      · default\n"@
    }

    /// Declares the options of the command line.
    fn options() -> (opts: getopts::Options)
        ensures
            declared(opts) == Job::table(),
            floating(opts),
            forall|i: int|
                0 <= i < declared(opts).len() ==> (#[trigger] declared(opts)[i]).well_named(),
    {
        proof {
            reveal_strlit("s");
            reveal_strlit("d");
            reveal_strlit("f");
            reveal_strlit("v");
            reveal_strlit("l");
            reveal_strlit("h");
            reveal_strlit("scheme");
            reveal_strlit("dump");
            reveal_strlit("file");
            reveal_strlit("verbose");
            reveal_strlit("list");
            reveal_strlit("help");
        }
        let mut opts = getopts::Options::new();
        declare_opt(&mut opts, "s", "scheme", "predefined color scheme", "NAME");
        declare_opt(&mut opts, "d", "dump", "dump predefined scheme", "NAME");
        declare_opt(&mut opts, "f", "file", "apply scheme from file", "PATH");
        declare_flag(&mut opts, "v", "verbose", "enable verbose messages");
        declare_flag(&mut opts, "l", "list", "list available color schemes");
        declare_flag(&mut opts, "h", "help", "print this message");
        assert(declared(opts) =~= Job::table());
        opts
    }

    /// Reads what the options say out of the parsed command line.
    fn read(m: &getopts::Matches) -> (g: Given)
        requires
            matched(*m).dom().contains("v"@),
            matched(*m).dom().contains("l"@),
            matched(*m).dom().contains("d"@),
            matched(*m).dom().contains("f"@),
            matched(*m).dom().contains("s"@),
        ensures
            g@ == Job::given(matched(*m)),
    {
        let verbose = m.opt_present("v");
        let list = m.opt_present("l");
        let dump = m.opt_present("d");
        let dump_name = m.opt_str("d");
        let file = m.opt_present("f");
        let file_name = m.opt_str("f");
        let scheme = m.opt_str("s");
        Given { verbose, list, dump, dump_name, file, file_name, scheme }
    }

    /// The scheme that `name` stands for: a built-in one for its names, else
    /// the custom scheme in the file of that name.
    pub fn pick_scheme(name: &String) -> (s: Scheme)
        ensures
            s@ == Scheme::named(name@),
    {
        let n = name.as_str();
        if text_eq(n, "solarized") || text_eq(n, "solarized_dark") || text_eq(n, "sd") {
            Scheme::SolarizedDark
        } else if text_eq(n, "solarized_light") || text_eq(n, "sl") {
            Scheme::SolarizedLight
        } else if text_eq(n, "default") || text_eq(n, "normal") {
            Scheme::Default
        } else {
            Scheme::Custom(Some(name.clone()))
        }
    }

    /// The scheme that is read from standard input.
    pub fn scheme_from_stdin() -> (s: Scheme)
        ensures
            s@ == SchemeView::Custom(None),
    {
        Scheme::Custom(None)
    }

    /// The scheme that a name on the command line stands for.
    fn scheme_for(name: Option<String>, is_file: bool) -> (s: Scheme)
        ensures
            s@ == Job::chosen(opt_text(name), is_file),
    {
        match name {
            None => Job::scheme_from_stdin(),
            Some(n) => {
                if text_eq(n.as_str(), "-") {
                    Job::scheme_from_stdin()
                } else if is_file {
                    Scheme::Custom(Some(n))
                } else {
                    Job::pick_scheme(&n)
                }
            },
        }
    }

    /// Decides on the run that the options `given` ask for.
    pub fn from_given(this: String, given: Given) -> (r: Result<Invocation, CliError>)
        ensures
            result_view(r) == Job::decide(this@, given@),
    {
        let verbose = given.verbose;
        if given.list {
            return Ok(Invocation { verbose, action: Action::List });
        }
        if given.dump {
            return match given.dump_name {
                None => Err(CliError::NoSchemeGiven),
                Some(name) => Ok(
                    Invocation { verbose, action: Action::Dump(Job::pick_scheme(&name)) },
                ),
            };
        }
        let scheme = if given.file {
            if given.file_name.is_none() {
                return Err(CliError::NoFileGiven);
            }
            Job::scheme_for(given.file_name, true)
        } else {
            Job::scheme_for(given.scheme, false)
        };
        Ok(Invocation { verbose, action: Action::Apply(Job { this, scheme }) })
    }

    /// Decides on the run that the command line `argv` asks for: its first
    /// entry is the name under which the program was called, the others are
    /// its arguments.
    pub fn new(argv: &Vec<String>) -> (r: Result<Invocation, CliError>)
        requires
            argv@.len() > 0,
        ensures
            result_view(r) == Job::asked(texts(argv@)),
    {
        let this = argv[0].clone();
        let opts = Job::options();
        let args = slice_subrange(argv.as_slice(), 1, argv.len());
        assert(texts(args@) =~= texts(argv@).skip(1));
        match parse(&opts, args) {
            Err(msg) => Err(CliError::Parse(msg)),
            Ok(m) => {
                proof {
                    let t = declared(opts);
                    assert(t[0].short == "s"@);
                    assert(t[1].short == "d"@);
                    assert(t[2].short == "f"@);
                    assert(t[3].short == "v"@);
                    assert(t[4].short == "l"@);
                }
                let given = Job::read(&m);
                Job::from_given(this, given)
            },
        }
    }

    /// The usage text for a program that was called as `this`.
    pub fn usage(this: &String) -> (s: String)
        ensures
            s@ == usage_text(Job::table(), Job::brief(this@)),
    {
        let mut brief = String::from_str("usage: ");
        brief.append(this.as_str());
        brief.append(" [options]");
        let opts = Job::options();
        opts.usage(brief.as_str())
    }

    /// The list of the built-in schemes.
    pub fn schemes() -> (s: String)
        ensures
            s@ == Job::listing(),
    {
        String::from_str(
            "Available color schemes:\n      · solarized_dark\n      · solarized_light\n      · default\n",
        )
    }

    /// Lists the colours of a scheme. For a custom scheme `input` is what
    /// reading its file or standard input gave.
    pub fn dump(scm: &Scheme, input: Result<Vec<u8>, String>) -> (r: Result<String, SchemeError>)
        ensures
            match r {
                Ok(out) => Scheme::resolved(scm@, input) matches Ok(colors) && out@ == dump_text(
                    colors,
                    16,
                ),
                Err(e) => Scheme::resolved(scm@, input) == Err::<Seq<u8>, _>(e@),
            },
    {
        match scm.palette(input) {
            Ok(pal) => Ok(Job::dump_palette(pal)),
            Err(e) => Err(e),
        }
    }

    /// Lists the colours that sixteen definitions give.
    pub fn dump_scheme(colors: &[&str; 16]) -> (out: String)
        requires
            forall|i: int| 0 <= i < 16 ==> (#[trigger] colors@[i]).spec_bytes().len() >= 6,
        ensures
            out@ == dump_text(table_colors(colors@), 16),
    {
        let pal: Palette = Palette::new(colors);
        pal.dump()
    }

    /// Lists the colours of a palette.
    pub fn dump_palette(pal: Palette) -> (out: String)
        ensures
            out@ == dump_text(pal@, 16),
    {
        pal.dump()
    }
}

} // verus!
