//! Positional and trailing argument handling, usage-text layout and the startup lifecycle of a
//! command-line program built on top of an option parser.
//!
//! A program declares its options and arguments on a [`Builder`], then calls
//! [`Builder::start`], which parses the command line and tells what to do next: show the help,
//! show the version, report an invocation error, or run with the bound [`Matches`].

use vstd::prelude::*;

pub mod args;
pub mod errors;
pub mod licenses;
pub mod opts;
pub mod run;
pub mod text;

pub use args::{Arguments, Matches as ArgMatches};
pub use errors::UsageError;
pub use licenses::License;
pub use run::{Failure, Step};
pub use text::{format_two_columns, wrap};

use args::{bound_value, ArgumentsView, MatchesView};
use getopts::{Fail, Matches as OptionMatches, Options};
use opts::{
    add_optflag, free_arguments, free_of, given_of, new_options, option_given, option_names,
    options_usage, options_valid, parse_fails, parse_options, parsed_free, parsed_given,
    usage_block,
};
use run::{
    decide, failure_outcome, help_banner, help_banner_text, help_head, help_head_text, help_tail,
    help_tail_text, next_step, report_failure, version_info_text, version_text, StepView,
};

verus! {

/// What the program name is when the first process argument gives none: the stylized name,
/// lowercased.
pub uninterp spec fn lower_of(s: Seq<char>) -> Seq<char>;

/// Relies on str::to_lowercase: the result depends on the characters of `s` alone.
#[verifier::external_body]
fn lowercase(s: &str) -> (r: String)
    ensures
        r@ == lower_of(s@),
{
    s.to_lowercase()
}

/// Relies on std::path::Path::file_stem, its result converted to a string: the stem of the last
/// component of `path`, when there is one and it is valid UTF-8. What a component and a stem are
/// follows the path rules of the platform (`\` separates components on Windows only), so the
/// result is not a function of `path` alone and nothing more is stated of it.
#[verifier::external_body]
fn file_stem(path: &str) -> Option<String> {
    match std::path::Path::new(path).file_stem() {
        Some(stem) => stem.to_str().map(String::from),
        None => None,
    }
}

/// The program name, given the stem of the program's path if one was found: that stem, else
/// `default_name`.
pub fn choose_program_name(stem: Option<String>, default_name: &str) -> (r: String)
    ensures
        r@ == match stem {
            Some(s) => s@,
            None => default_name@,
        },
{
    match stem {
        Some(s) => s,
        None => String::from_str(default_name),
    }
}

/// The process arguments after the first, which names the program.
pub open spec fn after_program(args: Seq<Seq<char>>) -> Seq<Seq<char>> {
    if args.len() == 0 {
        Seq::empty()
    } else {
        args.drop_first()
    }
}

/// Takes the program name from the process arguments `args`: the stem of the first one, falling
/// back to `default_name`. Returns it with the arguments that follow.
///
/// The stem follows the platform's path rules; the choice once it is known is
/// `choose_program_name`.
pub fn program_name(args: &Vec<String>, default_name: &str) -> (r: (String, Vec<String>))
    ensures
        args@.len() == 0 ==> r.0@ == default_name@,
        r.1@.map_values(|s: String| s@) == after_program(args@.map_values(|s: String| s@)),
{
    let stem = if args.len() > 0 {
        file_stem(args[0].as_str())
    } else {
        None
    };
    let name = choose_program_name(stem, default_name);
    let mut rest: Vec<String> = Vec::new();
    let mut i: usize = 1;
    while i < args.len()
        invariant
            1 <= i,
            i <= args.len() || args.len() == 0,
            rest@.map_values(|s: String| s@) =~= if args@.len() == 0 {
                Seq::<Seq<char>>::empty()
            } else {
                args@.map_values(|s: String| s@).subrange(1, i as int)
            },
        decreases args.len() - i,
    {
        let a = args[i].clone();
        let ghost before = rest@;
        rest.push(a);
        proof {
            assert(rest@.map_values(|s: String| s@) =~= before.map_values(|s: String| s@).push(a@));
        }
        i = i + 1;
    }
    proof {
        if args@.len() > 0 {
            assert(args@.map_values(|s: String| s@).subrange(1, args@.len() as int)
                =~= args@.map_values(|s: String| s@).drop_first());
        }
    }
    (name, rest)
}

/// Whether `s` is a copyright notice: it starts with `Copyright `.
pub open spec fn is_copyright_notice_text(s: Seq<char>) -> bool {
    s.len() >= 10 && s.subrange(0, 10) == "Copyright "@
}

/// Whether `s` is a copyright notice, as `Builder::copyright` requires.
pub fn is_copyright_notice(s: &str) -> (r: bool)
    ensures
        r == is_copyright_notice_text(s@),
{
    proof {
        reveal_strlit("Copyright ");
    }
    if s.unicode_len() < 10 {
        return false;
    }
    let head = String::from_str(s.substring_char(0, 10));
    head == String::from_str("Copyright ")
}

/// What a builder holds: the program's metadata, its option names, its argument declarations
/// and the process arguments after the program name.
pub struct BuilderView {
    pub stylized_name: Seq<char>,
    pub version: Seq<char>,
    pub program_name: Seq<char>,
    pub copyright: Option<Seq<char>>,
    pub license: Option<License>,
    pub manpage: Option<(Seq<char>, Seq<char>)>,
    pub homepage: Option<Seq<char>>,
    pub bugs: Option<Seq<char>>,
    pub options: Seq<(Seq<char>, Seq<char>)>,
    pub arguments: ArgumentsView,
    pub argv: Seq<Seq<char>>,
}

/// Builder for a program: its metadata, options and arguments, and the process arguments to
/// process.
pub struct Builder {
    stylized_name: String,
    version: String,
    program_name: String,
    copyright: Option<String>,
    license: Option<License>,
    manpage: Option<(String, String)>,
    homepage: Option<String>,
    bugs: Option<String>,
    argv: Vec<String>,
    opts: Options,
    args: Arguments,
}

/// The view of an optional string.
pub open spec fn opt_view(s: Option<String>) -> Option<Seq<char>> {
    match s {
        Some(s) => Some(s@),
        None => None,
    }
}

impl View for Builder {
    type V = BuilderView;

    closed spec fn view(&self) -> BuilderView {
        BuilderView {
            stylized_name: self.stylized_name@,
            version: self.version@,
            program_name: self.program_name@,
            copyright: opt_view(self.copyright),
            license: self.license,
            manpage: match self.manpage {
                Some((p, s)) => Some((p@, s@)),
                None => None,
            },
            homepage: opt_view(self.homepage),
            bugs: opt_view(self.bugs),
            options: option_names(self.opts),
            arguments: self.args@,
            argv: self.argv@.map_values(|s: String| s@),
        }
    }
}

/// The options every program has: `-h`/`--help` and `--version`.
pub open spec fn standard_options() -> Seq<(Seq<char>, Seq<char>)> {
    seq![("h"@, "help"@), (""@, "version"@)]
}

/// The result of processing the command line: what the program does next.
#[derive(Debug)]
pub enum Start {
    /// Show the help and exit successfully. The program's extra help, if any, goes between
    /// `head` and `tail`.
    Help { head: String, tail: String },
    /// Show this version information and exit successfully.
    Version(String),
    /// Run the program.
    Run(Matches),
    /// The options are malformed: a usage error.
    BadOptions(Fail),
    /// The free arguments do not match the declarations: a usage error.
    Invalid(UsageError),
}

/// The step that parsing `argv` against the options `o` leads to, for the argument
/// declarations `arguments`, when parsing succeeds: `--help` first, then `--version`, then the
/// validation of the free arguments.
pub open spec fn start_step(o: Options, argv: Seq<Seq<char>>, arguments: ArgumentsView) -> StepView {
    next_step(
        parsed_given(o, argv, "help"@),
        parsed_given(o, argv, "version"@),
        arguments,
        parsed_free(o, argv),
    )
}

/// The step that a start result stands for; none for malformed options.
pub open spec fn start_view(r: Start) -> Option<StepView> {
    match r {
        Start::Help { .. } => Some(StepView::Help),
        Start::Version(_) => Some(StepView::Version),
        Start::Run(m) => Some(StepView::Run(m.arguments())),
        Start::Invalid(e) => Some(StepView::Invalid(e.message@)),
        Start::BadOptions(_) => None,
    }
}

/// Contains the result of options and arguments parsing.
#[derive(Debug)]
pub struct Matches {
    /// The program name.
    pub program_name: String,
    opts: OptionMatches,
    args: ArgMatches,
}

impl Matches {
    /// The bound arguments.
    pub closed spec fn arguments(&self) -> MatchesView {
        self.args@
    }

    /// The program name.
    pub closed spec fn spec_program_name(&self) -> Seq<char> {
        self.program_name@
    }

    /// Whether a positional argument called `name` is bound, so that `arg_pos` can look it up.
    pub fn has_arg(&self, name: &str) -> (r: bool)
        ensures
            r == exists|i: int|
                0 <= i < self.arguments().positional.len() && #[trigger] self.arguments().positional[i].0
                    == name@,
    {
        let r = self.args.has_arg(name);
        assert(self.arguments() == self.args@);
        r
    }

    /// Returns the value of the positional argument called `name`, which must be declared.
    pub fn arg_pos(&self, name: &str) -> (r: &str)
        requires
            exists|i: int|
                0 <= i < self.arguments().positional.len() && #[trigger] self.arguments().positional[i].0
                    == name@,
        ensures
            bound_value(self.arguments().positional, name@, r@),
    {
        self.args.arg_pos(name)
    }

    /// Returns the trailing arguments after all declared positional arguments.
    pub fn arg_trail(&self) -> (r: &[String])
        ensures
            r@.map_values(|s: String| s@) == self.arguments().trailing,
    {
        self.args.arg_trail()
    }

    /// The results of option parsing.
    pub closed spec fn spec_option_matches(&self) -> OptionMatches {
        self.opts
    }

    /// The results of option parsing, to query the program's own options.
    pub fn options(&self) -> (r: &OptionMatches)
        ensures
            *r == self.spec_option_matches(),
    {
        &self.opts
    }
}

/// Renders the diagnostics of failures for a program and classifies them into exit codes.
pub struct Reporter {
    program_name: String,
    manpage: Option<(String, String)>,
}

impl Reporter {
    /// The program name and manual page that the diagnostics mention.
    pub closed spec fn spec_program_name(&self) -> Seq<char> {
        self.program_name@
    }

    /// The manual page that the usage hint mentions, as page and section.
    pub closed spec fn spec_manpage(&self) -> Option<(Seq<char>, Seq<char>)> {
        match self.manpage {
            Some((p, s)) => Some((p@, s@)),
            None => None,
        }
    }

    /// The diagnostic to print for `failure`, and the exit code of the run.
    pub fn report(&self, failure: &Failure) -> (r: (String, i32))
        ensures
            (r.0@, r.1 as int) == failure_outcome(
                self.spec_program_name(),
                self.spec_manpage(),
                *failure,
            ),
    {
        let manpage = match &self.manpage {
            Some((p, s)) => Some((p.as_str(), s.as_str())),
            None => None,
        };
        report_failure(self.program_name.as_str(), manpage, failure)
    }
}

impl Builder {
    /// The options declared so far.
    pub closed spec fn spec_options(&self) -> Options {
        self.opts
    }

    /// The option names are all accepted by the option parser, and no two positional
    /// arguments share a name.
    pub open spec fn wf(&self) -> bool {
        options_valid(self@.options) && self@.arguments.names_unique()
    }

    /// Creates the builder of a program called `stylized_name` at `version`, for the process
    /// arguments `args` (the program's path first).
    ///
    /// The program name comes from the first argument, or else is `stylized_name` in lowercase.
    /// The options `-h`/`--help` and `--version` are always declared.
    pub fn new(stylized_name: &str, version: &str, args: Vec<String>) -> (r: Builder)
        ensures
            r.wf(),
            r@.stylized_name == stylized_name@,
            r@.version == version@,
            args@.len() == 0 ==> r@.program_name == lower_of(stylized_name@),
            r@.copyright is None,
            r@.license is None,
            r@.manpage is None,
            r@.homepage is None,
            r@.bugs is None,
            r@.options == standard_options(),
            r@.arguments.is_empty(),
            r@.argv == after_program(args@.map_values(|s: String| s@)),
    {
        let default_name = lowercase(stylized_name);
        let (program_name, argv) = program_name(&args, default_name.as_str());
        let mut opts = new_options();
        proof {
            reveal_strlit("h");
            reveal_strlit("help");
            reveal_strlit("version");
            reveal_strlit("");
            reveal_with_fuel(vstd::utf8::encode_utf8, 8);
        }
        add_optflag(&mut opts, "h", "help", "show command-line usage information and exit");
        add_optflag(&mut opts, "", "version", "show version information and exit");
        let r = Builder {
            stylized_name: String::from_str(stylized_name),
            version: String::from_str(version),
            program_name,
            copyright: None,
            license: None,
            manpage: None,
            homepage: None,
            bugs: None,
            argv,
            opts,
            args: Arguments::new(),
        };
        proof {
            assert(r@.options =~= standard_options());
        }
        r
    }

    /// Sets the bug reporting address of the program.
    pub fn bugs(self, bugs: &str) -> (r: Builder)
        requires
            self.wf(),
        ensures
            r.wf(),
            r@ == (BuilderView { bugs: Some(bugs@), ..self@ }),
    {
        let mut b = self;
        b.bugs = Some(String::from_str(bugs));
        b
    }

    /// Sets the copyright notice of the program, which starts with `Copyright `.
    pub fn copyright(self, copyright: &str) -> (r: Builder)
        requires
            self.wf(),
            is_copyright_notice_text(copyright@),
        ensures
            r.wf(),
            r@ == (BuilderView { copyright: Some(copyright@), ..self@ }),
    {
        let mut b = self;
        b.copyright = Some(String::from_str(copyright));
        b
    }

    /// Sets the home page of the program.
    pub fn homepage(self, homepage: &str) -> (r: Builder)
        requires
            self.wf(),
        ensures
            r.wf(),
            r@ == (BuilderView { homepage: Some(homepage@), ..self@ }),
    {
        let mut b = self;
        b.homepage = Some(String::from_str(homepage));
        b
    }

    /// Sets the license of the program.
    pub fn license(self, license: License) -> (r: Builder)
        requires
            self.wf(),
        ensures
            r.wf(),
            r@ == (BuilderView { license: Some(license), ..self@ }),
    {
        let mut b = self;
        b.license = Some(license);
        b
    }

    /// Sets the manual page of the program to `page` in `section`.
    pub fn manpage(self, page: &str, section: &str) -> (r: Builder)
        requires
            self.wf(),
        ensures
            r.wf(),
            r@ == (BuilderView { manpage: Some((page@, section@)), ..self@ }),
    {
        let mut b = self;
        b.manpage = Some((String::from_str(page), String::from_str(section)));
        b
    }

    /// Declares the next positional argument.
    pub fn posarg(self, name: &str, description: &str) -> (r: Builder)
        requires
            self.wf(),
            self@.arguments.trailing is None,
            !self@.arguments.declares(name@),
        ensures
            r.wf(),
            r@ == (BuilderView {
                arguments: ArgumentsView {
                    positional: self@.arguments.positional.push((name@, description@)),
                    trailing: None,
                },
                ..self@
            }),
    {
        let mut b = self;
        b.args.positional(name, description);
        b
    }

    /// Declares the trailing arguments.
    pub fn trailarg(self, name: &str, min: usize, max: usize, description: &str) -> (r: Builder)
        requires
            self.wf(),
            self@.arguments.trailing is None,
        ensures
            r.wf(),
            r@ == (BuilderView {
                arguments: ArgumentsView {
                    positional: self@.arguments.positional,
                    trailing: Some(
                        args::TrailingView {
                            name: name@,
                            min: min as nat,
                            max: max as nat,
                            description: description@,
                        },
                    ),
                },
                ..self@
            }),
    {
        let mut b = self;
        b.args.trailing(name, min, max, description);
        b
    }

    /// The declared arguments.
    pub fn arguments(&self) -> (r: &Arguments)
        ensures
            r@ == self@.arguments,
    {
        &self.args
    }

    /// The program name.
    pub fn program_name(&self) -> (r: &str)
        ensures
            r@ == self@.program_name,
    {
        self.program_name.as_str()
    }

    /// What reports the failures of this program.
    pub fn reporter(&self) -> (r: Reporter)
        ensures
            r.spec_program_name() == self@.program_name,
            r.spec_manpage() == self@.manpage,
    {
        let manpage = match &self.manpage {
            Some((p, s)) => Some((p.clone(), s.clone())),
            None => None,
        };
        Reporter { program_name: self.program_name.clone(), manpage }
    }

    /// Processes the command line as configured: parses the options, handles `--help` and
    /// `--version`, and validates the free arguments.
    ///
    /// Help takes precedence over version, and both over the free arguments, which are not
    /// validated then. Malformed options are reported before either is considered.
    pub fn start(self) -> (r: Start)
        requires
            self.wf(),
        ensures
            match r {
                Start::Help { head, tail } => {
                    &&& head@ == help_head_text(
                        usage_block(
                            self.spec_options(),
                            help_banner_text(self@.program_name, args::brief_text(self@.arguments)),
                        ),
                        self@.arguments,
                    )
                    &&& tail@ == help_tail_text(self@.stylized_name, self@.bugs, self@.homepage)
                },
                Start::Version(text) => text@ == version_info_text(
                    self@.stylized_name,
                    self@.version,
                    self@.copyright,
                    self@.license,
                ),
                Start::Run(m) => {
                    &&& m.spec_program_name() == self@.program_name
                    &&& free_of(m.spec_option_matches()) == parsed_free(
                        self.spec_options(),
                        self@.argv,
                    )
                    &&& forall|name: Seq<char>| #[trigger]
                        given_of(m.spec_option_matches(), name) == parsed_given(
                            self.spec_options(),
                            self@.argv,
                            name,
                        )
                },
                _ => true,
            },
            (r is BadOptions) == parse_fails(self.spec_options(), self@.argv),
            !parse_fails(self.spec_options(), self@.argv) ==> start_view(r) == Some(
                start_step(self.spec_options(), self@.argv, self@.arguments),
            ),
    {
        let parsed = parse_options(&self.opts, &self.argv);
        let m = match parsed {
            Ok(m) => m,
            Err(f) => {
                return Start::BadOptions(f);
            },
        };
        let help = option_given(&m, "help");
        let version = option_given(&m, "version");
        let free = free_arguments(&m);
        let ghost fv = free@.map_values(|s: String| s@);
        match decide(help, version, &self.args, free) {
            Step::Help => {
                let banner = help_banner(self.program_name.as_str(), &self.args);
                let usage = options_usage(&self.opts, banner.as_str());
                let head = help_head(usage.as_str(), &self.args);
                let bugs = match &self.bugs {
                    Some(u) => Some(u.as_str()),
                    None => None,
                };
                let homepage = match &self.homepage {
                    Some(u) => Some(u.as_str()),
                    None => None,
                };
                let tail = help_tail(self.stylized_name.as_str(), bugs, homepage);
                Start::Help { head, tail }
            },
            Step::Version => {
                let copyright = match &self.copyright {
                    Some(c) => Some(c.as_str()),
                    None => None,
                };
                let text = version_text(
                    self.stylized_name.as_str(),
                    self.version.as_str(),
                    copyright,
                    self.license,
                );
                Start::Version(text)
            },
            Step::Run(a) => {
                proof {
                    assert(args::validate(self@.arguments, fv) == Ok::<MatchesView, Seq<char>>(
                        a@,
                    ));
                }
                Start::Run(Matches { program_name: self.program_name, opts: m, args: a })
            },
            Step::Invalid(e) => {
                proof {
                    assert(args::validate(self@.arguments, fv) == Err::<MatchesView, Seq<char>>(
                        e.message@,
                    ));
                }
                Start::Invalid(e)
            },
        }
    }
}

} // verus!
