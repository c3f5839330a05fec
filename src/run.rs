//! The startup lifecycle: which step follows option parsing, the texts shown for help, version
//! and errors, and the exit code of each outcome.

use vstd::prelude::*;

use crate::args::{validate, Arguments, Matches as ArgMatches, MatchesView};
use crate::errors::UsageError;
use crate::licenses::{license_text, License};

verus! {

/// Exit code of a successful run, and of a run that showed help or version information.
pub const EXIT_SUCCESS: i32 = 0;

/// Exit code of a run that failed for a reason other than its invocation.
pub const EXIT_FAILURE: i32 = 1;

/// Exit code of a run that was invoked incorrectly.
pub const EXIT_USAGE: i32 = 2;

/// What happens once the options are parsed.
#[derive(Debug)]
pub enum Step {
    /// Show the help and exit successfully.
    Help,
    /// Show the version information and exit successfully.
    Version,
    /// Run the program with the bound arguments.
    Run(ArgMatches),
    /// The free arguments do not match the declarations.
    Invalid(UsageError),
}

/// What a step amounts to.
pub enum StepView {
    Help,
    Version,
    Run(MatchesView),
    Invalid(Seq<char>),
}

impl View for Step {
    type V = StepView;

    open spec fn view(&self) -> StepView {
        match self {
            Step::Help => StepView::Help,
            Step::Version => StepView::Version,
            Step::Run(m) => StepView::Run(m@),
            Step::Invalid(e) => StepView::Invalid(e.message@),
        }
    }
}

/// The step that follows option parsing: help takes precedence over version, and both over the
/// free arguments, which are then validated.
pub open spec fn next_step(
    help: bool,
    version: bool,
    args: crate::args::ArgumentsView,
    free: Seq<Seq<char>>,
) -> StepView {
    if help {
        StepView::Help
    } else if version {
        StepView::Version
    } else {
        match validate(args, free) {
            Ok(m) => StepView::Run(m),
            Err(msg) => StepView::Invalid(msg),
        }
    }
}

/// The exit code with which a step ends the run, or `None` when the program runs.
pub open spec fn step_exit_code(s: StepView) -> Option<int> {
    match s {
        StepView::Help => Some(EXIT_SUCCESS as int),
        StepView::Version => Some(EXIT_SUCCESS as int),
        StepView::Run(_) => None,
        StepView::Invalid(_) => Some(EXIT_USAGE as int),
    }
}

/// Decides the step that follows option parsing, given whether `--help` and `--version` were
/// set and the free arguments.
pub fn decide(help: bool, version: bool, args: &Arguments, free: Vec<String>) -> (r: Step)
    ensures
        r@ == next_step(help, version, args@, free@.map_values(|s: String| s@)),
{
    if help {
        Step::Help
    } else if version {
        Step::Version
    } else {
        match args.parse(free) {
            Ok(m) => Step::Run(m),
            Err(e) => Step::Invalid(e),
        }
    }
}

/// A failure that ends a run, with its message.
#[derive(Debug)]
pub enum Failure {
    /// The program was invoked incorrectly: bad options or arguments.
    Usage(String),
    /// The program itself failed.
    Application(String),
}

/// The diagnostic printed for a usage error, with its hint on how to get help.
pub open spec fn usage_error_report(
    program_name: Seq<char>,
    manpage: Option<(Seq<char>, Seq<char>)>,
    message: Seq<char>,
) -> Seq<char> {
    "Usage error: "@ + message + "\n"@ + match manpage {
        Some((page, section)) => "Type `"@ + program_name + " --help` or `man "@ + section + " "@
            + page + "` for more information\n"@,
        None => "Type `"@ + program_name + " --help` for more information\n"@,
    }
}

/// The diagnostic printed for a failure of the program itself.
pub open spec fn application_error_report(program_name: Seq<char>, message: Seq<char>) -> Seq<
    char,
> {
    program_name + ": "@ + message + "\n"@
}

/// The diagnostic and exit code of a failure.
pub open spec fn failure_outcome(
    program_name: Seq<char>,
    manpage: Option<(Seq<char>, Seq<char>)>,
    f: Failure,
) -> (Seq<char>, int) {
    match f {
        Failure::Usage(m) => (usage_error_report(program_name, manpage, m@), EXIT_USAGE as int),
        Failure::Application(m) => (
            application_error_report(program_name, m@),
            EXIT_FAILURE as int,
        ),
    }
}

/// Renders the diagnostic for `failure` and classifies it into the exit code of the run.
pub fn report_failure(program_name: &str, manpage: Option<(&str, &str)>, failure: &Failure) -> (r: (
    String,
    i32,
))
    ensures
        (r.0@, r.1 as int) == failure_outcome(
            program_name@,
            match manpage {
                Some((p, s)) => Some((p@, s@)),
                None => None,
            },
            *failure,
        ),
{
    match failure {
        Failure::Usage(message) => {
            let mut text = String::from_str("Usage error: ");
            text.append(message.as_str());
            text.append("\n");
            text.append("Type `");
            text.append(program_name);
            match manpage {
                Some((page, section)) => {
                    text.append(" --help` or `man ");
                    text.append(section);
                    text.append(" ");
                    text.append(page);
                    text.append("` for more information\n");
                },
                None => {
                    text.append(" --help` for more information\n");
                },
            }
            (text, EXIT_USAGE)
        },
        Failure::Application(message) => {
            let mut text = String::from_str(program_name);
            text.append(": ");
            text.append(message.as_str());
            text.append("\n");
            (text, EXIT_FAILURE)
        },
    }
}

/// The banner that heads the help: the program name, then the brief form of its arguments.
pub open spec fn help_banner_text(program_name: Seq<char>, brief: Seq<char>) -> Seq<char> {
    if brief.len() == 0 {
        "Usage: "@ + program_name + " [options]"@
    } else {
        "Usage: "@ + program_name + " [options]"@ + " "@ + brief
    }
}

/// Renders the help banner, handed to the option parser to head its usage block.
pub fn help_banner(program_name: &str, args: &Arguments) -> (r: String)
    ensures
        r@ == help_banner_text(program_name@, crate::args::brief_text(args@)),
{
    let mut text = String::from_str("Usage: ");
    text.append(program_name);
    text.append(" [options]");
    let brief = args.brief();
    if brief.as_str().unicode_len() > 0 {
        text.append(" ");
        text.append(brief.as_str());
    }
    text
}

/// The part of the help before any extra help of the program: the option parser's usage block,
/// then the arguments' help when arguments are declared.
pub open spec fn help_head_text(options_usage: Seq<char>, args: crate::args::ArgumentsView) -> Seq<
    char,
> {
    if crate::args::brief_text(args).len() == 0 {
        options_usage + "\n"@
    } else {
        options_usage + "\n"@ + crate::args::usage_text(args) + "\n"@
    }
}

/// Renders the part of the help that precedes the program's extra help.
pub fn help_head(options_usage: &str, args: &Arguments) -> (r: String)
    ensures
        r@ == help_head_text(options_usage@, args@),
{
    let mut text = String::from_str(options_usage);
    text.append("\n");
    let brief = args.brief();
    if brief.as_str().unicode_len() > 0 {
        let usage = args.usage();
        text.append(usage.as_str());
        text.append("\n");
    }
    text
}

/// The part of the help after any extra help: where to report bugs and the home page.
pub open spec fn help_tail_text(
    stylized_name: Seq<char>,
    bugs: Option<Seq<char>>,
    homepage: Option<Seq<char>>,
) -> Seq<char> {
    let b = match bugs {
        Some(u) => "Report bugs to: "@ + u + "\n"@,
        None => Seq::empty(),
    };
    let h = match homepage {
        Some(u) => stylized_name + " home page: "@ + u + "\n"@,
        None => Seq::empty(),
    };
    b + h
}

/// Renders the part of the help that follows the program's extra help.
pub fn help_tail(stylized_name: &str, bugs: Option<&str>, homepage: Option<&str>) -> (r: String)
    ensures
        r@ == help_tail_text(
            stylized_name@,
            match bugs {
                Some(u) => Some(u@),
                None => None,
            },
            match homepage {
                Some(u) => Some(u@),
                None => None,
            },
        ),
{
    let mut text = String::new();
    match bugs {
        Some(u) => {
            text.append("Report bugs to: ");
            text.append(u);
            text.append("\n");
        },
        None => {},
    }
    match homepage {
        Some(u) => {
            text.append(stylized_name);
            text.append(" home page: ");
            text.append(u);
            text.append("\n");
        },
        None => {},
    }
    proof {
        assert(text@ =~= help_tail_text(
            stylized_name@,
            match bugs {
                Some(u) => Some(u@),
                None => None,
            },
            match homepage {
                Some(u) => Some(u@),
                None => None,
            },
        ));
    }
    text
}

/// The version information: name and version, then the copyright and license lines when set.
pub open spec fn version_info_text(
    stylized_name: Seq<char>,
    version: Seq<char>,
    copyright: Option<Seq<char>>,
    license: Option<License>,
) -> Seq<char> {
    let c = match copyright {
        Some(c) => c + "\n"@,
        None => Seq::empty(),
    };
    let l = match license {
        Some(l) => "License "@ + license_text(l) + "\n"@,
        None => Seq::empty(),
    };
    stylized_name + " "@ + version + "\n"@ + c + l
}

/// Renders the version information.
pub fn version_text(
    stylized_name: &str,
    version: &str,
    copyright: Option<&str>,
    license: Option<License>,
) -> (r: String)
    ensures
        r@ == version_info_text(
            stylized_name@,
            version@,
            match copyright {
                Some(c) => Some(c@),
                None => None,
            },
            license,
        ),
{
    let mut text = String::from_str(stylized_name);
    text.append(" ");
    text.append(version);
    text.append("\n");
    match copyright {
        Some(c) => {
            text.append(c);
            text.append("\n");
        },
        None => {},
    }
    match license {
        Some(l) => {
            text.append("License ");
            text.append(l.text());
            text.append("\n");
        },
        None => {},
    }
    proof {
        assert(text@ =~= version_info_text(
            stylized_name@,
            version@,
            match copyright {
                Some(c) => Some(c@),
                None => None,
            },
            license,
        ));
    }
    text
}

/// A program that declares no arguments, invoked with one free argument, fails as a usage error
/// with exit code 2, and its diagnostic names the surplus and how to get help.
pub proof fn lemma_surplus_argument_fails(
    args: crate::args::ArgumentsView,
    extra: Seq<char>,
    program_name: Seq<char>,
)
    requires
        args.is_empty(),
    ensures
        next_step(false, false, args, seq![extra]) == StepView::Invalid("Too many arguments"@),
        step_exit_code(next_step(false, false, args, seq![extra])) == Some(EXIT_USAGE as int),
        EXIT_USAGE == 2,
        usage_error_report(program_name, None, "Too many arguments"@) == "Usage error: Too many arguments\nType `"@
            + program_name + " --help` for more information\n"@,
{
    reveal_strlit("Usage error: ");
    reveal_strlit("Too many arguments");
    reveal_strlit("\n");
    reveal_strlit("Type `");
    reveal_strlit(" --help` for more information\n");
    reveal_strlit("Usage error: Too many arguments\nType `");
    assert(usage_error_report(program_name, None, "Too many arguments"@) =~= "Usage error: Too many arguments\nType `"@
        + program_name + " --help` for more information\n"@);
}

/// Asking for help always ends the run successfully before the program runs, whatever the
/// other free arguments are, and even when they would not validate.
pub proof fn lemma_help_always_succeeds(
    version: bool,
    args: crate::args::ArgumentsView,
    free: Seq<Seq<char>>,
)
    ensures
        next_step(true, version, args, free) == StepView::Help,
        step_exit_code(next_step(true, version, args, free)) == Some(EXIT_SUCCESS as int),
        EXIT_SUCCESS == 0,
{
}

} // verus!
