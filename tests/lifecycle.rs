use getoptsargs::run::{decide, help_tail, report_failure, version_text};
use getoptsargs::{
    choose_program_name, is_copyright_notice, program_name, Arguments, Builder, Failure, License, Start, Step,
};

fn argv(items: &[&str]) -> Vec<String> {
    items.iter().map(|s| s.to_string()).collect()
}

fn everything(args: &[&str]) -> Builder {
    Builder::new("Everything", "1.2.3", argv(args))
        .copyright("Copyright 2025 Someone")
        .bugs("https://example.com/everything/issues/")
        .homepage("https://everything.example.com/")
        .manpage("the-everything", "8")
        .optflag("p", "print-args", "print free arguments")
        .posarg("first", "this is the first required argument and contains a very long description")
        .posarg("second", "short description")
        .posarg("third_has_a_very_long_name", "and a short description")
        .trailarg("name", 0, usize::MAX, "file names")
}

#[test]
fn surplus_free_argument_is_a_usage_error() {
    let builder = Builder::new("Minimal", "1.0", argv(&["/some/dir/minimal", "foo"]));
    let reporter = builder.reporter();
    let err = match builder.start() {
        Start::Invalid(e) => e,
        other => panic!("unexpected outcome: {:?}", other),
    };
    let (text, code) = reporter.report(&Failure::Usage(err.to_string()));
    assert_eq!(2, code);
    assert_eq!("Usage error: Too many arguments\nType `minimal --help` for more information\n", text);
}

#[test]
fn help_wins_over_invalid_arguments() {
    let builder = Builder::new("Minimal", "1.0", argv(&["minimal", "foo", "--help", "bar"]));
    match builder.start() {
        Start::Help { head, tail } => {
            assert_eq!(
                "Usage: minimal [options]

Options:
    -h, --help          show command-line usage information and exit
        --version       show version information and exit

",
                head
            );
            assert_eq!("", tail);
        }
        other => panic!("unexpected outcome: {:?}", other),
    }
}

#[test]
fn help_wins_over_version() {
    let builder = Builder::new("Minimal", "1.0", argv(&["minimal", "--version", "-h"]));
    assert!(matches!(builder.start(), Start::Help { .. }));
}

#[test]
fn malformed_options_are_reported_before_help() {
    let builder = Builder::new("Minimal", "1.0", argv(&["minimal", "--help", "--bogus"]));
    let reporter = builder.reporter();
    match builder.start() {
        Start::BadOptions(fail) => {
            let (text, code) = reporter.report(&Failure::Usage(fail.to_string()));
            assert_eq!(2, code);
            assert_eq!(
                "Usage error: Unrecognized option: 'bogus'\nType `minimal --help` for more information\n",
                text
            );
        }
        other => panic!("unexpected outcome: {:?}", other),
    }
}

#[test]
fn version_shows_name_and_version() {
    let builder = Builder::new("minimal", "0.4.0", argv(&["minimal", "--version"]));
    match builder.start() {
        Start::Version(text) => assert_eq!("minimal 0.4.0\n", text),
        other => panic!("unexpected outcome: {:?}", other),
    }
}

#[test]
fn version_shows_copyright_and_license() {
    let builder =
        everything(&["everything", "--version"]).license(License::MIT);
    match builder.start() {
        Start::Version(text) => assert_eq!(
            "Everything 1.2.3\nCopyright 2025 Someone\nLicense MIT <https://opensource.org/license/mit>\n",
            text
        ),
        other => panic!("unexpected outcome: {:?}", other),
    }
}

#[test]
fn help_of_a_program_with_everything() {
    match everything(&["everything", "--help"]).start() {
        Start::Help { head, tail } => {
            assert_eq!(
                "Usage: everything [options] first second third_has_a_very_long_name [name1 .. nameN]

Options:
    -h, --help          show command-line usage information and exit
        --version       show version information and exit
    -p, --print-args    print free arguments

Arguments:
    first               this is the first required argument and contains a
                        very long description
    second              short description
    third_has_a_very_long_name
                        and a short description
    [name1 .. nameN]    file names

",
                head
            );
            assert_eq!(
                "Report bugs to: https://example.com/everything/issues/
Everything home page: https://everything.example.com/
",
                tail
            );
        }
        other => panic!("unexpected outcome: {:?}", other),
    }
}

#[test]
fn run_binds_options_and_arguments() {
    let builder = everything(&["everything", "-p", "abc", "de fg", "h", "f1", "f2"]);
    match builder.start() {
        Start::Run(m) => {
            assert_eq!("everything", m.program_name);
            assert!(m.options().opt_present("print-args"));
            assert_eq!("abc", m.arg_pos("first"));
            assert_eq!("de fg", m.arg_pos("second"));
            assert_eq!("h", m.arg_pos("third_has_a_very_long_name"));
            assert!(m.has_arg("second"));
            assert!(!m.has_arg("fourth"));
            assert_eq!(vec!["f1", "f2"], m.arg_trail());
        }
        other => panic!("unexpected outcome: {:?}", other),
    }
}

#[test]
fn missing_positional_is_reported_with_the_manual_page() {
    let builder = everything(&["everything", "a"]);
    let reporter = builder.reporter();
    match builder.start() {
        Start::Invalid(e) => {
            assert_eq!("Required argument 'second' not provided", e.to_string());
            let (text, code) = reporter.report(&Failure::Usage(e.message.clone()));
            assert_eq!(2, code);
            assert_eq!(
                "Usage error: Required argument 'second' not provided\nType `everything --help` or `man 8 the-everything` for more information\n",
                text
            );
        }
        other => panic!("unexpected outcome: {:?}", other),
    }
}

#[test]
fn application_error_exits_with_one() {
    let (text, code) = report_failure("prog", None, &Failure::Application("disk full".to_owned()));
    assert_eq!(1, code);
    assert_eq!("prog: disk full\n", text);
}

#[test]
fn decide_orders_help_version_and_validation() {
    let mut args = Arguments::new();
    args.positional("one", "");
    assert!(matches!(decide(true, true, &args, vec![]), Step::Help));
    assert!(matches!(decide(false, true, &args, vec![]), Step::Version));
    match decide(false, false, &args, vec![]) {
        Step::Invalid(e) => assert_eq!("Required argument 'one' not provided", e.to_string()),
        other => panic!("unexpected step: {:?}", other),
    }
    match decide(false, false, &args, vec!["x".to_owned()]) {
        Step::Run(m) => assert_eq!("x", m.arg_pos("one")),
        other => panic!("unexpected step: {:?}", other),
    }
}

#[test]
fn help_tail_lines() {
    assert_eq!("", help_tail("Prog", None, None));
    assert_eq!("Report bugs to: b\n", help_tail("Prog", Some("b"), None));
    assert_eq!("Prog home page: h\n", help_tail("Prog", None, Some("h")));
}

#[test]
fn version_text_lines() {
    assert_eq!("P 1\n", version_text("P", "1", None, None));
    assert_eq!(
        "P 1\nCopyright me\nLicense Apache Version 2.0 <http://www.apache.org/licenses/LICENSE-2.0>\n",
        version_text("P", "1", Some("Copyright me"), Some(License::Apache2))
    );
}

#[test]
fn licenses_from_cargo_identifiers() {
    assert_eq!(Some(License::Apache2), License::from_cargo("Apache-2.0"));
    assert_eq!(Some(License::BSD3Clause), License::from_cargo("BSD-3-Clause"));
    assert_eq!(Some(License::MIT), License::from_cargo("MIT"));
    assert_eq!(None, License::from_cargo("Apache-2.0 OR MIT"));
    assert_eq!(None, License::from_cargo(""));
    assert_eq!("BSD 3-Claus <https://opensource.org/license/bsd-3-clause>", License::BSD3Clause.to_string());
}

#[test]
fn copyright_notices() {
    assert!(is_copyright_notice("Copyright 2025 Someone"));
    assert!(is_copyright_notice("Copyright "));
    assert!(!is_copyright_notice("Copyright"));
    assert!(!is_copyright_notice("(c) 2025"));
}

#[test]
fn program_name_from_the_first_argument() {
    assert_eq!(("tool".to_owned(), vec![]), program_name(&argv(&["/usr/local/bin/tool"]), "Tool"));
    assert_eq!(
        ("tool".to_owned(), argv(&["x", "y"])),
        program_name(&argv(&["tool.exe", "x", "y"]), "Other")
    );
    assert_eq!(("My App".to_owned(), vec![]), program_name(&vec![], "My App"));
    assert_eq!("fallback", Builder::new("FallBack", "1", vec![]).program_name());
}

#[test]
fn builder_records_declared_arguments() {
    let builder = everything(&["everything"]);
    assert!(builder.arguments().has_positional("second"));
    assert!(builder.arguments().has_trailing());
    assert_eq!(
        "first second third_has_a_very_long_name [name1 .. nameN]",
        builder.arguments().brief()
    );
}

#[test]
fn program_name_choice_once_the_stem_is_known() {
    assert_eq!("tool", choose_program_name(Some("tool".to_owned()), "Other"));
    assert_eq!("Other Name", choose_program_name(None, "Other Name"));
}

#[test]
fn start_result_depends_on_the_parsed_arguments() {
    let builder = Builder::new("P", "1", argv(&["p", "--", "--help"]));
    match builder.start() {
        Start::Invalid(e) => assert_eq!("Too many arguments", e.to_string()),
        other => panic!("unexpected outcome: {:?}", other),
    }
    let builder = Builder::new("P", "1", argv(&["p", "--version", "extra"]));
    assert!(matches!(builder.start(), Start::Version(_)));
}
