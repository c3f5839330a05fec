use getoptsargs::args::trailing_brief;
use getoptsargs::{Arguments, UsageError};

fn bad_usage(message: &str) -> UsageError {
    UsageError::new(message.to_owned())
}

#[test]
fn test_arguments_brief_none() {
    let args = Arguments::default();
    assert_eq!("", args.brief());
}

#[test]
fn test_arguments_brief_only_positional() {
    let mut args = Arguments::default();
    args.positional("one", "irrelevant");
    assert_eq!("one", args.brief());

    args.positional("two", "irrelevant");
    assert_eq!("one two", args.brief());
}

#[test]
fn test_arguments_brief_only_trailing() {
    let mut args = Arguments::default();
    args.trailing("name", 0, usize::MAX, "irrelevant");
    assert_eq!("[name1 .. nameN]", args.brief());

    let mut args = Arguments::default();
    args.trailing("name", 1, usize::MAX, "irrelevant");
    assert_eq!("name1 [.. nameN]", args.brief());
}

#[test]
fn test_arguments_brief_positional_and_trailing() {
    let mut args = Arguments::default();
    args.positional("one", "irrelevant");
    args.trailing("name", 0, usize::MAX, "irrelevant");
    assert_eq!("one [name1 .. nameN]", args.brief());
}

#[test]
fn test_arguments_usage_none() {
    let args = Arguments::default();
    assert_eq!("", args.usage());
}

#[test]
fn test_arguments_usage_only_positional() {
    let mut args = Arguments::default();
    args.positional("one", "flag one");
    assert_eq!(
        r"Arguments:
    one                 flag one
",
        args.usage()
    );

    args.positional("two", "flag two");
    assert_eq!(
        r"Arguments:
    one                 flag one
    two                 flag two
",
        args.usage()
    );
}

#[test]
fn test_arguments_usage_only_trailing() {
    let mut args = Arguments::default();
    args.trailing("name", 0, usize::MAX, "list of names");
    assert_eq!(
        r"Arguments:
    [name1 .. nameN]    list of names
",
        args.usage()
    );

    let mut args = Arguments::default();
    args.trailing("name", 1, usize::MAX, "list of names");
    assert_eq!(
        r"Arguments:
    name1 [.. nameN]    list of names
",
        args.usage()
    );
}

#[test]
fn test_arguments_usage_positional_and_trailing() {
    let mut args = Arguments::default();
    args.positional("one", "flag one");
    args.trailing("name", 0, usize::MAX, "list of names");
    assert_eq!(
        r"Arguments:
    one                 flag one
    [name1 .. nameN]    list of names
",
        args.usage()
    )
}

#[test]
fn test_arguments_parse_none() {
    let args = Arguments::default();
    let matches = args.parse(vec![]).unwrap();
    assert!(matches.positional.is_empty());
    assert!(matches.trailing.is_empty());
}

#[test]
fn test_arguments_parse_only_positional_ok() {
    let mut args = Arguments::default();
    args.positional("one", "flag one");
    args.positional("two", "flag two");
    let matches = args.parse(vec!["foo".to_owned(), "bar".to_owned()]).unwrap();
    assert_eq!("foo", matches.arg_pos("one"));
    assert_eq!("bar", matches.arg_pos("two"));
    assert!(matches.trailing.is_empty());
}

#[test]
fn test_arguments_parse_only_positional_not_enough() {
    let mut args = Arguments::default();
    args.positional("one", "flag one");
    args.positional("two", "flag two");
    let err = args.parse(vec![]).unwrap_err();
    assert_eq!(bad_usage("Required argument 'one' not provided"), err);
    let err = args.parse(vec!["foo".to_owned()]).unwrap_err();
    assert_eq!(bad_usage("Required argument 'two' not provided"), err);
}

#[test]
fn test_arguments_parse_only_positional_too_many() {
    let mut args = Arguments::default();
    args.positional("one", "flag one");
    args.positional("two", "flag two");
    let err = args.parse(vec!["foo".to_owned(), "bar".to_owned(), "baz".to_owned()]).unwrap_err();
    assert_eq!(bad_usage("Too many arguments"), err);
}

#[test]
fn test_arguments_parse_only_trailing_not_required() {
    let mut args = Arguments::default();
    args.trailing("name", 0, usize::MAX, "list of names");

    let matches = args.parse(vec![]).unwrap();
    assert!(matches.positional.is_empty());
    assert!(matches.trailing.is_empty());

    let matches = args.parse(vec!["a".to_owned()]).unwrap();
    assert!(matches.positional.is_empty());
    assert_eq!(vec!["a"], matches.trailing);

    let matches = args.parse(vec!["a".to_owned(), "b".to_owned()]).unwrap();
    assert!(matches.positional.is_empty());
    assert_eq!(vec!["a", "b"], matches.trailing);
}

#[test]
fn test_arguments_parse_only_trailing_required() {
    let mut args = Arguments::default();
    args.trailing("name", 1, usize::MAX, "list of names");

    let matches = args.parse(vec!["a".to_owned()]).unwrap();
    assert!(matches.positional.is_empty());
    assert_eq!(vec!["a"], matches.trailing);

    let matches = args.parse(vec!["a".to_owned(), "b".to_owned()]).unwrap();
    assert!(matches.positional.is_empty());
    assert_eq!(vec!["a", "b"], matches.trailing);
}

#[test]
fn test_arguments_parse_only_trailing_required_not_enough() {
    let mut args = Arguments::default();
    args.trailing("name", 1, usize::MAX, "list of names");
    let err = args.parse(vec![]).unwrap_err();
    assert_eq!(bad_usage("Trailing argument 'name' requires at least 1 value"), err);
}

#[test]
fn test_arguments_parse_positional_and_trailing() {
    let mut args = Arguments::default();
    args.positional("one", "flag one");
    args.trailing("name", 0, usize::MAX, "list of names");
    let matches = args.parse(vec!["a".to_owned(), "b".to_owned()]).unwrap();
    assert_eq!("a", matches.arg_pos("one"));
    assert_eq!(vec!["b"], matches.trailing);
}

#[test]
fn parse_requires_several_trailing_values() {
    let mut args = Arguments::new();
    args.trailing("file", 2, 3, "files");
    let err = args.parse(vec!["a".to_owned()]).unwrap_err();
    assert_eq!("Trailing argument 'file' requires at least 2 values", err.to_string());
    let err = args.parse(vec!["a".to_owned(); 4]).unwrap_err();
    assert_eq!("Too many arguments", err.to_string());
    let matches = args.parse(vec!["a".to_owned(), "b".to_owned(), "c".to_owned()]).unwrap();
    assert_eq!(vec!["a", "b", "c"], matches.arg_trail());
}

#[test]
fn parse_optional_single_trailing_value() {
    let mut args = Arguments::new();
    args.positional("src", "source");
    args.trailing("dest", 0, 1, "destination");
    assert_eq!("src [dest]", args.brief());
    let matches = args.parse(vec!["x".to_owned()]).unwrap();
    assert_eq!("x", matches.arg_pos("src"));
    assert!(matches.arg_trail().is_empty());
    let err = args.parse(vec!["x".to_owned(), "y".to_owned(), "z".to_owned()]).unwrap_err();
    assert_eq!(bad_usage("Too many arguments"), err);
}

#[test]
fn parse_exact_positionals_bind_in_order() {
    let mut args = Arguments::new();
    args.positional("a", "");
    args.positional("b", "");
    args.positional("c", "");
    let matches = args.parse(vec!["1".to_owned(), "2".to_owned(), "3".to_owned()]).unwrap();
    assert_eq!(
        vec![
            ("a".to_owned(), "1".to_owned()),
            ("b".to_owned(), "2".to_owned()),
            ("c".to_owned(), "3".to_owned())
        ],
        matches.positional
    );
    assert_eq!("2", matches.arg_pos("b"));
    assert!(matches.has_arg("c"));
    assert!(!matches.has_arg("d"));
}

#[test]
fn parse_with_leftover_and_no_trailing_declaration() {
    let args = Arguments::new();
    let err = args.parse(vec!["x".to_owned()]).unwrap_err();
    assert_eq!("Too many arguments", err.to_string());
}

#[test]
fn declarations_are_reported() {
    let mut args = Arguments::new();
    assert!(!args.has_positional("one"));
    assert!(!args.has_trailing());
    args.positional("one", "first");
    assert!(args.has_positional("one"));
    assert!(!args.has_positional("two"));
    args.trailing("rest", 0, usize::MAX, "rest");
    assert!(args.has_trailing());
}

#[test]
fn trailing_brief_forms() {
    assert_eq!("[f]", trailing_brief("f", 0, 1));
    assert_eq!("[f1 .. fN]", trailing_brief("f", 0, usize::MAX));
    assert_eq!("f1 [.. fN]", trailing_brief("f", 1, usize::MAX));
    assert_eq!("f2 .. f5", trailing_brief("f", 2, 5));
    assert_eq!("f1 .. f1", trailing_brief("f", 1, 1));
}

#[test]
fn usage_row_of_a_long_name_breaks_the_line() {
    let mut args = Arguments::new();
    args.positional("third_has_a_very_long_name", "and a short description");
    assert_eq!(
        "Arguments:\n    third_has_a_very_long_name\n                        and a short description\n",
        args.usage()
    );
}
