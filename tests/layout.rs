use getoptsargs::text::{decimal_string, spaces_string, split_spaces_exec};
use getoptsargs::{format_two_columns, wrap};

#[test]
fn test_wrap_fits_ok() {
    assert_eq!("foo bar", wrap("foo bar", 4, 7));
    assert_eq!("foo bar", wrap("foo bar", 4, 10));
}

#[test]
fn test_wrap_does_not_fit_no_padding() {
    assert_eq!("foo\nbar\nvery-long-word\na b", wrap("foo bar very-long-word a b", 0, 5));
}

#[test]
fn test_wrap_does_not_fit_with_padding() {
    assert_eq!(
        "foo\n    bar\n    very-long-word\n    a b",
        wrap("foo bar very-long-word a b", 4, 5)
    );
}

#[test]
fn test_format_two_columns_one_line() {
    assert_eq!("    foo   bar", format_two_columns("    foo".into(), "bar", 10, 5));
    assert_eq!("    fooxy bar", format_two_columns("    fooxy".into(), "bar", 10, 5));
}

#[test]
fn test_format_two_columns_first_column_too_long() {
    assert_eq!("    fooxyz\n          bar", format_two_columns("    fooxyz".into(), "bar", 10, 5));
}

#[test]
fn test_format_two_columns_second_column_too_long() {
    assert_eq!("    foo   bar\n          baz", format_two_columns("    foo".into(), "bar baz", 10, 5));
}

#[test]
fn wrap_empty_text_is_empty() {
    assert_eq!("", wrap("", 4, 10));
}

#[test]
fn wrap_keeps_a_word_wider_than_the_limit_whole() {
    assert_eq!("abcdefgh", wrap("abcdefgh", 2, 3));
    assert_eq!("ab\n  abcdefgh\n  cd", wrap("ab abcdefgh cd", 2, 3));
}

#[test]
fn wrap_fills_a_line_up_to_the_limit_exactly() {
    assert_eq!("ab cd\n  ef", wrap("ab cd ef", 2, 5));
}

#[test]
fn wrap_counts_bytes() {
    // "é" takes two bytes, so "é é" is five bytes wide.
    assert_eq!("é é", wrap("é é", 1, 5));
    assert_eq!("é\n é", wrap("é é", 1, 4));
}

#[test]
fn wrap_with_repeated_spaces_keeps_the_empty_words() {
    assert_eq!("a  b", wrap("a  b", 0, 10));
}

#[test]
fn two_columns_exactly_at_the_start_breaks_the_line() {
    assert_eq!("abc\n   x", format_two_columns("abc".into(), "x", 3, 10));
    assert_eq!("ab x", format_two_columns("ab".into(), "x", 3, 10));
}

#[test]
fn two_columns_wraps_the_second_column_at_the_start_offset() {
    assert_eq!(
        "    one                 this is the first required argument and contains a\n                        very long description",
        format_two_columns(
            "    one".into(),
            "this is the first required argument and contains a very long description",
            24,
            54
        )
    );
}

#[test]
fn decimal_notation() {
    assert_eq!("0", decimal_string(0));
    assert_eq!("7", decimal_string(7));
    assert_eq!("10", decimal_string(10));
    assert_eq!("18446744073709551615", decimal_string(u64::MAX as usize));
}

#[test]
fn spaces_of_a_given_count() {
    assert_eq!("", spaces_string(0));
    assert_eq!("   ", spaces_string(3));
}

#[test]
fn split_on_single_spaces() {
    assert_eq!(vec![""], split_spaces_exec(""));
    assert_eq!(vec!["a", "", "b", ""], split_spaces_exec("a  b "));
}
