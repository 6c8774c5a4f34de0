use good_web_game::split_lines;

#[test]
fn splits_on_newlines() {
    assert_eq!(split_lines("a\nbb"), vec!["a".to_string(), "bb".to_string()]);
}

#[test]
fn empty_label_is_one_empty_line() {
    assert_eq!(split_lines(""), vec!["".to_string()]);
}

#[test]
fn no_newline_is_one_line() {
    assert_eq!(split_lines("hello world"), vec!["hello world".to_string()]);
}

#[test]
fn trailing_newline_yields_a_trailing_empty_line() {
    assert_eq!(split_lines("a\n"), vec!["a".to_string(), "".to_string()]);
}

#[test]
fn adjacent_newlines_yield_an_empty_line_between() {
    assert_eq!(
        split_lines("a\n\nb"),
        vec!["a".to_string(), "".to_string(), "b".to_string()]
    );
}

#[test]
fn leading_newline_yields_a_leading_empty_line() {
    assert_eq!(split_lines("\nx"), vec!["".to_string(), "x".to_string()]);
}

#[test]
fn splits_multibyte_text() {
    assert_eq!(
        split_lines("aé\nπb"),
        vec!["aé".to_string(), "πb".to_string()]
    );
}
