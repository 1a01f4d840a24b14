use shortcut_launcher::parse_args;

#[test]
fn empty_input_yields_no_tokens() {
    assert_eq!(parse_args(""), Vec::<String>::new());
}

#[test]
fn splits_on_spaces() {
    assert_eq!(parse_args("a b"), vec!["a".to_string(), "b".to_string()]);
}

#[test]
fn double_quotes_group_and_are_stripped() {
    assert_eq!(parse_args("\"a b\" c"), vec!["a b".to_string(), "c".to_string()]);
}

#[test]
fn single_quote_inside_double_quotes_is_literal() {
    assert_eq!(parse_args("\"a'b\" c"), vec!["a'b".to_string(), "c".to_string()]);
}

#[test]
fn unterminated_quote_keeps_trailing_characters() {
    assert_eq!(parse_args("\"open end"), vec!["open end".to_string()]);
}

#[test]
fn reopened_single_quote_swallows_the_space() {
    // The first `'` pair closes after "it"; the third `'` opens a new span, so
    // the space before `a` is quoted and no split happens there.
    assert_eq!(parse_args("'it's' a"), vec!["its a".to_string()]);
}

#[test]
fn consecutive_spaces_produce_no_empty_tokens() {
    assert_eq!(parse_args("a   b"), vec!["a".to_string(), "b".to_string()]);
}

#[test]
fn leading_and_trailing_spaces_are_dropped() {
    assert_eq!(parse_args("  x  "), vec!["x".to_string()]);
}

#[test]
fn empty_quoted_span_yields_no_token() {
    assert_eq!(parse_args("\"\" a"), vec!["a".to_string()]);
}

#[test]
fn adjacent_quoted_and_bare_text_join() {
    assert_eq!(parse_args("\"a\"b"), vec!["ab".to_string()]);
}

#[test]
fn mixed_quote_styles_alternate() {
    assert_eq!(
        parse_args("'one two' \"three four\""),
        vec!["one two".to_string(), "three four".to_string()]
    );
}
