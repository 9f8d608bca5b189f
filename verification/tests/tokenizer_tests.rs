use reedline_repl_rs::tokenizer::tokenize;

#[test]
fn tokenize_empty_line_yields_no_tokens() {
    let tokens = tokenize("");
    assert!(tokens.is_empty());
}

#[test]
fn tokenize_whitespace_only_line_yields_no_tokens() {
    let tokens = tokenize("   ");
    assert!(tokens.is_empty());
    let tokens = tokenize(" \t \r\n ");
    assert!(tokens.is_empty());
}

#[test]
fn tokenize_quoted_argument() {
    let tokens = tokenize("cmd \"a b\" c");
    assert_eq!(tokens, vec!["cmd".to_string(), "a b".to_string(), "c".to_string()]);
}

#[test]
fn tokenize_plain_words() {
    let tokens = tokenize("greet alice  bob");
    assert_eq!(tokens, vec!["greet".to_string(), "alice".to_string(), "bob".to_string()]);
}

#[test]
fn tokenize_unterminated_quote_takes_remainder_as_one_token() {
    let tokens = tokenize("ab \"cd ef");
    assert_eq!(tokens, vec!["ab".to_string(), "cd ef".to_string()]);
}

#[test]
fn tokenize_quotes_join_within_a_token() {
    let tokens = tokenize("a\"b c\"d");
    assert_eq!(tokens, vec!["ab cd".to_string()]);
}

#[test]
fn tokenize_empty_quotes_make_an_empty_token() {
    let tokens = tokenize("x \"\"");
    assert_eq!(tokens, vec!["x".to_string(), "".to_string()]);
}

#[test]
fn tokenize_leading_and_trailing_whitespace() {
    let tokens = tokenize("  hello world  ");
    assert_eq!(tokens, vec!["hello".to_string(), "world".to_string()]);
}
