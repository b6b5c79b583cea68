use prisma_query::strutil::{split_char_exec, ws_tokens_exec};

#[test]
fn split_keeps_empty_pieces() {
    let parts = split_char_exec("'user_email_key'", '\'');
    assert_eq!(parts, vec!["".to_string(), "user_email_key".to_string(), "".to_string()]);
}

#[test]
fn split_without_separator_is_one_piece() {
    assert_eq!(split_char_exec("abc", '\''), vec!["abc".to_string()]);
}

#[test]
fn split_of_empty_text_is_one_empty_piece() {
    assert_eq!(split_char_exec("", '_'), vec!["".to_string()]);
}

#[test]
fn split_on_underscore() {
    assert_eq!(
        split_char_exec("user_email_key", '_'),
        vec!["user".to_string(), "email".to_string(), "key".to_string()]
    );
}

#[test]
fn tokens_skip_runs_of_whitespace() {
    assert_eq!(
        ws_tokens_exec("  a \t bb\ncc "),
        vec!["a".to_string(), "bb".to_string(), "cc".to_string()]
    );
}

#[test]
fn tokens_of_empty_text_are_none() {
    assert!(ws_tokens_exec("").is_empty());
    assert!(ws_tokens_exec("   ").is_empty());
}

#[test]
fn tokens_of_single_word() {
    assert_eq!(ws_tokens_exec("word"), vec!["word".to_string()]);
}
