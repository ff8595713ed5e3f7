use rash::tokenizer::parse_command;

fn toks(r: &(Vec<String>, Option<String>, Option<String>)) -> Vec<&str> {
    r.0.iter().map(|s| s.as_str()).collect()
}

#[test]
fn single_quotes_group_and_spaces_collapse() {
    let r = parse_command("echo 'a b'  c".to_string());
    assert_eq!(toks(&r), vec!["echo", "a b", "c"]);
    assert_eq!(r.1, None);
    assert_eq!(r.2, None);
}

#[test]
fn double_quote_escaped_quote() {
    let r = parse_command("echo \"a\\\"b\"".to_string());
    assert_eq!(toks(&r), vec!["echo", "a\"b"]);
}

#[test]
fn unquoted_escaped_space() {
    let r = parse_command("echo a\\ b".to_string());
    assert_eq!(toks(&r), vec!["echo", "a b"]);
}

#[test]
fn stdout_redirect_target() {
    let r = parse_command("ls nonexist > out.txt".to_string());
    assert_eq!(toks(&r), vec!["ls", "nonexist"]);
    assert_eq!(r.1.as_deref(), Some("out.txt"));
    assert_eq!(r.2, None);
}

#[test]
fn stderr_redirect_target() {
    let r = parse_command("cmd 2> err.txt".to_string());
    assert_eq!(toks(&r), vec!["cmd"]);
    assert_eq!(r.1, None);
    assert_eq!(r.2.as_deref(), Some("err.txt"));
}

#[test]
fn empty_line_has_no_tokens() {
    let r = parse_command(String::new());
    assert!(r.0.is_empty());
    assert_eq!(r.1, None);
    assert_eq!(r.2, None);
}

#[test]
fn blank_line_has_no_tokens() {
    let r = parse_command("   ".to_string());
    assert!(r.0.is_empty());
}

#[test]
fn trailing_newline_is_ignored() {
    let r = parse_command("echo hi\n".to_string());
    assert_eq!(toks(&r), vec!["echo", "hi"]);
}

#[test]
fn unterminated_quote_keeps_accumulated_token() {
    let r = parse_command("echo 'abc".to_string());
    assert_eq!(toks(&r), vec!["echo", "abc"]);
}

#[test]
fn single_quotes_keep_backslash_verbatim() {
    let r = parse_command("echo 'a\\b'".to_string());
    assert_eq!(toks(&r), vec!["echo", "a\\b"]);
}

#[test]
fn double_quote_backslash_before_other_is_kept() {
    let r = parse_command("echo \"a\\nb\"".to_string());
    assert_eq!(toks(&r), vec!["echo", "a\\nb"]);
}

#[test]
fn escaped_backslash_outside_quotes() {
    let r = parse_command("echo a\\\\b".to_string());
    assert_eq!(toks(&r), vec!["echo", "a\\b"]);
}

#[test]
fn explicit_stdout_selector() {
    let r = parse_command("cmd 1> f".to_string());
    assert_eq!(toks(&r), vec!["cmd"]);
    assert_eq!(r.1.as_deref(), Some("f"));
    assert_eq!(r.2, None);
}

#[test]
fn later_redirect_of_same_stream_wins() {
    let r = parse_command("cmd > a > b".to_string());
    assert_eq!(toks(&r), vec!["cmd"]);
    assert_eq!(r.1.as_deref(), Some("b"));
}

#[test]
fn both_streams_redirected() {
    let r = parse_command("cmd > a 2> b".to_string());
    assert_eq!(toks(&r), vec!["cmd"]);
    assert_eq!(r.1.as_deref(), Some("a"));
    assert_eq!(r.2.as_deref(), Some("b"));
}

#[test]
fn other_digit_before_gt_is_dropped_without_capture() {
    let r = parse_command("cmd 3> f".to_string());
    assert_eq!(toks(&r), vec!["cmd", "f"]);
    assert_eq!(r.1, None);
    assert_eq!(r.2, None);
}

#[test]
fn words_after_captured_redirect_are_not_tokens() {
    let r = parse_command("ls > out more".to_string());
    assert_eq!(toks(&r), vec!["ls"]);
    assert_eq!(r.1.as_deref(), Some("out"));
}

#[test]
fn quoted_redirect_path_keeps_spaces() {
    let r = parse_command("cmd > 'a b'".to_string());
    assert_eq!(toks(&r), vec!["cmd"]);
    assert_eq!(r.1.as_deref(), Some("a b"));
}

#[test]
fn text_before_gt_is_dropped_not_emitted() {
    let r = parse_command("echo hello>out".to_string());
    assert_eq!(toks(&r), vec!["echo", "out"]);
    assert_eq!(r.1, None);
}

#[test]
fn escaped_newline_in_double_quotes_is_deleted() {
    let r = parse_command("echo \"a\\\nb\"".to_string());
    assert_eq!(toks(&r), vec!["echo", "ab"]);
}

#[test]
fn trailing_backslash_is_dropped() {
    let r = parse_command("echo a\\\n".to_string());
    assert_eq!(toks(&r), vec!["echo", "a"]);
}

#[test]
fn single_quote_inside_double_quotes_is_literal() {
    let r = parse_command("echo \"it's\"".to_string());
    assert_eq!(toks(&r), vec!["echo", "it's"]);
}

#[test]
fn double_quote_inside_single_quotes_is_literal() {
    let r = parse_command("echo 'a\"b'".to_string());
    assert_eq!(toks(&r), vec!["echo", "a\"b"]);
}

#[test]
fn escaped_backslash_in_double_quotes() {
    let r = parse_command("echo \"a\\\\b\"".to_string());
    assert_eq!(toks(&r), vec!["echo", "a\\b"]);
}

#[test]
fn escaped_quote_outside_quotes() {
    let r = parse_command("echo \\'".to_string());
    assert_eq!(toks(&r), vec!["echo", "'"]);
}

#[test]
fn whitespace_inside_open_quote_is_part_of_token() {
    let r = parse_command("echo \"a b\"".to_string());
    assert_eq!(toks(&r), vec!["echo", "a b"]);
}
