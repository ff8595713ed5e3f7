use rash::builtins::cd_failure_message;
use rash::builtins::cd_target;
use rash::builtins::echo_line;
use rash::builtins::exit_code;
use rash::builtins::is_builtin;
use rash::builtins::parse_i32;
use rash::path_search::split_paths;
use rash::strutil::trim;

fn sv(items: &[&str]) -> Vec<String> {
    items.iter().map(|s| s.to_string()).collect()
}

#[test]
fn every_builtin_name_is_recognised() {
    for name in ["exit", "echo", "type", "pwd", "cd"] {
        assert!(is_builtin(&name.to_string()));
    }
    assert!(!is_builtin(&"ls".to_string()));
    assert!(!is_builtin(&String::new()));
    assert!(!is_builtin(&"Exit".to_string()));
}

#[test]
fn exit_code_defaults_to_one() {
    assert_eq!(exit_code(&sv(&[])), 1);
    assert_eq!(exit_code(&sv(&["abc"])), 1);
    assert_eq!(exit_code(&sv(&[""])), 1);
}

#[test]
fn exit_code_parses_first_argument() {
    assert_eq!(exit_code(&sv(&["42"])), 42);
    assert_eq!(exit_code(&sv(&["0", "9"])), 0);
    assert_eq!(exit_code(&sv(&["-5"])), -5);
    assert_eq!(exit_code(&sv(&["+7"])), 7);
}

#[test]
fn exit_code_range_edges() {
    assert_eq!(exit_code(&sv(&["2147483647"])), 2147483647);
    assert_eq!(exit_code(&sv(&["-2147483648"])), -2147483648);
    assert_eq!(exit_code(&sv(&["2147483648"])), 1);
    assert_eq!(exit_code(&sv(&["-2147483649"])), 1);
    assert_eq!(exit_code(&sv(&["99999999999999999999"])), 1);
}

#[test]
fn parse_i32_rejects_junk() {
    assert_eq!(parse_i32(&"-".to_string()), None);
    assert_eq!(parse_i32(&"+".to_string()), None);
    assert_eq!(parse_i32(&"1 2".to_string()), None);
    assert_eq!(parse_i32(&"12a".to_string()), None);
    assert_eq!(parse_i32(&"007".to_string()), Some(7));
}

#[test]
fn echo_renders_each_argument_followed_by_a_space() {
    assert_eq!(echo_line(&sv(&["a", "b"])), "a b ");
    assert_eq!(echo_line(&sv(&[])), "");
    assert_eq!(echo_line(&sv(&["one"])), "one ");
    assert_eq!(echo_line(&sv(&["a b", "c"])), "a b c ");
}

#[test]
fn cd_with_no_argument_goes_home() {
    let home = Some("/home/me".to_string());
    assert_eq!(cd_target(&None, &home), "/home/me");
}

#[test]
fn cd_expands_leading_tilde_only() {
    let home = Some("/home/me".to_string());
    assert_eq!(cd_target(&Some("~/x".to_string()), &home), "/home/me/x");
    assert_eq!(cd_target(&Some("/a/~b".to_string()), &home), "/a/~b");
    assert_eq!(cd_target(&Some("/abs".to_string()), &home), "/abs");
}

#[test]
fn cd_without_home_keeps_argument_as_written() {
    assert_eq!(cd_target(&Some("~/x".to_string()), &None), "~/x");
    assert_eq!(cd_target(&None, &None), "~");
}

#[test]
fn cd_failure_message_text() {
    assert_eq!(
        cd_failure_message(&"/nope".to_string()),
        "cd: /nope: No such file or directory"
    );
}

#[test]
fn unset_path_gives_empty_search_list() {
    assert!(split_paths(&None).is_empty());
}

#[test]
fn path_splits_on_colons_keeping_empty_pieces() {
    assert_eq!(split_paths(&Some(String::new())), vec![""]);
    assert_eq!(split_paths(&Some("a:b".to_string())), vec!["a", "b"]);
    assert_eq!(split_paths(&Some(":a:".to_string())), vec!["", "a", ""]);
    assert_eq!(
        split_paths(&Some("/usr/bin:/bin".to_string())),
        vec!["/usr/bin", "/bin"]
    );
}

#[test]
fn trim_removes_edge_blanks_only() {
    assert_eq!(trim(&"  a b \n".to_string()), "a b");
    assert_eq!(trim(&"\t\r\n ".to_string()), "");
    assert_eq!(trim(&"a\tb".to_string()), "a\tb");
}
