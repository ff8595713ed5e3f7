use rash::dispatch::dispatch;
use rash::dispatch::needs_dir_snapshot;
use rash::dispatch::Effect;
use rash::dispatch::Plan;
use rash::dispatch::Sink;
use rash::path_search::find_in_dirs;
use rash::path_search::DirListing;

fn sv(items: &[&str]) -> Vec<String> {
    items.iter().map(|s| s.to_string()).collect()
}

fn listed(dir: &str, entries: &[&str]) -> DirListing {
    DirListing {
        dir: dir.to_string(),
        entries: Some(sv(entries)),
    }
}

fn unreadable(dir: &str) -> DirListing {
    DirListing {
        dir: dir.to_string(),
        entries: None,
    }
}

fn plain_dispatch(tokens: &[&str], dirs: Vec<DirListing>) -> Plan {
    dispatch(&sv(tokens), &None, false, &None, false, &None, &None, &dirs)
}

#[test]
fn empty_invocation_does_nothing() {
    let p = plain_dispatch(&[], vec![]);
    assert!(p.lines.is_empty());
    assert!(matches!(p.effect, Effect::NoEffect));
    let p = plain_dispatch(&[""], vec![]);
    assert!(p.lines.is_empty());
    assert!(matches!(p.effect, Effect::NoEffect));
}

#[test]
fn type_reports_builtins_whatever_path_holds() {
    for name in ["exit", "echo", "type", "pwd", "cd"] {
        let dirs = vec![listed("/bin", &[name, "ls"]), unreadable("/gone")];
        let p = plain_dispatch(&["type", name], dirs);
        assert_eq!(p.lines.len(), 1);
        assert!(matches!(p.lines[0].sink, Sink::CmdOut));
        assert_eq!(p.lines[0].text, format!("{name} is a shell builtin"));
        assert!(matches!(p.effect, Effect::NoEffect));
    }
}

#[test]
fn type_reports_first_hit_on_path() {
    let dirs = vec![
        listed("/usr/bin", &["cat"]),
        listed("/opt/a", &["prog"]),
        listed("/opt/b", &["prog"]),
    ];
    let p = plain_dispatch(&["type", "prog"], dirs);
    assert_eq!(p.lines.len(), 1);
    assert_eq!(p.lines[0].text, "prog is /opt/a/prog");
}

#[test]
fn type_not_found_after_diagnostics() {
    let dirs = vec![unreadable("/gone"), listed("/bin", &["ls"])];
    let p = plain_dispatch(&["type", "zzz"], dirs);
    assert_eq!(p.lines.len(), 2);
    assert!(matches!(p.lines[0].sink, Sink::CmdErr));
    assert_eq!(p.lines[0].text, "type: /gone: could not read directory");
    assert!(matches!(p.lines[1].sink, Sink::CmdOut));
    assert_eq!(p.lines[1].text, "zzz: not found");
}

#[test]
fn unreadable_directory_does_not_stop_the_scan() {
    let dirs = vec![unreadable("/gone"), listed("/bin", &["prog"])];
    let p = plain_dispatch(&["type", "prog"], dirs);
    assert_eq!(p.lines.len(), 2);
    assert_eq!(p.lines[0].text, "type: /gone: could not read directory");
    assert_eq!(p.lines[1].text, "prog is /bin/prog");
}

#[test]
fn cd_with_two_arguments_never_changes_directory() {
    let p = dispatch(
        &sv(&["cd", "/a", "/b"]),
        &None,
        false,
        &None,
        false,
        &Some("/home/me".to_string()),
        &None,
        &vec![],
    );
    assert_eq!(p.lines.len(), 1);
    assert_eq!(p.lines[0].text, "cd: too many arguments");
    assert!(matches!(p.effect, Effect::NoEffect));
}

#[test]
fn cd_resolves_home_and_tilde() {
    let home = Some("/home/me".to_string());
    let p = dispatch(&sv(&["cd"]), &None, false, &None, false, &home, &None, &vec![]);
    assert!(p.lines.is_empty());
    match &p.effect {
        Effect::ChangeDir(t) => assert_eq!(t, "/home/me"),
        _ => panic!("expected a directory change"),
    }
    let p = dispatch(
        &sv(&["cd", "~/src"]),
        &None,
        false,
        &None,
        false,
        &home,
        &None,
        &vec![],
    );
    match &p.effect {
        Effect::ChangeDir(t) => assert_eq!(t, "/home/me/src"),
        _ => panic!("expected a directory change"),
    }
}

#[test]
fn failed_stdout_redirect_aborts_the_command() {
    let p = dispatch(
        &sv(&["cd", "/tmp"]),
        &Some("/no/such/dir/f".to_string()),
        true,
        &None,
        false,
        &Some("/home/me".to_string()),
        &None,
        &vec![],
    );
    assert_eq!(p.lines.len(), 1);
    assert!(matches!(p.lines[0].sink, Sink::Shell));
    assert_eq!(p.lines[0].text, "cd: /no/such/dir/f: No such file or directory");
    assert!(matches!(p.effect, Effect::NoEffect));
}

#[test]
fn failed_stderr_redirect_aborts_too() {
    let p = dispatch(
        &sv(&["echo", "hi"]),
        &None,
        false,
        &Some("/bad/e".to_string()),
        true,
        &None,
        &None,
        &vec![],
    );
    assert_eq!(p.lines.len(), 1);
    assert!(matches!(p.lines[0].sink, Sink::Shell));
    assert_eq!(p.lines[0].text, "echo: /bad/e: No such file or directory");
    assert!(matches!(p.effect, Effect::NoEffect));
}

#[test]
fn echo_plan_is_one_line_of_spaced_arguments() {
    let p = plain_dispatch(&["echo", "a", "b"], vec![]);
    assert_eq!(p.lines.len(), 1);
    assert!(matches!(p.lines[0].sink, Sink::CmdOut));
    assert_eq!(p.lines[0].text, "a b ");
    assert!(matches!(p.effect, Effect::NoEffect));
}

#[test]
fn echo_plan_does_not_depend_on_destination() {
    let here = plain_dispatch(&["echo", "x", "y"], vec![]);
    let to_file = dispatch(
        &sv(&["echo", "x", "y"]),
        &Some("out.txt".to_string()),
        false,
        &None,
        false,
        &None,
        &None,
        &vec![],
    );
    assert_eq!(here.lines.len(), 1);
    assert_eq!(to_file.lines.len(), 1);
    assert_eq!(here.lines[0].text, to_file.lines[0].text);
    assert_eq!(here.lines[0].text, "x y ");
}

#[test]
fn exit_plan_carries_the_parsed_code() {
    let p = plain_dispatch(&["exit", "3"], vec![]);
    assert!(p.lines.is_empty());
    assert!(matches!(p.effect, Effect::ExitWith(3)));
    let p = plain_dispatch(&["exit"], vec![]);
    assert!(matches!(p.effect, Effect::ExitWith(1)));
    let p = plain_dispatch(&["exit", "x"], vec![]);
    assert!(matches!(p.effect, Effect::ExitWith(1)));
}

#[test]
fn pwd_alone_prints_the_current_directory() {
    let p = dispatch(
        &sv(&["pwd"]),
        &None,
        false,
        &None,
        false,
        &None,
        &Some("/work".to_string()),
        &vec![],
    );
    assert_eq!(p.lines.len(), 1);
    assert!(matches!(p.lines[0].sink, Sink::CmdOut));
    assert_eq!(p.lines[0].text, "/work");
}

#[test]
fn pwd_without_current_directory_writes_a_diagnostic() {
    let p = dispatch(&sv(&["pwd"]), &None, false, &None, false, &None, &None, &vec![]);
    assert_eq!(p.lines.len(), 1);
    assert!(matches!(p.lines[0].sink, Sink::CmdErr));
    assert_eq!(p.lines[0].text, "pwd: could not determine current directory");
}

#[test]
fn pwd_with_an_argument_is_an_external_lookup() {
    let p = plain_dispatch(&["pwd", "x"], vec![]);
    assert_eq!(p.lines.len(), 1);
    assert_eq!(p.lines[0].text, "pwd: command not found");
}

#[test]
fn external_command_spawns_the_first_hit() {
    let dirs = vec![listed("/sbin", &["other"]), listed("/bin", &["prog"])];
    let p = dispatch(
        &sv(&["prog", "a", "b c"]),
        &None,
        false,
        &None,
        false,
        &None,
        &None,
        &dirs,
    );
    assert!(p.lines.is_empty());
    match &p.effect {
        Effect::Spawn(path, args) => {
            assert_eq!(path, "/bin/prog");
            assert_eq!(args, &sv(&["a", "b c"]));
        },
        _ => panic!("expected a spawn"),
    }
}

#[test]
fn unknown_command_reports_not_found_on_stdout() {
    let p = plain_dispatch(&["nosuch"], vec![listed("/bin", &["ls"])]);
    assert_eq!(p.lines.len(), 1);
    assert!(matches!(p.lines[0].sink, Sink::CmdOut));
    assert_eq!(p.lines[0].text, "nosuch: command not found");
    assert!(matches!(p.effect, Effect::NoEffect));
}

#[test]
fn only_type_and_external_commands_need_the_path_snapshot() {
    assert!(needs_dir_snapshot(&sv(&["type", "ls"])));
    assert!(needs_dir_snapshot(&sv(&["prog"])));
    assert!(needs_dir_snapshot(&sv(&["pwd", "x"])));
    assert!(!needs_dir_snapshot(&sv(&[])));
    assert!(!needs_dir_snapshot(&sv(&["echo", "a"])));
    assert!(!needs_dir_snapshot(&sv(&["exit"])));
    assert!(!needs_dir_snapshot(&sv(&["cd", "/tmp"])));
    assert!(!needs_dir_snapshot(&sv(&["pwd"])));
    assert!(!needs_dir_snapshot(&sv(&["type"])));
}

#[test]
fn find_in_dirs_prefers_the_earlier_directory() {
    let dirs = vec![
        listed("/a", &["x", "prog"]),
        listed("/b", &["prog"]),
    ];
    let name = "prog".to_string();
    assert_eq!(find_in_dirs(&name, &dirs).as_deref(), Some("/a/prog"));
    let none = find_in_dirs(&"absent".to_string(), &dirs);
    assert_eq!(none, None);
}
