//! The library's general laws, each proved once over the dispatcher's
//! model: what `type` says of a builtin whatever `PATH` holds, what `cd`
//! does with too many arguments, what a failed redirect aborts, that
//! `echo`'s output does not depend on where it goes, and that a `PATH`
//! search reports the earliest-listed hit.

use crate::builtins::cd_too_many_msg;
use crate::builtins::echo_spec;
use crate::builtins::is_builtin_spec;
use crate::dispatch::builtin_msg;
use crate::dispatch::consults_dirs;
use crate::dispatch::diag_lines;
use crate::dispatch::empty_invocation;
use crate::dispatch::found_msg;
use crate::dispatch::no_such_file_msg;
use crate::dispatch::opt_or_empty;
use crate::dispatch::plan_spec;
use crate::dispatch::type_lines_spec;
use crate::dispatch::EffectView;
use crate::dispatch::LineView;
use crate::dispatch::PlanView;
use crate::dispatch::Sink;
use crate::path_search::dir_has;
use crate::path_search::first_hit;
use crate::path_search::joined_path;
use crate::path_search::lemma_first_hit;
use crate::path_search::DirView;
use vstd::prelude::*;

verus! {

/// For every builtin name, `type` reports `<name> is a shell builtin`,
/// whatever `PATH` holds: the plan is one line and no effect, the same for
/// every directory snapshot.
pub proof fn lemma_type_builtin_ignores_path(
    tokens: Seq<Seq<char>>,
    out_path: Option<Seq<char>>,
    err_path: Option<Seq<char>>,
    home: Option<Seq<char>>,
    cwd: Option<Seq<char>>,
    dirs: Seq<DirView>,
)
    requires
        tokens.len() >= 2,
        tokens[0] == "type"@,
        is_builtin_spec(tokens[1]),
    ensures
        plan_spec(tokens, out_path, false, err_path, false, home, cwd, dirs) == (PlanView {
            lines: seq![(LineView { sink: Sink::CmdOut, text: builtin_msg(tokens[1]) })],
            effect: EffectView::NoEffect,
        }),
{
    reveal_strlit("type");
    reveal_strlit("exit");
    reveal_strlit("echo");
    assert("type"@ != "exit"@) by {
        assert("type"@[0] != "exit"@[0]);
    }
    assert("type"@ != "echo"@) by {
        assert("type"@[0] != "echo"@[0]);
    }
    assert(plan_spec(tokens, out_path, false, err_path, false, home, cwd, dirs) =~~= (PlanView {
        lines: seq![(LineView { sink: Sink::CmdOut, text: builtin_msg(tokens[1]) })],
        effect: EffectView::NoEffect,
    }));
}

/// `cd` with more than one argument only prints `cd: too many arguments`:
/// the plan holds no directory change, whatever the arguments, the home
/// value and the rest of the environment.
pub proof fn lemma_cd_extra_args_never_changes_dir(
    tokens: Seq<Seq<char>>,
    out_path: Option<Seq<char>>,
    err_path: Option<Seq<char>>,
    home: Option<Seq<char>>,
    cwd: Option<Seq<char>>,
    dirs: Seq<DirView>,
)
    requires
        tokens.len() >= 3,
        tokens[0] == "cd"@,
    ensures
        plan_spec(tokens, out_path, false, err_path, false, home, cwd, dirs) == (PlanView {
            lines: seq![(LineView { sink: Sink::CmdOut, text: cd_too_many_msg() })],
            effect: EffectView::NoEffect,
        }),
{
    reveal_strlit("cd");
    reveal_strlit("exit");
    reveal_strlit("echo");
    reveal_strlit("type");
    assert("cd"@ != "exit"@) by {
        assert("cd"@.len() == 2 && "exit"@.len() == 4);
    }
    assert("cd"@ != "echo"@) by {
        assert("cd"@.len() == 2 && "echo"@.len() == 4);
    }
    assert("cd"@ != "type"@) by {
        assert("cd"@.len() == 2 && "type"@.len() == 4);
    }
    assert(plan_spec(tokens, out_path, false, err_path, false, home, cwd, dirs) =~~= (PlanView {
        lines: seq![(LineView { sink: Sink::CmdOut, text: cd_too_many_msg() })],
        effect: EffectView::NoEffect,
    }));
}

/// When a redirect target could not be created, the whole command is
/// abandoned: the plan is exactly one `No such file or directory` message
/// on the shell's own stdout (stdout's failure reported first) and no
/// effect — no builtin runs, no directory changes, nothing is spawned.
pub proof fn lemma_redirect_failure_aborts(
    tokens: Seq<Seq<char>>,
    out_path: Option<Seq<char>>,
    out_failed: bool,
    err_path: Option<Seq<char>>,
    err_failed: bool,
    home: Option<Seq<char>>,
    cwd: Option<Seq<char>>,
    dirs: Seq<DirView>,
)
    requires
        !empty_invocation(tokens),
        out_failed || err_failed,
    ensures
        plan_spec(tokens, out_path, out_failed, err_path, err_failed, home, cwd, dirs)
            == (PlanView {
            lines: seq![
                (LineView {
                    sink: Sink::Shell,
                    text: no_such_file_msg(
                        tokens[0],
                        opt_or_empty(
                            if out_failed {
                                out_path
                            } else {
                                err_path
                            },
                        ),
                    ),
                }),
            ],
            effect: EffectView::NoEffect,
        }),
{
    assert(plan_spec(tokens, out_path, out_failed, err_path, err_failed, home, cwd, dirs) =~~= (
    PlanView {
        lines: seq![
            (LineView {
                sink: Sink::Shell,
                text: no_such_file_msg(
                    tokens[0],
                    opt_or_empty(
                        if out_failed {
                            out_path
                        } else {
                            err_path
                        },
                    ),
                ),
            }),
        ],
        effect: EffectView::NoEffect,
    }));
}

/// What `echo` writes is a function of its arguments alone: with the
/// redirects resolved, the plan is the same one line — the arguments, each
/// followed by one space — whatever the destination paths and the rest of
/// the environment are.
pub proof fn lemma_echo_output_independent_of_destination(
    tokens: Seq<Seq<char>>,
    out_path1: Option<Seq<char>>,
    err_path1: Option<Seq<char>>,
    home1: Option<Seq<char>>,
    cwd1: Option<Seq<char>>,
    dirs1: Seq<DirView>,
    out_path2: Option<Seq<char>>,
    err_path2: Option<Seq<char>>,
    home2: Option<Seq<char>>,
    cwd2: Option<Seq<char>>,
    dirs2: Seq<DirView>,
)
    requires
        tokens.len() >= 1,
        tokens[0] == "echo"@,
    ensures
        plan_spec(tokens, out_path1, false, err_path1, false, home1, cwd1, dirs1) == (PlanView {
            lines: seq![(LineView { sink: Sink::CmdOut, text: echo_spec(tokens.drop_first()) })],
            effect: EffectView::NoEffect,
        }),
        plan_spec(tokens, out_path1, false, err_path1, false, home1, cwd1, dirs1) == plan_spec(
            tokens,
            out_path2,
            false,
            err_path2,
            false,
            home2,
            cwd2,
            dirs2,
        ),
{
    reveal_strlit("echo");
    reveal_strlit("exit");
    assert(tokens[0].len() == 4);
    assert(!empty_invocation(tokens));
    assert("echo"@ != "exit"@) by {
        assert("echo"@[1] != "exit"@[1]);
    }
    assert(plan_spec(tokens, out_path1, false, err_path1, false, home1, cwd1, dirs1) =~~= (
    PlanView {
        lines: seq![(LineView { sink: Sink::CmdOut, text: echo_spec(tokens.drop_first()) })],
        effect: EffectView::NoEffect,
    }));
    assert(plan_spec(tokens, out_path2, false, err_path2, false, home2, cwd2, dirs2) =~~= (
    PlanView {
        lines: seq![(LineView { sink: Sink::CmdOut, text: echo_spec(tokens.drop_first()) })],
        effect: EffectView::NoEffect,
    }));
}

/// Only `type` with an argument and an external command consult the
/// directory snapshot: for every other token sequence the plan is the same
/// whatever snapshot is passed, so the shell need not list the directories
/// at all for such a line.
pub proof fn lemma_plan_ignores_dirs(
    tokens: Seq<Seq<char>>,
    out_path: Option<Seq<char>>,
    out_failed: bool,
    err_path: Option<Seq<char>>,
    err_failed: bool,
    home: Option<Seq<char>>,
    cwd: Option<Seq<char>>,
    dirs1: Seq<DirView>,
    dirs2: Seq<DirView>,
)
    requires
        !consults_dirs(tokens),
    ensures
        plan_spec(tokens, out_path, out_failed, err_path, err_failed, home, cwd, dirs1)
            == plan_spec(tokens, out_path, out_failed, err_path, err_failed, home, cwd, dirs2),
{
    let p1 = plan_spec(tokens, out_path, out_failed, err_path, err_failed, home, cwd, dirs1);
    let p2 = plan_spec(tokens, out_path, out_failed, err_path, err_failed, home, cwd, dirs2);
    if empty_invocation(tokens) {
        assert(p1 =~~= p2);
    } else if out_failed || err_failed {
        assert(p1 =~~= p2);
    } else if tokens[0] == "exit"@ || tokens[0] == "echo"@ {
        assert(p1 =~~= p2);
    } else if tokens[0] == "type"@ {
        reveal_strlit("type");
        reveal_strlit("pwd");
        reveal_strlit("cd");
        assert("type"@ != "pwd"@) by {
            assert("type"@[0] != "pwd"@[0]);
        }
        assert("type"@ != "cd"@) by {
            assert("type"@.len() != "cd"@.len());
        }
        assert(tokens.len() < 2);
        assert(p1 =~~= p2);
    } else if (tokens.len() == 1 && tokens[0] == "pwd"@) || tokens[0] == "cd"@ {
        assert(p1 =~~= p2);
    } else {
        // an external command: excluded by the premise
        assert(consults_dirs(tokens));
    }
}

/// When a name is present in two listed directories, the `PATH` scan
/// reports the earlier-listed one: the first hit lies at or before the
/// earlier of the two, and `type`'s result line names that directory.
pub proof fn lemma_type_earlier_dir_wins(name: Seq<char>, dirs: Seq<DirView>, i: int, j: int)
    requires
        !is_builtin_spec(name),
        0 <= i < j < dirs.len(),
        dir_has(dirs[i], name),
        dir_has(dirs[j], name),
    ensures
        first_hit(dirs, name) matches Some(h) && 0 <= h <= i && dir_has(dirs[h], name)
            && type_lines_spec(name, dirs) == diag_lines(dirs.subrange(0, h)) + seq![
            (LineView { sink: Sink::CmdOut, text: found_msg(name, joined_path(dirs[h].dir, name)) }),
        ],
{
    lemma_first_hit(dirs, name);
    match first_hit(dirs, name) {
        Some(h) => {
            if h > i {
                assert(!dir_has(dirs[i], name));
            }
        },
        None => {
            assert(!dir_has(dirs[i], name));
        },
    }
}

} // verus!
