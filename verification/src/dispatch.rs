//! The dispatcher: from the token sequence, the outcome of opening each
//! requested redirect target, and a snapshot of the environment (`HOME`,
//! the current directory, the `PATH` directory listings), decide the whole
//! of what the shell must do for one line — every output line, with its
//! destination, and at most one effect (terminate, change directory, or
//! spawn a found executable).
//!
//! `dispatch` is total and effect-free; the caller carries out the returned
//! plan: it writes each line (followed by a newline) to the named sink and
//! performs the effect.

use crate::builtins::cd_target_spec;
use crate::builtins::cd_too_many_msg;
use crate::builtins::echo_spec;
use crate::builtins::exit_code_spec;
use crate::builtins::is_builtin_spec;
use crate::builtins::cd_target;
use crate::builtins::echo_line;
use crate::builtins::exit_code;
use crate::builtins::is_builtin;
use crate::builtins::str_eq;
use crate::path_search::dir_has;
use crate::path_search::first_hit;
use crate::path_search::joined_path;
use crate::path_search::lemma_first_hit;
use crate::path_search::DirListing;
use crate::path_search::DirView;
use crate::path_search::find_in_dirs;
use vstd::prelude::*;

verus! {

/// Where one output line goes: the shell's own standard output (used only
/// for the redirect-failure message), the command's resolved stdout target,
/// or its resolved stderr target.
#[derive(Clone, Copy)]
pub enum Sink {
    Shell,
    CmdOut,
    CmdErr,
}

/// One line the shell writes (the trailing newline is implied).
pub struct OutputLine {
    pub sink: Sink,
    pub text: String,
}

/// The mathematical image of an `OutputLine`.
#[verifier::ext_equal]
pub struct LineView {
    pub sink: Sink,
    pub text: Seq<char>,
}

impl View for OutputLine {
    type V = LineView;

    open spec fn view(&self) -> LineView {
        LineView { sink: self.sink, text: self.text@ }
    }
}

impl DeepView for OutputLine {
    type V = LineView;

    open spec fn deep_view(&self) -> LineView {
        self.view()
    }
}

/// The at-most-one effect a command has beyond writing lines.
pub enum Effect {
    NoEffect,
    ExitWith(i32),
    ChangeDir(String),
    Spawn(String, Vec<String>),
}

/// The mathematical image of an `Effect`.
#[verifier::ext_equal]
pub enum EffectView {
    NoEffect,
    ExitWith(int),
    ChangeDir(Seq<char>),
    Spawn(Seq<char>, Seq<Seq<char>>),
}

impl View for Effect {
    type V = EffectView;

    open spec fn view(&self) -> EffectView {
        match self {
            Effect::NoEffect => EffectView::NoEffect,
            Effect::ExitWith(c) => EffectView::ExitWith(*c as int),
            Effect::ChangeDir(p) => EffectView::ChangeDir(p@),
            Effect::Spawn(p, args) => EffectView::Spawn(p@, args.deep_view()),
        }
    }
}

/// Everything the shell must do for one line: the output lines in order,
/// then the effect.
pub struct Plan {
    pub lines: Vec<OutputLine>,
    pub effect: Effect,
}

/// The mathematical image of a `Plan`.
#[verifier::ext_equal]
pub struct PlanView {
    pub lines: Seq<LineView>,
    pub effect: EffectView,
}

impl View for Plan {
    type V = PlanView;

    open spec fn view(&self) -> PlanView {
        PlanView { lines: self.lines.deep_view(), effect: self.effect@ }
    }
}

/// A token sequence that dispatches to nothing: no tokens, or one empty
/// token.
pub open spec fn empty_invocation(tokens: Seq<Seq<char>>) -> bool {
    tokens.len() == 0 || (tokens.len() == 1 && tokens[0].len() == 0)
}

/// The message printed when a redirect target cannot be created.
pub open spec fn no_such_file_msg(cmd: Seq<char>, path: Seq<char>) -> Seq<char> {
    cmd + ": "@ + path + ": No such file or directory"@
}

/// The message `type` writes for a builtin name.
pub open spec fn builtin_msg(name: Seq<char>) -> Seq<char> {
    name + " is a shell builtin"@
}

/// The message `type` writes for a name found on `PATH`.
pub open spec fn found_msg(name: Seq<char>, path: Seq<char>) -> Seq<char> {
    name + " is "@ + path
}

/// The message `type` writes for a name found nowhere.
pub open spec fn not_found_msg(name: Seq<char>) -> Seq<char> {
    name + ": not found"@
}

/// The message written when no `PATH` directory holds the command.
pub open spec fn cmd_not_found_msg(name: Seq<char>) -> Seq<char> {
    name + ": command not found"@
}

/// The diagnostic `type` writes for a directory it cannot read.
pub open spec fn dir_diag_msg(dir: Seq<char>) -> Seq<char> {
    "type: "@ + dir + ": could not read directory"@
}

/// The diagnostic `pwd` writes when the current directory is unknown.
pub open spec fn pwd_fail_msg() -> Seq<char> {
    "pwd: could not determine current directory"@
}

/// The value of an optional path, or nothing.
pub open spec fn opt_or_empty(p: Option<Seq<char>>) -> Seq<char> {
    match p {
        Some(s) => s,
        None => seq![],
    }
}

/// The diagnostics `type` writes, one per unreadable directory, in listed
/// order.
pub open spec fn diag_lines(ds: Seq<DirView>) -> Seq<LineView>
    decreases ds.len(),
{
    if ds.len() == 0 {
        seq![]
    } else {
        let rest = diag_lines(ds.drop_first());
        if ds[0].entries is None {
            seq![(LineView { sink: Sink::CmdErr, text: dir_diag_msg(ds[0].dir) })] + rest
        } else {
            rest
        }
    }
}

/// The lines `type <name>` writes: for a builtin, one line naming it so,
/// with the `PATH` contents never consulted; otherwise a diagnostic for
/// each unreadable directory before the first hit, then the result line.
pub open spec fn type_lines_spec(name: Seq<char>, dirs: Seq<DirView>) -> Seq<LineView> {
    if is_builtin_spec(name) {
        seq![(LineView { sink: Sink::CmdOut, text: builtin_msg(name) })]
    } else {
        match first_hit(dirs, name) {
            Some(i) => diag_lines(dirs.subrange(0, i)) + seq![
                (LineView { sink: Sink::CmdOut, text: found_msg(name, joined_path(dirs[i].dir, name)) }),
            ],
            None => diag_lines(dirs) + seq![
                (LineView { sink: Sink::CmdOut, text: not_found_msg(name) }),
            ],
        }
    }
}

/// The whole of what one parsed line makes the shell do.
///
/// The cases, in order: an empty invocation does nothing; a failed
/// redirect-target open aborts the command with one message on the shell's
/// own stdout (stdout's failure reported first), and nothing else runs;
/// then the first token picks `exit`, `echo`, `type`, `pwd` (alone),
/// `cd`, or an external command looked up on the `PATH` snapshot.
pub open spec fn plan_spec(
    tokens: Seq<Seq<char>>,
    out_path: Option<Seq<char>>,
    out_failed: bool,
    err_path: Option<Seq<char>>,
    err_failed: bool,
    home: Option<Seq<char>>,
    cwd: Option<Seq<char>>,
    dirs: Seq<DirView>,
) -> PlanView {
    if empty_invocation(tokens) {
        PlanView { lines: seq![], effect: EffectView::NoEffect }
    } else if out_failed {
        PlanView {
            lines: seq![
                (LineView {
                    sink: Sink::Shell,
                    text: no_such_file_msg(tokens[0], opt_or_empty(out_path)),
                }),
            ],
            effect: EffectView::NoEffect,
        }
    } else if err_failed {
        PlanView {
            lines: seq![
                (LineView {
                    sink: Sink::Shell,
                    text: no_such_file_msg(tokens[0], opt_or_empty(err_path)),
                }),
            ],
            effect: EffectView::NoEffect,
        }
    } else if tokens[0] == "exit"@ {
        PlanView { lines: seq![], effect: EffectView::ExitWith(exit_code_spec(tokens.drop_first())) }
    } else if tokens[0] == "echo"@ {
        PlanView {
            lines: seq![(LineView { sink: Sink::CmdOut, text: echo_spec(tokens.drop_first()) })],
            effect: EffectView::NoEffect,
        }
    } else if tokens[0] == "type"@ {
        if tokens.len() < 2 {
            PlanView { lines: seq![], effect: EffectView::NoEffect }
        } else {
            PlanView { lines: type_lines_spec(tokens[1], dirs), effect: EffectView::NoEffect }
        }
    } else if tokens.len() == 1 && tokens[0] == "pwd"@ {
        match cwd {
            Some(d) => PlanView {
                lines: seq![(LineView { sink: Sink::CmdOut, text: d })],
                effect: EffectView::NoEffect,
            },
            None => PlanView {
                lines: seq![(LineView { sink: Sink::CmdErr, text: pwd_fail_msg() })],
                effect: EffectView::NoEffect,
            },
        }
    } else if tokens[0] == "cd"@ {
        if tokens.len() > 2 {
            PlanView {
                lines: seq![(LineView { sink: Sink::CmdOut, text: cd_too_many_msg() })],
                effect: EffectView::NoEffect,
            }
        } else {
            PlanView {
                lines: seq![],
                effect: EffectView::ChangeDir(
                    cd_target_spec(
                        if tokens.len() == 2 {
                            Some(tokens[1])
                        } else {
                            None
                        },
                        home,
                    ),
                ),
            }
        }
    } else {
        match first_hit(dirs, tokens[0]) {
            Some(i) => PlanView {
                lines: seq![],
                effect: EffectView::Spawn(joined_path(dirs[i].dir, tokens[0]), tokens.drop_first()),
            },
            None => PlanView {
                lines: seq![(LineView { sink: Sink::CmdOut, text: cmd_not_found_msg(tokens[0]) })],
                effect: EffectView::NoEffect,
            },
        }
    }
}

/// Whether the token sequence dispatches to nothing.
pub fn is_empty_invocation(tokens: &Vec<String>) -> (r: bool)
    ensures
        r == empty_invocation(tokens.deep_view()),
{
    tokens.len() == 0 || (tokens.len() == 1 && tokens[0].as_str().is_empty())
}

/// Whether the plan for these tokens may consult the `PATH` directory
/// snapshot: only `type` with an argument, and an external command, do.
/// `lemma_plan_ignores_dirs` proves that for every other token sequence the
/// plan is the same whatever snapshot is passed.
pub open spec fn consults_dirs(tokens: Seq<Seq<char>>) -> bool {
    &&& !empty_invocation(tokens)
    &&& tokens[0] != "exit"@
    &&& tokens[0] != "echo"@
    &&& tokens[0] != "cd"@
    &&& !(tokens.len() == 1 && tokens[0] == "pwd"@)
    &&& !(tokens[0] == "type"@ && tokens.len() < 2)
}

/// Whether the shell needs to list the `PATH` directories for this line.
pub fn needs_dir_snapshot(tokens: &Vec<String>) -> (r: bool)
    ensures
        r == consults_dirs(tokens.deep_view()),
{
    if is_empty_invocation(tokens) {
        return false;
    }
    if str_eq(&tokens[0], "exit") || str_eq(&tokens[0], "echo") || str_eq(&tokens[0], "cd") {
        return false;
    }
    if tokens.len() == 1 && str_eq(&tokens[0], "pwd") {
        return false;
    }
    if str_eq(&tokens[0], "type") && tokens.len() < 2 {
        return false;
    }
    true
}

/// The tokens after the command name, cloned.
fn rest_args(tokens: &Vec<String>) -> (r: Vec<String>)
    requires
        tokens@.len() > 0,
    ensures
        r.deep_view() == tokens.deep_view().drop_first(),
{
    let n = tokens.len();
    let mut r: Vec<String> = Vec::new();
    let mut i: usize = 1;
    proof {
        assert(r.deep_view() =~= tokens.deep_view().subrange(1, 1));
    }
    while i < n
        invariant
            1 <= i <= n,
            n == tokens@.len(),
            r.deep_view() == tokens.deep_view().subrange(1, i as int),
        decreases n - i,
    {
        let ghost prev = r.deep_view();
        let item = tokens[i].clone();
        proof {
            assert(item.deep_view() == tokens.deep_view()[i as int]);
        }
        r.push(item);
        proof {
            assert(r.deep_view() =~= prev.push(tokens.deep_view()[i as int]));
            assert(prev.push(tokens.deep_view()[i as int]) =~= tokens.deep_view().subrange(
                1,
                i as int + 1,
            ));
        }
        i = i + 1;
    }
    proof {
        assert(r.deep_view() =~= tokens.deep_view().drop_first());
    }
    r
}

/// Growing a diagnostic list by one directory adds its diagnostic exactly
/// when it was unreadable.
proof fn lemma_diag_lines_snoc(ds: Seq<DirView>, d: DirView)
    ensures
        diag_lines(ds.push(d)) == diag_lines(ds) + (if d.entries is None {
            seq![(LineView { sink: Sink::CmdErr, text: dir_diag_msg(d.dir) })]
        } else {
            Seq::<LineView>::empty()
        }),
    decreases ds.len(),
{
    let one = if d.entries is None {
        seq![(LineView { sink: Sink::CmdErr, text: dir_diag_msg(d.dir) })]
    } else {
        Seq::<LineView>::empty()
    };
    if ds.len() == 0 {
        assert(ds.push(d)[0] == d);
        assert(ds.push(d).drop_first() =~= ds);
        assert(diag_lines(ds.push(d)) =~= diag_lines(ds) + one);
    } else {
        assert(ds.push(d)[0] == ds[0]);
        assert(ds.push(d).drop_first() =~= ds.drop_first().push(d));
        lemma_diag_lines_snoc(ds.drop_first(), d);
        assert(diag_lines(ds.push(d)) =~= diag_lines(ds) + one);
    }
}

/// Computes the lines `type <name>` writes, scanning the directory
/// snapshots in listed order.
pub fn run_type(name: &String, dirs: &Vec<DirListing>) -> (r: Vec<OutputLine>)
    ensures
        r.deep_view() == type_lines_spec(name@, dirs.deep_view()),
{
    let mut lines: Vec<OutputLine> = Vec::new();
    if is_builtin(name) {
        let mut msg = name.clone();
        msg.append(" is a shell builtin");
        lines.push(OutputLine { sink: Sink::CmdOut, text: msg });
        proof {
            assert(lines.deep_view() =~= type_lines_spec(name@, dirs.deep_view()));
        }
        return lines;
    }
    let n = dirs.len();
    let mut j: usize = 0;
    proof {
        assert(dirs.deep_view().subrange(0, 0) =~= Seq::<DirView>::empty());
        assert(lines.deep_view() =~= diag_lines(dirs.deep_view().subrange(0, 0)));
    }
    while j < n
        invariant
            0 <= j <= n,
            n == dirs@.len(),
            !is_builtin_spec(name@),
            forall|k: int| 0 <= k < j ==> !dir_has(dirs.deep_view()[k], name@),
            lines.deep_view() == diag_lines(dirs.deep_view().subrange(0, j as int)),
        decreases n - j,
    {
        let ghost pre_lines = lines.deep_view();
        let hit = match &dirs[j].entries {
            Some(es) => crate::path_search::entries_contain(es, name),
            None => false,
        };
        if hit {
            let mut p = dirs[j].dir.clone();
            p.append("/");
            p.append(name.as_str());
            let mut msg = name.clone();
            msg.append(" is ");
            msg.append(p.as_str());
            lines.push(OutputLine { sink: Sink::CmdOut, text: msg });
            proof {
                reveal_strlit("/");
                assert(dir_has(dirs.deep_view()[j as int], name@));
                lemma_first_hit(dirs.deep_view(), name@);
                match first_hit(dirs.deep_view(), name@) {
                    Some(i) => {
                        if i < j {
                            assert(!dir_has(dirs.deep_view()[i], name@));
                        }
                        if i > j {
                            assert(!dir_has(dirs.deep_view()[j as int], name@));
                        }
                        assert(i == j);
                    },
                    None => {
                        assert(!dir_has(dirs.deep_view()[j as int], name@));
                    },
                }
                assert(p@ =~= joined_path(dirs.deep_view()[j as int].dir, name@));
                assert(msg@ =~= found_msg(name@, joined_path(dirs.deep_view()[j as int].dir, name@)));
                assert(lines.deep_view() =~= type_lines_spec(name@, dirs.deep_view()));
            }
            return lines;
        }
        match &dirs[j].entries {
            Some(_) => {},
            None => {
                let mut msg = String::from_str("type: ");
                msg.append(dirs[j].dir.as_str());
                msg.append(": could not read directory");
                lines.push(OutputLine { sink: Sink::CmdErr, text: msg });
                proof {
                    assert(msg@ =~= dir_diag_msg(dirs.deep_view()[j as int].dir));
                }
            },
        }
        proof {
            let dv = dirs.deep_view();
            assert(dv.subrange(0, j as int + 1) =~= dv.subrange(0, j as int).push(dv[j as int]));
            lemma_diag_lines_snoc(dv.subrange(0, j as int), dv[j as int]);
            assert(lines.deep_view() =~= diag_lines(dv.subrange(0, j as int + 1)));
        }
        j = j + 1;
    }
    let mut msg = name.clone();
    msg.append(": not found");
    lines.push(OutputLine { sink: Sink::CmdOut, text: msg });
    proof {
        let dv = dirs.deep_view();
        lemma_first_hit(dv, name@);
        match first_hit(dv, name@) {
            Some(i) => {
                assert(!dir_has(dv[i], name@));
            },
            None => {},
        }
        assert(dv.subrange(0, n as int) =~= dv);
        assert(lines.deep_view() =~= type_lines_spec(name@, dv));
    }
    lines
}

/// Builds the redirect-failure message `<cmd>: <path>: No such file or
/// directory`.
fn no_such_file_message(cmd: &String, path: &Option<String>) -> (r: String)
    ensures
        r@ == no_such_file_msg(cmd@, opt_or_empty(path.deep_view())),
{
    let mut m = cmd.clone();
    m.append(": ");
    match path {
        Some(p) => m.append(p.as_str()),
        None => {},
    }
    m.append(": No such file or directory");
    proof {
        assert(m@ =~= no_such_file_msg(cmd@, opt_or_empty(path.deep_view())));
    }
    m
}

/// Decides everything one parsed line makes the shell do, from the tokens,
/// the outcome of opening each requested redirect target, and the
/// environment snapshot; returns exactly the plan `plan_spec` states.
pub fn dispatch(
    tokens: &Vec<String>,
    out_path: &Option<String>,
    out_failed: bool,
    err_path: &Option<String>,
    err_failed: bool,
    home: &Option<String>,
    cwd: &Option<String>,
    dirs: &Vec<DirListing>,
) -> (r: Plan)
    ensures
        r@ == plan_spec(
            tokens.deep_view(),
            out_path.deep_view(),
            out_failed,
            err_path.deep_view(),
            err_failed,
            home.deep_view(),
            cwd.deep_view(),
            dirs.deep_view(),
        ),
{
    let ghost goal = plan_spec(
        tokens.deep_view(),
        out_path.deep_view(),
        out_failed,
        err_path.deep_view(),
        err_failed,
        home.deep_view(),
        cwd.deep_view(),
        dirs.deep_view(),
    );
    if is_empty_invocation(tokens) {
        let r = Plan { lines: Vec::new(), effect: Effect::NoEffect };
        proof {
            assert(r@ =~~= goal);
        }
        return r;
    }
    if out_failed {
        let msg = no_such_file_message(&tokens[0], out_path);
        let mut lines: Vec<OutputLine> = Vec::new();
        lines.push(OutputLine { sink: Sink::Shell, text: msg });
        let r = Plan { lines, effect: Effect::NoEffect };
        proof {
            assert(r@ =~~= goal);
        }
        return r;
    }
    if err_failed {
        let msg = no_such_file_message(&tokens[0], err_path);
        let mut lines: Vec<OutputLine> = Vec::new();
        lines.push(OutputLine { sink: Sink::Shell, text: msg });
        let r = Plan { lines, effect: Effect::NoEffect };
        proof {
            assert(r@ =~~= goal);
        }
        return r;
    }
    if str_eq(&tokens[0], "exit") {
        let args = rest_args(tokens);
        let code = exit_code(&args);
        let r = Plan { lines: Vec::new(), effect: Effect::ExitWith(code) };
        proof {
            assert(r@ =~~= goal);
        }
        return r;
    }
    if str_eq(&tokens[0], "echo") {
        let args = rest_args(tokens);
        let text = echo_line(&args);
        let mut lines: Vec<OutputLine> = Vec::new();
        lines.push(OutputLine { sink: Sink::CmdOut, text });
        let r = Plan { lines, effect: Effect::NoEffect };
        proof {
            assert(r@ =~~= goal);
        }
        return r;
    }
    if str_eq(&tokens[0], "type") {
        if tokens.len() < 2 {
            let r = Plan { lines: Vec::new(), effect: Effect::NoEffect };
            proof {
                assert(r@ =~~= goal);
            }
            return r;
        }
        let lines = run_type(&tokens[1], dirs);
        let r = Plan { lines, effect: Effect::NoEffect };
        proof {
            assert(r@ =~~= goal);
        }
        return r;
    }
    if tokens.len() == 1 && str_eq(&tokens[0], "pwd") {
        let mut lines: Vec<OutputLine> = Vec::new();
        match cwd {
            Some(d) => {
                lines.push(OutputLine { sink: Sink::CmdOut, text: d.clone() });
            },
            None => {
                let msg = String::from_str("pwd: could not determine current directory");
                lines.push(OutputLine { sink: Sink::CmdErr, text: msg });
            },
        }
        let r = Plan { lines, effect: Effect::NoEffect };
        proof {
            assert(r@ =~~= goal);
        }
        return r;
    }
    if str_eq(&tokens[0], "cd") {
        if tokens.len() > 2 {
            let msg = String::from_str("cd: too many arguments");
            let mut lines: Vec<OutputLine> = Vec::new();
            lines.push(OutputLine { sink: Sink::CmdOut, text: msg });
            let r = Plan { lines, effect: Effect::NoEffect };
            proof {
                assert(r@ =~~= goal);
            }
            return r;
        }
        let arg: Option<String> = if tokens.len() == 2 {
            Some(tokens[1].clone())
        } else {
            None
        };
        let target = cd_target(&arg, home);
        let r = Plan { lines: Vec::new(), effect: Effect::ChangeDir(target) };
        proof {
            assert(r@ =~~= goal);
        }
        return r;
    }
    match find_in_dirs(&tokens[0], dirs) {
        Some(p) => {
            let args = rest_args(tokens);
            let r = Plan { lines: Vec::new(), effect: Effect::Spawn(p, args) };
            proof {
                assert(r@ =~~= goal);
            }
            r
        },
        None => {
            let mut msg = tokens[0].clone();
            msg.append(": command not found");
            let mut lines: Vec<OutputLine> = Vec::new();
            lines.push(OutputLine { sink: Sink::CmdOut, text: msg });
            let r = Plan { lines, effect: Effect::NoEffect };
            proof {
                assert(msg@ =~= cmd_not_found_msg(tokens.deep_view()[0]));
                assert(r@ =~~= goal);
            }
            r
        },
    }
}

} // verus!
