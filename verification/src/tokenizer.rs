//! The command-line tokenizer: one pass over the characters of a line,
//! producing the argument tokens and at most one redirect target for each of
//! the two standard streams.
//!
//! The lexical rules are stated as a finite-state machine in specification
//! land (`step`, `run`, `finish`, `tokenize_spec`); the executable
//! `parse_command` is proved to compute exactly that machine's result.
//!
//! Rules, applied left to right with state carried between characters:
//! - single quotes toggle a raw-literal mode in which every character is
//!   copied verbatim;
//! - double quotes toggle a quoted mode in which a backslash escapes only
//!   `\`, `"` and newline (an escaped newline is deleted); escaping any
//!   other character keeps the backslash followed by that character;
//! - outside quotes a backslash escapes the next character, whatever it is;
//! - unquoted spaces separate tokens; runs of them produce no empty tokens;
//! - an unquoted `>` begins capture of a redirect path: for stdout when the
//!   pending buffer is empty or `1`, for stderr when it is `2`; whatever was
//!   buffered before the `>` is dropped, never emitted as a token;
//! - the captured path obeys the same quote and escape rules and ends at an
//!   unquoted space (spaces before the path's first character are skipped)
//!   or at the end of the line; a later capture of the same stream wins;
//! - once a redirect path has been captured, ordinary token capture does
//!   not resume: later words only serve to recognise a further `>` or `2>`.

use crate::strutil::trim_spec;
use crate::strutil::chars_of;
use crate::strutil::push_char;
use crate::strutil::trim;
use vstd::prelude::*;

verus! {

/// What the lexer's pending buffer is feeding: an ordinary word, a redirect
/// path for one of the two streams, or the tail after a captured redirect,
/// whose words are never emitted.
#[derive(Clone, Copy)]
pub enum Mode {
    Word,
    RedirOut,
    RedirErr,
    Tail,
}

/// The lexer's whole state between two characters.
#[verifier::ext_equal]
pub struct LexSt {
    /// inside single quotes
    pub in_single: bool,
    /// inside double quotes
    pub in_double: bool,
    /// a backslash is pending
    pub escaped: bool,
    /// what the pending buffer feeds
    pub mode: Mode,
    /// characters accumulated since the last delimiter
    pub buf: Seq<char>,
    /// finished tokens, in order
    pub tokens: Seq<Seq<char>>,
    /// captured stdout redirect path, if any
    pub out: Option<Seq<char>>,
    /// captured stderr redirect path, if any
    pub err: Option<Seq<char>>,
}

/// The state the lexer starts a line in.
pub open spec fn init_st() -> LexSt {
    LexSt {
        in_single: false,
        in_double: false,
        escaped: false,
        mode: Mode::Word,
        buf: seq![],
        tokens: seq![],
        out: None,
        err: None,
    }
}

/// One transition of the lexer on one character.
pub open spec fn step(st: LexSt, c: char) -> LexSt {
    if st.escaped {
        if st.in_double {
            if c == '\\' || c == '"' {
                LexSt { escaped: false, buf: st.buf.push(c), ..st }
            } else if c == '\n' {
                LexSt { escaped: false, ..st }
            } else {
                LexSt { escaped: false, buf: st.buf.push('\\').push(c), ..st }
            }
        } else {
            LexSt { escaped: false, buf: st.buf.push(c), ..st }
        }
    } else if st.in_single {
        if c == '\'' {
            LexSt { in_single: false, ..st }
        } else {
            LexSt { buf: st.buf.push(c), ..st }
        }
    } else if st.in_double {
        if c == '"' {
            LexSt { in_double: false, ..st }
        } else if c == '\\' {
            LexSt { escaped: true, ..st }
        } else {
            LexSt { buf: st.buf.push(c), ..st }
        }
    } else if c == '\\' {
        LexSt { escaped: true, ..st }
    } else if c == '\'' {
        LexSt { in_single: true, ..st }
    } else if c == '"' {
        LexSt { in_double: true, ..st }
    } else if c == ' ' {
        match st.mode {
            Mode::Word => if st.buf.len() > 0 {
                LexSt { buf: seq![], tokens: st.tokens.push(st.buf), ..st }
            } else {
                st
            },
            Mode::RedirOut => if st.buf.len() > 0 {
                LexSt { buf: seq![], out: Some(st.buf), mode: Mode::Tail, ..st }
            } else {
                st
            },
            Mode::RedirErr => if st.buf.len() > 0 {
                LexSt { buf: seq![], err: Some(st.buf), mode: Mode::Tail, ..st }
            } else {
                st
            },
            Mode::Tail => LexSt { buf: seq![], ..st },
        }
    } else if c == '>' {
        match st.mode {
            Mode::RedirOut => LexSt { buf: st.buf.push(c), ..st },
            Mode::RedirErr => LexSt { buf: st.buf.push(c), ..st },
            _ => if st.buf.len() == 0 || st.buf == seq!['1'] {
                LexSt { buf: seq![], mode: Mode::RedirOut, ..st }
            } else if st.buf == seq!['2'] {
                LexSt { buf: seq![], mode: Mode::RedirErr, ..st }
            } else {
                LexSt { buf: seq![], ..st }
            },
        }
    } else {
        LexSt { buf: st.buf.push(c), ..st }
    }
}

/// The lexer run over a whole character sequence, starting from `st`.
pub open spec fn run(st: LexSt, s: Seq<char>) -> LexSt
    decreases s.len(),
{
    if s.len() == 0 {
        st
    } else {
        run(step(st, s[0]), s.drop_first())
    }
}

/// End of input: a pending word becomes the last token; a pending redirect
/// path is recorded; a pending tail word is dropped.
pub open spec fn finish(st: LexSt) -> LexSt {
    match st.mode {
        Mode::Word => if st.buf.len() > 0 {
            LexSt { buf: seq![], tokens: st.tokens.push(st.buf), ..st }
        } else {
            st
        },
        Mode::RedirOut => if st.buf.len() > 0 {
            LexSt { buf: seq![], out: Some(st.buf), ..st }
        } else {
            st
        },
        Mode::RedirErr => if st.buf.len() > 0 {
            LexSt { buf: seq![], err: Some(st.buf), ..st }
        } else {
            st
        },
        Mode::Tail => st,
    }
}

/// What tokenizing a raw input line yields: the token sequence, the stdout
/// redirect path, and the stderr redirect path. The line is trimmed of
/// blanks at both ends first.
pub open spec fn tokenize_spec(line: Seq<char>) -> (Seq<Seq<char>>, Option<Seq<char>>, Option<
    Seq<char>,
>) {
    let st = finish(run(init_st(), trim_spec(line)));
    (st.tokens, st.out, st.err)
}

/// The lexer state assembled from the executable locals.
pub open spec fn state_of(
    in_single: bool,
    in_double: bool,
    escaped: bool,
    mode: Mode,
    buf: Seq<char>,
    tokens: Seq<Seq<char>>,
    out: Option<Seq<char>>,
    err: Option<Seq<char>>,
) -> LexSt {
    LexSt { in_single, in_double, escaped, mode, buf, tokens, out, err }
}

/// Splits one raw input line into its argument tokens, the stdout redirect
/// target and the stderr redirect target, never failing: malformed quoting
/// degrades to whatever was accumulated when the line ended.
pub fn parse_command(input: String) -> (r: (Vec<String>, Option<String>, Option<String>))
    ensures
        r.0.deep_view() == tokenize_spec(input@).0,
        r.1.deep_view() == tokenize_spec(input@).1,
        r.2.deep_view() == tokenize_spec(input@).2,
{
    let trimmed = trim(&input);
    let v = chars_of(&trimmed);
    let n: usize = v.len();
    let mut in_single = false;
    let mut in_double = false;
    let mut escaped = false;
    let mut mode = Mode::Word;
    let mut buf = String::new();
    let mut tokens: Vec<String> = Vec::new();
    let mut out: Option<String> = None;
    let mut err: Option<String> = None;
    let mut i: usize = 0;
    proof {
        assert(trimmed@.subrange(0, n as int) =~= trimmed@);
        assert(state_of(
            in_single,
            in_double,
            escaped,
            mode,
            buf@,
            tokens.deep_view(),
            out.deep_view(),
            err.deep_view(),
        ) =~~= init_st());
    }
    while i < n
        invariant
            0 <= i <= n,
            n == trimmed@.len(),
            v@ == trimmed@,
            trimmed@ == trim_spec(input@),
            run(init_st(), trim_spec(input@)) == run(
                state_of(
                    in_single,
                    in_double,
                    escaped,
                    mode,
                    buf@,
                    tokens.deep_view(),
                    out.deep_view(),
                    err.deep_view(),
                ),
                trimmed@.subrange(i as int, n as int),
            ),
        decreases n - i,
    {
        let ghost pre = state_of(
            in_single,
            in_double,
            escaped,
            mode,
            buf@,
            tokens.deep_view(),
            out.deep_view(),
            err.deep_view(),
        );
        let c = v[i];
        if escaped {
            if in_double {
                if c == '\\' || c == '"' {
                    push_char(&mut buf, c);
                } else if c == '\n' {
                } else {
                    push_char(&mut buf, '\\');
                    push_char(&mut buf, c);
                }
            } else {
                push_char(&mut buf, c);
            }
            escaped = false;
        } else if in_single {
            if c == '\'' {
                in_single = false;
            } else {
                push_char(&mut buf, c);
            }
        } else if in_double {
            if c == '"' {
                in_double = false;
            } else if c == '\\' {
                escaped = true;
            } else {
                push_char(&mut buf, c);
            }
        } else if c == '\\' {
            escaped = true;
        } else if c == '\'' {
            in_single = true;
        } else if c == '"' {
            in_double = true;
        } else if c == ' ' {
            match mode {
                Mode::Word => {
                    if !buf.as_str().is_empty() {
                        tokens.push(buf);
                        buf = String::new();
                    }
                },
                Mode::RedirOut => {
                    if !buf.as_str().is_empty() {
                        out = Some(buf);
                        buf = String::new();
                        mode = Mode::Tail;
                    }
                },
                Mode::RedirErr => {
                    if !buf.as_str().is_empty() {
                        err = Some(buf);
                        buf = String::new();
                        mode = Mode::Tail;
                    }
                },
                Mode::Tail => {
                    buf = String::new();
                },
            }
        } else if c == '>' {
            match mode {
                Mode::RedirOut => {
                    push_char(&mut buf, c);
                },
                Mode::RedirErr => {
                    push_char(&mut buf, c);
                },
                _ => {
                    let empty_sel = buf.as_str().is_empty();
                    let one_sel = buf.as_str().unicode_len() == 1 && buf.as_str().get_char(0)
                        == '1';
                    let two_sel = buf.as_str().unicode_len() == 1 && buf.as_str().get_char(0)
                        == '2';
                    proof {
                        assert(one_sel ==> buf@ =~= seq!['1']);
                        assert(two_sel ==> buf@ =~= seq!['2']);
                        assert(buf@ == seq!['1'] ==> one_sel);
                        assert(buf@ == seq!['2'] ==> two_sel);
                    }
                    if empty_sel || one_sel {
                        mode = Mode::RedirOut;
                    } else if two_sel {
                        mode = Mode::RedirErr;
                    }
                    buf = String::new();
                },
            }
        } else {
            push_char(&mut buf, c);
        }
        proof {
            let post = state_of(
                in_single,
                in_double,
                escaped,
                mode,
                buf@,
                tokens.deep_view(),
                out.deep_view(),
                err.deep_view(),
            );
            assert(post =~~= step(pre, c));
            let suf = trimmed@.subrange(i as int, n as int);
            assert(suf[0] == c);
            assert(suf.drop_first() =~= trimmed@.subrange(i as int + 1, n as int));
            assert(run(pre, suf) == run(step(pre, c), suf.drop_first()));
        }
        i = i + 1;
    }
    proof {
        assert(trimmed@.subrange(n as int, n as int) =~= Seq::<char>::empty());
    }
    let ghost done = state_of(
        in_single,
        in_double,
        escaped,
        mode,
        buf@,
        tokens.deep_view(),
        out.deep_view(),
        err.deep_view(),
    );
    proof {
        assert(run(init_st(), trim_spec(input@)) == done);
    }
    match mode {
        Mode::Word => {
            if !buf.as_str().is_empty() {
                tokens.push(buf);
            }
        },
        Mode::RedirOut => {
            if !buf.as_str().is_empty() {
                out = Some(buf);
            }
        },
        Mode::RedirErr => {
            if !buf.as_str().is_empty() {
                err = Some(buf);
            }
        },
        Mode::Tail => {},
    }
    proof {
        assert(tokens.deep_view() =~~= finish(done).tokens);
        assert(out.deep_view() =~~= finish(done).out);
        assert(err.deep_view() =~~= finish(done).err);
    }
    (tokens, out, err)
}

} // verus!
