//! The shell's builtin table and the pure part of each builtin: which names
//! are builtins, how `exit` reads its status code, the line `echo` renders,
//! and the target directory `cd` resolves.

use crate::strutil::chars_of;
use crate::strutil::push_char;
use vstd::prelude::*;

verus! {

/// The builtin command names: `exit`, `echo`, `type`, `pwd`, `cd`.
pub open spec fn is_builtin_spec(name: Seq<char>) -> bool {
    name == "exit"@ || name == "echo"@ || name == "type"@ || name == "pwd"@ || name == "cd"@
}

/// Whether `s` equals the literal `lit`.
pub fn str_eq(s: &String, lit: &str) -> (r: bool)
    ensures
        r == (s@ == lit@),
{
    let o = String::from_str(lit);
    s.eq(&o)
}

/// Whether `name` is one of the shell's builtins.
pub fn is_builtin(name: &String) -> (r: bool)
    ensures
        r == is_builtin_spec(name@),
{
    str_eq(name, "exit") || str_eq(name, "echo") || str_eq(name, "type") || str_eq(name, "pwd")
        || str_eq(name, "cd")
}

/// Whether `c` is a decimal digit.
pub open spec fn is_digit(c: char) -> bool {
    c == '0' || c == '1' || c == '2' || c == '3' || c == '4' || c == '5' || c == '6' || c == '7'
        || c == '8' || c == '9'
}

/// The value of a decimal digit.
pub open spec fn digit_val(c: char) -> int {
    if c == '0' {
        0
    } else if c == '1' {
        1
    } else if c == '2' {
        2
    } else if c == '3' {
        3
    } else if c == '4' {
        4
    } else if c == '5' {
        5
    } else if c == '6' {
        6
    } else if c == '7' {
        7
    } else if c == '8' {
        8
    } else {
        9
    }
}

/// Whether every character of `s` is a decimal digit.
pub open spec fn all_digits(s: Seq<char>) -> bool {
    forall|k: int| 0 <= k < s.len() ==> is_digit(s[k])
}

/// The value of a digit string, most significant digit first.
pub open spec fn digits_val(s: Seq<char>) -> int
    decreases s.len(),
{
    if s.len() == 0 {
        0
    } else {
        digits_val(s.drop_last()) * 10 + digit_val(s.last())
    }
}

/// What `s` parses to as a 32-bit signed integer: an optional `+` or `-`
/// sign, then one or more decimal digits, within the `i32` range; `None`
/// otherwise.
pub open spec fn parse_i32_spec(s: Seq<char>) -> Option<int> {
    let neg = s.len() > 0 && s[0] == '-';
    let body = if s.len() > 0 && (s[0] == '-' || s[0] == '+') {
        s.drop_first()
    } else {
        s
    };
    if body.len() == 0 || !all_digits(body) {
        None
    } else {
        let v = if neg {
            -digits_val(body)
        } else {
            digits_val(body)
        };
        if -0x8000_0000 <= v <= 0x7fff_ffff {
            Some(v)
        } else {
            None
        }
    }
}

/// The status `exit` terminates the shell with: its first argument parsed
/// as an `i32`, and `1` where the argument is absent or unparsable.
pub open spec fn exit_code_spec(args: Seq<Seq<char>>) -> int {
    if args.len() == 0 {
        1
    } else {
        match parse_i32_spec(args[0]) {
            Some(v) => v,
            None => 1,
        }
    }
}

/// A digit string's value is never negative.
pub proof fn lemma_digits_val_nonneg(s: Seq<char>)
    requires
        all_digits(s),
    ensures
        digits_val(s) >= 0,
    decreases s.len(),
{
    if s.len() > 0 {
        assert(all_digits(s.drop_last()));
        lemma_digits_val_nonneg(s.drop_last());
        assert(digit_val(s.last()) >= 0);
    }
}

/// Appending digits never shrinks a digit string's value.
pub proof fn lemma_digits_val_monotone(s: Seq<char>, i: int)
    requires
        all_digits(s),
        0 <= i <= s.len(),
    ensures
        digits_val(s.subrange(0, i)) <= digits_val(s),
    decreases s.len(),
{
    if i < s.len() {
        assert(all_digits(s.drop_last()));
        assert(s.subrange(0, i) =~= s.drop_last().subrange(0, i));
        lemma_digits_val_monotone(s.drop_last(), i);
        lemma_digits_val_nonneg(s.drop_last());
        assert(digits_val(s.drop_last()) * 10 + digit_val(s.last()) >= digits_val(s.drop_last()));
    } else {
        assert(s.subrange(0, i) =~= s);
    }
}

/// Parses `s` as a 32-bit signed integer exactly as `parse_i32_spec` says:
/// an optional sign, then decimal digits, rejecting anything else and any
/// value outside the `i32` range.
pub fn parse_i32(s: &String) -> (r: Option<i32>)
    ensures
        r matches Some(v) ==> parse_i32_spec(s@) == Some(v as int),
        r is None ==> parse_i32_spec(s@) is None,
{
    let v = chars_of(s);
    let n: usize = v.len();
    let mut idx: usize = 0;
    let mut neg = false;
    if n > 0 && (v[0] == '-' || v[0] == '+') {
        neg = v[0] == '-';
        idx = 1;
    }
    let ghost body = if s@.len() > 0 && (s@[0] == '-' || s@[0] == '+') {
        s@.drop_first()
    } else {
        s@
    };
    proof {
        assert(body =~= s@.subrange(idx as int, n as int));
    }
    if idx == n {
        return None;
    }
    let mut acc: u64 = 0;
    let mut k: usize = idx;
    while k < n
        invariant
            idx <= k <= n,
            idx < n,
            n == s@.len(),
            v@ == s@,
            body == s@.subrange(idx as int, n as int),
            body == (if s@.len() > 0 && (s@[0] == '-' || s@[0] == '+') {
                s@.drop_first()
            } else {
                s@
            }),
            neg == (s@.len() > 0 && s@[0] == '-'),
            all_digits(body.subrange(0, (k - idx) as int)),
            acc as int == digits_val(body.subrange(0, (k - idx) as int)),
            acc <= 0x8000_0000,
        decreases n - k,
    {
        let c = v[k];
        let d: u64 = if c == '0' {
            0
        } else if c == '1' {
            1
        } else if c == '2' {
            2
        } else if c == '3' {
            3
        } else if c == '4' {
            4
        } else if c == '5' {
            5
        } else if c == '6' {
            6
        } else if c == '7' {
            7
        } else if c == '8' {
            8
        } else if c == '9' {
            9
        } else {
            proof {
                // a non-digit inside the body: the parse is rejected
                assert(body[(k - idx) as int] == c);
                assert(!all_digits(body));
            }
            return None;
        };
        proof {
            assert(body.subrange(0, (k - idx) as int + 1).drop_last() =~= body.subrange(
                0,
                (k - idx) as int,
            ));
            assert(body.subrange(0, (k - idx) as int + 1).last() == c);
            assert(digit_val(c) == d);
        }
        acc = acc * 10 + d;
        let ghost m = (k - idx) as int + 1;
        proof {
            assert(acc as int == digits_val(body.subrange(0, m)));
            assert(all_digits(body.subrange(0, m)));
        }
        if acc > 0x8000_0000 {
            proof {
                // the value so far already exceeds the i32 range, and more
                // digits can only grow it
                if all_digits(body) {
                    lemma_digits_val_monotone(body, m);
                }
            }
            return None;
        }
        k = k + 1;
    }
    proof {
        assert(body.subrange(0, (n - idx) as int) =~= body);
    }
    if neg {
        if acc == 0x8000_0000 {
            Some(i32::MIN)
        } else {
            Some(-(acc as i32))
        }
    } else {
        if acc > 0x7fff_ffff {
            None
        } else {
            Some(acc as i32)
        }
    }
}

/// The status `exit` terminates the shell with, from its argument list.
pub fn exit_code(args: &Vec<String>) -> (r: i32)
    ensures
        r as int == exit_code_spec(args.deep_view()),
{
    if args.len() == 0 {
        1
    } else {
        match parse_i32(&args[0]) {
            Some(v) => v,
            None => 1,
        }
    }
}

/// The single line `echo` writes for its arguments: each argument followed
/// by one space, and nothing else (the caller appends the newline that ends
/// every written line).
pub open spec fn echo_spec(args: Seq<Seq<char>>) -> Seq<char>
    decreases args.len(),
{
    if args.len() == 0 {
        seq![]
    } else {
        args[0] + seq![' '] + echo_spec(args.drop_first())
    }
}

/// Renders the line `echo` writes for `args`.
pub fn echo_line(args: &Vec<String>) -> (r: String)
    ensures
        r@ == echo_spec(args.deep_view()),
{
    let n = args.len();
    let mut r = String::new();
    let mut i: usize = 0;
    proof {
        assert(args.deep_view().subrange(0, n as int) =~= args.deep_view());
    }
    while i < n
        invariant
            0 <= i <= n,
            n == args@.len(),
            echo_spec(args.deep_view()) == r@ + echo_spec(
                args.deep_view().subrange(i as int, n as int),
            ),
        decreases n - i,
    {
        let ghost pre = r@;
        r.append(args[i].as_str());
        push_char(&mut r, ' ');
        proof {
            let suf = args.deep_view().subrange(i as int, n as int);
            assert(suf[0] == args.deep_view()[i as int]);
            assert(suf.drop_first() =~= args.deep_view().subrange(i as int + 1, n as int));
            assert(pre + suf[0] + seq![' '] + echo_spec(suf.drop_first()) =~= r@ + echo_spec(
                suf.drop_first(),
            ));
        }
        i = i + 1;
    }
    proof {
        assert(args.deep_view().subrange(n as int, n as int) =~= Seq::<Seq<char>>::empty());
        assert(r@ + Seq::<char>::empty() =~= r@);
    }
    r
}

/// The directory `cd` resolves: no argument means the home directory (`~`),
/// and a leading `~` of the argument is replaced by the home directory's
/// value; with no home value known, the argument stands as written.
pub open spec fn cd_target_spec(arg: Option<Seq<char>>, home: Option<Seq<char>>) -> Seq<char> {
    let raw = match arg {
        None => seq!['~'],
        Some(a) => a,
    };
    if raw.len() > 0 && raw[0] == '~' && home is Some {
        home->0 + raw.drop_first()
    } else {
        raw
    }
}

/// Resolves the directory `cd` changes to, from its optional argument and
/// the optional `HOME` value.
pub fn cd_target(arg: &Option<String>, home: &Option<String>) -> (r: String)
    ensures
        r@ == cd_target_spec(arg.deep_view(), home.deep_view()),
{
    let raw: String = match arg {
        None => {
            let mut t = String::new();
            push_char(&mut t, '~');
            proof {
                assert(t@ =~= seq!['~']);
            }
            t
        },
        Some(a) => a.clone(),
    };
    let starts_tilde = !raw.as_str().is_empty() && raw.as_str().get_char(0) == '~';
    match home {
        Some(h) => {
            if starts_tilde {
                let mut r = h.clone();
                let rest = raw.as_str().substring_char(1, raw.as_str().unicode_len());
                r.append(rest);
                proof {
                    assert(rest@ =~= raw@.drop_first());
                }
                r
            } else {
                raw
            }
        },
        None => raw,
    }
}

/// The message `cd` prints when the directory change fails.
pub open spec fn cd_fail_msg(path: Seq<char>) -> Seq<char> {
    "cd: "@ + path + ": No such file or directory"@
}

/// Renders the message `cd` prints when changing to `path` fails.
pub fn cd_failure_message(path: &String) -> (r: String)
    ensures
        r@ == cd_fail_msg(path@),
{
    let mut r = String::from_str("cd: ");
    r.append(path.as_str());
    r.append(": No such file or directory");
    proof {
        assert(r@ =~= cd_fail_msg(path@));
    }
    r
}

/// The message `cd` prints when given more than one argument.
pub open spec fn cd_too_many_msg() -> Seq<char> {
    "cd: too many arguments"@
}

} // verus!
