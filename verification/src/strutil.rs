//! Character-level helpers shared by the tokenizer and the dispatcher:
//! blank-character classification, trimming a line at both ends, and a
//! single trusted wrapper that appends one character to a `String`.

use vstd::prelude::*;

verus! {

/// The characters that `trim` removes at either end of an input line.
pub open spec fn is_blank(c: char) -> bool {
    c == ' ' || c == '\n' || c == '\t' || c == '\r'
}

/// Number of blank characters at the front of `s`.
pub open spec fn leading_blanks(s: Seq<char>) -> int
    decreases s.len(),
{
    if s.len() > 0 && is_blank(s[0]) {
        1 + leading_blanks(s.drop_first())
    } else {
        0
    }
}

/// Number of blank characters at the back of `s`.
pub open spec fn trailing_blanks(s: Seq<char>) -> int
    decreases s.len(),
{
    if s.len() > 0 && is_blank(s[s.len() - 1]) {
        1 + trailing_blanks(s.drop_last())
    } else {
        0
    }
}

/// `s` with every leading and trailing blank character removed.
pub open spec fn trim_spec(s: Seq<char>) -> Seq<char> {
    if leading_blanks(s) == s.len() {
        Seq::<char>::empty()
    } else {
        s.subrange(leading_blanks(s), s.len() - trailing_blanks(s))
    }
}

/// `leading_blanks` counts exactly the maximal blank prefix.
pub proof fn lemma_leading_blanks(s: Seq<char>)
    ensures
        0 <= leading_blanks(s) <= s.len(),
        forall|k: int| 0 <= k < leading_blanks(s) ==> is_blank(s[k]),
        leading_blanks(s) < s.len() ==> !is_blank(s[leading_blanks(s)]),
    decreases s.len(),
{
    if s.len() > 0 && is_blank(s[0]) {
        lemma_leading_blanks(s.drop_first());
        assert forall|k: int| 0 <= k < leading_blanks(s) implies is_blank(s[k]) by {
            if k > 0 {
                assert(s.drop_first()[k - 1] == s[k]);
            }
        }
        if leading_blanks(s) < s.len() {
            assert(s.drop_first()[leading_blanks(s) - 1] == s[leading_blanks(s)]);
        }
    }
}

/// `trailing_blanks` counts exactly the maximal blank suffix.
pub proof fn lemma_trailing_blanks(s: Seq<char>)
    ensures
        0 <= trailing_blanks(s) <= s.len(),
        forall|k: int| s.len() - trailing_blanks(s) <= k < s.len() ==> is_blank(s[k]),
        trailing_blanks(s) < s.len() ==> !is_blank(s[s.len() - trailing_blanks(s) - 1]),
    decreases s.len(),
{
    if s.len() > 0 && is_blank(s[s.len() - 1]) {
        lemma_trailing_blanks(s.drop_last());
        assert forall|k: int| s.len() - trailing_blanks(s) <= k < s.len() implies is_blank(
            s[k],
        ) by {
            if k < s.len() - 1 {
                assert(s.drop_last()[k] == s[k]);
            }
        }
        if trailing_blanks(s) < s.len() {
            assert(s.drop_last()[s.len() - trailing_blanks(s) - 1] == s[s.len() - trailing_blanks(
                s,
            ) - 1]);
        }
    }
}

/// Relies on `String::push` from std (not specified by vstd): appends the
/// given character at the end of the string.
#[verifier::external_body]
pub(crate) fn push_char(s: &mut String, c: char)
    ensures
        final(s)@ == old(s)@.push(c),
{
    s.push(c);
}

/// The characters of `s`, in order, as a vector.
pub fn chars_of(s: &String) -> (r: Vec<char>)
    ensures
        r@ == s@,
{
    let n: usize = s.as_str().unicode_len();
    let mut r: Vec<char> = Vec::new();
    let mut i: usize = 0;
    while i < n
        invariant
            0 <= i <= n,
            n == s@.len(),
            r@ == s@.subrange(0, i as int),
        decreases n - i,
    {
        r.push(s.as_str().get_char(i));
        proof {
            assert(r@ =~= s@.subrange(0, i + 1));
        }
        i = i + 1;
    }
    proof {
        assert(r@ =~= s@);
    }
    r
}

/// Returns `s` with every leading and trailing blank character removed.
pub fn trim(s: &String) -> (r: String)
    ensures
        r@ == trim_spec(s@),
{
    let v = chars_of(s);
    let n: usize = v.len();
    let mut start: usize = 0;
    while start < n && (v[start] == ' ' || v[start] == '\n' || v[start] == '\t' || v[start]
        == '\r')
        invariant
            0 <= start <= n,
            n == s@.len(),
            v@ == s@,
            forall|k: int| 0 <= k < start ==> is_blank(s@[k]),
        decreases n - start,
    {
        start = start + 1;
    }
    proof {
        lemma_leading_blanks(s@);
        // `start` satisfies the characterisation of the maximal blank
        // prefix, so it equals `leading_blanks(s@)`.
        if start < leading_blanks(s@) {
            assert(!is_blank(s@[start as int]));
            assert(is_blank(s@[start as int]));
        }
        if start > leading_blanks(s@) {
            assert(is_blank(s@[leading_blanks(s@)]));
        }
        assert(start == leading_blanks(s@));
    }
    if start == n {
        let r = String::new();
        return r;
    }
    let mut last: usize = n;
    while last > start && (v[last - 1] == ' ' || v[last - 1] == '\n' || v[last - 1] == '\t' || v[
        last - 1] == '\r')
        invariant
            start < last <= n || last == start,
            start < n,
            n == s@.len(),
            v@ == s@,
            !is_blank(s@[start as int]),
            forall|k: int| last <= k < n ==> is_blank(s@[k]),
        decreases last,
    {
        last = last - 1;
    }
    proof {
        lemma_trailing_blanks(s@);
        if last == start {
            // impossible: everything from `last` on is blank, yet the
            // character at `start` is not
            assert(is_blank(s@[start as int]));
        }
        // `last` marks the maximal blank suffix: everything at `last..` is
        // blank, and the character just before `last` is not.
        if (n - last) < trailing_blanks(s@) {
            assert(is_blank(s@[last - 1]));
        }
        if (n - last) > trailing_blanks(s@) {
            assert(is_blank(s@[n - trailing_blanks(s@) - 1]));
        }
        assert(n - last == trailing_blanks(s@));
    }
    let piece = s.as_str().substring_char(start, last);
    let r = String::from_str(piece);
    proof {
        assert(r@ =~= trim_spec(s@));
    }
    r
}

} // verus!
