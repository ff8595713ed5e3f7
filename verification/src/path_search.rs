//! Locating an external executable: splitting the `PATH` variable into its
//! directories, and scanning a snapshot of those directories' entries, in
//! listed order, for the first one that contains a given name.
//!
//! The filesystem is not read here: the caller hands in a `DirListing` per
//! `PATH` directory, holding the entry names the directory yielded (or
//! nothing, where it could not be read), and every function is verified
//! against that snapshot.

use vstd::prelude::*;

verus! {

/// A snapshot of one `PATH` directory: its path as listed in `PATH`, and
/// the names of its entries in the order the filesystem yielded them, or
/// `None` where the directory could not be read.
pub struct DirListing {
    pub dir: String,
    pub entries: Option<Vec<String>>,
}

/// The mathematical image of a `DirListing`.
pub struct DirView {
    pub dir: Seq<char>,
    pub entries: Option<Seq<Seq<char>>>,
}

impl View for DirListing {
    type V = DirView;

    open spec fn view(&self) -> DirView {
        DirView {
            dir: self.dir@,
            entries: match self.entries {
                Some(es) => Some(es.deep_view()),
                None => None,
            },
        }
    }
}

impl DeepView for DirListing {
    type V = DirView;

    open spec fn deep_view(&self) -> DirView {
        self.view()
    }
}

/// Splitting a sequence on `:`, one character at a time: `cur` is the piece
/// being accumulated, `acc` the finished pieces.
pub open spec fn split_run(s: Seq<char>, cur: Seq<char>, acc: Seq<Seq<char>>) -> Seq<Seq<char>>
    decreases s.len(),
{
    if s.len() == 0 {
        acc.push(cur)
    } else if s[0] == ':' {
        split_run(s.drop_first(), seq![], acc.push(cur))
    } else {
        split_run(s.drop_first(), cur.push(s[0]), acc)
    }
}

/// The pieces of `s` between `:` separators, empty pieces included.
pub open spec fn split_colon(s: Seq<char>) -> Seq<Seq<char>> {
    split_run(s, seq![], seq![])
}

/// The `PATH` search list: the colon-separated pieces of the variable's
/// value, or the empty list where the variable is unset.
pub open spec fn paths_of(path_var: Option<Seq<char>>) -> Seq<Seq<char>> {
    match path_var {
        Some(s) => split_colon(s),
        None => seq![],
    }
}

/// Whether the snapshot of one directory holds an entry named `name`.
pub open spec fn dir_has(d: DirView, name: Seq<char>) -> bool {
    match d.entries {
        Some(es) => es.contains(name),
        None => false,
    }
}

/// The index of the earliest-listed directory whose snapshot holds `name`.
pub open spec fn first_hit(dirs: Seq<DirView>, name: Seq<char>) -> Option<int>
    decreases dirs.len(),
{
    if dirs.len() == 0 {
        None
    } else if dir_has(dirs[0], name) {
        Some(0int)
    } else {
        match first_hit(dirs.drop_first(), name) {
            Some(i) => Some(i + 1),
            None => None,
        }
    }
}

/// A directory path joined with an entry name.
pub open spec fn joined_path(dir: Seq<char>, name: Seq<char>) -> Seq<char> {
    dir + seq!['/'] + name
}

/// The full path of the first match for `name` across the listed
/// directories, if any directory's snapshot holds it.
pub open spec fn find_spec(dirs: Seq<DirView>, name: Seq<char>) -> Option<Seq<char>> {
    match first_hit(dirs, name) {
        Some(i) => Some(joined_path(dirs[i].dir, name)),
        None => None,
    }
}

/// `first_hit` points at the earliest directory that holds `name`.
pub proof fn lemma_first_hit(dirs: Seq<DirView>, name: Seq<char>)
    ensures
        match first_hit(dirs, name) {
            Some(i) => 0 <= i < dirs.len() && dir_has(dirs[i], name) && forall|k: int|
                0 <= k < i ==> !dir_has(dirs[k], name),
            None => forall|k: int| 0 <= k < dirs.len() ==> !dir_has(dirs[k], name),
        },
    decreases dirs.len(),
{
    if dirs.len() > 0 && !dir_has(dirs[0], name) {
        lemma_first_hit(dirs.drop_first(), name);
        match first_hit(dirs.drop_first(), name) {
            Some(i) => {
                assert forall|k: int| 0 <= k < i + 1 implies !dir_has(dirs[k], name) by {
                    if k > 0 {
                        assert(dirs.drop_first()[k - 1] == dirs[k]);
                    }
                }
                assert(dirs.drop_first()[i] == dirs[i + 1]);
            },
            None => {
                assert forall|k: int| 0 <= k < dirs.len() implies !dir_has(dirs[k], name) by {
                    if k > 0 {
                        assert(dirs.drop_first()[k - 1] == dirs[k]);
                    }
                }
            },
        }
    }
}

/// Splits the value of `PATH` into its directory list: colon-separated,
/// empty pieces kept; an unset variable gives an empty search list.
pub fn split_paths(path_var: &Option<String>) -> (r: Vec<String>)
    ensures
        r.deep_view() == paths_of(path_var.deep_view()),
{
    match path_var {
        None => {
            let r: Vec<String> = Vec::new();
            proof {
                assert(r.deep_view() =~= paths_of(path_var.deep_view()));
            }
            r
        },
        Some(s) => {
            let v = crate::strutil::chars_of(s);
            let n: usize = v.len();
            let mut cur = String::new();
            let mut acc: Vec<String> = Vec::new();
            let mut i: usize = 0;
            proof {
                assert(s@.subrange(0, n as int) =~= s@);
                assert(acc.deep_view() =~= Seq::<Seq<char>>::empty());
            }
            while i < n
                invariant
                    0 <= i <= n,
                    n == s@.len(),
                    v@ == s@,
                    split_colon(s@) == split_run(
                        s@.subrange(i as int, n as int),
                        cur@,
                        acc.deep_view(),
                    ),
                decreases n - i,
            {
                let ghost pre_cur = cur@;
                let ghost pre_acc = acc.deep_view();
                let c = v[i];
                if c == ':' {
                    acc.push(cur);
                    cur = String::new();
                    proof {
                        assert(acc.deep_view() =~= pre_acc.push(pre_cur));
                    }
                } else {
                    crate::strutil::push_char(&mut cur, c);
                }
                proof {
                    let suf = s@.subrange(i as int, n as int);
                    assert(suf[0] == c);
                    assert(suf.drop_first() =~= s@.subrange(i as int + 1, n as int));
                }
                i = i + 1;
            }
            proof {
                assert(s@.subrange(n as int, n as int) =~= Seq::<char>::empty());
            }
            acc.push(cur);
            proof {
                assert(acc.deep_view() =~= paths_of(path_var.deep_view()));
            }
            acc
        },
    }
}

/// Whether one directory snapshot's entry list holds `name`.
pub(crate) fn entries_contain(es: &Vec<String>, name: &String) -> (r: bool)
    ensures
        r == es.deep_view().contains(name@),
{
    let m = es.len();
    let mut t: usize = 0;
    while t < m
        invariant
            0 <= t <= m,
            m == es@.len(),
            forall|u: int| 0 <= u < t ==> es.deep_view()[u] != name@,
        decreases m - t,
    {
        if es[t].eq(name) {
            proof {
                assert(es.deep_view()[t as int] == name@);
            }
            return true;
        }
        t = t + 1;
    }
    proof {
        assert(forall|u: int| 0 <= u < es.deep_view().len() ==> es.deep_view()[u] != name@);
    }
    false
}

/// Scans the directory snapshots in listed order and returns the full path
/// (`dir` + `/` + `name`) of the first entry whose name equals `name`;
/// `None` exactly when no readable directory holds such an entry. An
/// unreadable directory is skipped, and the scan of the rest goes on.
pub fn find_in_dirs(name: &String, dirs: &Vec<DirListing>) -> (r: Option<String>)
    ensures
        r.deep_view() == find_spec(dirs.deep_view(), name@),
{
    let n = dirs.len();
    let mut j: usize = 0;
    while j < n
        invariant
            0 <= j <= n,
            n == dirs@.len(),
            forall|k: int| 0 <= k < j ==> !dir_has(dirs.deep_view()[k], name@),
        decreases n - j,
    {
        let hit = match &dirs[j].entries {
            Some(es) => entries_contain(es, name),
            None => false,
        };
        if hit {
            let mut p = dirs[j].dir.clone();
            p.append("/");
            p.append(name.as_str());
            proof {
                reveal_strlit("/");
                assert(dir_has(dirs.deep_view()[j as int], name@));
                lemma_first_hit(dirs.deep_view(), name@);
                match first_hit(dirs.deep_view(), name@) {
                    Some(i) => {
                        if i < j {
                            assert(!dir_has(dirs.deep_view()[i], name@));
                        }
                        if i > j {
                            assert(!dir_has(dirs.deep_view()[j as int], name@));
                        }
                        assert(i == j);
                    },
                    None => {
                        assert(!dir_has(dirs.deep_view()[j as int], name@));
                    },
                }
                assert(p@ =~= joined_path(dirs.deep_view()[j as int].dir, name@));
            }
            return Some(p);
        }
        j = j + 1;
    }
    proof {
        lemma_first_hit(dirs.deep_view(), name@);
        match first_hit(dirs.deep_view(), name@) {
            Some(i) => {
                assert(!dir_has(dirs.deep_view()[i], name@));
            },
            None => {},
        }
    }
    None
}

} // verus!
