//! Project discovery: walking a directory path upward through its parents
//! looking for the directory that holds the task-definition marker file.
//!
//! Paths are handled textually, as absolute strings with `/` separators;
//! whether a directory actually holds the marker file is a fact about the
//! filesystem and is handed in as data by the caller.

use vstd::prelude::*;
use crate::text::str_eq;

verus! {

/// The index of the last `/` in `p`, or `-1` if there is none.
pub open spec fn last_slash(p: Seq<char>) -> int
    decreases p.len(),
{
    if p.len() == 0 {
        -1
    } else if p.last() == '/' {
        p.len() - 1
    } else {
        last_slash(p.drop_last())
    }
}

/// `last_slash` finds the greatest index holding a `/`.
pub proof fn lemma_last_slash(q: Seq<char>)
    ensures
        -1 <= last_slash(q) < q.len(),
        last_slash(q) == -1 ==> forall|m: int| 0 <= m < q.len() ==> q[m] != '/',
        last_slash(q) >= 0 ==> {
            &&& 0 <= last_slash(q) < q.len()
            &&& q[last_slash(q)] == '/'
            &&& forall|m: int| last_slash(q) < m < q.len() ==> q[m] != '/'
        },
    decreases q.len(),
{
    if q.len() == 0 {
    } else if q.last() == '/' {
    } else {
        let d = q.drop_last();
        lemma_last_slash(d);
        assert(last_slash(q) == last_slash(d));
        assert(q[q.len() - 1] == q.last());
        if last_slash(d) == -1 {
            assert forall|m: int| 0 <= m < q.len() implies q[m] != '/' by {
                if m < q.len() - 1 {
                    assert(d[m] == q[m]);
                }
            }
        } else {
            assert(q[last_slash(d)] == d[last_slash(d)]);
            assert forall|m: int| last_slash(q) < m < q.len() implies q[m] != '/' by {
                if m < q.len() - 1 {
                    assert(d[m] == q[m]);
                }
            }
        }
    }
}

/// A slash found at `j`, with none later, is the last slash.
pub proof fn lemma_last_slash_unique(q: Seq<char>, j: int)
    requires
        0 <= j < q.len(),
        q[j] == '/',
        forall|m: int| j < m < q.len() ==> q[m] != '/',
    ensures
        last_slash(q) == j,
{
    lemma_last_slash(q);
    let ls = last_slash(q);
    if ls == -1 {
        assert(q[j] != '/');
    } else if ls < j {
        assert(q[j] != '/');
    } else if ls > j {
        assert(q[ls] != '/');
    }
}

/// The parent directory of an absolute path, textually: everything up to
/// the last separator before the final component.  The root has no parent.
pub open spec fn parent_dir(p: Seq<char>) -> Option<Seq<char>> {
    if p.len() <= 1 {
        None
    } else {
        let j = last_slash(p.drop_last());
        if j <= 0 {
            Some(seq!['/'])
        } else {
            Some(p.subrange(0, j))
        }
    }
}

/// A directory followed by all its ancestors, ending at the root.
pub open spec fn ancestor_dirs_spec(p: Seq<char>) -> Seq<Seq<char>>
    decreases p.len(),
    via ancestor_dirs_spec_decreases
{
    match parent_dir(p) {
        None => seq![p],
        Some(q) => seq![p] + ancestor_dirs_spec(q),
    }
}

#[via_fn]
proof fn ancestor_dirs_spec_decreases(p: Seq<char>) {
    if p.len() > 1 {
        lemma_last_slash(p.drop_last());
    }
}

/// The first directory of `anc` that occurs in `marked`.
pub open spec fn first_marked(anc: Seq<Seq<char>>, marked: Seq<Seq<char>>) -> Option<Seq<char>>
    decreases anc.len(),
{
    if anc.len() == 0 {
        None
    } else if marked.contains(anc[0]) {
        Some(anc[0])
    } else {
        first_marked(anc.skip(1), marked)
    }
}

/// Whether some string in `v` holds the same characters as `x`.
pub fn contains_str(v: &Vec<String>, x: &str) -> (r: bool)
    ensures
        r == v@.map_values(|s: String| s@).contains(x@),
{
    let ghost m = v@.map_values(|s: String| s@);
    let mut i: usize = 0;
    while i < v.len()
        invariant
            0 <= i <= v.len(),
            m == v@.map_values(|s: String| s@),
            m.len() == v.len(),
            forall|j: int| 0 <= j < i ==> m[j] != x@,
        decreases v.len() - i,
    {
        if str_eq(v[i].as_str(), x) {
            assert(m[i as int] == x@);
            return true;
        }
        i = i + 1;
    }
    assert(!m.contains(x@));
    false
}

/// The parent directory of the absolute path `p`, or `None` at the root.
pub fn parent_of(p: &str) -> (r: Option<String>)
    requires
        p@.len() > 0,
        p@[0] == '/',
    ensures
        match r {
            Some(q) => parent_dir(p@) == Some(q@),
            None => parent_dir(p@) is None,
        },
{
    let n = p.unicode_len();
    if n <= 1 {
        return None;
    }
    // Find the greatest index before the final character that holds a '/'.
    let mut j: usize = n - 1;
    while j > 0 && p.get_char(j - 1) != '/'
        invariant
            1 <= j <= n - 1,
            n == p@.len(),
            2 <= n,
            p@[0] == '/',
            forall|m: int| j - 1 < m < n - 1 ==> p@[m] != '/',
        decreases j,
    {
        j = j - 1;
    }
    proof {
        let d = p@.drop_last();
        assert(d.len() == n - 1);
        assert(forall|m: int| 0 <= m < n - 1 ==> d[m] == p@[m]);
        if j > 0 {
            assert(d[j - 1] == '/');
            assert forall|m: int| j - 1 < m < d.len() implies d[m] != '/' by {
                assert(p@[m] != '/');
            }
            lemma_last_slash_unique(d, j - 1);
        } else {
            assert(d[0] == '/');
            assert forall|m: int| 0 < m < d.len() implies d[m] != '/' by {
                assert(p@[m] != '/');
            }
            lemma_last_slash_unique(d, 0);
        }
    }
    if j <= 1 {
        let root = String::from_str("/");
        proof {
            reveal_strlit("/");
        }
        assert(root@ =~= seq!['/']);
        Some(root)
    } else {
        let q = p.substring_char(0, j - 1);
        Some(q.to_owned())
    }
}

/// Walks `cwd` and its ancestors, innermost first, and returns the first
/// directory that appears in `dirs_with_marker` (the directories that hold
/// the marker file).  `None` when no ancestor is marked.
pub fn find_project_path(cwd: &str, dirs_with_marker: &Vec<String>) -> (r: Option<String>)
    requires
        cwd@.len() > 0,
        cwd@[0] == '/',
    ensures
        ({
            let marked = dirs_with_marker@.map_values(|s: String| s@);
            match r {
                Some(d) => first_marked(ancestor_dirs_spec(cwd@), marked) == Some(d@),
                None => first_marked(ancestor_dirs_spec(cwd@), marked) is None,
            }
        }),
{
    let ghost marked = dirs_with_marker@.map_values(|s: String| s@);
    let mut current = cwd.to_owned();
    loop
        invariant
            marked == dirs_with_marker@.map_values(|s: String| s@),
            current@.len() > 0,
            current@[0] == '/',
            first_marked(ancestor_dirs_spec(cwd@), marked) == first_marked(
                ancestor_dirs_spec(current@),
                marked,
            ),
        decreases current@.len(),
    {
        let ghost pre = current@;
        let ghost anc = ancestor_dirs_spec(pre);
        if contains_str(dirs_with_marker, current.as_str()) {
            proof {
                if parent_dir(pre) is None {
                    assert(anc[0] == pre);
                } else {
                    assert(anc == seq![pre] + ancestor_dirs_spec(parent_dir(pre)->0));
                    assert(anc[0] == pre);
                }
                assert(first_marked(anc, marked) == Some(pre));
            }
            return Some(current);
        }
        match parent_of(current.as_str()) {
            Some(q) => {
                proof {
                    assert(parent_dir(pre) == Some(q@));
                    assert(anc == seq![pre] + ancestor_dirs_spec(q@));
                    assert(anc[0] == pre);
                    assert(anc.skip(1) =~= ancestor_dirs_spec(q@));
                    assert(first_marked(anc, marked) == first_marked(
                        ancestor_dirs_spec(q@),
                        marked,
                    ));
                    lemma_last_slash(pre.drop_last());
                    let j = last_slash(pre.drop_last());
                    assert(pre.len() > 1);
                    if j > 0 {
                        assert(q@ == pre.subrange(0, j));
                        assert(j < pre.drop_last().len());
                        assert(q@.len() == j);
                        assert(pre.subrange(0, j)[0] == pre[0]);
                        assert(q@[0] == '/');
                    } else {
                        assert(q@ == seq!['/']);
                        assert(q@.len() == 1);
                        assert(q@[0] == '/');
                    }
                    assert(q@.len() > 0 && q@[0] == '/');
                    assert(q@.len() < pre.len());
                }
                current = q;
            },
            None => {
                proof {
                    assert(anc == seq![pre]);
                    assert(anc[0] == pre);
                    assert(anc.skip(1) =~= Seq::<Seq<char>>::empty());
                    assert(first_marked(Seq::<Seq<char>>::empty(), marked) is None);
                    assert(first_marked(anc, marked) == first_marked(anc.skip(1), marked));
                    assert(first_marked(anc, marked) is None);
                }
                return None;
            },
        }
    }
}

} // verus!
