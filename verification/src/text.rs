//! Small verified string helpers: equality, prefix tests, joining with
//! spaces, and lexicographic ordering.

use vstd::prelude::*;

verus! {

/// Whether strings `a` and `b` hold the same characters.
pub fn str_eq(a: &str, b: &str) -> (r: bool)
    ensures
        r == (a@ == b@),
{
    let alen = a.unicode_len();
    let blen = b.unicode_len();
    if alen != blen {
        assert(a@ != b@) by {
            assert(a@.len() != b@.len());
        }
        return false;
    }
    let mut i: usize = 0;
    while i < alen
        invariant
            alen == a@.len(),
            alen == b@.len(),
            0 <= i <= alen,
            forall|j: int| 0 <= j < i ==> a@[j] == b@[j],
        decreases alen - i,
    {
        if a.get_char(i) != b.get_char(i) {
            return false;
        }
        i = i + 1;
    }
    assert(a@ =~= b@);
    true
}

/// Whether `a` starts with `p`.
pub fn str_starts_with(a: &str, p: &str) -> (r: bool)
    ensures
        r == (a@.len() >= p@.len() && a@.subrange(0, p@.len() as int) == p@),
{
    let alen = a.unicode_len();
    let plen = p.unicode_len();
    if alen < plen {
        return false;
    }
    let mut i: usize = 0;
    while i < plen
        invariant
            alen == a@.len(),
            plen == p@.len(),
            plen <= alen,
            0 <= i <= plen,
            forall|j: int| 0 <= j < i ==> a@[j] == p@[j],
        decreases plen - i,
    {
        if a.get_char(i) != p.get_char(i) {
            assert(a@.subrange(0, p@.len() as int)[i as int] != p@[i as int]);
            return false;
        }
        i = i + 1;
    }
    assert(a@.subrange(0, p@.len() as int) =~= p@);
    true
}

/// The tokens of `toks` joined with a single space between them.
pub open spec fn join_with_space(toks: Seq<Seq<char>>) -> Seq<char>
    decreases toks.len(),
{
    if toks.len() == 0 {
        Seq::empty()
    } else if toks.len() == 1 {
        toks[0]
    } else {
        join_with_space(toks.drop_last()) + seq![' '] + toks.last()
    }
}

/// Joins the first `k` strings of `toks` with a single space between them.
pub fn join_space_prefix(toks: &Vec<String>, k: usize) -> (r: String)
    requires
        k <= toks.len(),
    ensures
        r@ == join_with_space(toks@.map_values(|t: String| t@).subrange(0, k as int)),
{
    let ghost s = toks@.map_values(|t: String| t@);
    let mut r = String::new();
    if k == 0 {
        assert(s.subrange(0, 0) =~= Seq::<Seq<char>>::empty());
        assert(r@ =~= join_with_space(s.subrange(0, 0)));
        return r;
    }
    r.append(toks[0].as_str());
    let mut i: usize = 1;
    assert(s.subrange(0, 1) =~= seq![s[0]]);
    assert(r@ =~= join_with_space(s.subrange(0, 1)));
    while i < k
        invariant
            1 <= i <= k,
            k <= toks.len(),
            s == toks@.map_values(|t: String| t@),
            s.len() == toks@.len(),
            r@ == join_with_space(s.subrange(0, i as int)),
        decreases k - i,
    {
        r.append(" ");
        r.append(toks[i].as_str());
        proof {
            reveal_strlit(" ");
        }
        assert(" "@ =~= seq![' ']);
        assert(s.subrange(0, i + 1).drop_last() =~= s.subrange(0, i as int));
        assert(s.subrange(0, i + 1).last() == s[i as int]);
        i = i + 1;
    }
    r
}

/// Joins the strings in `toks` with a single space between them.
pub fn join_space(toks: &Vec<String>) -> (r: String)
    ensures
        r@ == join_with_space(toks@.map_values(|t: String| t@)),
{
    let r = join_space_prefix(toks, toks.len());
    assert(toks@.map_values(|t: String| t@).subrange(0, toks@.len() as int) =~= toks@.map_values(
        |t: String| t@,
    ));
    r
}

/// Viewing the elements of a string sequence commutes with `push`.
pub proof fn lemma_view_push(v: Seq<String>, x: String)
    ensures
        v.push(x).map_values(|a: String| a@) =~= v.map_values(|a: String| a@).push(x@),
{
}

/// Lexicographic order on character sequences, by code point.
pub open spec fn lex_le(a: Seq<char>, b: Seq<char>) -> bool
    decreases a.len(),
{
    if a.len() == 0 {
        true
    } else if b.len() == 0 {
        false
    } else if a[0] == b[0] {
        lex_le(a.skip(1), b.skip(1))
    } else {
        (a[0] as int) < (b[0] as int)
    }
}

/// `lex_le` is total: two sequences are always comparable.
pub proof fn lemma_lex_le_total(a: Seq<char>, b: Seq<char>)
    ensures
        lex_le(a, b) || lex_le(b, a),
    decreases a.len(),
{
    if a.len() == 0 || b.len() == 0 {
    } else if a[0] == b[0] {
        lemma_lex_le_total(a.skip(1), b.skip(1));
    } else {
        assert((a[0] as int) != (b[0] as int));
    }
}

/// `lex_le` is transitive.
pub proof fn lemma_lex_le_trans(a: Seq<char>, b: Seq<char>, c: Seq<char>)
    requires
        lex_le(a, b),
        lex_le(b, c),
    ensures
        lex_le(a, c),
    decreases a.len(),
{
    if a.len() == 0 {
    } else if b.len() == 0 {
        assert(!lex_le(a, b));
    } else if c.len() == 0 {
        assert(!lex_le(b, c));
    } else {
        if a[0] == b[0] && b[0] == c[0] {
            lemma_lex_le_trans(a.skip(1), b.skip(1), c.skip(1));
        }
    }
}

/// Whether `a` is at most `b` in lexicographic order.
pub fn str_le(a: &str, b: &str) -> (r: bool)
    ensures
        r == lex_le(a@, b@),
{
    let alen = a.unicode_len();
    let blen = b.unicode_len();
    let mut i: usize = 0;
    assert(a@.skip(0) =~= a@);
    assert(b@.skip(0) =~= b@);
    loop
        invariant
            alen == a@.len(),
            blen == b@.len(),
            0 <= i <= alen,
            0 <= i <= blen,
            lex_le(a@, b@) == lex_le(a@.skip(i as int), b@.skip(i as int)),
        decreases alen - i,
    {
        if i >= alen {
            assert(a@.skip(i as int).len() == 0);
            return true;
        }
        if i >= blen {
            assert(b@.skip(i as int).len() == 0 && a@.skip(i as int).len() > 0);
            return false;
        }
        let ca = a.get_char(i);
        let cb = b.get_char(i);
        assert(a@.skip(i as int)[0] == a@[i as int] && b@.skip(i as int)[0] == b@[i as int]);
        if ca != cb {
            let r = (ca as u32) < (cb as u32);
            assert(r == ((ca as int) < (cb as int)));
            return r;
        }
        assert(a@.skip(i as int).skip(1) =~= a@.skip(i + 1));
        assert(b@.skip(i as int).skip(1) =~= b@.skip(i + 1));
        i = i + 1;
    }
}

} // verus!

verus! {

/// Whether the string sequence is sorted in lexicographic order.
pub open spec fn sorted_lex(s: Seq<Seq<char>>) -> bool {
    forall|i: int, j: int| 0 <= i < j < s.len() ==> lex_le(s[i], s[j])
}

/// Sorts the strings in place, in lexicographic order, keeping exactly
/// the same strings.
pub fn sort_strings(v: &mut Vec<String>)
    ensures
        final(v)@.map_values(|s: String| s@).to_multiset() == old(v)@.map_values(
            |s: String| s@,
        ).to_multiset(),
        sorted_lex(final(v)@.map_values(|s: String| s@)),
        final(v)@.len() == old(v)@.len(),
{
    broadcast use vstd::seq_lib::group_to_multiset_ensures;

    let ghost orig = old(v)@.map_values(|s: String| s@);
    let mut i: usize = 1;
    while i < v.len()
        invariant
            1 <= i,
            i <= v.len() || v.len() == 0,
            v@.map_values(|s: String| s@).to_multiset() == orig.to_multiset(),
            v@.len() == orig.len(),
            forall|a: int, b: int|
                0 <= a < b < i && b < v@.len() ==> #[trigger] lex_le(v@[a]@, v@[b]@),
        decreases v.len() - i,
    {
        let ghost pre = v@;
        let x = v.remove(i);
        let ghost mid = v@;
        let mut j: usize = i;
        loop
            invariant
                0 <= j <= i,
                i < pre.len(),
                pre.len() == mid.len() + 1,
                mid == v@,
                x@ == pre[i as int]@,
                forall|m: int| 0 <= m < i ==> mid[m] == pre[m],
                forall|a: int, b: int|
                    0 <= a < b < i ==> #[trigger] lex_le(mid[a]@, mid[b]@),
                forall|m: int| j <= m < i ==> #[trigger] lex_le(x@, mid[m]@),
            ensures
                0 <= j <= i,
                j > 0 ==> lex_le(mid[j - 1]@, x@),
                forall|m: int| j <= m < i ==> #[trigger] lex_le(x@, mid[m]@),
            decreases j,
        {
            if j == 0 {
                break ;
            }
            if str_le(v[j - 1].as_str(), x.as_str()) {
                break ;
            }
            proof {
                lemma_lex_le_total(mid[j - 1]@, x@);
            }
            j = j - 1;
        }
        // Here the strings before `j` are at most `x`, those from `j` to
        // `i` are at least `x`.
        let ghost jg = j as int;
        let ghost x_saved = x;
        v.insert(j, x);
        proof {
            let post = v@;
            assert(post == mid.insert(jg, x_saved));
            mid.insert_ensures(jg, x_saved);
            assert(post.map_values(|s: String| s@).to_multiset() == orig.to_multiset()) by {
                assert(post.map_values(|s: String| s@) =~= mid.map_values(|s: String| s@).insert(
                    jg,
                    x_saved@,
                ));
                mid.map_values(|s: String| s@).insert_ensures(jg, x_saved@);
                vstd::seq_lib::to_multiset_insert(mid.map_values(|s: String| s@), jg, x_saved@);
                assert(mid.map_values(|s: String| s@).insert(jg, x_saved@).to_multiset()
                    =~= mid.map_values(|s: String| s@).to_multiset().insert(x_saved@));
                assert(mid.map_values(|s: String| s@) =~= pre.map_values(|s: String| s@).remove(
                    i as int,
                ));
                vstd::seq_lib::to_multiset_remove(pre.map_values(|s: String| s@), i as int);
                assert(pre.map_values(|s: String| s@).remove(i as int).to_multiset()
                    =~= pre.map_values(|s: String| s@).to_multiset().remove(
                    pre.map_values(|s: String| s@)[i as int],
                ));
                broadcast use vstd::multiset::group_multiset_axioms;

                assert(pre.map_values(|s: String| s@)[i as int] == x_saved@);
                assert(pre.map_values(|s: String| s@).contains(x_saved@));
                pre.map_values(|s: String| s@).to_multiset_ensures();
                assert(pre.map_values(|s: String| s@).to_multiset().count(x_saved@) > 0);
                assert(mid.map_values(|s: String| s@).to_multiset().insert(x_saved@)
                    =~= pre.map_values(|s: String| s@).to_multiset());
            }
            assert forall|a: int, b: int|
                0 <= a < b < i + 1 && b < post.len() implies #[trigger] lex_le(
                post[a]@,
                post[b]@,
            ) by {
                if a < jg && b < jg {
                    assert(post[a] == mid[a] && post[b] == mid[b]);
                } else if a < jg && b == jg {
                    assert(post[a] == mid[a] && post[b] == x_saved);
                    assert(lex_le(mid[jg - 1]@, x_saved@));
                    if a < jg - 1 {
                        lemma_lex_le_trans(mid[a]@, mid[jg - 1]@, x_saved@);
                    }
                } else if a < jg && b > jg {
                    assert(post[a] == mid[a] && post[b] == mid[b - 1]);
                } else if a == jg && b > jg {
                    assert(post[a] == x_saved && post[b] == mid[b - 1]);
                } else {
                    assert(post[a] == mid[a - 1] && post[b] == mid[b - 1]);
                }
            }
        }
        i = i + 1;
    }
    proof {
        let fin = v@.map_values(|s: String| s@);
        assert forall|a: int, b: int| 0 <= a < b < fin.len() implies lex_le(fin[a], fin[b]) by {
            assert(lex_le(v@[a]@, v@[b]@));
        }
    }
}

} // verus!
