use vstd::prelude::*;

use crate::protocol::string_views;
use crate::text::{chars_of, str_eq};

verus! {

/// The order of `String`: lexicographic by bytes, which for UTF-8 is
/// lexicographic by code points.
pub open spec fn lex_lt(a: Seq<char>, b: Seq<char>) -> bool
    decreases a.len(),
{
    if b.len() == 0 {
        false
    } else if a.len() == 0 {
        true
    } else if a[0] != b[0] {
        a[0] < b[0]
    } else {
        lex_lt(a.drop_first(), b.drop_first())
    }
}

pub proof fn lemma_lex_irreflexive(a: Seq<char>)
    ensures
        !lex_lt(a, a),
    decreases a.len(),
{
    if a.len() > 0 {
        lemma_lex_irreflexive(a.drop_first());
    }
}

pub proof fn lemma_lex_transitive(a: Seq<char>, b: Seq<char>, c: Seq<char>)
    requires
        lex_lt(a, b),
        lex_lt(b, c),
    ensures
        lex_lt(a, c),
    decreases a.len(),
{
    if a.len() > 0 && b.len() > 0 && c.len() > 0 && a[0] == b[0] && b[0] == c[0] {
        lemma_lex_transitive(a.drop_first(), b.drop_first(), c.drop_first());
    }
}

pub proof fn lemma_lex_total(a: Seq<char>, b: Seq<char>)
    requires
        a != b,
    ensures
        lex_lt(a, b) || lex_lt(b, a),
    decreases a.len(),
{
    if a.len() == 0 {
        if b.len() == 0 {
            assert(a =~= b);
        }
    } else if b.len() == 0 {
    } else if a[0] == b[0] {
        assert(a == seq![a[0]] + a.drop_first());
        assert(b == seq![b[0]] + b.drop_first());
        lemma_lex_total(a.drop_first(), b.drop_first());
    } else {
    }
}

pub proof fn lemma_lex_asymmetric(a: Seq<char>, b: Seq<char>)
    requires
        lex_lt(a, b),
    ensures
        !lex_lt(b, a),
{
    if lex_lt(b, a) {
        lemma_lex_transitive(a, b, a);
        lemma_lex_irreflexive(a);
    }
}

/// `a < b` for strings.
pub fn str_less(a: &str, b: &str) -> (res: bool)
    ensures
        res == lex_lt(a@, b@),
{
    let va = chars_of(a);
    let vb = chars_of(b);
    let mut i: usize = 0;
    assert(va@.skip(0) == va@);
    assert(vb@.skip(0) == vb@);
    while i < va.len() && i < vb.len() && va[i] == vb[i]
        invariant
            i <= va@.len(),
            i <= vb@.len(),
            lex_lt(a@, b@) == lex_lt(va@.skip(i as int), vb@.skip(i as int)),
            va@ == a@,
            vb@ == b@,
        decreases va@.len() - i,
    {
        assert(va@.skip(i as int).drop_first() == va@.skip(i + 1));
        assert(vb@.skip(i as int).drop_first() == vb@.skip(i + 1));
        i += 1;
    }
    if i == vb.len() {
        false
    } else if i == va.len() {
        true
    } else {
        assert(va@.skip(i as int)[0] == va@[i as int]);
        assert(vb@.skip(i as int)[0] == vb@[i as int]);
        va[i] < vb[i]
    }
}

/// Every element is less than every later one: sorted, and nothing twice.
pub open spec fn strictly_sorted(s: Seq<Seq<char>>) -> bool {
    forall|i: int, j: int| 0 <= i < j < s.len() ==> lex_lt(#[trigger] s[i], #[trigger] s[j])
}

/// Puts `x` into its place in the strictly sorted `r`, unless it is there.
fn insert_sorted(r: &mut Vec<String>, x: &String)
    requires
        strictly_sorted(string_views(old(r)@)),
    ensures
        strictly_sorted(string_views(final(r)@)),
        forall|y: Seq<char>|
            string_views(final(r)@).contains(y) <==> (string_views(old(r)@).contains(y) || y
                == x@),
{
    let ghost old_views = string_views(r@);
    let mut p: usize = 0;
    while p < r.len() && str_less(r[p].as_str(), x.as_str())
        invariant
            p <= r@.len(),
            r@ == old(r)@,
            old_views == string_views(r@),
            forall|j: int| 0 <= j < p ==> lex_lt(#[trigger] old_views[j], x@),
        decreases r@.len() - p,
    {
        p += 1;
    }
    if p < r.len() && str_eq(r[p].as_str(), x.as_str()) {
        assert(old_views[p as int] == x@);
        return;
    }
    proof {
        if p < old_views.len() {
            lemma_lex_total(old_views[p as int], x@);
        }
    }
    let ghost n = old_views.insert(p as int, x@);
    r.insert(p, x.clone());
    assert(string_views(r@) =~= n);
    assert forall|i: int, j: int| 0 <= i < j < n.len() implies lex_lt(#[trigger] n[i], #[trigger] n[j]) by {
        if j < p {
            assert(n[i] == old_views[i] && n[j] == old_views[j]);
        } else if j == p {
            assert(n[j] == x@);
        } else if i < p {
            assert(n[j] == old_views[j - 1]);
            lemma_lex_transitive(n[i], x@, old_views[p as int]);
            if j - 1 > p {
                lemma_lex_transitive(n[i], old_views[p as int], old_views[j - 1]);
            }
        } else if i == p {
            assert(n[j] == old_views[j - 1]);
            if j - 1 > p {
                lemma_lex_transitive(x@, old_views[p as int], old_views[j - 1]);
            }
        } else {
            assert(n[i] == old_views[i - 1] && n[j] == old_views[j - 1]);
        }
    }
    assert forall|y: Seq<char>| n.contains(y) <==> (old_views.contains(y) || y == x@) by {
        if n.contains(y) {
            let k = choose|k: int| 0 <= k < n.len() && n[k] == y;
            if k < p {
                assert(old_views[k] == y);
            } else if k > p {
                assert(old_views[k - 1] == y);
            }
        }
        if old_views.contains(y) {
            let k = choose|k: int| 0 <= k < old_views.len() && old_views[k] == y;
            if k < p {
                assert(n[k] == y);
            } else {
                assert(n[k + 1] == y);
            }
        }
        if y == x@ {
            assert(n[p as int] == y);
        }
    }
}

/// The names sorted, each once: `sort` followed by `dedup`.
pub fn sorted_distinct(names: &Vec<String>) -> (res: Vec<String>)
    ensures
        strictly_sorted(string_views(res@)),
        forall|y: Seq<char>|
            string_views(res@).contains(y) <==> string_views(names@).contains(y),
{
    let mut r: Vec<String> = Vec::new();
    let mut k: usize = 0;
    while k < names.len()
        invariant
            k <= names@.len(),
            strictly_sorted(string_views(r@)),
            forall|y: Seq<char>|
                string_views(r@).contains(y) <==> string_views(names@.take(k as int)).contains(
                    y,
                ),
        decreases names@.len() - k,
    {
        insert_sorted(&mut r, &names[k]);
        proof {
            let before = string_views(names@.take(k as int));
            let after = string_views(names@.take(k + 1));
            assert(after =~= before.push(names@[k as int]@));
            assert forall|y: Seq<char>| after.contains(y) <==> (before.contains(y) || y
                == names@[k as int]@) by {
                if after.contains(y) {
                    let i = choose|i: int| 0 <= i < after.len() && after[i] == y;
                    if i < k {
                        assert(before[i] == y);
                    }
                }
                if before.contains(y) {
                    let i = choose|i: int| 0 <= i < before.len() && before[i] == y;
                    assert(after[i] == y);
                }
                if y == names@[k as int]@ {
                    assert(after[k as int] == y);
                }
            }
        }
        k += 1;
    }
    assert(names@.take(names@.len() as int) == names@);
    r
}

/// `out` is the ascending list of the `cap` smallest distinct strings of
/// `all` (all of them where there are fewer): what `sort`, `dedup` and
/// `truncate(cap)` leave.
pub open spec fn smallest_distinct(all: Seq<Seq<char>>, out: Seq<Seq<char>>, cap: nat) -> bool {
    &&& out.len() <= cap
    &&& strictly_sorted(out)
    &&& forall|i: int| 0 <= i < out.len() ==> all.contains(#[trigger] out[i])
    &&& forall|x: Seq<char>|
        #[trigger] all.contains(x) ==> out.contains(x) || (out.len() == cap && (cap == 0
            || lex_lt(out.last(), x)))
}

/// Sorts the names, drops repeats and keeps the first `cap`.
pub fn sort_dedup_truncate(names: &Vec<String>, cap: usize) -> (res: Vec<String>)
    ensures
        smallest_distinct(string_views(names@), string_views(res@), cap as nat),
{
    let mut r = sorted_distinct(names);
    let ghost full = string_views(r@);
    r.truncate(cap);
    let ghost out = string_views(r@);
    assert(out =~= if cap <= full.len() { full.take(cap as int) } else { full });
    assert forall|i: int| 0 <= i < out.len() implies string_views(names@).contains(#[trigger] out[i]) by {
        assert(full[i] == out[i]);
        assert(full.contains(out[i]));
    }
    assert forall|x: Seq<char>| #[trigger] string_views(names@).contains(x) implies out.contains(x) || (
    out.len() == cap && (cap == 0 || lex_lt(out.last(), x))) by {
        assert(full.contains(x));
        let k = choose|k: int| 0 <= k < full.len() && full[k] == x;
        if k < out.len() {
            assert(out[k] == x);
        } else {
            assert(out.len() == cap);
            if cap > 0 {
                assert(out.last() == full[cap - 1]);
                assert(lex_lt(full[cap - 1], full[k]));
            }
        }
    }
    r
}

} // verus!
