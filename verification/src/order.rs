//! The order of texts (`Ord` for `str`: by character codes, a proper prefix
//! first) and sorting by it.
use vstd::prelude::*;
use crate::text::chars_of;

verus! {

/// `a < b` for texts.
pub open spec fn text_lt(a: Seq<char>, b: Seq<char>) -> bool
    decreases a.len(),
{
    if a.len() == 0 {
        b.len() > 0
    } else if b.len() == 0 {
        false
    } else if a[0] != b[0] {
        a[0] < b[0]
    } else {
        text_lt(a.drop_first(), b.drop_first())
    }
}

/// `a <= b` for texts.
pub open spec fn text_le(a: Seq<char>, b: Seq<char>) -> bool {
    a == b || text_lt(a, b)
}

/// Two texts are ordered one way or the other, or equal.
pub proof fn lemma_text_total(a: Seq<char>, b: Seq<char>)
    ensures
        text_lt(a, b) || text_lt(b, a) || a == b,
    decreases a.len(),
{
    if a.len() > 0 && b.len() > 0 && a[0] == b[0] {
        lemma_text_total(a.drop_first(), b.drop_first());
        if a.drop_first() == b.drop_first() {
            assert(a =~= seq![a[0]] + a.drop_first());
            assert(b =~= seq![b[0]] + b.drop_first());
        }
    } else if a.len() == 0 && b.len() == 0 {
        assert(a =~= b);
    }
}

/// The order of texts is transitive.
pub proof fn lemma_text_lt_transitive(a: Seq<char>, b: Seq<char>, c: Seq<char>)
    requires
        text_lt(a, b),
        text_lt(b, c),
    ensures
        text_lt(a, c),
    decreases a.len(),
{
    if a.len() > 0 && b.len() > 0 && c.len() > 0 && a[0] == b[0] && b[0] == c[0] {
        lemma_text_lt_transitive(a.drop_first(), b.drop_first(), c.drop_first());
    }
}

/// `a < b` for texts.
pub fn text_less(a: &str, b: &str) -> (r: bool)
    ensures
        r == text_lt(a@, b@),
{
    let x = chars_of(a);
    let y = chars_of(b);
    let mut i: usize = 0;
    assert(x@.skip(0) == x@);
    assert(y@.skip(0) == y@);
    while i < x.len() && i < y.len() && x[i] == y[i]
        invariant
            i <= x@.len(),
            i <= y@.len(),
            forall|k: int| 0 <= k < i ==> x@[k] == y@[k],
            text_lt(x@, y@) == text_lt(x@.skip(i as int), y@.skip(i as int)),
        decreases x@.len() - i,
    {
        proof {
            let xs = x@.skip(i as int);
            let ys = y@.skip(i as int);
            assert(xs.drop_first() == x@.skip(i + 1));
            assert(ys.drop_first() == y@.skip(i + 1));
        }
        i += 1;
    }
    proof {
        let xs = x@.skip(i as int);
        let ys = y@.skip(i as int);
        if i < x@.len() && i < y@.len() {
            assert(xs[0] == x@[i as int]);
            assert(ys[0] == y@[i as int]);
        }
    }
    if i == x.len() {
        i < y.len()
    } else if i == y.len() {
        false
    } else {
        x[i] < y[i]
    }
}

/// The texts in ascending order.
pub open spec fn sorted_texts(s: Seq<Seq<char>>) -> bool {
    forall|i: int, j: int| 0 <= i < j < s.len() ==> text_le(#[trigger] s[i], #[trigger] s[j])
}

pub open spec fn string_views(v: Seq<String>) -> Seq<Seq<char>> {
    v.map_values(|x: String| x@)
}

proof fn lemma_insert_keeps_sorted(before: Seq<String>, p: int, x: String)
    requires
        0 <= p <= before.len(),
        sorted_texts(string_views(before)),
        forall|k: int| 0 <= k < p ==> text_le(#[trigger] before[k]@, x@),
        p < before.len() ==> text_lt(x@, before[p]@),
    ensures
        sorted_texts(string_views(before.insert(p, x))),
{
    before.insert_ensures(p, x);
    let after = before.insert(p, x);
    let sv = string_views(after);
    let bv = string_views(before);
    assert forall|a: int, b: int| 0 <= a < b < sv.len() implies text_le(
        #[trigger] sv[a],
        #[trigger] sv[b],
    ) by {
        if b < p {
            assert(sv[a] == bv[a]);
            assert(sv[b] == bv[b]);
        } else if b == p {
            assert(sv[a] == before[a]@);
            assert(sv[b] == x@);
        } else if a == p {
            assert(sv[a] == x@);
            assert(sv[b] == before[b - 1]@);
            if b - 1 > p {
                assert(bv[p] == before[p]@);
                assert(bv[b - 1] == before[b - 1]@);
                assert(text_le(bv[p], bv[b - 1]));
                if before[p]@ != before[b - 1]@ {
                    lemma_text_lt_transitive(x@, before[p]@, before[b - 1]@);
                }
            }
        } else if a < p {
            assert(sv[a] == before[a]@);
            assert(sv[b] == before[b - 1]@);
            assert(text_le(before[a]@, x@));
            assert(text_lt(x@, before[p]@));
            assert(bv[p] == before[p]@);
            assert(bv[b - 1] == before[b - 1]@);
            assert(text_le(bv[p], bv[b - 1]));
            if before[a]@ == x@ {
                if before[p]@ != before[b - 1]@ {
                    lemma_text_lt_transitive(x@, before[p]@, before[b - 1]@);
                }
            } else {
                lemma_text_lt_transitive(before[a]@, x@, before[p]@);
                if before[p]@ != before[b - 1]@ {
                    lemma_text_lt_transitive(before[a]@, before[p]@, before[b - 1]@);
                }
            }
        } else {
            assert(sv[a] == bv[a - 1]);
            assert(sv[b] == bv[b - 1]);
        }
    }
}

/// The strings in ascending order (`Vec::sort` on strings).
pub fn sort_strings(v: Vec<String>) -> (r: Vec<String>)
    ensures
        r@.to_multiset() == v@.to_multiset(),
        sorted_texts(string_views(r@)),
{
    broadcast use vstd::seq_lib::to_multiset_insert;

    let mut r: Vec<String> = Vec::new();
    let mut i: usize = 0;
    assert(r@ =~= v@.take(0));
    while i < v.len()
        invariant
            i <= v@.len(),
            r@.to_multiset() == v@.take(i as int).to_multiset(),
            sorted_texts(string_views(r@)),
        decreases v@.len() - i,
    {
        let x = v[i].clone();
        assert(x == v@[i as int]);
        let mut p: usize = 0;
        while p < r.len() && !text_less(x.as_str(), r[p].as_str())
            invariant
                p <= r@.len(),
                forall|k: int| 0 <= k < p ==> text_le(#[trigger] r@[k]@, x@),
            decreases r@.len() - p,
        {
            proof {
                lemma_text_total(x@, r@[p as int]@);
            }
            p += 1;
        }
        let ghost before = r@;
        r.insert(p, x);
        proof {
            if p < before.len() {
                lemma_text_total(x@, before[p as int]@);
            }
            lemma_insert_keeps_sorted(before, p as int, x);
            assert(r@ == before.insert(p as int, x));
            vstd::seq_lib::to_multiset_insert(before, p as int, x);
            assert(v@.take(i + 1) == v@.take(i as int).push(v@[i as int]));
            vstd::seq_lib::to_multiset_build(v@.take(i as int), v@[i as int]);
        }
        i += 1;
    }
    assert(v@.take(v@.len() as int) == v@);
    r
}

} // verus!
