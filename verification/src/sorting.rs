//! Sorting text in the order of `str`'s `Ord` (character by character, by
//! code point, a prefix before its extensions).
use vstd::prelude::*;
use vstd::relations::{sorted_by, total_ordering};
use crate::strings::{chars_of, string_views};

verus! {

broadcast use vstd::seq_lib::group_to_multiset_ensures, vstd::multiset::group_multiset_axioms;

/// `a` comes strictly before `b`.
pub open spec fn lex_lt(a: Seq<char>, b: Seq<char>) -> bool
    decreases a.len(),
{
    if a.len() == 0 {
        b.len() > 0
    } else if b.len() == 0 {
        false
    } else if a[0] != b[0] {
        a[0] < b[0]
    } else {
        lex_lt(a.drop_first(), b.drop_first())
    }
}

/// `a` comes before `b` or equals it.
pub open spec fn lex_le(a: Seq<char>, b: Seq<char>) -> bool {
    !lex_lt(b, a)
}

/// The order of text.
pub open spec fn lex_order() -> spec_fn(Seq<char>, Seq<char>) -> bool {
    |a: Seq<char>, b: Seq<char>| lex_le(a, b)
}

proof fn lemma_lt_irreflexive(a: Seq<char>)
    ensures
        !lex_lt(a, a),
    decreases a.len(),
{
    if a.len() > 0 {
        lemma_lt_irreflexive(a.drop_first());
    }
}

proof fn lemma_lt_trichotomy(a: Seq<char>, b: Seq<char>)
    ensures
        a == b || lex_lt(a, b) || lex_lt(b, a),
        !(lex_lt(a, b) && lex_lt(b, a)),
    decreases a.len(),
{
    if a.len() > 0 && b.len() > 0 {
        lemma_lt_trichotomy(a.drop_first(), b.drop_first());
        if a[0] == b[0] && a.drop_first() == b.drop_first() {
            assert(a =~= seq![a[0]] + a.drop_first());
            assert(b =~= seq![b[0]] + b.drop_first());
        }
    } else if a.len() == 0 && b.len() == 0 {
        assert(a =~= b);
    }
}

proof fn lemma_lt_transitive(a: Seq<char>, b: Seq<char>, c: Seq<char>)
    requires
        lex_lt(a, b),
        lex_lt(b, c),
    ensures
        lex_lt(a, c),
    decreases a.len(),
{
    if a.len() > 0 && b.len() > 0 && c.len() > 0 && a[0] == b[0] && b[0] == c[0] {
        lemma_lt_transitive(a.drop_first(), b.drop_first(), c.drop_first());
    }
}

/// The order of text is total.
pub proof fn lemma_lex_total_ordering()
    ensures
        total_ordering(lex_order()),
{
    assert forall|a: Seq<char>| #[trigger] lex_order()(a, a) by {
        lemma_lt_irreflexive(a);
    }
    assert forall|a: Seq<char>, b: Seq<char>| #[trigger] lex_order()(a, b) && #[trigger] lex_order()(b, a) implies a == b by {
        lemma_lt_trichotomy(a, b);
    }
    assert forall|a: Seq<char>, b: Seq<char>, c: Seq<char>| #[trigger] lex_order()(a, b) && #[trigger] lex_order()(b, c) implies lex_order()(a, c) by {
        lemma_lt_trichotomy(a, b);
        lemma_lt_trichotomy(b, c);
        lemma_lt_trichotomy(a, c);
        if lex_lt(c, a) {
            if a == b {
            } else if b == c {
            } else {
                lemma_lt_transitive(a, b, c);
            }
        }
    }
    assert forall|a: Seq<char>, b: Seq<char>| #[trigger] lex_order()(a, b) || #[trigger] lex_order()(b, a) by {
        lemma_lt_trichotomy(a, b);
    }
}

/// Whether `a` comes strictly before `b`.
pub fn lex_less(a: &Vec<char>, b: &Vec<char>) -> (r: bool)
    ensures
        r == lex_lt(a@, b@),
{
    let mut i: usize = 0;
    assert(a@.skip(0) == a@);
    assert(b@.skip(0) == b@);
    while i < a.len() && i < b.len() && a[i] == b[i]
        invariant
            i <= a@.len(),
            i <= b@.len(),
            lex_lt(a@.skip(i as int), b@.skip(i as int)) == lex_lt(a@, b@),
        decreases a@.len() - i,
    {
        assert(a@.skip(i as int).drop_first() == a@.skip(i + 1));
        assert(b@.skip(i as int).drop_first() == b@.skip(i + 1));
        i = i + 1;
    }
    proof {
        if i < a@.len() && i < b@.len() {
            assert(a@.skip(i as int)[0] == a@[i as int]);
            assert(b@.skip(i as int)[0] == b@[i as int]);
        }
    }
    if i == a.len() {
        i < b.len()
    } else if i == b.len() {
        false
    } else {
        a[i] < b[i]
    }
}

/// The strings of `v` in the order of text.
pub fn sort_strings(v: &Vec<String>) -> (r: Vec<String>)
    ensures
        string_views(r@) == string_views(v@).sort_by(lex_order()),
{
    let ghost leq = lex_order();
    proof {
        lemma_lex_total_ordering();
    }
    let mut out: Vec<String> = Vec::new();
    let mut keys: Vec<Vec<char>> = Vec::new();
    for i in 0..v.len()
        invariant
            leq == lex_order(),
            total_ordering(leq),
            keys@.len() == out@.len(),
            forall|k: int| 0 <= k < keys@.len() ==> #[trigger] keys@[k]@ == out@[k]@,
            sorted_by(string_views(out@), leq),
            string_views(out@).to_multiset() == string_views(v@.take(i as int)).to_multiset(),
    {
        let x = v[i].clone();
        let xk = chars_of(x.as_str());
        let mut p: usize = 0;
        while p < out.len() && !lex_less(&xk, &keys[p])
            invariant
                p <= out@.len(),
                keys@.len() == out@.len(),
                forall|k: int| 0 <= k < keys@.len() ==> #[trigger] keys@[k]@ == out@[k]@,
                forall|k: int| 0 <= k < p ==> !lex_lt(xk@, #[trigger] out@[k]@),
            decreases out@.len() - p,
        {
            p = p + 1;
        }
        let ghost before = string_views(out@);
        let ghost xv = x@;
        proof {
            assert(xk@ == xv);
            if p < out@.len() {
                assert(lex_lt(xv, before[p as int]));
            }
            assert forall|k: int| 0 <= k < p implies #[trigger] leq(before[k], xv) by {
                assert(before[k] == out@[k]@);
            }
            assert forall|k: int| p <= k < before.len() implies #[trigger] leq(xv, before[k]) by {
                lemma_lt_trichotomy(xv, before[p as int]);
                assert(leq(xv, before[p as int]) == lex_le(xv, before[p as int]));
                assert(leq(xv, before[p as int]));
                if k > p {
                    assert(leq(before[p as int], before[k]));
                    assert(vstd::relations::transitive(leq));
                }
            }
        }
        out.insert(p, x);
        keys.insert(p, xk);
        proof {
            assert(string_views(out@) =~= before.insert(p as int, xv));
            vstd::seq_lib::to_multiset_insert(before, p as int, xv);
            assert(v@.take(i + 1) == v@.take(i as int).push(v@[i as int]));
            assert(string_views(v@.take(i + 1)) =~= string_views(v@.take(i as int)).push(xv));
            vstd::seq_lib::to_multiset_build(string_views(v@.take(i as int)), xv);
            let after = string_views(out@);
            assert forall|a: int, b: int| 0 <= a < b < after.len() implies #[trigger] leq(after[a], after[b]) by {
                if a < p && b < p {
                } else if a < p && b == p {
                } else if a < p && b > p {
                    assert(leq(before[a], xv));
                    assert(leq(xv, before[b - 1]));
                } else if a == p {
                } else {
                    assert(leq(before[a - 1], before[b - 1]));
                }
            }
        }
    }
    proof {
        assert(v@.take(v@.len() as int) == v@);
        string_views(v@).lemma_sort_by_ensures(leq);
        vstd::seq_lib::lemma_sorted_unique(string_views(out@), string_views(v@).sort_by(leq), leq);
    }
    out
}

} // verus!
