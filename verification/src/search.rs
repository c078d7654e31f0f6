//! Counting and replacing occurrences of a pattern in text, left to right and
//! without overlap, as `str::matches`, `str::replace` and `str::replacen` do.
use vstd::prelude::*;
use crate::strings::{occurs_at, occurs_at_exec, push_all, starts_with};
use crate::text::skip_chars;

verus! {

/// The number of non-overlapping occurrences of `p` in `h`, found left to right.
pub open spec fn count_matches(h: Seq<char>, p: Seq<char>) -> nat
    recommends
        p.len() > 0,
    decreases h.len(),
{
    if p.len() == 0 || h.len() < p.len() {
        0
    } else if starts_with(h, p) {
        1 + count_matches(h.skip(p.len() as int), p)
    } else {
        count_matches(h.drop_first(), p)
    }
}

/// `h` with every non-overlapping occurrence of `p` (found left to right)
/// replaced by `r`; an empty `p` matches before every character and at the end.
pub open spec fn replace_all(h: Seq<char>, p: Seq<char>, r: Seq<char>) -> Seq<char>
    decreases h.len(),
{
    if p.len() == 0 {
        if h.len() == 0 {
            r
        } else {
            r + seq![h[0]] + replace_all(h.drop_first(), p, r)
        }
    } else if h.len() < p.len() {
        h
    } else if starts_with(h, p) {
        r + replace_all(h.skip(p.len() as int), p, r)
    } else {
        seq![h[0]] + replace_all(h.drop_first(), p, r)
    }
}

/// `h` with its first occurrence of `p` replaced by `r` (`replacen(p, r, 1)`).
pub open spec fn replace_first(h: Seq<char>, p: Seq<char>, r: Seq<char>) -> Seq<char>
    decreases h.len(),
{
    if starts_with(h, p) {
        r + h.skip(p.len() as int)
    } else if h.len() == 0 {
        h
    } else {
        seq![h[0]] + replace_first(h.drop_first(), p, r)
    }
}

proof fn lemma_skip_starts(h: Seq<char>, p: Seq<char>, i: int)
    requires
        0 <= i <= h.len(),
    ensures
        starts_with(h.skip(i), p) == occurs_at(h, p, i),
        h.skip(i).len() == h.len() - i,
{
    if i + p.len() <= h.len() {
        assert(h.skip(i).take(p.len() as int) == h.subrange(i, i + p.len()));
    }
}

proof fn lemma_skip_skip(h: Seq<char>, i: int, k: int)
    requires
        0 <= i,
        0 <= k,
        i + k <= h.len(),
    ensures
        h.skip(i).skip(k) == h.skip(i + k),
        h.skip(i).drop_first() == h.skip(i + 1) || i + 1 > h.len(),
{
    assert(h.skip(i).skip(k) =~= h.skip(i + k));
    if i + 1 <= h.len() {
        assert(h.skip(i).drop_first() =~= h.skip(i + 1));
    }
}

/// The number of non-overlapping occurrences of `p` in `h`.
pub fn count_occurrences(h: &Vec<char>, p: &Vec<char>) -> (r: usize)
    requires
        p@.len() > 0,
    ensures
        r == count_matches(h@, p@),
{
    let hlen = h.len();
    let plen = p.len();
    let mut i: usize = 0;
    let mut n: usize = 0;
    assert(h@.skip(0) == h@);
    while i < hlen && plen <= hlen - i
        invariant
            hlen == h@.len(),
            plen == p@.len(),
            plen > 0,
            i <= hlen,
            n <= i,
            n + count_matches(h@.skip(i as int), p@) == count_matches(h@, p@),
        decreases hlen - i,
    {
        proof {
            lemma_skip_starts(h@, p@, i as int);
        }
        if occurs_at_exec(h, p, i) {
            proof {
                lemma_skip_skip(h@, i as int, plen as int);
            }
            n = n + 1;
            i = i + plen;
        } else {
            proof {
                lemma_skip_skip(h@, i as int, 1);
            }
            i = i + 1;
        }
    }
    proof {
        lemma_skip_starts(h@, p@, i as int);
    }
    n
}

/// `h` with every non-overlapping occurrence of `p` replaced by `r`.
pub fn replace_all_exec(h: &Vec<char>, p: &Vec<char>, r: &Vec<char>) -> (out: Vec<char>)
    ensures
        out@ == replace_all(h@, p@, r@),
{
    let hlen = h.len();
    let plen = p.len();
    let mut out: Vec<char> = Vec::new();
    let mut i: usize = 0;
    assert(h@.skip(0) == h@);
    if plen == 0 {
        while i < hlen
            invariant
                hlen == h@.len(),
                plen == p@.len(),
                plen == 0,
                i <= hlen,
                out@ + replace_all(h@.skip(i as int), p@, r@) == replace_all(h@, p@, r@),
            decreases hlen - i,
        {
            proof {
                lemma_skip_skip(h@, i as int, 1);
                assert(h@.skip(i as int)[0] == h@[i as int]);
            }
            push_all(&mut out, r);
            out.push(h[i]);
            i = i + 1;
            proof {
                assert(out@ + replace_all(h@.skip(i as int), p@, r@) =~= replace_all(h@, p@, r@));
            }
        }
        push_all(&mut out, r);
        proof {
            assert(h@.skip(i as int).len() == 0);
        }
        return out;
    }
    while i < hlen && plen <= hlen - i
        invariant
            hlen == h@.len(),
            plen == p@.len(),
            plen > 0,
            i <= hlen,
            out@ + replace_all(h@.skip(i as int), p@, r@) == replace_all(h@, p@, r@),
        decreases hlen - i,
    {
        proof {
            lemma_skip_starts(h@, p@, i as int);
        }
        if occurs_at_exec(h, p, i) {
            proof {
                lemma_skip_skip(h@, i as int, plen as int);
            }
            push_all(&mut out, r);
            i = i + plen;
            proof {
                assert(out@ + replace_all(h@.skip(i as int), p@, r@) =~= replace_all(h@, p@, r@));
            }
        } else {
            proof {
                lemma_skip_skip(h@, i as int, 1);
                assert(h@.skip(i as int)[0] == h@[i as int]);
            }
            out.push(h[i]);
            i = i + 1;
            proof {
                assert(out@ + replace_all(h@.skip(i as int), p@, r@) =~= replace_all(h@, p@, r@));
            }
        }
    }
    proof {
        lemma_skip_starts(h@, p@, i as int);
    }
    let rest = skip_chars(h, i);
    push_all(&mut out, &rest);
    out
}

/// `h` with its first occurrence of `p` replaced by `r`.
pub fn replace_first_exec(h: &Vec<char>, p: &Vec<char>, r: &Vec<char>) -> (out: Vec<char>)
    ensures
        out@ == replace_first(h@, p@, r@),
{
    let hlen = h.len();
    let plen = p.len();
    let mut out: Vec<char> = Vec::new();
    let mut i: usize = 0;
    assert(h@.skip(0) == h@);
    while i < hlen
        invariant
            hlen == h@.len(),
            plen == p@.len(),
            i <= hlen,
            out@ + replace_first(h@.skip(i as int), p@, r@) == replace_first(h@, p@, r@),
        decreases hlen - i,
    {
        proof {
            lemma_skip_starts(h@, p@, i as int);
        }
        if occurs_at_exec(h, p, i) {
            push_all(&mut out, r);
            let rest = skip_chars(h, i + plen);
            push_all(&mut out, &rest);
            proof {
                lemma_skip_skip(h@, i as int, plen as int);
                assert(out@ =~= replace_first(h@, p@, r@));
            }
            return out;
        }
        proof {
            lemma_skip_skip(h@, i as int, 1);
            assert(h@.skip(i as int)[0] == h@[i as int]);
        }
        out.push(h[i]);
        i = i + 1;
        proof {
            assert(out@ + replace_first(h@.skip(i as int), p@, r@) =~= replace_first(h@, p@, r@));
        }
    }
    proof {
        lemma_skip_starts(h@, p@, i as int);
        assert(h@.skip(i as int).len() == 0);
    }
    if plen == 0 {
        push_all(&mut out, r);
        proof {
            assert(h@.skip(i as int) =~= Seq::<char>::empty());
            assert(h@.skip(i as int).take(0) =~= p@);
            assert(starts_with(h@.skip(i as int), p@));
            assert(out@ =~= replace_first(h@, p@, r@));
        }
    }
    out
}

/// Replacing a pattern that does not occur leaves the text as it is.
pub proof fn law_replace_without_match(h: Seq<char>, p: Seq<char>, r: Seq<char>)
    requires
        p.len() > 0,
        count_matches(h, p) == 0,
    ensures
        replace_all(h, p, r) == h,
        replace_first(h, p, r) == h,
    decreases h.len(),
{
    if h.len() >= p.len() {
        if starts_with(h, p) {
            assert(false);
        } else {
            law_replace_without_match(h.drop_first(), p, r);
            assert(h == seq![h[0]] + h.drop_first());
        }
    } else if h.len() > 0 {
        lemma_short_unchanged(h, p, r);
    }
}

proof fn lemma_short_unchanged(h: Seq<char>, p: Seq<char>, r: Seq<char>)
    requires
        h.len() < p.len(),
    ensures
        replace_first(h, p, r) == h,
    decreases h.len(),
{
    if h.len() > 0 {
        lemma_short_unchanged(h.drop_first(), p, r);
        assert(h == seq![h[0]] + h.drop_first());
    }
}

/// With exactly one occurrence, replacing the first occurrence and replacing
/// all occurrences give the same text.
pub proof fn law_single_match_replace_agree(h: Seq<char>, p: Seq<char>, r: Seq<char>)
    requires
        p.len() > 0,
        count_matches(h, p) == 1,
    ensures
        replace_all(h, p, r) == replace_first(h, p, r),
    decreases h.len(),
{
    if h.len() >= p.len() {
        if starts_with(h, p) {
            law_replace_without_match(h.skip(p.len() as int), p, r);
        } else {
            law_single_match_replace_agree(h.drop_first(), p, r);
        }
    }
}

/// Every occurrence is replaced: when the first occurrence of `p` in
/// `a + p + b` is the one right after `a`, the text before it stays as it is,
/// that occurrence becomes `r`, and the rest is replaced in the same way.
pub proof fn law_replace_all_each_match(a: Seq<char>, p: Seq<char>, b: Seq<char>, r: Seq<char>)
    requires
        p.len() > 0,
        forall|i: int| 0 <= i < a.len() ==> !occurs_at(a + p + b, p, i),
    ensures
        replace_all(a + p + b, p, r) == a + r + replace_all(b, p, r),
    decreases a.len(),
{
    let h = a + p + b;
    if a.len() == 0 {
        assert(h =~= p + b);
        assert(h.take(p.len() as int) =~= p);
        assert(h.skip(p.len() as int) =~= b);
        assert(a + r + replace_all(b, p, r) =~= r + replace_all(b, p, r));
    } else {
        let t = a.drop_first();
        assert(!occurs_at(h, p, 0));
        assert(h.subrange(0, p.len() as int) =~= h.take(p.len() as int));
        assert(!starts_with(h, p));
        assert(h.drop_first() =~= t + p + b);
        assert forall|i: int| 0 <= i < t.len() implies !occurs_at(t + p + b, p, i) by {
            assert(!occurs_at(h, p, i + 1));
            assert((t + p + b).subrange(i, i + p.len()) =~= h.subrange(i + 1, i + 1 + p.len()));
        }
        law_replace_all_each_match(t, p, b, r);
        assert(h[0] == a[0]);
        assert(seq![a[0]] + (t + r + replace_all(b, p, r)) =~= a + r + replace_all(b, p, r));
    }
}

} // verus!
