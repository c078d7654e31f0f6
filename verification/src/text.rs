//! Token counting and truncation of text, and the line and whitespace
//! operations they rest on.
use vstd::prelude::*;
use vstd::utf8::{encode_utf8, encode_scalar, char_is_scalar};
use vstd::string::StringSliceAdditionalSpecFns;
use crate::strings::{chars_of, push_all, push_str_chars, string_of};

verus! {

/// Characters with the Unicode `White_Space` property, which `char::is_whitespace` tests.
pub open spec fn is_ws(c: char) -> bool {
    ||| ('\u{9}' <= c && c <= '\u{d}')
    ||| c == ' '
    ||| c == '\u{85}'
    ||| c == '\u{a0}'
    ||| c == '\u{1680}'
    ||| ('\u{2000}' <= c && c <= '\u{200a}')
    ||| c == '\u{2028}'
    ||| c == '\u{2029}'
    ||| c == '\u{202f}'
    ||| c == '\u{205f}'
    ||| c == '\u{3000}'
}

/// Whether `c` is a whitespace character.
pub fn char_is_ws(c: char) -> (r: bool)
    ensures
        r == is_ws(c),
{
    ('\u{9}' <= c && c <= '\u{d}') || c == ' ' || c == '\u{85}' || c == '\u{a0}' || c
        == '\u{1680}' || ('\u{2000}' <= c && c <= '\u{200a}') || c == '\u{2028}' || c
        == '\u{2029}' || c == '\u{202f}' || c == '\u{205f}' || c == '\u{3000}'
}

/// Position `i` of `s` starts a word: a non-whitespace character that is first
/// or follows whitespace.
pub open spec fn starts_word(s: Seq<char>, i: int) -> bool {
    0 <= i < s.len() && !is_ws(s[i]) && (i == 0 || is_ws(s[i - 1]))
}

/// The number of maximal runs of non-whitespace characters in `s`, which is the
/// number of items `str::split_whitespace` yields.
pub open spec fn word_count(s: Seq<char>) -> nat
    decreases s.len(),
{
    if s.len() == 0 {
        0
    } else {
        word_count(s.drop_last()) + if starts_word(s, s.len() - 1) {
            1nat
        } else {
            0nat
        }
    }
}

proof fn lemma_word_count_bound(s: Seq<char>)
    ensures
        word_count(s) <= s.len(),
    decreases s.len(),
{
    if s.len() > 0 {
        lemma_word_count_bound(s.drop_last());
    }
}

/// The number of words in `v`.
pub fn count_words(v: &Vec<char>) -> (r: usize)
    ensures
        r == word_count(v@),
{
    let mut n: usize = 0;
    for i in 0..v.len()
        invariant
            n == word_count(v@.take(i as int)),
            n <= i,
    {
        let starts = !char_is_ws(v[i]) && (i == 0 || char_is_ws(v[i - 1]));
        let ghost t = v@.take(i + 1);
        assert(t.drop_last() == v@.take(i as int));
        assert(starts == starts_word(t, t.len() - 1));
        if starts {
            n = n + 1;
        }
    }
    assert(v@.take(v@.len() as int) == v@);
    n
}

/// The tokenizer used for a model: every model is counted by whitespace-separated words.
pub fn get_tokenizer(model: &str) -> (r: &'static str)
    ensures
        r@ == "simple"@,
{
    let r = "simple";
    proof {
        reveal_strlit("simple");
    }
    r
}

/// The number of tokens in `text`, counted as whitespace-separated words; the
/// model does not change the count.
pub fn count_tokens(text: &str, model: &str) -> (r: usize)
    ensures
        r == word_count(text@),
{
    let v = chars_of(text);
    count_words(&v)
}

/// The number of tokens in `text`, as counted for the default model.
pub fn estimate_tokens(text: &str) -> (r: usize)
    ensures
        r == word_count(text@),
{
    count_tokens(text, "gpt-4")
}

/// `s` without one trailing carriage return.
pub open spec fn strip_cr(s: Seq<char>) -> Seq<char> {
    if s.len() > 0 && s.last() == '\r' {
        s.drop_last()
    } else {
        s
    }
}

/// The complete lines of `s` (ended by `\n`, each without a `\r` before the
/// `\n`) and the characters after the last `\n`.
pub open spec fn line_split(s: Seq<char>) -> (Seq<Seq<char>>, Seq<char>)
    decreases s.len(),
{
    if s.len() == 0 {
        (seq![], seq![])
    } else {
        let prev = line_split(s.drop_last());
        if s.last() == '\n' {
            (prev.0.push(strip_cr(prev.1)), seq![])
        } else {
            (prev.0, prev.1.push(s.last()))
        }
    }
}

/// The lines of `s` as `str::lines` yields them: split at `\n`, a `\r` just
/// before a `\n` dropped, and no empty last line after a final `\n`.
pub open spec fn lines_of(s: Seq<char>) -> Seq<Seq<char>> {
    let st = line_split(s);
    if st.1.len() > 0 {
        st.0.push(st.1)
    } else {
        st.0
    }
}

/// The character sequences that a vector of character vectors holds.
pub open spec fn views(v: Seq<Vec<char>>) -> Seq<Seq<char>> {
    v.map_values(|x: Vec<char>| x@)
}

/// The lines of `v` (see `lines_of`).
pub fn split_lines(v: &Vec<char>) -> (r: Vec<Vec<char>>)
    ensures
        views(r@) == lines_of(v@),
{
    let mut done: Vec<Vec<char>> = Vec::new();
    let mut cur: Vec<char> = Vec::new();
    for i in 0..v.len()
        invariant
            (views(done@), cur@) == line_split(v@.take(i as int)),
    {
        let c = v[i];
        let ghost t = v@.take(i + 1);
        assert(t.drop_last() == v@.take(i as int));
        if c == '\n' {
            let ghost before = cur@;
            if cur.len() > 0 && cur[cur.len() - 1] == '\r' {
                cur.pop();
            }
            assert(cur@ == strip_cr(before));
            let line = cur;
            done.push(line);
            cur = Vec::new();
            assert(views(done@) =~= line_split(t).0);
        } else {
            cur.push(c);
        }
    }
    assert(v@.take(v@.len() as int) == v@);
    if cur.len() > 0 {
        done.push(cur);
        assert(views(done@) =~= lines_of(v@));
    }
    done
}

/// The lines of `ls` joined with `\n` between them.
pub open spec fn join_lines(ls: Seq<Seq<char>>) -> Seq<char>
    decreases ls.len(),
{
    if ls.len() == 0 {
        seq![]
    } else if ls.len() == 1 {
        ls[0]
    } else {
        join_lines(ls.drop_last()) + seq!['\n'] + ls.last()
    }
}

/// The number of lines that `truncate_by_lines` keeps: counting from `k`, the
/// first prefix of lines whose joined text has at least `target` words, or all lines.
pub open spec fn lines_kept(ls: Seq<Seq<char>>, target: nat, k: nat) -> nat
    decreases ls.len() - k,
{
    if k >= ls.len() {
        ls.len()
    } else if word_count(join_lines(ls.take((k + 1) as int))) >= target {
        k + 1
    } else {
        lines_kept(ls, target, k + 1)
    }
}

/// The result of `truncate_by_lines`.
pub open spec fn spec_truncate_by_lines(text: Seq<char>, target: nat, suffix: Seq<char>) -> Seq<char> {
    let ls = lines_of(text);
    join_lines(ls.take(lines_kept(ls, target, 0) as int)) + suffix
}

/// The result of `truncate_text`.
pub open spec fn spec_truncate_text(text: Seq<char>, target: nat, suffix: Seq<char>) -> Seq<char> {
    if word_count(text) <= target {
        text
    } else {
        spec_truncate_by_lines(text, target, suffix)
    }
}

fn truncate_lines_chars(text: &Vec<char>, target: usize, suffix: &str) -> (r: Vec<char>)
    ensures
        r@ == spec_truncate_by_lines(text@, target as nat, suffix@),
{
    let ls = split_lines(text);
    let ghost l = lines_of(text@);
    let mut out: Vec<char> = Vec::new();
    let mut kept: usize = 0;
    let mut stop = false;
    let n = ls.len();
    while kept < n && !stop
        invariant
            n == ls@.len(),
            views(ls@) == l,
            kept <= n,
            out@ == join_lines(l.take(kept as int)),
            stop ==> lines_kept(l, target as nat, 0) == kept,
            !stop ==> lines_kept(l, target as nat, 0) == lines_kept(l, target as nat, kept as nat),
        decreases n - kept,
    {
        if kept > 0 {
            out.push('\n');
        }
        push_all(&mut out, &ls[kept]);
        proof {
            let t = l.take(kept + 1);
            assert(t.drop_last() == l.take(kept as int));
            assert(t.last() == ls@[kept as int]@);
            if kept == 0 {
                assert(join_lines(t) == t[0]);
                assert(out@ == t[0]);
            }
            assert(out@ == join_lines(t));
        }
        let ghost k = kept as nat;
        kept = kept + 1;
        if count_words(&out) >= target {
            stop = true;
        }
        assert(out@ == join_lines(l.take((k + 1) as int)));
        assert(lines_kept(l, target as nat, k) == if stop { kept as nat } else { lines_kept(l, target as nat, kept as nat) });
    }
    if !stop {
        assert(lines_kept(l, target as nat, kept as nat) == n);
    }
    assert(l.take(n as int) == l);
    push_str_chars(&mut out, suffix);
    out
}

/// Keeps whole lines of `text` until the kept lines hold at least
/// `target_tokens` words (or all lines are kept), then appends `suffix`.
pub fn truncate_by_lines(text: &str, target_tokens: usize, suffix: &str, model: &str) -> (r: String)
    ensures
        r@ == spec_truncate_by_lines(text@, target_tokens as nat, suffix@),
{
    let v = chars_of(text);
    let out = truncate_lines_chars(&v, target_tokens, suffix);
    string_of(&out)
}

/// `text` itself when it has at most `target_tokens` words; otherwise the
/// line-wise truncation of `truncate_by_lines`.
pub fn truncate_text(text: &str, target_tokens: usize, suffix: &str, model: &str) -> (r: String)
    ensures
        r@ == spec_truncate_text(text@, target_tokens as nat, suffix@),
{
    let v = chars_of(text);
    if count_words(&v) <= target_tokens {
        return string_of(&v);
    }
    let out = truncate_lines_chars(&v, target_tokens, suffix);
    string_of(&out)
}

/// The number of bytes in the UTF-8 encoding of `c`.
pub open spec fn char_width(c: char) -> nat {
    if (c as u32) < 0x80 {
        1
    } else if (c as u32) < 0x800 {
        2
    } else if (c as u32) < 0x10000 {
        3
    } else {
        4
    }
}

/// The number of bytes in the UTF-8 encoding of `s`.
pub open spec fn byte_len(s: Seq<char>) -> nat
    decreases s.len(),
{
    if s.len() == 0 {
        0
    } else {
        byte_len(s.drop_last()) + char_width(s.last())
    }
}

/// Byte offset `n` falls between two characters of `s` (or at either end).
pub open spec fn is_boundary(s: Seq<char>, n: int) -> bool {
    exists|k: int| 0 <= k <= s.len() && byte_len(s.take(k)) == n
}

/// The number of characters of `s` whose encoding takes the first `n` bytes.
pub open spec fn chars_in_bytes(s: Seq<char>, n: int) -> int {
    choose|k: int| 0 <= k <= s.len() && byte_len(s.take(k)) == n
}

/// Counting down from `k`, the first length whose prefix of `s` has at most
/// `target` words (or 0).
pub open spec fn back_off(s: Seq<char>, target: nat, k: nat) -> nat
    decreases k,
{
    if k == 0 || word_count(s.take(k as int)) <= target {
        k
    } else {
        back_off(s, target, (k - 1) as nat)
    }
}

/// The result of `truncate_by_chars`.
pub open spec fn spec_truncate_by_chars(text: Seq<char>, target: nat, suffix: Seq<char>) -> Seq<char> {
    if byte_len(text) <= 4 * target {
        text
    } else {
        text.take(back_off(text, target, chars_in_bytes(text, (4 * target) as int) as nat) as int) + suffix
    }
}

proof fn lemma_byte_len_append(a: Seq<char>, b: Seq<char>)
    ensures
        byte_len(a + b) == byte_len(a) + byte_len(b),
    decreases b.len(),
{
    if b.len() > 0 {
        assert((a + b).drop_last() == a + b.drop_last());
        lemma_byte_len_append(a, b.drop_last());
    } else {
        assert(a + b == a);
    }
}

/// `byte_len` is the length of the UTF-8 encoding, which `str::len` returns.
pub proof fn lemma_byte_len_is_utf8_len(s: Seq<char>)
    ensures
        byte_len(s) == encode_utf8(s).len(),
    decreases s.len(),
{
    if s.len() > 0 {
        lemma_byte_len_is_utf8_len(s.drop_first());
        assert(s == seq![s[0]] + s.drop_first());
        lemma_byte_len_append(seq![s[0]], s.drop_first());
        assert(seq![s[0]].drop_last() == Seq::<char>::empty());
        assert(byte_len(Seq::<char>::empty()) == 0);
        assert(seq![s[0]].last() == s[0]);
        assert(byte_len(seq![s[0]]) == char_width(s[0]));
        let u = s[0] as u32;
        char_is_scalar(s[0]);
        assert(vstd::utf8::is_scalar(u));
        assert(encode_scalar(u).len() == char_width(s[0]));
        assert(encode_utf8(s) == encode_scalar(u) + encode_utf8(s.drop_first()));
    }
}

proof fn lemma_byte_len_take_step(s: Seq<char>, k: int)
    requires
        0 <= k < s.len(),
    ensures
        byte_len(s.take(k + 1)) == byte_len(s.take(k)) + char_width(s[k]),
{
    assert(s.take(k + 1).drop_last() == s.take(k));
}

proof fn lemma_byte_len_take_mono(s: Seq<char>, j: int, k: int)
    requires
        0 <= j < k <= s.len(),
    ensures
        byte_len(s.take(j)) < byte_len(s.take(k)),
    decreases k - j,
{
    lemma_byte_len_take_step(s, k - 1);
    if j < k - 1 {
        lemma_byte_len_take_mono(s, j, k - 1);
    }
}

/// The number of bytes in the UTF-8 encoding of `c`.
fn char_width_exec(c: char) -> (r: usize)
    ensures
        r == char_width(c),
{
    let u = c as u32;
    if u < 0x80 {
        1
    } else if u < 0x800 {
        2
    } else if u < 0x10000 {
        3
    } else {
        4
    }
}

/// The number of leading characters of `v` whose encoding takes exactly `n` bytes.
pub(crate) fn boundary_index(v: &Vec<char>, n: usize) -> (r: usize)
    requires
        is_boundary(v@, n as int),
        n <= byte_len(v@),
        byte_len(v@) <= usize::MAX,
    ensures
        r == chars_in_bytes(v@, n as int),
        r <= v@.len(),
{
    let mut i: usize = 0;
    let mut bytes: usize = 0;
    while bytes < n
        invariant
            i <= v@.len(),
            bytes == byte_len(v@.take(i as int)),
            is_boundary(v@, n as int),
            n <= byte_len(v@),
            byte_len(v@) <= usize::MAX,
            bytes <= n,
        decreases n - bytes,
    {
        if i == v.len() {
            assert(v@.take(i as int) == v@);
            assert(false);
        }
        proof {
            lemma_byte_len_take_step(v@, i as int);
            if i + 1 < v@.len() {
                lemma_byte_len_take_mono(v@, i + 1, v@.len() as int);
            }
            assert(v@.take(v@.len() as int) == v@);
        }
        bytes = bytes + char_width_exec(v[i]);
        i = i + 1;
        proof {
            if bytes > n {
                let k = choose|k: int| 0 <= k <= v@.len() && byte_len(v@.take(k)) == n;
                if k < i {
                    if k < i - 1 {
                        lemma_byte_len_take_mono(v@, k, i - 1);
                    }
                } else if k > i {
                    lemma_byte_len_take_mono(v@, i as int, k);
                }
                assert(false);
            }
        }
    }
    proof {
        let k = chars_in_bytes(v@, n as int);
        if k < i {
            lemma_byte_len_take_mono(v@, k, i as int);
        } else if k > i {
            lemma_byte_len_take_mono(v@, i as int, k);
        }
    }
    i
}

/// Cuts `text` to its first `4 * target_tokens` bytes, drops characters from the
/// end while the rest has more than `target_tokens` words, and appends `suffix`;
/// `text` itself when it is no longer than that.
pub fn truncate_by_chars(text: &str, target_tokens: usize, suffix: &str, model: &str) -> (r: String)
    requires
        target_tokens * 4 <= usize::MAX,
        byte_len(text@) <= usize::MAX,
        byte_len(text@) <= 4 * target_tokens || is_boundary(text@, (4 * target_tokens) as int),
    ensures
        r@ == spec_truncate_by_chars(text@, target_tokens as nat, suffix@),
{
    let approx_chars = target_tokens * 4;
    proof {
        lemma_byte_len_is_utf8_len(text@);
    }
    let v = chars_of(text);
    assert(text.spec_bytes() == encode_utf8(text@));
    if text.len() <= approx_chars {
        return string_of(&v);
    }
    let k0 = boundary_index(&v, approx_chars);
    let mut s: Vec<char> = Vec::new();
    for i in 0..k0
        invariant
            k0 <= v@.len(),
            s@ == v@.take(i as int),
    {
        s.push(v[i]);
        assert(v@.take(i + 1) == v@.take(i as int).push(v@[i as int]));
    }
    while s.len() > 0 && count_words(&s) > target_tokens
        invariant
            s@.len() <= k0,
            k0 <= v@.len(),
            s@ == v@.take(s@.len() as int),
            back_off(v@, target_tokens as nat, k0 as nat) == back_off(v@, target_tokens as nat, s@.len() as nat),
        decreases s@.len(),
    {
        let ghost before = s@;
        assert(before == v@.take(before.len() as int));
        s.pop();
        assert(s@ == before.subrange(0, before.len() - 1));
        assert(s@ =~= v@.take(s@.len() as int));
    }
    push_str_chars(&mut s, suffix);
    string_of(&s)
}

/// `s` without trailing whitespace (`str::trim_end`).
pub open spec fn trim_end(s: Seq<char>) -> Seq<char>
    decreases s.len(),
{
    if s.len() > 0 && is_ws(s.last()) {
        trim_end(s.drop_last())
    } else {
        s
    }
}

/// `s` without leading whitespace (`str::trim_start`).
pub open spec fn trim_start(s: Seq<char>) -> Seq<char>
    decreases s.len(),
{
    if s.len() > 0 && is_ws(s[0]) {
        trim_start(s.drop_first())
    } else {
        s
    }
}

/// `s` without leading and trailing whitespace (`str::trim`).
pub open spec fn trim(s: Seq<char>) -> Seq<char> {
    trim_start(trim_end(s))
}

/// `s` without any trailing carriage returns (`str::trim_end_matches('\r')`).
pub open spec fn trim_end_cr(s: Seq<char>) -> Seq<char>
    decreases s.len(),
{
    if s.len() > 0 && s.last() == '\r' {
        trim_end_cr(s.drop_last())
    } else {
        s
    }
}

/// The first `n` characters of `v`.
pub fn take_chars(v: &Vec<char>, n: usize) -> (r: Vec<char>)
    requires
        n <= v@.len(),
    ensures
        r@ == v@.take(n as int),
{
    let mut out: Vec<char> = Vec::new();
    for i in 0..n
        invariant
            n <= v@.len(),
            out@ == v@.take(i as int),
    {
        out.push(v[i]);
        assert(v@.take(i + 1) == v@.take(i as int).push(v@[i as int]));
    }
    out
}

/// The characters of `v` from position `n` on.
pub fn skip_chars(v: &Vec<char>, n: usize) -> (r: Vec<char>)
    requires
        n <= v@.len(),
    ensures
        r@ == v@.skip(n as int),
{
    let mut out: Vec<char> = Vec::new();
    let len = v.len();
    for i in n..len
        invariant
            n <= len,
            len == v@.len(),
            out@ == v@.subrange(n as int, i as int),
    {
        out.push(v[i]);
        assert(v@.subrange(n as int, i + 1) == v@.subrange(n as int, i as int).push(v@[i as int]));
    }
    assert(v@.subrange(n as int, len as int) == v@.skip(n as int));
    out
}

/// `v` without trailing whitespace.
pub fn trim_end_chars(v: &Vec<char>) -> (r: Vec<char>)
    ensures
        r@ == trim_end(v@),
{
    let mut e = v.len();
    assert(v@.take(v@.len() as int) == v@);
    while e > 0 && char_is_ws(v[e - 1])
        invariant
            e <= v@.len(),
            trim_end(v@.take(e as int)) == trim_end(v@),
        decreases e,
    {
        assert(v@.take(e as int).drop_last() == v@.take(e - 1));
        e = e - 1;
    }
    assert(v@.take(v@.len() as int) == v@);
    take_chars(v, e)
}

/// `v` without leading whitespace.
pub fn trim_start_chars(v: &Vec<char>) -> (r: Vec<char>)
    ensures
        r@ == trim_start(v@),
{
    let mut b: usize = 0;
    assert(v@.skip(0) == v@);
    while b < v.len() && char_is_ws(v[b])
        invariant
            b <= v@.len(),
            trim_start(v@.skip(b as int)) == trim_start(v@),
        decreases v@.len() - b,
    {
        assert(v@.skip(b as int).drop_first() == v@.skip(b + 1));
        b = b + 1;
    }
    assert(v@.skip(0) == v@);
    skip_chars(v, b)
}

/// `v` without leading and trailing whitespace.
pub fn trim_chars(v: &Vec<char>) -> (r: Vec<char>)
    ensures
        r@ == trim(v@),
{
    let e = trim_end_chars(v);
    trim_start_chars(&e)
}

/// `v` without its trailing carriage returns.
pub fn trim_end_cr_chars(v: &Vec<char>) -> (r: Vec<char>)
    ensures
        r@ == trim_end_cr(v@),
{
    let mut e = v.len();
    assert(v@.take(v@.len() as int) == v@);
    while e > 0 && v[e - 1] == '\r'
        invariant
            e <= v@.len(),
            trim_end_cr(v@.take(e as int)) == trim_end_cr(v@),
        decreases e,
    {
        assert(v@.take(e as int).drop_last() == v@.take(e - 1));
        e = e - 1;
    }
    assert(v@.take(v@.len() as int) == v@);
    take_chars(v, e)
}

/// A text within the budget comes back as it is; a text over it comes back
/// cut, with the marker `suffix` at its end. The same holds of cutting by
/// characters, with a budget of four bytes per token.
pub proof fn law_truncation_keeps_or_marks(text: Seq<char>, target: nat, suffix: Seq<char>)
    ensures
        word_count(text) <= target ==> spec_truncate_text(text, target, suffix) == text,
        word_count(text) > target ==> spec_truncate_text(text, target, suffix).len() >= suffix.len()
            && spec_truncate_text(text, target, suffix).skip(spec_truncate_text(text, target, suffix).len() - suffix.len())
            == suffix,
        byte_len(text) <= 4 * target ==> spec_truncate_by_chars(text, target, suffix) == text,
        byte_len(text) > 4 * target ==> spec_truncate_by_chars(text, target, suffix).len() >= suffix.len()
            && spec_truncate_by_chars(text, target, suffix).skip(spec_truncate_by_chars(text, target, suffix).len() - suffix.len())
            == suffix,
{
    if word_count(text) > target {
        let t = spec_truncate_text(text, target, suffix);
        let ls = lines_of(text);
        let head = join_lines(ls.take(lines_kept(ls, target, 0) as int));
        assert(t == head + suffix);
        assert(t.skip(t.len() - suffix.len()) =~= suffix);
    }
    if byte_len(text) > 4 * target {
        let t = spec_truncate_by_chars(text, target, suffix);
        let head = text.take(back_off(text, target, chars_in_bytes(text, (4 * target) as int) as nat) as int);
        assert(t == head + suffix);
        assert(t.skip(t.len() - suffix.len()) =~= suffix);
    }
}

} // verus!
