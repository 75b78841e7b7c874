//! Line-level text handling for the editor buffers: splitting into lines
//! (`\n` or `\r\n` endings, the last ending optional), trimming Unicode
//! whitespace, and joining lines back.

use vstd::prelude::*;

use crate::text::{
    char_is_ws, chars_of, is_whitespace, lemma_ws_prefix_len_bound, lemma_ws_prefix_len_exact,
    lemma_ws_suffix_len_bound, lemma_ws_suffix_len_exact, ws_prefix_len, ws_suffix_len,
};

verus! {

/// Index of the first `c` in `t`, or `t.len()` when there is none.
pub open spec fn index_of(t: Seq<char>, c: char) -> nat
    decreases t.len(),
{
    if t.len() == 0 {
        0
    } else if t[0] == c {
        0
    } else {
        1 + index_of(t.drop_first(), c)
    }
}

/// A line with its `\r` (of a `\r\n` ending) removed.
pub open spec fn strip_cr(x: Seq<char>) -> Seq<char> {
    if x.len() > 0 && x.last() == '\r' {
        x.drop_last()
    } else {
        x
    }
}

/// The lines of `t`: split at `\n`, a `\r` before the `\n` dropped, no
/// empty last line after a final `\n`.
pub open spec fn text_lines(t: Seq<char>) -> Seq<Seq<char>>
    decreases t.len(),
{
    if t.len() == 0 {
        Seq::empty()
    } else {
        let i = index_of(t, '\n');
        if i >= t.len() {
            seq![t]
        } else {
            seq![strip_cr(t.take(i as int))] + text_lines(t.skip(i + 1 as int))
        }
    }
}

/// `s` without leading and trailing whitespace.
pub open spec fn trim(s: Seq<char>) -> Seq<char> {
    let t = s.skip(ws_prefix_len(s));
    t.take(t.len() - ws_suffix_len(t))
}

/// The lines, each followed by `\n`.
pub open spec fn terminated(ls: Seq<Seq<char>>) -> Seq<char>
    decreases ls.len(),
{
    if ls.len() == 0 {
        Seq::empty()
    } else {
        terminated(ls.drop_last()) + ls.last() + seq!['\n']
    }
}

/// The lines joined with `\n` between them.
pub open spec fn joined(ls: Seq<Seq<char>>) -> Seq<char>
    decreases ls.len(),
{
    if ls.len() == 0 {
        Seq::empty()
    } else if ls.len() == 1 {
        ls[0]
    } else {
        joined(ls.drop_last()) + seq!['\n'] + ls.last()
    }
}

pub proof fn lemma_index_of_at(t: Seq<char>, c: char, k: int)
    requires
        0 <= k <= t.len(),
        forall|j: int| 0 <= j < k ==> t[j] != c,
        k == t.len() || t[k] == c,
    ensures
        index_of(t, c) == k,
    decreases k,
{
    if k > 0 {
        lemma_index_of_at(t.drop_first(), c, k - 1);
    }
}

pub proof fn lemma_index_of_bound(t: Seq<char>, c: char)
    ensures
        index_of(t, c) <= t.len(),
        index_of(t, c) < t.len() ==> t[index_of(t, c) as int] == c,
        forall|j: int| 0 <= j < index_of(t, c) ==> t[j] != c,
    decreases t.len(),
{
    if t.len() > 0 && t[0] != c {
        lemma_index_of_bound(t.drop_first(), c);
        assert forall|j: int| 0 <= j < index_of(t, c) implies t[j] != c by {
            if j > 0 {
                assert(t[j] == t.drop_first()[j - 1]);
            }
        }
    }
}

/// The lines of `s` from position `start` on, when `s[start..i]` holds no
/// line break and `s[i]` ends the line.
proof fn lemma_lines_step(s: Seq<char>, start: int, i: int)
    requires
        0 <= start <= i < s.len(),
        forall|j: int| start <= j < i ==> s[j] != '\n',
        s[i] == '\n',
    ensures
        text_lines(s.skip(start)) == seq![strip_cr(s.subrange(start, i))] + text_lines(
            s.skip(i + 1),
        ),
{
    let t = s.skip(start);
    lemma_index_of_at(t, '\n', i - start);
    assert(t.take(i - start) =~= s.subrange(start, i));
    assert(t.skip(i - start + 1) =~= s.skip(i + 1));
}

/// The last line: no break from `start` to the end.
proof fn lemma_lines_tail(s: Seq<char>, start: int)
    requires
        0 <= start <= s.len(),
        forall|j: int| start <= j < s.len() ==> s[j] != '\n',
    ensures
        text_lines(s.skip(start)) == (if start == s.len() {
            Seq::<Seq<char>>::empty()
        } else {
            seq![s.skip(start)]
        }),
{
    let t = s.skip(start);
    lemma_index_of_at(t, '\n', t.len() as int);
}

/// The characters `v[lo..hi]`.
pub fn slice_chars(v: &Vec<char>, lo: usize, hi: usize) -> (r: Vec<char>)
    requires
        lo <= hi <= v@.len(),
    ensures
        r@ == v@.subrange(lo as int, hi as int),
{
    let mut out: Vec<char> = Vec::new();
    let mut k = lo;
    while k < hi
        invariant
            lo <= k <= hi <= v@.len(),
            out@ == v@.subrange(lo as int, k as int),
        decreases hi - k,
    {
        out.push(v[k]);
        proof {
            assert(out@ =~= v@.subrange(lo as int, k + 1));
        }
        k = k + 1;
    }
    out
}

/// Whether two character lists are equal.
pub fn chars_eq(a: &Vec<char>, b: &Vec<char>) -> (r: bool)
    ensures
        r == (a@ == b@),
{
    if a.len() != b.len() {
        return false;
    }
    let mut k: usize = 0;
    while k < a.len()
        invariant
            k <= a@.len(),
            a@.len() == b@.len(),
            forall|j: int| 0 <= j < k ==> a@[j] == b@[j],
        decreases a.len() - k,
    {
        if a[k] != b[k] {
            return false;
        }
        k = k + 1;
    }
    proof {
        assert(a@ =~= b@);
    }
    true
}

/// Appends the characters of `s`.
pub fn push_str(v: &mut Vec<char>, s: &str)
    ensures
        final(v)@ == old(v)@ + s@,
{
    let cs = chars_of(s);
    let ghost start = v@;
    for k in 0..cs.len()
        invariant
            v@ == start + cs@.take(k as int),
    {
        v.push(cs[k]);
        proof {
            assert(cs@.take(k + 1) =~= cs@.take(k as int).push(cs@[k as int]));
        }
    }
    proof {
        assert(cs@.take(cs@.len() as int) =~= cs@);
    }
}

/// Appends the characters of `s`.
pub fn push_chars(v: &mut Vec<char>, s: &Vec<char>)
    ensures
        final(v)@ == old(v)@ + s@,
{
    let ghost start = v@;
    for k in 0..s.len()
        invariant
            v@ == start + s@.take(k as int),
    {
        v.push(s[k]);
        proof {
            assert(s@.take(k + 1) =~= s@.take(k as int).push(s@[k as int]));
        }
    }
    proof {
        assert(s@.take(s@.len() as int) =~= s@);
    }
}

/// `s` without leading and trailing whitespace (`str::trim`).
pub fn trim_chars(s: &Vec<char>) -> (r: Vec<char>)
    ensures
        r@ == trim(s@),
{
    let n = s.len();
    let mut a: usize = 0;
    while a < n && is_whitespace(s[a])
        invariant
            a <= n == s@.len(),
            forall|j: int| 0 <= j < a ==> char_is_ws(#[trigger] s@[j]),
        decreases n - a,
    {
        a = a + 1;
    }
    proof {
        lemma_ws_prefix_len_exact(s@, a as int);
    }
    let mut b: usize = n;
    while b > a && is_whitespace(s[b - 1])
        invariant
            a <= b <= n == s@.len(),
            forall|j: int| b <= j < n ==> char_is_ws(#[trigger] s@[j]),
        decreases b - a,
    {
        b = b - 1;
    }
    proof {
        let t = s@.skip(a as int);
        assert forall|j: int| t.len() - (n - b) <= j < t.len() implies char_is_ws(#[trigger] t[j]) by {
            assert(t[j] == s@[j + a]);
        }
        if b > a {
            assert(t[t.len() - (n - b) - 1] == s@[b - 1]);
        }
        lemma_ws_suffix_len_exact(t, (n - b) as int);
        assert(t.take(t.len() - ws_suffix_len(t)) =~= s@.subrange(a as int, b as int));
    }
    slice_chars(s, a, b)
}

/// The lines of `s` (see [`text_lines`]).
pub fn lines_of(s: &Vec<char>) -> (r: Vec<Vec<char>>)
    ensures
        r@.map_values(|l: Vec<char>| l@) == text_lines(s@),
{
    let n = s.len();
    let mut out: Vec<Vec<char>> = Vec::new();
    let mut start: usize = 0;
    let mut i: usize = 0;
    proof {
        assert(s@.skip(0) =~= s@);
        assert(out@.map_values(|l: Vec<char>| l@) =~= Seq::<Seq<char>>::empty());
    }
    while i < n
        invariant
            start <= i <= n == s@.len(),
            forall|j: int| start <= j < i ==> s@[j] != '\n',
            text_lines(s@) == out@.map_values(|l: Vec<char>| l@) + text_lines(s@.skip(start as int)),
        decreases n - i,
    {
        if s[i] == '\n' {
            proof {
                lemma_lines_step(s@, start as int, i as int);
            }
            let mut hi = i;
            if hi > start && s[hi - 1] == '\r' {
                hi = hi - 1;
            }
            let line = slice_chars(s, start, hi);
            proof {
                assert(line@ =~= strip_cr(s@.subrange(start as int, i as int)));
            }
            let ghost before = out@.map_values(|l: Vec<char>| l@);
            out.push(line);
            proof {
                assert(out@.map_values(|l: Vec<char>| l@) =~= before.push(line@));
                assert(before + (seq![line@] + text_lines(s@.skip(i + 1))) =~= before.push(line@)
                    + text_lines(s@.skip(i + 1)));
            }
            start = i + 1;
        }
        i = i + 1;
    }
    proof {
        lemma_lines_tail(s@, start as int);
    }
    if start < n {
        let line = slice_chars(s, start, n);
        let ghost before = out@.map_values(|l: Vec<char>| l@);
        out.push(line);
        proof {
            assert(line@ =~= s@.skip(start as int));
            assert(out@.map_values(|l: Vec<char>| l@) =~= before.push(line@));
            assert(before + seq![line@] =~= before.push(line@));
        }
    } else {
        proof {
            assert(out@.map_values(|l: Vec<char>| l@) + Seq::<Seq<char>>::empty()
                =~= out@.map_values(|l: Vec<char>| l@));
        }
    }
    out
}

} // verus!
