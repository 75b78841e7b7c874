//! Orders, filters and searches over index sequences: the spec side of every
//! list the board derives (columns, page rows, search results).

use vstd::prelude::*;

verus! {

/// Every earlier element of `s` is `lt` every later one.
pub open spec fn sorted_by(s: Seq<usize>, lt: spec_fn(usize, usize) -> bool) -> bool {
    forall|a: int, b: int| 0 <= a < b < s.len() ==> #[trigger] lt(s[a], s[b])
}

/// `lt` is irreflexive and transitive.
pub open spec fn strict_order(lt: spec_fn(usize, usize) -> bool) -> bool {
    &&& forall|x: usize| !#[trigger] lt(x, x)
    &&& forall|x: usize, y: usize, z: usize| #[trigger] lt(x, y) && #[trigger] lt(y, z) ==> lt(x, z)
}

/// `s` and `t` hold the same elements.
pub open spec fn same_elements(s: Seq<usize>, t: Seq<usize>) -> bool {
    forall|x: usize| s.contains(x) <==> t.contains(x)
}

/// Two sequences sorted by the same strict order, with the same elements,
/// are equal: a strictly sorted listing of a set is unique.
pub proof fn lemma_sorted_unique(s: Seq<usize>, t: Seq<usize>, lt: spec_fn(usize, usize) -> bool)
    requires
        strict_order(lt),
        sorted_by(s, lt),
        sorted_by(t, lt),
        same_elements(s, t),
    ensures
        s == t,
    decreases s.len(),
{
    if s.len() == 0 {
        if t.len() > 0 {
            assert(t.contains(t[0]));
        }
        assert(s =~= t);
    } else {
        assert(s.contains(s[0]));
        assert(t.len() > 0);
        let a = s[0];
        let b = t[0];
        assert(t.contains(a));
        assert(s.contains(b));
        if a != b {
            let k = choose|k: int| 0 <= k < t.len() && t[k] == a;
            let m = choose|m: int| 0 <= m < s.len() && s[m] == b;
            assert(k > 0);
            assert(m > 0);
            assert(lt(t[0], t[k]));
            assert(lt(s[0], s[m]));
            assert(lt(a, a));
        }
        let s2 = s.drop_first();
        let t2 = t.drop_first();
        assert forall|x: usize| s2.contains(x) <==> t2.contains(x) by {
            if s2.contains(x) {
                let i = choose|i: int| 0 <= i < s2.len() && s2[i] == x;
                assert(s[i + 1] == x);
                assert(lt(s[0], s[i + 1]));
                assert(x != a);
                assert(s.contains(x));
                assert(t.contains(x));
                let j = choose|j: int| 0 <= j < t.len() && t[j] == x;
                assert(j != 0);
                assert(t2[j - 1] == x);
            }
            if t2.contains(x) {
                let i = choose|i: int| 0 <= i < t2.len() && t2[i] == x;
                assert(t[i + 1] == x);
                assert(lt(t[0], t[i + 1]));
                assert(x != b);
                assert(t.contains(x));
                assert(s.contains(x));
                let j = choose|j: int| 0 <= j < s.len() && s[j] == x;
                assert(j != 0);
                assert(s2[j - 1] == x);
            }
        }
        assert forall|p: int, q: int| 0 <= p < q < s2.len() implies #[trigger] lt(s2[p], s2[q]) by {
            assert(lt(s[p + 1], s[q + 1]));
        }
        assert forall|p: int, q: int| 0 <= p < q < t2.len() implies #[trigger] lt(t2[p], t2[q]) by {
            assert(lt(t[p + 1], t[q + 1]));
        }
        lemma_sorted_unique(s2, t2, lt);
        assert(s =~= seq![a] + s2);
        assert(t =~= seq![a] + t2);
    }
}

/// The indices `0..n` that satisfy `p`, ascending.
pub open spec fn filter_upto(n: nat, p: spec_fn(int) -> bool) -> Seq<usize>
    decreases n,
{
    if n == 0 {
        Seq::empty()
    } else {
        let s = filter_upto((n - 1) as nat, p);
        if p(n - 1) {
            s.push((n - 1) as usize)
        } else {
            s
        }
    }
}

pub proof fn lemma_filter_upto(n: nat, p: spec_fn(int) -> bool)
    requires
        n <= usize::MAX,
    ensures
        forall|k: int|
            0 <= k < filter_upto(n, p).len() ==> (filter_upto(n, p)[k] as int) < n && p(
                #[trigger] filter_upto(n, p)[k] as int,
            ),
        forall|i: int| 0 <= i < n && #[trigger] p(i) ==> filter_upto(n, p).contains(i as usize),
        forall|a: int, b: int|
            0 <= a < b < filter_upto(n, p).len() ==> filter_upto(n, p)[a] < filter_upto(n, p)[b],
        filter_upto(n, p).len() <= n,
    decreases n,
{
    if n > 0 {
        lemma_filter_upto((n - 1) as nat, p);
        let s = filter_upto((n - 1) as nat, p);
        if p(n - 1) {
            let t = s.push((n - 1) as usize);
            assert forall|i: int| 0 <= i < n && #[trigger] p(i) implies t.contains(i as usize) by {
                if i < n - 1 {
                    let k = choose|k: int| 0 <= k < s.len() && s[k] == i as usize;
                    assert(t[k] == i as usize);
                } else {
                    assert(t[s.len() as int] == i as usize);
                }
            }
        }
    }
}

/// The first `k` in `lo..hi` with `p(k)`.
pub open spec fn first_from(lo: int, hi: int, p: spec_fn(int) -> bool) -> Option<int>
    decreases hi - lo,
{
    if lo >= hi {
        None
    } else if p(lo) {
        Some(lo)
    } else {
        first_from(lo + 1, hi, p)
    }
}

pub proof fn lemma_first_from_found(lo: int, k: int, hi: int, p: spec_fn(int) -> bool)
    requires
        lo <= k < hi,
        p(k),
        forall|j: int| lo <= j < k ==> !#[trigger] p(j),
    ensures
        first_from(lo, hi, p) == Some(k),
    decreases k - lo,
{
    if lo < k {
        lemma_first_from_found(lo + 1, k, hi, p);
    }
}

pub proof fn lemma_first_from_none(lo: int, hi: int, p: spec_fn(int) -> bool)
    requires
        forall|j: int| lo <= j < hi ==> !#[trigger] p(j),
    ensures
        first_from(lo, hi, p) is None,
    decreases hi - lo,
{
    if lo < hi {
        lemma_first_from_none(lo + 1, hi, p);
    }
}

pub proof fn lemma_first_from_props(lo: int, hi: int, p: spec_fn(int) -> bool)
    ensures
        first_from(lo, hi, p) matches Some(k) ==> lo <= k < hi && p(k) && forall|j: int|
            lo <= j < k ==> !#[trigger] p(j),
        first_from(lo, hi, p) is None ==> forall|j: int| lo <= j < hi ==> !#[trigger] p(j),
    decreases hi - lo,
{
    if lo < hi {
        lemma_first_from_props(lo + 1, hi, p);
    }
}

/// The last `k` below `hi` (and at least 0) with `p(k)`.
pub open spec fn last_below(hi: int, p: spec_fn(int) -> bool) -> Option<int>
    decreases hi,
{
    if hi <= 0 {
        None
    } else if p(hi - 1) {
        Some(hi - 1)
    } else {
        last_below(hi - 1, p)
    }
}

} // verus!
