//! Stable sorting of index lists by tuples of text keys (lexicographic,
//! component by component), as the milestone and project pages order rows.

use vstd::prelude::*;

use crate::order::{
    first_from, lemma_first_from_props, sorted_by, strict_order, same_elements, lemma_sorted_unique,
};
use crate::text::{chars_lt, lemma_chars_lt_irreflexive, lemma_chars_lt_transitive, lemma_chars_lt_total, str_lt};

verus! {

/// Lexicographic order on tuples of strings.
pub open spec fn tuple_lt(a: Seq<Seq<char>>, b: Seq<Seq<char>>) -> bool
    decreases a.len(),
{
    if a.len() == 0 || b.len() == 0 {
        false
    } else if a[0] != b[0] {
        chars_lt(a[0], b[0])
    } else {
        tuple_lt(a.drop_first(), b.drop_first())
    }
}

pub proof fn lemma_tuple_lt_irreflexive(a: Seq<Seq<char>>)
    ensures
        !tuple_lt(a, a),
    decreases a.len(),
{
    if a.len() > 0 {
        lemma_tuple_lt_irreflexive(a.drop_first());
    }
}

pub proof fn lemma_tuple_lt_transitive(a: Seq<Seq<char>>, b: Seq<Seq<char>>, c: Seq<Seq<char>>)
    requires
        tuple_lt(a, b),
        tuple_lt(b, c),
    ensures
        tuple_lt(a, c),
    decreases a.len(),
{
    if a[0] != b[0] {
        if b[0] != c[0] {
            lemma_chars_lt_transitive(a[0], b[0], c[0]);
            if a[0] == c[0] {
                lemma_chars_lt_irreflexive(a[0]);
            }
        }
    } else {
        if b[0] == c[0] {
            lemma_tuple_lt_transitive(a.drop_first(), b.drop_first(), c.drop_first());
        }
    }
}

pub proof fn lemma_tuple_lt_total(a: Seq<Seq<char>>, b: Seq<Seq<char>>)
    requires
        a.len() == b.len(),
    ensures
        a == b || tuple_lt(a, b) || tuple_lt(b, a),
    decreases a.len(),
{
    if a.len() == 0 {
        assert(a =~= b);
    } else if a[0] != b[0] {
        lemma_chars_lt_total(a[0], b[0]);
    } else {
        lemma_tuple_lt_total(a.drop_first(), b.drop_first());
        if a.drop_first() == b.drop_first() {
            assert(a =~= seq![a[0]] + a.drop_first());
            assert(b =~= seq![b[0]] + b.drop_first());
        }
    }
}

/// A stable sorted listing of strictly increasing indices exists: build it
/// by inserting each index after every smaller-or-equal key.
proof fn lemma_listing_exists(base: Seq<usize>, keys: Seq<Seq<Seq<char>>>) -> (s: Seq<usize>)
    requires
        forall|k: int| 0 <= k < base.len() ==> (#[trigger] base[k] as int) < keys.len(),
        forall|a: int, b: int| 0 <= a < b < base.len() ==> base[a] < base[b],
        forall|i: int, j: int|
            0 <= i < keys.len() && 0 <= j < keys.len() ==> #[trigger] keys[i].len() == #[trigger] keys[j].len(),
    ensures
        sorted_by(s, key_order(keys)),
        same_elements(s, base),
    decreases base.len(),
{
    if base.len() == 0 {
        Seq::empty()
    } else {
        let rest = base.drop_last();
        let x = base.last();
        let t = lemma_listing_exists(rest, keys);
        let lt = key_order(keys);
        lemma_key_order_strict(keys);
        let p = |j: int| tuple_lt(keys[x as int], keys[t[j] as int]);
        lemma_first_from_props(0, t.len() as int, p);
        let k: int = match first_from(0, t.len() as int, p) {
            Some(k) => k,
            None => t.len() as int,
        };
        assert forall|m: int| 0 <= m < t.len() implies (#[trigger] t[m]) < x && (t[m] as int) < keys.len() by {
            assert(t.contains(t[m]));
            assert(rest.contains(t[m]));
            let q = choose|q: int| 0 <= q < rest.len() && #[trigger] rest[q] == t[m];
            assert(base[q] == t[m]);
        }
        let u = t.take(k) + seq![x] + t.skip(k);
        assert forall|m: int| 0 <= m < k implies #[trigger] lt(t[m], x) by {
            assert(!p(m));
            lemma_tuple_lt_total(keys[x as int], keys[t[m] as int]);
        }
        assert forall|m: int| k <= m < t.len() implies #[trigger] lt(x, t[m]) by {
            assert(p(k));
            if m > k {
                assert(lt(t[k], t[m]));
                if tuple_lt(keys[t[k] as int], keys[t[m] as int]) {
                    lemma_tuple_lt_transitive(keys[x as int], keys[t[k] as int], keys[t[m] as int]);
                }
            }
        }
        assert forall|a: int, b: int| 0 <= a < b < u.len() implies #[trigger] lt(u[a], u[b]) by {
            if b < k {
                assert(u[a] == t[a] && u[b] == t[b]);
            } else if a > k {
                assert(u[a] == t[a - 1] && u[b] == t[b - 1]);
            } else if a == k {
                assert(u[a] == x && u[b] == t[b - 1]);
            } else if b == k {
                assert(u[a] == t[a] && u[b] == x);
            } else {
                assert(u[a] == t[a] && u[b] == t[b - 1]);
            }
        }
        assert forall|y: usize| u.contains(y) <==> base.contains(y) by {
            if u.contains(y) {
                let m = choose|m: int| 0 <= m < u.len() && u[m] == y;
                if m == k {
                    assert(base[base.len() - 1] == y);
                } else {
                    let mm = if m < k { m } else { m - 1 };
                    assert(t[mm] == y);
                    assert(t.contains(y));
                    assert(rest.contains(y));
                    let q = choose|q: int| 0 <= q < rest.len() && rest[q] == y;
                    assert(base[q] == y);
                }
            }
            if base.contains(y) {
                let q = choose|q: int| 0 <= q < base.len() && base[q] == y;
                if q == base.len() - 1 {
                    assert(u[k] == y);
                } else {
                    assert(rest[q] == y);
                    assert(rest.contains(y));
                    assert(t.contains(y));
                    let m = choose|m: int| 0 <= m < t.len() && t[m] == y;
                    if m < k {
                        assert(u[m] == y);
                    } else {
                        assert(u[m + 1] == y);
                    }
                }
            }
        }
        u
    }
}

/// The sorted listing of strictly increasing indices is sorted by key and
/// holds exactly those indices.
pub proof fn lemma_sorted_listing_props(base: Seq<usize>, keys: Seq<Seq<Seq<char>>>)
    requires
        forall|k: int| 0 <= k < base.len() ==> (#[trigger] base[k] as int) < keys.len(),
        forall|a: int, b: int| 0 <= a < b < base.len() ==> base[a] < base[b],
        forall|i: int, j: int|
            0 <= i < keys.len() && 0 <= j < keys.len() ==> #[trigger] keys[i].len() == #[trigger] keys[j].len(),
    ensures
        sorted_by(sorted_listing(base, keys), key_order(keys)),
        same_elements(sorted_listing(base, keys), base),
{
    let s = lemma_listing_exists(base, keys);
    lemma_sorted_listing(s, base, keys);
}

/// The contents of a list of strings.
pub open spec fn texts(v: Vec<String>) -> Seq<Seq<char>> {
    v@.map_values(|s: String| s@)
}

/// The contents of a list of keys.
pub open spec fn key_texts(keys: Seq<Vec<String>>) -> Seq<Seq<Seq<char>>> {
    keys.map_values(|v: Vec<String>| texts(v))
}

/// Stable order by key: smaller key first, equal keys in index order.
pub open spec fn key_order(keys: Seq<Seq<Seq<char>>>) -> spec_fn(usize, usize) -> bool {
    |i: usize, j: usize|
        tuple_lt(keys[i as int], keys[j as int]) || (keys[i as int] == keys[j as int] && i < j)
}

pub proof fn lemma_key_order_strict(keys: Seq<Seq<Seq<char>>>)
    ensures
        strict_order(key_order(keys)),
{
    let lt = key_order(keys);
    assert forall|x: usize| !#[trigger] lt(x, x) by {
        lemma_tuple_lt_irreflexive(keys[x as int]);
    }
    assert forall|x: usize, y: usize, z: usize| #[trigger] lt(x, y) && #[trigger] lt(y, z) implies lt(
        x,
        z,
    ) by {
        let (kx, ky, kz) = (keys[x as int], keys[y as int], keys[z as int]);
        if tuple_lt(kx, ky) && tuple_lt(ky, kz) {
            lemma_tuple_lt_transitive(kx, ky, kz);
        }
    }
}

/// The list `base` stably sorted by `keys` (the unique sorted listing of its
/// elements).
pub open spec fn sorted_listing(base: Seq<usize>, keys: Seq<Seq<Seq<char>>>) -> Seq<usize> {
    choose|s: Seq<usize>| sorted_by(s, key_order(keys)) && same_elements(s, base)
}

pub proof fn lemma_sorted_listing(s: Seq<usize>, base: Seq<usize>, keys: Seq<Seq<Seq<char>>>)
    requires
        sorted_by(s, key_order(keys)),
        same_elements(s, base),
    ensures
        sorted_listing(base, keys) == s,
{
    let t = sorted_listing(base, keys);
    lemma_key_order_strict(keys);
    lemma_sorted_unique(s, t, key_order(keys));
}

fn tuple_less(a: &Vec<String>, b: &Vec<String>) -> (r: bool)
    ensures
        r == tuple_lt(texts(*a), texts(*b)),
{
    let ghost ta = texts(*a);
    let ghost tb = texts(*b);
    let mut i: usize = 0;
    proof {
        assert(ta.skip(0) =~= ta);
        assert(tb.skip(0) =~= tb);
    }
    while i < a.len() && i < b.len()
        invariant
            i <= a@.len(),
            i <= b@.len(),
            ta == texts(*a),
            tb == texts(*b),
            tuple_lt(ta, tb) == tuple_lt(ta.skip(i as int), tb.skip(i as int)),
        decreases a.len() - i,
    {
        proof {
            assert(ta.skip(i as int)[0] == a@[i as int]@);
            assert(tb.skip(i as int)[0] == b@[i as int]@);
        }
        if a[i] != b[i] {
            return str_lt(a[i].as_str(), b[i].as_str());
        }
        proof {
            assert(ta.skip(i as int).drop_first() =~= ta.skip(i + 1));
            assert(tb.skip(i as int).drop_first() =~= tb.skip(i + 1));
        }
        i = i + 1;
    }
    false
}

/// `base` (strictly increasing indices into `keys`) stably sorted by key.
pub fn sort_by_keys(base: &Vec<usize>, keys: &Vec<Vec<String>>) -> (r: Vec<usize>)
    requires
        forall|k: int| 0 <= k < base@.len() ==> (#[trigger] base@[k] as int) < keys@.len(),
        forall|a: int, b: int| 0 <= a < b < base@.len() ==> base@[a] < base@[b],
        forall|i: int, j: int|
            0 <= i < keys@.len() && 0 <= j < keys@.len() ==> #[trigger] keys@[i]@.len()
                == #[trigger] keys@[j]@.len(),
    ensures
        r@ == sorted_listing(base@, key_texts(keys@)),
        sorted_by(r@, key_order(key_texts(keys@))),
        same_elements(r@, base@),
{
    let ghost kt = key_texts(keys@);
    let ghost lt = key_order(kt);
    let mut res: Vec<usize> = Vec::new();
    for p in 0..base.len()
        invariant
            kt == key_texts(keys@),
            lt == key_order(kt),
            forall|k: int| 0 <= k < base@.len() ==> (#[trigger] base@[k] as int) < keys@.len(),
            forall|a: int, b: int| 0 <= a < b < base@.len() ==> base@[a] < base@[b],
            forall|i: int, j: int|
                0 <= i < keys@.len() && 0 <= j < keys@.len() ==> #[trigger] keys@[i]@.len()
                    == #[trigger] keys@[j]@.len(),
            sorted_by(res@, lt),
            same_elements(res@, base@.take(p as int)),
    {
        let e = base[p];
        let mut k = res.len();
        proof {
            assert forall|m: int| 0 <= m < res@.len() implies (#[trigger] res@[m]) < e && (res@[m] as int) < keys@.len() by {
                assert(base@.take(p as int).contains(res@[m]));
                let q = choose|q: int| 0 <= q < p && #[trigger] base@.take(p as int)[q] == res@[m];
                assert(base@[q] < base@[p as int]);
            }
        }
        while k > 0 && tuple_less(&keys[e], &keys[res[k - 1]])
            invariant
                k <= res@.len(),
                (e as int) < keys@.len(),
                kt == key_texts(keys@),
                forall|m: int| 0 <= m < res@.len() ==> (#[trigger] res@[m]) < e && (res@[m] as int) < keys@.len(),
                forall|m: int|
                    k <= m < res@.len() ==> tuple_lt(kt[e as int], kt[#[trigger] res@[m] as int]),
            decreases k,
        {
            k = k - 1;
        }
        let ghost old_res = res@;
        res.insert(k, e);
        proof {
            lemma_key_order_strict(kt);
            if k > 0 {
                let r = old_res[k - 1];
                assert(!tuple_lt(kt[e as int], kt[r as int]));
                assert(kt[e as int].len() == keys@[e as int]@.len());
                assert(kt[r as int].len() == keys@[r as int]@.len());
                lemma_tuple_lt_total(kt[e as int], kt[r as int]);
                assert(lt(r, e));
            }
            assert forall|a: int, b: int| 0 <= a < b < res@.len() implies #[trigger] lt(res@[a], res@[b]) by {
                if b < k {
                    assert(lt(old_res[a], old_res[b]));
                } else if a > k {
                    assert(lt(old_res[a - 1], old_res[b - 1]));
                } else if a == k {
                    assert(tuple_lt(kt[e as int], kt[old_res[b - 1] as int]));
                } else {
                    if a < k - 1 {
                        assert(lt(old_res[a], old_res[k - 1]));
                    }
                }
            }
            assert(base@.take(p + 1) =~= base@.take(p as int).push(e));
            assert forall|x: usize| res@.contains(x) <==> base@.take(p + 1).contains(x) by {
                if res@.contains(x) {
                    let m = choose|m: int| 0 <= m < res@.len() && res@[m] == x;
                    if m < k {
                        assert(old_res.contains(x));
                    } else if m > k {
                        assert(old_res[m - 1] == x);
                        assert(old_res.contains(x));
                    }
                    if x != e {
                        assert(base@.take(p as int).contains(x));
                        let q = choose|q: int| 0 <= q < p && #[trigger] base@.take(p as int)[q] == x;
                        assert(base@.take(p + 1)[q] == x);
                    } else {
                        assert(base@.take(p + 1)[p as int] == x);
                    }
                }
                if base@.take(p + 1).contains(x) {
                    let q = choose|q: int| 0 <= q < p + 1 && #[trigger] base@.take(p + 1)[q] == x;
                    if q < p {
                        assert(base@.take(p as int)[q] == x);
                        assert(old_res.contains(x));
                        let m = choose|m: int| 0 <= m < old_res.len() && old_res[m] == x;
                        if m < k {
                            assert(res@[m] == x);
                        } else {
                            assert(res@[m + 1] == x);
                        }
                    } else {
                        assert(res@[k as int] == x);
                    }
                }
            }
        }
    }
    proof {
        assert(base@.take(base@.len() as int) =~= base@);
        lemma_sorted_listing(res@, base@, kt);
    }
    res
}

} // verus!
