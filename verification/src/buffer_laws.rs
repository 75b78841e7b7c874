//! What an editor buffer gives back: parsing a serialized buffer returns
//! its fields (the header, which is guidance text, is dropped), for fields
//! the format can carry exactly.

use vstd::prelude::*;

use crate::buffers::{
    IssueText, MilestoneText, ProjectText, body_part, description_of, field_value, fence_at,
    frontmatter, header_part, issue_text, milestone_text, nl, parse_issue_spec,
    parse_milestone_spec, parse_project_spec, project_text,
};
use crate::lines::{
    index_of, joined, lemma_index_of_at, lemma_index_of_bound, strip_cr, terminated, text_lines,
    trim,
};
use crate::order::{first_from, lemma_first_from_found};
use crate::text::{
    char_is_ws, lemma_ws_prefix_len_bound, lemma_ws_prefix_len_exact, lemma_ws_suffix_len_bound,
    lemma_ws_suffix_len_exact, ws_prefix_len, ws_suffix_len,
};

verus! {

/// `l` is one line: no line break, and no carriage return at its end.
pub open spec fn one_line(l: Seq<char>) -> bool {
    &&& forall|i: int| 0 <= i < l.len() ==> l[i] != '\n'
    &&& (l.len() == 0 || l.last() != '\r')
}

/// A field value the format carries exactly: a single line with no
/// surrounding whitespace.
pub open spec fn plain_field(v: Seq<char>) -> bool {
    &&& trim(v) == v
    &&& forall|i: int| 0 <= i < v.len() ==> v[i] != '\n'
}

/// A description the format carries exactly: empty, or text with no
/// surrounding whitespace and no carriage return, followed by one newline.
pub open spec fn plain_description(d: Seq<char>) -> bool {
    d.len() == 0 || {
        &&& d.last() == '\n'
        &&& d.drop_last().len() > 0
        &&& trim(d.drop_last()) == d.drop_last()
        &&& forall|i: int| 0 <= i < d.len() ==> d[i] != '\r'
    }
}

/// A header the format skips over: none of its lines is a `---` fence.
pub open spec fn plain_header(h: Seq<char>) -> bool {
    let ls = text_lines(header_part(h));
    forall|k: int| 0 <= k < ls.len() ==> trim(#[trigger] ls[k]) != "---"@
}

/// `k` spaces.
pub open spec fn spaces(k: nat) -> Seq<char> {
    Seq::new(k, |i: int| ' ')
}

/// `l` is a `key: value` line for this key and value.
pub open spec fn field_line(l: Seq<char>, key: Seq<char>, v: Seq<char>) -> bool {
    let c = index_of(l, ':');
    &&& c < l.len()
    &&& trim(l.take(c as int)) == key
    &&& trim(l.skip(c + 1 as int)) == v
}

proof fn lemma_lines_append(x: Seq<char>, y: Seq<char>)
    requires
        x.len() == 0 || x.last() == '\n',
    ensures
        text_lines(x + y) == text_lines(x) + text_lines(y),
    decreases x.len(),
{
    if x.len() == 0 {
        assert(x + y =~= y);
        assert(text_lines(x) + text_lines(y) =~= text_lines(y));
    } else {
        lemma_index_of_bound(x, '\n');
        let i = index_of(x, '\n') as int;
        if i == x.len() {
            assert(x[x.len() - 1] != '\n');
        }
        assert(i < x.len());
        let xy = x + y;
        assert forall|j: int| 0 <= j < i implies xy[j] != '\n' by {
            assert(xy[j] == x[j]);
        }
        lemma_index_of_at(xy, '\n', i);
        assert(xy.take(i) =~= x.take(i));
        assert(xy.skip(i + 1) =~= x.skip(i + 1) + y);
        let rest = x.skip(i + 1);
        if rest.len() > 0 {
            assert(rest.last() == x.last());
        }
        lemma_lines_append(rest, y);
        assert(text_lines(xy) =~= text_lines(x) + text_lines(y));
    }
}

proof fn lemma_single_line(l: Seq<char>)
    requires
        one_line(l),
    ensures
        text_lines(l + seq!['\n']) == seq![l],
{
    let t = l + seq!['\n'];
    assert forall|j: int| 0 <= j < l.len() implies t[j] != '\n' by {
        assert(t[j] == l[j]);
    }
    lemma_index_of_at(t, '\n', l.len() as int);
    assert(t.take(l.len() as int) =~= l);
    assert(t.skip(l.len() + 1 as int) =~= Seq::<char>::empty());
    assert(text_lines(Seq::<char>::empty()) =~= Seq::<Seq<char>>::empty());
}

/// Appending one line (and its newline) appends it to the lines.
proof fn lemma_push_line(x: Seq<char>, l: Seq<char>)
    requires
        x.len() == 0 || x.last() == '\n',
        one_line(l),
    ensures
        text_lines(x + l + seq!['\n']) == text_lines(x).push(l),
{
    assert(x + l + seq!['\n'] =~= x + (l + seq!['\n']));
    lemma_lines_append(x, l + seq!['\n']);
    lemma_single_line(l);
    assert(text_lines(x) + seq![l] =~= text_lines(x).push(l));
}

proof fn lemma_lines_terminated(ls: Seq<Seq<char>>)
    requires
        forall|k: int| 0 <= k < ls.len() ==> one_line(#[trigger] ls[k]),
    ensures
        text_lines(terminated(ls)) == ls,
    decreases ls.len(),
{
    if ls.len() == 0 {
        assert(text_lines(Seq::<char>::empty()) =~= Seq::<Seq<char>>::empty());
    } else {
        let front = ls.drop_last();
        lemma_lines_terminated(front);
        assert(one_line(ls[ls.len() - 1]));
        lemma_push_line(terminated(front), ls.last());
        assert(front.push(ls.last()) =~= ls);
    }
}

proof fn lemma_joined_cons(a: Seq<char>, r: Seq<Seq<char>>)
    requires
        r.len() > 0,
    ensures
        joined(seq![a] + r) == a + seq!['\n'] + joined(r),
    decreases r.len(),
{
    let s = seq![a] + r;
    assert(s.len() == r.len() + 1);
    assert(s.last() == r.last());
    if r.len() == 1 {
        assert(s.drop_last() =~= seq![a]);
        assert(joined(seq![a]) == a);
        assert(joined(r) == r[0]);
    } else {
        assert(s.drop_last() =~= seq![a] + r.drop_last());
        lemma_joined_cons(a, r.drop_last());
        assert(joined(r) == joined(r.drop_last()) + seq!['\n'] + r.last());
        assert(joined(s) == joined(s.drop_last()) + seq!['\n'] + s.last());
        assert(joined(s) =~= a + seq!['\n'] + joined(r));
    }
}

/// Joining the lines of newline-terminated text without carriage returns
/// gives the text back without its last newline.
proof fn lemma_join_lines(x: Seq<char>)
    requires
        x.len() > 0,
        x.last() == '\n',
        forall|i: int| 0 <= i < x.len() ==> x[i] != '\r',
    ensures
        joined(text_lines(x)) == x.drop_last(),
    decreases x.len(),
{
    lemma_index_of_bound(x, '\n');
    let i = index_of(x, '\n') as int;
    if i == x.len() {
        assert(x[x.len() - 1] != '\n');
    }
    let a = x.take(i);
    assert(strip_cr(a) == a);
    let rest = x.skip(i + 1);
    if rest.len() == 0 {
        assert(text_lines(rest) =~= Seq::<Seq<char>>::empty());
        assert(text_lines(x) =~= seq![a]);
        assert(a =~= x.drop_last());
    } else {
        assert(rest.last() == x.last());
        lemma_join_lines(rest);
        assert(text_lines(rest).len() > 0);
        lemma_joined_cons(a, text_lines(rest));
        assert(a + seq!['\n'] + rest.drop_last() =~= x.drop_last());
    }
}

/// Every character of the trailing whitespace run is whitespace.
proof fn lemma_ws_suffix_all(s: Seq<char>)
    ensures
        forall|j: int| s.len() - ws_suffix_len(s) <= j < s.len() ==> char_is_ws(#[trigger] s[j]),
    decreases s.len(),
{
    lemma_ws_suffix_len_bound(s);
    if s.len() > 0 && char_is_ws(s.last()) {
        let t = s.drop_last();
        lemma_ws_suffix_all(t);
        assert forall|j: int| s.len() - ws_suffix_len(s) <= j < s.len() implies char_is_ws(
            #[trigger] s[j],
        ) by {
            if j < s.len() - 1 {
                assert(s[j] == t[j]);
            }
        }
    }
}

/// Where trimming cuts `s`: whitespace before `a` and from `b` on, and
/// non-whitespace at both ends of what is kept.
proof fn lemma_trim_shape(s: Seq<char>) -> (ab: (int, int))
    ensures
        0 <= ab.0 <= ab.1 <= s.len(),
        forall|j: int| 0 <= j < ab.0 ==> char_is_ws(#[trigger] s[j]),
        forall|j: int| ab.1 <= j < s.len() ==> char_is_ws(#[trigger] s[j]),
        ab.0 < ab.1 ==> !char_is_ws(s[ab.0]) && !char_is_ws(s[ab.1 - 1]),
        trim(s) == s.subrange(ab.0, ab.1),
{
    let (a, pre) = lemma_ws_prefix_shape(s);
    let t = s.skip(a);
    let (q, suf) = lemma_ws_suffix_shape(t);
    let b = s.len() - q;
    assert forall|j: int| b <= j < s.len() implies char_is_ws(#[trigger] s[j]) by {
        assert(s[j] == t[j - a]);
    }
    if a < b {
        assert(s[b - 1] == t[t.len() - q - 1]);
    }
    assert(t.take(t.len() - q) =~= s.subrange(a, b));
    (a, b)
}

/// The leading whitespace run of `s` is all whitespace and stops at a
/// non-whitespace character or the end.
proof fn lemma_ws_prefix_shape(s: Seq<char>) -> (r: (int, bool))
    ensures
        r.0 == ws_prefix_len(s),
        0 <= r.0 <= s.len(),
        forall|j: int| 0 <= j < r.0 ==> char_is_ws(#[trigger] s[j]),
        r.0 < s.len() ==> !char_is_ws(s[r.0]),
    decreases s.len(),
{
    if s.len() > 0 && char_is_ws(s[0]) {
        let t = s.drop_first();
        let (k, _) = lemma_ws_prefix_shape(t);
        assert forall|j: int| 0 <= j < k + 1 implies char_is_ws(#[trigger] s[j]) by {
            if j > 0 {
                assert(s[j] == t[j - 1]);
            }
        }
        if k + 1 < s.len() {
            assert(s[k + 1] == t[k]);
        }
        (k + 1, true)
    } else {
        (0, true)
    }
}

/// The trailing whitespace run of `s` is all whitespace and stops at a
/// non-whitespace character or the start.
proof fn lemma_ws_suffix_shape(s: Seq<char>) -> (r: (int, bool))
    ensures
        r.0 == ws_suffix_len(s),
        0 <= r.0 <= s.len(),
        forall|j: int| s.len() - r.0 <= j < s.len() ==> char_is_ws(#[trigger] s[j]),
        r.0 < s.len() ==> !char_is_ws(s[s.len() - r.0 - 1]),
    decreases s.len(),
{
    if s.len() > 0 && char_is_ws(s.last()) {
        let t = s.drop_last();
        let (k, _) = lemma_ws_suffix_shape(t);
        assert forall|j: int| s.len() - (k + 1) <= j < s.len() implies char_is_ws(#[trigger] s[j]) by {
            if j < s.len() - 1 {
                assert(s[j] == t[j]);
            }
        }
        if k + 1 < s.len() {
            assert(s[s.len() - (k + 1) - 1] == t[t.len() - k - 1]);
        }
        (k + 1, true)
    } else {
        (0, true)
    }
}

/// Trimming cuts exactly the whitespace outside `a..b` when `s[a]` and
/// `s[b - 1]` are not whitespace (or nothing is kept).
proof fn lemma_trim_bounds(s: Seq<char>, a: int, b: int)
    requires
        0 <= a <= b <= s.len(),
        forall|j: int| 0 <= j < a ==> char_is_ws(#[trigger] s[j]),
        forall|j: int| b <= j < s.len() ==> char_is_ws(#[trigger] s[j]),
        a < b ==> !char_is_ws(s[a]) && !char_is_ws(s[b - 1]),
    ensures
        trim(s) == s.subrange(a, b),
{
    let (x, y) = lemma_trim_shape(s);
    if a < b {
        if x < y {
            assert(x == a) by {
                if x < a {
                    assert(char_is_ws(s[x]));
                } else if a < x {
                    assert(char_is_ws(s[a]));
                }
            }
            assert(y == b) by {
                if y < b {
                    assert(char_is_ws(s[b - 1]));
                } else if b < y {
                    assert(char_is_ws(s[y - 1]));
                }
            }
        } else {
            if a < x {
                assert(char_is_ws(s[a]));
            } else {
                assert(char_is_ws(s[a]));
            }
        }
    } else {
        if x < y {
            if x < a {
                assert(char_is_ws(s[x]));
            } else {
                assert(char_is_ws(s[x]));
            }
        }
        assert(s.subrange(x, y) =~= s.subrange(a, b));
    }
}

/// Trimming twice is trimming once.
proof fn lemma_trim_trim(s: Seq<char>)
    ensures
        trim(trim(s)) == trim(s),
{
    let (a, b) = lemma_trim_shape(s);
    let u = s.subrange(a, b);
    if u.len() > 0 {
        assert(u[0] == s[a]);
        assert(u[u.len() - 1] == s[b - 1]);
    }
    lemma_trim_bounds(u, 0, u.len() as int);
    assert(u.subrange(0, u.len() as int) =~= u);
}

/// Whitespace at the end of a text does not change how it trims.
proof fn lemma_trim_drop_ws(x: Seq<char>)
    requires
        x.len() > 0,
        char_is_ws(x.last()),
    ensures
        trim(x.drop_last()) == trim(x),
{
    let (a, b) = lemma_trim_shape(x);
    let y = x.drop_last();
    if a < b {
        assert(b < x.len());
        assert forall|j: int| 0 <= j < a implies char_is_ws(#[trigger] y[j]) by {
            assert(y[j] == x[j]);
        }
        assert forall|j: int| b <= j < y.len() implies char_is_ws(#[trigger] y[j]) by {
            assert(y[j] == x[j]);
        }
        assert(y[a] == x[a]);
        assert(y[b - 1] == x[b - 1]);
        lemma_trim_bounds(y, a, b);
        assert(y.subrange(a, b) =~= x.subrange(a, b));
    } else {
        assert forall|j: int| 0 <= j < y.len() implies char_is_ws(#[trigger] y[j]) by {
            assert(y[j] == x[j]);
            if j < a {
            } else {
                assert(b <= j);
            }
        }
        lemma_trim_bounds(y, 0, 0);
        assert(y.subrange(0, 0) =~= x.subrange(a, b));
    }
}

/// Closing a text's last line with a newline leaves its lines as they trim.
proof fn lemma_lines_closed(h: Seq<char>)
    requires
        h.len() > 0,
        h.last() != '\n',
    ensures
        text_lines(h.push('\n')).len() == text_lines(h).len(),
        forall|k: int|
            0 <= k < text_lines(h).len() ==> trim(#[trigger] text_lines(h.push('\n'))[k]) == trim(
                text_lines(h)[k],
            ),
    decreases h.len(),
{
    let hp = h.push('\n');
    lemma_index_of_bound(h, '\n');
    let i = index_of(h, '\n');
    if i < h.len() {
        assert(i < h.len() - 1);
        assert forall|j: int| 0 <= j < i implies hp[j] != '\n' by {
            assert(hp[j] == h[j]);
        }
        lemma_index_of_at(hp, '\n', i as int);
        assert(hp.take(i as int) =~= h.take(i as int));
        let rest = h.skip(i + 1 as int);
        assert(hp.skip(i + 1 as int) =~= rest.push('\n'));
        assert(rest.last() == h.last());
        lemma_lines_closed(rest);
        let lp = text_lines(hp);
        let l = text_lines(h);
        assert(lp == seq![strip_cr(h.take(i as int))] + text_lines(rest.push('\n')));
        assert(l == seq![strip_cr(h.take(i as int))] + text_lines(rest));
        assert forall|k: int| 0 <= k < l.len() implies trim(#[trigger] lp[k]) == trim(l[k]) by {
            if k > 0 {
                assert(lp[k] == text_lines(rest.push('\n'))[k - 1]);
                assert(l[k] == text_lines(rest)[k - 1]);
            }
        }
    } else {
        assert forall|j: int| 0 <= j < h.len() implies hp[j] != '\n' by {
            assert(hp[j] == h[j]);
        }
        lemma_index_of_at(hp, '\n', h.len() as int);
        assert(hp.take(h.len() as int) =~= h);
        assert(hp.skip(h.len() + 1 as int) =~= Seq::<char>::empty());
        assert(index_of(hp, '\n') == h.len());
        assert(text_lines(Seq::<char>::empty()) == Seq::<Seq<char>>::empty());
        assert(text_lines(hp) == seq![strip_cr(hp.take(h.len() as int))] + text_lines(
            hp.skip(h.len() + 1 as int),
        ));
        assert(text_lines(hp) =~= seq![strip_cr(h)]);
        assert(text_lines(h) == seq![h]);
        if h.last() == '\r' {
            assert(char_is_ws('\r'));
            lemma_trim_drop_ws(h);
        }
        assert(trim(text_lines(hp)[0]) == trim(text_lines(h)[0]));
    }
}

/// The header premise as lines of the header itself: no line of it trims
/// to a `---` fence.
pub open spec fn fence_free(h: Seq<char>) -> bool {
    forall|k: int| 0 <= k < text_lines(h).len() ==> trim(#[trigger] text_lines(h)[k]) != "---"@
}

/// The description premise in terms of trimming: no carriage return, and
/// either empty or its non-blank trimmed text followed by one newline.
pub open spec fn trimmed_description(d: Seq<char>) -> bool {
    &&& forall|i: int| 0 <= i < d.len() ==> d[i] != '\r'
    &&& (d.len() == 0 || (trim(d).len() > 0 && d == trim(d).push('\n')))
}

proof fn lemma_fence_free_header(h: Seq<char>)
    requires
        fence_free(h),
    ensures
        plain_header(h),
{
    if h.len() > 0 && h.last() != '\n' {
        lemma_lines_closed(h);
        let ls = text_lines(header_part(h));
        assert forall|k: int| 0 <= k < ls.len() implies trim(#[trigger] ls[k]) != "---"@ by {
            assert(trim(text_lines(h)[k]) != "---"@);
        }
    }
}

proof fn lemma_trimmed_description(d: Seq<char>)
    requires
        trimmed_description(d),
    ensures
        plain_description(d),
{
    if d.len() > 0 {
        assert(d.drop_last() =~= trim(d));
        lemma_trim_trim(d);
    }
}

/// A trimmed non-empty text starts and ends with non-whitespace.
proof fn lemma_trimmed_ends(v: Seq<char>)
    requires
        trim(v) == v,
        v.len() > 0,
    ensures
        !char_is_ws(v[0]),
        !char_is_ws(v.last()),
{
    lemma_ws_prefix_len_bound(v);
    let p = ws_prefix_len(v);
    let t = v.skip(p);
    lemma_ws_suffix_len_bound(t);
    if char_is_ws(v[0]) {
        lemma_ws_prefix_len_bound(v.drop_first());
        assert(p >= 1);
        assert(trim(v).len() < v.len());
    } else {
        assert(p == 0);
        assert(t =~= v);
        if char_is_ws(v.last()) {
            lemma_ws_suffix_len_bound(v.drop_last());
            assert(ws_suffix_len(t) >= 1);
            assert(trim(v).len() < v.len());
        }
    }
}

/// A word with no whitespace trims to itself.
proof fn lemma_trim_word(w: Seq<char>)
    requires
        forall|i: int| 0 <= i < w.len() ==> !char_is_ws(#[trigger] w[i]),
    ensures
        trim(w) == w,
{
    lemma_ws_prefix_len_exact(w, 0);
    assert(w.skip(0) =~= w);
    lemma_ws_suffix_len_exact(w, 0);
    assert(w.take(w.len() as int) =~= w);
}

/// Spaces before a trimmed value trim away.
proof fn lemma_trim_padded(k: nat, v: Seq<char>)
    requires
        trim(v) == v,
    ensures
        trim(spaces(k) + v) == v,
{
    let s = spaces(k) + v;
    assert forall|j: int| 0 <= j < k implies char_is_ws(#[trigger] s[j]) by {
        assert(s[j] == ' ');
    }
    if v.len() > 0 {
        lemma_trimmed_ends(v);
        assert(s[k as int] == v[0]);
    }
    lemma_ws_prefix_len_exact(s, k as int);
    let t = s.skip(k as int);
    assert(t =~= v);
    if v.len() > 0 {
        lemma_ws_suffix_len_exact(t, 0);
    } else {
        lemma_ws_suffix_len_exact(t, 0);
    }
    assert(t.take(t.len() as int) =~= v);
}

/// A `key: value` line, padded with spaces after the colon, reads back as
/// that key and value; it is one line and not a fence.
proof fn lemma_field_line(key: Seq<char>, k: nat, v: Seq<char>)
    requires
        key.len() > 0,
        key[0] != '-',
        forall|i: int| 0 <= i < key.len() ==> #[trigger] key[i] != ':' && !char_is_ws(key[i]) && key[i]
            != '\n',
        plain_field(v),
    ensures
        ({
            let l = key + seq![':'] + spaces(k) + v;
            &&& field_line(l, key, v)
            &&& one_line(l)
            &&& trim(l) != "---"@
        }),
{
    let l = key + seq![':'] + spaces(k) + v;
    let c = key.len() as int;
    assert forall|j: int| 0 <= j < c implies l[j] != ':' by {
        assert(l[j] == key[j]);
    }
    assert(l[c] == ':');
    lemma_index_of_at(l, ':', c);
    assert(l.take(c) =~= key);
    lemma_trim_word(key);
    assert(l.skip(c + 1) =~= spaces(k) + v);
    lemma_trim_padded(k, v);
    if v.len() > 0 {
        lemma_trimmed_ends(v);
        assert(l.last() == v.last());
        assert(v.last() != '\r');
    } else if k > 0 {
        assert(l.last() == ' ');
    } else {
        assert(l.last() == ':');
    }
    assert forall|i: int| 0 <= i < l.len() implies l[i] != '\n' by {
        if i < c {
            assert(l[i] == key[i]);
        } else if i > c + k {
            assert(l[i] == v[i - c - 1 - k]);
        }
    }
    // trim(l) keeps the first character, which is not a dash.
    assert(l[0] == key[0]);
    lemma_ws_prefix_len_exact(l, 0);
    assert(l.skip(0) =~= l);
    lemma_ws_suffix_all(l);
    lemma_ws_suffix_len_bound(l);
    if ws_suffix_len(l) == l.len() {
        assert(char_is_ws(l[0]));
    }
    assert(trim(l)[0] == key[0]);
    reveal_strlit("---");
    assert("---"@[0] == '-');
}

/// With distinct keys and one line per key, each key reads back its value.
proof fn lemma_field_lookup(
    fl: Seq<Seq<char>>,
    keys: Seq<Seq<char>>,
    vals: Seq<Seq<char>>,
    j: int,
)
    requires
        fl.len() == keys.len(),
        vals.len() == keys.len(),
        0 <= j < keys.len(),
        forall|i: int| 0 <= i < fl.len() ==> field_line(#[trigger] fl[i], keys[i], vals[i]),
        forall|i: int, m: int| 0 <= i < keys.len() && 0 <= m < keys.len() && i != m ==> #[trigger] keys[i] != #[trigger] keys[m],
    ensures
        field_value(fl, keys[j]) == vals[j],
    decreases fl.len(),
{
    let n = fl.len() - 1;
    assert(field_line(fl[n], keys[n], vals[n]));
    if j < n {
        assert(keys[n] != keys[j]);
        lemma_field_lookup(fl.drop_last(), keys.drop_last(), vals.drop_last(), j);
    }
}

/// The fence line.
proof fn lemma_fence_line()
    ensures
        trim("---"@) == "---"@,
        one_line("---"@),
{
    reveal_strlit("---");
    lemma_trim_word("---"@);
}

/// The frontmatter of a text whose lines are header lines (none a fence),
/// a fence, field lines (none a fence), a fence, and body lines.
proof fn lemma_frontmatter_of(
    src: Seq<char>,
    hl: Seq<Seq<char>>,
    fields: Seq<Seq<char>>,
    bl: Seq<Seq<char>>,
)
    requires
        text_lines(src) == hl + (seq!["---"@] + fields + seq!["---"@]) + bl,
        forall|k: int| 0 <= k < hl.len() ==> trim(#[trigger] hl[k]) != "---"@,
        forall|k: int| 0 <= k < fields.len() ==> trim(#[trigger] fields[k]) != "---"@,
    ensures
        frontmatter(src) == Ok::<(Seq<char>, Seq<char>), Seq<char>>(
            (terminated(fields), joined(bl)),
        ),
{
    lemma_fence_line();
    let ls = text_lines(src);
    let p = fence_at(ls);
    let o = hl.len() as int;
    let c = o + 1 + fields.len();
    assert forall|j: int| 0 <= j < o implies !#[trigger] p(j) by {
        assert(ls[j] == hl[j]);
    }
    assert(ls[o] == "---"@);
    lemma_first_from_found(0, o, ls.len() as int, p);
    assert forall|j: int| o + 1 <= j < c implies !#[trigger] p(j) by {
        assert(ls[j] == fields[j - o - 1]);
    }
    assert(ls[c] == "---"@);
    lemma_first_from_found(o + 1, c, ls.len() as int, p);
    assert(ls.subrange(o + 1, c) =~= fields);
    assert(ls.skip(c + 1) =~= bl);
}

/// The body part of a plain description reads back as the description.
proof fn lemma_body_round_trip(d: Seq<char>)
    requires
        plain_description(d),
    ensures
        description_of(joined(text_lines(body_part(d)))) == d,
{
    if d.len() == 0 {
        let b = body_part(d);
        assert(b =~= seq!['\n']);
        lemma_single_line(Seq::<char>::empty());
        assert(Seq::<char>::empty() + seq!['\n'] =~= b);
        assert(joined(text_lines(b)) =~= Seq::<char>::empty());
        lemma_trim_word(Seq::<char>::empty());
    } else {
        lemma_join_lines(d);
        assert(d.drop_last().push('\n') =~= d);
    }
}

/// The field lines of a serialized issue read back as their keys and
/// values, are single lines, and are not fences; the keys are distinct.
proof fn lemma_issue_fields(b: IssueText)
    requires
        plain_field(b.title),
        plain_field(b.status),
        plain_field(b.priority),
        plain_field(b.milestone),
        plain_field(b.parent),
    ensures
        ({
            let fields = seq![
                "title:     "@ + b.title,
                "status:    "@ + b.status,
                "priority:  "@ + b.priority,
                "milestone: "@ + b.milestone,
                "parent:    "@ + b.parent,
            ];
            let keys = seq!["title"@, "status"@, "priority"@, "milestone"@, "parent"@];
            let vals = seq![b.title, b.status, b.priority, b.milestone, b.parent];
            &&& forall|i: int| 0 <= i < 5 ==> field_line(#[trigger] fields[i], keys[i], vals[i])
            &&& forall|i: int| 0 <= i < 5 ==> one_line(#[trigger] fields[i])
            &&& forall|i: int| 0 <= i < 5 ==> trim(#[trigger] fields[i]) != "---"@
            &&& forall|i: int, m: int|
                0 <= i < 5 && 0 <= m < 5 && i != m ==> #[trigger] keys[i] != #[trigger] keys[m]
        }),
{
    reveal_strlit("title:     ");
    reveal_strlit("status:    ");
    reveal_strlit("priority:  ");
    reveal_strlit("milestone: ");
    reveal_strlit("parent:    ");
    reveal_strlit("title");
    reveal_strlit("status");
    reveal_strlit("priority");
    reveal_strlit("milestone");
    reveal_strlit("parent");
    let tk = "title"@;
    let sk = "status"@;
    let pk = "priority"@;
    let mk = "milestone"@;
    let ak = "parent"@;
    assert("title:     "@ =~= tk + seq![':'] + spaces(5));
    assert("status:    "@ =~= sk + seq![':'] + spaces(4));
    assert("priority:  "@ =~= pk + seq![':'] + spaces(2));
    assert("milestone: "@ =~= mk + seq![':'] + spaces(1));
    assert("parent:    "@ =~= ak + seq![':'] + spaces(4));
    lemma_field_line(tk, 5, b.title);
    lemma_field_line(sk, 4, b.status);
    lemma_field_line(pk, 2, b.priority);
    lemma_field_line(mk, 1, b.milestone);
    lemma_field_line(ak, 4, b.parent);
    let keys = seq![tk, sk, pk, mk, ak];
    assert forall|i: int, m: int| 0 <= i < 5 && 0 <= m < 5 && i != m implies #[trigger] keys[i]
        != #[trigger] keys[m] by {
        if keys[i] == keys[m] {
            assert(keys[i].len() == keys[m].len());
            assert(keys[i][0] == keys[m][0]);
        }
    }
}

/// The lines of a serialized issue: the header's, a fence, the five field
/// lines, a fence, and the body's.
#[verifier::rlimit(30)]
proof fn lemma_issue_lines(b: IssueText)
    requires
        plain_field(b.title),
        plain_field(b.status),
        plain_field(b.priority),
        plain_field(b.milestone),
        plain_field(b.parent),
    ensures
        text_lines(issue_text(b)) == text_lines(header_part(b.header)) + (seq!["---"@] + seq![
            "title:     "@ + b.title,
            "status:    "@ + b.status,
            "priority:  "@ + b.priority,
            "milestone: "@ + b.milestone,
            "parent:    "@ + b.parent,
        ] + seq!["---"@]) + text_lines(body_part(b.description)),
{
    lemma_issue_fields(b);
    lemma_fence_line();
    let tl = "title:     "@ + b.title;
    let sl = "status:    "@ + b.status;
    let pl = "priority:  "@ + b.priority;
    let ml = "milestone: "@ + b.milestone;
    let al = "parent:    "@ + b.parent;
    let fields = seq![tl, sl, pl, ml, al];
    assert(one_line(fields[0]) && one_line(fields[1]) && one_line(fields[2]) && one_line(fields[3])
        && one_line(fields[4]));
    let h = header_part(b.header);
    let x1 = h + "---"@ + nl();
    lemma_push_line(h, "---"@);
    let x2 = x1 + "title:     "@ + b.title + nl();
    assert(x2 =~= x1 + tl + seq!['\n']);
    lemma_push_line(x1, tl);
    let x3 = x2 + "status:    "@ + b.status + nl();
    assert(x3 =~= x2 + sl + seq!['\n']);
    lemma_push_line(x2, sl);
    let x4 = x3 + "priority:  "@ + b.priority + nl();
    assert(x4 =~= x3 + pl + seq!['\n']);
    lemma_push_line(x3, pl);
    let x5 = x4 + "milestone: "@ + b.milestone + nl();
    assert(x5 =~= x4 + ml + seq!['\n']);
    lemma_push_line(x4, ml);
    let x6 = x5 + "parent:    "@ + b.parent + nl();
    assert(x6 =~= x5 + al + seq!['\n']);
    lemma_push_line(x5, al);
    let x7 = x6 + "---"@ + nl();
    lemma_push_line(x6, "---"@);
    let body = body_part(b.description);
    lemma_lines_append(x7, body);
    assert(issue_text(b) == x7 + body);
    assert(text_lines(issue_text(b)) =~= text_lines(h) + (seq!["---"@] + fields + seq!["---"@])
        + text_lines(body));
}

/// Parsing a serialized issue gives its fields back (the header, guidance
/// text above the frontmatter, is not kept), for a non-empty title; a
/// title, status, priority, milestone and parent each on one line with no
/// surrounding whitespace; a description that is empty, or its non-blank
/// trimmed text followed by one newline, without carriage returns; and a
/// header none of whose lines trims to `---`.
pub proof fn law_issue_round_trip(b: IssueText)
    requires
        fence_free(b.header),
        plain_field(b.title),
        b.title.len() > 0,
        plain_field(b.status),
        plain_field(b.priority),
        plain_field(b.milestone),
        plain_field(b.parent),
        trimmed_description(b.description),
    ensures
        parse_issue_spec(issue_text(b)) == Ok::<IssueText, Seq<char>>(
            IssueText { header: Seq::empty(), ..b },
        ),
{
    lemma_fence_free_header(b.header);
    lemma_trimmed_description(b.description);
    lemma_issue_fields(b);
    lemma_issue_lines(b);
    let fields = seq![
        "title:     "@ + b.title,
        "status:    "@ + b.status,
        "priority:  "@ + b.priority,
        "milestone: "@ + b.milestone,
        "parent:    "@ + b.parent,
    ];
    let keys = seq!["title"@, "status"@, "priority"@, "milestone"@, "parent"@];
    let vals = seq![b.title, b.status, b.priority, b.milestone, b.parent];
    let h = header_part(b.header);
    let body = body_part(b.description);
    lemma_frontmatter_of(issue_text(b), text_lines(h), fields, text_lines(body));
    lemma_lines_terminated(fields);
    lemma_field_lookup(fields, keys, vals, 0);
    lemma_field_lookup(fields, keys, vals, 1);
    lemma_field_lookup(fields, keys, vals, 2);
    lemma_field_lookup(fields, keys, vals, 3);
    lemma_field_lookup(fields, keys, vals, 4);
    lemma_body_round_trip(b.description);
}

/// The lines of a serialized milestone: the header's, a fence, the three
/// field lines, a fence, and the body's.
#[verifier::rlimit(30)]
proof fn lemma_milestone_lines(b: MilestoneText)
    requires
        b.name.len() > 0,
        plain_field(b.name),
        plain_field(b.target),
        plain_field(b.status),
    ensures
        text_lines(milestone_text(b)) == text_lines(header_part(b.header)) + (seq!["---"@]
            + seq!["name:    "@ + b.name, "target:  "@ + b.target, "status:  "@ + b.status]
            + seq!["---"@]) + text_lines(body_part(b.description)),
        ({
            let fields = seq!["name:    "@ + b.name, "target:  "@ + b.target, "status:  "@ + b.status];
            let keys = seq!["name"@, "target"@, "status"@];
            let vals = seq![b.name, b.target, b.status];
            &&& forall|i: int| 0 <= i < 3 ==> field_line(#[trigger] fields[i], keys[i], vals[i])
            &&& forall|i: int| 0 <= i < 3 ==> one_line(#[trigger] fields[i])
            &&& forall|i: int| 0 <= i < 3 ==> trim(#[trigger] fields[i]) != "---"@
            &&& forall|i: int, m: int|
                0 <= i < 3 && 0 <= m < 3 && i != m ==> #[trigger] keys[i] != #[trigger] keys[m]
        }),
{
    reveal_strlit("---");
    reveal_strlit("name:    ");
    reveal_strlit("target:  ");
    reveal_strlit("status:  ");
    reveal_strlit("name");
    reveal_strlit("target");
    reveal_strlit("status");
    lemma_fence_line();
    let nk = "name"@;
    let tk = "target"@;
    let sk = "status"@;
    assert("name:    "@ =~= nk + seq![':'] + spaces(4));
    assert("target:  "@ =~= tk + seq![':'] + spaces(2));
    assert("status:  "@ =~= sk + seq![':'] + spaces(2));
    lemma_field_line(nk, 4, b.name);
    lemma_field_line(tk, 2, b.target);
    lemma_field_line(sk, 2, b.status);
    let nl_ = "name:    "@ + b.name;
    let tl = "target:  "@ + b.target;
    let sl = "status:  "@ + b.status;
    let h = header_part(b.header);
    let x1 = h + "---"@ + nl();
    lemma_push_line(h, "---"@);
    let x2 = x1 + "name:    "@ + b.name + nl();
    assert(x2 =~= x1 + nl_ + seq!['\n']);
    lemma_push_line(x1, nl_);
    let x3 = x2 + "target:  "@ + b.target + nl();
    assert(x3 =~= x2 + tl + seq!['\n']);
    lemma_push_line(x2, tl);
    let x4 = x3 + "status:  "@ + b.status + nl();
    assert(x4 =~= x3 + sl + seq!['\n']);
    lemma_push_line(x3, sl);
    let x5 = x4 + "---"@ + nl();
    lemma_push_line(x4, "---"@);
    let body = body_part(b.description);
    lemma_lines_append(x5, body);
    assert(milestone_text(b) == x5 + body);
    let fields = seq![nl_, tl, sl];
    assert(text_lines(milestone_text(b)) =~= text_lines(h) + (seq!["---"@] + fields
        + seq!["---"@]) + text_lines(body));
    let keys = seq![nk, tk, sk];
    assert forall|i: int, m: int| 0 <= i < 3 && 0 <= m < 3 && i != m implies #[trigger] keys[i]
        != #[trigger] keys[m] by {
        if keys[i] == keys[m] {
            assert(keys[i].len() == keys[m].len());
            assert(keys[i][0] == keys[m][0]);
        }
    }
}

/// Parsing a serialized milestone gives its fields back (not the header),
/// for a non-empty name; a name, target and status each on one line with
/// no surrounding whitespace; a description that is empty, or its
/// non-blank trimmed text followed by one newline, without carriage
/// returns; and a header none of whose lines trims to `---`.
pub proof fn law_milestone_round_trip(b: MilestoneText)
    requires
        fence_free(b.header),
        plain_field(b.name),
        b.name.len() > 0,
        plain_field(b.target),
        plain_field(b.status),
        trimmed_description(b.description),
    ensures
        parse_milestone_spec(milestone_text(b)) == Ok::<MilestoneText, Seq<char>>(
            MilestoneText { header: Seq::empty(), ..b },
        ),
{
    lemma_fence_free_header(b.header);
    lemma_trimmed_description(b.description);
    lemma_milestone_lines(b);
    let fields = seq!["name:    "@ + b.name, "target:  "@ + b.target, "status:  "@ + b.status];
    let keys = seq!["name"@, "target"@, "status"@];
    let vals = seq![b.name, b.target, b.status];
    let h = header_part(b.header);
    let body = body_part(b.description);
    lemma_frontmatter_of(milestone_text(b), text_lines(h), fields, text_lines(body));
    lemma_lines_terminated(fields);
    lemma_field_lookup(fields, keys, vals, 0);
    lemma_field_lookup(fields, keys, vals, 1);
    lemma_field_lookup(fields, keys, vals, 2);
    lemma_body_round_trip(b.description);
}

/// The lines of a serialized project: the header's, a fence, the name line,
/// a fence, and the body's.
proof fn lemma_project_lines(b: ProjectText)
    requires
        b.name.len() > 0,
        plain_field(b.name),
    ensures
        text_lines(project_text(b)) == text_lines(header_part(b.header)) + (seq!["---"@]
            + seq!["name: "@ + b.name] + seq!["---"@]) + text_lines(body_part(b.description)),
        field_line("name: "@ + b.name, "name"@, b.name),
        one_line("name: "@ + b.name),
        trim("name: "@ + b.name) != "---"@,
{
    reveal_strlit("---");
    reveal_strlit("name: ");
    reveal_strlit("name");
    lemma_fence_line();
    let nk = "name"@;
    assert("name: "@ =~= nk + seq![':'] + spaces(1));
    lemma_field_line(nk, 1, b.name);
    let nl_ = "name: "@ + b.name;
    let h = header_part(b.header);
    let x1 = h + "---"@ + nl();
    lemma_push_line(h, "---"@);
    let x2 = x1 + "name: "@ + b.name + nl();
    assert(x2 =~= x1 + nl_ + seq!['\n']);
    lemma_push_line(x1, nl_);
    let x3 = x2 + "---"@ + nl();
    lemma_push_line(x2, "---"@);
    let body = body_part(b.description);
    lemma_lines_append(x3, body);
    assert(project_text(b) == x3 + body);
    assert(text_lines(project_text(b)) =~= text_lines(h) + (seq!["---"@] + seq![nl_]
        + seq!["---"@]) + text_lines(body));
}

/// Parsing a serialized project gives its fields back (not the header),
/// for a non-empty name on one line with no surrounding whitespace; a
/// description that is empty, or its non-blank trimmed text followed by
/// one newline, without carriage returns; and a header none of whose lines
/// trims to `---`.
pub proof fn law_project_round_trip(b: ProjectText)
    requires
        fence_free(b.header),
        plain_field(b.name),
        b.name.len() > 0,
        trimmed_description(b.description),
    ensures
        parse_project_spec(project_text(b)) == Ok::<ProjectText, Seq<char>>(
            ProjectText { header: Seq::empty(), ..b },
        ),
{
    lemma_fence_free_header(b.header);
    lemma_trimmed_description(b.description);
    lemma_project_lines(b);
    let fields = seq!["name: "@ + b.name];
    let keys = seq!["name"@];
    let vals = seq![b.name];
    let h = header_part(b.header);
    let body = body_part(b.description);
    assert forall|k: int| 0 <= k < fields.len() implies trim(#[trigger] fields[k]) != "---"@ by {}
    lemma_frontmatter_of(project_text(b), text_lines(h), fields, text_lines(body));
    assert forall|k: int| 0 <= k < fields.len() implies one_line(#[trigger] fields[k]) by {}
    lemma_lines_terminated(fields);
    assert forall|i: int| 0 <= i < fields.len() implies field_line(
        #[trigger] fields[i],
        keys[i],
        vals[i],
    ) by {}
    lemma_field_lookup(fields, keys, vals, 0);
    lemma_body_round_trip(b.description);
}

} // verus!
