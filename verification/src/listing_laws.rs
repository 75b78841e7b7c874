//! What the page listings promise: which rows a query finds, that nothing
//! outside the chosen bucket is listed, and the order the rows come in.

use vstd::prelude::*;

use crate::model::{
    ActivityPageState, App, MilestonePageState, PageSort, ProjSort, ProjectPageState,
    act_filter_accepts, proj_filter_accepts, status_filter_accepts,
};
use crate::order::{filter_upto, lemma_filter_upto};
use crate::rows::{
    activity_pred, activity_rows_spec, actor_text, milestone_keys, page_pred, page_rows_spec,
    project_keys, project_pred, project_rows_spec,
};
use crate::sorting::{key_order, lemma_sorted_listing_props, tuple_lt};
use crate::steps::opt_chars;
use crate::text::{chars_lt, has_substring, lemma_chars_lt_irreflexive, lemma_chars_lt_transitive, lowercase};

verus! {

proof fn lemma_vec_len_fits<T>(v: Vec<T>)
    ensures
        v@.len() <= usize::MAX,
{
    assert(v.len() == v@.len());
}

/// `x` before `y` under the stable order of one-text keys: `y`'s text is
/// not smaller.
proof fn lemma_not_before(x: Seq<char>, y: Seq<char>)
    requires
        chars_lt(y, x),
    ensures
        !chars_lt(x, y),
        x != y,
{
    lemma_chars_lt_irreflexive(x);
    if chars_lt(x, y) {
        lemma_chars_lt_transitive(x, y, x);
    }
}

/// The milestone page lists a milestone exactly when it is in the page's
/// status bucket and the lower-cased query is empty or found in its
/// lower-cased name or project key; each listed milestone once.
pub proof fn law_milestone_rows_find_by_name_or_project(app: App, state: MilestonePageState, i: int)
    requires
        0 <= i < app.milestones@.len(),
    ensures
        ({
            let m = app.milestones@[i];
            let q = lowercase(state.query@);
            page_rows_spec(app, state).contains(i as usize) <==> status_filter_accepts(
                state.filter,
                m.status@,
            ) && (q.len() == 0 || has_substring(lowercase(m.name@), q) || has_substring(
                lowercase(m.project@),
                q,
            ))
        }),
{
    let ms = app.milestones@;
    lemma_vec_len_fits(app.milestones);
    let pred = page_pred(ms, state);
    lemma_filter_upto(ms.len(), pred);
    let keys = milestone_keys(ms, state.sort);
    lemma_milestone_keys_even(app, state.sort);
    lemma_sorted_listing_props(filter_upto(ms.len(), pred), keys);
    if filter_upto(ms.len(), pred).contains(i as usize) {
        let k = choose|k: int|
            0 <= k < filter_upto(ms.len(), pred).len() && filter_upto(ms.len(), pred)[k] == i as usize;
        assert(pred(filter_upto(ms.len(), pred)[k] as int));
    }
    if pred(i) {
        assert(filter_upto(ms.len(), pred).contains(i as usize));
    }
}

proof fn lemma_milestone_keys_even(app: App, sort: PageSort)
    ensures
        forall|i: int, j: int|
            0 <= i < milestone_keys(app.milestones@, sort).len() && 0 <= j < milestone_keys(
                app.milestones@,
                sort,
            ).len() ==> #[trigger] milestone_keys(app.milestones@, sort)[i].len()
                == #[trigger] milestone_keys(app.milestones@, sort)[j].len(),
{
}

/// Sorted by name, the milestone page groups milestones by project key,
/// projects in increasing key order, and within a project orders them by
/// name.
pub proof fn law_name_sort_groups_by_project(app: App, state: MilestonePageState, a: int, b: int)
    requires
        state.sort == PageSort::Name,
        0 <= a < b < page_rows_spec(app, state).len(),
    ensures
        ({
            let r = page_rows_spec(app, state);
            let x = app.milestones@[r[a] as int];
            let y = app.milestones@[r[b] as int];
            &&& x.project@ != y.project@ ==> chars_lt(x.project@, y.project@)
            &&& x.project@ == y.project@ ==> !chars_lt(y.name@, x.name@)
            &&& x.project@ == y.project@ && x.name@ == y.name@ ==> r[a] < r[b]
        }),
{
    let ms = app.milestones@;
    lemma_vec_len_fits(app.milestones);
    let pred = page_pred(ms, state);
    let base = filter_upto(ms.len(), pred);
    lemma_filter_upto(ms.len(), pred);
    let keys = milestone_keys(ms, state.sort);
    lemma_milestone_keys_even(app, state.sort);
    lemma_sorted_listing_props(base, keys);
    let r = page_rows_spec(app, state);
    assert(r.contains(r[a]) && r.contains(r[b]));
    let ka = choose|k: int| 0 <= k < base.len() && base[k] == r[a];
    let kb = choose|k: int| 0 <= k < base.len() && base[k] == r[b];
    assert((base[ka] as int) < ms.len() && (base[kb] as int) < ms.len());
    assert(key_order(keys)(r[a], r[b]));
    let x = ms[r[a] as int];
    let y = ms[r[b] as int];
    let kx = keys[r[a] as int];
    let ky = keys[r[b] as int];
    assert(kx == seq![x.project@, x.name@]);
    assert(ky == seq![y.project@, y.name@]);
    if x.project@ == y.project@ {
        assert(kx.drop_first() =~= seq![x.name@]);
        assert(ky.drop_first() =~= seq![y.name@]);
        if x.name@ != y.name@ {
            assert(tuple_lt(kx, ky));
            assert(kx[0] == ky[0]);
            assert(tuple_lt(kx.drop_first(), ky.drop_first()));
            assert(tuple_lt(seq![x.name@], seq![y.name@]));
            assert(seq![x.name@][0] != seq![y.name@][0]);
            assert(chars_lt(x.name@, y.name@));
            if chars_lt(y.name@, x.name@) {
                lemma_not_before(x.name@, y.name@);
            }
        } else {
            lemma_chars_lt_irreflexive(x.name@);
            assert(kx =~= ky);
            crate::sorting::lemma_tuple_lt_irreflexive(kx);
        }
    } else {
        assert(tuple_lt(kx, ky) || kx == ky);
    }
}

/// Sorted by target, the milestone page lists dated milestones before
/// undated ones, dated ones by increasing target, and milestones with the
/// same target (or none) by name, ties in load order.
pub proof fn law_target_sort_orders_by_date_then_name(
    app: App,
    state: MilestonePageState,
    a: int,
    b: int,
)
    requires
        state.sort == PageSort::Target,
        0 <= a < b < page_rows_spec(app, state).len(),
    ensures
        ({
            let r = page_rows_spec(app, state);
            let x = app.milestones@[r[a] as int];
            let y = app.milestones@[r[b] as int];
            &&& !(x.target is None && y.target is Some)
            &&& x.target is Some && y.target is Some && x.target->0@ != y.target->0@ ==> chars_lt(
                x.target->0@,
                y.target->0@,
            )
            &&& opt_chars(x.target) == opt_chars(y.target) ==> !chars_lt(y.name@, x.name@)
            &&& opt_chars(x.target) == opt_chars(y.target) && x.name@ == y.name@ ==> r[a] < r[b]
        }),
{
    let ms = app.milestones@;
    lemma_vec_len_fits(app.milestones);
    let pred = page_pred(ms, state);
    let base = filter_upto(ms.len(), pred);
    lemma_filter_upto(ms.len(), pred);
    let keys = milestone_keys(ms, state.sort);
    lemma_milestone_keys_even(app, state.sort);
    lemma_sorted_listing_props(base, keys);
    let r = page_rows_spec(app, state);
    assert(r.contains(r[a]) && r.contains(r[b]));
    let ka = choose|k: int| 0 <= k < base.len() && base[k] == r[a];
    let kb = choose|k: int| 0 <= k < base.len() && base[k] == r[b];
    assert((base[ka] as int) < ms.len() && (base[kb] as int) < ms.len());
    assert(key_order(keys)(r[a], r[b]));
    let x = ms[r[a] as int];
    let y = ms[r[b] as int];
    let kx = keys[r[a] as int];
    let ky = keys[r[b] as int];
    reveal_strlit("0");
    reveal_strlit("1");
    reveal_strlit("");
    let tx = match x.target {
        Some(t) => t@,
        None => Seq::<char>::empty(),
    };
    let ty = match y.target {
        Some(t) => t@,
        None => Seq::<char>::empty(),
    };
    let dx: Seq<char> = if x.target is Some { "0"@ } else { "1"@ };
    let dy: Seq<char> = if y.target is Some { "0"@ } else { "1"@ };
    assert(kx == seq![dx, tx, x.name@]);
    assert(ky == seq![dy, ty, y.name@]);
    assert(kx.drop_first() =~= seq![tx, x.name@]);
    assert(ky.drop_first() =~= seq![ty, y.name@]);
    assert(kx.drop_first().drop_first() =~= seq![x.name@]);
    assert(ky.drop_first().drop_first() =~= seq![y.name@]);
    if x.target is None && y.target is Some {
        assert(dx != dy);
        assert(dx[0] != dy[0]);
        assert(chars_lt(dy, dx));
        assert(!tuple_lt(kx, ky)) by {
            lemma_not_before(dx, dy);
        }
    }
    if dx == dy {
        if tx != ty {
            assert(tuple_lt(kx.drop_first(), ky.drop_first()));
        } else if x.name@ != y.name@ {
            assert(tuple_lt(kx.drop_first(), ky.drop_first()));
            assert(tuple_lt(kx.drop_first().drop_first(), ky.drop_first().drop_first()));
            if chars_lt(y.name@, x.name@) {
                lemma_not_before(x.name@, y.name@);
            }
        } else {
            lemma_chars_lt_irreflexive(x.name@);
            assert(kx =~= ky);
            crate::sorting::lemma_tuple_lt_irreflexive(kx);
        }
    }
    if opt_chars(x.target) == opt_chars(y.target) {
        assert(dx == dy);
        assert(tx == ty);
    }
}

/// Sorted by activity, the milestone page keeps the load order (most
/// recently worked on first).
pub proof fn law_activity_sort_keeps_load_order(app: App, state: MilestonePageState, a: int, b: int)
    requires
        state.sort == PageSort::Activity,
        0 <= a < b < page_rows_spec(app, state).len(),
    ensures
        page_rows_spec(app, state)[a] < page_rows_spec(app, state)[b],
{
    let ms = app.milestones@;
    lemma_vec_len_fits(app.milestones);
    let pred = page_pred(ms, state);
    let base = filter_upto(ms.len(), pred);
    lemma_filter_upto(ms.len(), pred);
    let keys = milestone_keys(ms, state.sort);
    lemma_milestone_keys_even(app, state.sort);
    lemma_sorted_listing_props(base, keys);
    let r = page_rows_spec(app, state);
    assert(key_order(keys)(r[a], r[b]));
    assert(r.contains(r[a]) && r.contains(r[b]));
    let ka = choose|k: int| 0 <= k < base.len() && base[k] == r[a];
    let kb = choose|k: int| 0 <= k < base.len() && base[k] == r[b];
    assert(keys[r[a] as int] == Seq::<Seq<char>>::empty());
    assert(keys[r[b] as int] == Seq::<Seq<char>>::empty());
}

/// The project page lists a project exactly when it is in the page's
/// archive bucket and the lower-cased query is empty or found in its
/// lower-cased key or name.
pub proof fn law_project_rows_find_by_key_or_name(app: App, state: ProjectPageState, i: int)
    requires
        0 <= i < app.projects@.len(),
    ensures
        ({
            let p = app.projects@[i];
            let q = lowercase(state.query@);
            project_rows_spec(app, state).contains(i as usize) <==> proj_filter_accepts(
                state.filter,
                p.archived,
            ) && (q.len() == 0 || has_substring(lowercase(p.key@), q) || has_substring(
                lowercase(p.name@),
                q,
            ))
        }),
{
    let ps = app.projects@;
    lemma_vec_len_fits(app.projects);
    let pred = project_pred(ps, state);
    lemma_filter_upto(ps.len(), pred);
    let keys = project_keys(ps, state.sort);
    lemma_sorted_listing_props(filter_upto(ps.len(), pred), keys);
    if filter_upto(ps.len(), pred).contains(i as usize) {
        let k = choose|k: int|
            0 <= k < filter_upto(ps.len(), pred).len() && filter_upto(ps.len(), pred)[k] == i as usize;
        assert(pred(filter_upto(ps.len(), pred)[k] as int));
    }
    if pred(i) {
        assert(filter_upto(ps.len(), pred).contains(i as usize));
    }
}

/// Sorted by name, the project page lists projects in increasing key
/// order.
pub proof fn law_project_name_sort_orders_by_key(app: App, state: ProjectPageState, a: int, b: int)
    requires
        state.sort == ProjSort::Name,
        0 <= a < b < project_rows_spec(app, state).len(),
    ensures
        ({
            let r = project_rows_spec(app, state);
            !chars_lt(app.projects@[r[b] as int].key@, app.projects@[r[a] as int].key@)
        }),
{
    let ps = app.projects@;
    lemma_vec_len_fits(app.projects);
    let pred = project_pred(ps, state);
    let base = filter_upto(ps.len(), pred);
    lemma_filter_upto(ps.len(), pred);
    let keys = project_keys(ps, state.sort);
    lemma_sorted_listing_props(base, keys);
    let r = project_rows_spec(app, state);
    assert(r.contains(r[a]) && r.contains(r[b]));
    let ka = choose|k: int| 0 <= k < base.len() && base[k] == r[a];
    let kb = choose|k: int| 0 <= k < base.len() && base[k] == r[b];
    assert((base[ka] as int) < ps.len() && (base[kb] as int) < ps.len());
    assert(key_order(keys)(r[a], r[b]));
    let x = ps[r[a] as int].key@;
    let y = ps[r[b] as int].key@;
    assert(keys[r[a] as int] == seq![x]);
    assert(keys[r[b] as int] == seq![y]);
    if x != y {
        assert(chars_lt(x, y));
        if chars_lt(y, x) {
            lemma_not_before(x, y);
        }
    } else {
        lemma_chars_lt_irreflexive(x);
    }
}

/// Sorted by activity, the project page keeps the load order (most
/// recently active first).
pub proof fn law_project_activity_sort_keeps_load_order(app: App, state: ProjectPageState, a: int, b: int)
    requires
        state.sort == ProjSort::Activity,
        0 <= a < b < project_rows_spec(app, state).len(),
    ensures
        project_rows_spec(app, state)[a] < project_rows_spec(app, state)[b],
{
    let ps = app.projects@;
    lemma_vec_len_fits(app.projects);
    let pred = project_pred(ps, state);
    let base = filter_upto(ps.len(), pred);
    lemma_filter_upto(ps.len(), pred);
    let keys = project_keys(ps, state.sort);
    lemma_sorted_listing_props(base, keys);
    let r = project_rows_spec(app, state);
    assert(key_order(keys)(r[a], r[b]));
    assert(r.contains(r[a]) && r.contains(r[b]));
    let ka = choose|k: int| 0 <= k < base.len() && base[k] == r[a];
    let kb = choose|k: int| 0 <= k < base.len() && base[k] == r[b];
    assert(keys[r[a] as int] == Seq::<Seq<char>>::empty());
    assert(keys[r[b] as int] == Seq::<Seq<char>>::empty());
}

/// The activity mailbox lists an entry exactly when its kind passes the
/// filter and the lower-cased query is empty or found in the lower-cased
/// issue key, issue title, message or actor; entries keep the order they
/// were loaded in (newest first).
pub proof fn law_activity_rows_find_by_key_title_message_or_actor(
    app: App,
    state: ActivityPageState,
    i: int,
    a: int,
    b: int,
)
    requires
        0 <= i < app.activity@.len(),
    ensures
        ({
            let e = app.activity@[i];
            let q = lowercase(state.query@);
            activity_rows_spec(app, state).contains(i as usize) <==> act_filter_accepts(state.filter, e)
                && (q.len() == 0 || has_substring(lowercase(e.issue_key@), q) || has_substring(
                lowercase(e.title@),
                q,
            ) || has_substring(lowercase(e.message@), q) || has_substring(lowercase(actor_text(e)), q))
        }),
        0 <= a < b < activity_rows_spec(app, state).len() ==> activity_rows_spec(app, state)[a]
            < activity_rows_spec(app, state)[b],
{
    let es = app.activity@;
    lemma_vec_len_fits(app.activity);
    let pred = activity_pred(es, state);
    lemma_filter_upto(es.len(), pred);
    let rows = filter_upto(es.len(), pred);
    if rows.contains(i as usize) {
        let k = choose|k: int| 0 <= k < rows.len() && rows[k] == i as usize;
        assert(pred(rows[k] as int));
    }
    if pred(i) {
        assert(rows.contains(i as usize));
    }
}

} // verus!
