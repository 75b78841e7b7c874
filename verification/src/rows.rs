//! The rows each list view shows: the milestone picker, the milestone,
//! project and activity pages, and the generic picker filter. Each is a
//! filter over the source list, then (for the pages) the chosen order.

use vstd::prelude::*;

use crate::model::{
    ActivityPageState, ActivityRef, App, MilestonePageState, MilestoneRef, PageSort, PickerState,
    ProjSort, ProjectPageState, ProjectRef, act_filter_accepts, proj_filter_accepts,
    status_filter_accepts,
};
use crate::order::{filter_upto, lemma_filter_upto, sorted_by, same_elements};
use crate::sorting::{sort_by_keys, sorted_listing, key_texts, key_order, texts, tuple_lt};
use crate::text::{chars_of, has_substring, lower_contains, lowercase, to_lower};

verus! {

/// Whether the picker item at `i` passes the query: an empty query keeps
/// everything, otherwise the label must contain the query, ignoring case.
pub open spec fn picker_pred(p: PickerState) -> spec_fn(int) -> bool {
    |i: int|
        p.query@.len() == 0 || has_substring(lowercase(p.items@[i].label@), lowercase(p.query@))
}

/// Substring filter over picker labels; returns indices into `items`.
pub fn filtered_picker(p: &PickerState) -> (r: Vec<usize>)
    ensures
        r@ == filter_upto(p.items@.len(), picker_pred(*p)),
{
    let ghost pred = picker_pred(*p);
    let q = to_lower(p.query.as_str());
    let qc = chars_of(q.as_str());
    let empty = p.query.as_str().is_empty();
    let mut out: Vec<usize> = Vec::new();
    for i in 0..p.items.len()
        invariant
            pred == picker_pred(*p),
            qc@ == lowercase(p.query@),
            empty == (p.query@.len() == 0),
            out@ == filter_upto(i as nat, pred),
    {
        if empty || lower_contains(p.items[i].label.as_str(), &qc) {
            out.push(i);
        }
    }
    out
}

/// Case-insensitive substring filter over `items`; an empty query matches
/// everything. Returns indices into `items`.
pub open spec fn fuzzy_pred(items: Seq<String>, query: Seq<char>) -> spec_fn(int) -> bool {
    |i: int| query.len() == 0 || has_substring(lowercase(items[i]@), lowercase(query))
}

pub fn fuzzy_indices(items: &Vec<String>, query: &str) -> (r: Vec<usize>)
    ensures
        r@ == filter_upto(items@.len(), fuzzy_pred(items@, query@)),
{
    let ghost pred = fuzzy_pred(items@, query@);
    let empty = query.is_empty();
    let q = to_lower(query);
    let qc = chars_of(q.as_str());
    let mut out: Vec<usize> = Vec::new();
    for i in 0..items.len()
        invariant
            pred == fuzzy_pred(items@, query@),
            qc@ == lowercase(query@),
            empty == (query@.len() == 0),
            out@ == filter_upto(i as nat, pred),
    {
        if empty || lower_contains(items[i].as_str(), &qc) {
            out.push(i);
        }
    }
    out
}

/// Milestone `i` is in the page's status bucket and matches the query on
/// its name or project key.
pub open spec fn page_pred(ms: Seq<MilestoneRef>, state: MilestonePageState) -> spec_fn(int) -> bool {
    |i: int|
        {
            let q = lowercase(state.query@);
            status_filter_accepts(state.filter, ms[i].status@) && (q.len() == 0 || has_substring(
                lowercase(ms[i].name@),
                q,
            ) || has_substring(lowercase(ms[i].project@), q))
        }
}

/// The key a milestone sorts by: by activity nothing (load order), by name
/// (project, name), by target (undated last, then target, then name).
pub open spec fn milestone_key(m: MilestoneRef, sort: PageSort) -> Seq<Seq<char>> {
    match sort {
        PageSort::Activity => Seq::empty(),
        PageSort::Name => seq![m.project@, m.name@],
        PageSort::Target => match m.target {
            Some(t) => seq!["0"@, t@, m.name@],
            None => seq!["1"@, Seq::<char>::empty(), m.name@],
        },
    }
}

pub open spec fn milestone_keys(ms: Seq<MilestoneRef>, sort: PageSort) -> Seq<Seq<Seq<char>>> {
    Seq::new(ms.len(), |i: int| milestone_key(ms[i], sort))
}

/// The milestone page's rows (indices into `app.milestones`).
pub open spec fn page_rows_spec(app: App, state: MilestonePageState) -> Seq<usize> {
    sorted_listing(
        filter_upto(app.milestones@.len(), page_pred(app.milestones@, state)),
        milestone_keys(app.milestones@, state.sort),
    )
}

fn milestone_sort_key(m: &MilestoneRef, sort: PageSort) -> (r: Vec<String>)
    ensures
        texts(r) == milestone_key(*m, sort),
{
    let r = match sort {
        PageSort::Activity => Vec::new(),
        PageSort::Name => vec![m.project.clone(), m.name.clone()],
        PageSort::Target => match &m.target {
            Some(t) => vec!["0".to_owned(), t.clone(), m.name.clone()],
            None => vec!["1".to_owned(), String::new(), m.name.clone()],
        },
    };
    proof {
        assert(texts(r) =~= milestone_key(*m, sort));
    }
    r
}

/// A listing in increasing index order is the stable sort under keys that
/// are all equal.
proof fn lemma_identity_listing(base: Seq<usize>, keys: Seq<Seq<Seq<char>>>)
    requires
        forall|a: int, b: int| 0 <= a < b < base.len() ==> base[a] < base[b],
        forall|i: int| 0 <= i < keys.len() ==> #[trigger] keys[i] == Seq::<Seq<char>>::empty(),
        forall|k: int| 0 <= k < base.len() ==> (#[trigger] base[k] as int) < keys.len(),
    ensures
        sorted_listing(base, keys) == base,
{
    let lt = key_order(keys);
    assert forall|a: int, b: int| 0 <= a < b < base.len() implies #[trigger] lt(base[a], base[b]) by {
        assert(keys[base[a] as int] == keys[base[b] as int]);
    }
    crate::sorting::lemma_sorted_listing(base, base, keys);
}

/// The milestone page's visible rows, as indices into `app.milestones`:
/// status bucket, then a case-insensitive substring match on name (or project
/// key), then the chosen ordering.
pub fn page_rows(app: &App, state: &MilestonePageState) -> (r: Vec<usize>)
    ensures
        r@ == page_rows_spec(*app, *state),
        forall|k: int| 0 <= k < r@.len() ==> (#[trigger] r@[k] as int) < app.milestones@.len(),
{
    let ghost pred = page_pred(app.milestones@, *state);
    let q = to_lower(state.query.as_str());
    let qc = chars_of(q.as_str());
    let n = app.milestones.len();
    let mut base: Vec<usize> = Vec::new();
    let mut keys: Vec<Vec<String>> = Vec::new();
    for i in 0..n
        invariant
            n == app.milestones@.len(),
            pred == page_pred(app.milestones@, *state),
            qc@ == lowercase(state.query@),
            base@ == filter_upto(i as nat, pred),
            keys@.len() == i,
            forall|j: int| 0 <= j < i ==> texts(#[trigger] keys@[j]) == milestone_key(app.milestones@[j], state.sort),
    {
        let m = &app.milestones[i];
        let hit = state.filter.accepts(m.status.as_str()) && (qc.len() == 0 || lower_contains(
            m.name.as_str(),
            &qc,
        ) || lower_contains(m.project.as_str(), &qc));
        if hit {
            base.push(i);
        }
        keys.push(milestone_sort_key(m, state.sort));
    }
    proof {
        lemma_filter_upto(n as nat, pred);
        assert(key_texts(keys@) =~= milestone_keys(app.milestones@, state.sort));
        assert forall|i: int, j: int|
            0 <= i < keys@.len() && 0 <= j < keys@.len() implies #[trigger] keys@[i]@.len()
            == #[trigger] keys@[j]@.len() by {
            assert(texts(keys@[i]).len() == keys@[i]@.len());
            assert(texts(keys@[j]).len() == keys@[j]@.len());
        }
    }
    match state.sort {
        PageSort::Activity => {
            proof {
                lemma_identity_listing(base@, milestone_keys(app.milestones@, state.sort));
            }
            base
        },
        _ => {
            let r = sort_by_keys(&base, &keys);
            proof {
                assert forall|k: int| 0 <= k < r@.len() implies (#[trigger] r@[k] as int) < app.milestones@.len() by {
                    assert(base@.contains(r@[k]));
                }
            }
            r
        },
    }
}

/// The milestone the page cursor is on, if any.
pub fn page_focused<'a>(app: &'a App, state: &MilestonePageState) -> (r: Option<&'a MilestoneRef>)
    ensures
        r matches Some(m) ==> state.cursor < page_rows_spec(*app, *state).len() && *m
            == app.milestones@[page_rows_spec(*app, *state)[state.cursor as int] as int],
        r is None ==> state.cursor >= page_rows_spec(*app, *state).len(),
{
    let rows = page_rows(app, state);
    if state.cursor < rows.len() {
        Some(&app.milestones[rows[state.cursor]])
    } else {
        None
    }
}

/// Project `i` is in the page's archive bucket and matches the query on its
/// key or name.
pub open spec fn project_pred(ps: Seq<ProjectRef>, state: ProjectPageState) -> spec_fn(int) -> bool {
    |i: int|
        {
            let q = lowercase(state.query@);
            proj_filter_accepts(state.filter, ps[i].archived) && (q.len() == 0 || has_substring(
                lowercase(ps[i].key@),
                q,
            ) || has_substring(lowercase(ps[i].name@), q))
        }
}

/// The key a project sorts by: by activity nothing (load order), by name
/// its key.
pub open spec fn project_key(p: ProjectRef, sort: ProjSort) -> Seq<Seq<char>> {
    match sort {
        ProjSort::Activity => Seq::empty(),
        ProjSort::Name => seq![p.key@],
    }
}

pub open spec fn project_keys(ps: Seq<ProjectRef>, sort: ProjSort) -> Seq<Seq<Seq<char>>> {
    Seq::new(ps.len(), |i: int| project_key(ps[i], sort))
}

/// The project page's rows (indices into `app.projects`).
pub open spec fn project_rows_spec(app: App, state: ProjectPageState) -> Seq<usize> {
    sorted_listing(
        filter_upto(app.projects@.len(), project_pred(app.projects@, state)),
        project_keys(app.projects@, state.sort),
    )
}

/// The project page's visible rows, as indices into `app.projects`:
/// archive bucket, then a case-insensitive substring match on key or name,
/// then the chosen ordering.
pub fn project_rows(app: &App, state: &ProjectPageState) -> (r: Vec<usize>)
    ensures
        r@ == project_rows_spec(*app, *state),
        forall|k: int| 0 <= k < r@.len() ==> (#[trigger] r@[k] as int) < app.projects@.len(),
{
    let ghost pred = project_pred(app.projects@, *state);
    let q = to_lower(state.query.as_str());
    let qc = chars_of(q.as_str());
    let n = app.projects.len();
    let mut base: Vec<usize> = Vec::new();
    let mut keys: Vec<Vec<String>> = Vec::new();
    for i in 0..n
        invariant
            n == app.projects@.len(),
            pred == project_pred(app.projects@, *state),
            qc@ == lowercase(state.query@),
            base@ == filter_upto(i as nat, pred),
            keys@.len() == i,
            forall|j: int| 0 <= j < i ==> texts(#[trigger] keys@[j]) == project_key(app.projects@[j], state.sort),
    {
        let p = &app.projects[i];
        let hit = state.filter.accepts(p.archived) && (qc.len() == 0 || lower_contains(
            p.key.as_str(),
            &qc,
        ) || lower_contains(p.name.as_str(), &qc));
        if hit {
            base.push(i);
        }
        let k = match state.sort {
            ProjSort::Activity => Vec::new(),
            ProjSort::Name => vec![p.key.clone()],
        };
        proof {
            assert(texts(k) =~= project_key(*p, state.sort));
        }
        keys.push(k);
    }
    proof {
        lemma_filter_upto(n as nat, pred);
        assert(key_texts(keys@) =~= project_keys(app.projects@, state.sort));
        assert forall|i: int, j: int|
            0 <= i < keys@.len() && 0 <= j < keys@.len() implies #[trigger] keys@[i]@.len()
            == #[trigger] keys@[j]@.len() by {
            assert(texts(keys@[i]).len() == keys@[i]@.len());
            assert(texts(keys@[j]).len() == keys@[j]@.len());
        }
    }
    match state.sort {
        ProjSort::Activity => {
            proof {
                lemma_identity_listing(base@, project_keys(app.projects@, state.sort));
            }
            base
        },
        ProjSort::Name => {
            let r = sort_by_keys(&base, &keys);
            proof {
                assert forall|k: int| 0 <= k < r@.len() implies (#[trigger] r@[k] as int) < app.projects@.len() by {
                    assert(base@.contains(r@[k]));
                }
            }
            r
        },
    }
}

/// The project the page cursor is on, if any.
pub fn project_focused<'a>(app: &'a App, state: &ProjectPageState) -> (r: Option<&'a ProjectRef>)
    ensures
        r matches Some(p) ==> state.cursor < project_rows_spec(*app, *state).len() && *p
            == app.projects@[project_rows_spec(*app, *state)[state.cursor as int] as int],
        r is None ==> state.cursor >= project_rows_spec(*app, *state).len(),
{
    let rows = project_rows(app, state);
    if state.cursor < rows.len() {
        Some(&app.projects[rows[state.cursor]])
    } else {
        None
    }
}

/// The actor's name, or nothing.
pub open spec fn actor_text(e: ActivityRef) -> Seq<char> {
    match e.actor {
        Some(a) => a@,
        None => Seq::empty(),
    }
}

/// Entry `i` is in the filter's bucket and matches the query on issue key,
/// title, message, or actor.
pub open spec fn activity_pred(es: Seq<ActivityRef>, state: ActivityPageState) -> spec_fn(int) -> bool {
    |i: int|
        {
            let q = lowercase(state.query@);
            let e = es[i];
            act_filter_accepts(state.filter, e) && (q.len() == 0 || has_substring(
                lowercase(e.issue_key@),
                q,
            ) || has_substring(lowercase(e.title@), q) || has_substring(lowercase(e.message@), q)
                || has_substring(lowercase(actor_text(e)), q))
        }
}

/// The activity mailbox's rows (indices into `app.activity`).
pub open spec fn activity_rows_spec(app: App, state: ActivityPageState) -> Seq<usize> {
    filter_upto(app.activity@.len(), activity_pred(app.activity@, state))
}

/// The activity mailbox's visible rows, as indices into `app.activity`:
/// event-kind bucket, then a case-insensitive substring match on issue key,
/// title, message, or actor, newest first as loaded.
pub fn activity_rows(app: &App, state: &ActivityPageState) -> (r: Vec<usize>)
    ensures
        r@ == activity_rows_spec(*app, *state),
        forall|k: int| 0 <= k < r@.len() ==> (#[trigger] r@[k] as int) < app.activity@.len(),
{
    let ghost pred = activity_pred(app.activity@, *state);
    let q = to_lower(state.query.as_str());
    let qc = chars_of(q.as_str());
    let n = app.activity.len();
    let mut out: Vec<usize> = Vec::new();
    for i in 0..n
        invariant
            n == app.activity@.len(),
            pred == activity_pred(app.activity@, *state),
            qc@ == lowercase(state.query@),
            out@ == filter_upto(i as nat, pred),
    {
        let e = &app.activity[i];
        let actor: &str = match &e.actor {
            Some(a) => a.as_str(),
            None => "",
        };
        proof {
            reveal_strlit("");
            assert(actor@ == actor_text(*e));
        }
        let hit = state.filter.accepts(e) && (qc.len() == 0 || lower_contains(
            e.issue_key.as_str(),
            &qc,
        ) || lower_contains(e.title.as_str(), &qc) || lower_contains(e.message.as_str(), &qc)
            || lower_contains(actor, &qc));
        if hit {
            out.push(i);
        }
    }
    proof {
        lemma_filter_upto(n as nat, pred);
    }
    out
}

/// The entry the mailbox cursor is on, if any.
pub fn activity_focused<'a>(app: &'a App, state: &ActivityPageState) -> (r: Option<&'a ActivityRef>)
    ensures
        r matches Some(e) ==> state.cursor < activity_rows_spec(*app, *state).len() && *e
            == app.activity@[activity_rows_spec(*app, *state)[state.cursor as int] as int],
        r is None ==> state.cursor >= activity_rows_spec(*app, *state).len(),
{
    let rows = activity_rows(app, state);
    if state.cursor < rows.len() {
        Some(&app.activity[rows[state.cursor]])
    } else {
        None
    }
}

proof fn lemma_filter_keeps_all(n: nat, p: spec_fn(int) -> bool)
    requires
        n <= usize::MAX,
        forall|i: int| 0 <= i < n ==> #[trigger] p(i),
    ensures
        filter_upto(n, p) =~= Seq::new(n, |i: int| i as usize),
    decreases n,
{
    if n > 0 {
        lemma_filter_keeps_all((n - 1) as nat, p);
        assert(p(n - 1));
    }
}

/// An empty query matches everything, in order.
pub proof fn law_empty_query_matches_all(items: Seq<String>, query: Seq<char>)
    requires
        query.len() == 0,
        items.len() <= usize::MAX,
    ensures
        filter_upto(items.len(), fuzzy_pred(items, query)) == Seq::new(items.len(), |i: int| i as usize),
{
    lemma_filter_keeps_all(items.len(), fuzzy_pred(items, query));
}

/// A picker whose query is empty lists every item, in order.
pub proof fn law_empty_picker_query_lists_all(p: PickerState)
    requires
        p.query@.len() == 0,
        p.items@.len() <= usize::MAX,
    ensures
        filter_upto(p.items@.len(), picker_pred(p)) == Seq::new(p.items@.len(), |i: int| i as usize),
{
    lemma_filter_keeps_all(p.items@.len(), picker_pred(p));
}

} // verus!
