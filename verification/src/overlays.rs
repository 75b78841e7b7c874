//! Key handling for the overlays: opening the pages, the milestone picker,
//! the scope chips (`M` cycling, `SetScope`), and fuzzy find. Actions these
//! do not handle pass on to the pages.

use vstd::prelude::*;

use crate::actions::{Action, Command};
use crate::board::{auto_focused, fuzzy_results, fuzzy_search, locate, locate_focus_for_key};
use crate::model::{
    ActFilter, ActivityPageState, App, FuzzyState, MilestonePageState, MilestoneRef, Mode,
    PageSort, PickerState, ProjFilter, ProjSort, ProjectPageState, Scope, StatusFilter,
};
use crate::order::filter_upto;
use crate::pages::{ms_page_rel, update_milestone_page};
use crate::rows::{filtered_picker, picker_pred};
use crate::steps::{opt_chars, popped, said, sat_last, sat_sub, with_mode};
use crate::text::{
    chars_lt, lemma_chars_lt_irreflexive, lemma_chars_lt_total, lemma_chars_lt_transitive, pop_char,
    push_char, str_eq, str_lt,
};

verus! {

/// Milestone `i` belongs to project `p`.
pub open spec fn in_project(ms: Seq<MilestoneRef>, p: Seq<char>, i: int) -> bool {
    0 <= i < ms.len() && ms[i].project@ == p
}

/// `x` is the smallest milestone name of project `p`.
pub open spec fn least_name(ms: Seq<MilestoneRef>, p: Seq<char>, x: Seq<char>) -> bool {
    &&& exists|i: int| #[trigger] in_project(ms, p, i) && ms[i].name@ == x
    &&& forall|j: int| #[trigger] in_project(ms, p, j) ==> !chars_lt(ms[j].name@, x)
}

/// `x` is the smallest milestone name of project `p` above `cur`.
pub open spec fn name_after(ms: Seq<MilestoneRef>, p: Seq<char>, cur: Seq<char>, x: Seq<char>) -> bool {
    &&& exists|i: int| #[trigger] in_project(ms, p, i) && ms[i].name@ == x
    &&& chars_lt(cur, x)
    &&& forall|j: int|
        #[trigger] in_project(ms, p, j) && chars_lt(cur, ms[j].name@) ==> !chars_lt(ms[j].name@, x)
}

/// Project `p` has two milestones named `cur`.
pub open spec fn named_twice(ms: Seq<MilestoneRef>, p: Seq<char>, cur: Seq<char>) -> bool {
    exists|i: int, j: int|
        #[trigger] in_project(ms, p, i) && #[trigger] in_project(ms, p, j) && i != j && ms[i].name@
            == cur && ms[j].name@ == cur
}

/// The milestone filter after `M`, walking project `p`'s milestones in name
/// order: from no filter to the first name, from a name to the next one,
/// from the last (or an unknown name) back to no filter. Two milestones
/// with one name sort side by side, and the walk stays on that name.
pub open spec fn milestone_cycle(
    ms: Seq<MilestoneRef>,
    p: Seq<char>,
    cur: Option<Seq<char>>,
    next: Option<Seq<char>>,
) -> bool {
    match cur {
        None => next matches Some(x) && least_name(ms, p, x),
        Some(c) => if named_twice(ms, p, c) {
            next == Some(c)
        } else if (exists|i: int| #[trigger] in_project(ms, p, i) && ms[i].name@ == c) && (exists|
            i: int,
        | #[trigger] in_project(ms, p, i) && chars_lt(c, ms[i].name@)) {
            next matches Some(x) && name_after(ms, p, c, x)
        } else {
            next is None
        },
    }
}

/// The milestone filter that follows `cur` for project `project` (see
/// [`milestone_cycle`]); `None` when the project has no milestones.
pub fn next_milestone_filter(ms: &Vec<MilestoneRef>, project: &str, cur: &Option<String>) -> (r:
    Option<Option<String>>)
    ensures
        r is None <==> !(exists|i: int| #[trigger] in_project(ms@, project@, i)),
        r matches Some(n) ==> milestone_cycle(ms@, project@, opt_chars(*cur), opt_chars(n)),
{
    let n = ms.len();
    let mut least: Option<usize> = None;
    let mut first_hit: Option<usize> = None;
    let mut twice = false;
    let mut succ: Option<usize> = None;
    for i in 0..n
        invariant
            n == ms@.len(),
            least matches Some(l) ==> l < i && in_project(ms@, project@, l as int) && forall|j: int|
                0 <= j < i && #[trigger] in_project(ms@, project@, j) ==> !chars_lt(
                    ms@[j].name@,
                    ms@[l as int].name@,
                ),
            least is None ==> forall|j: int| 0 <= j < i ==> !#[trigger] in_project(ms@, project@, j),
            cur is None ==> first_hit is None && succ is None && !twice,
            cur matches Some(c) ==> {
                &&& first_hit matches Some(h) ==> h < i && in_project(ms@, project@, h as int)
                    && ms@[h as int].name@ == c@
                &&& first_hit is None ==> !twice && forall|j: int|
                    0 <= j < i && #[trigger] in_project(ms@, project@, j) ==> ms@[j].name@ != c@
                &&& twice ==> named_twice(ms@, project@, c@)
                &&& first_hit matches Some(h) ==> (!twice ==> forall|j: int|
                    0 <= j < i && #[trigger] in_project(ms@, project@, j) && ms@[j].name@ == c@
                        ==> j == h)
                &&& succ matches Some(s) ==> s < i && in_project(ms@, project@, s as int)
                    && chars_lt(c@, ms@[s as int].name@) && forall|j: int|
                    0 <= j < i && #[trigger] in_project(ms@, project@, j) && chars_lt(
                        c@,
                        ms@[j].name@,
                    ) ==> !chars_lt(ms@[j].name@, ms@[s as int].name@)
                &&& succ is None ==> forall|j: int|
                    0 <= j < i && #[trigger] in_project(ms@, project@, j) ==> !chars_lt(
                        c@,
                        ms@[j].name@,
                    )
            },
    {
        let m = &ms[i];
        proof {
            if let Some(c) = cur {
                lemma_chars_lt_irreflexive(c@);
            }
        }
        if str_eq(m.project.as_str(), project) {
            let take_least = match least {
                None => true,
                Some(l) => str_lt(m.name.as_str(), ms[l].name.as_str()),
            };
            if take_least {
                proof {
                    if let Some(l) = least {
                        assert forall|j: int|
                            0 <= j < i + 1 && #[trigger] in_project(ms@, project@, j) implies !chars_lt(
                            ms@[j].name@,
                            ms@[i as int].name@,
                        ) by {
                            if j < i && chars_lt(ms@[j].name@, ms@[i as int].name@) {
                                lemma_chars_lt_transitive(
                                    ms@[j].name@,
                                    ms@[i as int].name@,
                                    ms@[l as int].name@,
                                );
                            }
                            if j == i {
                                lemma_chars_lt_irreflexive(ms@[i as int].name@);
                            }
                        }
                    } else {
                        lemma_chars_lt_irreflexive(ms@[i as int].name@);
                    }
                }
                least = Some(i);
            }
            match cur {
                Some(c) => {
                    if str_eq(m.name.as_str(), c.as_str()) {
                        match first_hit {
                            Some(h) => {
                                proof {
                                    assert(in_project(ms@, project@, h as int));
                                    assert(in_project(ms@, project@, i as int));
                                }
                                twice = true;
                            },
                            None => {
                                first_hit = Some(i);
                            },
                        }
                    } else if str_lt(c.as_str(), m.name.as_str()) {
                        let take_succ = match succ {
                            None => true,
                            Some(s) => str_lt(m.name.as_str(), ms[s].name.as_str()),
                        };
                        if take_succ {
                            proof {
                                if let Some(s) = succ {
                                    assert forall|j: int|
                                        0 <= j < i + 1 && #[trigger] in_project(ms@, project@, j)
                                            && chars_lt(c@, ms@[j].name@) implies !chars_lt(
                                        ms@[j].name@,
                                        ms@[i as int].name@,
                                    ) by {
                                        if j < i && chars_lt(ms@[j].name@, ms@[i as int].name@) {
                                            lemma_chars_lt_transitive(
                                                ms@[j].name@,
                                                ms@[i as int].name@,
                                                ms@[s as int].name@,
                                            );
                                        }
                                        if j == i {
                                            lemma_chars_lt_irreflexive(ms@[i as int].name@);
                                        }
                                    }
                                } else {
                                    lemma_chars_lt_irreflexive(ms@[i as int].name@);
                                }
                            }
                            succ = Some(i);
                        }
                    }
                },
                None => {},
            }
        }
    }
    let l = match least {
        Some(l) => l,
        None => return None,
    };
    proof {
        assert(in_project(ms@, project@, l as int));
    }
    match cur {
        None => Some(Some(ms[l].name.clone())),
        Some(c) => {
            if twice {
                Some(Some(c.clone()))
            } else {
                match (first_hit, succ) {
                    (Some(h), Some(s)) => {
                        proof {
                            assert(in_project(ms@, project@, h as int));
                            assert(in_project(ms@, project@, s as int));
                        }
                        Some(Some(ms[s].name.clone()))
                    },
                    _ => {
                        proof {
                            if first_hit is None {
                                assert forall|i: int| #[trigger] in_project(ms@, project@, i) implies ms@[i].name@ != c@ by {}
                            }
                        }
                        Some(None)
                    },
                }
            }
        },
    }
}

/// `b` is `a` with the picker's query now `q` and the cursor on top.
pub open spec fn picker_requeried(a: App, b: App, p: PickerState, q: Seq<char>) -> bool {
    &&& b == with_mode(a, b.mode)
    &&& b.mode matches Mode::MilestonePicker(t) && t.query@ == q && t.cursor == 0 && t.items
        == p.items
}

/// `b` is `a` with fuzzy find's query now `q`, its results recomputed, and
/// the cursor on top.
pub open spec fn fuzzy_requeried(a: App, b: App, q: Seq<char>) -> bool {
    &&& b == with_mode(a, b.mode)
    &&& b.mode matches Mode::FuzzyFind(t) && t.query@ == q && t.cursor == 0
        && t.results@.map_values(|s: String| s@) == fuzzy_results(a, q)
}

/// What an action does in the overlays (and further down the chain).
pub open spec fn overlay_rel(a: App, b: App, act: Action, r: Option<Command>) -> bool {
    match act {
        Action::OpenProjectPage => r is None && b == with_mode(a, b.mode) && (b.mode matches Mode::ProjectPage(s)
            && s.cursor == 0 && s.query@.len() == 0 && s.filter == ProjFilter::Active && s.sort
            == ProjSort::Activity),
        Action::OpenActivityPage => r is None && b == with_mode(a, b.mode) && (b.mode matches Mode::ActivityPage(s)
            && s.cursor == 0 && s.query@.len() == 0 && s.filter == ActFilter::All),
        Action::OpenMilestonePicker => r is None && if a.scope.project is None {
            said(a, b, "scope a project first with p"@)
        } else {
            b == with_mode(a, b.mode) && (b.mode matches Mode::MilestonePicker(p) && p.query@.len()
                == 0 && p.items@.len() == 0 && p.cursor == 0)
        },
        Action::OpenMilestonePage => r is None && b == with_mode(a, b.mode) && (b.mode matches Mode::MilestonePage(s)
            && s.cursor == 0 && s.query@.len() == 0 && s.filter == StatusFilter::Open && s.sort
            == PageSort::Activity),
        Action::CycleMilestoneFilter => match a.scope.project {
            None => said(a, b, "scope a project first with p"@) && r is None,
            Some(p) => if !(exists|i: int| #[trigger] in_project(a.milestones@, p@, i)) {
                b == a && r is None
            } else {
                &&& r matches Some(Command::SetScope)
                &&& b == auto_focused(
                    App { scope: Scope { project: a.scope.project, milestone: b.scope.milestone }, ..a },
                )
                &&& milestone_cycle(
                    a.milestones@,
                    p@,
                    opt_chars(a.scope.milestone),
                    opt_chars(b.scope.milestone),
                )
            },
        },
        Action::SetScope(s) => b == auto_focused(App { scope: s, ..a }) && r matches Some(
            Command::SetScope,
        ),
        Action::PickerInput(c) => r is None && match a.mode {
            Mode::MilestonePicker(p) => picker_requeried(a, b, p, p.query@.push(c)),
            _ => b == a,
        },
        Action::PickerBackspace => r is None && match a.mode {
            Mode::MilestonePicker(p) => picker_requeried(a, b, p, popped(p.query@)),
            _ => b == a,
        },
        Action::PickerUp => r is None && match a.mode {
            Mode::MilestonePicker(p) => b == with_mode(
                a,
                Mode::MilestonePicker(PickerState { cursor: sat_sub(p.cursor as int, 1) as usize, ..p }),
            ),
            _ => b == a,
        },
        Action::PickerDown => r is None && match a.mode {
            Mode::MilestonePicker(p) => {
                let n = filter_upto(p.items@.len(), picker_pred(p)).len();
                b == with_mode(
                    a,
                    Mode::MilestonePicker(
                        PickerState {
                            cursor: if p.cursor + 1 < n {
                                (p.cursor + 1) as usize
                            } else {
                                p.cursor
                            },
                            ..p
                        },
                    ),
                )
            },
            _ => b == a,
        },
        Action::PickerConfirm => match a.mode {
            Mode::MilestonePicker(p) => {
                let rows = filter_upto(p.items@.len(), picker_pred(p));
                if p.cursor < rows.len() {
                    let chip = p.items@[rows[p.cursor as int] as int];
                    &&& b == auto_focused(
                        App {
                            mode: Mode::Normal,
                            scope: Scope { milestone: Some(chip.value), ..a.scope },
                            ..a
                        },
                    )
                    &&& r matches Some(Command::SetScope)
                } else {
                    b == a && r is None
                }
            },
            _ => b == a && r is None,
        },
        _ => fuzzy_rel(a, b, act, r),
    }
}

/// What an action does in fuzzy find (and further down the chain).
pub open spec fn fuzzy_rel(a: App, b: App, act: Action, r: Option<Command>) -> bool {
    match act {
        Action::OpenFuzzyFind => r is None && fuzzy_requeried(a, b, Seq::empty()),
        Action::FuzzyInput(c) => r is None && match a.mode {
            Mode::FuzzyFind(f) => fuzzy_requeried(a, b, f.query@.push(c)),
            _ => b == a,
        },
        Action::FuzzyBackspace => r is None && match a.mode {
            Mode::FuzzyFind(f) => fuzzy_requeried(a, b, popped(f.query@)),
            _ => b == a,
        },
        Action::FuzzyUp => r is None && match a.mode {
            Mode::FuzzyFind(f) => b == with_mode(
                a,
                Mode::FuzzyFind(FuzzyState { cursor: sat_sub(f.cursor as int, 1) as usize, ..f }),
            ),
            _ => b == a,
        },
        Action::FuzzyDown => r is None && match a.mode {
            Mode::FuzzyFind(f) => b == with_mode(
                a,
                Mode::FuzzyFind(
                    FuzzyState {
                        cursor: if f.cursor < sat_last(f.results@.len() as int) {
                            (f.cursor + 1) as usize
                        } else {
                            f.cursor
                        },
                        ..f
                    },
                ),
            ),
            _ => b == a,
        },
        Action::FuzzyConfirm => r is None && match a.mode {
            Mode::FuzzyFind(f) => if f.cursor < f.results@.len() {
                b == App {
                    focus: match locate(a, f.results@[f.cursor as int]@) {
                        Some(x) => x,
                        None => a.focus,
                    },
                    mode: Mode::Normal,
                    ..a
                }
            } else {
                b == a
            },
            _ => b == a,
        },
        _ => ms_page_rel(a, b, act, r),
    }
}

/// Takes the mode out of `app`, leaving `Normal` in its place.
fn take_mode(app: &mut App) -> (m: Mode)
    ensures
        m == old(app).mode,
        *final(app) == with_mode(*old(app), Mode::Normal),
{
    let mut m = Mode::Normal;
    std::mem::swap(&mut m, &mut app.mode);
    m
}

/// The overlays' key handling.
pub fn update_overlays(app: &mut App, action: Action) -> (r: Option<Command>)
    ensures
        overlay_rel(*old(app), *final(app), action, r),
{
    match action {
        Action::OpenProjectPage => {
            app.mode = Mode::ProjectPage(ProjectPageState::new());
            None
        },
        Action::OpenActivityPage => {
            app.mode = Mode::ActivityPage(ActivityPageState::new());
            None
        },
        Action::OpenMilestonePicker => {
            if app.scope.project.is_none() {
                app.status_msg = Some("scope a project first with p".to_owned());
                return None;
            }
            app.mode = Mode::MilestonePicker(
                PickerState { query: String::new(), items: Vec::new(), cursor: 0 },
            );
            None
        },
        Action::OpenMilestonePage => {
            app.mode = Mode::MilestonePage(MilestonePageState::new());
            None
        },
        Action::CycleMilestoneFilter => {
            let next = match &app.scope.project {
                None => {
                    app.status_msg = Some("scope a project first with p".to_owned());
                    return None;
                },
                Some(p) => next_milestone_filter(&app.milestones, p.as_str(), &app.scope.milestone),
            };
            match next {
                None => None,
                Some(m) => {
                    app.scope.milestone = m;
                    app.auto_focus_if_empty();
                    Some(Command::SetScope)
                },
            }
        },
        Action::SetScope(s) => {
            app.scope = s;
            app.auto_focus_if_empty();
            Some(Command::SetScope)
        },
        Action::PickerInput(c) => {
            let m = take_mode(app);
            match m {
                Mode::MilestonePicker(mut p) => {
                    push_char(&mut p.query, c);
                    p.cursor = 0;
                    app.mode = Mode::MilestonePicker(p);
                },
                other => {
                    app.mode = other;
                },
            }
            None
        },
        Action::PickerBackspace => {
            let m = take_mode(app);
            match m {
                Mode::MilestonePicker(mut p) => {
                    pop_char(&mut p.query);
                    p.cursor = 0;
                    app.mode = Mode::MilestonePicker(p);
                },
                other => {
                    app.mode = other;
                },
            }
            None
        },
        Action::PickerUp => {
            let m = take_mode(app);
            match m {
                Mode::MilestonePicker(mut p) => {
                    if p.cursor > 0 {
                        p.cursor = p.cursor - 1;
                    }
                    app.mode = Mode::MilestonePicker(p);
                },
                other => {
                    app.mode = other;
                },
            }
            None
        },
        Action::PickerDown => {
            let m = take_mode(app);
            match m {
                Mode::MilestonePicker(mut p) => {
                    let n = filtered_picker(&p).len();
                    if p.cursor < n && p.cursor + 1 < n {
                        p.cursor = p.cursor + 1;
                    }
                    app.mode = Mode::MilestonePicker(p);
                },
                other => {
                    app.mode = other;
                },
            }
            None
        },
        Action::PickerConfirm => {
            let value = match &app.mode {
                Mode::MilestonePicker(p) => {
                    let rows = filtered_picker(p);
                    let n = p.items.len();
                    if p.cursor < rows.len() {
                        proof {
                            crate::order::lemma_filter_upto(n as nat, picker_pred(*p));
                        }
                        p.items[rows[p.cursor]].value.clone()
                    } else {
                        return None;
                    }
                },
                _ => return None,
            };
            app.mode = Mode::Normal;
            app.scope.milestone = Some(value);
            app.auto_focus_if_empty();
            Some(Command::SetScope)
        },
        _ => update_fuzzy_overlay(app, action),
    }
}

/// Fuzzy find's key handling.
pub fn update_fuzzy_overlay(app: &mut App, action: Action) -> (r: Option<Command>)
    ensures
        fuzzy_rel(*old(app), *final(app), action, r),
{
    match action {
        Action::OpenFuzzyFind => {
            let results = fuzzy_search(app, "");
            proof {
                reveal_strlit("");
                assert(""@ =~= Seq::<char>::empty());
            }
            app.mode = Mode::FuzzyFind(FuzzyState { query: String::new(), results, cursor: 0 });
            None
        },
        Action::FuzzyInput(c) => {
            let q = match &app.mode {
                Mode::FuzzyFind(f) => {
                    let mut q = f.query.clone();
                    push_char(&mut q, c);
                    q
                },
                _ => return None,
            };
            let results = fuzzy_search(app, q.as_str());
            app.mode = Mode::FuzzyFind(FuzzyState { query: q, results, cursor: 0 });
            None
        },
        Action::FuzzyBackspace => {
            let q = match &app.mode {
                Mode::FuzzyFind(f) => {
                    let mut q = f.query.clone();
                    pop_char(&mut q);
                    q
                },
                _ => return None,
            };
            let results = fuzzy_search(app, q.as_str());
            app.mode = Mode::FuzzyFind(FuzzyState { query: q, results, cursor: 0 });
            None
        },
        Action::FuzzyUp => {
            let m = take_mode(app);
            match m {
                Mode::FuzzyFind(mut f) => {
                    if f.cursor > 0 {
                        f.cursor = f.cursor - 1;
                    }
                    app.mode = Mode::FuzzyFind(f);
                },
                other => {
                    app.mode = other;
                },
            }
            None
        },
        Action::FuzzyDown => {
            let m = take_mode(app);
            match m {
                Mode::FuzzyFind(mut f) => {
                    let n = f.results.len();
                    if n > 0 && f.cursor < n - 1 {
                        f.cursor = f.cursor + 1;
                    }
                    app.mode = Mode::FuzzyFind(f);
                },
                other => {
                    app.mode = other;
                },
            }
            None
        },
        Action::FuzzyConfirm => {
            let target = match &app.mode {
                Mode::FuzzyFind(f) => {
                    if f.cursor < f.results.len() {
                        f.results[f.cursor].clone()
                    } else {
                        return None;
                    }
                },
                _ => return None,
            };
            match locate_focus_for_key(app, target.as_str()) {
                Some(focus) => {
                    app.focus = focus;
                },
                None => {},
            }
            app.mode = Mode::Normal;
            None
        },
        _ => update_milestone_page(app, action),
    }
}

} // verus!
