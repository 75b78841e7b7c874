//! Key handling on the three list pages (milestones, projects, activity).
//! Every arm re-derives its target from the loaded lists through the page's
//! rows, so the page always acts on what is on screen right now. The pages
//! form the tail of the dispatch chain: an action a page does not handle,
//! or that arrives while that page is not open, passes to the next page.

use vstd::prelude::*;

use crate::actions::{Action, Command};
use crate::board::{auto_focused, locate, locate_focus_for_key};
use crate::model::{
    ActivityPageState, App, MilestonePageState, Mode, ProjectPageState, Scope,
    act_filter_next, act_filter_prev, next_status_text, page_sort_next, proj_filter_next,
    proj_filter_prev, proj_sort_next, status_filter_next, status_filter_prev,
};
use crate::rows::{
    activity_focused, activity_rows, activity_rows_spec, page_focused, page_rows, page_rows_spec,
    project_focused, project_rows, project_rows_spec,
};
use crate::steps::{
    cmd_edit_milestone, cmd_edit_project, cmd_milestone_status, cmd_new_milestone,
    cmd_project_archived, copy_act_state, copy_ms_state, copy_opt, copy_proj_state, last_index,
    min_int, min_usize, opt_chars, paged, paged_cursor, popped, said, sat_last, sat_sub, step_down,
    step_up, with_mode,
};
use crate::text::{concat, pop_char, push_char, str_eq};

verus! {

/// The message when the board cannot show an issue.
pub open spec fn off_board_msg(key: Seq<char>) -> Seq<char> {
    key + " isn't on the board (archived or out of scope)"@
}

/// `b` is `a` with the milestone page's query now `q`, the cursor back on
/// top, and the bucket and order kept.
pub open spec fn ms_requeried(a: App, b: App, s: MilestonePageState, q: Seq<char>) -> bool {
    &&& b == with_mode(a, b.mode)
    &&& b.mode matches Mode::MilestonePage(t) && t.query@ == q && t.cursor == 0 && t.filter
        == s.filter && t.sort == s.sort
}

pub open spec fn proj_requeried(a: App, b: App, s: ProjectPageState, q: Seq<char>) -> bool {
    &&& b == with_mode(a, b.mode)
    &&& b.mode matches Mode::ProjectPage(t) && t.query@ == q && t.cursor == 0 && t.filter
        == s.filter && t.sort == s.sort
}

pub open spec fn act_requeried(a: App, b: App, s: ActivityPageState, q: Seq<char>) -> bool {
    &&& b == with_mode(a, b.mode)
    &&& b.mode matches Mode::ActivityPage(t) && t.query@ == q && t.cursor == 0 && t.filter
        == s.filter
}

/// What an action does on the milestone page (and, when that page is not
/// open or the action is not one of its own, further down the chain).
pub open spec fn ms_page_rel(a: App, b: App, act: Action, r: Option<Command>) -> bool {
    match a.mode {
        Mode::MilestonePage(s) => {
            let rows = page_rows_spec(a, s);
            let last = sat_last(rows.len() as int);
            let on = s.cursor < rows.len();
            let m = a.milestones@[rows[s.cursor as int] as int];
            let moved = |c: int| b == with_mode(a, Mode::MilestonePage(MilestonePageState { cursor: c as usize, ..s })) && r is None;
            match act {
                Action::MsPageInput(c) => ms_requeried(a, b, s, s.query@.push(c)) && r is None,
                Action::MsPageBackspace => ms_requeried(a, b, s, popped(s.query@)) && r is None,
                Action::PageCursor(i) => moved(min_int(i as int, last)),
                Action::MsPageUp => moved(sat_sub(s.cursor as int, 1)),
                Action::MsPageDown => moved(if s.cursor < last { s.cursor + 1 } else { s.cursor as int }),
                Action::MsPagePage(d) => moved(paged(s.cursor as int, d, last)),
                Action::MsPageTop => moved(0),
                Action::MsPageBottom => moved(last),
                Action::MsPageCycleFilter => b == with_mode(
                    a,
                    Mode::MilestonePage(MilestonePageState { filter: status_filter_next(s.filter), cursor: 0, ..s }),
                ) && r is None,
                Action::MsPageCycleFilterBack => b == with_mode(
                    a,
                    Mode::MilestonePage(MilestonePageState { filter: status_filter_prev(s.filter), cursor: 0, ..s }),
                ) && r is None,
                Action::MsPageCycleSort => b == with_mode(
                    a,
                    Mode::MilestonePage(MilestonePageState { sort: page_sort_next(s.sort), cursor: 0, ..s }),
                ) && r is None,
                Action::MsPageEdit => b == a && if on {
                    cmd_edit_milestone(r, m.project@, m.name@)
                } else {
                    r is None
                },
                Action::MsPageNew => b == a && cmd_new_milestone(
                    r,
                    if on { Some(m.project@) } else { opt_chars(a.scope.project) },
                ),
                Action::MsPageCycleStatus => b == a && if on {
                    cmd_milestone_status(r, m.project@, m.name@, next_status_text(m.status@))
                } else {
                    r is None
                },
                Action::MsPageSelect => if on {
                    &&& b == auto_focused(
                        App {
                            scope: Scope { project: Some(m.project), milestone: Some(m.name) },
                            mode: Mode::Normal,
                            ..a
                        },
                    )
                    &&& r matches Some(Command::SetScope)
                } else {
                    b == a && r is None
                },
                _ => proj_page_rel(a, b, act, r),
            }
        },
        _ => proj_page_rel(a, b, act, r),
    }
}

/// What an action does on the project page (the archive confirmation
/// first, which carries its own target and page state).
pub open spec fn proj_page_rel(a: App, b: App, act: Action, r: Option<Command>) -> bool {
    match act {
        Action::ProjPageArchive => match a.mode {
            Mode::ConfirmProjectArchive { key, archived, page } => {
                let scope = if archived && opt_chars(a.scope.project) == Some(key@) {
                    Scope { project: None, milestone: None }
                } else {
                    a.scope
                };
                b == App { scope, mode: Mode::ProjectPage(page), ..a } && cmd_project_archived(
                    r,
                    key@,
                    archived,
                )
            },
            _ => b == a && r is None,
        },
        _ => match a.mode {
            Mode::ProjectPage(s) => {
                let rows = project_rows_spec(a, s);
                let last = sat_last(rows.len() as int);
                let on = s.cursor < rows.len();
                let p = a.projects@[rows[s.cursor as int] as int];
                let moved = |c: int| b == with_mode(a, Mode::ProjectPage(ProjectPageState { cursor: c as usize, ..s })) && r is None;
                match act {
                    Action::ProjPageInput(c) => proj_requeried(a, b, s, s.query@.push(c)) && r is None,
                    Action::ProjPageBackspace => proj_requeried(a, b, s, popped(s.query@)) && r is None,
                    Action::PageCursor(i) => moved(min_int(i as int, last)),
                    Action::ProjPageUp => moved(sat_sub(s.cursor as int, 1)),
                    Action::ProjPageDown => moved(if s.cursor < last { s.cursor + 1 } else { s.cursor as int }),
                    Action::ProjPagePage(d) => moved(paged(s.cursor as int, d, last)),
                    Action::ProjPageTop => moved(0),
                    Action::ProjPageBottom => moved(last),
                    Action::ProjPageCycleFilter => b == with_mode(
                        a,
                        Mode::ProjectPage(ProjectPageState { filter: proj_filter_next(s.filter), cursor: 0, ..s }),
                    ) && r is None,
                    Action::ProjPageCycleFilterBack => b == with_mode(
                        a,
                        Mode::ProjectPage(ProjectPageState { filter: proj_filter_prev(s.filter), cursor: 0, ..s }),
                    ) && r is None,
                    Action::ProjPageCycleSort => b == with_mode(
                        a,
                        Mode::ProjectPage(ProjectPageState { sort: proj_sort_next(s.sort), cursor: 0, ..s }),
                    ) && r is None,
                    Action::ProjPageEdit => b == a && if on {
                        cmd_edit_project(r, p.key@)
                    } else {
                        r is None
                    },
                    Action::ProjPageNew => b == a && r matches Some(Command::NewProject),
                    Action::ProjPageArchiveRequest => r is None && if on {
                        b == with_mode(
                            a,
                            Mode::ConfirmProjectArchive { key: p.key, archived: !p.archived, page: s },
                        )
                    } else {
                        b == a
                    },
                    Action::ProjPageSelect => if !on {
                        b == a && r is None
                    } else if p.archived {
                        said(a, b, "unarchive it (A) before scoping the board to it"@) && r is None
                    } else {
                        &&& b == auto_focused(
                            App {
                                scope: Scope { project: Some(p.key), milestone: a.scope.milestone },
                                mode: Mode::Normal,
                                ..a
                            },
                        )
                        &&& r matches Some(Command::SetScope)
                    },
                    _ => act_page_rel(a, b, act, r),
                }
            },
            _ => act_page_rel(a, b, act, r),
        },
    }
}

/// What an action does on the activity page, the last stop of the chain:
/// anything it does not handle changes nothing.
pub open spec fn act_page_rel(a: App, b: App, act: Action, r: Option<Command>) -> bool {
    match a.mode {
        Mode::ActivityPage(s) => {
            let rows = activity_rows_spec(a, s);
            let last = sat_last(rows.len() as int);
            let on = s.cursor < rows.len();
            let e = a.activity@[rows[s.cursor as int] as int];
            let moved = |c: int| b == with_mode(a, Mode::ActivityPage(ActivityPageState { cursor: c as usize, ..s })) && r is None;
            match act {
                Action::ActPageInput(c) => act_requeried(a, b, s, s.query@.push(c)) && r is None,
                Action::ActPageBackspace => act_requeried(a, b, s, popped(s.query@)) && r is None,
                Action::PageCursor(i) => moved(min_int(i as int, last)),
                Action::ActPageUp => moved(sat_sub(s.cursor as int, 1)),
                Action::ActPageDown => moved(if s.cursor < last { s.cursor + 1 } else { s.cursor as int }),
                Action::ActPagePage(d) => moved(paged(s.cursor as int, d, last)),
                Action::ActPageTop => moved(0),
                Action::ActPageBottom => moved(last),
                Action::ActPageCycleFilter => b == with_mode(
                    a,
                    Mode::ActivityPage(ActivityPageState { filter: act_filter_next(s.filter), cursor: 0, ..s }),
                ) && r is None,
                Action::ActPageCycleFilterBack => b == with_mode(
                    a,
                    Mode::ActivityPage(ActivityPageState { filter: act_filter_prev(s.filter), cursor: 0, ..s }),
                ) && r is None,
                Action::ActPageSelect => r is None && if !on {
                    b == a
                } else {
                    match locate(a, e.issue_key@) {
                        Some(f) => b == App { focus: f, mode: Mode::Normal, ..a },
                        None => said(a, b, off_board_msg(e.issue_key@)),
                    }
                },
                _ => b == a && r is None,
            }
        },
        _ => b == a && r is None,
    }
}

/// The milestone page's key handling.
pub fn update_milestone_page(app: &mut App, action: Action) -> (r: Option<Command>)
    ensures
        ms_page_rel(*old(app), *final(app), action, r),
{
    let s = match &app.mode {
        Mode::MilestonePage(s) => copy_ms_state(s),
        _ => return update_project_page(app, action),
    };
    match action {
        Action::MsPageInput(c) => {
            let mut t = s;
            push_char(&mut t.query, c);
            t.cursor = 0;
            app.mode = Mode::MilestonePage(t);
            None
        },
        Action::MsPageBackspace => {
            let mut t = s;
            pop_char(&mut t.query);
            t.cursor = 0;
            app.mode = Mode::MilestonePage(t);
            None
        },
        Action::PageCursor(i) => {
            let last = last_index(page_rows(app, &s).len());
            app.mode = Mode::MilestonePage(MilestonePageState { cursor: min_usize(i, last), ..s });
            None
        },
        Action::MsPageUp => {
            let c = step_up(s.cursor);
            app.mode = Mode::MilestonePage(MilestonePageState { cursor: c, ..s });
            None
        },
        Action::MsPageDown => {
            let last = last_index(page_rows(app, &s).len());
            let c = step_down(s.cursor, last);
            app.mode = Mode::MilestonePage(MilestonePageState { cursor: c, ..s });
            None
        },
        Action::MsPagePage(d) => {
            let last = last_index(page_rows(app, &s).len());
            let c = paged_cursor(s.cursor, d, last);
            app.mode = Mode::MilestonePage(MilestonePageState { cursor: c, ..s });
            None
        },
        Action::MsPageTop => {
            app.mode = Mode::MilestonePage(MilestonePageState { cursor: 0, ..s });
            None
        },
        Action::MsPageBottom => {
            let last = last_index(page_rows(app, &s).len());
            app.mode = Mode::MilestonePage(MilestonePageState { cursor: last, ..s });
            None
        },
        Action::MsPageCycleFilter => {
            let f = s.filter.next();
            app.mode = Mode::MilestonePage(MilestonePageState { filter: f, cursor: 0, ..s });
            None
        },
        Action::MsPageCycleFilterBack => {
            let f = s.filter.prev();
            app.mode = Mode::MilestonePage(MilestonePageState { filter: f, cursor: 0, ..s });
            None
        },
        Action::MsPageCycleSort => {
            let o = s.sort.next();
            app.mode = Mode::MilestonePage(MilestonePageState { sort: o, cursor: 0, ..s });
            None
        },
        Action::MsPageEdit => match page_focused(app, &s) {
            Some(m) => Some(Command::EditMilestone { project: m.project.clone(), name: m.name.clone() }),
            None => None,
        },
        Action::MsPageNew => {
            let project = match page_focused(app, &s) {
                Some(m) => Some(m.project.clone()),
                None => copy_opt(&app.scope.project),
            };
            Some(Command::NewMilestone { project })
        },
        Action::MsPageCycleStatus => match page_focused(app, &s) {
            Some(m) => {
                let status = m.next_status().to_owned();
                Some(
                    Command::SetMilestoneStatus {
                        project: m.project.clone(),
                        name: m.name.clone(),
                        status,
                    },
                )
            },
            None => None,
        },
        Action::MsPageSelect => {
            let (project, name) = match page_focused(app, &s) {
                Some(m) => (m.project.clone(), m.name.clone()),
                None => return None,
            };
            app.scope.set_project(Some(project));
            app.scope.milestone = Some(name);
            app.mode = Mode::Normal;
            app.auto_focus_if_empty();
            Some(Command::SetScope)
        },
        _ => update_project_page(app, action),
    }
}

/// The project page's key handling.
pub fn update_project_page(app: &mut App, action: Action) -> (r: Option<Command>)
    ensures
        proj_page_rel(*old(app), *final(app), action, r),
{
    let confirming = match &action {
        Action::ProjPageArchive => true,
        _ => false,
    };
    if confirming {
        let (key, archived, page) = match &app.mode {
            Mode::ConfirmProjectArchive { key, archived, page } => (
                key.clone(),
                *archived,
                copy_proj_state(page),
            ),
            _ => return None,
        };
        if archived {
            let scoped_here = match &app.scope.project {
                Some(p) => str_eq(p.as_str(), key.as_str()),
                None => false,
            };
            if scoped_here {
                app.scope.set_project(None);
            }
        }
        app.mode = Mode::ProjectPage(page);
        return Some(Command::SetProjectArchived { key, archived });
    }
    let s = match &app.mode {
        Mode::ProjectPage(s) => copy_proj_state(s),
        _ => return update_activity_page(app, action),
    };
    match action {
        Action::ProjPageInput(c) => {
            let mut t = s;
            push_char(&mut t.query, c);
            t.cursor = 0;
            app.mode = Mode::ProjectPage(t);
            None
        },
        Action::ProjPageBackspace => {
            let mut t = s;
            pop_char(&mut t.query);
            t.cursor = 0;
            app.mode = Mode::ProjectPage(t);
            None
        },
        Action::PageCursor(i) => {
            let last = last_index(project_rows(app, &s).len());
            app.mode = Mode::ProjectPage(ProjectPageState { cursor: min_usize(i, last), ..s });
            None
        },
        Action::ProjPageUp => {
            let c = step_up(s.cursor);
            app.mode = Mode::ProjectPage(ProjectPageState { cursor: c, ..s });
            None
        },
        Action::ProjPageDown => {
            let last = last_index(project_rows(app, &s).len());
            let c = step_down(s.cursor, last);
            app.mode = Mode::ProjectPage(ProjectPageState { cursor: c, ..s });
            None
        },
        Action::ProjPagePage(d) => {
            let last = last_index(project_rows(app, &s).len());
            let c = paged_cursor(s.cursor, d, last);
            app.mode = Mode::ProjectPage(ProjectPageState { cursor: c, ..s });
            None
        },
        Action::ProjPageTop => {
            app.mode = Mode::ProjectPage(ProjectPageState { cursor: 0, ..s });
            None
        },
        Action::ProjPageBottom => {
            let last = last_index(project_rows(app, &s).len());
            app.mode = Mode::ProjectPage(ProjectPageState { cursor: last, ..s });
            None
        },
        Action::ProjPageCycleFilter => {
            let f = s.filter.next();
            app.mode = Mode::ProjectPage(ProjectPageState { filter: f, cursor: 0, ..s });
            None
        },
        Action::ProjPageCycleFilterBack => {
            let f = s.filter.prev();
            app.mode = Mode::ProjectPage(ProjectPageState { filter: f, cursor: 0, ..s });
            None
        },
        Action::ProjPageCycleSort => {
            let o = s.sort.next();
            app.mode = Mode::ProjectPage(ProjectPageState { sort: o, cursor: 0, ..s });
            None
        },
        Action::ProjPageEdit => match project_focused(app, &s) {
            Some(p) => Some(Command::EditProject { key: p.key.clone() }),
            None => None,
        },
        Action::ProjPageNew => Some(Command::NewProject),
        Action::ProjPageArchiveRequest => {
            let (key, archived) = match project_focused(app, &s) {
                Some(p) => (p.key.clone(), !p.archived),
                None => return None,
            };
            app.mode = Mode::ConfirmProjectArchive { key, archived, page: s };
            None
        },
        Action::ProjPageSelect => {
            let (key, archived) = match project_focused(app, &s) {
                Some(p) => (p.key.clone(), p.archived),
                None => return None,
            };
            if archived {
                app.status_msg = Some("unarchive it (A) before scoping the board to it".to_owned());
                return None;
            }
            app.scope.set_project(Some(key));
            app.mode = Mode::Normal;
            app.auto_focus_if_empty();
            Some(Command::SetScope)
        },
        _ => update_activity_page(app, action),
    }
}

/// The activity page's key handling, the last stop of the chain.
pub fn update_activity_page(app: &mut App, action: Action) -> (r: Option<Command>)
    ensures
        act_page_rel(*old(app), *final(app), action, r),
{
    let s = match &app.mode {
        Mode::ActivityPage(s) => copy_act_state(s),
        _ => return None,
    };
    match action {
        Action::ActPageInput(c) => {
            let mut t = s;
            push_char(&mut t.query, c);
            t.cursor = 0;
            app.mode = Mode::ActivityPage(t);
            None
        },
        Action::ActPageBackspace => {
            let mut t = s;
            pop_char(&mut t.query);
            t.cursor = 0;
            app.mode = Mode::ActivityPage(t);
            None
        },
        Action::PageCursor(i) => {
            let last = last_index(activity_rows(app, &s).len());
            app.mode = Mode::ActivityPage(ActivityPageState { cursor: min_usize(i, last), ..s });
            None
        },
        Action::ActPageUp => {
            let c = step_up(s.cursor);
            app.mode = Mode::ActivityPage(ActivityPageState { cursor: c, ..s });
            None
        },
        Action::ActPageDown => {
            let last = last_index(activity_rows(app, &s).len());
            let c = step_down(s.cursor, last);
            app.mode = Mode::ActivityPage(ActivityPageState { cursor: c, ..s });
            None
        },
        Action::ActPagePage(d) => {
            let last = last_index(activity_rows(app, &s).len());
            let c = paged_cursor(s.cursor, d, last);
            app.mode = Mode::ActivityPage(ActivityPageState { cursor: c, ..s });
            None
        },
        Action::ActPageTop => {
            app.mode = Mode::ActivityPage(ActivityPageState { cursor: 0, ..s });
            None
        },
        Action::ActPageBottom => {
            let last = last_index(activity_rows(app, &s).len());
            app.mode = Mode::ActivityPage(ActivityPageState { cursor: last, ..s });
            None
        },
        Action::ActPageCycleFilter => {
            let f = s.filter.next();
            app.mode = Mode::ActivityPage(ActivityPageState { filter: f, cursor: 0, ..s });
            None
        },
        Action::ActPageCycleFilterBack => {
            let f = s.filter.prev();
            app.mode = Mode::ActivityPage(ActivityPageState { filter: f, cursor: 0, ..s });
            None
        },
        Action::ActPageSelect => {
            let key = match activity_focused(app, &s) {
                Some(e) => e.issue_key.clone(),
                None => return None,
            };
            match locate_focus_for_key(app, key.as_str()) {
                Some(f) => {
                    app.focus = f;
                    app.mode = Mode::Normal;
                },
                None => {
                    app.status_msg = Some(
                        concat(key.as_str(), " isn't on the board (archived or out of scope)"),
                    );
                },
            }
            None
        },
        _ => None,
    }
}

} // verus!
