use cliban_tui::model::{
    ActFilter, ActivityPageState, ActivityRef, App, ProjFilter, ProjSort, ProjectPageState, ProjectRef,
};
use cliban_tui::page_views::{
    activity_chips, activity_detail, activity_page_empty, activity_row, entry_kind, project_chips,
    project_detail, project_page_empty, project_row, EntryKind,
};
use cliban_tui::rows::{activity_focused, activity_rows, project_focused, project_rows};

fn proj(key: &str, name: &str, archived: bool, done: i64, total: i64) -> ProjectRef {
    ProjectRef {
        key: key.into(),
        name: name.into(),
        description: "Self-hosted uptime and status pages".into(),
        archived,
        total,
        done,
        milestones: 3,
        last_activity: 0,
    }
}

fn entry(key: &str, kind: &str, message: &str) -> ActivityRef {
    ActivityRef {
        issue_key: key.into(),
        title: "Cert expiry checks".into(),
        project: "PULSE".into(),
        kind: kind.into(),
        message: message.into(),
        actor: Some("robin".into()),
        ts: 0,
    }
}

/// Everything the project page would write for `app` and `state`.
fn project_page_text(app: &App, state: &ProjectPageState) -> String {
    let rows = project_rows(app, state);
    let (chips, tail) = project_chips(state, rows.len());
    let mut out = String::from("Projects\n");
    for c in chips {
        out.push_str(&c.1);
    }
    out.push_str(&tail);
    out.push('\n');
    if rows.is_empty() {
        out.push_str(project_page_empty(app));
    }
    for &i in &rows {
        let r = project_row(&app.projects[i]);
        out.push_str(&format!("{}{}{}{}{}{}{}\n", r.key, r.name, r.filled, r.empty, r.counts, r.milestones, r.archived));
    }
    if let Some(p) = project_focused(app, state) {
        let d = project_detail(p, 4);
        out.push_str(&format!("{}{}\n{}{} · {}\n", d.key, d.name, d.counts, d.milestones, d.state));
        for l in d.description {
            out.push_str(&l);
            out.push('\n');
        }
    }
    out
}

/// Everything the activity page would write for `app` and `state`, times
/// aside.
fn activity_page_text(app: &App, state: &ActivityPageState) -> String {
    let rows = activity_rows(app, state);
    let (chips, tail) = activity_chips(state, rows.len());
    let mut out = String::from("Activity\n");
    for c in chips {
        out.push_str(&c.1);
    }
    out.push_str(&tail);
    out.push('\n');
    if rows.is_empty() {
        out.push_str(activity_page_empty(app));
    }
    for &i in &rows {
        let r = activity_row(&app.activity[i]);
        out.push_str(&format!("{}{}{}{}\n", r.key, r.kind, r.message, r.actor));
    }
    if let Some(e) = activity_focused(app, state) {
        let d = activity_detail(e);
        out.push_str(&format!("{}{}\n{}{}\n{}\n", d.key, d.title, d.kind, d.actor, d.message));
    }
    out
}

#[test]
fn page_shows_rollups_and_detail_for_the_focused_row() {
    let mut app = App::new();
    app.projects = vec![proj("PULSE", "Pulse", false, 5, 16)];
    let d = project_page_text(&app, &ProjectPageState::new());
    assert!(d.contains("Projects"), "{d}");
    assert!(d.contains("PULSE"), "{d}");
    assert!(d.contains("Pulse"), "{d}");
    assert!(d.contains("5/16"), "issue counts missing:\n{d}");
    assert!(d.contains("3 ms"), "milestone count missing:\n{d}");
    assert!(d.contains("(31%)"), "detail percentage missing:\n{d}");
    assert!(d.contains("Self-hosted uptime"), "description missing:\n{d}");
}

#[test]
fn archived_bucket_is_a_tab_away_and_rows_say_archived() {
    let mut app = App::new();
    app.projects = vec![proj("PULSE", "Pulse", false, 0, 1), proj("OLD", "Old thing", true, 1, 1)];
    let d = project_page_text(&app, &ProjectPageState::new());
    assert!(d.contains("PULSE"), "{d}");
    assert!(!d.contains("Old thing"), "archived leaked into active:\n{d}");
    let state = ProjectPageState { filter: ProjFilter::Archived, ..ProjectPageState::new() };
    let d = project_page_text(&app, &state);
    assert!(d.contains("Old thing"), "{d}");
    assert!(d.contains("archived"), "{d}");
}

#[test]
fn empty_database_points_at_n() {
    let d = project_page_text(&App::new(), &ProjectPageState::new());
    assert!(d.contains("no projects yet"), "{d}");
    assert!(d.contains("N creates one"), "{d}");
}

#[test]
fn chips_mark_the_bucket_and_sort() {
    let mut app = App::new();
    app.projects = vec![proj("PULSE", "Pulse", false, 0, 0)];
    let state = ProjectPageState { sort: ProjSort::Name, ..ProjectPageState::new() };
    let d = project_page_text(&app, &state);
    assert!(d.contains("sort: name"), "{d}");
    assert!(d.contains("1 shown"), "{d}");
    for label in ["active", "archived", "all"] {
        assert!(d.contains(label), "missing bucket chip {label}:\n{d}");
    }
    let (chips, _) = project_chips(&state, 1);
    assert_eq!(chips.iter().filter(|c| c.2).map(|c| c.0).collect::<Vec<_>>(), vec![ProjFilter::Active]);
}

#[test]
fn project_row_cells_are_padded_to_their_columns() {
    let r = project_row(&proj("PULSE", "Pulse", true, 5, 16));
    assert_eq!(r.key, "PULSE   ");
    assert_eq!(r.name, format!("{:<24} ", "Pulse"));
    assert_eq!(r.counts, "   5/16  ");
    assert_eq!(r.milestones, " 3 ms  ");
    assert_eq!(r.archived, "archived");
    assert_eq!(r.filled, "█".repeat(4));
    assert!(!r.complete);
    let d = project_detail(&proj("CLI", "Cliban", false, 2, 2), 0);
    assert_eq!(d.counts, " 2/2 issues done (100%) · ");
    assert_eq!(d.milestones, "3 milestones");
    assert_eq!(d.state, "active");
    assert_eq!(d.percent, " 100%");
    assert!(d.complete);
    assert!(d.description.is_empty());
}

#[test]
fn page_shows_entries_kinds_and_the_focused_detail() {
    let mut app = App::new();
    app.activity = vec![entry("PULSE-1", "status", "backlog → done"), entry("PULSE-2", "log", "root cause found")];
    let d = activity_page_text(&app, &ActivityPageState::new());
    assert!(d.contains("Activity"), "{d}");
    assert!(d.contains("PULSE-1"), "{d}");
    assert!(d.contains("backlog → done"), "{d}");
    assert!(d.contains("root cause found"), "{d}");
    assert!(d.contains("· robin"), "actor missing:\n{d}");
    assert!(d.contains("Cert expiry checks"), "detail title:\n{d}");
    assert!(d.contains("by robin"), "detail actor:\n{d}");
    assert!(d.contains("2 shown"), "{d}");
}

#[test]
fn closed_filter_keeps_only_moves_that_landed_in_done() {
    let mut app = App::new();
    app.activity = vec![
        entry("PULSE-1", "status", "backlog → done"),
        entry("PULSE-2", "status", "backlog → in-progress"),
        entry("PULSE-3", "archive", "archived"),
    ];
    let state = ActivityPageState { filter: ActFilter::Closed, ..ActivityPageState::new() };
    let d = activity_page_text(&app, &state);
    assert!(d.contains("PULSE-1"), "{d}");
    assert!(!d.contains("PULSE-2"), "non-done move leaked:\n{d}");
    assert!(!d.contains("PULSE-3"), "archive leaked into closed:\n{d}");
    assert!(d.contains("1 shown"), "{d}");
}

#[test]
fn empty_mailbox_explains_itself() {
    let d = activity_page_text(&App::new(), &ActivityPageState::new());
    assert!(d.contains("nothing recorded yet"), "{d}");
    for chip in ["all", "closed", "moves", "edits", "notes", "plan", "archive"] {
        assert!(d.contains(chip), "missing chip {chip}:\n{d}");
    }
}

#[test]
fn typing_filters_by_actor_too() {
    let mut app = App::new();
    let mut other = entry("TIDE-1", "status", "backlog → done");
    other.actor = Some("alex".into());
    app.activity = vec![entry("PULSE-1", "status", "backlog → done"), other];
    let state = ActivityPageState { query: "alex".into(), ..ActivityPageState::new() };
    let d = activity_page_text(&app, &state);
    assert!(d.contains("TIDE-1"), "{d}");
    assert!(!d.contains("PULSE-1"), "{d}");
}

#[test]
fn entries_are_colored_by_effect() {
    assert_eq!(entry_kind(&entry("A-1", "status", "backlog → done")), EntryKind::Closed);
    assert_eq!(entry_kind(&entry("A-1", "status", "done → backlog")), EntryKind::Move);
    assert_eq!(entry_kind(&entry("A-1", "edit", "title")), EntryKind::Edit);
    assert_eq!(entry_kind(&entry("A-1", "log", "x")), EntryKind::Note);
    assert_eq!(entry_kind(&entry("A-1", "plan", "x")), EntryKind::Plan);
    assert_eq!(entry_kind(&entry("A-1", "archive", "archived")), EntryKind::Archive);
    assert_eq!(entry_kind(&entry("A-1", "other", "x")), EntryKind::Other);
    let mut quiet = entry("A-1", "log", "x");
    quiet.actor = None;
    assert_eq!(activity_row(&quiet).actor, "");
    assert_eq!(activity_detail(&quiet).actor, " · unattributed");
}
