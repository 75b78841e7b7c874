use cliban_tui::buffers::IssueBuffer;
use cliban_tui::text::decimal_text;
use cliban_tui::data::{
    activity_ref, closes_by_milestone, closes_of, issue_buffer, issue_fields, load_milestones, load_projects,
    milestone_buffer, optional, project_buffer, project_rollup, relation_ref, status_changes, week_slot,
    IssueRow, LogEntry, MilestoneSummary, ProjectRow, SummaryRow, WEEK_MICROS,
};

const DAY: i64 = 86_400_000_000;
const NOW: i64 = 1_785_000_000_000_000;

fn entry(milestone: Option<i64>, kind: &str, message: &str, ts: i64) -> LogEntry {
    LogEntry { milestone, kind: kind.into(), message: message.into(), ts }
}

#[test]
fn week_slots_count_back_from_this_week() {
    assert_eq!(week_slot(NOW, NOW), 7);
    assert_eq!(week_slot(NOW, NOW - DAY), 7);
    assert_eq!(week_slot(NOW, NOW - 6 * DAY), 7);
    assert_eq!(week_slot(NOW, NOW - 7 * DAY), 6);
    assert_eq!(week_slot(NOW, NOW - 8 * DAY), 6);
    assert_eq!(week_slot(NOW, NOW - 49 * DAY), 0);
    assert_eq!(week_slot(NOW, NOW - 100 * WEEK_MICROS), 0);
    // An entry from the future counts as this week.
    assert_eq!(week_slot(NOW, NOW + 3 * DAY), 7);
    assert_eq!(week_slot(i64::MAX, i64::MIN), 0);
}

#[test]
fn milestone_closes_land_in_their_week() {
    let log = vec![
        entry(Some(1), "status", "in-review → done", NOW - DAY),
        entry(Some(1), "status", "backlog → done", NOW - 10 * DAY),
        entry(Some(1), "status", "done → backlog", NOW - DAY),
        entry(Some(1), "edit", "title: a → done", NOW - DAY),
        entry(Some(2), "status", "backlog → done", NOW - DAY),
        entry(None, "status", "backlog → done", NOW - DAY),
    ];
    let closes = closes_by_milestone(&log, NOW);
    assert_eq!(closes_of(&closes, 1), [0, 0, 0, 0, 0, 0, 1, 1]);
    assert_eq!(closes_of(&closes, 2), [0, 0, 0, 0, 0, 0, 0, 1]);
    assert_eq!(closes_of(&closes, 3), [0; 8]);
    assert_eq!(closes.len(), 2, "only milestones with closes get an entry");
}

fn summary(id: i64, name: &str) -> MilestoneSummary {
    MilestoneSummary {
        id,
        project_key: "CLI".into(),
        name: name.into(),
        description: "d".into(),
        status: "open".into(),
        target: Some("2026-08-01".into()),
        total: 4,
        done: 1,
        last_activity: 17,
    }
}

#[test]
fn milestones_carry_their_summary_and_histogram() {
    let log = vec![entry(Some(2), "status", "blocked → done", NOW - 20 * DAY)];
    let ms = load_milestones(&[summary(1, "M1"), summary(2, "M2")], &log, NOW);
    assert_eq!(ms.len(), 2);
    assert_eq!(ms[0].name, "M1");
    assert_eq!(ms[0].closes_8w, [0; 8]);
    assert_eq!(ms[1].project, "CLI");
    assert_eq!(ms[1].target.as_deref(), Some("2026-08-01"));
    assert_eq!((ms[1].total, ms[1].done, ms[1].last_activity), (4, 1, 17));
    assert_eq!(ms[1].closes_8w, [0, 0, 0, 0, 0, 1, 0, 0]);
}

fn project(id: i64, key: &str, updated_at: i64) -> ProjectRow {
    ProjectRow {
        id,
        key: key.into(),
        name: format!("{key} project"),
        description: String::new(),
        archived: false,
        updated_at,
    }
}

fn issue(project_id: i64, status: &str, updated_at: i64) -> IssueRow {
    IssueRow { project_id, status: status.into(), updated_at }
}

#[test]
fn projects_roll_up_issues_milestones_and_latest_touch() {
    let issues = vec![issue(1, "done", 50), issue(1, "backlog", 70), issue(2, "done", 900), issue(1, "done", 10)];
    let ms = vec![
        SummaryRow { project_key: "CLI".into(), last_activity: 60 },
        SummaryRow { project_key: "LM".into(), last_activity: 5 },
        SummaryRow { project_key: "CLI".into(), last_activity: 80 },
    ];
    let cli = project_rollup(project(1, "CLI", 20), &issues, &ms);
    assert_eq!((cli.total, cli.done, cli.milestones, cli.last_activity), (3, 2, 2, 80));
    assert_eq!(cli.key, "CLI");
    assert_eq!(cli.name, "CLI project");
    let all = load_projects(&[project(1, "CLI", 20), project(2, "LM", 1000), project(3, "TIDE", 7)], &issues, &ms);
    assert_eq!(all.len(), 3);
    assert_eq!((all[1].total, all[1].done, all[1].milestones, all[1].last_activity), (1, 1, 1, 1000));
    assert_eq!((all[2].total, all[2].done, all[2].milestones, all[2].last_activity), (0, 0, 0, 7));
}

#[test]
fn buffers_from_rows_carry_the_guidance() {
    let b = issue_buffer(
        "CLI-7",
        "Fix it".into(),
        "backlog".into(),
        "high".into(),
        None,
        Some("CLI-1".into()),
        "body".into(),
    );
    assert_eq!(
        b.header,
        "# Editing CLI-7 — lines above the first '---' are ignored.\n# Statuses:   backlog | in-progress | blocked | in-review | done\n# Priorities: none | low | medium | high | urgent"
    );
    assert_eq!(b.milestone, "");
    assert_eq!(b.parent, "CLI-1");
    assert_eq!(b.title, "Fix it");
    let m = milestone_buffer("M1".into(), "open".into(), None, "".into());
    assert_eq!(
        m.header,
        "# Editing milestone — lines above the first '---' are ignored.\n# Status: open | completed | cancelled\n# Target date: YYYY-MM-DD (empty clears it)"
    );
    assert_eq!(m.target, "");
    let p = project_buffer("CLI", "Cliban".into(), "desc".into());
    assert_eq!(p.header, "# Editing project CLI — the key is immutable; rename via 'name'.");
    assert_eq!(p.name, "Cliban");
}

#[test]
fn empty_fields_are_left_out_of_requests() {
    assert_eq!(optional(""), None);
    assert_eq!(optional("x"), Some("x".to_string()));
    let b = IssueBuffer {
        header: String::new(),
        title: "T".into(),
        status: String::new(),
        priority: "low".into(),
        milestone: String::new(),
        parent: "CLI-2".into(),
        description: String::new(),
    };
    let f = issue_fields(&b);
    assert_eq!(f.title, "T");
    assert_eq!(f.description, "");
    assert_eq!(f.status, None);
    assert_eq!(f.priority.as_deref(), Some("low"));
    assert_eq!(f.milestone, None);
    assert_eq!(f.parent.as_deref(), Some("CLI-2"));
    assert!(status_changes("done", "backlog"));
    assert!(!status_changes("done", "done"));
    assert!(!status_changes("", "backlog"));
}

#[test]
fn joins_fall_back_when_the_counterpart_is_gone() {
    let r = relation_ref("blocks".into(), "CLI-9".into(), None);
    assert_eq!((r.kind.as_str(), r.key.as_str(), r.title.as_str(), r.status.as_str()), ("blocks", "CLI-9", "", ""));
    let r = relation_ref("blocked_by".into(), "CLI-3".into(), Some(("T".into(), "done".into())));
    assert_eq!((r.title.as_str(), r.status.as_str()), ("T", "done"));
    let a = activity_ref(42, None, "status".into(), "backlog → done".into(), Some("robin".into()), 9);
    assert_eq!(a.issue_key, "#42");
    assert_eq!(a.title, "");
    assert_eq!(a.actor.as_deref(), Some("robin"));
    let a = activity_ref(42, Some(("CLI-1".into(), "T".into(), "CLI".into())), "edit".into(), "m".into(), None, 9);
    assert_eq!((a.issue_key.as_str(), a.project.as_str(), a.ts), ("CLI-1", "CLI", 9));
}

#[test]
fn decimal_text_writes_any_i64() {
    assert_eq!(decimal_text(0), "0");
    assert_eq!(decimal_text(7), "7");
    assert_eq!(decimal_text(1234), "1234");
    assert_eq!(decimal_text(-120), "-120");
    assert_eq!(decimal_text(i64::MAX), i64::MAX.to_string());
    assert_eq!(decimal_text(i64::MIN), i64::MIN.to_string());
}

#[test]
fn closes_older_than_eight_weeks_do_not_count() {
    let log = vec![
        entry(Some(1), "status", "backlog → done", NOW - 52 * DAY),
        entry(Some(1), "status", "backlog → done", NOW - 56 * DAY),
        entry(Some(1), "status", "backlog → done", NOW - 57 * DAY),
        entry(Some(1), "status", "backlog → done", NOW - 400 * DAY),
    ];
    assert_eq!(closes_of(&closes_by_milestone(&log, NOW), 1), [2, 0, 0, 0, 0, 0, 0, 0]);
}
