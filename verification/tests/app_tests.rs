use cliban_tui::actions::{Action, Command, Direction};
use cliban_tui::board::fuzzy_search;
use cliban_tui::model::{
    RelationRef, ActFilter, ActivityPageState, ActivityRef, App, Card, ColumnId, Focus, MilestonePageState,
    MilestoneRef, Mode, PageSort, ProjFilter, ProjSort, ProjectPageState, ProjectRef, Scope,
    StatusFilter,
};
use cliban_tui::rows::{activity_rows, page_rows, project_rows};
use cliban_tui::update::update;

/// A `CLI` milestone with no issues and no target.
fn milestone(name: &str, status: &str) -> MilestoneRef {
    MilestoneRef {
        id: name.len() as i64,
        project: "CLI".into(),
        name: name.into(),
        description: String::new(),
        status: status.into(),
        target: None,
        total: 0,
        done: 0,
        last_activity: 0,
        closes_8w: [0; 8],
    }
}

/// The same, but in a different project.
fn other_project(name: &str) -> MilestoneRef {
    MilestoneRef { project: "LM".into(), ..milestone(name, "open") }
}

fn card(key: &str, status: &str, pos: i64) -> Card {
    let project = key.split('-').next().unwrap().to_string();
    Card {
        id: 0,
        key: key.into(),
        project,
        title: format!("T {key}"),
        status: status.into(),
        priority: "medium".into(),
        position: pos,
        milestone_id: None,
        milestone: None,
        labels: Vec::new(),
    }
}

#[test]
fn column_cards_sorted_and_scope_filtered() {
    let mut app = App::new();
    app.cards = vec![card("CLI-2", "backlog", 2000), card("CLI-1", "backlog", 1000), card("LM-1", "backlog", 500)];
    let backlog = app.column_cards(ColumnId::Backlog);
    assert_eq!(backlog.iter().map(|c| c.key.as_str()).collect::<Vec<_>>(), vec!["LM-1", "CLI-1", "CLI-2"]);
    app.scope.set_project(Some("CLI".into()));
    let scoped = app.column_cards(ColumnId::Backlog);
    assert_eq!(scoped.iter().map(|c| c.key.as_str()).collect::<Vec<_>>(), vec!["CLI-1", "CLI-2"]);
}

#[test]
fn column_status_round_trips() {
    for c in ColumnId::all() {
        assert_eq!(ColumnId::from_status(c.status()), Some(c));
    }
    assert_eq!(ColumnId::from_status("nope"), None);
}

#[test]
fn scope_clearing_project_clears_milestone() {
    let mut s = Scope { project: Some("CLI".into()), milestone: Some("M1".into()) };
    s.set_project(None);
    assert_eq!(s.milestone, None);
}

#[test]
fn space_then_letter_moves_focused_card() {
    let mut app = App::new();
    app.cards = vec![card("CLI-1", "backlog", 1000)];
    app.auto_focus_if_empty();
    assert!(update(&mut app, Action::BeginMove).is_none());
    assert!(matches!(app.mode, Mode::AwaitingMove));
    match update(&mut app, Action::MoveTo("in-progress".into())).unwrap() {
        Command::MoveIssue { key, status } => {
            assert_eq!(key, "CLI-1");
            assert_eq!(status, "in-progress");
        }
        _ => panic!(),
    }
    assert!(matches!(app.mode, Mode::Normal));
}

#[test]
fn capital_l_moves_issue_to_next_column_and_cursor_follows() {
    let mut app = App::new();
    app.cards = vec![card("CLI-1", "backlog", 1000)];
    app.auto_focus_if_empty();
    match update(&mut app, Action::MoveIssueDir(Direction::Right)).unwrap() {
        Command::MoveIssue { key, status } => {
            assert_eq!(key, "CLI-1");
            assert_eq!(status, "in-progress");
        }
        _ => panic!(),
    }
    assert_eq!(app.focus.column, ColumnId::InProgress);
    assert_eq!(app.focus.card_idx, 0);
}

#[test]
fn capital_h_at_leftmost_column_is_noop() {
    let mut app = App::new();
    app.cards = vec![card("CLI-1", "backlog", 1000)];
    app.auto_focus_if_empty();
    assert!(update(&mut app, Action::MoveIssueDir(Direction::Left)).is_none());
    assert_eq!(app.focus.column, ColumnId::Backlog);
}

#[test]
fn capital_j_reorders_within_column_and_cursor_follows() {
    let mut app = App::new();
    app.cards = vec![card("CLI-1", "backlog", 1000), card("CLI-2", "backlog", 2000)];
    app.scope.set_project(Some("CLI".into()));
    app.auto_focus_if_empty();
    assert_eq!(app.focus.card_idx, 0);
    match update(&mut app, Action::MoveIssueDir(Direction::Down)).unwrap() {
        Command::Reorder { key, other } => {
            assert_eq!(key, "CLI-1");
            assert_eq!(other, "CLI-2");
        }
        _ => panic!(),
    }
    assert_eq!(app.focus.card_idx, 1);
}

#[test]
fn capital_j_at_bottom_of_column_is_noop() {
    let mut app = App::new();
    app.cards = vec![card("CLI-1", "backlog", 1000)];
    app.scope.set_project(Some("CLI".into()));
    app.auto_focus_if_empty();
    assert!(update(&mut app, Action::MoveIssueDir(Direction::Down)).is_none());
}

#[test]
fn tag_milestone_cycles_none_to_first() {
    let mut app = App::new();
    app.cards = vec![card("CLI-1", "backlog", 1000)];
    app.milestones = vec![milestone("M1", "open")];
    app.auto_focus_if_empty();
    match update(&mut app, Action::TagMilestone).unwrap() {
        Command::TagMilestone { key, milestone } => {
            assert_eq!(key, "CLI-1");
            assert_eq!(milestone, Some("M1".to_string()));
        }
        _ => panic!(),
    }
}

#[test]
fn tag_milestone_ignores_other_projects_milestones() {
    let mut app = App::new();
    app.cards = vec![card("CLI-1", "backlog", 1000)];
    app.milestones = vec![other_project("LM-only")];
    app.auto_focus_if_empty();
    assert!(update(&mut app, Action::TagMilestone).is_none());
    assert!(app.status_msg.is_some());
}

#[test]
fn fuzzy_search_matches_key_and_title() {
    let mut app = App::new();
    let mut c = card("CLI-1", "backlog", 1);
    c.title = "Build the board".into();
    app.cards = vec![c];
    assert_eq!(fuzzy_search(&app, "board"), vec!["CLI-1"]);
    assert_eq!(fuzzy_search(&app, "cli-1"), vec!["CLI-1"]);
    assert!(fuzzy_search(&app, "zzz").is_empty());
}

#[test]
fn focus_move_right_skips_empty_columns() {
    let mut app = App::new();
    app.cards = vec![card("CLI-1", "blocked", 1)];
    app.focus = Focus { column: ColumnId::Backlog, card_idx: 0 };
    update(&mut app, Action::FocusMove(Direction::Right));
    assert_eq!(app.focus.column, ColumnId::Blocked);
}

#[test]
fn cycle_milestone_filter_advances_then_wraps_to_all() {
    let mut app = App::new();
    app.scope.set_project(Some("CLI".into()));
    app.milestones = vec![milestone("M1", "open"), milestone("M2", "open")];
    update(&mut app, Action::CycleMilestoneFilter);
    assert_eq!(app.scope.milestone.as_deref(), Some("M1"));
    update(&mut app, Action::CycleMilestoneFilter);
    assert_eq!(app.scope.milestone.as_deref(), Some("M2"));
    update(&mut app, Action::CycleMilestoneFilter);
    assert_eq!(app.scope.milestone, None);
}

#[test]
fn cycle_milestone_filter_only_walks_the_scoped_project() {
    let mut app = App::new();
    app.milestones = vec![milestone("M1", "open"), other_project("LM-only")];
    assert!(update(&mut app, Action::CycleMilestoneFilter).is_none());
    assert_eq!(app.scope.milestone, None);
    assert!(app.status_msg.is_some());

    app.scope.set_project(Some("CLI".into()));
    update(&mut app, Action::CycleMilestoneFilter);
    assert_eq!(app.scope.milestone.as_deref(), Some("M1"));
    update(&mut app, Action::CycleMilestoneFilter);
    assert_eq!(app.scope.milestone, None, "the other project's milestone is not in the cycle");
}

fn page(app: &App) -> &MilestonePageState {
    match &app.mode {
        Mode::MilestonePage(s) => s,
        _ => panic!("expected the milestone page"),
    }
}

fn names<'a>(app: &'a App, s: &MilestonePageState) -> Vec<&'a str> {
    page_rows(app, s).into_iter().map(|i| app.milestones[i].name.as_str()).collect()
}

#[test]
fn page_opens_on_the_open_bucket_in_activity_order() {
    let mut app = App::new();
    app.milestones = vec![milestone("open-one", "open"), milestone("done-one", "completed"), milestone("axed-one", "cancelled")];
    update(&mut app, Action::OpenMilestonePage);
    let s = page(&app);
    assert_eq!(s.filter, StatusFilter::Open);
    assert_eq!(s.sort, PageSort::Activity);
    assert_eq!(page_rows(&app, s), vec![0], "only the open milestone shows");
}

#[test]
fn cycling_the_status_bucket_walks_open_completed_cancelled_all() {
    let mut app = App::new();
    app.milestones = vec![milestone("open-one", "open"), milestone("done-one", "completed"), milestone("axed-one", "cancelled")];
    update(&mut app, Action::OpenMilestonePage);
    for (expect_filter, expect_rows) in [
        (StatusFilter::Completed, vec![1]),
        (StatusFilter::Cancelled, vec![2]),
        (StatusFilter::All, vec![0, 1, 2]),
        (StatusFilter::Open, vec![0]),
    ] {
        update(&mut app, Action::MsPageCycleFilter);
        let s = page(&app);
        assert_eq!(s.filter, expect_filter);
        assert_eq!(page_rows(&app, s), expect_rows);
    }
}

#[test]
fn sorting_reorders_by_name_then_target_then_back_to_activity() {
    let mut app = App::new();
    let mut zeta = milestone("zeta", "open");
    zeta.target = Some("2026-01-01".into());
    let mut alpha = milestone("alpha", "open");
    alpha.target = None;
    let mut mid = milestone("mid", "open");
    mid.target = Some("2026-06-01".into());
    app.milestones = vec![zeta, alpha, mid];
    update(&mut app, Action::OpenMilestonePage);

    assert_eq!(page_rows(&app, page(&app)), vec![0, 1, 2], "activity order");
    update(&mut app, Action::MsPageCycleSort);
    assert_eq!(page(&app).sort, PageSort::Name);
    assert_eq!(names(&app, page(&app)), vec!["alpha", "mid", "zeta"]);
    update(&mut app, Action::MsPageCycleSort);
    assert_eq!(page(&app).sort, PageSort::Target);
    assert_eq!(names(&app, page(&app)), vec!["zeta", "mid", "alpha"], "undated sorts last");
    update(&mut app, Action::MsPageCycleSort);
    assert_eq!(page(&app).sort, PageSort::Activity);
}

#[test]
fn typing_filters_on_name_or_project_and_resets_the_cursor() {
    let mut app = App::new();
    app.milestones = vec![milestone("alpha", "open"), milestone("beta", "open"), other_project("gamma")];
    update(&mut app, Action::OpenMilestonePage);
    update(&mut app, Action::MsPageDown);
    update(&mut app, Action::MsPageInput('b'));
    update(&mut app, Action::MsPageInput('e'));
    let s = page(&app);
    assert_eq!(s.query, "be");
    assert_eq!(s.cursor, 0, "typing resets the cursor");
    assert_eq!(names(&app, s), vec!["beta"]);

    update(&mut app, Action::MsPageBackspace);
    update(&mut app, Action::MsPageBackspace);
    update(&mut app, Action::MsPageInput('l'));
    update(&mut app, Action::MsPageInput('m'));
    assert_eq!(names(&app, page(&app)), vec!["gamma"]);
}

#[test]
fn cursor_down_is_clamped_to_the_visible_rows() {
    let mut app = App::new();
    app.milestones = vec![milestone("alpha", "open"), milestone("beta", "open")];
    update(&mut app, Action::OpenMilestonePage);
    update(&mut app, Action::MsPageInput('a'));
    update(&mut app, Action::MsPageInput('l'));
    update(&mut app, Action::MsPageDown);
    assert_eq!(page(&app).cursor, 0);
}

#[test]
fn enter_scopes_the_board_to_the_focused_milestone_and_its_project() {
    let mut app = App::new();
    app.milestones = vec![milestone("M1", "open"), other_project("LM-only")];
    update(&mut app, Action::OpenMilestonePage);
    update(&mut app, Action::MsPageDown);
    let cmd = update(&mut app, Action::MsPageSelect);
    assert_eq!(app.scope.project.as_deref(), Some("LM"));
    assert_eq!(app.scope.milestone.as_deref(), Some("LM-only"));
    assert!(matches!(app.mode, Mode::Normal), "page closes on select");
    assert!(matches!(cmd, Some(Command::SetScope)));
}

#[test]
fn edit_and_new_carry_the_focused_milestones_project() {
    let mut app = App::new();
    app.milestones = vec![other_project("LM-only")];
    update(&mut app, Action::OpenMilestonePage);
    match update(&mut app, Action::MsPageEdit).unwrap() {
        Command::EditMilestone { project, name } => {
            assert_eq!((project.as_str(), name.as_str()), ("LM", "LM-only"));
        }
        c => panic!("{c:?}"),
    }
    match update(&mut app, Action::MsPageNew).unwrap() {
        Command::NewMilestone { project } => assert_eq!(project.as_deref(), Some("LM")),
        c => panic!("{c:?}"),
    }
}

#[test]
fn c_cycles_the_focused_milestone_through_its_statuses() {
    let mut app = App::new();
    app.milestones = vec![milestone("M1", "open")];
    update(&mut app, Action::OpenMilestonePage);
    for (from, to) in [("open", "completed"), ("completed", "cancelled"), ("cancelled", "open")] {
        app.milestones[0].status = from.into();
        if let Mode::MilestonePage(s) = &mut app.mode {
            s.filter = StatusFilter::All;
        }
        match update(&mut app, Action::MsPageCycleStatus).unwrap() {
            Command::SetMilestoneStatus { name, status, .. } => {
                assert_eq!(name, "M1");
                assert_eq!(status, to, "from {from}");
            }
            c => panic!("{c:?}"),
        }
    }
}

#[test]
fn page_actions_on_an_empty_list_are_noops() {
    let mut app = App::new();
    update(&mut app, Action::OpenMilestonePage);
    assert!(update(&mut app, Action::MsPageEdit).is_none());
    assert!(update(&mut app, Action::MsPageSelect).is_none());
    assert!(update(&mut app, Action::MsPageCycleStatus).is_none());
    assert!(update(&mut app, Action::MsPageNew).is_some());
}

#[test]
fn archive_asks_first_then_archives_the_captured_key() {
    let mut app = App::new();
    app.cards = vec![card("PULSE-9", "backlog", 1000)];
    assert!(update(&mut app, Action::ArchiveRequest).is_none());
    assert!(matches!(&app.mode, Mode::ConfirmArchive(k) if k == "PULSE-9"));
    match update(&mut app, Action::Archive) {
        Some(Command::Archive { key }) => assert_eq!(key, "PULSE-9"),
        c => panic!("{c:?}"),
    }
    assert!(matches!(app.mode, Mode::Normal));
    update(&mut app, Action::ArchiveRequest);
    assert!(update(&mut app, Action::Cancel).is_none());
    assert!(matches!(app.mode, Mode::Normal));
}

#[test]
fn number_jump_lands_even_on_empty_columns_and_half_pages_clamp() {
    let mut app = App::new();
    app.cards = (0..8).map(|i| card(&format!("PULSE-{i}"), "backlog", 1000 + i as i64)).collect();
    update(&mut app, Action::FocusColumn(2));
    assert_eq!(app.focus.column, ColumnId::Blocked);
    update(&mut app, Action::FocusColumn(0));
    assert_eq!(app.focus.column, ColumnId::Backlog);
    update(&mut app, Action::PageMove(Direction::Down));
    assert_eq!(app.focus.card_idx, 5);
    update(&mut app, Action::PageMove(Direction::Down));
    assert_eq!(app.focus.card_idx, 7, "clamps to the last card");
    update(&mut app, Action::PageMove(Direction::Up));
    assert_eq!(app.focus.card_idx, 2);
}

#[test]
fn milestone_page_jumps_pages_and_cycles_the_filter_both_ways() {
    let mut app = App::new();
    app.milestones = (0..15).map(|i| milestone(&format!("M{i}"), "open")).collect();
    update(&mut app, Action::OpenMilestonePage);
    update(&mut app, Action::MsPagePage(Direction::Down));
    let cursor = |app: &App| match &app.mode {
        Mode::MilestonePage(s) => s.cursor,
        _ => panic!("not on the page"),
    };
    assert_eq!(cursor(&app), 10);
    update(&mut app, Action::MsPageBottom);
    assert_eq!(cursor(&app), 14);
    update(&mut app, Action::MsPageTop);
    assert_eq!(cursor(&app), 0);
    update(&mut app, Action::MsPageCycleFilterBack);
    match &app.mode {
        Mode::MilestonePage(s) => assert_eq!(s.filter, StatusFilter::All),
        _ => panic!("not on the page"),
    }
}

fn project(key: &str, archived: bool) -> ProjectRef {
    ProjectRef {
        key: key.into(),
        name: key.to_lowercase(),
        description: String::new(),
        archived,
        total: 0,
        done: 0,
        milestones: 0,
        last_activity: 0,
    }
}

#[test]
fn project_archive_confirms_returns_to_the_page_and_unscopes_the_board() {
    let mut app = App::new();
    app.projects = vec![project("PULSE", false)];
    app.scope.set_project(Some("PULSE".into()));
    update(&mut app, Action::OpenProjectPage);
    assert!(update(&mut app, Action::ProjPageArchiveRequest).is_none());
    assert!(matches!(&app.mode, Mode::ConfirmProjectArchive { key, archived: true, .. } if key == "PULSE"));
    update(&mut app, Action::Cancel);
    assert!(matches!(app.mode, Mode::ProjectPage(_)));
    update(&mut app, Action::ProjPageArchiveRequest);
    match update(&mut app, Action::ProjPageArchive) {
        Some(Command::SetProjectArchived { key, archived }) => {
            assert_eq!(key, "PULSE");
            assert!(archived);
        }
        c => panic!("{c:?}"),
    }
    assert_eq!(app.scope.project, None, "archived scope must clear");
    assert!(matches!(app.mode, Mode::ProjectPage(_)));
}

#[test]
fn selecting_a_project_scopes_the_board_but_archived_ones_refuse() {
    let mut app = App::new();
    app.projects = vec![project("PULSE", false), project("OLD", true)];
    update(&mut app, Action::OpenProjectPage);
    assert!(matches!(update(&mut app, Action::ProjPageSelect), Some(Command::SetScope)));
    assert_eq!(app.scope.project.as_deref(), Some("PULSE"));
    assert!(matches!(app.mode, Mode::Normal));

    update(&mut app, Action::OpenProjectPage);
    update(&mut app, Action::ProjPageCycleFilter);
    assert!(update(&mut app, Action::ProjPageSelect).is_none());
    assert!(app.status_msg.is_some(), "refusal must explain itself");
    assert!(matches!(app.mode, Mode::ProjectPage(_)));
}

#[test]
fn project_rows_filter_query_and_sort() {
    let mut app = App::new();
    app.projects = vec![project("TIDE", false), project("PULSE", false), project("OLD", true)];
    let keys = |app: &App, s: &ProjectPageState| -> Vec<String> {
        project_rows(app, s).into_iter().map(|i| app.projects[i].key.clone()).collect()
    };
    let s = ProjectPageState::new();
    assert_eq!(keys(&app, &s), ["TIDE", "PULSE"], "active bucket");
    let s = ProjectPageState { query: "pul".into(), ..ProjectPageState::new() };
    assert_eq!(keys(&app, &s), ["PULSE"], "query matches key");
    let s = ProjectPageState { filter: ProjFilter::All, sort: ProjSort::Name, ..ProjectPageState::new() };
    assert_eq!(keys(&app, &s), ["OLD", "PULSE", "TIDE"], "name sort");
}

fn act(key: &str, kind: &str, message: &str) -> ActivityRef {
    ActivityRef {
        issue_key: key.into(),
        title: "t".into(),
        project: "CLI".into(),
        kind: kind.into(),
        message: message.into(),
        actor: None,
        ts: 0,
    }
}

#[test]
fn closes_means_a_status_move_that_landed_in_done() {
    assert!(act("K-1", "status", "backlog → done").closes());
    assert!(act("K-1", "status", "in-review → done: shipped it").closes());
    assert!(!act("K-1", "status", "done → backlog").closes());
    assert!(!act("K-1", "status", "backlog → in-progress").closes());
    assert!(!act("K-1", "archive", "archived").closes());
    assert!(!act("K-1", "log", "note about done things").closes());
}

#[test]
fn activity_enter_jumps_to_the_issue_or_explains_why_not() {
    let mut app = App::new();
    app.cards = vec![card("PULSE-7", "in-progress", 1000)];
    app.activity = vec![act("PULSE-7", "status", "backlog → in-progress"), act("PULSE-9", "archive", "archived")];
    update(&mut app, Action::OpenActivityPage);
    assert!(update(&mut app, Action::ActPageSelect).is_none());
    assert!(matches!(app.mode, Mode::Normal));
    assert_eq!(app.focus.column, ColumnId::InProgress);
    update(&mut app, Action::OpenActivityPage);
    update(&mut app, Action::ActPageDown);
    update(&mut app, Action::ActPageSelect);
    assert!(matches!(app.mode, Mode::ActivityPage(_)));
    assert!(app.status_msg.as_deref().unwrap_or("").contains("PULSE-9"));
}

#[test]
fn activity_rows_filter_by_kind_and_query() {
    let mut app = App::new();
    app.activity = vec![
        act("PULSE-1", "status", "backlog → done"),
        act("PULSE-2", "status", "backlog → in-progress"),
        act("TIDE-3", "log", "root cause found"),
    ];
    let keys = |app: &App, s: &ActivityPageState| -> Vec<String> {
        activity_rows(app, s).into_iter().map(|i| app.activity[i].issue_key.clone()).collect()
    };
    let s = ActivityPageState::new();
    assert_eq!(keys(&app, &s).len(), 3);
    let s = ActivityPageState { filter: ActFilter::Closed, ..ActivityPageState::new() };
    assert_eq!(keys(&app, &s), ["PULSE-1"]);
    let s = ActivityPageState { query: "root".into(), ..ActivityPageState::new() };
    assert_eq!(keys(&app, &s), ["TIDE-3"]);
}

#[test]
fn undo_reverses_moves_reorders_and_archives_in_lifo_order() {
    let mut app = App::new();
    app.cards = vec![card("PULSE-1", "backlog", 1000), card("PULSE-2", "backlog", 2000)];
    update(&mut app, Action::BeginMove);
    assert!(matches!(update(&mut app, Action::MoveTo("done".into())), Some(Command::MoveIssue { .. })));
    update(&mut app, Action::ArchiveRequest);
    update(&mut app, Action::Archive);
    match update(&mut app, Action::Undo) {
        Some(Command::Unarchive { key }) => assert_eq!(key, "PULSE-1"),
        c => panic!("expected unarchive, got {c:?}"),
    }
    match update(&mut app, Action::Undo) {
        Some(Command::MoveIssue { key, status }) => {
            assert_eq!(key, "PULSE-1");
            assert_eq!(status, "backlog", "moves back to where it was");
        }
        c => panic!("expected move-back, got {c:?}"),
    }
    assert!(update(&mut app, Action::Undo).is_none());
    assert_eq!(app.status_msg.as_deref(), Some("nothing to undo"));
}

#[test]
fn undo_of_a_reorder_swaps_the_same_pair_again() {
    let mut app = App::new();
    app.cards = vec![card("PULSE-1", "backlog", 1000), card("PULSE-2", "backlog", 2000)];
    assert!(matches!(update(&mut app, Action::MoveIssueDir(Direction::Down)), Some(Command::Reorder { .. })));
    match update(&mut app, Action::Undo) {
        Some(Command::Reorder { key, other }) => {
            assert_eq!(key, "PULSE-1");
            assert_eq!(other, "PULSE-2");
        }
        c => panic!("expected reorder, got {c:?}"),
    }
}

#[test]
fn unseen_counts_only_news_from_others() {
    let mut app = App::new();
    app.self_actor = Some("robin".into());
    let now = chrono::Utc::now().timestamp_micros();
    let at = |secs_ago: i64, actor: Option<&str>| {
        let mut e = act("PULSE-9", "status", "backlog → done");
        e.ts = now - secs_ago * 1_000_000;
        e.actor = actor.map(String::from);
        e
    };
    app.activity = vec![at(10, Some("alex")), at(20, Some("robin")), at(30, None), at(300, Some("alex"))];
    app.last_seen = Some(now - 60 * 1_000_000);
    assert_eq!(app.unseen_count(), 2);
    app.last_seen = None;
    assert_eq!(app.unseen_count(), 3);
    app.mark_seen();
    assert_eq!(app.unseen_count(), 0);
}

#[test]
fn the_next_action_dismisses_a_stale_status_message() {
    let mut app = App::new();
    update(&mut app, Action::EditScope);
    assert!(app.status_msg.is_some());
    update(&mut app, Action::FocusMove(Direction::Down));
    assert!(app.status_msg.is_none());
    update(&mut app, Action::EditScope);
    assert!(app.status_msg.is_some());
}

#[test]
fn duplicate_milestone_names_hold_the_filter_on_that_name() {
    let mut app = App::new();
    app.scope.set_project(Some("CLI".into()));
    app.milestones = vec![milestone("B", "open"), milestone("A", "open"), milestone("A", "open")];
    update(&mut app, Action::CycleMilestoneFilter);
    assert_eq!(app.scope.milestone.as_deref(), Some("A"));
    update(&mut app, Action::CycleMilestoneFilter);
    assert_eq!(app.scope.milestone.as_deref(), Some("A"));
}

#[test]
fn undo_stack_forgets_the_oldest_beyond_its_depth() {
    let mut app = App::new();
    app.cards = vec![card("CLI-1", "backlog", 1000)];
    app.auto_focus_if_empty();
    for _ in 0..40 {
        update(&mut app, Action::MoveTo("done".into()));
    }
    assert_eq!(app.undo_stack.len(), 32);
}

#[test]
fn cancel_from_the_project_archive_dialog_restores_the_page_query() {
    let mut app = App::new();
    app.projects = vec![project("PULSE", false)];
    update(&mut app, Action::OpenProjectPage);
    update(&mut app, Action::ProjPageInput('p'));
    update(&mut app, Action::ProjPageArchiveRequest);
    update(&mut app, Action::Cancel);
    match &app.mode {
        Mode::ProjectPage(s) => assert_eq!(s.query, "p"),
        _ => panic!("expected the project page"),
    }
}

#[test]
fn jump_to_blocker_lands_on_the_open_blocker() {
    let mut app = App::new();
    app.cards = vec![card("CLI-1", "backlog", 1), card("CLI-2", "in-review", 1)];
    app.detail_relations = vec![
        RelationRef { kind: "blocked_by".into(), key: "CLI-9".into(), title: "x".into(), status: "done".into() },
        RelationRef { kind: "blocked_by".into(), key: "CLI-2".into(), title: "y".into(), status: "in-review".into() },
    ];
    app.mode = Mode::Detail("CLI-1".into());
    update(&mut app, Action::JumpToBlocker);
    assert!(matches!(app.mode, Mode::Normal));
    assert_eq!(app.focus.column, ColumnId::InReview);
    assert_eq!(app.focus.card_idx, 0);
}
