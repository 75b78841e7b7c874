use cliban_tui::display::{card_title_text, label_tags};
use cliban_tui::model::{App, Card, ColumnId, MilestonePageState, MilestoneRef, PageSort, PickerChip, PickerState, RelationRef, StatusFilter};
use cliban_tui::text::{count_text, decimal_text, pad_left, pad_right};
use cliban_tui::views::{
    any_open_blocker, column_header, column_scroll, detail_hints, fuzzy_labels, hint_spans, milestone_chips,
    milestone_detail, milestone_page_empty, milestone_page_title, milestone_row, picker_labels, relation_label, relation_text,
    relation_tone, status_spans, top_bar, Tone,
};

fn card(key: &str, status: &str) -> Card {
    Card {
        id: 0,
        key: key.into(),
        project: key.split('-').next().unwrap().into(),
        title: "x".into(),
        status: status.into(),
        priority: "low".into(),
        position: 1,
        milestone_id: None,
        milestone: None,
        labels: Vec::new(),
    }
}

fn ms(name: &str, status: &str, done: i64, total: i64) -> MilestoneRef {
    MilestoneRef {
        id: 1,
        project: "CLI".into(),
        name: name.into(),
        description: "the description".into(),
        status: status.into(),
        target: Some("2026-08-01".into()),
        total,
        done,
        last_activity: 0,
        closes_8w: [0; 8],
    }
}

fn rel(kind: &str, key: &str, title: &str, status: &str) -> RelationRef {
    RelationRef { kind: kind.into(), key: key.into(), title: title.into(), status: status.into() }
}

#[test]
fn top_bar_shows_scope_count_and_blocked() {
    let mut app = App::new();
    app.scope.set_project(Some("CLI".into()));
    app.cards = vec![card("CLI-1", "blocked")];
    let bar = top_bar(&app);
    assert_eq!(bar.project, "▸CLI");
    assert_eq!(bar.project_tone, Tone::Named);
    assert_eq!(bar.milestone, "—");
    assert_eq!(bar.issues, "1 issues");
    assert_eq!(bar.blocked, "⚠ 1 blocked");
    assert_eq!(bar.blocked_tone, Tone::Alarm);
}

#[test]
fn top_bar_counts_only_the_scope() {
    let mut app = App::new();
    app.cards = vec![card("CLI-1", "backlog"), card("LM-1", "done")];
    let bar = top_bar(&app);
    assert_eq!(bar.project, "▸all");
    assert_eq!(bar.project_tone, Tone::Accent);
    assert_eq!(bar.issues, "2 issues");
    assert_eq!(bar.blocked, "⚠ 0 blocked");
    assert_eq!(bar.blocked_tone, Tone::Dim);
    app.scope.set_project(Some("LM".into()));
    assert_eq!(top_bar(&app).issues, "1 issues");
    // A milestone scope keeps only that milestone's issues.
    app.scope.milestone = Some("M1".into());
    let bar = top_bar(&app);
    assert_eq!(bar.issues, "0 issues");
    assert_eq!(bar.milestone, "▸M1");
    assert_eq!(bar.milestone_tone, Tone::Milestone);
}

#[test]
fn board_renders_all_five_columns() {
    let labels: Vec<String> = ColumnId::all().iter().map(|c| column_header(*c, 0)).collect();
    assert_eq!(labels, vec![" BACKLOG (0) ", " IN-PROGRESS (0) ", " BLOCKED (0) ", " IN-REVIEW (0) ", " DONE (0) "]);
}

#[test]
fn column_header_shows_count() {
    assert_eq!(column_header(ColumnId::Backlog, 2), " BACKLOG (2) ");
    assert_eq!(column_header(ColumnId::Done, 120), " DONE (120) ");
}

#[test]
fn focused_column_scrolls_to_keep_the_card_visible() {
    assert_eq!(column_scroll(None, 3), 0);
    assert_eq!(column_scroll(Some(2), 3), 0);
    assert_eq!(column_scroll(Some(3), 3), 1);
    assert_eq!(column_scroll(Some(7), 3), 5);
    assert_eq!(column_scroll(Some(7), 0), 0);
}

#[test]
fn card_key_line_carries_up_to_two_label_tags() {
    let mut c = card("PULSE-8", "backlog");
    c.labels = vec!["bug".into(), "regression".into(), "backend".into()];
    assert_eq!(label_tags(&c), vec![" ·bug", " ·regression"]);
    c.labels = vec!["bug".into()];
    assert_eq!(label_tags(&c), vec![" ·bug"]);
}

#[test]
fn focused_long_titles_scroll_and_others_are_cut() {
    assert_eq!(card_title_text("Hello world", false, 5, 0), "Hell…");
    assert_eq!(card_title_text("Hello world", true, 5, 0), "Hello");
    assert_eq!(card_title_text("Hello world", true, 5, 200), "ello ");
    assert_eq!(card_title_text("Hi", true, 5, 200), "Hi");
}

#[test]
fn detail_lists_relations_and_offers_the_blocker_jump() {
    let rels = vec![
        rel("blocked_by", "PULSE-4", "Flap detection", "in-progress"),
        rel("blocks", "PULSE-15", "SQLite persistence", "backlog"),
    ];
    assert_eq!(relation_label(&rels[0].kind), "blocked by");
    assert_eq!(relation_text(&rels[0]), "PULSE-4  Flap detection");
    assert_eq!(relation_label(&rels[1].kind), "blocks");
    assert_eq!(relation_text(&rels[1]), "PULSE-15  SQLite persistence");
    assert_eq!(relation_tone(&rels[0]), Tone::Alarm);
    assert_eq!(relation_tone(&rels[1]), Tone::Dim);
    assert!(any_open_blocker(&rels));
    assert_eq!(detail_hints(&rels), vec![("b", "jump to blocker"), ("e", "edit"), ("q/esc", "back")]);
}

#[test]
fn resolved_blockers_fade_and_lose_the_jump() {
    let rels = vec![rel("blocked_by", "CLI-2", "Done already", "done"), rel("related_to", "CLI-3", "", "backlog")];
    assert_eq!(relation_tone(&rels[0]), Tone::Resolved);
    assert_eq!(relation_label(&rels[1].kind), "related");
    assert!(!any_open_blocker(&rels));
    assert_eq!(detail_hints(&rels), vec![("e", "edit"), ("q/esc", "back")]);
    let long = rel("blocks", "CLI-4", &"x".repeat(50), "backlog");
    assert_eq!(relation_text(&long), format!("CLI-4  {}…", "x".repeat(39)));
}

#[test]
fn hints_color_keys_and_dim_labels() {
    let spans = hint_spans(&[("q", "quit"), ("r", "refresh")]);
    assert_eq!(spans[0], ("q".to_string(), Tone::Accent));
    assert_eq!(spans[1], (" quit".to_string(), Tone::Dim));
    let flat: String = spans.iter().map(|s| s.0.as_str()).collect();
    assert_eq!(flat, "q quit  r refresh");
}

#[test]
fn footer_surfaces_the_status_message() {
    let spans = status_spans(&Some("scope a project first with p".into()), &[("q", "quit")]);
    let flat: String = spans.iter().map(|s| s.0.as_str()).collect();
    assert_eq!(flat, "scope a project first with p  |  q quit");
    assert_eq!(spans[0].1, Tone::Marker);
    assert_eq!(status_spans(&None, &[("q", "quit")]).len(), 2);
}

#[test]
fn picker_rows_come_from_the_filtered_labels() {
    let p = PickerState {
        query: "lo".into(),
        items: vec![
            PickerChip { label: "LOOM  Loom".into(), value: "LOOM".into() },
            PickerChip { label: "COOK  Cook".into(), value: "COOK".into() },
            PickerChip { label: "flow".into(), value: "flow".into() },
        ],
        cursor: 0,
    };
    assert_eq!(picker_labels(&p), vec!["LOOM  Loom", "flow"]);
}

#[test]
fn fuzzy_rows_show_key_and_title_or_the_bare_key() {
    let mut app = App::new();
    let mut c = card("CLI-1", "backlog");
    c.title = "First".into();
    app.cards = vec![c];
    let rows = fuzzy_labels(&app, &["CLI-1".to_string(), "CLI-9".to_string()]);
    assert_eq!(rows, vec!["CLI-1  First", "CLI-9"]);
}

#[test]
fn page_title_names_the_scope() {
    assert_eq!(milestone_page_title(&Some("CLI".into())), "Milestones · CLI");
    assert_eq!(milestone_page_title(&None), "Milestones · all projects");
}

#[test]
fn empty_bucket_and_empty_board_say_different_things() {
    let app = App::new();
    assert!(milestone_page_empty(&app).contains("no milestones yet"));
    let mut app = App::new();
    app.milestones = vec![ms("done-one", "completed", 1, 1)];
    assert!(milestone_page_empty(&app).contains("nothing in this bucket"));
}

#[test]
fn chips_mark_the_active_bucket_and_sort() {
    let state = MilestonePageState { sort: PageSort::Target, ..MilestonePageState::new() };
    let (chips, tail) = milestone_chips(&state, 1);
    assert!(tail.contains("sort: target"), "{tail}");
    assert!(tail.contains("1 shown"), "{tail}");
    let labels: Vec<&str> = chips.iter().map(|c| c.1.as_str()).collect();
    assert_eq!(labels, vec![" open ", " completed ", " cancelled ", " all "]);
    assert_eq!(chips.iter().filter(|c| c.2).count(), 1);
    assert_eq!(chips[0].0, StatusFilter::Open);
    assert!(chips[0].2);
}

#[test]
fn page_row_shows_progress_and_target() {
    let r = milestone_row(&ms("v0.3-cutover", "open", 12, 18));
    assert_eq!(r.name, format!("{:<24} ", "v0.3-cutover"));
    assert_eq!(r.project, "CLI    ");
    assert_eq!(r.status, "open       ");
    assert_eq!(r.counts, "  12/18  ");
    assert_eq!(r.target, "2026-08-01  ");
    // 66% of ten cells, rounded up.
    assert_eq!(r.filled, "█".repeat(7));
    assert_eq!(r.empty, format!("{} ", "░".repeat(3)));
    assert!(!r.complete);
    let mut none = ms("a-very-long-milestone-name-indeed", "completed", 3, 3);
    none.target = None;
    let r = milestone_row(&none);
    assert_eq!(r.name, "a-very-long-milestone-n… ");
    assert_eq!(r.target, "-           ");
    assert!(r.complete);
}

#[test]
fn numbers_and_padding_are_written_exactly() {
    assert_eq!(count_text(0), "0");
    assert_eq!(count_text(4096), "4096");
    assert_eq!(decimal_text(-5), "-5");
    assert_eq!(pad_right("ab", 4), "ab  ");
    assert_eq!(pad_right("abcdef", 4), "abcdef");
    assert_eq!(pad_left("ab", 4), "  ab");
    assert_eq!(pad_left("abcdef", 4), "abcdef");
}

#[test]
fn page_shows_progress_target_and_detail_for_the_focused_row() {
    let mut app = App::new();
    app.scope.set_project(Some("CLI".into()));
    let m = ms("v0.3-cutover", "open", 12, 18);
    assert_eq!(milestone_page_title(&app.scope.project), "Milestones · CLI");
    let row = milestone_row(&m);
    assert!(row.name.contains("v0.3-cutover"));
    assert!(row.counts.contains("12/18"), "progress counts missing");
    assert!(row.target.contains("2026-08-01"), "target missing");
    let d = milestone_detail(&m, 4);
    assert_eq!(d.percent, " 66%", "detail percentage missing");
    assert_eq!(d.description, vec![" the description"], "detail body missing");
}

#[test]
fn detail_pane_says_counts_target_and_bar() {
    let mut m = ms("M1", "completed", 3, 3);
    m.target = None;
    m.description = "first\r\nsecond\nthird\n".into();
    let d = milestone_detail(&m, 2);
    assert_eq!(d.title, " M1");
    assert_eq!(d.project, " CLI");
    assert_eq!(d.counts, " · 3/3 done (100%) · ");
    assert_eq!(d.target, "none");
    assert_eq!(d.filled, format!(" {}", "█".repeat(30)));
    assert_eq!(d.empty, "");
    assert!(d.complete);
    assert_eq!(d.description, vec![" first", " second"]);
    m.description = "  \n ".into();
    assert!(milestone_detail(&m, 5).description.is_empty(), "a blank description shows nothing");
    let empty = ms("E", "open", 0, 0);
    let d = milestone_detail(&empty, 5);
    assert_eq!(d.percent, " 0%");
    assert_eq!(d.empty, "░".repeat(30));
    assert!(!d.complete);
}
