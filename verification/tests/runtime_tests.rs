use std::collections::{HashMap, HashSet, VecDeque};

use chrono::{Datelike, NaiveDate};

use cliban_tui::actions::{Action, Command};
use cliban_tui::display::{centered_rect, PickerView};
use cliban_tui::input::ByteSession;
use cliban_tui::keybinds::{map_mouse, Hit, MouseInput};
use cliban_tui::keys::{KeyCode, KeyEvent, KeyModifiers};
use cliban_tui::model::{App, Card, ColumnId, MilestoneRef, Mode};
use cliban_tui::picker::{action, begin, step, Move, PickStep};
use cliban_tui::remote::{ChannelCore, RemoteInput, WaitAction, WaitEvent};
use cliban_tui::runtime::{
    create_issue_buffer, create_milestone_buffer, handle_key, new_issue_buffer, new_issue_project,
    new_issue_target, new_milestone_buffer, new_milestone_target, opens_editor, reload, seed_milestone_picker,
    DataError, KeyOutcome,
};
use cliban_tui::session::SessionEvent;
use cliban_tui::theme::{deadline_tone, name_color_slot, parse_theme, DeadlineTone, ThemeColor, NAME_PALETTE_LEN};

fn key(code: KeyCode) -> KeyEvent {
    KeyEvent::new(code, KeyModifiers::none())
}

fn card(key: &str, status: &str, pos: i64) -> Card {
    let project = key.split('-').next().unwrap().to_string();
    Card {
        id: 0,
        key: key.into(),
        project,
        title: format!("T {key}"),
        status: status.into(),
        priority: "medium".into(),
        position: pos,
        milestone_id: None,
        milestone: None,
        labels: Vec::new(),
    }
}

fn milestone(name: &str) -> MilestoneRef {
    MilestoneRef {
        id: name.len() as i64,
        project: "CLI".into(),
        name: name.into(),
        description: String::new(),
        status: "open".into(),
        target: None,
        total: 0,
        done: 0,
        last_activity: 0,
        closes_8w: [0; 8],
    }
}

// ---- the blocking list picker, driven by raw bytes ----

fn pick(bytes: &[u8], len: usize) -> Option<usize> {
    let mut session = ByteSession::new();
    session.feed_bytes(bytes);
    let mut state = begin(len);
    for _ in 0..1000 {
        match state {
            PickStep::Picked(i) => return Some(i),
            PickStep::Declined => return None,
            PickStep::Choosing(cursor) => {
                if let SessionEvent::Key(k) = session.next_event() {
                    state = step(cursor, len, action(k));
                }
            }
        }
    }
    panic!("the pick never finished");
}

fn run(bytes: &[u8]) -> Option<usize> {
    pick(bytes, 3)
}

#[test]
fn enter_picks_first_by_default() {
    assert_eq!(run(b"\r"), Some(0));
}

#[test]
fn j_and_arrow_down_move_then_enter_picks() {
    assert_eq!(run(b"j\r"), Some(1));
    assert_eq!(run(b"j\x1b[B\r"), Some(2));
    // Down saturates at the last item.
    assert_eq!(run(b"jjjjj\r"), Some(2));
    // k moves back up and saturates at the first.
    assert_eq!(run(b"jjkkk\r"), Some(0));
}

#[test]
fn q_esc_and_ctrl_c_cancel() {
    assert_eq!(run(b"q"), None);
    assert_eq!(run(&[0x03]), None);
    // Lone ESC arrives via the idle flush path.
    assert_eq!(run(b"\x1b"), None);
}

#[test]
fn empty_items_declines_immediately_without_reading_input() {
    assert_eq!(begin(0), PickStep::Declined);
    assert_eq!(pick(b"", 0), None);
}

#[test]
fn picker_keys_map_to_moves() {
    assert_eq!(action(key(KeyCode::Up)), Some(Move::Up));
    assert_eq!(action(key(KeyCode::Char('k'))), Some(Move::Up));
    assert_eq!(action(key(KeyCode::Enter)), Some(Move::Accept));
    assert_eq!(action(KeyEvent::new(KeyCode::Char('c'), KeyModifiers::control())), Some(Move::Cancel));
    assert_eq!(action(key(KeyCode::Char('c'))), None);
    assert_eq!(action(key(KeyCode::Tab)), None);
}

#[test]
fn picker_step_stays_on_the_list() {
    assert_eq!(step(0, 3, Some(Move::Up)), PickStep::Choosing(0));
    assert_eq!(step(2, 3, Some(Move::Down)), PickStep::Choosing(2));
    assert_eq!(step(1, 3, Some(Move::Accept)), PickStep::Picked(1));
    assert_eq!(step(1, 3, None), PickStep::Choosing(1));
}

// ---- the remote session's input side ----

/// The host's wait, over a queue of deliveries: when none is left the
/// deadline passes.
fn wait(core: &mut ChannelCore, deliveries: &mut VecDeque<RemoteInput>, dirty: &mut dyn FnMut() -> bool) -> SessionEvent {
    let mut act = core.start_wait();
    loop {
        act = match act {
            WaitAction::Deliver(ev) => return ev,
            WaitAction::ProbeDirty => core.advance(WaitEvent::Probed(dirty())),
            WaitAction::Listen => match deliveries.pop_front() {
                Some(input) => core.advance(WaitEvent::Received(input)),
                None => core.advance(WaitEvent::TimedOut),
            },
        };
    }
}

fn next(core: &mut ChannelCore, deliveries: &mut VecDeque<RemoteInput>) -> SessionEvent {
    wait(core, deliveries, &mut || false)
}

/// A probe that reports a change exactly once.
fn once() -> impl FnMut() -> bool {
    let mut fired = true;
    move || std::mem::take(&mut fired)
}

fn sk(code: KeyCode) -> SessionEvent {
    SessionEvent::Key(key(code))
}

#[test]
fn bytes_parse_to_key_events_in_order() {
    let mut core = ChannelCore::new();
    let mut d = VecDeque::from(vec![RemoteInput::Bytes(b"j\x1b[B".to_vec())]);
    assert_eq!(next(&mut core, &mut d), sk(KeyCode::Char('j')));
    assert_eq!(next(&mut core, &mut d), sk(KeyCode::Down));
}

#[test]
fn resize_updates_shared_size_and_emits_event() {
    let mut core = ChannelCore::new();
    let mut d = VecDeque::from(vec![RemoteInput::Resize(120, 40)]);
    assert_eq!(next(&mut core, &mut d), SessionEvent::Resize(120, 40));
}

#[test]
fn resize_clamps_zero_dimensions_to_one() {
    let mut core = ChannelCore::new();
    let mut d = VecDeque::from(vec![RemoteInput::Resize(0, 0)]);
    assert_eq!(next(&mut core, &mut d), SessionEvent::Resize(1, 1));
}

#[test]
fn lone_esc_flushes_on_timeout_not_before() {
    let mut core = ChannelCore::new();
    assert!(matches!(core.start_wait(), WaitAction::ProbeDirty));
    assert!(matches!(core.advance(WaitEvent::Probed(false)), WaitAction::Listen));
    // The bytes arrive; nothing complete parses, so the wait goes on.
    assert!(matches!(core.advance(WaitEvent::Received(RemoteInput::Bytes(b"\x1b".to_vec()))), WaitAction::Listen));
    // The deadline passes and the pending ESC flushes as a key.
    match core.advance(WaitEvent::TimedOut) {
        WaitAction::Deliver(ev) => assert_eq!(ev, sk(KeyCode::Esc)),
        other => panic!("expected the Esc key, got {other:?}"),
    }
    let mut d = VecDeque::from(vec![RemoteInput::Bytes(b"\x1b".to_vec())]);
    assert_eq!(next(&mut core, &mut d), sk(KeyCode::Esc));
}

#[test]
fn split_escape_sequence_across_sends_stays_one_key() {
    let mut core = ChannelCore::new();
    let mut d = VecDeque::from(vec![
        RemoteInput::Bytes(b"\x1b[".to_vec()),
        RemoteInput::Bytes(b"B".to_vec()),
    ]);
    assert_eq!(next(&mut core, &mut d), sk(KeyCode::Down));
    assert_eq!(next(&mut core, &mut d), SessionEvent::Tick);
}

#[test]
fn timeout_yields_tick() {
    let mut core = ChannelCore::new();
    assert_eq!(next(&mut core, &mut VecDeque::new()), SessionEvent::Tick);
}

#[test]
fn dirty_check_yields_refresh_then_goes_quiet() {
    let mut core = ChannelCore::new();
    let mut probe = once();
    assert_eq!(wait(&mut core, &mut VecDeque::new(), &mut probe), SessionEvent::Refresh);
    // Consumed: the next wait times out to a plain Tick.
    assert_eq!(wait(&mut core, &mut VecDeque::new(), &mut probe), SessionEvent::Tick);
}

#[test]
fn refresh_precedes_queued_keys_without_dropping_them() {
    let mut core = ChannelCore::new();
    assert_eq!(core.receive(RemoteInput::Bytes(b"j".to_vec())), None);
    let mut probe = once();
    let mut d = VecDeque::new();
    assert_eq!(wait(&mut core, &mut d, &mut probe), SessionEvent::Refresh);
    assert_eq!(wait(&mut core, &mut d, &mut probe), sk(KeyCode::Char('j')));
}

#[test]
fn a_change_seen_only_after_the_deadline_still_refreshes() {
    let mut core = ChannelCore::new();
    let mut calls = 0;
    let mut probe = move || {
        calls += 1;
        calls == 2
    };
    assert_eq!(wait(&mut core, &mut VecDeque::new(), &mut probe), SessionEvent::Refresh);
}

#[test]
fn idle_channel_with_nothing_pending_ticks() {
    let mut core = ChannelCore::new();
    let mut d = VecDeque::new();
    assert_eq!(next(&mut core, &mut d), SessionEvent::Tick);
}

// ---- the host loop's decisions ----

#[test]
fn seeding_the_milestone_picker_lists_loaded_milestones() {
    let mut app = App::new();
    app.milestones = vec![milestone("M1"), milestone("M2")];
    seed_milestone_picker(&mut app);
    assert!(matches!(app.mode, Mode::Normal), "other modes are left alone");
    app.scope.set_project(Some("CLI".into()));
    assert!(update_to_picker(&mut app));
    seed_milestone_picker(&mut app);
    match &app.mode {
        Mode::MilestonePicker(p) => {
            assert_eq!(p.query, "");
            assert_eq!(p.cursor, 0);
            let labels: Vec<&str> = p.items.iter().map(|c| c.label.as_str()).collect();
            assert_eq!(labels, vec!["M1", "M2"]);
            let values: Vec<&str> = p.items.iter().map(|c| c.value.as_str()).collect();
            assert_eq!(values, vec!["M1", "M2"]);
        }
        _ => panic!("expected the milestone picker"),
    }
}

fn update_to_picker(app: &mut App) -> bool {
    cliban_tui::update::update(app, Action::OpenMilestonePicker);
    matches!(app.mode, Mode::MilestonePicker(_))
}

#[test]
fn handle_key_quits_on_ctrl_c_and_ignores_unbound_keys() {
    let mut app = App::new();
    app.cards = vec![card("CLI-1", "backlog", 1000)];
    app.auto_focus_if_empty();
    let out = handle_key(&mut app, KeyEvent::new(KeyCode::Char('c'), KeyModifiers::control()));
    assert!(matches!(out, KeyOutcome::Quit));
    let out = handle_key(&mut app, key(KeyCode::Char('~')));
    assert!(matches!(out, KeyOutcome::Carry(None)));
}

#[test]
fn handle_key_csi_down_arrow_moves_focus() {
    let mut app = App::new();
    app.cards = vec![card("CLI-1", "backlog", 1000), card("CLI-2", "backlog", 2000)];
    app.auto_focus_if_empty();
    assert_eq!(app.focus.card_idx, 0);
    let mut session = ByteSession::new();
    session.feed_bytes(b"\x1b[B");
    if let SessionEvent::Key(k) = session.next_event() {
        assert!(matches!(handle_key(&mut app, k), KeyOutcome::Carry(None)));
    } else {
        panic!("expected a key");
    }
    assert_eq!(app.focus.card_idx, 1);
}

#[test]
fn handle_key_lone_esc_is_back_and_q_asks_to_quit() {
    let mut app = App::new();
    app.cards = vec![card("CLI-1", "backlog", 1000)];
    app.auto_focus_if_empty();
    let mut session = ByteSession::new();
    session.feed_bytes(b"\x1b");
    match session.next_event() {
        SessionEvent::Key(k) => {
            assert!(matches!(handle_key(&mut app, k), KeyOutcome::Carry(None)));
        }
        other => panic!("expected the flushed Esc, got {other:?}"),
    }
    // Esc means back, and the board is already the top level.
    assert!(matches!(app.mode, Mode::Normal));
    handle_key(&mut app, key(KeyCode::Char('q')));
    assert!(matches!(app.mode, Mode::ConfirmQuit));
}

#[test]
fn handle_key_space_then_d_moves_the_card_to_done() {
    let mut app = App::new();
    app.cards = vec![card("CLI-1", "backlog", 1000)];
    app.auto_focus_if_empty();
    assert!(matches!(handle_key(&mut app, key(KeyCode::Char(' '))), KeyOutcome::Carry(None)));
    match handle_key(&mut app, key(KeyCode::Char('d'))) {
        KeyOutcome::Carry(Some(Command::MoveIssue { key, status })) => {
            assert_eq!(key, "CLI-1");
            assert_eq!(status, "done");
        }
        other => panic!("expected a move, got {other:?}"),
    }
}

#[test]
fn reload_takes_the_new_rows_and_focuses_a_card() {
    let mut app = App::new();
    assert!(app.focused_card().is_none());
    reload(&mut app, vec![card("CLI-1", "in-progress", 1000)], vec![milestone("M1")]);
    assert_eq!(app.cards.len(), 1);
    assert_eq!(app.milestones.len(), 1);
    assert_eq!(app.focus.column, ColumnId::InProgress);
    assert_eq!(app.focused_card().map(|c| c.key.as_str()), Some("CLI-1"));
}

#[test]
fn new_issue_goes_to_the_scope_then_the_focus_then_the_first_card() {
    let mut app = App::new();
    assert_eq!(new_issue_project(&app), None);
    app.cards = vec![card("LM-1", "backlog", 1000), card("CLI-1", "done", 1000)];
    assert_eq!(new_issue_project(&app), Some("LM".to_string()));
    app.focus.column = ColumnId::Done;
    app.focus.card_idx = 0;
    assert_eq!(new_issue_project(&app), Some("CLI".to_string()));
    app.scope.set_project(Some("TIDE".into()));
    assert_eq!(new_issue_project(&app), Some("TIDE".to_string()));
}

#[test]
fn fresh_buffers_carry_their_defaults() {
    let b = new_issue_buffer("in-review");
    assert_eq!(b.status, "in-review");
    assert_eq!(b.priority, "none");
    assert_eq!(b.title, "");
    assert_eq!(b.description, "");
    let m = new_milestone_buffer();
    assert_eq!(m.status, "open");
    assert_eq!(m.name, "");
}

#[test]
fn a_new_issue_without_a_project_says_so() {
    let mut app = App::new();
    assert_eq!(new_issue_target(&mut app), None);
    assert_eq!(app.status_msg.as_deref(), Some("scope a project (p) before creating"));
    let mut app = App::new();
    app.cards = vec![card("LM-1", "backlog", 1000)];
    assert_eq!(new_issue_target(&mut app), Some("LM".to_string()));
    assert_eq!(app.status_msg, None);
}

#[test]
fn a_new_milestone_goes_to_the_named_then_the_scoped_project() {
    let mut app = App::new();
    assert_eq!(new_milestone_target(&mut app, &None), None);
    assert_eq!(app.status_msg.as_deref(), Some("scope a project (p) before adding a milestone"));
    let mut app = App::new();
    app.scope.set_project(Some("TIDE".into()));
    assert_eq!(new_milestone_target(&mut app, &None), Some("TIDE".to_string()));
    assert_eq!(new_milestone_target(&mut app, &Some("CLI".into())), Some("CLI".to_string()));
    assert_eq!(app.status_msg, None);
}

#[test]
fn dialog_buffers_carry_what_the_dialog_resolved() {
    let b = create_issue_buffer("blocked", "Fix the pump", "M1");
    assert_eq!(b.status, "blocked");
    assert_eq!(b.title, "Fix the pump");
    assert_eq!(b.milestone, "M1");
    assert_eq!(b.priority, "none");
    assert_eq!(b.parent, "");
    assert_eq!(b.description, "");
    let m = create_milestone_buffer("M2", "2026-09-01");
    assert_eq!(m.name, "M2");
    assert_eq!(m.target, "2026-09-01");
    assert_eq!(m.status, "open");
    assert_eq!(m.description, "");
}

#[test]
fn data_error_keeps_its_message() {
    let e = DataError("no such project".into());
    assert_eq!(e.message(), "no such project");
}

// ---- mouse ----

#[test]
fn wheel_moves_the_board_focus_and_page_cursors() {
    let app = App::new();
    assert!(matches!(
        map_mouse(MouseInput::ScrollDown(3, 4), &app, None),
        Some(Action::FocusMove(cliban_tui::actions::Direction::Down))
    ));
    assert!(matches!(
        map_mouse(MouseInput::ScrollUp(3, 4), &app, None),
        Some(Action::FocusMove(cliban_tui::actions::Direction::Up))
    ));
    let mut confirm = App::new();
    confirm.mode = Mode::ConfirmQuit;
    assert!(map_mouse(MouseInput::ScrollDown(0, 0), &confirm, None).is_none());
}

#[test]
fn click_focuses_then_opens_a_card() {
    let mut app = App::new();
    app.cards = vec![card("CLI-1", "backlog", 1000), card("CLI-2", "backlog", 2000)];
    app.auto_focus_if_empty();
    let second = Some(Hit::Card { column: ColumnId::Backlog, idx: 1 });
    assert!(matches!(
        map_mouse(MouseInput::Down(5, 5), &app, second),
        Some(Action::FocusCard(ColumnId::Backlog, 1))
    ));
    let first = Some(Hit::Card { column: ColumnId::Backlog, idx: 0 });
    assert!(matches!(map_mouse(MouseInput::Down(5, 5), &app, first), Some(Action::OpenDetail)));
    assert!(matches!(
        map_mouse(MouseInput::Down(5, 5), &app, Some(Hit::Column(ColumnId::Done))),
        Some(Action::FocusCard(ColumnId::Done, usize::MAX))
    ));
    assert!(map_mouse(MouseInput::Down(5, 5), &app, None).is_none());
    assert!(matches!(
        map_mouse(MouseInput::Down(5, 5), &app, Some(Hit::PageRow(4))),
        Some(Action::PageCursor(4))
    ));
}

// ---- theme ----

#[test]
fn theme_file_parses_names_indexes_hex_and_comments() {
    let map: HashMap<String, ThemeColor> = parse_theme(
        "# a light theme\n\
         accent = blue\n\
         selection-bg = \"#e0e0e0\"\n\
         dim = #a0a0a0   # bare hex with a trailing comment\n\
         priority-high = 130   # burnt orange\n\
         nonsense line\n\
         marker = not-a-color\n",
    )
    .into_iter()
    .collect();
    assert_eq!(map.get("accent"), Some(&ThemeColor::Blue));
    assert_eq!(map.get("selection-bg"), Some(&ThemeColor::Rgb(0xe0, 0xe0, 0xe0)));
    assert_eq!(map.get("dim"), Some(&ThemeColor::Rgb(0xa0, 0xa0, 0xa0)));
    assert_eq!(map.get("priority-high"), Some(&ThemeColor::Indexed(130)));
    assert!(!map.contains_key("marker"), "unparsable colors are skipped");
    assert_eq!(map.len(), 4);
}

#[test]
fn later_theme_settings_win() {
    let parsed = parse_theme("accent = red\naccent = green\n");
    assert_eq!(parsed.len(), 2);
    let map: HashMap<String, ThemeColor> = parsed.into_iter().collect();
    assert_eq!(map.get("accent"), Some(&ThemeColor::Green));
}

#[test]
fn name_color_slots_stay_in_the_palette() {
    assert_eq!(name_color_slot("TIDE"), name_color_slot("TIDE"));
    let set: HashSet<usize> = ["FORGE", "TIDE", "PULSE", "CLI"].iter().map(|p| name_color_slot(p)).collect();
    assert!(set.len() >= 2);
    assert!(set.iter().all(|s| *s < NAME_PALETTE_LEN));
}

#[test]
fn name_color_slot_is_the_wrapping_hash_mod_six() {
    // "A" = 65; "AB" = 65 * 31 + 66 = 2081.
    assert_eq!(name_color_slot(""), 0);
    assert_eq!(name_color_slot("A"), 65 % 6);
    assert_eq!(name_color_slot("AB"), 2081 % 6);
}

#[test]
fn deadline_tones_by_distance() {
    let today = NaiveDate::from_ymd_opt(2026, 7, 28).unwrap().num_days_from_ce();
    let c = |t: &str| deadline_tone(Some(t), true, today);
    assert_eq!(c("2026-07-27"), DeadlineTone::Overdue);
    assert_eq!(c("2026-08-01"), DeadlineTone::ThisWeek);
    assert_eq!(c("2026-08-20"), DeadlineTone::ThisMonth);
    assert_eq!(c("2026-12-01"), DeadlineTone::Quiet);
    assert_eq!(c("not-a-date"), DeadlineTone::Quiet);
    assert_eq!(deadline_tone(Some("2026-07-01"), false, today), DeadlineTone::Quiet);
    assert_eq!(deadline_tone(None, true, today), DeadlineTone::Quiet);
}

#[test]
fn deadline_edges_are_inclusive() {
    let today = NaiveDate::from_ymd_opt(2026, 7, 28).unwrap().num_days_from_ce();
    assert_eq!(deadline_tone(Some("2026-07-28"), true, today), DeadlineTone::ThisWeek);
    assert_eq!(deadline_tone(Some("2026-08-04"), true, today), DeadlineTone::ThisWeek);
    assert_eq!(deadline_tone(Some("2026-08-05"), true, today), DeadlineTone::ThisMonth);
    assert_eq!(deadline_tone(Some("2026-08-27"), true, today), DeadlineTone::ThisMonth);
    assert_eq!(deadline_tone(Some("2026-08-28"), true, today), DeadlineTone::Quiet);
}

// ---- the picker popup ----

#[test]
fn picker_shows_cursor_marker_on_selected_row() {
    let items: Vec<String> = vec!["one".into(), "two".into(), "three".into()];
    let view = PickerView { title: "Pick", query: "", items: &items, cursor: 1 };
    let rows = view.list_rows(20);
    assert_eq!(rows, vec!["  one", "▸ two", "  three"]);
}

#[test]
fn picker_renders_no_matches_when_items_empty() {
    let view = PickerView { title: "Pick", query: "zzz", items: &[], cursor: 0 };
    assert_eq!(view.list_rows(20), vec!["  (no matches)"]);
}

#[test]
fn picker_window_slides_to_keep_the_cursor_visible() {
    let items: Vec<String> = (0..6).map(|i| format!("item{i}")).collect();
    let view = PickerView { title: "Pick", query: "", items: &items, cursor: 4 };
    assert_eq!(view.list_rows(3), vec!["  item2", "  item3", "▸ item4"]);
    let past_end = PickerView { title: "Pick", query: "", items: &items, cursor: 99 };
    assert_eq!(past_end.list_rows(2), vec!["  item4", "▸ item5"]);
    assert_eq!(view.heading(), " Pick ");
}

#[test]
fn popup_is_centred_and_clamped() {
    // 60% of 80 columns, 20 rows of 24.
    assert_eq!(centered_rect(60, 20, 0, 0, 80, 24), (16, 2, 48, 20));
    // Never narrower than 20 cells unless the area is.
    assert_eq!(centered_rect(60, 20, 0, 0, 30, 10), (5, 0, 20, 10));
    assert_eq!(centered_rect(60, 20, 2, 3, 10, 5), (2, 3, 10, 5));
}

#[test]
fn editor_commands_are_the_edit_and_new_flows() {
    assert!(opens_editor(&Command::EditIssue { key: "CLI-1".into() }));
    assert!(opens_editor(&Command::NewIssue { status: "backlog".into() }));
    assert!(opens_editor(&Command::EditMilestone { project: "CLI".into(), name: "M1".into() }));
    assert!(opens_editor(&Command::NewMilestone { project: None }));
    assert!(opens_editor(&Command::EditProject { key: "CLI".into() }));
    assert!(!opens_editor(&Command::MoveIssue { key: "CLI-1".into(), status: "done".into() }));
    assert!(!opens_editor(&Command::Reload));
    assert!(!opens_editor(&Command::NewProject));
}

#[test]
fn theme_colors_cover_names_brightness_and_indexes() {
    let parsed = parse_theme("a = light blue\nb = bright_red\nc = grey\nd = reset\ne = 0\nf = #000000\n");
    let colors: Vec<ThemeColor> = parsed.iter().map(|p| p.1).collect();
    assert_eq!(
        colors,
        vec![
            ThemeColor::LightBlue,
            ThemeColor::LightRed,
            ThemeColor::Gray,
            ThemeColor::Reset,
            ThemeColor::Indexed(0),
            ThemeColor::Rgb(0, 0, 0),
        ]
    );
}
