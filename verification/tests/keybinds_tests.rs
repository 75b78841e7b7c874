use cliban_tui::actions::{Action, Direction};
use cliban_tui::keybinds::map_key;
use cliban_tui::keys::{KeyCode, KeyEvent, KeyModifiers};
use cliban_tui::model::{ProjectPageState, ActivityPageState, App, FuzzyState, MilestonePageState, Mode, PickerState};

fn ke(c: KeyCode) -> KeyEvent {
    KeyEvent::new(c, KeyModifiers::none())
}

fn ctrl(c: char) -> KeyEvent {
    KeyEvent::new(KeyCode::Char(c), KeyModifiers::control())
}

fn cap(c: char) -> KeyEvent {
    KeyEvent::new(KeyCode::Char(c), KeyModifiers::shift())
}

#[test]
fn a_opens_the_activity_page_where_typing_filters_and_tab_cycles() {
    let mut app = App::new();
    assert!(matches!(map_key(ke(KeyCode::Char('a')), &mut app), Some(Action::OpenActivityPage)));
    app.mode = Mode::ActivityPage(ActivityPageState::new());
    assert!(matches!(map_key(ke(KeyCode::Char('j')), &mut app), Some(Action::ActPageInput('j'))));
    assert!(matches!(map_key(ke(KeyCode::Tab), &mut app), Some(Action::ActPageCycleFilter)));
    assert!(matches!(map_key(ke(KeyCode::BackTab), &mut app), Some(Action::ActPageCycleFilterBack)));
    assert!(matches!(map_key(ke(KeyCode::Enter), &mut app), Some(Action::ActPageSelect)));
    assert!(matches!(map_key(ke(KeyCode::Esc), &mut app), Some(Action::Cancel)));
}

#[test]
fn esc_is_not_a_quit_key_on_the_board() {
    let mut app = App::new();
    assert!(map_key(ke(KeyCode::Esc), &mut app).is_none(), "Esc means back, and the board is already the top level");
}

#[test]
fn filter_boxes_accept_j_and_k_as_text_and_navigate_with_ctrl_n_p() {
    let mut app = App::new();
    app.mode = Mode::MilestonePicker(PickerState { query: String::new(), items: vec![], cursor: 0 });
    assert!(matches!(map_key(ke(KeyCode::Char('j')), &mut app), Some(Action::PickerInput('j'))));
    assert!(matches!(map_key(ctrl('n'), &mut app), Some(Action::PickerDown)));
    assert!(matches!(map_key(ctrl('p'), &mut app), Some(Action::PickerUp)));

    app.mode = Mode::FuzzyFind(FuzzyState { query: String::new(), results: vec![], cursor: 0 });
    assert!(matches!(map_key(ke(KeyCode::Char('k')), &mut app), Some(Action::FuzzyInput('k'))));
    assert!(matches!(map_key(ctrl('n'), &mut app), Some(Action::FuzzyDown)));
}

#[test]
fn number_keys_and_half_pages_navigate_the_board() {
    let mut app = App::new();
    assert!(matches!(map_key(ke(KeyCode::Char('3')), &mut app), Some(Action::FocusColumn(2))));
    assert!(matches!(map_key(ctrl('d'), &mut app), Some(Action::PageMove(Direction::Down))));
    assert!(matches!(map_key(ke(KeyCode::PageUp), &mut app), Some(Action::PageMove(Direction::Up))));
}

#[test]
fn archive_asks_first_and_the_dialog_answers_like_quit() {
    let mut app = App::new();
    app.mode = Mode::ConfirmArchive("PULSE-9".into());
    for code in [KeyCode::Char('y'), KeyCode::Enter] {
        assert!(matches!(map_key(ke(code), &mut app), Some(Action::Archive)), "{code:?} should confirm the archive");
    }
    for code in [KeyCode::Char('n'), KeyCode::Esc] {
        assert!(matches!(map_key(ke(code), &mut app), Some(Action::Cancel)), "{code:?} should decline the archive");
    }
}

#[test]
fn ctrl_c_quits_immediately_from_any_mode() {
    let ctrl_c = ctrl('c');
    let mut app = App::new();
    assert!(matches!(map_key(ctrl_c, &mut app), Some(Action::Quit)));
    app.mode = Mode::MilestonePicker(PickerState { query: String::new(), items: vec![], cursor: 0 });
    assert!(matches!(map_key(ctrl_c, &mut app), Some(Action::Quit)));
    app.mode = Mode::MilestonePage(MilestonePageState::new());
    assert!(matches!(map_key(ctrl_c, &mut app), Some(Action::Quit)));
    assert!(matches!(map_key(ke(KeyCode::Char('c')), &mut app), Some(Action::MsPageInput('c'))));
}

#[test]
fn confirm_quit_accepts_enter_and_a_second_q() {
    let mut app = App::new();
    app.mode = Mode::ConfirmQuit;
    for code in [KeyCode::Enter, KeyCode::Char('q'), KeyCode::Char('y')] {
        assert!(matches!(map_key(ke(code), &mut app), Some(Action::Quit)), "{code:?} should confirm");
    }
    assert!(matches!(map_key(ke(KeyCode::Char('n')), &mut app), Some(Action::Cancel)));
}

#[test]
fn detail_view_edits_in_place_and_closes_on_the_usual_keys() {
    let mut app = App::new();
    app.mode = Mode::Detail("PULSE-1".into());
    assert!(matches!(map_key(ke(KeyCode::Char('e')), &mut app), Some(Action::EditCard)));
    for code in [KeyCode::Esc, KeyCode::Char('q'), KeyCode::Enter] {
        assert!(matches!(map_key(ke(code), &mut app), Some(Action::Cancel)), "{code:?} should close the detail view");
    }
}

#[test]
fn space_begins_move_then_letter_resolves_status() {
    let mut app = App::new();
    assert!(matches!(map_key(ke(KeyCode::Char(' ')), &mut app), Some(Action::BeginMove)));
    app.mode = Mode::AwaitingMove;
    match map_key(ke(KeyCode::Char('d')), &mut app) {
        Some(Action::MoveTo(s)) => assert_eq!(s, "done"),
        o => panic!("{o:?}"),
    }
}

#[test]
fn milestone_page_types_into_the_filter_but_reserves_capitals() {
    let mut app = App::new();
    app.mode = Mode::MilestonePage(MilestonePageState::new());
    assert!(matches!(map_key(ke(KeyCode::Char('a')), &mut app), Some(Action::MsPageInput('a'))));
    assert!(matches!(map_key(ke(KeyCode::Char('s')), &mut app), Some(Action::MsPageInput('s'))));
    assert!(matches!(map_key(ke(KeyCode::Char('j')), &mut app), Some(Action::MsPageInput('j'))));
    assert!(matches!(map_key(ke(KeyCode::Char('k')), &mut app), Some(Action::MsPageInput('k'))));
    assert!(matches!(map_key(ctrl('n'), &mut app), Some(Action::MsPageDown)));
    assert!(matches!(map_key(ctrl('p'), &mut app), Some(Action::MsPageUp)));
    assert!(matches!(map_key(cap('G'), &mut app), Some(Action::MsPageBottom)));
    assert!(matches!(map_key(ke(KeyCode::BackTab), &mut app), Some(Action::MsPageCycleFilterBack)));
    assert!(matches!(map_key(ke(KeyCode::PageDown), &mut app), Some(Action::MsPagePage(Direction::Down))));
    assert!(matches!(map_key(cap('E'), &mut app), Some(Action::MsPageEdit)));
    assert!(matches!(map_key(cap('N'), &mut app), Some(Action::MsPageNew)));
    assert!(matches!(map_key(cap('S'), &mut app), Some(Action::MsPageCycleSort)));
    assert!(matches!(map_key(cap('C'), &mut app), Some(Action::MsPageCycleStatus)));
    assert!(matches!(map_key(ke(KeyCode::Tab), &mut app), Some(Action::MsPageCycleFilter)));
    assert!(matches!(map_key(cap('A'), &mut app), Some(Action::MsPageInput('A'))));
    assert!(matches!(map_key(ke(KeyCode::Backspace), &mut app), Some(Action::MsPageBackspace)));
    assert!(matches!(map_key(ke(KeyCode::Enter), &mut app), Some(Action::MsPageSelect)));
    assert!(matches!(map_key(ke(KeyCode::Esc), &mut app), Some(Action::Cancel)));
}

#[test]
fn normal_keys_dispatch_to_cliban_actions() {
    let mut app = App::new();
    assert!(matches!(map_key(ke(KeyCode::Char('n')), &mut app), Some(Action::NewIssue)));
    assert!(matches!(map_key(ke(KeyCode::Char('N')), &mut app), Some(Action::NewMilestone)));
    assert!(matches!(map_key(ke(KeyCode::Char('t')), &mut app), Some(Action::TagMilestone)));
    assert!(matches!(map_key(ke(KeyCode::Char('a')), &mut app), Some(Action::OpenActivityPage)));
    assert!(matches!(map_key(cap('A'), &mut app), Some(Action::ArchiveRequest)));
    assert!(matches!(map_key(ke(KeyCode::Char('m')), &mut app), Some(Action::OpenMilestonePage)));
    assert!(matches!(map_key(ke(KeyCode::Char('M')), &mut app), Some(Action::CycleMilestoneFilter)));
    assert!(matches!(map_key(ke(KeyCode::Char('e')), &mut app), Some(Action::EditCard)));
    assert!(matches!(map_key(ke(KeyCode::Char('E')), &mut app), Some(Action::EditScope)));
    assert!(matches!(map_key(ke(KeyCode::Char('p')), &mut app), Some(Action::OpenProjectPage)));
    assert!(matches!(map_key(ke(KeyCode::Char('/')), &mut app), Some(Action::OpenFuzzyFind)));
    assert!(matches!(map_key(ke(KeyCode::Char('r')), &mut app), Some(Action::Refresh)));
    assert!(matches!(map_key(ke(KeyCode::Char('q')), &mut app), Some(Action::QuitRequest)));
    assert!(matches!(map_key(ke(KeyCode::Enter), &mut app), Some(Action::OpenDetail)));
}

#[test]
fn double_g_jumps_to_top_and_anything_between_disarms_it() {
    let mut app = App::new();
    assert!(map_key(ke(KeyCode::Char('g')), &mut app).is_none());
    assert!(app.pending_g);
    assert!(matches!(map_key(ke(KeyCode::Char('g')), &mut app), Some(Action::JumpToTop)));
    assert!(!app.pending_g);
    map_key(ke(KeyCode::Char('g')), &mut app);
    map_key(ke(KeyCode::Char('j')), &mut app);
    assert!(!app.pending_g);
    assert!(map_key(ke(KeyCode::Char('g')), &mut app).is_none());
}

#[test]
fn project_archive_dialog_and_project_page_keys() {
    let mut app = App::new();
    app.mode = Mode::ProjectPage(ProjectPageState::new());
    assert!(matches!(map_key(cap('A'), &mut app), Some(Action::ProjPageArchiveRequest)));
    assert!(matches!(map_key(ke(KeyCode::Char('a')), &mut app), Some(Action::ProjPageInput('a'))));
    app.mode = Mode::ConfirmProjectArchive { key: "P".into(), archived: true, page: ProjectPageState::new() };
    assert!(matches!(map_key(ke(KeyCode::Char('Y')), &mut app), Some(Action::ProjPageArchive)));
    assert!(matches!(map_key(ke(KeyCode::Char('N')), &mut app), Some(Action::Cancel)));
    assert!(map_key(ke(KeyCode::Char('x')), &mut app).is_none());
}

#[test]
fn awaiting_move_cancels_on_anything_but_a_status_letter() {
    let mut app = App::new();
    app.mode = Mode::AwaitingMove;
    assert!(matches!(map_key(ke(KeyCode::Char('x')), &mut app), Some(Action::Cancel)));
    assert!(matches!(map_key(ke(KeyCode::Enter), &mut app), Some(Action::Cancel)));
    match map_key(ke(KeyCode::Char('k')), &mut app) {
        Some(Action::MoveTo(s)) => assert_eq!(s, "blocked"),
        o => panic!("{o:?}"),
    }
}
