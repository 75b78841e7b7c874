//! Properties of the state machine that span actions: what every action
//! keeps, and what `u` gives back of the action before it.

use vstd::prelude::*;

use crate::actions::{Action, Command, Direction};
use crate::board::{
    auto_focused, column_len, column_seq, focus_column, focused_index, moved_focus, unseen_pred,
};
use crate::order::filter_upto;
use crate::overlays::{fuzzy_rel, overlay_rel};
use crate::pages::{act_page_rel, ms_page_rel, proj_page_rel};
use crate::model::{
    ActFilter, App, ColumnId, MilestoneRef, Mode, PageSort, ProjFilter, ProjSort, StatusFilter, UndoOp,
    UNDO_DEPTH, act_filter_next, act_filter_prev, column_at, column_of, column_pos,
    page_sort_next, proj_filter_next, proj_filter_prev, proj_sort_next, status_filter_next,
    status_filter_prev, status_text, NUM_COLUMNS,
};
use crate::steps::{
    cleared, cmd_archive, cmd_move, cmd_reorder, cmd_tag, cmd_unarchive, pushed_undo, sat_last,
};
use crate::keybinds::key_rel;
use crate::keys::{KeyCode, KeyEvent, KeyModifiers, no_mods};
use crate::update::{of_project, undo_msg, update_rel};

verus! {


proof fn lemma_auto_focused_frame(x: App)
    ensures
        auto_focused(x) == (App { focus: auto_focused(x).focus, ..x }),
{
}

proof fn lemma_moved_focus_frame(x: App, d: Direction)
    ensures
        moved_focus(x, d) == (App {
            focus: moved_focus(x, d).focus,
            last_card_idx_per_column: moved_focus(x, d).last_card_idx_per_column,
            ..x
        }),
{
}

proof fn lemma_focus_column_frame(x: App, t: int)
    ensures
        focus_column(x, t) == (App {
            focus: focus_column(x, t).focus,
            last_card_idx_per_column: focus_column(x, t).last_card_idx_per_column,
            ..x
        }),
{
}

/// The activity page changes neither the scope nor the undo stack, and
/// speaks only when a selected issue is not on the board.
proof fn lemma_act_page_frame(a: App, b: App, act: Action, r: Option<Command>)
    requires
        act_page_rel(a, b, act, r),
    ensures
        b.scope == a.scope,
        b.undo_stack == a.undo_stack,
        b.status_msg == a.status_msg || act is ActPageSelect,
{
}

proof fn lemma_proj_page_frame(a: App, b: App, act: Action, r: Option<Command>)
    requires
        proj_page_rel(a, b, act, r),
    ensures
        b.undo_stack == a.undo_stack,
        a.scope.well_formed() ==> b.scope.well_formed(),
        b.status_msg == a.status_msg || act is ProjPageSelect || act is ActPageSelect,
{
    match act {
        Action::ProjPageArchive => {},
        _ => match a.mode {
            Mode::ProjectPage(s) => match act {
                Action::ProjPageSelect => {
                    lemma_auto_focused_frame(
                        App {
                            scope: crate::model::Scope {
                                project: b.scope.project,
                                milestone: a.scope.milestone,
                            },
                            mode: Mode::Normal,
                            ..a
                        },
                    );
                },
                Action::ProjPageInput(_) | Action::ProjPageBackspace | Action::PageCursor(_)
                | Action::ProjPageUp | Action::ProjPageDown | Action::ProjPagePage(_)
                | Action::ProjPageTop | Action::ProjPageBottom | Action::ProjPageCycleFilter
                | Action::ProjPageCycleFilterBack | Action::ProjPageCycleSort
                | Action::ProjPageEdit | Action::ProjPageNew | Action::ProjPageArchiveRequest => {},
                _ => lemma_act_page_frame(a, b, act, r),
            },
            _ => lemma_act_page_frame(a, b, act, r),
        },
    }
}

proof fn lemma_ms_page_frame(a: App, b: App, act: Action, r: Option<Command>)
    requires
        ms_page_rel(a, b, act, r),
    ensures
        b.undo_stack == a.undo_stack,
        a.scope.well_formed() ==> b.scope.well_formed(),
        b.status_msg == a.status_msg || act is ProjPageSelect || act is ActPageSelect,
{
    match a.mode {
        Mode::MilestonePage(s) => match act {
            Action::MsPageSelect => {
                let rows = crate::rows::page_rows_spec(a, s);
                if s.cursor < rows.len() {
                    let m = a.milestones@[rows[s.cursor as int] as int];
                    lemma_auto_focused_frame(
                        App {
                            scope: crate::model::Scope {
                                project: Some(m.project),
                                milestone: Some(m.name),
                            },
                            mode: Mode::Normal,
                            ..a
                        },
                    );
                }
            },
            Action::MsPageInput(_) | Action::MsPageBackspace | Action::PageCursor(_)
            | Action::MsPageUp | Action::MsPageDown | Action::MsPagePage(_) | Action::MsPageTop
            | Action::MsPageBottom | Action::MsPageCycleFilter | Action::MsPageCycleFilterBack
            | Action::MsPageCycleSort | Action::MsPageEdit | Action::MsPageNew
            | Action::MsPageCycleStatus => {},
            _ => lemma_proj_page_frame(a, b, act, r),
        },
        _ => lemma_proj_page_frame(a, b, act, r),
    }
}

proof fn lemma_fuzzy_frame(a: App, b: App, act: Action, r: Option<Command>)
    requires
        fuzzy_rel(a, b, act, r),
    ensures
        b.undo_stack == a.undo_stack,
        a.scope.well_formed() ==> b.scope.well_formed(),
        b.status_msg == a.status_msg || act is ProjPageSelect || act is ActPageSelect,
{
    match act {
        Action::OpenFuzzyFind | Action::FuzzyInput(_) | Action::FuzzyBackspace | Action::FuzzyUp
        | Action::FuzzyDown | Action::FuzzyConfirm => {},
        _ => lemma_ms_page_frame(a, b, act, r),
    }
}

proof fn lemma_overlay_frame(a: App, b: App, act: Action, r: Option<Command>)
    requires
        overlay_rel(a, b, act, r),
    ensures
        b.undo_stack == a.undo_stack,
        a.scope.well_formed() && (act matches Action::SetScope(s) ==> s.well_formed()) && (
        act is PickerConfirm ==> a.scope.project is Some) ==> b.scope.well_formed(),
        b.status_msg == a.status_msg || act is OpenMilestonePicker || act is CycleMilestoneFilter
            || act is ProjPageSelect || act is ActPageSelect,
{
    match act {
        Action::CycleMilestoneFilter => {
            if a.scope.project is Some && b.scope != a.scope {
                lemma_auto_focused_frame(
                    App {
                        scope: crate::model::Scope {
                            project: a.scope.project,
                            milestone: b.scope.milestone,
                        },
                        ..a
                    },
                );
            }
        },
        Action::SetScope(s) => {
            lemma_auto_focused_frame(App { scope: s, ..a });
        },
        Action::PickerConfirm => {
            match a.mode {
                Mode::MilestonePicker(p) => {
                    let rows = crate::order::filter_upto(
                        p.items@.len(),
                        crate::rows::picker_pred(p),
                    );
                    if p.cursor < rows.len() {
                        let chip = p.items@[rows[p.cursor as int] as int];
                        lemma_auto_focused_frame(
                            App {
                                mode: Mode::Normal,
                                scope: crate::model::Scope {
                                    milestone: Some(chip.value),
                                    ..a.scope
                                },
                                ..a
                            },
                        );
                    }
                },
                _ => {},
            }
        },
        Action::OpenProjectPage | Action::OpenActivityPage | Action::OpenMilestonePicker
        | Action::OpenMilestonePage | Action::PickerInput(_) | Action::PickerBackspace
        | Action::PickerUp | Action::PickerDown => {},
        _ => lemma_fuzzy_frame(a, b, act, r),
    }
}

/// What every action leaves alone or bounds: the scope invariant (given a
/// well-formed scope to set and a project under the picker), the undo
/// stack's depth, and who may speak on the status line.
proof fn lemma_update_frame(a0: App, b: App, act: Action, r: Option<Command>)
    requires
        update_rel(a0, b, act, r),
    ensures
        a0.scope.well_formed() && (act matches Action::SetScope(s) ==> s.well_formed()) && (
        act is PickerConfirm ==> a0.scope.project is Some) ==> b.scope.well_formed(),
        a0.undo_stack@.len() <= UNDO_DEPTH ==> b.undo_stack@.len() <= UNDO_DEPTH,
        b.status_msg is Some ==> act is JumpToBlocker || act is Undo || act is EditScope
            || act is TagMilestone || act is OpenMilestonePicker || act is CycleMilestoneFilter
            || act is ProjPageSelect || act is ActPageSelect,
{
    let a = cleared(a0);
    match act {
        Action::FocusMove(d) => lemma_moved_focus_frame(a, d),
        Action::FocusColumn(i) => {
            if i < crate::model::NUM_COLUMNS {
                lemma_focus_column_frame(a, i as int);
            }
        },
        Action::FocusCard(_, _) | Action::PageMove(_) | Action::JumpToTop
        | Action::JumpToBottom | Action::ToggleHelp | Action::QuitRequest | Action::Quit
        | Action::Cancel | Action::Refresh | Action::OpenDetail | Action::JumpToBlocker
        | Action::BeginMove | Action::ArchiveRequest | Action::EditCard | Action::EditScope
        | Action::NewIssue | Action::NewMilestone | Action::TagMilestone => {},
        Action::MoveTo(_) | Action::MoveIssueDir(_) | Action::Archive | Action::Undo => {},
        _ => lemma_overlay_frame(a, b, act, r),
    }
}

/// Every action keeps the scope invariant (no milestone without a
/// project), except setting an ill-formed scope outright, or confirming
/// the milestone picker after the project was unscoped underneath it.
pub proof fn law_scope_stays_well_formed(a: App, b: App, act: Action, r: Option<Command>)
    requires
        update_rel(a, b, act, r),
        a.scope.well_formed(),
        act matches Action::SetScope(s) ==> s.well_formed(),
        act is PickerConfirm ==> a.scope.project is Some,
    ensures
        b.scope.well_formed(),
{
    lemma_update_frame(a, b, act, r);
}

/// The undo stack never holds more than [`UNDO_DEPTH`] mutations.
pub proof fn law_undo_depth_bounded(a: App, b: App, act: Action, r: Option<Command>)
    requires
        update_rel(a, b, act, r),
        a.undo_stack@.len() <= UNDO_DEPTH,
    ensures
        b.undo_stack@.len() <= UNDO_DEPTH,
{
    lemma_update_frame(a, b, act, r);
}

/// Moving the focused card with Space + letter and then pressing `u` asks
/// to move it back to the status it had; the undo stack is as it was (when
/// it was not full), and the status line says so.
pub proof fn law_undo_reverses_move_to(
    a: App,
    status: String,
    b: App,
    r: Option<Command>,
    c: App,
    r2: Option<Command>,
)
    requires
        update_rel(a, b, Action::MoveTo(status), r),
        focused_index(cleared(a)) is Some,
        update_rel(b, c, Action::Undo, r2),
    ensures
        ({
            let card = a.cards@[focused_index(cleared(a))->0];
            &&& cmd_move(r, card.key@, status@)
            &&& cmd_move(r2, card.key@, card.status@)
            &&& c.status_msg matches Some(m) && m@ == undo_msg(UndoOp::Move { key: card.key, from: card.status })
            &&& a.undo_stack@.len() < UNDO_DEPTH ==> c.undo_stack@ == a.undo_stack@
        }),
{
    let card = a.cards@[focused_index(cleared(a))->0];
    let op = UndoOp::Move { key: card.key, from: card.status };
    assert(b.undo_stack@ == pushed_undo(a.undo_stack@, op));
    if a.undo_stack@.len() < UNDO_DEPTH {
        assert(b.undo_stack@.drop_last() =~= a.undo_stack@);
    }
}

/// Shift-h/l then `u` asks to move the card back to its column's status;
/// Shift-j/k then `u` asks for the same swap again (a swap is its own
/// inverse). Either way the undo stack is as it was (when it was not full).
pub proof fn law_undo_reverses_move_dir(
    a: App,
    d: Direction,
    b: App,
    r: Option<Command>,
    c: App,
    r2: Option<Command>,
)
    requires
        update_rel(a, b, Action::MoveIssueDir(d), r),
        r is Some,
        update_rel(b, c, Action::Undo, r2),
    ensures
        ({
            let card = a.cards@[focused_index(cleared(a))->0];
            &&& focused_index(cleared(a)) is Some
            &&& (d == Direction::Left || d == Direction::Right) ==> cmd_move(
                r2,
                card.key@,
                card.status@,
            ) && cmd_move(
                r,
                card.key@,
                status_text(
                    column_at(
                        column_pos(a.focus.column) + if d == Direction::Left {
                            -1int
                        } else {
                            1int
                        },
                    ),
                ),
            )
            &&& (d == Direction::Up || d == Direction::Down) ==> (r matches Some(
                Command::Reorder { key, other },
            ) && cmd_reorder(r2, key@, other@))
            &&& a.undo_stack@.len() < UNDO_DEPTH ==> c.undo_stack@ == a.undo_stack@
        }),
{
    let a0 = cleared(a);
    let i = focused_index(a0)->0;
    let card = a0.cards@[i];
    match d {
        Direction::Left | Direction::Right => {
            let op = UndoOp::Move { key: card.key, from: card.status };
            assert(b.undo_stack@ == pushed_undo(a.undo_stack@, op));
            if a.undo_stack@.len() < UNDO_DEPTH {
                assert(b.undo_stack@.drop_last() =~= a.undo_stack@);
            }
        },
        Direction::Up | Direction::Down => {
            let s = column_seq(a0, a0.focus.column);
            let idx = a0.focus.card_idx as int;
            let o = if d == Direction::Down {
                idx + 1
            } else {
                idx - 1
            };
            let op = UndoOp::Reorder { key: card.key, other: a0.cards@[s[o] as int].key };
            assert(b.undo_stack@ == pushed_undo(a.undo_stack@, op));
            if a.undo_stack@.len() < UNDO_DEPTH {
                assert(b.undo_stack@.drop_last() =~= a.undo_stack@);
            }
        },
    }
}

/// Archiving and then pressing `u` asks to unarchive the same issue; the
/// undo stack is as it was (when it was not full).
pub proof fn law_undo_reverses_archive(
    a: App,
    b: App,
    r: Option<Command>,
    c: App,
    r2: Option<Command>,
)
    requires
        update_rel(a, b, Action::Archive, r),
        r is Some,
        update_rel(b, c, Action::Undo, r2),
    ensures
        r matches Some(Command::Archive { key }) && cmd_unarchive(r2, key@),
        a.undo_stack@.len() < UNDO_DEPTH ==> c.undo_stack@ == a.undo_stack@,
{
    let a0 = cleared(a);
    let key = match a0.mode {
        Mode::ConfirmArchive(k) => k,
        _ => a0.cards@[focused_index(a0)->0].key,
    };
    let op = UndoOp::Archive { key };
    assert(b.undo_stack@ == pushed_undo(a.undo_stack@, op));
    if a.undo_stack@.len() < UNDO_DEPTH {
        assert(b.undo_stack@.drop_last() =~= a.undo_stack@);
    }
}

/// A status message answers the action just taken: every action clears the
/// previous one, and only these set a new one — `u`, and the refusals of
/// the blocker jump, scope editing, tagging, the milestone picker and
/// filter, and selecting on the project and activity pages.
pub proof fn law_status_message_sources(a: App, b: App, act: Action, r: Option<Command>)
    requires
        update_rel(a, b, act, r),
        b.status_msg is Some,
    ensures
        act is JumpToBlocker || act is Undo || act is EditScope || act is TagMilestone
            || act is OpenMilestonePicker || act is CycleMilestoneFilter || act is ProjPageSelect
            || act is ActPageSelect,
{
    lemma_update_frame(a, b, act, r);
}

/// Board navigation keeps the cursor on the column: if it was on a card (or
/// at 0 on an empty column), it still is.
pub proof fn law_board_cursor_in_column(a: App, b: App, act: Action, r: Option<Command>)
    requires
        update_rel(a, b, act, r),
        act is FocusMove || act is FocusColumn || act is FocusCard || act is PageMove
            || act is JumpToTop || act is JumpToBottom,
        a.focus.card_idx <= sat_last(column_len(a, a.focus.column)),
    ensures
        b.focus.card_idx <= sat_last(column_len(b, b.focus.column)),
{
}

/// Every column's status reads back as that column, and board positions
/// and columns correspond one to one.
pub proof fn law_column_status_round_trip(c: ColumnId)
    ensures
        column_of(status_text(c)) == Some(c),
        0 <= column_pos(c) < NUM_COLUMNS,
        column_at(column_pos(c)) == c,
{
    reveal_strlit("backlog");
    reveal_strlit("in-progress");
    reveal_strlit("blocked");
    reveal_strlit("in-review");
    reveal_strlit("done");
    assert("backlog"@.len() == 7 && "blocked"@.len() == 7);
    assert("backlog"@[1] != "blocked"@[1]);
    assert("in-progress"@.len() == 11 && "in-review"@.len() == 9 && "done"@.len() == 4);
}

/// Tab and Shift-Tab undo each other on the milestone page's buckets, and
/// four Tabs come back around.
pub proof fn law_status_filter_cycle(f: StatusFilter)
    ensures
        status_filter_prev(status_filter_next(f)) == f,
        status_filter_next(status_filter_prev(f)) == f,
        status_filter_next(status_filter_next(status_filter_next(status_filter_next(f)))) == f,
{
}

/// Tab and Shift-Tab undo each other on the mailbox's kinds, and seven Tabs
/// come back around.
pub proof fn law_act_filter_cycle(f: ActFilter)
    ensures
        act_filter_prev(act_filter_next(f)) == f,
        act_filter_next(act_filter_prev(f)) == f,
        act_filter_next(
            act_filter_next(
                act_filter_next(act_filter_next(act_filter_next(act_filter_next(act_filter_next(f))))),
            ),
        ) == f,
{
}

/// Tab and Shift-Tab undo each other on the project page's buckets, and
/// three Tabs come back around.
pub proof fn law_proj_filter_cycle(f: ProjFilter)
    ensures
        proj_filter_prev(proj_filter_next(f)) == f,
        proj_filter_next(proj_filter_prev(f)) == f,
        proj_filter_next(proj_filter_next(proj_filter_next(f))) == f,
{
}

/// The sort orders cycle: three `S` on the milestone page, two on the
/// project page, come back around.
pub proof fn law_sort_cycles(s: PageSort, t: ProjSort)
    ensures
        page_sort_next(page_sort_next(page_sort_next(s))) == s,
        proj_sort_next(proj_sort_next(t)) == t,
{
}

/// No entry among the first `n` of the mailbox is unread.
proof fn lemma_nothing_unread(a: App, n: nat)
    requires
        n <= a.activity@.len(),
        forall|i: int| 0 <= i < n ==> !(#[trigger] unseen_pred(a)(i)),
    ensures
        filter_upto(n, unseen_pred(a)).len() == 0,
    decreases n,
{
    if n > 0 {
        lemma_nothing_unread(a, (n - 1) as nat);
        assert(!unseen_pred(a)(n - 1));
    }
}

/// Reading the mailbox clears it: once it is marked read at `seen`, and
/// no entry is newer than that, nothing in it is unread.
pub proof fn law_reading_clears_the_mailbox(a: App, seen: i64)
    requires
        a.last_seen == Some(seen),
        forall|i: int| 0 <= i < a.activity@.len() ==> (#[trigger] a.activity@[i]).ts <= seen,
    ensures
        filter_upto(a.activity@.len(), unseen_pred(a)).len() == 0,
{
    assert forall|i: int| 0 <= i < a.activity@.len() implies !(#[trigger] unseen_pred(a)(i)) by {
        assert(a.activity@[i].ts <= seen);
    }
    lemma_nothing_unread(a, a.activity@.len());
}

/// The vim letter that moves the board's focus one step in `d`.
pub open spec fn focus_letter(d: Direction) -> char {
    match d {
        Direction::Left => 'h',
        Direction::Down => 'j',
        Direction::Up => 'k',
        Direction::Right => 'l',
    }
}

/// Its capital, which moves the focused card instead.
pub open spec fn card_letter(d: Direction) -> char {
    match d {
        Direction::Left => 'H',
        Direction::Down => 'J',
        Direction::Up => 'K',
        Direction::Right => 'L',
    }
}

/// The arrow key pointing in `d`.
pub open spec fn arrow_key(d: Direction) -> KeyCode {
    match d {
        Direction::Left => KeyCode::Left,
        Direction::Down => KeyCode::Down,
        Direction::Up => KeyCode::Up,
        Direction::Right => KeyCode::Right,
    }
}

/// On the board, `h`/`j`/`k`/`l` and the arrow keys move the focus, and
/// the capital letter moves the focused card the same way: `H` one column
/// left, `L` one column right, `J` down and `K` up within the column. The
/// capitals do so whatever modifiers come with them (the shift that types
/// them included).
pub proof fn law_capitals_move_the_card_where_the_letter_moves_focus(
    a: App,
    b: App,
    r: Option<Action>,
    d: Direction,
    m: KeyModifiers,
)
    requires
        a.mode is Normal,
    ensures
        key_rel(a, b, KeyEvent { code: KeyCode::Char(card_letter(d)), modifiers: m }, r) ==> r == Some(
            Action::MoveIssueDir(d),
        ),
        key_rel(a, b, KeyEvent { code: KeyCode::Char(focus_letter(d)), modifiers: no_mods() }, r)
            ==> r == Some(Action::FocusMove(d)),
        key_rel(a, b, KeyEvent { code: arrow_key(d), modifiers: m }, r) ==> r == Some(
            Action::FocusMove(d),
        ),
{
}

/// The milestones of project `p`, as indices into `ms` in load order.
pub open spec fn project_milestones(ms: Seq<MilestoneRef>, p: Seq<char>) -> Seq<usize> {
    filter_upto(ms.len(), of_project(ms, p))
}

/// `t` cycles the focused card through its own project's milestones in
/// load order and back to none: an untagged card (or one tagged with a
/// milestone of no listed project milestone) asks for the first, a card
/// tagged with the `k`-th asks for the next, and a card tagged with the
/// last asks to be untagged; so the cycle none, first, ..., last, none has
/// one step more than the project has milestones. With none, nothing is
/// asked.
pub proof fn law_tag_cycles_through_the_project(a: App, b: App, r: Option<Command>, k: int)
    requires
        update_rel(a, b, Action::TagMilestone, r),
        focused_index(a) is Some,
    ensures
        ({
            let c = a.cards@[focused_index(a)->0];
            let ms = a.milestones@;
            let idx = project_milestones(ms, c.project@);
            let tagged_k = 0 <= k < idx.len() && c.milestone_id == Some(ms[idx[k] as int].id) && (
            forall|j: int| 0 <= j < k ==> ms[#[trigger] idx[j] as int].id != ms[idx[k] as int].id);
            &&& idx.len() == 0 ==> r is None
            &&& idx.len() > 0 && (c.milestone_id is None || forall|j: int|
                0 <= j < idx.len() ==> Some(ms[#[trigger] idx[j] as int].id) != c.milestone_id)
                ==> cmd_tag(r, c.key@, Some(ms[idx[0] as int].name@))
            &&& tagged_k && k + 1 < idx.len() ==> cmd_tag(r, c.key@, Some(ms[idx[k + 1] as int].name@))
            &&& tagged_k && k + 1 == idx.len() ==> cmd_tag(r, c.key@, None)
        }),
{
    let a0 = cleared(a);
    assert(focused_index(a0) == focused_index(a));
    let c = a.cards@[focused_index(a)->0];
    let ms = a.milestones@;
    let idx = project_milestones(ms, c.project@);
    let n = idx.len() as int;
    let p = crate::update::has_id(ms, idx, c.milestone_id->0);
    crate::order::lemma_first_from_props(0, n, p);
    if 0 <= k < n && c.milestone_id == Some(ms[idx[k] as int].id) && (forall|j: int|
        0 <= j < k ==> ms[#[trigger] idx[j] as int].id != ms[idx[k] as int].id) {
        assert(p(k));
        assert forall|j: int| 0 <= j < k implies !#[trigger] p(j) by {
            assert(ms[idx[j] as int].id != ms[idx[k] as int].id);
        }
        crate::order::lemma_first_from_found(0, k, n, p);
        if k + 1 < n {
            vstd::arithmetic::div_mod::lemma_small_mod((k + 2) as nat, (n + 1) as nat);
        } else {
            vstd::arithmetic::div_mod::lemma_mod_self_0(n + 1);
        }
    }
    if n > 0 {
        if c.milestone_id is Some && forall|j: int|
            0 <= j < n ==> Some(ms[#[trigger] idx[j] as int].id) != c.milestone_id {
            assert forall|j: int| 0 <= j < n implies !#[trigger] p(j) by {
                assert(Some(ms[idx[j] as int].id) != c.milestone_id);
            }
            crate::order::lemma_first_from_none(0, n, p);
        }
        vstd::arithmetic::div_mod::lemma_small_mod(1, (n + 1) as nat);
    }
}

} // verus!
