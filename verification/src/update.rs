//! The state machine: `update` takes the app and one action, changes the
//! app, and names the side effect the host should perform. The board's own
//! actions are handled here; the rest pass down the chain of overlays and
//! pages.

use vstd::prelude::*;

use crate::actions::{Action, Command, Direction};
use crate::board::{
    column_len, column_seq, focus_column, focused_index, locate, locate_focus_for_key,
    moved_focus, move_focus, remembered, is_column_listing, card_in_col,
};
use crate::model::{
    App, ColumnId, Focus, MilestoneRef, Mode, RelationRef, UndoOp, column_at, column_pos,
    is_open_blocker, status_text, NUM_COLUMNS,
};
use crate::order::{filter_upto, first_from, lemma_filter_upto, lemma_first_from_found,
    lemma_first_from_none};
use crate::overlays::{overlay_rel, update_overlays};
use crate::pages::off_board_msg;
use crate::steps::{
    cleared, cmd_archive, cmd_edit_issue, cmd_edit_milestone, cmd_edit_project, cmd_move,
    cmd_new_issue, cmd_new_milestone, cmd_reorder, cmd_tag, cmd_unarchive, copy_opt,
    copy_proj_state, last_index, min_int, min_usize, opt_chars, push_undo, recorded, said,
    sat_last, sat_sub, with_mode,
};
use crate::text::{concat, str_eq};

verus! {

/// Half-page step on the board: cards are four rows tall, so this is about
/// one screenful of a column.
pub const PAGE_STEP: usize = 5;

/// The first relation of the detail popup that is a still-open blocker.
pub open spec fn first_open_blocker(a: App) -> Option<int> {
    first_from(0, a.detail_relations@.len() as int, open_blocker_at(a.detail_relations@))
}

pub open spec fn open_blocker_at(rels: Seq<RelationRef>) -> spec_fn(int) -> bool {
    |k: int| is_open_blocker(rels[k])
}

/// Milestone `j` belongs to project `p`.
pub open spec fn of_project(ms: Seq<MilestoneRef>, p: Seq<char>) -> spec_fn(int) -> bool {
    |j: int| ms[j].project@ == p
}

/// Entry `k` of the list `idx` names the milestone with this id.
pub open spec fn has_id(ms: Seq<MilestoneRef>, idx: Seq<usize>, id: i64) -> spec_fn(int) -> bool {
    |k: int| ms[idx[k] as int].id == id
}

/// The milestone `t` tags the card with next: the card's project's
/// milestones in load order, then back to none.
pub open spec fn next_tag(a: App, i: int) -> Option<Seq<char>> {
    let c = a.cards@[i];
    let idx = filter_upto(a.milestones@.len(), of_project(a.milestones@, c.project@));
    let cur = match c.milestone_id {
        Some(id) => match first_from(0, idx.len() as int, has_id(a.milestones@, idx, id)) {
            Some(k) => k + 1,
            None => 0,
        },
        None => 0,
    };
    let next = (cur + 1) % (idx.len() as int + 1);
    if next == 0 {
        None
    } else {
        Some(a.milestones@[idx[next - 1] as int].name@)
    }
}

/// `b` is `a` with the cursor at position `k` of its column.
pub open spec fn at_card(a: App, b: App, k: int) -> bool {
    b == App { focus: Focus { card_idx: k as usize, ..a.focus }, ..a }
}

/// Shift-h/j/k/l: move the focused card to the neighbouring column (the
/// cursor follows it to the end of that column), or swap it with its
/// neighbour in the column (the cursor follows it). Each records its undo.
pub open spec fn move_dir_rel(a: App, b: App, d: Direction, r: Option<Command>) -> bool {
    match focused_index(a) {
        None => b == a && r is None,
        Some(i) => {
            let c = a.cards@[i];
            let cur = column_pos(a.focus.column);
            let s = column_seq(a, a.focus.column);
            let idx = a.focus.card_idx as int;
            match d {
                Direction::Left | Direction::Right => {
                    let t = if d == Direction::Left {
                        cur - 1
                    } else {
                        cur + 1
                    };
                    if t < 0 || t >= NUM_COLUMNS {
                        b == a && r is None
                    } else {
                        &&& recorded(
                            App {
                                focus: Focus {
                                    column: column_at(t),
                                    card_idx: column_len(a, column_at(t)) as usize,
                                },
                                ..a
                            },
                            b,
                            UndoOp::Move { key: c.key, from: c.status },
                        )
                        &&& cmd_move(r, c.key@, status_text(column_at(t)))
                    }
                },
                Direction::Up | Direction::Down => {
                    let o = if d == Direction::Down {
                        idx + 1
                    } else {
                        idx - 1
                    };
                    if o < 0 || o >= s.len() {
                        b == a && r is None
                    } else {
                        let other = a.cards@[s[o] as int];
                        &&& recorded(
                            App { focus: Focus { card_idx: o as usize, ..a.focus }, ..a },
                            b,
                            UndoOp::Reorder { key: c.key, other: other.key },
                        )
                        &&& cmd_reorder(r, c.key@, other.key@)
                    }
                },
            }
        },
    }
}

/// The status line after undoing `op`.
pub open spec fn undo_msg(op: UndoOp) -> Seq<char> {
    match op {
        UndoOp::Move { key, from } => "undid: "@ + key@ + " back to "@ + from@,
        UndoOp::Reorder { key, other } => "undid: reorder of "@ + key@,
        UndoOp::Archive { key } => "undid: unarchived "@ + key@,
    }
}

/// The command that reverses `op`.
pub open spec fn undo_cmd(op: UndoOp, r: Option<Command>) -> bool {
    match op {
        UndoOp::Move { key, from } => cmd_move(r, key@, from@),
        UndoOp::Reorder { key, other } => cmd_reorder(r, key@, other@),
        UndoOp::Archive { key } => cmd_unarchive(r, key@),
    }
}

/// `u`: pop the newest recorded mutation and ask for its inverse.
pub open spec fn undo_rel(a: App, b: App, r: Option<Command>) -> bool {
    if a.undo_stack@.len() == 0 {
        said(a, b, "nothing to undo"@) && r is None
    } else {
        let op = a.undo_stack@.last();
        &&& b == App { undo_stack: b.undo_stack, status_msg: b.status_msg, ..a }
        &&& b.undo_stack@ == a.undo_stack@.drop_last()
        &&& b.status_msg matches Some(m) && m@ == undo_msg(op)
        &&& undo_cmd(op, r)
    }
}

/// What one action does to the app and which command it asks for.
pub open spec fn update_rel(a0: App, b: App, act: Action, r: Option<Command>) -> bool {
    let a = cleared(a0);
    let focused = focused_index(a);
    let fc = a.cards@[focused->0];
    match act {
        Action::FocusMove(d) => b == moved_focus(a, d) && r is None,
        Action::FocusColumn(i) => r is None && if i < NUM_COLUMNS {
            b == focus_column(a, i as int)
        } else {
            b == a
        },
        Action::FocusCard(col, k) => r is None && {
            let m = remembered(a);
            b == App {
                focus: Focus {
                    column: col,
                    card_idx: min_int(k as int, sat_last(column_len(m, col))) as usize,
                },
                ..m
            }
        },
        Action::PageMove(d) => r is None && at_card(
            a,
            b,
            match d {
                Direction::Down => min_int(
                    a.focus.card_idx + PAGE_STEP,
                    sat_last(column_len(a, a.focus.column)),
                ),
                _ => sat_sub(a.focus.card_idx as int, PAGE_STEP as int),
            },
        ),
        Action::JumpToTop => r is None && at_card(a, b, 0),
        Action::JumpToBottom => r is None && at_card(a, b, sat_last(column_len(a, a.focus.column))),
        Action::ToggleHelp => r is None && b == with_mode(
            a,
            if a.mode is Help {
                Mode::Normal
            } else {
                Mode::Help
            },
        ),
        Action::QuitRequest => r is None && b == with_mode(a, Mode::ConfirmQuit),
        Action::Quit => r is None && b == a,
        Action::Cancel => r is None && b == with_mode(
            a,
            match a.mode {
                Mode::ConfirmProjectArchive { page, .. } => Mode::ProjectPage(page),
                _ => Mode::Normal,
            },
        ),
        Action::Refresh => b == a && r matches Some(Command::Reload),
        Action::OpenDetail => r is None && if focused is Some {
            b == with_mode(a, Mode::Detail(fc.key))
        } else {
            b == a
        },
        Action::JumpToBlocker => r is None && match first_open_blocker(a) {
            None => b == a,
            Some(k) => {
                let key = a.detail_relations@[k].key@;
                match locate(a, key) {
                    Some(f) => b == App { focus: f, mode: Mode::Normal, ..a },
                    None => said(a, b, off_board_msg(key)),
                }
            },
        },
        Action::BeginMove => r is None && b == with_mode(a, Mode::AwaitingMove),
        Action::MoveTo(status) => if focused is Some {
            &&& recorded(
                with_mode(a, Mode::Normal),
                b,
                UndoOp::Move { key: fc.key, from: fc.status },
            )
            &&& cmd_move(r, fc.key@, status@)
        } else {
            b == with_mode(a, Mode::Normal) && r is None
        },
        Action::MoveIssueDir(d) => move_dir_rel(a, b, d, r),
        Action::ArchiveRequest => r is None && if focused is Some {
            b == with_mode(a, Mode::ConfirmArchive(fc.key))
        } else {
            b == a
        },
        Action::Archive => match a.mode {
            Mode::ConfirmArchive(k) => recorded(
                with_mode(a, Mode::Normal),
                b,
                UndoOp::Archive { key: k },
            ) && cmd_archive(r, k@),
            _ => if focused is Some {
                recorded(with_mode(a, Mode::Normal), b, UndoOp::Archive { key: fc.key })
                    && cmd_archive(r, fc.key@)
            } else {
                b == a && r is None
            },
        },
        Action::Undo => undo_rel(a, b, r),
        Action::EditCard => b == a && if focused is Some {
            cmd_edit_issue(r, fc.key@)
        } else {
            r is None
        },
        Action::EditScope => match a.scope.project {
            Some(p) => b == a && match a.scope.milestone {
                Some(m) => cmd_edit_milestone(r, p@, m@),
                None => cmd_edit_project(r, p@),
            },
            None => said(a, b, "scope a project first (p) to edit it"@) && r is None,
        },
        Action::NewIssue => b == a && cmd_new_issue(r, status_text(a.focus.column)),
        Action::NewMilestone => b == a && cmd_new_milestone(r, opt_chars(a.scope.project)),
        Action::TagMilestone => if focused is Some {
            if filter_upto(a.milestones@.len(), of_project(a.milestones@, fc.project@)).len() == 0 {
                said(a, b, "no milestones to tag (N to create one)"@) && r is None
            } else {
                b == a && cmd_tag(r, fc.key@, next_tag(a, focused->0))
            }
        } else {
            b == a && r is None
        },
        _ => overlay_rel(a, b, act, r),
    }
}

/// Shift-h/j/k/l on the board.
fn move_issue_dir(app: &mut App, d: Direction) -> (r: Option<Command>)
    ensures
        move_dir_rel(*old(app), *final(app), d, r),
{
    let i = match app.focused_index() {
        Some(i) => i,
        None => return None,
    };
    let key = app.cards[i].key.clone();
    let from = app.cards[i].status.clone();
    let cur = app.focus.column.index();
    match d {
        Direction::Left | Direction::Right => {
            let t = match d {
                Direction::Left => {
                    if cur == 0 {
                        return None;
                    }
                    cur - 1
                },
                _ => {
                    if cur + 1 >= NUM_COLUMNS {
                        return None;
                    }
                    cur + 1
                },
            };
            let target = ColumnId::at(t);
            let status = target.status().to_owned();
            let landing = app.column_count(target);
            app.focus = Focus { column: target, card_idx: landing };
            push_undo(app, UndoOp::Move { key: key.clone(), from });
            Some(Command::MoveIssue { key, status })
        },
        Direction::Up | Direction::Down => {
            let col = app.focus.column;
            let cards = app.column_indices(col);
            let idx = app.focus.card_idx;
            let o = match d {
                Direction::Down => {
                    if idx + 1 >= cards.len() {
                        return None;
                    }
                    idx + 1
                },
                _ => {
                    if idx == 0 {
                        return None;
                    }
                    idx - 1
                },
            };
            proof {
                assert(card_in_col(app.cards@, app.scope, col, cards@[o as int] as int));
            }
            let other = app.cards[cards[o]].key.clone();
            app.focus.card_idx = o;
            push_undo(app, UndoOp::Reorder { key: key.clone(), other: other.clone() });
            Some(Command::Reorder { key, other })
        },
    }
}

/// `u`: reverse the newest recorded mutation.
fn undo(app: &mut App) -> (r: Option<Command>)
    ensures
        undo_rel(*old(app), *final(app), r),
{
    if app.undo_stack.len() == 0 {
        app.status_msg = Some("nothing to undo".to_owned());
        return None;
    }
    let op = match app.undo_stack.pop() {
        Some(op) => op,
        None => return None,
    };
    match op {
        UndoOp::Move { key, from } => {
            let head = concat("undid: ", key.as_str());
            let mid = concat(head.as_str(), " back to ");
            app.status_msg = Some(concat(mid.as_str(), from.as_str()));
            Some(Command::MoveIssue { key, status: from })
        },
        UndoOp::Reorder { key, other } => {
            app.status_msg = Some(concat("undid: reorder of ", key.as_str()));
            Some(Command::Reorder { key, other })
        },
        UndoOp::Archive { key } => {
            app.status_msg = Some(concat("undid: unarchived ", key.as_str()));
            Some(Command::Unarchive { key })
        },
    }
}

/// `t`: tag the focused card with the next milestone of its project.
fn tag_milestone(app: &mut App) -> (r: Option<Command>)
    ensures
        ({
            let a = *old(app);
            let focused = focused_index(a);
            let fc = a.cards@[focused->0];
            if focused is Some {
                if filter_upto(a.milestones@.len(), of_project(a.milestones@, fc.project@)).len()
                    == 0 {
                    said(a, *final(app), "no milestones to tag (N to create one)"@) && r is None
                } else {
                    *final(app) == a && cmd_tag(r, fc.key@, next_tag(a, focused->0))
                }
            } else {
                *final(app) == a && r is None
            }
        }),
{
    let i = match app.focused_index() {
        Some(i) => i,
        None => return None,
    };
    let ghost a = *app;
    let ghost pred = of_project(app.milestones@, app.cards@[i as int].project@);
    let n = app.milestones.len();
    let mut names: Vec<usize> = Vec::new();
    for j in 0..n
        invariant
            n == app.milestones@.len(),
            i < app.cards@.len(),
            *app == a,
            pred == of_project(app.milestones@, app.cards@[i as int].project@),
            names@ == filter_upto(j as nat, pred),
    {
        if str_eq(app.milestones[j].project.as_str(), app.cards[i].project.as_str()) {
            names.push(j);
        }
    }
    proof {
        lemma_filter_upto(n as nat, pred);
    }
    if names.len() == 0 {
        app.status_msg = Some("no milestones to tag (N to create one)".to_owned());
        return None;
    }
    let cur: usize = match app.cards[i].milestone_id {
        Some(id) => {
            let ghost p = has_id(app.milestones@, names@, id);
            let mut k: usize = 0;
            let mut found: Option<usize> = None;
            while k < names.len()
                invariant
                    k <= names@.len(),
                    *app == a,
                    names@ == filter_upto(n as nat, pred),
                    n == app.milestones@.len(),
                    forall|m: int| 0 <= m < names@.len() ==> (#[trigger] names@[m] as int) < n,
                    p == has_id(app.milestones@, names@, id),
                    found is None ==> forall|m: int| 0 <= m < k ==> !#[trigger] p(m),
                    found matches Some(f) ==> f < names@.len(),
                    found matches Some(f) ==> first_from(0, names@.len() as int, p) == Some(f as int),
                decreases names.len() - k,
            {
                if found.is_none() && app.milestones[names[k]].id == id {
                    proof {
                        lemma_first_from_found(0, k as int, names@.len() as int, p);
                    }
                    found = Some(k);
                }
                k = k + 1;
            }
            proof {
                if found is None {
                    lemma_first_from_none(0, names@.len() as int, p);
                }
            }
            match found {
                Some(f) => f + 1,
                None => {
                    proof {
                        lemma_first_from_none(0, names@.len() as int, p);
                    }
                    0
                },
            }
        },
        None => 0,
    };
    let next = if cur >= names.len() {
        0
    } else {
        cur + 1
    };
    proof {
        let m = names@.len() as int + 1;
        if cur < names@.len() {
            vstd::arithmetic::div_mod::lemma_small_mod((cur + 1) as nat, m as nat);
        } else {
            vstd::arithmetic::div_mod::lemma_mod_self_0(m);
        }
        assert(next as int == (cur + 1) % m);
    }
    let milestone = if next == 0 {
        None
    } else {
        Some(app.milestones[names[next - 1]].name.clone())
    };
    Some(Command::TagMilestone { key: app.cards[i].key.clone(), milestone })
}

/// Applies one action: changes the app and returns the side effect the
/// host should perform, if any. A status message answers the previous
/// action; every action first dismisses it, and only refusals set a new one.
pub fn update(app: &mut App, action: Action) -> (r: Option<Command>)
    ensures
        update_rel(*old(app), *final(app), action, r),
{
    app.status_msg = None;
    match action {
        Action::FocusMove(d) => {
            move_focus(app, d);
            None
        },
        Action::FocusColumn(i) => {
            if i < NUM_COLUMNS {
                let col = ColumnId::at(i);
                app.remember_cursor();
                let k = app.restore_cursor_for(col);
                app.focus = Focus { column: col, card_idx: k };
            }
            None
        },
        Action::FocusCard(col, k) => {
            app.remember_cursor();
            let last = last_index(app.column_count(col));
            app.focus = Focus { column: col, card_idx: min_usize(k, last) };
            None
        },
        Action::PageMove(d) => {
            let last = last_index(app.column_count(app.focus.column));
            let idx = app.focus.card_idx;
            app.focus.card_idx = match d {
                Direction::Down => {
                    if idx <= last && last - idx >= PAGE_STEP {
                        idx + PAGE_STEP
                    } else {
                        last
                    }
                },
                _ => {
                    if idx >= PAGE_STEP {
                        idx - PAGE_STEP
                    } else {
                        0
                    }
                },
            };
            None
        },
        Action::JumpToTop => {
            app.focus.card_idx = 0;
            None
        },
        Action::JumpToBottom => {
            app.focus.card_idx = last_index(app.column_count(app.focus.column));
            None
        },
        Action::ToggleHelp => {
            app.mode = match app.mode {
                Mode::Help => Mode::Normal,
                _ => Mode::Help,
            };
            None
        },
        Action::QuitRequest => {
            app.mode = Mode::ConfirmQuit;
            None
        },
        Action::Quit => None,
        Action::Cancel => {
            app.mode = match &app.mode {
                Mode::ConfirmProjectArchive { page, .. } => Mode::ProjectPage(copy_proj_state(page)),
                _ => Mode::Normal,
            };
            None
        },
        Action::Refresh => Some(Command::Reload),
        Action::OpenDetail => {
            match app.focused_index() {
                Some(i) => {
                    app.mode = Mode::Detail(app.cards[i].key.clone());
                },
                None => {},
            }
            None
        },
        Action::JumpToBlocker => {
            let ghost p = open_blocker_at(app.detail_relations@);
            let mut k: usize = 0;
            let mut hit = false;
            while !hit && k < app.detail_relations.len()
                invariant
                    k <= app.detail_relations@.len(),
                    *app == cleared(*old(app)),
                    p == open_blocker_at(app.detail_relations@),
                    hit ==> k < app.detail_relations@.len() && p(k as int),
                    forall|m: int| 0 <= m < k ==> !#[trigger] p(m),
                decreases app.detail_relations@.len() - k + (if hit {
                    0int
                } else {
                    1int
                }),
            {
                if app.detail_relations[k].open_blocker() {
                    hit = true;
                } else {
                    k = k + 1;
                }
            }
            if !hit {
                proof {
                    lemma_first_from_none(0, app.detail_relations@.len() as int, p);
                }
                return None;
            }
            proof {
                lemma_first_from_found(0, k as int, app.detail_relations@.len() as int, p);
            }
            let target = app.detail_relations[k].key.clone();
            match locate_focus_for_key(app, target.as_str()) {
                Some(f) => {
                    app.focus = f;
                    app.mode = Mode::Normal;
                },
                None => {
                    app.status_msg = Some(
                        concat(target.as_str(), " isn't on the board (archived or out of scope)"),
                    );
                },
            }
            None
        },
        Action::BeginMove => {
            app.mode = Mode::AwaitingMove;
            None
        },
        Action::MoveTo(status) => {
            app.mode = Mode::Normal;
            let i = match app.focused_index() {
                Some(i) => i,
                None => return None,
            };
            let key = app.cards[i].key.clone();
            let from = app.cards[i].status.clone();
            push_undo(app, UndoOp::Move { key: key.clone(), from });
            Some(Command::MoveIssue { key, status })
        },
        Action::MoveIssueDir(d) => move_issue_dir(app, d),
        Action::ArchiveRequest => {
            match app.focused_index() {
                Some(i) => {
                    app.mode = Mode::ConfirmArchive(app.cards[i].key.clone());
                },
                None => {},
            }
            None
        },
        Action::Archive => {
            let key = match &app.mode {
                Mode::ConfirmArchive(k) => k.clone(),
                _ => match app.focused_index() {
                    Some(i) => app.cards[i].key.clone(),
                    None => return None,
                },
            };
            app.mode = Mode::Normal;
            push_undo(app, UndoOp::Archive { key: key.clone() });
            Some(Command::Archive { key })
        },
        Action::Undo => undo(app),
        Action::EditCard => match app.focused_index() {
            Some(i) => Some(Command::EditIssue { key: app.cards[i].key.clone() }),
            None => None,
        },
        Action::EditScope => match &app.scope.project {
            Some(p) => match &app.scope.milestone {
                Some(m) => Some(Command::EditMilestone { project: p.clone(), name: m.clone() }),
                None => Some(Command::EditProject { key: p.clone() }),
            },
            None => {
                app.status_msg = Some("scope a project first (p) to edit it".to_owned());
                None
            },
        },
        Action::NewIssue => {
            let status = app.focus.column.status().to_owned();
            Some(Command::NewIssue { status })
        },
        Action::NewMilestone => Some(Command::NewMilestone { project: copy_opt(&app.scope.project) }),
        Action::TagMilestone => tag_milestone(app),
        _ => update_overlays(app, action),
    }
}

} // verus!
