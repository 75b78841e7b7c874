//! The vocabulary the key handlers' contracts are written in: saturating
//! cursor arithmetic, "the app with one field changed", the status line,
//! the undo stack, the commands by their text, and exact copies of the
//! view states.

use vstd::prelude::*;

use crate::actions::{Command, Direction};
use crate::model::{
    ActivityPageState, App, MilestonePageState, Mode, ProjectPageState, UndoOp, UNDO_DEPTH,
};

verus! {

/// `app` as every action first leaves it: the previous status message is
/// dismissed by the next keypress.
pub open spec fn cleared(app: App) -> App {
    App { status_msg: None, ..app }
}

/// The last valid cursor of a list of `n` rows (0 for an empty list).
pub open spec fn sat_last(n: int) -> int {
    if n <= 0 {
        0
    } else {
        n - 1
    }
}

pub open spec fn min_int(x: int, y: int) -> int {
    if x <= y {
        x
    } else {
        y
    }
}

/// `x - y`, or 0 when that would be negative.
pub open spec fn sat_sub(x: int, y: int) -> int {
    if x >= y {
        x - y
    } else {
        0
    }
}

/// `app` in mode `m`.
pub open spec fn with_mode(app: App, m: Mode) -> App {
    App { mode: m, ..app }
}

/// `b` is `a` with the status line saying `msg`.
pub open spec fn said(a: App, b: App, msg: Seq<char>) -> bool {
    &&& b == App { status_msg: b.status_msg, ..a }
    &&& b.status_msg matches Some(m) && m@ == msg
}

/// The undo stack after recording `op`: newest last, the oldest forgotten
/// beyond [`UNDO_DEPTH`].
pub open spec fn pushed_undo(s: Seq<UndoOp>, op: UndoOp) -> Seq<UndoOp> {
    let t = s.push(op);
    if t.len() > UNDO_DEPTH {
        t.drop_first()
    } else {
        t
    }
}

/// `b` is `a` with `op` recorded on the undo stack (and nothing else
/// changed but the fields the caller names through `a`).
pub open spec fn recorded(a: App, b: App, op: UndoOp) -> bool {
    &&& b == App { undo_stack: b.undo_stack, ..a }
    &&& b.undo_stack@ == pushed_undo(a.undo_stack@, op)
}

/// Option<String> by its text.
pub open spec fn opt_chars(o: Option<String>) -> Option<Seq<char>> {
    match o {
        Some(s) => Some(s@),
        None => None,
    }
}

pub open spec fn cmd_move(r: Option<Command>, key: Seq<char>, status: Seq<char>) -> bool {
    r matches Some(Command::MoveIssue { key: k, status: s }) && k@ == key && s@ == status
}

pub open spec fn cmd_reorder(r: Option<Command>, key: Seq<char>, other: Seq<char>) -> bool {
    r matches Some(Command::Reorder { key: k, other: o }) && k@ == key && o@ == other
}

pub open spec fn cmd_archive(r: Option<Command>, key: Seq<char>) -> bool {
    r matches Some(Command::Archive { key: k }) && k@ == key
}

pub open spec fn cmd_unarchive(r: Option<Command>, key: Seq<char>) -> bool {
    r matches Some(Command::Unarchive { key: k }) && k@ == key
}

pub open spec fn cmd_tag(r: Option<Command>, key: Seq<char>, milestone: Option<Seq<char>>) -> bool {
    r matches Some(Command::TagMilestone { key: k, milestone: m }) && k@ == key && opt_chars(m)
        == milestone
}

pub open spec fn cmd_edit_issue(r: Option<Command>, key: Seq<char>) -> bool {
    r matches Some(Command::EditIssue { key: k }) && k@ == key
}

pub open spec fn cmd_new_issue(r: Option<Command>, status: Seq<char>) -> bool {
    r matches Some(Command::NewIssue { status: s }) && s@ == status
}

pub open spec fn cmd_edit_milestone(r: Option<Command>, project: Seq<char>, name: Seq<char>) -> bool {
    r matches Some(Command::EditMilestone { project: p, name: n }) && p@ == project && n@ == name
}

pub open spec fn cmd_new_milestone(r: Option<Command>, project: Option<Seq<char>>) -> bool {
    r matches Some(Command::NewMilestone { project: p }) && opt_chars(p) == project
}

pub open spec fn cmd_milestone_status(
    r: Option<Command>,
    project: Seq<char>,
    name: Seq<char>,
    status: Seq<char>,
) -> bool {
    r matches Some(Command::SetMilestoneStatus { project: p, name: n, status: s }) && p@ == project
        && n@ == name && s@ == status
}

pub open spec fn cmd_edit_project(r: Option<Command>, key: Seq<char>) -> bool {
    r matches Some(Command::EditProject { key: k }) && k@ == key
}

pub open spec fn cmd_project_archived(r: Option<Command>, key: Seq<char>, archived: bool) -> bool {
    r matches Some(Command::SetProjectArchived { key: k, archived: x }) && k@ == key && x
        == archived
}

/// An exact copy of an optional string.
pub fn copy_opt(o: &Option<String>) -> (r: Option<String>)
    ensures
        r == *o,
{
    match o {
        Some(s) => Some(s.clone()),
        None => None,
    }
}

pub fn copy_ms_state(s: &MilestonePageState) -> (r: MilestonePageState)
    ensures
        r == *s,
{
    MilestonePageState { cursor: s.cursor, query: s.query.clone(), filter: s.filter, sort: s.sort }
}

pub fn copy_proj_state(s: &ProjectPageState) -> (r: ProjectPageState)
    ensures
        r == *s,
{
    ProjectPageState { cursor: s.cursor, query: s.query.clone(), filter: s.filter, sort: s.sort }
}

pub fn copy_act_state(s: &ActivityPageState) -> (r: ActivityPageState)
    ensures
        r == *s,
{
    ActivityPageState { cursor: s.cursor, query: s.query.clone(), filter: s.filter }
}

/// Records a reversible board mutation, forgetting the oldest beyond
/// [`UNDO_DEPTH`].
pub fn push_undo(app: &mut App, op: UndoOp)
    ensures
        recorded(*old(app), *final(app), op),
{
    app.undo_stack.push(op);
    if app.undo_stack.len() > UNDO_DEPTH {
        app.undo_stack.remove(0);
    }
    proof {
        let t = old(app).undo_stack@.push(op);
        if t.len() > UNDO_DEPTH {
            assert(app.undo_stack@ =~= t.drop_first());
        }
    }
}

/// Half-page step on the list pages, whose rows are single lines.
pub const MS_PAGE_STEP: usize = 10;

/// A query after Backspace: the last character dropped, if any.
pub open spec fn popped(q: Seq<char>) -> Seq<char> {
    if q.len() > 0 {
        q.drop_last()
    } else {
        q
    }
}

/// A list cursor after a half-page move, clamped to the last row.
pub open spec fn paged(cursor: int, d: Direction, last: int) -> int {
    match d {
        Direction::Down => min_int(cursor + MS_PAGE_STEP, last),
        _ => sat_sub(cursor, MS_PAGE_STEP as int),
    }
}

/// The last valid cursor of a list of `n` rows.
pub fn last_index(n: usize) -> (r: usize)
    ensures
        r == sat_last(n as int),
{
    if n == 0 {
        0
    } else {
        n - 1
    }
}

/// A list cursor after a half-page move (PgDn/PgUp).
pub fn paged_cursor(cursor: usize, d: Direction, last: usize) -> (r: usize)
    ensures
        r == paged(cursor as int, d, last as int),
{
    match d {
        Direction::Down => {
            if cursor <= last && last - cursor >= MS_PAGE_STEP {
                cursor + MS_PAGE_STEP
            } else {
                last
            }
        },
        _ => {
            if cursor >= MS_PAGE_STEP {
                cursor - MS_PAGE_STEP
            } else {
                0
            }
        },
    }
}

/// The cursor one row down, if there is a row below.
pub fn step_down(cursor: usize, last: usize) -> (r: usize)
    ensures
        r == (if cursor < last {
            cursor + 1
        } else {
            cursor as int
        }),
{
    if cursor < last {
        cursor + 1
    } else {
        cursor
    }
}

/// The cursor one row up, stopping at the top.
pub fn step_up(cursor: usize) -> (r: usize)
    ensures
        r == sat_sub(cursor as int, 1),
{
    if cursor > 0 {
        cursor - 1
    } else {
        0
    }
}

/// `x.min(y)`.
pub fn min_usize(x: usize, y: usize) -> (r: usize)
    ensures
        r == min_int(x as int, y as int),
{
    if x <= y {
        x
    } else {
        y
    }
}

} // verus!
