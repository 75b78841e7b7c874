//! Key event → action, dispatched on the mode. Ctrl-C quits from anywhere;
//! on the board, lowercase keys move the cursor and capitals move the card;
//! in the filter boxes every printable character types.

use vstd::prelude::*;

use crate::actions::{Action, Direction};
use crate::keys::{KeyCode, KeyEvent, KeyModifiers, control_only, no_mods};
use crate::model::{App, ColumnId, Mode, column_at, status_text};

verus! {

/// The status a letter names after Space: b(acklog), i(n-progress),
/// (bloc)k(ed), r(eview), d(one).
pub open spec fn letter_status(c: char) -> Option<Seq<char>> {
    if c == 'b' {
        Some("backlog"@)
    } else if c == 'i' {
        Some("in-progress"@)
    } else if c == 'k' {
        Some("blocked"@)
    } else if c == 'r' {
        Some("in-review"@)
    } else if c == 'd' {
        Some("done"@)
    } else {
        None
    }
}

fn status_for_letter(c: char) -> (r: Option<&'static str>)
    ensures
        match r {
            Some(s) => letter_status(c) == Some(s@),
            None => letter_status(c) is None,
        },
{
    if c == 'b' {
        Some("backlog")
    } else if c == 'i' {
        Some("in-progress")
    } else if c == 'k' {
        Some("blocked")
    } else if c == 'r' {
        Some("in-review")
    } else if c == 'd' {
        Some("done")
    } else {
        None
    }
}

/// Ctrl held with `c`.
pub open spec fn is_ctrl_c(k: KeyEvent) -> bool {
    k.code == KeyCode::Char('c') && k.modifiers.control
}

/// `g` with no modifier (the first half of `gg`).
pub open spec fn is_plain_g(k: KeyEvent) -> bool {
    k.code == KeyCode::Char('g') && k.modifiers == no_mods()
}

/// The board's keys. `was_g`: the previous key was a lone `g`.
pub open spec fn normal_key(k: KeyEvent, was_g: bool) -> Option<Action> {
    let plain = k.modifiers == no_mods();
    let ctrl = k.modifiers == control_only();
    match k.code {
        KeyCode::Char(c) => if c == 'q' {
            Some(Action::QuitRequest)
        } else if c == 'H' {
            Some(Action::MoveIssueDir(Direction::Left))
        } else if c == 'L' {
            Some(Action::MoveIssueDir(Direction::Right))
        } else if c == 'J' {
            Some(Action::MoveIssueDir(Direction::Down))
        } else if c == 'K' {
            Some(Action::MoveIssueDir(Direction::Up))
        } else if c == 'h' && plain {
            Some(Action::FocusMove(Direction::Left))
        } else if c == 'l' && plain {
            Some(Action::FocusMove(Direction::Right))
        } else if c == 'j' && plain {
            Some(Action::FocusMove(Direction::Down))
        } else if c == 'k' && plain {
            Some(Action::FocusMove(Direction::Up))
        } else if '1' <= c <= '5' && plain {
            Some(Action::FocusColumn((c as u32 - '1' as u32) as usize))
        } else if c == 'd' && ctrl {
            Some(Action::PageMove(Direction::Down))
        } else if c == 'u' && ctrl {
            Some(Action::PageMove(Direction::Up))
        } else if c == 'u' && plain {
            Some(Action::Undo)
        } else if c == 'g' && plain {
            if was_g {
                Some(Action::JumpToTop)
            } else {
                None
            }
        } else if c == 'G' {
            Some(Action::JumpToBottom)
        } else if c == 'e' && plain {
            Some(Action::EditCard)
        } else if c == 'E' {
            Some(Action::EditScope)
        } else if c == 'n' && plain {
            Some(Action::NewIssue)
        } else if c == 'N' {
            Some(Action::NewMilestone)
        } else if c == 't' && plain {
            Some(Action::TagMilestone)
        } else if c == ' ' {
            Some(Action::BeginMove)
        } else if c == 'a' && plain {
            Some(Action::OpenActivityPage)
        } else if c == 'A' {
            Some(Action::ArchiveRequest)
        } else if c == 'm' && plain {
            Some(Action::OpenMilestonePage)
        } else if c == 'M' {
            Some(Action::CycleMilestoneFilter)
        } else if c == 'p' && plain {
            Some(Action::OpenProjectPage)
        } else if c == '/' {
            Some(Action::OpenFuzzyFind)
        } else if c == 'r' && plain {
            Some(Action::Refresh)
        } else if c == '?' {
            Some(Action::ToggleHelp)
        } else {
            None
        },
        KeyCode::Left => Some(Action::FocusMove(Direction::Left)),
        KeyCode::Right => Some(Action::FocusMove(Direction::Right)),
        KeyCode::Down => Some(Action::FocusMove(Direction::Down)),
        KeyCode::Up => Some(Action::FocusMove(Direction::Up)),
        KeyCode::Tab => Some(Action::FocusMove(Direction::Right)),
        KeyCode::BackTab => Some(Action::FocusMove(Direction::Left)),
        KeyCode::PageDown => Some(Action::PageMove(Direction::Down)),
        KeyCode::PageUp => Some(Action::PageMove(Direction::Up)),
        KeyCode::Enter => Some(Action::OpenDetail),
        _ => None,
    }
}

/// The quit dialog: yes, Enter and a second `q` quit; no and Esc go back.
pub open spec fn confirm_quit_key(k: KeyEvent) -> Option<Action> {
    match k.code {
        KeyCode::Char(c) => if c == 'y' || c == 'Y' || c == 'q' {
            Some(Action::Quit)
        } else if c == 'n' || c == 'N' {
            Some(Action::Cancel)
        } else {
            None
        },
        KeyCode::Enter => Some(Action::Quit),
        KeyCode::Esc => Some(Action::Cancel),
        _ => None,
    }
}

/// A yes/no dialog answering with `yes`.
pub open spec fn confirm_key(k: KeyEvent, yes: Action) -> Option<Action> {
    match k.code {
        KeyCode::Char(c) => if c == 'y' || c == 'Y' {
            Some(yes)
        } else if c == 'n' || c == 'N' {
            Some(Action::Cancel)
        } else {
            None
        },
        KeyCode::Enter => Some(yes),
        KeyCode::Esc => Some(Action::Cancel),
        _ => None,
    }
}

/// The card detail popup.
pub open spec fn detail_key(k: KeyEvent) -> Option<Action> {
    match k.code {
        KeyCode::Esc | KeyCode::Enter => Some(Action::Cancel),
        KeyCode::Char(c) => if c == 'q' {
            Some(Action::Cancel)
        } else if c == 'e' {
            Some(Action::EditCard)
        } else if c == 'b' {
            Some(Action::JumpToBlocker)
        } else {
            None
        },
        _ => None,
    }
}

/// The milestone picker: printable characters type, arrows or Ctrl-n/p move.
pub open spec fn picker_key(k: KeyEvent) -> Option<Action> {
    match k.code {
        KeyCode::Enter => Some(Action::PickerConfirm),
        KeyCode::Esc => Some(Action::Cancel),
        KeyCode::Backspace => Some(Action::PickerBackspace),
        KeyCode::Up => Some(Action::PickerUp),
        KeyCode::Down => Some(Action::PickerDown),
        KeyCode::Char(c) => if c == 'p' && k.modifiers == control_only() {
            Some(Action::PickerUp)
        } else if c == 'n' && k.modifiers == control_only() {
            Some(Action::PickerDown)
        } else if !k.modifiers.control {
            Some(Action::PickerInput(c))
        } else {
            None
        },
        _ => None,
    }
}

/// Fuzzy find: printable characters type, arrows or Ctrl-n/p move.
pub open spec fn fuzzy_key(k: KeyEvent) -> Option<Action> {
    match k.code {
        KeyCode::Enter => Some(Action::FuzzyConfirm),
        KeyCode::Esc => Some(Action::Cancel),
        KeyCode::Backspace => Some(Action::FuzzyBackspace),
        KeyCode::Up => Some(Action::FuzzyUp),
        KeyCode::Down => Some(Action::FuzzyDown),
        KeyCode::Char(c) => if c == 'p' && k.modifiers == control_only() {
            Some(Action::FuzzyUp)
        } else if c == 'n' && k.modifiers == control_only() {
            Some(Action::FuzzyDown)
        } else if !k.modifiers.control {
            Some(Action::FuzzyInput(c))
        } else {
            None
        },
        _ => None,
    }
}

/// The milestone page: lowercase types into the filter, capitals are
/// commands, arrows, Ctrl-n/p and named keys navigate.
pub open spec fn milestone_page_key(k: KeyEvent) -> Option<Action> {
    match k.code {
        KeyCode::Enter => Some(Action::MsPageSelect),
        KeyCode::Esc => Some(Action::Cancel),
        KeyCode::Backspace => Some(Action::MsPageBackspace),
        KeyCode::Down => Some(Action::MsPageDown),
        KeyCode::Up => Some(Action::MsPageUp),
        KeyCode::PageDown => Some(Action::MsPagePage(Direction::Down)),
        KeyCode::PageUp => Some(Action::MsPagePage(Direction::Up)),
        KeyCode::Home => Some(Action::MsPageTop),
        KeyCode::End => Some(Action::MsPageBottom),
        KeyCode::Tab => Some(Action::MsPageCycleFilter),
        KeyCode::BackTab => Some(Action::MsPageCycleFilterBack),
        KeyCode::Char(c) => if c == 'n' && k.modifiers == control_only() {
            Some(Action::MsPageDown)
        } else if c == 'p' && k.modifiers == control_only() {
            Some(Action::MsPageUp)
        } else if c == 'G' {
            Some(Action::MsPageBottom)
        } else if c == 'S' {
            Some(Action::MsPageCycleSort)
        } else if c == 'E' {
            Some(Action::MsPageEdit)
        } else if c == 'N' {
            Some(Action::MsPageNew)
        } else if c == 'C' {
            Some(Action::MsPageCycleStatus)
        } else if !k.modifiers.control {
            Some(Action::MsPageInput(c))
        } else {
            None
        },
        _ => None,
    }
}

/// The project page: the milestone page's grammar, with `A` to archive.
pub open spec fn project_page_key(k: KeyEvent) -> Option<Action> {
    match k.code {
        KeyCode::Enter => Some(Action::ProjPageSelect),
        KeyCode::Esc => Some(Action::Cancel),
        KeyCode::Backspace => Some(Action::ProjPageBackspace),
        KeyCode::Down => Some(Action::ProjPageDown),
        KeyCode::Up => Some(Action::ProjPageUp),
        KeyCode::PageDown => Some(Action::ProjPagePage(Direction::Down)),
        KeyCode::PageUp => Some(Action::ProjPagePage(Direction::Up)),
        KeyCode::Home => Some(Action::ProjPageTop),
        KeyCode::End => Some(Action::ProjPageBottom),
        KeyCode::Tab => Some(Action::ProjPageCycleFilter),
        KeyCode::BackTab => Some(Action::ProjPageCycleFilterBack),
        KeyCode::Char(c) => if c == 'n' && k.modifiers == control_only() {
            Some(Action::ProjPageDown)
        } else if c == 'p' && k.modifiers == control_only() {
            Some(Action::ProjPageUp)
        } else if c == 'G' {
            Some(Action::ProjPageBottom)
        } else if c == 'S' {
            Some(Action::ProjPageCycleSort)
        } else if c == 'E' {
            Some(Action::ProjPageEdit)
        } else if c == 'N' {
            Some(Action::ProjPageNew)
        } else if c == 'A' {
            Some(Action::ProjPageArchiveRequest)
        } else if !k.modifiers.control {
            Some(Action::ProjPageInput(c))
        } else {
            None
        },
        _ => None,
    }
}

/// The mailbox: move, filter by kind, Enter to jump to the issue.
pub open spec fn activity_page_key(k: KeyEvent) -> Option<Action> {
    match k.code {
        KeyCode::Enter => Some(Action::ActPageSelect),
        KeyCode::Esc => Some(Action::Cancel),
        KeyCode::Backspace => Some(Action::ActPageBackspace),
        KeyCode::Down => Some(Action::ActPageDown),
        KeyCode::Up => Some(Action::ActPageUp),
        KeyCode::PageDown => Some(Action::ActPagePage(Direction::Down)),
        KeyCode::PageUp => Some(Action::ActPagePage(Direction::Up)),
        KeyCode::Home => Some(Action::ActPageTop),
        KeyCode::End => Some(Action::ActPageBottom),
        KeyCode::Tab => Some(Action::ActPageCycleFilter),
        KeyCode::BackTab => Some(Action::ActPageCycleFilterBack),
        KeyCode::Char(c) => if c == 'n' && k.modifiers == control_only() {
            Some(Action::ActPageDown)
        } else if c == 'p' && k.modifiers == control_only() {
            Some(Action::ActPageUp)
        } else if c == 'G' {
            Some(Action::ActPageBottom)
        } else if !k.modifiers.control {
            Some(Action::ActPageInput(c))
        } else {
            None
        },
        _ => None,
    }
}

/// What a key does: the action it maps to (`r`) and the app afterwards
/// (`b`), which differs from `a` only in the pending-`g` flag on the board.
pub open spec fn key_rel(a: App, b: App, k: KeyEvent, r: Option<Action>) -> bool {
    if is_ctrl_c(k) {
        b == a && r == Some(Action::Quit)
    } else {
        match a.mode {
            Mode::Normal => b == App { pending_g: is_plain_g(k) && !a.pending_g, ..a } && r
                == normal_key(k, a.pending_g),
            Mode::AwaitingMove => b == a && match k.code {
                KeyCode::Char(c) => match letter_status(c) {
                    Some(s) => r matches Some(Action::MoveTo(t)) && t@ == s,
                    None => r == Some(Action::Cancel),
                },
                _ => r == Some(Action::Cancel),
            },
            Mode::Help => b == a && r == Some(Action::Cancel),
            Mode::Detail(_) => b == a && r == detail_key(k),
            Mode::ConfirmQuit => b == a && r == confirm_quit_key(k),
            Mode::ConfirmArchive(_) => b == a && r == confirm_key(k, Action::Archive),
            Mode::ConfirmProjectArchive { .. } => b == a && r == confirm_key(k, Action::ProjPageArchive),
            Mode::MilestonePicker(_) => b == a && r == picker_key(k),
            Mode::FuzzyFind(_) => b == a && r == fuzzy_key(k),
            Mode::MilestonePage(_) => b == a && r == milestone_page_key(k),
            Mode::ProjectPage(_) => b == a && r == project_page_key(k),
            Mode::ActivityPage(_) => b == a && r == activity_page_key(k),
        }
    }
}

fn map_normal(key: KeyEvent, app: &mut App) -> (r: Option<Action>)
    ensures
        *final(app) == (App { pending_g: is_plain_g(key) && !old(app).pending_g, ..*old(app) }),
        r == normal_key(key, old(app).pending_g),
{
    let was_g = app.pending_g;
    let plain = key.modifiers.is_none();
    let ctrl = key.modifiers.is_control_only();
    let is_g = match key.code {
        KeyCode::Char(c) => c == 'g' && plain,
        _ => false,
    };
    app.pending_g = is_g && !was_g;
    match key.code {
        KeyCode::Char(c) => if c == 'q' {
            Some(Action::QuitRequest)
        } else if c == 'H' {
            Some(Action::MoveIssueDir(Direction::Left))
        } else if c == 'L' {
            Some(Action::MoveIssueDir(Direction::Right))
        } else if c == 'J' {
            Some(Action::MoveIssueDir(Direction::Down))
        } else if c == 'K' {
            Some(Action::MoveIssueDir(Direction::Up))
        } else if c == 'h' && plain {
            Some(Action::FocusMove(Direction::Left))
        } else if c == 'l' && plain {
            Some(Action::FocusMove(Direction::Right))
        } else if c == 'j' && plain {
            Some(Action::FocusMove(Direction::Down))
        } else if c == 'k' && plain {
            Some(Action::FocusMove(Direction::Up))
        } else if '1' <= c && c <= '5' && plain {
            Some(Action::FocusColumn((c as u32 - '1' as u32) as usize))
        } else if c == 'd' && ctrl {
            Some(Action::PageMove(Direction::Down))
        } else if c == 'u' && ctrl {
            Some(Action::PageMove(Direction::Up))
        } else if c == 'u' && plain {
            Some(Action::Undo)
        } else if c == 'g' && plain {
            if was_g {
                Some(Action::JumpToTop)
            } else {
                None
            }
        } else if c == 'G' {
            Some(Action::JumpToBottom)
        } else if c == 'e' && plain {
            Some(Action::EditCard)
        } else if c == 'E' {
            Some(Action::EditScope)
        } else if c == 'n' && plain {
            Some(Action::NewIssue)
        } else if c == 'N' {
            Some(Action::NewMilestone)
        } else if c == 't' && plain {
            Some(Action::TagMilestone)
        } else if c == ' ' {
            Some(Action::BeginMove)
        } else if c == 'a' && plain {
            Some(Action::OpenActivityPage)
        } else if c == 'A' {
            Some(Action::ArchiveRequest)
        } else if c == 'm' && plain {
            Some(Action::OpenMilestonePage)
        } else if c == 'M' {
            Some(Action::CycleMilestoneFilter)
        } else if c == 'p' && plain {
            Some(Action::OpenProjectPage)
        } else if c == '/' {
            Some(Action::OpenFuzzyFind)
        } else if c == 'r' && plain {
            Some(Action::Refresh)
        } else if c == '?' {
            Some(Action::ToggleHelp)
        } else {
            None
        },
        KeyCode::Left => Some(Action::FocusMove(Direction::Left)),
        KeyCode::Right => Some(Action::FocusMove(Direction::Right)),
        KeyCode::Down => Some(Action::FocusMove(Direction::Down)),
        KeyCode::Up => Some(Action::FocusMove(Direction::Up)),
        KeyCode::Tab => Some(Action::FocusMove(Direction::Right)),
        KeyCode::BackTab => Some(Action::FocusMove(Direction::Left)),
        KeyCode::PageDown => Some(Action::PageMove(Direction::Down)),
        KeyCode::PageUp => Some(Action::PageMove(Direction::Up)),
        KeyCode::Enter => Some(Action::OpenDetail),
        _ => None,
    }
}

fn map_awaiting_move(key: KeyEvent) -> (r: Option<Action>)
    ensures
        match key.code {
            KeyCode::Char(c) => match letter_status(c) {
                Some(s) => r matches Some(Action::MoveTo(t)) && t@ == s,
                None => r == Some(Action::Cancel),
            },
            _ => r == Some(Action::Cancel),
        },
{
    match key.code {
        KeyCode::Char(c) => match status_for_letter(c) {
            Some(s) => Some(Action::MoveTo(s.to_owned())),
            None => Some(Action::Cancel),
        },
        _ => Some(Action::Cancel),
    }
}

fn map_confirm_quit(key: KeyEvent) -> (r: Option<Action>)
    ensures
        r == confirm_quit_key(key),
{
    match key.code {
        KeyCode::Char(c) => if c == 'y' || c == 'Y' || c == 'q' {
            Some(Action::Quit)
        } else if c == 'n' || c == 'N' {
            Some(Action::Cancel)
        } else {
            None
        },
        KeyCode::Enter => Some(Action::Quit),
        KeyCode::Esc => Some(Action::Cancel),
        _ => None,
    }
}

fn map_confirm_archive(key: KeyEvent) -> (r: Option<Action>)
    ensures
        r == confirm_key(key, Action::Archive),
{
    match key.code {
        KeyCode::Char(c) => if c == 'y' || c == 'Y' {
            Some(Action::Archive)
        } else if c == 'n' || c == 'N' {
            Some(Action::Cancel)
        } else {
            None
        },
        KeyCode::Enter => Some(Action::Archive),
        KeyCode::Esc => Some(Action::Cancel),
        _ => None,
    }
}

fn map_confirm_project_archive(key: KeyEvent) -> (r: Option<Action>)
    ensures
        r == confirm_key(key, Action::ProjPageArchive),
{
    match key.code {
        KeyCode::Char(c) => if c == 'y' || c == 'Y' {
            Some(Action::ProjPageArchive)
        } else if c == 'n' || c == 'N' {
            Some(Action::Cancel)
        } else {
            None
        },
        KeyCode::Enter => Some(Action::ProjPageArchive),
        KeyCode::Esc => Some(Action::Cancel),
        _ => None,
    }
}

fn map_detail(key: KeyEvent) -> (r: Option<Action>)
    ensures
        r == detail_key(key),
{
    match key.code {
        KeyCode::Esc | KeyCode::Enter => Some(Action::Cancel),
        KeyCode::Char(c) => if c == 'q' {
            Some(Action::Cancel)
        } else if c == 'e' {
            Some(Action::EditCard)
        } else if c == 'b' {
            Some(Action::JumpToBlocker)
        } else {
            None
        },
        _ => None,
    }
}

fn map_picker(key: KeyEvent) -> (r: Option<Action>)
    ensures
        r == picker_key(key),
{
    let ctrl = key.modifiers.is_control_only();
    match key.code {
        KeyCode::Enter => Some(Action::PickerConfirm),
        KeyCode::Esc => Some(Action::Cancel),
        KeyCode::Backspace => Some(Action::PickerBackspace),
        KeyCode::Up => Some(Action::PickerUp),
        KeyCode::Down => Some(Action::PickerDown),
        KeyCode::Char(c) => if c == 'p' && ctrl {
            Some(Action::PickerUp)
        } else if c == 'n' && ctrl {
            Some(Action::PickerDown)
        } else if !key.modifiers.control {
            Some(Action::PickerInput(c))
        } else {
            None
        },
        _ => None,
    }
}

fn map_fuzzy(key: KeyEvent) -> (r: Option<Action>)
    ensures
        r == fuzzy_key(key),
{
    let ctrl = key.modifiers.is_control_only();
    match key.code {
        KeyCode::Enter => Some(Action::FuzzyConfirm),
        KeyCode::Esc => Some(Action::Cancel),
        KeyCode::Backspace => Some(Action::FuzzyBackspace),
        KeyCode::Up => Some(Action::FuzzyUp),
        KeyCode::Down => Some(Action::FuzzyDown),
        KeyCode::Char(c) => if c == 'p' && ctrl {
            Some(Action::FuzzyUp)
        } else if c == 'n' && ctrl {
            Some(Action::FuzzyDown)
        } else if !key.modifiers.control {
            Some(Action::FuzzyInput(c))
        } else {
            None
        },
        _ => None,
    }
}

fn map_milestone_page(key: KeyEvent) -> (r: Option<Action>)
    ensures
        r == milestone_page_key(key),
{
    let ctrl = key.modifiers.is_control_only();
    match key.code {
        KeyCode::Enter => Some(Action::MsPageSelect),
        KeyCode::Esc => Some(Action::Cancel),
        KeyCode::Backspace => Some(Action::MsPageBackspace),
        KeyCode::Down => Some(Action::MsPageDown),
        KeyCode::Up => Some(Action::MsPageUp),
        KeyCode::PageDown => Some(Action::MsPagePage(Direction::Down)),
        KeyCode::PageUp => Some(Action::MsPagePage(Direction::Up)),
        KeyCode::Home => Some(Action::MsPageTop),
        KeyCode::End => Some(Action::MsPageBottom),
        KeyCode::Tab => Some(Action::MsPageCycleFilter),
        KeyCode::BackTab => Some(Action::MsPageCycleFilterBack),
        KeyCode::Char(c) => if c == 'n' && ctrl {
            Some(Action::MsPageDown)
        } else if c == 'p' && ctrl {
            Some(Action::MsPageUp)
        } else if c == 'G' {
            Some(Action::MsPageBottom)
        } else if c == 'S' {
            Some(Action::MsPageCycleSort)
        } else if c == 'E' {
            Some(Action::MsPageEdit)
        } else if c == 'N' {
            Some(Action::MsPageNew)
        } else if c == 'C' {
            Some(Action::MsPageCycleStatus)
        } else if !key.modifiers.control {
            Some(Action::MsPageInput(c))
        } else {
            None
        },
        _ => None,
    }
}

fn map_project_page(key: KeyEvent) -> (r: Option<Action>)
    ensures
        r == project_page_key(key),
{
    let ctrl = key.modifiers.is_control_only();
    match key.code {
        KeyCode::Enter => Some(Action::ProjPageSelect),
        KeyCode::Esc => Some(Action::Cancel),
        KeyCode::Backspace => Some(Action::ProjPageBackspace),
        KeyCode::Down => Some(Action::ProjPageDown),
        KeyCode::Up => Some(Action::ProjPageUp),
        KeyCode::PageDown => Some(Action::ProjPagePage(Direction::Down)),
        KeyCode::PageUp => Some(Action::ProjPagePage(Direction::Up)),
        KeyCode::Home => Some(Action::ProjPageTop),
        KeyCode::End => Some(Action::ProjPageBottom),
        KeyCode::Tab => Some(Action::ProjPageCycleFilter),
        KeyCode::BackTab => Some(Action::ProjPageCycleFilterBack),
        KeyCode::Char(c) => if c == 'n' && ctrl {
            Some(Action::ProjPageDown)
        } else if c == 'p' && ctrl {
            Some(Action::ProjPageUp)
        } else if c == 'G' {
            Some(Action::ProjPageBottom)
        } else if c == 'S' {
            Some(Action::ProjPageCycleSort)
        } else if c == 'E' {
            Some(Action::ProjPageEdit)
        } else if c == 'N' {
            Some(Action::ProjPageNew)
        } else if c == 'A' {
            Some(Action::ProjPageArchiveRequest)
        } else if !key.modifiers.control {
            Some(Action::ProjPageInput(c))
        } else {
            None
        },
        _ => None,
    }
}

fn map_activity_page(key: KeyEvent) -> (r: Option<Action>)
    ensures
        r == activity_page_key(key),
{
    let ctrl = key.modifiers.is_control_only();
    match key.code {
        KeyCode::Enter => Some(Action::ActPageSelect),
        KeyCode::Esc => Some(Action::Cancel),
        KeyCode::Backspace => Some(Action::ActPageBackspace),
        KeyCode::Down => Some(Action::ActPageDown),
        KeyCode::Up => Some(Action::ActPageUp),
        KeyCode::PageDown => Some(Action::ActPagePage(Direction::Down)),
        KeyCode::PageUp => Some(Action::ActPagePage(Direction::Up)),
        KeyCode::Home => Some(Action::ActPageTop),
        KeyCode::End => Some(Action::ActPageBottom),
        KeyCode::Tab => Some(Action::ActPageCycleFilter),
        KeyCode::BackTab => Some(Action::ActPageCycleFilterBack),
        KeyCode::Char(c) => if c == 'n' && ctrl {
            Some(Action::ActPageDown)
        } else if c == 'p' && ctrl {
            Some(Action::ActPageUp)
        } else if c == 'G' {
            Some(Action::ActPageBottom)
        } else if !key.modifiers.control {
            Some(Action::ActPageInput(c))
        } else {
            None
        },
        _ => None,
    }
}

/// The action a key press maps to in the current mode. On the board a lone
/// `g` is remembered (in `app.pending_g`) so that `gg` jumps to the top.
pub fn map_key(key: KeyEvent, app: &mut App) -> (r: Option<Action>)
    ensures
        key_rel(*old(app), *final(app), key, r),
{
    let ctrl_c = match key.code {
        KeyCode::Char(c) => c == 'c' && key.modifiers.control,
        _ => false,
    };
    if ctrl_c {
        return Some(Action::Quit);
    }
    match &app.mode {
        Mode::Normal => map_normal(key, app),
        Mode::AwaitingMove => map_awaiting_move(key),
        Mode::Help => Some(Action::Cancel),
        Mode::Detail(_) => map_detail(key),
        Mode::ConfirmQuit => map_confirm_quit(key),
        Mode::ConfirmArchive(_) => map_confirm_archive(key),
        Mode::ConfirmProjectArchive { .. } => map_confirm_project_archive(key),
        Mode::MilestonePicker(_) => map_picker(key),
        Mode::FuzzyFind(_) => map_fuzzy(key),
        Mode::MilestonePage(_) => map_milestone_page(key),
        Mode::ProjectPage(_) => map_project_page(key),
        Mode::ActivityPage(_) => map_activity_page(key),
    }
}

/// A mouse gesture at a terminal cell (column, row).
#[derive(Debug, Clone, Copy, PartialEq, Eq, Structural)]
pub enum MouseInput {
    ScrollUp(u16, u16),
    ScrollDown(u16, u16),
    Down(u16, u16),
}

/// What the last-drawn frame shows under a cell.
#[derive(Debug, Clone, Copy, PartialEq, Eq)]
pub enum Hit {
    Card { column: ColumnId, idx: usize },
    /// A column's empty space.
    Column(ColumnId),
    /// A row of the open page.
    PageRow(usize),
}

/// What a mouse gesture does, given what is under it: the wheel moves
/// whatever cursor the mode owns; a click focuses a card (and opens the one
/// already focused), lands on a column, or moves the page cursor to a row.
pub open spec fn mouse_action(m: MouseInput, a: App, hit: Option<Hit>) -> Option<Action> {
    match m {
        MouseInput::ScrollUp(_, _) | MouseInput::ScrollDown(_, _) => {
            let down = m is ScrollDown;
            match a.mode {
                Mode::Normal => Some(
                    Action::FocusMove(
                        if down {
                            Direction::Down
                        } else {
                            Direction::Up
                        },
                    ),
                ),
                Mode::MilestonePage(_) => Some(
                    if down {
                        Action::MsPageDown
                    } else {
                        Action::MsPageUp
                    },
                ),
                Mode::ProjectPage(_) => Some(
                    if down {
                        Action::ProjPageDown
                    } else {
                        Action::ProjPageUp
                    },
                ),
                Mode::ActivityPage(_) => Some(
                    if down {
                        Action::ActPageDown
                    } else {
                        Action::ActPageUp
                    },
                ),
                _ => None,
            }
        },
        MouseInput::Down(_, _) => match hit {
            None => None,
            Some(Hit::Card { column, idx }) => match a.mode {
                Mode::Normal => if a.focus.column == column && a.focus.card_idx == idx {
                    Some(Action::OpenDetail)
                } else {
                    Some(Action::FocusCard(column, idx))
                },
                _ => None,
            },
            Some(Hit::Column(col)) => match a.mode {
                Mode::Normal => Some(Action::FocusCard(col, usize::MAX)),
                _ => None,
            },
            Some(Hit::PageRow(i)) => Some(Action::PageCursor(i)),
        },
    }
}

/// Mouse gesture → action, resolved against what the last-drawn frame
/// shows under the gesture (`hit`). Dialogs register no regions, so
/// anything under a dialog is unreachable.
pub fn map_mouse(m: MouseInput, app: &App, hit: Option<Hit>) -> (r: Option<Action>)
    ensures
        r == mouse_action(m, *app, hit),
{
    match m {
        MouseInput::ScrollUp(_, _) | MouseInput::ScrollDown(_, _) => {
            let down = match m {
                MouseInput::ScrollDown(_, _) => true,
                _ => false,
            };
            match &app.mode {
                Mode::Normal => Some(
                    Action::FocusMove(
                        if down {
                            Direction::Down
                        } else {
                            Direction::Up
                        },
                    ),
                ),
                Mode::MilestonePage(_) => Some(
                    if down {
                        Action::MsPageDown
                    } else {
                        Action::MsPageUp
                    },
                ),
                Mode::ProjectPage(_) => Some(
                    if down {
                        Action::ProjPageDown
                    } else {
                        Action::ProjPageUp
                    },
                ),
                Mode::ActivityPage(_) => Some(
                    if down {
                        Action::ActPageDown
                    } else {
                        Action::ActPageUp
                    },
                ),
                _ => None,
            }
        },
        MouseInput::Down(_, _) => match hit {
            None => None,
            Some(Hit::Card { column, idx }) => match &app.mode {
                Mode::Normal => {
                    if app.focus.column.index() == column.index() && app.focus.card_idx == idx {
                        Some(Action::OpenDetail)
                    } else {
                        Some(Action::FocusCard(column, idx))
                    }
                },
                _ => None,
            },
            Some(Hit::Column(col)) => match &app.mode {
                Mode::Normal => Some(Action::FocusCard(col, usize::MAX)),
                _ => None,
            },
            Some(Hit::PageRow(i)) => Some(Action::PageCursor(i)),
        },
    }
}

/// Esc means "back", and the board is already the top level: on the board
/// it does nothing but drop a pending `g`.
pub proof fn law_esc_on_the_board_does_nothing(a: App, b: App, k: KeyEvent, r: Option<Action>)
    requires
        key_rel(a, b, k, r),
        a.mode is Normal,
        k.code == KeyCode::Esc,
    ensures
        r is None,
        b == (App { pending_g: false, ..a }),
{
}

/// Ctrl-C quits from every mode, without a confirmation and without
/// touching the app.
pub proof fn law_ctrl_c_quits(a: App, b: App, k: KeyEvent, r: Option<Action>)
    requires
        key_rel(a, b, k, r),
        k.code == KeyCode::Char('c'),
        k.modifiers.control,
    ensures
        r == Some(Action::Quit),
        b == a,
{
}

/// Keys never change the app beyond the board's pending `g`.
pub proof fn law_keys_only_touch_pending_g(a: App, b: App, k: KeyEvent, r: Option<Action>)
    requires
        key_rel(a, b, k, r),
    ensures
        b == (App { pending_g: b.pending_g, ..a }),
        !(a.mode is Normal) ==> b == a,
{
}

/// On the board, `g` then `g` jumps to the top; the first `g` alone does
/// nothing but arm the second.
pub proof fn law_gg_jumps_to_top(a: App, b: App, c: App, g: KeyEvent, r1: Option<Action>, r2: Option<Action>)
    requires
        a.mode is Normal,
        !a.pending_g,
        g.code == KeyCode::Char('g'),
        g.modifiers == no_mods(),
        key_rel(a, b, g, r1),
        key_rel(b, c, g, r2),
    ensures
        r1 is None,
        b.pending_g,
        r2 == Some(Action::JumpToTop),
        !c.pending_g,
{
}

} // verus!
