//! The decisions of the blocking list picker (the tenant picker): which key
//! does what, and where the cursor goes. The picker's loop, which draws and
//! waits for keys, lives with the terminal code.

use vstd::prelude::*;

use crate::keys::{KeyCode, KeyEvent};

verus! {

/// What a key asks of the picker.
#[derive(Debug, Clone, Copy, PartialEq, Eq, Structural)]
pub enum Move {
    Up,
    Down,
    Accept,
    Cancel,
}

/// Ctrl-C, Esc and `q` decline; Enter picks; arrows and j/k move.
pub open spec fn move_for(key: KeyEvent) -> Option<Move> {
    match key.code {
        KeyCode::Char(c) => if c == 'c' && key.modifiers.control {
            Some(Move::Cancel)
        } else if c == 'k' {
            Some(Move::Up)
        } else if c == 'j' {
            Some(Move::Down)
        } else if c == 'q' {
            Some(Move::Cancel)
        } else {
            None
        },
        KeyCode::Up => Some(Move::Up),
        KeyCode::Down => Some(Move::Down),
        KeyCode::Enter => Some(Move::Accept),
        KeyCode::Esc => Some(Move::Cancel),
        _ => None,
    }
}

pub fn action(key: KeyEvent) -> (r: Option<Move>)
    ensures
        r == move_for(key),
{
    match key.code {
        KeyCode::Char(c) => if c == 'c' && key.modifiers.control {
            Some(Move::Cancel)
        } else if c == 'k' {
            Some(Move::Up)
        } else if c == 'j' {
            Some(Move::Down)
        } else if c == 'q' {
            Some(Move::Cancel)
        } else {
            None
        },
        KeyCode::Up => Some(Move::Up),
        KeyCode::Down => Some(Move::Down),
        KeyCode::Enter => Some(Move::Accept),
        KeyCode::Esc => Some(Move::Cancel),
        _ => None,
    }
}

/// Where a pick stands after one key.
#[derive(Debug, Clone, Copy, PartialEq, Eq, Structural)]
pub enum PickStep {
    /// Still choosing, with the cursor here.
    Choosing(usize),
    /// The item at this index was picked.
    Picked(usize),
    /// The user declined.
    Declined,
}

/// Where a pick over `len` items begins: an empty list is declined at
/// once, without reading a key; any other starts on the first item.
pub fn begin(len: usize) -> (r: PickStep)
    ensures
        r == (if len == 0 {
            PickStep::Declined
        } else {
            PickStep::Choosing(0)
        }),
{
    if len == 0 {
        PickStep::Declined
    } else {
        PickStep::Choosing(0)
    }
}

/// One key's effect on a pick over `len` items with the cursor at `cursor`:
/// up and down move within the list (stopping at its ends), Enter picks
/// the cursor's item, cancel declines, other keys change nothing.
pub open spec fn pick_step(cursor: int, len: int, m: Option<Move>) -> PickStep {
    match m {
        Some(Move::Up) => PickStep::Choosing(if cursor > 0 {
            (cursor - 1) as usize
        } else {
            0
        }),
        Some(Move::Down) => PickStep::Choosing(
            if cursor + 1 < len {
                (cursor + 1) as usize
            } else if len > 0 {
                (len - 1) as usize
            } else {
                0
            },
        ),
        Some(Move::Accept) => PickStep::Picked(cursor as usize),
        Some(Move::Cancel) => PickStep::Declined,
        None => PickStep::Choosing(cursor as usize),
    }
}

pub fn step(cursor: usize, len: usize, m: Option<Move>) -> (r: PickStep)
    ensures
        r == pick_step(cursor as int, len as int, m),
{
    match m {
        Some(Move::Up) => PickStep::Choosing(if cursor > 0 {
            cursor - 1
        } else {
            0
        }),
        Some(Move::Down) => {
            let last = if len > 0 {
                len - 1
            } else {
                0
            };
            PickStep::Choosing(if cursor < last {
                cursor + 1
            } else {
                last
            })
        },
        Some(Move::Accept) => PickStep::Picked(cursor),
        Some(Move::Cancel) => PickStep::Declined,
        None => PickStep::Choosing(cursor),
    }
}

/// A pick over a non-empty list that starts on the first item never
/// leaves the list: every step keeps the cursor on an item, and a pick
/// names one.
pub proof fn law_pick_stays_in_list(cursor: int, len: int, m: Option<Move>)
    requires
        0 <= cursor < len,
    ensures
        pick_step(cursor, len, m) matches PickStep::Choosing(c) ==> c < len,
        pick_step(cursor, len, m) matches PickStep::Picked(i) ==> i < len,
{
}

} // verus!
