//! What the event loop receives: key presses, resizes, data-changed
//! notices, and idle ticks.

use vstd::prelude::*;

use crate::keys::KeyEvent;

verus! {

/// One app-level input event delivered to the event loop.
#[derive(Debug, Clone, Copy, PartialEq, Eq, Structural)]
pub enum SessionEvent {
    Key(KeyEvent),
    /// The terminal was resized to (cols, rows).
    Resize(u16, u16),
    /// The board's data changed outside this session: re-query, then redraw.
    Refresh,
    /// Nothing happened within the poll timeout.
    Tick,
}

} // verus!
