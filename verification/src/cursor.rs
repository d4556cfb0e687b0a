//! The cursor-lock state machine: mouse look and movement are only active while
//! the window has grabbed (locked) the cursor.

use vstd::prelude::*;

verus! {

/// Whether the window has captured the cursor for look control.
#[derive(Clone, Copy, Debug, PartialEq, Eq, Structural)]
pub enum GrabMode {
    Unlocked,
    Locked,
}

/// The primary window's cursor state.
#[derive(Clone, Copy, Debug, PartialEq, Eq, Structural)]
pub struct CursorState {
    pub mode: GrabMode,
    pub visible: bool,
}

impl CursorState {
    /// The state before any input: unlocked, with the cursor shown.
    pub fn startup() -> (c: CursorState)
        ensures
            c.mode == GrabMode::Unlocked,
            c.visible,
    {
        CursorState { mode: GrabMode::Unlocked, visible: true }
    }

    /// One tick of the lock state machine: a primary-button press-edge locks the
    /// cursor and hides it; an escape press-edge unlocks it and shows it again.
    /// When both edges arrive on the same tick the escape release wins.
    pub fn grab_cursor(&mut self, lock_click: bool, escape: bool)
        ensures
            final(self).mode == (if escape {
                GrabMode::Unlocked
            } else if lock_click {
                GrabMode::Locked
            } else {
                old(self).mode
            }),
            final(self).visible == (if escape {
                true
            } else if lock_click {
                false
            } else {
                old(self).visible
            }),
    {
        if lock_click {
            self.mode = GrabMode::Locked;
            self.visible = false;
        }
        if escape {
            self.mode = GrabMode::Unlocked;
            self.visible = true;
        }
    }
}

} // verus!
