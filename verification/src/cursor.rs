//! Cursor capture state machine.
//!
//! The pointer is either released or grabbed.  A primary-button press
//! while released grabs it (the window should lock and hide the pointer);
//! a cancel press while grabbed releases it (the window should unlock and
//! show the pointer).  Everything else leaves the state alone.  Only while
//! grabbed do mouse deltas drive the orientation controller.

use vstd::prelude::*;

verus! {

/// Whether mouse-delta events are meaningful this frame.
#[derive(Clone, Copy, PartialEq, Eq, Structural, Debug)]
pub enum CursorMode {
    Released,
    Grabbed,
}

/// A command for the window that owns the pointer.
#[derive(Clone, Copy, PartialEq, Eq, Structural, Debug)]
pub enum PointerAction {
    /// Lock the pointer to the window and hide it.
    LockAndHide,
    /// Free the pointer and show it.
    UnlockAndShow,
}

/// One step of the capture machine: the grab check runs before the
/// release check, so a frame with both presses ends released.
pub open spec fn spec_cursor_step(mode: CursorMode, interact: bool, cancel: bool) -> (
    CursorMode,
    Option<PointerAction>,
) {
    let (grabbed_mode, grab_action): (CursorMode, Option<PointerAction>) = if mode
        == CursorMode::Released && interact {
        (CursorMode::Grabbed, Some(PointerAction::LockAndHide))
    } else {
        (mode, None)
    };
    if grabbed_mode == CursorMode::Grabbed && cancel {
        (CursorMode::Released, Some(PointerAction::UnlockAndShow))
    } else {
        (grabbed_mode, grab_action)
    }
}

/// Advances the capture machine by one frame.  `interact` is true when
/// the primary mouse button was newly pressed this frame, `cancel` when
/// the cancel key was.  Returns the pointer command the window must
/// apply, if any.
pub fn cursor_step(mode: CursorMode, interact: bool, cancel: bool) -> (r: (
    CursorMode,
    Option<PointerAction>,
))
    ensures
        r == spec_cursor_step(mode, interact, cancel),
        mode == CursorMode::Released && interact && !cancel ==> r.0 == CursorMode::Grabbed,
        mode == CursorMode::Grabbed && cancel ==> r.0 == CursorMode::Released,
        !interact && !cancel ==> r.0 == mode && r.1.is_none(),
{
    let mut next: CursorMode = mode;
    let mut action: Option<PointerAction> = None;
    if matches!(next, CursorMode::Released) && interact {
        next = CursorMode::Grabbed;
        action = Some(PointerAction::LockAndHide);
    }
    if matches!(next, CursorMode::Grabbed) && cancel {
        next = CursorMode::Released;
        action = Some(PointerAction::UnlockAndShow);
    }
    (next, action)
}

} // verus!
