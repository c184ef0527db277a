//! The quick-capture session: showing the window remembers the application
//! in front first, and closing it gives the focus back.
use vstd::prelude::*;
use crate::focus::{AppIdentity, FocusTracker, activation_of, capture_step};
use crate::window::{ShowAction, WindowController, cursor_spec, show_step};

verus! {

/// What is asked of the system when the capture window is closed.
#[derive(Clone, Copy, Debug, PartialEq, Eq, Structural)]
pub struct CloseAction {
    /// Whether there is a window to close.
    pub close_window: bool,
    /// The process to bring back to the front, if any.
    pub activate_pid: Option<i32>,
}

/// The capture window and the focus remembered for it.
pub struct QuickCapture {
    pub window: WindowController,
    pub focus: FocusTracker,
}

impl QuickCapture {
    /// A session for the application `own_id`, with no window and nothing
    /// remembered.
    pub fn new(own_id: String) -> (r: QuickCapture)
        ensures
            r.window@ is None,
            r.focus.own_id() == own_id@,
            r.focus.snapshot() is None,
    {
        QuickCapture { window: WindowController::new(), focus: FocusTracker::new(own_id) }
    }

    /// Remembers the application in front, then shows the window at the
    /// cursor. `frontmost` is the application found in front and `cursor`
    /// the cursor position, each `None` where it could not be read.
    pub fn show_quick_capture_window(
        &mut self,
        frontmost: Option<AppIdentity>,
        cursor: Option<(i32, i32)>,
    ) -> (r: ShowAction)
        ensures
            final(self).focus.own_id() == old(self).focus.own_id(),
            final(self).focus.snapshot() == capture_step(
                old(self).focus.snapshot(),
                old(self).focus.own_id(),
                frontmost,
            ),
            (final(self).window@, r) == show_step(old(self).window@, cursor_spec(cursor)),
    {
        self.focus.capture_previous_app(frontmost);
        self.window.show_at_cursor(cursor)
    }

    /// Closes the window if there is one, and in every case consumes the
    /// remembered focus.
    pub fn close_quick_capture(&mut self) -> (r: CloseAction)
        ensures
            final(self).window@ is None,
            final(self).focus.own_id() == old(self).focus.own_id(),
            final(self).focus.snapshot() is None,
            r.close_window == (old(self).window@ is Some),
            r.activate_pid == activation_of(old(self).focus.snapshot(), old(self).focus.own_id()),
    {
        let close_window = self.window.close();
        let activate_pid = self.focus.restore_previous_app();
        CloseAction { close_window, activate_pid }
    }
}

} // verus!
