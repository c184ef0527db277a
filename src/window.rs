//! The capture window controller: where the one capture window stands and
//! what the windowing system is asked to do with it.
use vstd::prelude::*;

verus! {

/// Width of a newly created capture window, in logical pixels; it leaves
/// room for the padding around the rounded corners.
pub const QUICK_CAPTURE_COMPACT_WIDTH: u32 = 420;

/// Height of a newly created capture window, in logical pixels.
pub const QUICK_CAPTURE_COMPACT_HEIGHT: u32 = 66;

/// Where the cursor is taken to be when its position cannot be read.
pub const FALLBACK_CURSOR_X: i32 = 100;

/// Where the cursor is taken to be when its position cannot be read.
pub const FALLBACK_CURSOR_Y: i32 = 100;

/// The capture window as it stands: its top-left corner and its size.
#[derive(Clone, Copy, Debug, PartialEq, Eq, Structural)]
pub struct CaptureWindow {
    pub x: i64,
    pub y: i64,
    pub width: u32,
    pub height: u32,
}

/// What the windowing system is asked to do to show the capture window.
#[derive(Clone, Copy, Debug, PartialEq, Eq, Structural)]
pub enum ShowAction {
    /// Create the window, without decorations, not resizable, above other
    /// windows, out of the task bar, transparent and focused.
    Create { x: i64, y: i64, width: u32, height: u32 },
    /// Move the existing window, show it and focus it.
    Reposition { x: i64, y: i64 },
}

/// The coordinate of a window's edge that centres it, along one axis, on
/// the cursor.
pub open spec fn centred_on(cursor: int, size: int) -> int {
    cursor - size / 2
}

/// The cursor position read, or the fallback where it could not be read.
pub open spec fn cursor_spec(read: Option<(i32, i32)>) -> (i32, i32) {
    match read {
        Some(p) => p,
        None => (FALLBACK_CURSOR_X, FALLBACK_CURSOR_Y),
    }
}

/// The window, and the action asked for, once the window is shown at
/// `cursor`: created with the default size when there is none, else moved
/// with its size kept.
pub open spec fn show_step(w: Option<CaptureWindow>, cursor: (i32, i32)) -> (
    Option<CaptureWindow>,
    ShowAction,
) {
    match w {
        None => {
            let x = centred_on(cursor.0 as int, QUICK_CAPTURE_COMPACT_WIDTH as int) as i64;
            let y = centred_on(cursor.1 as int, QUICK_CAPTURE_COMPACT_HEIGHT as int) as i64;
            (
                Some(
                    CaptureWindow {
                        x,
                        y,
                        width: QUICK_CAPTURE_COMPACT_WIDTH,
                        height: QUICK_CAPTURE_COMPACT_HEIGHT,
                    },
                ),
                ShowAction::Create {
                    x,
                    y,
                    width: QUICK_CAPTURE_COMPACT_WIDTH,
                    height: QUICK_CAPTURE_COMPACT_HEIGHT,
                },
            )
        },
        Some(cw) => {
            let x = centred_on(cursor.0 as int, cw.width as int) as i64;
            let y = centred_on(cursor.1 as int, cw.height as int) as i64;
            (Some(CaptureWindow { x, y, ..cw }), ShowAction::Reposition { x, y })
        },
    }
}

/// The cursor position read, or the fallback where it could not be read.
pub fn get_mouse_position(read: Option<(i32, i32)>) -> (r: (i32, i32))
    ensures
        r == cursor_spec(read),
{
    match read {
        Some(p) => p,
        None => (FALLBACK_CURSOR_X, FALLBACK_CURSOR_Y),
    }
}

/// The top-left corner of a window of the given size centred on the cursor.
pub fn window_top_left(cursor_x: i32, cursor_y: i32, width: u32, height: u32) -> (r: (i64, i64))
    ensures
        r.0 == centred_on(cursor_x as int, width as int),
        r.1 == centred_on(cursor_y as int, height as int),
{
    ((cursor_x as i64) - ((width / 2) as i64), (cursor_y as i64) - ((height / 2) as i64))
}

/// Keeps track of the one capture window.
pub struct WindowController {
    window: Option<CaptureWindow>,
}

impl View for WindowController {
    type V = Option<CaptureWindow>;

    closed spec fn view(&self) -> Option<CaptureWindow> {
        self.window
    }
}

impl WindowController {
    /// A controller with no window yet.
    pub fn new() -> (r: WindowController)
        ensures
            r@ is None,
    {
        WindowController { window: None }
    }

    /// The window as it stands, if there is one.
    pub fn window(&self) -> (r: Option<CaptureWindow>)
        ensures
            r == self@,
    {
        self.window
    }

    /// Shows the window centred on the cursor (or on the fallback position
    /// where the cursor could not be read): creates it if there is none,
    /// else moves the existing one.
    pub fn show_at_cursor(&mut self, read: Option<(i32, i32)>) -> (r: ShowAction)
        ensures
            (final(self)@, r) == show_step(old(self)@, cursor_spec(read)),
    {
        let (cx, cy) = get_mouse_position(read);
        match self.window {
            None => {
                let (x, y) = window_top_left(
                    cx,
                    cy,
                    QUICK_CAPTURE_COMPACT_WIDTH,
                    QUICK_CAPTURE_COMPACT_HEIGHT,
                );
                self.window = Some(
                    CaptureWindow {
                        x,
                        y,
                        width: QUICK_CAPTURE_COMPACT_WIDTH,
                        height: QUICK_CAPTURE_COMPACT_HEIGHT,
                    },
                );
                ShowAction::Create {
                    x,
                    y,
                    width: QUICK_CAPTURE_COMPACT_WIDTH,
                    height: QUICK_CAPTURE_COMPACT_HEIGHT,
                }
            },
            Some(cw) => {
                let (x, y) = window_top_left(cx, cy, cw.width, cw.height);
                self.window = Some(CaptureWindow { x, y, width: cw.width, height: cw.height });
                ShowAction::Reposition { x, y }
            },
        }
    }

    /// Records that the windowing system refused to create the window.
    pub fn creation_failed(&mut self)
        ensures
            final(self)@ is None,
    {
        self.window = None;
    }

    /// Resizes the window if there is one; returns whether there was.
    pub fn resize(&mut self, width: u32, height: u32) -> (r: bool)
        ensures
            r == (old(self)@ is Some),
            match old(self)@ {
                Some(cw) => final(self)@ == Some(CaptureWindow { width, height, ..cw }),
                None => final(self)@ is None,
            },
    {
        match self.window {
            Some(cw) => {
                self.window = Some(CaptureWindow { x: cw.x, y: cw.y, width, height });
                true
            },
            None => false,
        }
    }

    /// Closes the window if there is one; returns whether there was.
    pub fn close(&mut self) -> (r: bool)
        ensures
            r == (old(self)@ is Some),
            final(self)@ is None,
    {
        let had = self.window.is_some();
        self.window = None;
        had
    }
}

/// Showing the window when there is none creates it; showing it again
/// creates no second one but moves the same window to the new cursor.
pub proof fn lemma_show_creates_once(first: (i32, i32), second: (i32, i32))
    ensures
        show_step(None, first).1 is Create,
        show_step(None, first).0 is Some,
        show_step(show_step(None, first).0, second).1 == (ShowAction::Reposition {
            x: centred_on(second.0 as int, QUICK_CAPTURE_COMPACT_WIDTH as int) as i64,
            y: centred_on(second.1 as int, QUICK_CAPTURE_COMPACT_HEIGHT as int) as i64,
        }),
        show_step(show_step(None, first).0, second).0 == Some(
            CaptureWindow {
                x: centred_on(second.0 as int, QUICK_CAPTURE_COMPACT_WIDTH as int) as i64,
                y: centred_on(second.1 as int, QUICK_CAPTURE_COMPACT_HEIGHT as int) as i64,
                width: QUICK_CAPTURE_COMPACT_WIDTH,
                height: QUICK_CAPTURE_COMPACT_HEIGHT,
            },
        ),
{
}

} // verus!
