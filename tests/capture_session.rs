use quick_capture::capture::{CloseAction, QuickCapture};
use quick_capture::focus::{AppIdentity, FocusTracker};
use quick_capture::settings::{settings_or_default, Settings, DEFAULT_SHORTCUT};
use quick_capture::window::{get_mouse_position, window_top_left, CaptureWindow, ShowAction, WindowController};

fn app(id: &str, pid: i32) -> AppIdentity {
    AppIdentity { bundle_id: id.to_string(), pid }
}

#[test]
fn top_left_at_cursor() {
    assert_eq!(window_top_left(500, 300, 420, 66), (290, 267));
    assert_eq!(window_top_left(0, 0, 421, 67), (-210, -33));
}

#[test]
fn first_show_creates_at_cursor() {
    let mut w = WindowController::new();
    assert_eq!(
        w.show_at_cursor(Some((500, 300))),
        ShowAction::Create { x: 290, y: 267, width: 420, height: 66 }
    );
    assert_eq!(w.window(), Some(CaptureWindow { x: 290, y: 267, width: 420, height: 66 }));
}

#[test]
fn second_show_moves_same_window() {
    let mut w = WindowController::new();
    w.show_at_cursor(Some((500, 300)));
    assert_eq!(w.show_at_cursor(Some((1000, 800))), ShowAction::Reposition { x: 790, y: 767 });
    assert_eq!(w.window(), Some(CaptureWindow { x: 790, y: 767, width: 420, height: 66 }));
}

#[test]
fn unreadable_cursor_uses_fallback() {
    assert_eq!(get_mouse_position(None), (100, 100));
    assert_eq!(get_mouse_position(Some((7, 8))), (7, 8));
    let mut w = WindowController::new();
    assert_eq!(
        w.show_at_cursor(None),
        ShowAction::Create { x: -110, y: 67, width: 420, height: 66 }
    );
}

#[test]
fn resize_only_when_window_exists() {
    let mut w = WindowController::new();
    assert!(!w.resize(600, 200));
    assert_eq!(w.window(), None);
    w.show_at_cursor(Some((500, 300)));
    assert!(w.resize(600, 200));
    assert_eq!(w.window(), Some(CaptureWindow { x: 290, y: 267, width: 600, height: 200 }));
    assert_eq!(w.show_at_cursor(Some((500, 300))), ShowAction::Reposition { x: 200, y: 200 });
}

#[test]
fn failed_creation_forgets_window() {
    let mut w = WindowController::new();
    w.show_at_cursor(Some((500, 300)));
    w.creation_failed();
    assert_eq!(w.window(), None);
    assert_eq!(
        w.show_at_cursor(Some((500, 300))),
        ShowAction::Create { x: 290, y: 267, width: 420, height: 66 }
    );
}

#[test]
fn close_without_window_is_no_op() {
    let mut w = WindowController::new();
    assert!(!w.close());
    w.show_at_cursor(Some((1, 1)));
    assert!(w.close());
    assert_eq!(w.window(), None);
}

#[test]
fn self_capture_keeps_snapshot() {
    let mut f = FocusTracker::new("com.example.capture".to_string());
    f.capture_previous_app(Some(app("com.example.capture", 1)));
    assert_eq!(f.pending_pid(), None);
    f.capture_previous_app(Some(app("com.apple.Safari", 42)));
    f.capture_previous_app(Some(app("com.example.capture", 1)));
    assert_eq!(f.pending_pid(), Some(42));
    f.capture_previous_app(None);
    assert_eq!(f.pending_pid(), Some(42));
}

#[test]
fn recapture_overwrites() {
    let mut f = FocusTracker::new("com.example.capture".to_string());
    f.capture_previous_app(Some(app("com.apple.Safari", 42)));
    f.capture_previous_app(Some(app("com.apple.Terminal", 7)));
    assert_eq!(f.restore_previous_app(), Some(7));
}

#[test]
fn restore_consumes_once() {
    let mut f = FocusTracker::new("com.example.capture".to_string());
    f.capture_previous_app(Some(app("com.apple.Safari", 42)));
    assert_eq!(f.restore_previous_app(), Some(42));
    assert_eq!(f.restore_previous_app(), None);
    assert_eq!(f.pending_pid(), None);
}

#[test]
fn session_show_then_close() {
    let mut qc = QuickCapture::new("com.example.capture".to_string());
    let a = qc.show_quick_capture_window(Some(app("com.apple.Notes", 9)), Some((500, 300)));
    assert_eq!(a, ShowAction::Create { x: 290, y: 267, width: 420, height: 66 });
    let b = qc.show_quick_capture_window(Some(app("com.example.capture", 1)), Some((600, 400)));
    assert_eq!(b, ShowAction::Reposition { x: 390, y: 367 });
    assert_eq!(qc.close_quick_capture(), CloseAction { close_window: true, activate_pid: Some(9) });
    assert_eq!(qc.close_quick_capture(), CloseAction { close_window: false, activate_pid: None });
}

#[test]
fn settings_default_shortcut() {
    assert_eq!(Settings::default().shortcut, "Command+Option+N");
    assert_eq!(DEFAULT_SHORTCUT, "Command+Option+N");
    assert_eq!(settings_or_default(None).shortcut, DEFAULT_SHORTCUT);
    let s = Settings { shortcut: "Ctrl+K".to_string() };
    assert_eq!(settings_or_default(Some(s)).shortcut, "Ctrl+K");
}
