use prompter::focus::{
    FocusRegistry, ForegroundInfo, PasteError, ProcessId, WindowHandle, WindowsFocusTracker,
};
use prompter::restore::{RestoreAction, RestoreSession};

fn window(raw: u64) -> WindowHandle {
    WindowHandle { raw }
}

fn foreground(handle: u64, owner: u64) -> ForegroundInfo {
    ForegroundInfo { handle: window(handle), owner: ProcessId { raw: owner } }
}

#[test]
fn test_registry_last_write_wins() {
    let mut registry = FocusRegistry::new();
    registry.remember_current_foreground(Some(window(1))).unwrap();
    registry.remember_current_foreground(Some(window(2))).unwrap();
    registry.remember_current_foreground(Some(window(3))).unwrap();
    assert_eq!(registry.saved_window(), Some(window(3)));
    // A restore started now targets exactly the last remembered handle.
    let session = RestoreSession::start(registry.saved_window());
    assert_eq!(session.required_action(), Some(RestoreAction::ProbeLiveness(window(3))));
}

#[test]
fn test_registry_remember_without_foreground_fails() {
    let mut registry = FocusRegistry::new();
    registry.remember_current_foreground(Some(window(7))).unwrap();
    let r = registry.remember_current_foreground(None);
    assert_eq!(r, Err(PasteError::NoForegroundWindow));
    // The stored handle is untouched.
    assert_eq!(registry.saved_window(), Some(window(7)));
}

#[test]
fn test_remember_if_external_own_window_is_ignored() {
    let mut registry = FocusRegistry::new();
    registry.remember_current_foreground(Some(window(5))).unwrap();
    let own = ProcessId { raw: 42 };
    let r = registry.remember_if_external(Some(foreground(9, 42)), own);
    assert_eq!(r, Ok(false));
    assert_eq!(registry.saved_window(), Some(window(5)));
}

#[test]
fn test_remember_if_external_foreign_window_is_stored() {
    let mut registry = FocusRegistry::new();
    let own = ProcessId { raw: 42 };
    let r = registry.remember_if_external(Some(foreground(9, 1000)), own);
    assert_eq!(r, Ok(true));
    assert_eq!(registry.saved_window(), Some(window(9)));
}

#[test]
fn test_remember_if_external_no_foreground_fails() {
    let mut registry = FocusRegistry::new();
    let own = ProcessId { raw: 42 };
    let r = registry.remember_if_external(None, own);
    assert_eq!(r, Err(PasteError::NoForegroundWindow));
    assert_eq!(registry.saved_window(), None);
}

#[test]
fn test_restore_without_remember_fails_without_os_call() {
    let registry = FocusRegistry::new();
    let session = RestoreSession::start(registry.saved_window());
    // No system call is requested and the outcome is already settled.
    assert_eq!(session.required_action(), None);
    assert_eq!(session.outcome(), Some(Err(PasteError::NoSavedWindow)));
}

#[test]
fn test_clear_then_restore_fails() {
    let mut registry = FocusRegistry::new();
    registry.remember_current_foreground(Some(window(11))).unwrap();
    registry.clear();
    let session = RestoreSession::start(registry.saved_window());
    assert_eq!(session.required_action(), None);
    assert_eq!(session.outcome(), Some(Err(PasteError::NoSavedWindow)));
}

#[test]
fn test_restore_stale_handle() {
    let mut session = RestoreSession::start(Some(window(3)));
    assert_eq!(session.required_action(), Some(RestoreAction::ProbeLiveness(window(3))));
    session.note_liveness(false);
    assert_eq!(session.outcome(), Some(Err(PasteError::StaleWindowHandle)));
}

#[test]
fn test_restore_os_rejected() {
    let mut session = RestoreSession::start(Some(window(3)));
    session.note_liveness(true);
    assert_eq!(session.required_action(), Some(RestoreAction::RequestForeground(window(3))));
    session.note_request(false, 5);
    assert_eq!(session.outcome(), Some(Err(PasteError::OSFocusRejected(5))));
}

#[test]
fn test_restore_verified_on_second_poll() {
    let mut session = RestoreSession::start(Some(window(3)));
    session.note_liveness(true);
    session.note_request(true, 0);
    assert_eq!(session.required_action(), Some(RestoreAction::PollForeground));
    session.note_poll(Some(window(8)));
    assert_eq!(session.outcome(), None);
    session.note_poll(Some(window(3)));
    assert_eq!(session.outcome(), Some(Ok(window(3))));
}

#[test]
fn test_restore_not_verified_after_all_polls() {
    let mut session = RestoreSession::start(Some(window(3)));
    session.note_liveness(true);
    session.note_request(true, 0);
    session.note_poll(None);
    session.note_poll(Some(window(1)));
    session.note_poll(Some(window(2)));
    assert_eq!(session.outcome(), Some(Err(PasteError::FocusNotVerified)));
}

#[test]
fn test_tracker_is_same_process() {
    let own = ProcessId { raw: 7 };
    assert!(WindowsFocusTracker::is_same_process(&foreground(1, 7), own));
    assert!(!WindowsFocusTracker::is_same_process(&foreground(1, 8), own));
}

#[test]
fn test_tracker_remember_if_external() {
    let mut tracker = WindowsFocusTracker::new();
    let own = ProcessId { raw: 7 };
    assert_eq!(tracker.remember_if_external(Some(foreground(21, 9)), own), Ok(true));
    assert_eq!(tracker.saved_window(), Some(window(21)));
    assert_eq!(tracker.remember_if_external(Some(foreground(22, 7)), own), Ok(false));
    assert_eq!(tracker.saved_window(), Some(window(21)));
}
