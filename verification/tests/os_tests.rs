use std::sync::Mutex;

use prompter::focus::WindowsFocusTracker;
use prompter::paste::{PastePromptUseCase, ShowWindowUseCase};
use prompter::ports::{ClipboardService, DelayService, InputSimulator, KeyCode, WindowManager};

struct MockWindowManager {
    remembered: Mutex<bool>,
}

impl MockWindowManager {
    fn new() -> Self {
        Self { remembered: Mutex::new(false) }
    }
}

impl WindowManager for MockWindowManager {
    fn remember_current_window(&self) -> Result<(), String> {
        *self.remembered.lock().unwrap() = true;
        Ok(())
    }

    fn restore_previous_window(&self) -> Result<(), String> {
        if *self.remembered.lock().unwrap() {
            Ok(())
        } else {
            Err("No window remembered".to_string())
        }
    }

    fn clear_saved_window(&self) {
        *self.remembered.lock().unwrap() = false;
    }
}

struct MockClipboardService;

impl ClipboardService for MockClipboardService {
    fn write_text(&self, _text: &str) -> Result<(), String> {
        Ok(())
    }

    fn read_text(&self) -> Result<String, String> {
        Ok("test".to_string())
    }
}

struct MockInputSimulator;

impl InputSimulator for MockInputSimulator {
    fn simulate_paste(&self) -> Result<(), String> {
        Ok(())
    }

    fn simulate_keys(&self, _keys: &[KeyCode]) -> Result<(), String> {
        Ok(())
    }
}

struct NoDelay;

impl DelayService for NoDelay {
    fn delay_ms(&self, _ms: u64) {}
}

#[test]
fn test_window_manager_remember_and_restore() {
    let wm = MockWindowManager::new();
    assert!(wm.remember_current_window().is_ok());
    assert!(wm.restore_previous_window().is_ok());
}

#[test]
fn test_window_manager_restore_without_remember_fails() {
    let wm = MockWindowManager::new();
    assert!(wm.restore_previous_window().is_err());
}

#[test]
fn test_clipboard_write_and_read() {
    let clipboard = MockClipboardService;
    assert!(clipboard.write_text("test").is_ok());
    assert_eq!(clipboard.read_text().unwrap(), "test");
}

#[test]
fn test_input_simulator_paste() {
    let simulator = MockInputSimulator;
    assert!(simulator.simulate_paste().is_ok());
}

#[test]
fn test_paste_prompt_use_case() {
    let clipboard = MockClipboardService;
    let window_manager = MockWindowManager::new();
    let input_simulator = MockInputSimulator;

    // Remember a window first.
    window_manager.remember_current_window().unwrap();

    let use_case = PastePromptUseCase::new(clipboard, window_manager, input_simulator, NoDelay);

    let result = use_case.execute("test text", true);
    assert!(result.is_ok());
}

#[test]
fn test_show_window_use_case() {
    let window_manager = MockWindowManager::new();
    let use_case = ShowWindowUseCase::new(window_manager);

    assert!(use_case.execute().is_ok());
}

#[test]
fn test_windows_focus_tracker_remember() {
    let tracker = WindowsFocusTracker::new();
    // This will only work when a window is actually focused.
    let result = tracker.remember_current_window();
    // Don't assert on result as it depends on actual window state.
    println!("Remember result: {:?}", result);
}

#[test]
fn test_restore_focus_after_hide() {
    let wm = MockWindowManager::new();
    wm.remember_current_window().unwrap();
    assert!(prompter::paste::restore_focus_after_hide(&wm).is_ok());
    // The remembered window was cleared, so a second restore fails.
    assert!(prompter::paste::restore_focus_after_hide(&wm).is_err());
}
