use prompter::inject::{injection_outcome, StrategyResults};
use prompter::outcome::{clipboard_failure_outcome, success_outcome};
use prompter::paste::PastePromptUseCase;
use prompter::ports::{ClipboardService, DelayService, InputSimulator, KeyCode, WindowManager};

struct FakeClipboard {
    write_ok: bool,
}

impl ClipboardService for FakeClipboard {
    fn write_text(&self, _text: &str) -> Result<(), String> {
        if self.write_ok {
            Ok(())
        } else {
            Err("denied".to_string())
        }
    }

    fn read_text(&self) -> Result<String, String> {
        Ok("whatever".to_string())
    }
}

struct FakeWindowManager {
    restore_ok: bool,
}

impl WindowManager for FakeWindowManager {
    fn remember_current_window(&self) -> Result<(), String> {
        Ok(())
    }

    fn restore_previous_window(&self) -> Result<(), String> {
        if self.restore_ok {
            Ok(())
        } else {
            Err("focus rejected".to_string())
        }
    }

    fn clear_saved_window(&self) {}
}

/// An injector whose three strategies all report the given results; its
/// overall answer is the library's own aggregation of them.
struct FakeInjector {
    strategies: StrategyResults,
}

impl InputSimulator for FakeInjector {
    fn simulate_paste(&self) -> Result<(), String> {
        match injection_outcome(&self.strategies) {
            Ok(()) => Ok(()),
            Err(_) => Err("all strategies failed".to_string()),
        }
    }

    fn simulate_keys(&self, _keys: &[KeyCode]) -> Result<(), String> {
        Ok(())
    }
}

struct NoDelay;

impl DelayService for NoDelay {
    fn delay_ms(&self, _ms: u64) {}
}

fn run(
    write_ok: bool,
    restore_ok: bool,
    strategies: StrategyResults,
    auto_paste: bool,
) -> prompter::outcome::CopyPasteResult {
    let use_case = PastePromptUseCase::new(
        FakeClipboard { write_ok },
        FakeWindowManager { restore_ok },
        FakeInjector { strategies },
        NoDelay,
    );
    use_case.execute("hello", auto_paste).unwrap()
}

fn all_ok() -> StrategyResults {
    StrategyResults { synthesized_input: true, direct_messages: true, paste_command: true }
}

fn all_fail() -> StrategyResults {
    StrategyResults { synthesized_input: false, direct_messages: false, paste_command: false }
}

#[test]
fn test_clipboard_write_failure_is_fatal() {
    let o = run(false, true, all_ok(), true);
    assert!(!o.clipboard_success);
    assert!(!o.paste_attempted);
    assert!(!o.paste_likely_success);
    assert_eq!(o.message, "Failed to copy to clipboard: denied");
}

#[test]
fn test_no_auto_paste_copies_only() {
    let o = run(true, true, all_ok(), false);
    assert!(o.clipboard_success);
    assert!(!o.paste_attempted);
    assert!(!o.paste_likely_success);
    assert_eq!(o.message, "Copied to clipboard");
}

#[test]
fn test_focus_failure_never_claims_success() {
    // Even with every injection strategy reporting success, a failed focus
    // restore keeps the outcome conservative.
    let o = run(true, false, all_ok(), true);
    assert!(o.clipboard_success);
    assert!(o.paste_attempted);
    assert!(!o.paste_likely_success);
    assert_eq!(o.message, "Copied to clipboard - press Ctrl+V to paste");
}

#[test]
fn test_all_strategies_failing_is_attempted_but_unsure() {
    let o = run(true, true, all_fail(), true);
    assert!(o.clipboard_success);
    assert!(o.paste_attempted);
    assert!(!o.paste_likely_success);
    assert_eq!(o.message, "Copied to clipboard - press Ctrl+V if not pasted");
}

#[test]
fn test_full_success_path() {
    let o = run(true, true, all_ok(), true);
    assert!(o.clipboard_success);
    assert!(o.paste_attempted);
    assert!(o.paste_likely_success);
    assert_eq!(o.message, "Copied and pasted");
}

#[test]
fn test_one_strategy_is_enough() {
    let one = StrategyResults {
        synthesized_input: false,
        direct_messages: true,
        paste_command: false,
    };
    let o = run(true, true, one, true);
    assert!(o.paste_likely_success);
    assert_eq!(o.message, "Copied and pasted");
}

#[test]
fn test_success_outcome_messages() {
    assert_eq!(success_outcome(false, false, false).message, "Copied to clipboard");
    assert_eq!(success_outcome(true, true, true).message, "Copied and pasted");
    assert_eq!(
        success_outcome(true, false, true).message,
        "Copied to clipboard - press Ctrl+V to paste"
    );
    assert_eq!(
        success_outcome(true, true, false).message,
        "Copied to clipboard - press Ctrl+V if not pasted"
    );
}

#[test]
fn test_clipboard_failure_outcome_message() {
    let o = clipboard_failure_outcome("no access");
    assert!(!o.clipboard_success && !o.paste_attempted && !o.paste_likely_success);
    assert_eq!(o.message, "Failed to copy to clipboard: no access");
}
