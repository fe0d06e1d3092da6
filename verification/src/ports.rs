//! Capability interfaces (ports) consumed by the paste orchestration.
//!
//! Platform adapters implement these outside the library; in-memory fakes
//! implement them in tests.  The orchestrator is verified to produce a
//! faithful outcome whatever answers an implementation returns, so the
//! methods carry no contracts of their own.

use vstd::prelude::*;

verus! {

/// Clipboard operations.
pub trait ClipboardService {
    /// Write text to the system clipboard.
    fn write_text(&self, text: &str) -> Result<(), String>;

    /// Read text back from the system clipboard.
    fn read_text(&self) -> Result<String, String>;
}

/// Key codes for input simulation.
#[derive(Debug, Clone, Copy, PartialEq, Eq, Structural)]
pub enum KeyCode {
    Control,
    V,
}

/// Keyboard input simulation.
pub trait InputSimulator {
    /// Cause the focused external window to perform a paste action.
    fn simulate_paste(&self) -> Result<(), String>;

    /// Simulate an arbitrary key combination.
    fn simulate_keys(&self, keys: &[KeyCode]) -> Result<(), String>;
}

/// Window focus management.
pub trait WindowManager {
    /// Remember the currently focused window.
    fn remember_current_window(&self) -> Result<(), String>;

    /// Restore focus to the previously remembered window.
    fn restore_previous_window(&self) -> Result<(), String>;

    /// Forget the remembered window.
    fn clear_saved_window(&self);
}

/// Suspension of the current task for a fixed number of milliseconds.
///
/// The orchestrator's settle delays go through this port so that callers can
/// supply a scheduler-friendly sleep, and tests a zero-delay clock.
pub trait DelayService {
    /// Pause for `ms` milliseconds.
    fn delay_ms(&self, ms: u64);
}

} // verus!
