//! The paste orchestration: clipboard write, verify, focus restore,
//! injected paste, cleanup — one outcome per invocation.
//!
//! Each call is a fresh run; no state survives between invocations.  The
//! clipboard write is the only fatal step.  Every later failure is folded
//! into the outcome's flags and summary instead of being raised: text that
//! reached the clipboard is still useful to the user even when the paste
//! itself could not be delivered.

use vstd::prelude::*;

use crate::outcome::{
    clipboard_failure_outcome, failure_outcome_matches, outcome_wf, success_outcome,
    success_outcome_matches, CopyPasteResult,
};
use crate::ports::{ClipboardService, DelayService, InputSimulator, WindowManager};

verus! {

/// Milliseconds to let the clipboard subsystem settle before the read-back.
pub const CLIPBOARD_SETTLE_MS: u64 = 20;

/// Milliseconds to let the refocused application finish its own
/// focus-change handling before it receives synthesized input.  Layered
/// user-interface frameworks process focus asynchronously and drop input
/// that arrives too early.
pub const TARGET_READY_DELAY_MS: u64 = 100;

/// The paste-prompt use case: copy, restore focus, optionally paste.
pub struct PastePromptUseCase<C, W, I, D> {
    clipboard: C,
    window_manager: W,
    input_simulator: I,
    delays: D,
}

impl<
    C: ClipboardService,
    W: WindowManager,
    I: InputSimulator,
    D: DelayService,
> PastePromptUseCase<C, W, I, D> {
    pub fn new(clipboard: C, window_manager: W, input_simulator: I, delays: D) -> (r:
        PastePromptUseCase<C, W, I, D>) {
        PastePromptUseCase { clipboard, window_manager, input_simulator, delays }
    }

    /// Run one paste orchestration for `text`.
    ///
    /// Always returns an outcome describing best-effort results, never an
    /// error.  Whatever the ports answer: nothing is attempted after a
    /// failed clipboard write, paste is attempted exactly when auto-paste
    /// was requested on a successful write, and without auto-paste the
    /// outcome never claims an attempted or successful paste.
    pub fn execute(&self, text: &str, auto_paste: bool) -> (r: Result<CopyPasteResult, String>)
        ensures
            r is Ok,
            ({
                let o = r->Ok_0;
                &&& outcome_wf(o)
                &&& o.paste_attempted == (auto_paste && o.clipboard_success)
                &&& !auto_paste ==> !o.paste_attempted && !o.paste_likely_success
                &&& o.clipboard_success ==> exists|focus_restored: bool, paste_ok: bool|
                    success_outcome_matches(o, auto_paste, focus_restored, paste_ok)
                &&& !o.clipboard_success ==> exists|detail: Seq<char>|
                    failure_outcome_matches(o, detail)
            }),
    {
        // Step 1: write the text to the clipboard — the only fatal step.
        match self.clipboard.write_text(text) {
            Ok(()) => {},
            Err(detail) => {
                let o = clipboard_failure_outcome(detail.as_str());
                return Ok(o);
            },
        }
        // Step 2: let the clipboard settle, then read it back.  A mismatch
        // or a failed read is not fatal: the write is trusted and the flow
        // continues either way.
        self.delays.delay_ms(CLIPBOARD_SETTLE_MS);
        let _readback_matches = match self.clipboard.read_text() {
            Ok(readback) => readback == text.to_owned(),
            Err(_) => true,
        };
        // Step 3: restore focus to the remembered window.  Failure degrades
        // the outcome instead of aborting: the clipboard content is already
        // usable manually.
        let focus_restored = match self.window_manager.restore_previous_window() {
            Ok(()) => true,
            Err(_) => false,
        };
        // Step 4: only on request, wait for the target to be ready and
        // inject the paste.
        let mut paste_ok = false;
        if auto_paste {
            self.delays.delay_ms(TARGET_READY_DELAY_MS);
            paste_ok = match self.input_simulator.simulate_paste() {
                Ok(()) => true,
                Err(_) => false,
            };
        }
        // Step 5: the remembered window served its purpose.
        self.window_manager.clear_saved_window();
        let o = success_outcome(auto_paste, focus_restored, paste_ok);
        proof {
            assert(success_outcome_matches(o, auto_paste, focus_restored, paste_ok));
        }
        Ok(o)
    }
}

/// Restore focus after the utility's window was hidden, then forget the
/// remembered window.  A failed restore is reported as the port gave it
/// and leaves the remembered window in place.
pub fn restore_focus_after_hide<W: WindowManager>(window_manager: &W) -> Result<(), String> {
    match window_manager.restore_previous_window() {
        Ok(()) => {
            window_manager.clear_saved_window();
            Ok(())
        },
        Err(e) => Err(e),
    }
}

/// The show-window use case: remember the currently focused window just
/// before the utility's own window takes focus.
pub struct ShowWindowUseCase<W> {
    window_manager: W,
}

impl<W: WindowManager> ShowWindowUseCase<W> {
    pub fn new(window_manager: W) -> (r: ShowWindowUseCase<W>) {
        ShowWindowUseCase { window_manager }
    }

    /// Remember the current foreground window through the port; the port's
    /// answer is passed through unchanged.
    pub fn execute(&self) -> Result<(), String> {
        match self.window_manager.remember_current_window() {
            Ok(()) => Ok(()),
            Err(e) => Err(e),
        }
    }
}

} // verus!
