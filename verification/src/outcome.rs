//! The report a paste orchestration produces, and its classification.
//!
//! One paste attempt always ends in a `CopyPasteResult`: a terminal,
//! immutable description of what succeeded and what the user should do
//! next.  The classification below is exact — for every combination of
//! step results it pins down all three flags and the summary message.

use vstd::prelude::*;
use vstd::string::StringExecFns;

verus! {

/// What happened during one paste orchestration.
#[derive(Debug, PartialEq, Eq)]
pub struct CopyPasteResult {
    /// Whether the text reached the system clipboard.
    pub clipboard_success: bool,
    /// Whether auto-paste was attempted.
    pub paste_attempted: bool,
    /// Whether the paste likely took effect (a conservative best guess).
    pub paste_likely_success: bool,
    /// The one channel through which a degraded outcome reaches the user.
    pub message: String,
}

impl Clone for CopyPasteResult {
    fn clone(&self) -> (res: Self)
        ensures
            res == *self,
    {
        CopyPasteResult {
            clipboard_success: self.clipboard_success,
            paste_attempted: self.paste_attempted,
            paste_likely_success: self.paste_likely_success,
            message: self.message.clone(),
        }
    }
}

/// The structural invariant of every outcome: nothing that was never
/// attempted can have succeeded, and nothing is attempted once the
/// clipboard write has failed.
pub open spec fn outcome_wf(o: CopyPasteResult) -> bool {
    &&& !o.paste_attempted ==> !o.paste_likely_success
    &&& !o.clipboard_success ==> !o.paste_attempted
}

/// The summary message once the clipboard write has succeeded.
pub open spec fn spec_summary(auto_paste: bool, focus_restored: bool, paste_ok: bool) -> Seq<
    char,
> {
    if !auto_paste {
        "Copied to clipboard"@
    } else if paste_ok && focus_restored {
        "Copied and pasted"@
    } else if !focus_restored {
        "Copied to clipboard - press Ctrl+V to paste"@
    } else {
        "Copied to clipboard - press Ctrl+V if not pasted"@
    }
}

/// The outcome that reports a successful clipboard write followed by the
/// given step results.
pub open spec fn success_outcome_matches(
    o: CopyPasteResult,
    auto_paste: bool,
    focus_restored: bool,
    paste_ok: bool,
) -> bool {
    &&& o.clipboard_success
    &&& o.paste_attempted == auto_paste
    &&& o.paste_likely_success == (auto_paste && paste_ok && focus_restored)
    &&& o.message@ == spec_summary(auto_paste, focus_restored, paste_ok)
}

/// The outcome that reports a failed clipboard write with the given detail.
pub open spec fn failure_outcome_matches(o: CopyPasteResult, detail: Seq<char>) -> bool {
    &&& !o.clipboard_success
    &&& !o.paste_attempted
    &&& !o.paste_likely_success
    &&& o.message@ == "Failed to copy to clipboard: "@ + detail
}

/// Classify a flow whose clipboard write succeeded.
///
/// `paste_likely_success` is claimed only when auto-paste was requested,
/// injection reported success, *and* focus restoration reported success:
/// injection into the wrong window is worse than useless, so a success
/// report without restored focus is not believed.
pub fn success_outcome(auto_paste: bool, focus_restored: bool, paste_ok: bool) -> (o:
    CopyPasteResult)
    ensures
        success_outcome_matches(o, auto_paste, focus_restored, paste_ok),
        outcome_wf(o),
{
    let likely = auto_paste && paste_ok && focus_restored;
    let message: String = if !auto_paste {
        String::from_str("Copied to clipboard")
    } else if likely {
        String::from_str("Copied and pasted")
    } else if !focus_restored {
        String::from_str("Copied to clipboard - press Ctrl+V to paste")
    } else {
        String::from_str("Copied to clipboard - press Ctrl+V if not pasted")
    };
    CopyPasteResult {
        clipboard_success: true,
        paste_attempted: auto_paste,
        paste_likely_success: likely,
        message,
    }
}

/// Classify a flow whose clipboard write failed: the one fatal step, so
/// nothing further was attempted.
pub fn clipboard_failure_outcome(detail: &str) -> (o: CopyPasteResult)
    ensures
        failure_outcome_matches(o, detail@),
        outcome_wf(o),
{
    let message = String::from_str("Failed to copy to clipboard: ").concat(detail);
    CopyPasteResult {
        clipboard_success: false,
        paste_attempted: false,
        paste_likely_success: false,
        message,
    }
}

} // verus!
