//! Returning focus to the remembered window, with verification and retry.
//!
//! The set-foreground primitive can report success while the window manager
//! silently ignores the request (anti-focus-stealing restrictions), so a
//! restore is only believed once the foreground window is observed to equal
//! the target.  The session below is a step machine: it decides, the caller
//! performs the operating-system calls and the waits between polls, and
//! every decision is verified for every possible answer.
//!
//! Known limitation: the verification poll cannot distinguish "our restore
//! was ignored" from "another application legitimately won the focus race
//! during the polling window"; both end in `FocusNotVerified`.

use vstd::prelude::*;

use crate::focus::{remembered_after_all, PasteError, WindowHandle};

verus! {

/// How many times the foreground window is polled before giving up.
pub const VERIFY_ATTEMPTS: u32 = 3;

/// Milliseconds to wait before each verification poll.
pub const VERIFY_POLL_INTERVAL_MS: u64 = 10;

/// The operating-system call a restore session asks its driver to perform
/// next.
#[derive(Debug, Clone, Copy, PartialEq, Eq, Structural)]
pub enum RestoreAction {
    /// Ask the system whether the window still exists.
    ProbeLiveness(WindowHandle),
    /// Issue the set-foreground-window request.
    RequestForeground(WindowHandle),
    /// Wait briefly, then read the current foreground window.
    PollForeground,
}

/// One focus-restore attempt, from a remembered handle to an outcome.
#[derive(Debug, Clone, Copy)]
pub enum RestoreSession {
    /// The target must be validated as a live window.
    Probing { target: WindowHandle },
    /// The set-foreground request must be issued.
    Requesting { target: WindowHandle },
    /// The request was accepted; the foreground window is being polled.
    Verifying { target: WindowHandle, attempts_left: u32 },
    /// The attempt ended; no further system call is wanted.
    Finished { outcome: Result<WindowHandle, PasteError> },
}

/// The session a restore starts in, given the registry's remembered handle.
pub open spec fn restore_started(saved: Option<WindowHandle>) -> RestoreSession {
    match saved {
        Some(h) => RestoreSession::Probing { target: h },
        None => RestoreSession::Finished { outcome: Err(PasteError::NoSavedWindow) },
    }
}

/// The system call a session asks for, if any.
pub open spec fn session_action(s: RestoreSession) -> Option<RestoreAction> {
    match s {
        RestoreSession::Probing { target } => Some(RestoreAction::ProbeLiveness(target)),
        RestoreSession::Requesting { target } => Some(RestoreAction::RequestForeground(target)),
        RestoreSession::Verifying { .. } => Some(RestoreAction::PollForeground),
        RestoreSession::Finished { .. } => None,
    }
}

/// A session only polls with attempts in hand.
pub open spec fn session_wf(s: RestoreSession) -> bool {
    s matches RestoreSession::Verifying { attempts_left, .. } ==> attempts_left >= 1
}

/// Restore with nothing remembered fails with `NoSavedWindow` and asks for
/// no system call at all.
pub proof fn lemma_restore_without_remember()
    ensures
        restore_started(None) == (RestoreSession::Finished {
            outcome: Err(PasteError::NoSavedWindow),
        }),
        session_action(restore_started(None)) is None,
{
}

/// After any sequence of remembers, a restore started immediately targets
/// exactly the most recently remembered handle.
pub proof fn lemma_restore_targets_last_remember(
    state: Option<WindowHandle>,
    fgs: Seq<WindowHandle>,
)
    requires
        fgs.len() > 0,
    ensures
        restore_started(remembered_after_all(state, fgs)) == (RestoreSession::Probing {
            target: fgs.last(),
        }),
        session_action(restore_started(remembered_after_all(state, fgs))) == Some(
            RestoreAction::ProbeLiveness(fgs.last()),
        ),
{
    crate::focus::lemma_last_write_wins(state, fgs);
}

/// A cleared registry makes the next restore fail with `NoSavedWindow`,
/// whatever was remembered before the clear.
pub proof fn lemma_clear_then_restore_fails(state: Option<WindowHandle>)
    ensures
        restore_started(crate::focus::cleared_registry(state)) == (RestoreSession::Finished {
            outcome: Err(PasteError::NoSavedWindow),
        }),
        session_action(restore_started(crate::focus::cleared_registry(state))) is None,
{
}

impl RestoreSession {
    /// Begin a restore attempt for the registry's remembered handle.
    ///
    /// With nothing remembered the session is immediately finished with
    /// [`PasteError::NoSavedWindow`]; no system call is requested.
    pub fn start(saved: Option<WindowHandle>) -> (s: RestoreSession)
        ensures
            s == restore_started(saved),
            session_wf(s),
    {
        match saved {
            Some(h) => RestoreSession::Probing { target: h },
            None => RestoreSession::Finished { outcome: Err(PasteError::NoSavedWindow) },
        }
    }

    /// The system call the driver must perform next, or `None` once the
    /// session is finished.
    pub fn required_action(&self) -> (a: Option<RestoreAction>)
        ensures
            a == session_action(*self),
    {
        match self {
            RestoreSession::Probing { target } => Some(RestoreAction::ProbeLiveness(*target)),
            RestoreSession::Requesting { target } => Some(
                RestoreAction::RequestForeground(*target),
            ),
            RestoreSession::Verifying { .. } => Some(RestoreAction::PollForeground),
            RestoreSession::Finished { .. } => None,
        }
    }

    /// Record the liveness probe's answer.
    ///
    /// A dead window ends the session with
    /// [`PasteError::StaleWindowHandle`]; a live one moves on to the
    /// set-foreground request.
    pub fn note_liveness(&mut self, alive: bool)
        requires
            *old(self) matches RestoreSession::Probing { .. },
        ensures
            ({
                let target = old(self)->Probing_target;
                if alive {
                    *final(self) == RestoreSession::Requesting { target }
                } else {
                    *final(self) == RestoreSession::Finished {
                        outcome: Err(PasteError::StaleWindowHandle),
                    }
                }
            }),
            session_wf(*final(self)),
    {
        let target = match self {
            RestoreSession::Probing { target } => *target,
            _ => unreached(),
        };
        if alive {
            *self = RestoreSession::Requesting { target };
        } else {
            *self = RestoreSession::Finished { outcome: Err(PasteError::StaleWindowHandle) };
        }
    }

    /// Record whether the system accepted the set-foreground request.
    ///
    /// Rejection ends the session with [`PasteError::OSFocusRejected`] and
    /// the system's error code; acceptance is not believed yet and opens
    /// the bounded verification loop.
    pub fn note_request(&mut self, accepted: bool, error_code: u32)
        requires
            *old(self) matches RestoreSession::Requesting { .. },
        ensures
            ({
                let target = old(self)->Requesting_target;
                if accepted {
                    *final(self) == RestoreSession::Verifying {
                        target,
                        attempts_left: VERIFY_ATTEMPTS,
                    }
                } else {
                    *final(self) == RestoreSession::Finished {
                        outcome: Err(PasteError::OSFocusRejected(error_code)),
                    }
                }
            }),
            session_wf(*final(self)),
    {
        let target = match self {
            RestoreSession::Requesting { target } => *target,
            _ => unreached(),
        };
        if accepted {
            *self = RestoreSession::Verifying { target, attempts_left: VERIFY_ATTEMPTS };
        } else {
            *self = RestoreSession::Finished {
                outcome: Err(PasteError::OSFocusRejected(error_code)),
            };
        }
    }

    /// Record one poll of the current foreground window.
    ///
    /// The session succeeds as soon as the observed foreground equals the
    /// target; it keeps polling while attempts remain, and otherwise ends
    /// with [`PasteError::FocusNotVerified`].
    pub fn note_poll(&mut self, current: Option<WindowHandle>)
        requires
            *old(self) matches RestoreSession::Verifying { .. },
            session_wf(*old(self)),
        ensures
            ({
                let target = old(self)->Verifying_target;
                let attempts_left = old(self)->Verifying_attempts_left;
                if current == Some(target) {
                    *final(self) == RestoreSession::Finished { outcome: Ok(target) }
                } else if attempts_left == 1 {
                    *final(self) == RestoreSession::Finished {
                        outcome: Err(PasteError::FocusNotVerified),
                    }
                } else {
                    *final(self) == RestoreSession::Verifying {
                        target,
                        attempts_left: (attempts_left - 1) as u32,
                    }
                }
            }),
            session_wf(*final(self)),
    {
        let (target, attempts_left) = match self {
            RestoreSession::Verifying { target, attempts_left } => (*target, *attempts_left),
            _ => unreached(),
        };
        let matched = match current {
            Some(h) => h.raw == target.raw,
            None => false,
        };
        if matched {
            *self = RestoreSession::Finished { outcome: Ok(target) };
        } else if attempts_left == 1 {
            *self = RestoreSession::Finished { outcome: Err(PasteError::FocusNotVerified) };
        } else {
            *self = RestoreSession::Verifying { target, attempts_left: attempts_left - 1 };
        }
    }

    /// The session's outcome once finished, `None` while still running.
    pub fn outcome(&self) -> (r: Option<Result<WindowHandle, PasteError>>)
        ensures
            r == (match *self {
                RestoreSession::Finished { outcome } => Some(outcome),
                _ => None::<Result<WindowHandle, PasteError>>,
            }),
    {
        match self {
            RestoreSession::Finished { outcome } => Some(*outcome),
            _ => None,
        }
    }
}

} // verus!
