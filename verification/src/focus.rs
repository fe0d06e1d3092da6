//! Tracking of the last externally focused window.
//!
//! The registry is the single source of truth for "which external window
//! should regain focus".  It filters out the application's own windows by
//! owning process, so auxiliary windows never need to be registered
//! individually.

use vstd::prelude::*;

use crate::ports::WindowManager;

verus! {

/// An opaque identifier for a top-level window.
///
/// Equality is identity, not content.  The window behind a handle may close
/// at any time after the handle was captured, so holders must validate it
/// before use.
#[derive(Debug, Clone, Copy, PartialEq, Eq, Structural)]
pub struct WindowHandle {
    pub raw: u64,
}

/// The identity of the process that created a window.
#[derive(Debug, Clone, Copy, PartialEq, Eq, Structural)]
pub struct ProcessId {
    pub raw: u64,
}

/// What the operating system reports about the current foreground window:
/// the window's handle and the process that owns it.
#[derive(Debug, Clone, Copy, PartialEq, Eq, Structural)]
pub struct ForegroundInfo {
    pub handle: WindowHandle,
    pub owner: ProcessId,
}

/// Everything that can go wrong in the focus-capture-and-paste subsystem.
#[derive(Debug, Clone, Copy, PartialEq, Eq, Structural)]
pub enum PasteError {
    /// The operating system reported no foreground window at all.
    NoForegroundWindow,
    /// A restore was requested but nothing was remembered.
    NoSavedWindow,
    /// The remembered window no longer exists.
    StaleWindowHandle,
    /// The set-foreground request itself was rejected, with the system's
    /// error code.
    OSFocusRejected(u32),
    /// The set-foreground request was accepted but the window never became
    /// the foreground window within the verification attempts.
    FocusNotVerified,
    /// Every paste-injection strategy reported failure.
    AllInjectionStrategiesFailed,
    /// The clipboard write failed; the one fatal step of the paste flow.
    ClipboardWriteFailed,
    /// The clipboard read-back failed; never fatal.
    ClipboardReadFailed,
    /// The operation needs platform facilities that this build does not have.
    UnsupportedPlatform,
}

/// The registry state after one unconditional remember of `fg`.
///
/// A reported window always overwrites the stored one; when the system
/// reports none, the stored value is untouched.
pub open spec fn remembered_after(
    state: Option<WindowHandle>,
    fg: Option<WindowHandle>,
) -> Option<WindowHandle> {
    match fg {
        Some(h) => Some(h),
        None => state,
    }
}

/// The registry state after a same-process-filtered remember of `fg`.
///
/// A window owned by `own_pid` is one of the application's own and leaves
/// the stored value untouched; a foreign window overwrites it.
pub open spec fn remembered_if_external(
    state: Option<WindowHandle>,
    fg: Option<ForegroundInfo>,
    own_pid: ProcessId,
) -> Option<WindowHandle> {
    match fg {
        Some(info) => if info.owner == own_pid {
            state
        } else {
            Some(info.handle)
        },
        None => state,
    }
}

/// The registry state after a clear: always empty, whatever was stored.
pub open spec fn cleared_registry(state: Option<WindowHandle>) -> Option<WindowHandle> {
    None
}

/// The registry state after a sequence of successful unconditional
/// remembers, in order.
pub open spec fn remembered_after_all(
    state: Option<WindowHandle>,
    fgs: Seq<WindowHandle>,
) -> Option<WindowHandle>
    decreases fgs.len(),
{
    if fgs.len() == 0 {
        state
    } else {
        remembered_after_all(remembered_after(state, Some(fgs.first())), fgs.drop_first())
    }
}

/// Last write wins: after any sequence of remembers, the registry holds the
/// most recently remembered handle, so a restore issued immediately after
/// targets exactly that handle.
pub proof fn lemma_last_write_wins(state: Option<WindowHandle>, fgs: Seq<WindowHandle>)
    requires
        fgs.len() > 0,
    ensures
        remembered_after_all(state, fgs) == Some(fgs.last()),
    decreases fgs.len(),
{
    if fgs.len() == 1 {
        assert(fgs.drop_first().len() == 0);
    } else {
        lemma_last_write_wins(remembered_after(state, Some(fgs.first())), fgs.drop_first());
        assert(fgs.drop_first().last() == fgs.last());
    }
}

/// Process-wide store of the last externally focused window.
///
/// The stored handle, when present, never identifies a window owned by the
/// application's own process: `remember_if_external` enforces that at write
/// time.  State is ephemeral; it lives only as long as the value itself.
pub struct FocusRegistry {
    last_external_window: Option<WindowHandle>,
}

impl View for FocusRegistry {
    type V = Option<WindowHandle>;

    closed spec fn view(&self) -> Option<WindowHandle> {
        self.last_external_window
    }
}

impl FocusRegistry {
    /// A registry with nothing remembered.
    pub fn new() -> (r: FocusRegistry)
        ensures
            r@ is None,
    {
        FocusRegistry { last_external_window: None }
    }

    /// The currently remembered handle, if any.
    pub fn saved_window(&self) -> (r: Option<WindowHandle>)
        ensures
            r == self@,
    {
        self.last_external_window
    }

    /// Unconditionally remember `fg` as the window to restore focus to.
    ///
    /// `fg` is the foreground window the operating system reported; `None`
    /// means the system reported none, which fails with
    /// [`PasteError::NoForegroundWindow`] and leaves the stored state
    /// untouched.
    pub fn remember_current_foreground(&mut self, fg: Option<WindowHandle>) -> (r: Result<
        (),
        PasteError,
    >)
        ensures
            final(self)@ == remembered_after(old(self)@, fg),
            r is Ok <==> fg is Some,
            r is Err ==> r->Err_0 == PasteError::NoForegroundWindow,
    {
        match fg {
            Some(h) => {
                self.last_external_window = Some(h);
                Ok(())
            },
            None => Err(PasteError::NoForegroundWindow),
        }
    }

    /// Remember `fg` only if it belongs to a foreign process.
    ///
    /// Returns `Ok(true)` when an external window was stored, `Ok(false)`
    /// when the foreground window is one of the application's own (an
    /// internal window switch; stored state untouched), and
    /// [`PasteError::NoForegroundWindow`] when the system reported none.
    pub fn remember_if_external(
        &mut self,
        fg: Option<ForegroundInfo>,
        own_pid: ProcessId,
    ) -> (r: Result<bool, PasteError>)
        ensures
            final(self)@ == remembered_if_external(old(self)@, fg, own_pid),
            r is Ok <==> fg is Some,
            fg matches Some(info) ==> r == Ok::<bool, PasteError>(info.owner != own_pid),
            r is Err ==> r->Err_0 == PasteError::NoForegroundWindow,
    {
        match fg {
            Some(info) => {
                if info.owner.raw == own_pid.raw {
                    Ok(false)
                } else {
                    self.last_external_window = Some(info.handle);
                    Ok(true)
                }
            },
            None => Err(PasteError::NoForegroundWindow),
        }
    }

    /// Forget the remembered window.  Never fails.
    pub fn clear(&mut self)
        ensures
            final(self)@ == cleared_registry(old(self)@),
    {
        self.last_external_window = None;
    }
}

/// Tracker of the last external window, keyed by owning process.
///
/// Process-based detection is used instead of an allow-list of known own
/// windows: any window owned by the running process is internal, all others
/// are external, including windows created after this tracker was.
pub struct WindowsFocusTracker {
    registry: FocusRegistry,
}

impl View for WindowsFocusTracker {
    type V = Option<WindowHandle>;

    closed spec fn view(&self) -> Option<WindowHandle> {
        self.registry@
    }
}

impl WindowsFocusTracker {
    /// A tracker with nothing remembered.
    pub fn new() -> (r: WindowsFocusTracker)
        ensures
            r@ is None,
    {
        WindowsFocusTracker { registry: FocusRegistry::new() }
    }

    /// Whether the reported foreground window belongs to the process
    /// identified by `own_pid`.
    pub fn is_same_process(fg: &ForegroundInfo, own_pid: ProcessId) -> (b: bool)
        ensures
            b == (fg.owner == own_pid),
    {
        fg.owner.raw == own_pid.raw
    }

    /// Remember the reported foreground window only if it is external.
    /// See [`FocusRegistry::remember_if_external`].
    pub fn remember_if_external(
        &mut self,
        fg: Option<ForegroundInfo>,
        own_pid: ProcessId,
    ) -> (r: Result<bool, PasteError>)
        ensures
            final(self)@ == remembered_if_external(old(self)@, fg, own_pid),
            r is Ok <==> fg is Some,
            fg matches Some(info) ==> r == Ok::<bool, PasteError>(info.owner != own_pid),
            r is Err ==> r->Err_0 == PasteError::NoForegroundWindow,
    {
        self.registry.remember_if_external(fg, own_pid)
    }

    /// The currently remembered handle, if any.
    pub fn saved_window(&self) -> (r: Option<WindowHandle>)
        ensures
            r == self@,
    {
        self.registry.saved_window()
    }
}

impl WindowManager for WindowsFocusTracker {
    /// This build has no direct line to the platform's foreground-window
    /// query, so the portless interface reports the platform as unsupported
    /// rather than silently doing nothing.
    fn remember_current_window(&self) -> (r: Result<(), String>)
        ensures
            r is Err,
    {
        Err("WindowsFocusTracker is only supported on Windows".to_string())
    }

    fn restore_previous_window(&self) -> (r: Result<(), String>)
        ensures
            r is Err,
    {
        Err("WindowsFocusTracker is only supported on Windows".to_string())
    }

    fn clear_saved_window(&self) {
        // Nothing to clear through the portless interface.
    }
}

} // verus!
