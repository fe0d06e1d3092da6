//! Multi-strategy paste injection planning.
//!
//! No single input-injection mechanism is honored by every target
//! application, so a paste is attempted through three independent channels:
//! synthesized low-level input events, direct key messages to the focused
//! child control, and a native paste command message.  Each strategy runs
//! unconditionally; the overall call succeeds if any one of them reports
//! success.  This module holds the verified decisions and event plans; a
//! platform driver delivers them.

use vstd::prelude::*;

use crate::focus::{PasteError, WindowHandle};
use crate::ports::{InputSimulator, KeyCode};

verus! {

/// Virtual-key code of the Control key.
pub const VK_CONTROL: u16 = 0x11;

/// Virtual-key code of the V key.
pub const VK_V: u16 = 0x56;

/// Key-down window message number.
pub const WM_KEYDOWN: u32 = 0x100;

/// Key-up window message number.
pub const WM_KEYUP: u32 = 0x101;

/// Character-input window message number.
pub const WM_CHAR: u32 = 0x102;

/// Native paste-command window message number.
pub const WM_PASTE: u32 = 0x302;

/// Milliseconds between two synthesized key events.
pub const KEY_EVENT_DELAY_MS: u64 = 20;

/// Milliseconds between two directly delivered key messages.
pub const KEY_MESSAGE_DELAY_MS: u64 = 10;

/// Which of the three injection strategies reported success.
#[derive(Debug, Clone, Copy, PartialEq, Eq, Structural)]
pub struct StrategyResults {
    /// Synthesized low-level input events, with optional thread attachment.
    pub synthesized_input: bool,
    /// Key messages delivered directly to the focused child control.
    pub direct_messages: bool,
    /// The native paste command message.
    pub paste_command: bool,
}

/// Whether at least one strategy reported success.
pub open spec fn any_strategy_success(r: StrategyResults) -> bool {
    r.synthesized_input || r.direct_messages || r.paste_command
}

/// Aggregate the three strategies' reports into the call's result.
///
/// The call succeeds if and only if at least one strategy reported success;
/// only the failure of all three is [`PasteError::AllInjectionStrategiesFailed`].
/// Success means "injection was delivered through at least one channel",
/// not that the target application visibly pasted.
pub fn injection_outcome(results: &StrategyResults) -> (r: Result<(), PasteError>)
    ensures
        r is Ok <==> any_strategy_success(*results),
        r is Err ==> r->Err_0 == PasteError::AllInjectionStrategiesFailed,
{
    if results.synthesized_input || results.direct_messages || results.paste_command {
        Ok(())
    } else {
        Err(PasteError::AllInjectionStrategiesFailed)
    }
}

/// Success is monotonic in strategy successes: making any strategy succeed
/// that failed before can never turn an overall success into a failure.
pub proof fn lemma_injection_success_monotonic(a: StrategyResults, b: StrategyResults)
    requires
        a.synthesized_input ==> b.synthesized_input,
        a.direct_messages ==> b.direct_messages,
        a.paste_command ==> b.paste_command,
    ensures
        any_strategy_success(a) ==> any_strategy_success(b),
{
}

/// Whether any entry of an ordered list of strategy reports is a success.
pub fn any_strategy_succeeded(results: &Vec<bool>) -> (b: bool)
    ensures
        b == exists|i: int| 0 <= i < results@.len() && results@[i],
{
    let mut i: usize = 0;
    while i < results.len()
        invariant
            0 <= i <= results@.len(),
            forall|j: int| 0 <= j < i ==> !results@[j],
        decreases results@.len() - i,
    {
        if results[i] {
            return true;
        }
        i = i + 1;
    }
    false
}

/// One synthesized key event: press or release of a virtual key.
#[derive(Debug, Clone, Copy, PartialEq, Eq, Structural)]
pub struct KeyEvent {
    pub vk: u16,
    pub key_up: bool,
}

/// One key message to deliver directly to a window.
#[derive(Debug, Clone, Copy, PartialEq, Eq, Structural)]
pub struct KeyMessage {
    pub message: u32,
    pub wparam: u32,
    pub lparam: u32,
}

/// The virtual-key code for a key.
pub open spec fn spec_vk(key: KeyCode) -> u16 {
    match key {
        KeyCode::Control => VK_CONTROL,
        KeyCode::V => VK_V,
    }
}

/// The auxiliary parameter of a key message: repeat count one, the scan
/// code in bits 16 to 23, and for a release the previous-state and
/// transition bits 30 and 31.
pub open spec fn spec_key_lparam(scan: u16, key_up: bool) -> u32 {
    1u32 | ((scan as u32) << 16) | (if key_up {
        0xC000_0000u32
    } else {
        0u32
    })
}

/// Build the auxiliary parameter of a key message.
pub fn key_message_lparam(scan: u16, key_up: bool) -> (l: u32)
    ensures
        l == spec_key_lparam(scan, key_up),
{
    let release_bits: u32 = if key_up {
        0xC000_0000u32
    } else {
        0u32
    };
    1u32 | ((scan as u32) << 16) | release_bits
}

/// Whether the injecting thread must attach its input queue to the target
/// window's thread: only when they are different threads.
pub fn needs_attachment(our_thread: u32, target_thread: u32) -> (b: bool)
    ensures
        b == (our_thread != target_thread),
{
    our_thread != target_thread
}

/// Which window receives directly delivered key messages.
///
/// When the input queues were attached across threads and a child control
/// of the target owns input focus, the messages go to that control;
/// in every other case they go to the top-level foreground window.
pub fn message_target(
    foreground: WindowHandle,
    attached: bool,
    same_thread: bool,
    focused_control: Option<WindowHandle>,
) -> (t: WindowHandle)
    ensures
        t == (if attached && !same_thread && focused_control is Some {
            focused_control->0
        } else {
            foreground
        }),
{
    if attached && !same_thread {
        match focused_control {
            Some(control) => control,
            None => foreground,
        }
    } else {
        foreground
    }
}

/// The press-then-release plan for a key combination: every key pressed in
/// order, then released in reverse order of press.
pub fn key_event_plan(keys: &Vec<KeyCode>) -> (plan: Vec<KeyEvent>)
    ensures
        plan@.len() == 2 * keys@.len(),
        forall|i: int|
            0 <= i < keys@.len() ==> plan@[i] == (KeyEvent {
                vk: spec_vk(keys@[i]),
                key_up: false,
            }),
        forall|i: int|
            0 <= i < keys@.len() ==> #[trigger] plan@[keys@.len() + i] == (KeyEvent {
                vk: spec_vk(keys@[keys@.len() - 1 - i]),
                key_up: true,
            }),
{
    let n = keys.len();
    let mut plan: Vec<KeyEvent> = Vec::new();
    let mut i: usize = 0;
    while i < n
        invariant
            0 <= i <= n,
            n == keys@.len(),
            plan@.len() == i,
            forall|j: int|
                0 <= j < i ==> plan@[j] == (KeyEvent { vk: spec_vk(keys@[j]), key_up: false }),
        decreases n - i,
    {
        let vk = WindowsInputSimulator::vk_of(keys[i]);
        plan.push(KeyEvent { vk, key_up: false });
        i = i + 1;
    }
    let mut k: usize = 0;
    while k < n
        invariant
            0 <= k <= n,
            n == keys@.len(),
            plan@.len() == n + k,
            forall|j: int|
                0 <= j < n ==> plan@[j] == (KeyEvent { vk: spec_vk(keys@[j]), key_up: false }),
            forall|j: int|
                0 <= j < k ==> #[trigger] plan@[n + j] == (KeyEvent {
                    vk: spec_vk(keys@[n - 1 - j]),
                    key_up: true,
                }),
        decreases n - k,
    {
        let vk = WindowsInputSimulator::vk_of(keys[n - 1 - k]);
        plan.push(KeyEvent { vk, key_up: true });
        k = k + 1;
    }
    plan
}

/// The sequential Control+V plan: press Control, press V, release V,
/// release Control, each event separated by a short delay.
pub fn ctrl_v_event_plan() -> (plan: Vec<KeyEvent>)
    ensures
        plan@.len() == 4,
        plan@[0] == (KeyEvent { vk: VK_CONTROL, key_up: false }),
        plan@[1] == (KeyEvent { vk: VK_V, key_up: false }),
        plan@[2] == (KeyEvent { vk: VK_V, key_up: true }),
        plan@[3] == (KeyEvent { vk: VK_CONTROL, key_up: true }),
{
    let mut keys: Vec<KeyCode> = Vec::new();
    keys.push(KeyCode::Control);
    keys.push(KeyCode::V);
    let plan = key_event_plan(&keys);
    proof {
        assert(plan@[keys@.len() as int + 0] == (KeyEvent { vk: spec_vk(keys@[1]), key_up: true }));
        assert(plan@[keys@.len() as int + 1] == (KeyEvent { vk: spec_vk(keys@[0]), key_up: true }));
    }
    plan
}

/// The direct-message plan for a paste: Control down, V down, the `v`
/// character, V up, Control up, with the scan codes the platform reports
/// for the two keys.
pub fn paste_message_plan(ctrl_scan: u16, v_scan: u16) -> (msgs: Vec<KeyMessage>)
    ensures
        msgs@.len() == 5,
        msgs@[0] == (KeyMessage {
            message: WM_KEYDOWN,
            wparam: VK_CONTROL as u32,
            lparam: spec_key_lparam(ctrl_scan, false),
        }),
        msgs@[1] == (KeyMessage {
            message: WM_KEYDOWN,
            wparam: VK_V as u32,
            lparam: spec_key_lparam(v_scan, false),
        }),
        msgs@[2] == (KeyMessage {
            message: WM_CHAR,
            wparam: 0x76u32,
            lparam: spec_key_lparam(v_scan, false),
        }),
        msgs@[3] == (KeyMessage {
            message: WM_KEYUP,
            wparam: VK_V as u32,
            lparam: spec_key_lparam(v_scan, true),
        }),
        msgs@[4] == (KeyMessage {
            message: WM_KEYUP,
            wparam: VK_CONTROL as u32,
            lparam: spec_key_lparam(ctrl_scan, true),
        }),
{
    let ctrl_down = key_message_lparam(ctrl_scan, false);
    let v_down = key_message_lparam(v_scan, false);
    let ctrl_up = key_message_lparam(ctrl_scan, true);
    let v_up = key_message_lparam(v_scan, true);
    let mut msgs: Vec<KeyMessage> = Vec::new();
    msgs.push(KeyMessage { message: WM_KEYDOWN, wparam: VK_CONTROL as u32, lparam: ctrl_down });
    msgs.push(KeyMessage { message: WM_KEYDOWN, wparam: VK_V as u32, lparam: v_down });
    msgs.push(KeyMessage { message: WM_CHAR, wparam: 0x76u32, lparam: v_down });
    msgs.push(KeyMessage { message: WM_KEYUP, wparam: VK_V as u32, lparam: v_up });
    msgs.push(KeyMessage { message: WM_KEYUP, wparam: VK_CONTROL as u32, lparam: ctrl_up });
    msgs
}

/// One delivery of the native paste command: the message number and
/// whether it goes as a blocking send or a non-blocking post.
#[derive(Debug, Clone, Copy, PartialEq, Eq, Structural)]
pub struct CommandDelivery {
    pub message: u32,
    pub blocking: bool,
}

/// The native paste-command plan: the paste message delivered twice, first
/// as a blocking send and then as a non-blocking post, since different
/// target applications honor one or the other.
pub fn paste_command_plan() -> (plan: Vec<CommandDelivery>)
    ensures
        plan@.len() == 2,
        plan@[0] == (CommandDelivery { message: WM_PASTE, blocking: true }),
        plan@[1] == (CommandDelivery { message: WM_PASTE, blocking: false }),
{
    let mut plan: Vec<CommandDelivery> = Vec::new();
    plan.push(CommandDelivery { message: WM_PASTE, blocking: true });
    plan.push(CommandDelivery { message: WM_PASTE, blocking: false });
    plan
}

/// Planner of synthesized keyboard input.
///
/// The verified planning lives in the associated functions above and below;
/// delivering the planned events needs the platform's input facilities,
/// which this build does not have, so the portless interface reports the
/// platform as unsupported.
pub struct WindowsInputSimulator;

impl WindowsInputSimulator {
    pub fn new() -> (r: WindowsInputSimulator) {
        WindowsInputSimulator
    }

    /// The virtual-key code for a key.
    pub fn vk_of(key: KeyCode) -> (vk: u16)
        ensures
            vk == spec_vk(key),
    {
        match key {
            KeyCode::Control => VK_CONTROL,
            KeyCode::V => VK_V,
        }
    }
}

impl InputSimulator for WindowsInputSimulator {
    /// Delivering input needs the platform's facilities, which this build
    /// does not have: the answer is always an error, never a silent no-op.
    fn simulate_paste(&self) -> (r: Result<(), String>)
        ensures
            r is Err,
    {
        Err("WindowsInputSimulator is only supported on Windows".to_string())
    }

    fn simulate_keys(&self, _keys: &[KeyCode]) -> (r: Result<(), String>)
        ensures
            r is Err,
    {
        Err("WindowsInputSimulator is only supported on Windows".to_string())
    }
}

} // verus!
