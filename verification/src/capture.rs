//! Modal keyboard capture: key classification and capture lifecycle.
//!
//! While selection is active, a system-level interceptor owns all
//! keyboard input. The interceptor callback runs on an OS thread and
//! must only classify the key and post it to the owning thread; the
//! classification and the capture bookkeeping live here, verified,
//! while the platform installs and removes the actual interceptor and
//! hands virtual-key codes across as plain numbers.

use vstd::prelude::*;

verus! {

/// The message identifier used to post classified key events from the
/// interceptor callback into the owning thread's queue.
pub const KEY_EVENT_MESSAGE_ID: u32 = 0x8000;

/// Errors that can occur during keyboard capture.
#[derive(Debug, Clone, PartialEq, Eq, Structural)]
pub enum KeyboardCaptureError {
    /// Failed to install the keyboard interceptor.
    HookInstallationFailed,
    /// Interceptor callback registration failed.
    CallbackRegistrationFailed,
    /// Failed to uninstall the keyboard interceptor.
    UninstallFailed,
}

/// Navigation direction carried by an arrow key.
#[derive(Debug, Clone, Copy, PartialEq, Eq, Structural)]
pub enum NavigationDirection {
    Left,
    Right,
    Up,
    Down,
}

/// Classification of a captured keystroke.
#[derive(Debug, Clone, Copy, PartialEq, Eq, Structural)]
pub enum KeyEvent {
    /// A grid selection letter (`Q`, `W`, `E`, `A`, `S`, `D`, ...).
    GridKey(char),
    /// Navigation between monitors.
    Navigation(NavigationDirection),
    /// Cancel the selection.
    Cancel,
    /// Any other key; carried with its code so the owner can decide.
    Invalid(u32),
}

/// The classification of a virtual-key code: the twenty-six letters
/// map to grid keys, the arrows to navigation, Escape to cancel, and
/// every other code is classified as invalid.
pub open spec fn spec_classify_vk(vk_code: u32) -> KeyEvent {
    if vk_code == 0x51 { KeyEvent::GridKey('Q') }
    else if vk_code == 0x57 { KeyEvent::GridKey('W') }
    else if vk_code == 0x45 { KeyEvent::GridKey('E') }
    else if vk_code == 0x52 { KeyEvent::GridKey('R') }
    else if vk_code == 0x54 { KeyEvent::GridKey('T') }
    else if vk_code == 0x59 { KeyEvent::GridKey('Y') }
    else if vk_code == 0x55 { KeyEvent::GridKey('U') }
    else if vk_code == 0x49 { KeyEvent::GridKey('I') }
    else if vk_code == 0x4f { KeyEvent::GridKey('O') }
    else if vk_code == 0x50 { KeyEvent::GridKey('P') }
    else if vk_code == 0x41 { KeyEvent::GridKey('A') }
    else if vk_code == 0x53 { KeyEvent::GridKey('S') }
    else if vk_code == 0x44 { KeyEvent::GridKey('D') }
    else if vk_code == 0x46 { KeyEvent::GridKey('F') }
    else if vk_code == 0x47 { KeyEvent::GridKey('G') }
    else if vk_code == 0x48 { KeyEvent::GridKey('H') }
    else if vk_code == 0x4a { KeyEvent::GridKey('J') }
    else if vk_code == 0x4b { KeyEvent::GridKey('K') }
    else if vk_code == 0x4c { KeyEvent::GridKey('L') }
    else if vk_code == 0x5a { KeyEvent::GridKey('Z') }
    else if vk_code == 0x58 { KeyEvent::GridKey('X') }
    else if vk_code == 0x43 { KeyEvent::GridKey('C') }
    else if vk_code == 0x56 { KeyEvent::GridKey('V') }
    else if vk_code == 0x42 { KeyEvent::GridKey('B') }
    else if vk_code == 0x4e { KeyEvent::GridKey('N') }
    else if vk_code == 0x4d { KeyEvent::GridKey('M') }
    else if vk_code == 0x25 { KeyEvent::Navigation(NavigationDirection::Left) }
    else if vk_code == 0x27 { KeyEvent::Navigation(NavigationDirection::Right) }
    else if vk_code == 0x26 { KeyEvent::Navigation(NavigationDirection::Up) }
    else if vk_code == 0x28 { KeyEvent::Navigation(NavigationDirection::Down) }
    else if vk_code == 0x1b { KeyEvent::Cancel }
    else { KeyEvent::Invalid(vk_code) }
}

impl KeyEvent {
    /// Classifies a virtual-key code into a key event. Every code is
    /// classified; unknown codes come back as `Invalid`.
    pub fn from_vk_code(vk_code: u32) -> (r: Option<KeyEvent>)
        ensures
            r == Some(spec_classify_vk(vk_code)),
    {
        let event = match vk_code {
            0x51 => KeyEvent::GridKey('Q'),
            0x57 => KeyEvent::GridKey('W'),
            0x45 => KeyEvent::GridKey('E'),
            0x52 => KeyEvent::GridKey('R'),
            0x54 => KeyEvent::GridKey('T'),
            0x59 => KeyEvent::GridKey('Y'),
            0x55 => KeyEvent::GridKey('U'),
            0x49 => KeyEvent::GridKey('I'),
            0x4f => KeyEvent::GridKey('O'),
            0x50 => KeyEvent::GridKey('P'),
            0x41 => KeyEvent::GridKey('A'),
            0x53 => KeyEvent::GridKey('S'),
            0x44 => KeyEvent::GridKey('D'),
            0x46 => KeyEvent::GridKey('F'),
            0x47 => KeyEvent::GridKey('G'),
            0x48 => KeyEvent::GridKey('H'),
            0x4a => KeyEvent::GridKey('J'),
            0x4b => KeyEvent::GridKey('K'),
            0x4c => KeyEvent::GridKey('L'),
            0x5a => KeyEvent::GridKey('Z'),
            0x58 => KeyEvent::GridKey('X'),
            0x43 => KeyEvent::GridKey('C'),
            0x56 => KeyEvent::GridKey('V'),
            0x42 => KeyEvent::GridKey('B'),
            0x4e => KeyEvent::GridKey('N'),
            0x4d => KeyEvent::GridKey('M'),
            0x25 => KeyEvent::Navigation(NavigationDirection::Left),
            0x27 => KeyEvent::Navigation(NavigationDirection::Right),
            0x26 => KeyEvent::Navigation(NavigationDirection::Up),
            0x28 => KeyEvent::Navigation(NavigationDirection::Down),
            0x1b => KeyEvent::Cancel,
            other => KeyEvent::Invalid(other),
        };
        Some(event)
    }
}

/// Bookkeeping for the modal keyboard capture of one target window.
///
/// The platform-side interceptor is installed and removed outside this
/// crate; this value tracks whether the capture owned by `target_window`
/// is active, and makes starting and stopping idempotent.
#[derive(Debug, Clone, Copy, PartialEq, Eq, Structural)]
pub struct KeyboardCapture {
    capturing: bool,
    target_window: u64,
}

impl KeyboardCapture {
    /// Whether capture is currently active, for contracts.
    pub closed spec fn capturing_spec(&self) -> bool {
        self.capturing
    }

    /// The window handle events are posted to, for contracts.
    pub closed spec fn target_window_spec(&self) -> u64 {
        self.target_window
    }

    /// Creates a new, inactive capture for the given target window.
    pub fn new(target_window: u64) -> (r: KeyboardCapture)
        ensures
            !r.capturing_spec(),
            r.target_window_spec() == target_window,
    {
        KeyboardCapture { capturing: false, target_window }
    }

    /// Marks capture as started. Idempotent: starting an active capture
    /// succeeds and changes nothing.
    pub fn start_capture(&mut self) -> (r: Result<(), KeyboardCaptureError>)
        ensures
            r is Ok,
            final(self).capturing_spec(),
            final(self).target_window_spec() == old(self).target_window_spec(),
    {
        if self.capturing {
            return Ok(());
        }
        self.capturing = true;
        Ok(())
    }

    /// Marks capture as stopped. Idempotent: stopping an inactive
    /// capture succeeds and changes nothing.
    pub fn stop_capture(&mut self) -> (r: Result<(), KeyboardCaptureError>)
        ensures
            r is Ok,
            !final(self).capturing_spec(),
            final(self).target_window_spec() == old(self).target_window_spec(),
    {
        self.capturing = false;
        Ok(())
    }

    /// Whether capture is currently active.
    pub fn is_capturing(&self) -> (r: bool)
        ensures
            r == self.capturing_spec(),
    {
        self.capturing
    }
}

/// Scoped ownership of an active capture: creating the guard starts the
/// capture, and the owner stops it on every exit path, so no interceptor
/// outlives its owner.
#[derive(Debug, Clone, Copy, PartialEq, Eq, Structural)]
pub struct KeyboardCaptureGuard {
    capture: KeyboardCapture,
}

impl KeyboardCaptureGuard {
    /// The capture owned by this guard, for contracts.
    pub closed spec fn capture_spec(&self) -> KeyboardCapture {
        self.capture
    }

    /// A live guard always holds an active capture.
    #[verifier::type_invariant]
    pub open spec fn holds_capture(&self) -> bool {
        self.capture_spec().capturing_spec()
    }

    /// Creates a new guard with the capture started.
    pub fn new(target_window: u64) -> (r: Result<KeyboardCaptureGuard, KeyboardCaptureError>)
        ensures
            r matches Ok(guard) ==> guard.capture_spec().capturing_spec()
                && guard.capture_spec().target_window_spec() == target_window,
            r is Ok,
    {
        let mut capture = KeyboardCapture::new(target_window);
        match capture.start_capture() {
            Ok(()) => Ok(KeyboardCaptureGuard { capture }),
            Err(e) => Err(e),
        }
    }

    /// Whether the guard's capture is active; a live guard's always is.
    pub fn is_capturing(&self) -> (r: bool)
        ensures
            r,
    {
        proof {
            use_type_invariant(self);
        }
        self.capture.is_capturing()
    }

    /// The message identifier for posted key events.
    pub fn message_id() -> (r: u32)
        ensures
            r == KEY_EVENT_MESSAGE_ID,
    {
        KEY_EVENT_MESSAGE_ID
    }

    /// Parses the payload of a posted key-event message back into the
    /// classified key event.
    pub fn parse_message(wparam: usize) -> (r: Option<KeyEvent>)
        requires
            wparam <= u32::MAX,
        ensures
            r == Some(spec_classify_vk(wparam as u32)),
    {
        let vk_code = wparam as u32;
        KeyEvent::from_vk_code(vk_code)
    }
}

} // verus!
