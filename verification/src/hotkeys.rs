//! Global hotkey registration data.
//!
//! One global hotkey (default Ctrl+Alt+F9) toggles the selection mode.
//! The platform registers it against a window and message loop; the
//! modifier masks and key codes it registers with are computed here.

use vstd::prelude::*;

verus! {

/// Modifier keys for hotkey combinations.
#[derive(Debug, Clone, Copy, PartialEq, Eq, Hash, Structural)]
pub enum HotkeyModifier {
    Alt,
    Control,
    Shift,
    Windows,
}

/// The registration bit of a modifier key.
pub open spec fn spec_modifier_bit(modifier: HotkeyModifier) -> u32 {
    match modifier {
        HotkeyModifier::Alt => 1,
        HotkeyModifier::Control => 2,
        HotkeyModifier::Shift => 4,
        HotkeyModifier::Windows => 8,
    }
}

/// The combined registration mask of a list of modifiers.
pub open spec fn spec_modifier_mask(modifiers: Seq<HotkeyModifier>) -> u32
    decreases modifiers.len(),
{
    if modifiers.len() == 0 {
        0
    } else {
        spec_modifier_mask(modifiers.drop_last()) | spec_modifier_bit(modifiers.last())
    }
}

impl HotkeyModifier {
    /// The bit this modifier contributes to a registration mask.
    pub fn bit(self) -> (r: u32)
        ensures
            r == spec_modifier_bit(self),
    {
        match self {
            HotkeyModifier::Alt => 1,
            HotkeyModifier::Control => 2,
            HotkeyModifier::Shift => 4,
            HotkeyModifier::Windows => 8,
        }
    }
}

/// Virtual key codes available for hotkey registration.
#[derive(Debug, Clone, Copy, PartialEq, Eq, Hash, Structural)]
pub enum VirtualKey {
    Space,
    F1,
    F2,
    F3,
    F4,
    F5,
    F6,
    F7,
    F8,
    F9,
    F10,
    F11,
    F12,
}

/// The virtual-key code of a registrable key.
pub open spec fn spec_vk_code(key: VirtualKey) -> u32 {
    match key {
        VirtualKey::Space => 0x20,
        VirtualKey::F1 => 0x70,
        VirtualKey::F2 => 0x71,
        VirtualKey::F3 => 0x72,
        VirtualKey::F4 => 0x73,
        VirtualKey::F5 => 0x74,
        VirtualKey::F6 => 0x75,
        VirtualKey::F7 => 0x76,
        VirtualKey::F8 => 0x77,
        VirtualKey::F9 => 0x78,
        VirtualKey::F10 => 0x79,
        VirtualKey::F11 => 0x7A,
        VirtualKey::F12 => 0x7B,
    }
}

impl VirtualKey {
    /// The virtual-key code this key registers under.
    pub fn code(self) -> (r: u32)
        ensures
            r == spec_vk_code(self),
    {
        match self {
            VirtualKey::Space => 0x20,
            VirtualKey::F1 => 0x70,
            VirtualKey::F2 => 0x71,
            VirtualKey::F3 => 0x72,
            VirtualKey::F4 => 0x73,
            VirtualKey::F5 => 0x74,
            VirtualKey::F6 => 0x75,
            VirtualKey::F7 => 0x76,
            VirtualKey::F8 => 0x77,
            VirtualKey::F9 => 0x78,
            VirtualKey::F10 => 0x79,
            VirtualKey::F11 => 0x7A,
            VirtualKey::F12 => 0x7B,
        }
    }
}

/// Computes the registration mask of a modifier combination.
pub fn modifier_mask(modifiers: &Vec<HotkeyModifier>) -> (r: u32)
    ensures
        r == spec_modifier_mask(modifiers@),
{
    let mut mask: u32 = 0;
    let mut i: usize = 0;
    while i < modifiers.len()
        invariant
            0 <= i <= modifiers@.len(),
            mask == spec_modifier_mask(modifiers@.take(i as int)),
        decreases modifiers@.len() - i,
    {
        proof {
            assert(modifiers@.take(i + 1).drop_last() =~= modifiers@.take(i as int));
            assert(modifiers@.take(i + 1).last() == modifiers@[i as int]);
        }
        mask = mask | modifiers[i].bit();
        i = i + 1;
    }
    proof {
        assert(modifiers@.take(modifiers@.len() as int) =~= modifiers@);
    }
    mask
}

/// Hotkey registration errors.
#[derive(Debug, Clone, PartialEq, Eq)]
pub enum HotkeyError {
    /// Failed to register the window class.
    WindowClassRegistrationFailed,
    /// Failed to create the message window.
    MessageWindowCreationFailed,
    /// Failed to register the hotkey.
    HotkeyRegistrationFailed(String),
    /// Failed to unregister the hotkey with the given identifier.
    HotkeyUnregistrationFailed { id: u32 },
    /// The hotkey manager is already running.
    AlreadyRunning,
    /// The hotkey manager is not running.
    NotRunning,
    /// Joining the hotkey thread failed.
    ThreadJoinFailed,
}

} // verus!
