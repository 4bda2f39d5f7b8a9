//! Decoding of raw HID input reports: the modifier byte and keycodes of
//! a boot-protocol keyboard report, and the button bitmask of a mouse
//! report.

use vstd::prelude::*;

verus! {

/// Modifier bit for the left Ctrl key in byte 0 of a keyboard report.
pub const KB_CTRL: u8 = 0x01;

/// Modifier bit for the left Shift key.
pub const KB_SHIFT: u8 = 0x02;

/// Modifier bit for the left Alt key.
pub const KB_ALT: u8 = 0x04;

/// Modifier bit for the left GUI key.
pub const KB_GUI: u8 = 0x08;

/// Modifier bit for the right Ctrl key.
pub const KB_RCTRL: u8 = 0x10;

/// Modifier bit for the right Shift key.
pub const KB_RSHIFT: u8 = 0x20;

/// Modifier bit for the right Alt key.
pub const KB_RALT: u8 = 0x40;

/// Mouse button bit for the left button in byte 1 of a mouse report.
pub const M_LEFT: u8 = 0x01;

/// Mouse button bit for the right button.
pub const M_RIGHT: u8 = 0x02;

/// Mouse button bit for the middle button.
pub const M_MID: u8 = 0x04;

/// Right and left buttons together.
pub const M_RL: u8 = 0x03;

/// Right and middle buttons together.
pub const M_RM: u8 = 0x05;

/// Left and middle buttons together.
pub const M_LM: u8 = 0x06;

/// Right, left and middle buttons together.
pub const M_RLM: u8 = 0x07;

/// The named readings of a keyboard report's modifier byte. Only the
/// seven single-bit values and zero are matched exactly; every other
/// byte reads as `RightGui`.
#[derive(Clone, Copy, Debug, PartialEq, Eq, Structural)]
pub enum ModifierKey {
    NoModifier,
    Ctrl,
    Shift,
    Alt,
    Gui,
    RightCtrl,
    RightShift,
    RightAlt,
    RightGui,
}

/// The named readings of a mouse report's button byte. The three
/// buttons and their pairwise and triple combinations are matched
/// exactly; every other nonzero byte reads as `DeviceSpecific`.
#[derive(Clone, Copy, Debug, PartialEq, Eq, Structural)]
pub enum MouseButtons {
    NoButton,
    Left,
    Right,
    Middle,
    RightLeft,
    RightMiddle,
    LeftMiddle,
    RightLeftMiddle,
    DeviceSpecific,
}

/// A decoded keyboard report: the reading of the modifier byte and the
/// five keycode bytes the monitor reports (offsets 2 through 6).
#[derive(Clone, Copy, Debug, PartialEq, Eq)]
pub struct KeyboardEvent {
    pub modifier: ModifierKey,
    pub keycodes: [u8; 5],
}

/// How byte 0 of a keyboard report is read.
pub open spec fn modifier_of_byte(b: u8) -> ModifierKey {
    if b == 0 {
        ModifierKey::NoModifier
    } else if b == KB_CTRL {
        ModifierKey::Ctrl
    } else if b == KB_SHIFT {
        ModifierKey::Shift
    } else if b == KB_ALT {
        ModifierKey::Alt
    } else if b == KB_GUI {
        ModifierKey::Gui
    } else if b == KB_RCTRL {
        ModifierKey::RightCtrl
    } else if b == KB_RSHIFT {
        ModifierKey::RightShift
    } else if b == KB_RALT {
        ModifierKey::RightAlt
    } else {
        ModifierKey::RightGui
    }
}

/// How byte 1 of a mouse report is read.
pub open spec fn buttons_of_byte(b: u8) -> MouseButtons {
    if b == 0 {
        MouseButtons::NoButton
    } else if b == M_LEFT {
        MouseButtons::Left
    } else if b == M_RIGHT {
        MouseButtons::Right
    } else if b == M_MID {
        MouseButtons::Middle
    } else if b == M_RL {
        MouseButtons::RightLeft
    } else if b == M_RM {
        MouseButtons::RightMiddle
    } else if b == M_LM {
        MouseButtons::LeftMiddle
    } else if b == M_RLM {
        MouseButtons::RightLeftMiddle
    } else {
        MouseButtons::DeviceSpecific
    }
}

/// The text under which each modifier reading is reported.
pub open spec fn modifier_label_spec(m: ModifierKey) -> Seq<char> {
    match m {
        ModifierKey::NoModifier => "None"@,
        ModifierKey::Ctrl => "CTRL"@,
        ModifierKey::Shift => "SHIFT"@,
        ModifierKey::Alt => "ALT"@,
        ModifierKey::Gui => "GUI (Windows Key)"@,
        ModifierKey::RightCtrl => "Right CTRL"@,
        ModifierKey::RightShift => "Right SHIFT"@,
        ModifierKey::RightAlt => "Right Alt"@,
        ModifierKey::RightGui => "Right GUI (Windows Key)"@,
    }
}

/// The text under which each button reading is reported.
pub open spec fn button_label_spec(b: MouseButtons) -> Seq<char> {
    match b {
        MouseButtons::NoButton => "None"@,
        MouseButtons::Left => "Left"@,
        MouseButtons::Right => "Right"@,
        MouseButtons::Middle => "Middle"@,
        MouseButtons::RightLeft => "Right and Left"@,
        MouseButtons::RightMiddle => "Right and Middle"@,
        MouseButtons::LeftMiddle => "Left and Middle"@,
        MouseButtons::RightLeftMiddle => "Right, Left and Middle"@,
        MouseButtons::DeviceSpecific => "Device Specific"@,
    }
}

impl ModifierKey {
    /// The label the monitor prints for this modifier reading.
    pub fn label(&self) -> (s: String)
        ensures
            s@ == modifier_label_spec(*self),
    {
        match self {
            ModifierKey::NoModifier => "None".to_owned(),
            ModifierKey::Ctrl => "CTRL".to_owned(),
            ModifierKey::Shift => "SHIFT".to_owned(),
            ModifierKey::Alt => "ALT".to_owned(),
            ModifierKey::Gui => "GUI (Windows Key)".to_owned(),
            ModifierKey::RightCtrl => "Right CTRL".to_owned(),
            ModifierKey::RightShift => "Right SHIFT".to_owned(),
            ModifierKey::RightAlt => "Right Alt".to_owned(),
            ModifierKey::RightGui => "Right GUI (Windows Key)".to_owned(),
        }
    }
}

impl MouseButtons {
    /// The label the monitor prints for this button reading.
    pub fn label(&self) -> (s: String)
        ensures
            s@ == button_label_spec(*self),
    {
        match self {
            MouseButtons::NoButton => "None".to_owned(),
            MouseButtons::Left => "Left".to_owned(),
            MouseButtons::Right => "Right".to_owned(),
            MouseButtons::Middle => "Middle".to_owned(),
            MouseButtons::RightLeft => "Right and Left".to_owned(),
            MouseButtons::RightMiddle => "Right and Middle".to_owned(),
            MouseButtons::LeftMiddle => "Left and Middle".to_owned(),
            MouseButtons::RightLeftMiddle => "Right, Left and Middle".to_owned(),
            MouseButtons::DeviceSpecific => "Device Specific".to_owned(),
        }
    }
}

/// Decodes a boot-protocol keyboard input report: the modifier reading
/// of byte 0 and the keycodes at offsets 2 through 6.
pub fn decode_keyboard(buf: &[u8]) -> (ev: KeyboardEvent)
    requires
        buf@.len() >= 8,
    ensures
        ev.modifier == modifier_of_byte(buf@[0]),
        ev.keycodes@ =~= buf@.subrange(2, 7),
{
    let b = buf[0];
    let modifier = if b == 0 {
        ModifierKey::NoModifier
    } else if b == KB_CTRL {
        ModifierKey::Ctrl
    } else if b == KB_SHIFT {
        ModifierKey::Shift
    } else if b == KB_ALT {
        ModifierKey::Alt
    } else if b == KB_GUI {
        ModifierKey::Gui
    } else if b == KB_RCTRL {
        ModifierKey::RightCtrl
    } else if b == KB_RSHIFT {
        ModifierKey::RightShift
    } else if b == KB_RALT {
        ModifierKey::RightAlt
    } else {
        ModifierKey::RightGui
    };
    let keycodes = [buf[2], buf[3], buf[4], buf[5], buf[6]];
    KeyboardEvent { modifier, keycodes }
}

/// Decodes a mouse input report: the button reading of byte 1.
pub fn decode_mouse(buf: &[u8]) -> (buttons: MouseButtons)
    requires
        buf@.len() >= 2,
    ensures
        buttons == buttons_of_byte(buf@[1]),
{
    let b = buf[1];
    if b == 0 {
        MouseButtons::NoButton
    } else if b == M_LEFT {
        MouseButtons::Left
    } else if b == M_RIGHT {
        MouseButtons::Right
    } else if b == M_MID {
        MouseButtons::Middle
    } else if b == M_RL {
        MouseButtons::RightLeft
    } else if b == M_RM {
        MouseButtons::RightMiddle
    } else if b == M_LM {
        MouseButtons::LeftMiddle
    } else if b == M_RLM {
        MouseButtons::RightLeftMiddle
    } else {
        MouseButtons::DeviceSpecific
    }
}

} // verus!
