use bad_usb::report::{decode_keyboard, decode_mouse, ModifierKey, MouseButtons};
use bad_usb::WMSKeyboardDevice;

#[test]
fn decode_keyboard_shift_a() {
    let ev = decode_keyboard(&[0x02, 0, 4, 0, 0, 0, 0, 0]);
    assert_eq!(ev.modifier, ModifierKey::Shift);
    assert_eq!(ev.modifier.label(), "SHIFT");
    assert_eq!(ev.keycodes, [4, 0, 0, 0, 0]);
}

#[test]
fn decode_keyboard_modifier_labels() {
    let cases: [(u8, &str); 9] = [
        (0x00, "None"),
        (0x01, "CTRL"),
        (0x02, "SHIFT"),
        (0x04, "ALT"),
        (0x08, "GUI (Windows Key)"),
        (0x10, "Right CTRL"),
        (0x20, "Right SHIFT"),
        (0x40, "Right Alt"),
        (0x80, "Right GUI (Windows Key)"),
    ];
    for (byte, label) in cases {
        let ev = decode_keyboard(&[byte, 0, 0, 0, 0, 0, 0, 0]);
        assert_eq!(ev.modifier.label(), label);
    }
}

#[test]
fn decode_keyboard_combined_modifiers_read_as_right_gui() {
    let ev = decode_keyboard(&[0x03, 0, 0, 0, 0, 0, 0, 0]);
    assert_eq!(ev.modifier, ModifierKey::RightGui);
}

#[test]
fn decode_keyboard_takes_five_keycodes() {
    let ev = decode_keyboard(&[0, 9, 10, 11, 12, 13, 14, 15]);
    assert_eq!(ev.keycodes, [10, 11, 12, 13, 14]);
}

#[test]
fn decode_mouse_right_and_left() {
    let buttons = decode_mouse(&[0xaa, 0b011]);
    assert_eq!(buttons, MouseButtons::RightLeft);
    assert_eq!(buttons.label(), "Right and Left");
}

#[test]
fn decode_mouse_button_labels() {
    let cases: [(u8, &str); 9] = [
        (0b000, "None"),
        (0b001, "Left"),
        (0b010, "Right"),
        (0b100, "Middle"),
        (0b011, "Right and Left"),
        (0b101, "Right and Middle"),
        (0b110, "Left and Middle"),
        (0b111, "Right, Left and Middle"),
        (0x80, "Device Specific"),
    ];
    for (byte, label) in cases {
        assert_eq!(decode_mouse(&[0, byte]).label(), label);
    }
}

#[test]
fn encode_shift_a() {
    assert_eq!(WMSKeyboardDevice::string_to_report("shift a"),
        [0x02, 0, 4, 0, 0, 0, 0, 0]);
}

#[test]
fn encode_release_is_all_zero() {
    assert_eq!(WMSKeyboardDevice::string_to_report("release"), [0u8; 8]);
}

#[test]
fn encode_single_letters_and_digits() {
    assert_eq!(WMSKeyboardDevice::string_to_report("a"), [0, 0, 4, 0, 0, 0, 0, 0]);
    assert_eq!(WMSKeyboardDevice::string_to_report("z"), [0, 0, 29, 0, 0, 0, 0, 0]);
    assert_eq!(WMSKeyboardDevice::string_to_report("1"), [0, 0, 30, 0, 0, 0, 0, 0]);
    assert_eq!(WMSKeyboardDevice::string_to_report("0"), [0, 0, 39, 0, 0, 0, 0, 0]);
    assert_eq!(WMSKeyboardDevice::string_to_report("/"), [0, 0, 56, 0, 0, 0, 0, 0]);
}

#[test]
fn encode_named_keys() {
    assert_eq!(WMSKeyboardDevice::string_to_report("enter"), [0, 0, 40, 0, 0, 0, 0, 0]);
    assert_eq!(WMSKeyboardDevice::string_to_report("tab"), [0, 0, 43, 0, 0, 0, 0, 0]);
    assert_eq!(WMSKeyboardDevice::string_to_report("space"), [0, 0, 44, 0, 0, 0, 0, 0]);
    assert_eq!(WMSKeyboardDevice::string_to_report("meta"), [0, 0, 231, 0, 0, 0, 0, 0]);
}

#[test]
fn encode_multiple_modifiers() {
    assert_eq!(WMSKeyboardDevice::string_to_report("shift ctrl a"),
        [0x03, 0, 4, 0, 0, 0, 0, 0]);
    assert_eq!(WMSKeyboardDevice::string_to_report("ctrl alt gui x"),
        [0x0d, 0, 27, 0, 0, 0, 0, 0]);
}

#[test]
fn encode_unknown_tokens_degrade_to_noop() {
    assert_eq!(WMSKeyboardDevice::string_to_report("frobnicate"), [0u8; 8]);
    assert_eq!(WMSKeyboardDevice::string_to_report("bogus a"), [0, 0, 4, 0, 0, 0, 0, 0]);
}

#[test]
fn encode_empty_line_is_noop() {
    assert_eq!(WMSKeyboardDevice::string_to_report(""), [0u8; 8]);
    assert_eq!(WMSKeyboardDevice::string_to_report("   "), [0u8; 8]);
}

#[test]
fn encode_tolerates_extra_whitespace() {
    assert_eq!(WMSKeyboardDevice::string_to_report("  shift   a  "),
        [0x02, 0, 4, 0, 0, 0, 0, 0]);
}

#[test]
fn encode_lone_modifier_is_the_key() {
    // A single token is always the key, so a lone "shift" names no
    // known key and encodes a no-op.
    assert_eq!(WMSKeyboardDevice::string_to_report("shift"), [0u8; 8]);
}
