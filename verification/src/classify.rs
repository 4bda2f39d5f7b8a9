//! Classification of a USB interface by its (class, subclass, protocol)
//! descriptor triple into the device kinds the tool cares about.

use vstd::prelude::*;

verus! {

/// USB class code of the Human Interface Device class.
pub const USB_CLASS_HID: u8 = 0x03;

/// HID boot-interface discriminant for a keyboard.
pub const HID_KEYBOARD: u8 = 0x01;

/// HID boot-interface discriminant for a mouse.
pub const HID_MOUSE: u8 = 0x02;

/// The plain values of an interface descriptor that classification
/// reads: class, subclass and protocol codes.
#[derive(Clone, Copy, Debug, PartialEq, Eq, Structural)]
pub struct InterfaceTriple {
    pub class_code: u8,
    pub sub_class_code: u8,
    pub protocol_code: u8,
}

/// What an interface was classified as.
#[derive(Clone, Copy, Debug, PartialEq, Eq, Structural)]
pub enum DeviceKind {
    Keyboard,
    Mouse,
    Unspecified,
}

/// Which descriptor field decides the classification. Some keyboards
/// switch protocols after setup, so matching by subclass is kept as an
/// alternative to matching by protocol.
#[derive(Clone, Copy, Debug, PartialEq, Eq, Structural)]
pub enum ClassifyPolicy {
    ByProtocol,
    BySubclass,
}

/// The classification rule. Under `ByProtocol`, a HID interface with
/// protocol 1 is a keyboard and one with protocol 2 is a mouse. Under
/// `BySubclass`, a HID interface with subclass 1 is a keyboard and
/// nothing else is matched.
pub open spec fn classify_spec(desc: InterfaceTriple, policy: ClassifyPolicy) -> DeviceKind {
    match policy {
        ClassifyPolicy::ByProtocol => {
            if desc.class_code == USB_CLASS_HID && desc.protocol_code == HID_KEYBOARD {
                DeviceKind::Keyboard
            } else if desc.class_code == USB_CLASS_HID && desc.protocol_code == HID_MOUSE {
                DeviceKind::Mouse
            } else {
                DeviceKind::Unspecified
            }
        },
        ClassifyPolicy::BySubclass => {
            if desc.class_code == USB_CLASS_HID && desc.sub_class_code == HID_KEYBOARD {
                DeviceKind::Keyboard
            } else {
                DeviceKind::Unspecified
            }
        },
    }
}

/// Classifies an interface descriptor triple under the given policy.
/// Pure: it reads nothing but its arguments and never fails.
pub fn classify(desc: &InterfaceTriple, policy: ClassifyPolicy) -> (kind: DeviceKind)
    ensures
        kind == classify_spec(*desc, policy),
{
    match policy {
        ClassifyPolicy::ByProtocol => {
            if desc.class_code == USB_CLASS_HID && desc.protocol_code == HID_KEYBOARD {
                DeviceKind::Keyboard
            } else if desc.class_code == USB_CLASS_HID && desc.protocol_code == HID_MOUSE {
                DeviceKind::Mouse
            } else {
                DeviceKind::Unspecified
            }
        },
        ClassifyPolicy::BySubclass => {
            if desc.class_code == USB_CLASS_HID && desc.sub_class_code == HID_KEYBOARD {
                DeviceKind::Keyboard
            } else {
                DeviceKind::Unspecified
            }
        },
    }
}

/// Protocol-based classification, reported as the pair the passive
/// monitor works with: whether the interface is of interest, and the
/// protocol discriminant (1 keyboard, 2 mouse, 0 otherwise).
pub fn check_class(desc: &InterfaceTriple) -> (r: (bool, u8))
    ensures
        r.0 == (classify_spec(*desc, ClassifyPolicy::ByProtocol) != DeviceKind::Unspecified),
        r.1 == match classify_spec(*desc, ClassifyPolicy::ByProtocol) {
            DeviceKind::Keyboard => HID_KEYBOARD,
            DeviceKind::Mouse => HID_MOUSE,
            DeviceKind::Unspecified => 0u8,
        },
{
    match classify(desc, ClassifyPolicy::ByProtocol) {
        DeviceKind::Keyboard => (true, HID_KEYBOARD),
        DeviceKind::Mouse => (true, HID_MOUSE),
        DeviceKind::Unspecified => (false, 0),
    }
}

/// Subclass-based keyboard test used by the gadget workflows.
pub fn is_keyboard(desc: &InterfaceTriple) -> (b: bool)
    ensures
        b == (classify_spec(*desc, ClassifyPolicy::BySubclass) == DeviceKind::Keyboard),
{
    desc.class_code == USB_CLASS_HID && desc.sub_class_code == HID_KEYBOARD
}

/// Classification is a function of the descriptor and policy alone:
/// any two results obtained for the same triple under the same policy
/// are the same variant, however often it is repeated.
pub proof fn lemma_classify_idempotent(
    desc: InterfaceTriple,
    policy: ClassifyPolicy,
    first: DeviceKind,
    second: DeviceKind,
)
    requires
        first == classify_spec(desc, policy),
        second == classify_spec(desc, policy),
    ensures
        first == second,
{
}

} // verus!
