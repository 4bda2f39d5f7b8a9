//! Verified core of a USB HID monitoring and injection tool.
//!
//! The library holds the logic that can be checked: interface
//! classification, HID report decoding and encoding, the decision rules
//! of the cancellable transfer loop, the hotplug detector's state
//! machine, the gadget configuration values, and the storage mirror's
//! drain rule. The surrounding process (libusb calls, gadget binding,
//! file handling, threads) lives outside the library and hands plain
//! values in and out.

pub mod classify;
pub mod gadget;
pub mod keymap;
pub mod mirror;
pub mod monitor;
pub mod report;
pub mod transfer;

pub use classify::check_class;
pub use classify::classify;
pub use classify::is_keyboard;
pub use classify::ClassifyPolicy;
pub use classify::DeviceKind;
pub use classify::InterfaceTriple;
pub use gadget::WMSError;
pub use gadget::WMSKeyboardDevice;
pub use gadget::WMSMassStorageDevice;
pub use monitor::App;
pub use monitor::Detect;
pub use monitor::HotplugEvent;
pub use monitor::UsbCallback;
pub use report::KeyboardEvent;
pub use report::ModifierKey;
pub use report::MouseButtons;
pub use transfer::CancelPoll;
pub use transfer::LoopRun;
pub use transfer::StopCause;
pub use transfer::TransferOutcome;
