//! The gadget attack engine's verified core: the error taxonomy, the
//! keyboard device's script state and injection plan, the
//! mass-storage device's paths and sync command, and the fixed
//! configuration values under which the emulated gadgets are built.
//! Binding a gadget, opening device nodes and writing reports are done
//! by the process around the library, on the plain values produced
//! here.

use vstd::prelude::*;
use usbd_hid::descriptor::SerializedDescriptor;
use crate::keymap::encode_line_spec;
use crate::keymap::str_to_keycode;

verus! {

/// The closed set of failures the attack workflows report. Carried
/// detail of the underlying I/O failure stays with the process around
/// the library.
#[derive(Clone, Copy, Debug, PartialEq, Eq, Structural)]
pub enum WMSError {
    FileError,
    SyntaxError,
    GadgetSetupError,
    RuntimeError,
}

/// Milliseconds between two injected keystrokes, a human-plausible
/// typing interval.
pub const KEYSTROKE_DELAY_MS: u64 = 100;

/// Milliseconds the engine waits after binding the gadget before it
/// opens the device node.
pub const GADGET_SETTLE_DELAY_MS: u64 = 1000;

/// The fixed identity under which every emulated gadget is
/// registered: device class triple, vendor and product ids, and the
/// descriptive strings.
pub struct GadgetIdentity {
    pub device_class: u8,
    pub device_subclass: u8,
    pub device_protocol: u8,
    pub vendor_id: u16,
    pub product_id: u16,
    pub manufacturer: String,
    pub product: String,
    pub serial: String,
    pub config_name: String,
}

/// The identity every gadget of the engine registers under.
pub fn gadget_identity() -> (g: GadgetIdentity)
    ensures
        g.device_class == 1,
        g.device_subclass == 2,
        g.device_protocol == 3,
        g.vendor_id == 4,
        g.product_id == 5,
        g.manufacturer@ == "Cole"@,
        g.product@ == "evil USB"@,
        g.serial@ == "Cereal Value"@,
        g.config_name@ == "cfg1"@,
{
    GadgetIdentity {
        device_class: 1,
        device_subclass: 2,
        device_protocol: 3,
        vendor_id: 4,
        product_id: 5,
        manufacturer: "Cole".to_owned(),
        product: "evil USB".to_owned(),
        serial: "Cereal Value".to_owned(),
        config_name: "cfg1".to_owned(),
    }
}

/// The HID function a keyboard gadget is built with: boot keyboard
/// subclass and protocol, 8-byte reports, and the serialized report
/// descriptor.
pub struct HidFunctionConfig {
    pub protocol: u8,
    pub sub_class: u8,
    pub report_len: u8,
    pub report_desc: Vec<u8>,
}

/// Relies on usbd_hid's `KeyboardReport::desc`: the serialized HID
/// report descriptor of a boot keyboard, a fixed constant of that
/// crate.
#[verifier::external_body]
fn keyboard_report_descriptor() -> (r: Vec<u8>) {
    usbd_hid::descriptor::KeyboardReport::desc().to_vec()
}

/// The function configuration of the emulated keyboard gadget.
pub fn keyboard_function_config() -> (c: HidFunctionConfig)
    ensures
        c.protocol == 1,
        c.sub_class == 1,
        c.report_len == 8,
{
    HidFunctionConfig {
        protocol: 1,
        sub_class: 1,
        report_len: 8,
        report_desc: keyboard_report_descriptor(),
    }
}

/// The device node under which the bound HID gadget appears.
pub fn hid_device_node() -> (s: String)
    ensures
        s@ == "/dev/hidg0"@,
{
    "/dev/hidg0".to_owned()
}

/// The emulated keyboard's verified state: the encoded keystroke
/// reports loaded from a script. The gadget registration and the open
/// device node are owned by the process around the library.
pub struct WMSKeyboardDevice {
    pub keystrokes: Vec<[u8; 8]>,
}

impl WMSKeyboardDevice {
    /// A keyboard device with no keystrokes loaded.
    pub fn new() -> (d: WMSKeyboardDevice)
        ensures
            d.keystrokes@.len() == 0,
    {
        WMSKeyboardDevice { keystrokes: Vec::new() }
    }

    /// Converts a script line to a HID report.
    ///
    /// A line holds a single key, possibly preceded by modifiers:
    /// `a`, `shift a`, `shift ctrl a`.
    pub fn string_to_report(s: &str) -> (r: [u8; 8])
        ensures
            r@ == encode_line_spec(s@),
    {
        str_to_keycode(s)
    }

    /// Appends the report each script line encodes, in order. A
    /// malformed line degrades to a no-op report, so loading never
    /// fails.
    pub fn load_script(&mut self, lines: &Vec<String>) -> (r: Result<(), WMSError>)
        ensures
            r is Ok,
            final(self).keystrokes@.len() == old(self).keystrokes@.len() + lines@.len(),
            forall|k: int|
                0 <= k < old(self).keystrokes@.len() ==> final(self).keystrokes@[k] == old(
                    self,
                ).keystrokes@[k],
            forall|k: int|
                0 <= k < lines@.len() ==> (#[trigger] final(self).keystrokes@[old(
                    self,
                ).keystrokes@.len() + k])@ == encode_line_spec(lines@[k]@),
    {
        let ghost n0 = self.keystrokes@.len();
        let mut k: usize = 0;
        while k < lines.len()
            invariant
                0 <= k <= lines@.len(),
                self.keystrokes@.len() == n0 + k,
                forall|t: int|
                    0 <= t < n0 ==> self.keystrokes@[t] == old(self).keystrokes@[t],
                forall|t: int|
                    0 <= t < k ==> (#[trigger] self.keystrokes@[n0 + t])@ == encode_line_spec(
                        lines@[t]@,
                    ),
            decreases lines@.len() - k,
        {
            let report = str_to_keycode(lines[k].as_str());
            self.keystrokes.push(report);
            k = k + 1;
        }
        Ok(())
    }

    /// The reports the injection workflow writes to the device node,
    /// in order: every loaded keystroke, then the all-zero release
    /// report that clears the emulated keyboard's state.
    pub fn injection_reports(&self) -> (v: Vec<[u8; 8]>)
        ensures
            v@.len() == self.keystrokes@.len() + 1,
            forall|k: int| 0 <= k < self.keystrokes@.len() ==> v@[k] == self.keystrokes@[k],
            forall|j: int| 0 <= j < 8 ==> (v@[self.keystrokes@.len() as int])@[j] == 0u8,
    {
        let mut v: Vec<[u8; 8]> = Vec::new();
        let mut k: usize = 0;
        while k < self.keystrokes.len()
            invariant
                0 <= k <= self.keystrokes@.len(),
                v@.len() == k,
                forall|t: int| 0 <= t < k ==> v@[t] == self.keystrokes@[t],
            decreases self.keystrokes@.len() - k,
        {
            v.push(self.keystrokes[k]);
            k = k + 1;
        }
        v.push([0u8; 8]);
        v
    }
}

/// The mass-storage gadget's verified state: the backing path exposed
/// to the victim host and the log path the backing path is mirrored
/// to.
pub struct WMSMassStorageDevice {
    pub fakefs: String,
    pub logfs: Option<String>,
}

impl WMSMassStorageDevice {
    /// A mass-storage device backed by the given path, with no log
    /// path configured yet.
    pub fn new(path: String) -> (d: WMSMassStorageDevice)
        ensures
            d.fakefs@ == path@,
            d.logfs is None,
    {
        WMSMassStorageDevice { fakefs: path, logfs: None }
    }

    /// Configures the log path the backing path is mirrored to.
    pub fn open_logfile(&mut self, path: String) -> (r: Result<(), WMSError>)
        ensures
            r is Ok,
            final(self).fakefs == old(self).fakefs,
            final(self).logfs matches Some(p) && p@ == path@,
    {
        self.logfs = Some(path);
        Ok(())
    }

    /// The argument list of the external sync invocation that mirrors
    /// the backing path to the log path: recursive archive flags, no
    /// compression, source, destination.
    pub fn sync_command_args(&self) -> (args: Vec<String>)
        requires
            self.logfs is Some,
        ensures
            args@.len() == 4,
            args@[0]@ == "-avW"@,
            args@[1]@ == "--no-compress"@,
            args@[2]@ == self.fakefs@,
            args@[3]@ == self.logfs->0@,
    {
        let mut args: Vec<String> = Vec::new();
        args.push("-avW".to_owned());
        args.push("--no-compress".to_owned());
        args.push(self.fakefs.clone());
        match &self.logfs {
            Some(p) => args.push(p.clone()),
            None => (),
        }
        args
    }
}

} // verus!
