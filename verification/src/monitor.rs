//! The hotplug detector: a callback interface over attach and detach
//! notifications, the passive monitor's session state machine, and the
//! dispatch of a notification stream to a callback. The event pump
//! that blocks on the USB stack lives outside the library and hands
//! each notification in as a plain identity pair.

use vstd::prelude::*;
use crate::classify::{
    check_class, classify_spec, ClassifyPolicy, DeviceKind, InterfaceTriple, HID_KEYBOARD,
};

verus! {

/// One hotplug notification: a device with the given identity arrived
/// on the bus, or left it.
#[derive(Clone, Copy, Debug, PartialEq, Eq, Structural)]
pub enum HotplugEvent {
    Arrived { vid: u16, pid: u16 },
    Left { vid: u16, pid: u16 },
}

/// What a workflow does with attach and detach notifications. The two
/// spec functions name the state transition each notification causes,
/// and the methods promise to perform exactly that transition.
pub trait UsbCallback: Sized {
    /// The state after an arrival of the given identity.
    spec fn added_spec(self, dev_vid: u16, dev_pid: u16) -> Self;

    /// The state after a removal of the given identity.
    spec fn removed_spec(self, dev_vid: u16, dev_pid: u16) -> Self;

    /// Acts on an arrival notification.
    fn device_added(&mut self, dev_vid: u16, dev_pid: u16)
        ensures
            *final(self) == old(self).added_spec(dev_vid, dev_pid),
    ;

    /// Acts on a removal notification.
    fn device_removed(&mut self, dev_vid: u16, dev_pid: u16)
        ensures
            *final(self) == old(self).removed_spec(dev_vid, dev_pid),
    ;
}

/// The passive monitor's session state: the identity it tracks, a
/// flag recording that a first arrival was seen, and whether a worker
/// session is live. The cancellation channel itself is owned by the
/// process around the library; `session_live` mirrors its presence.
#[derive(Clone, Copy, Debug, PartialEq, Eq, Structural)]
pub struct App {
    pub vid: u16,
    pub pid: u16,
    pub init: u8,
    pub session_live: bool,
}

impl App {
    /// A monitor tracking no device.
    pub fn new() -> (app: App)
        ensures
            app.vid == 0,
            app.pid == 0,
            app.init == 0,
            !app.session_live,
    {
        App { vid: 0, pid: 0, init: 0, session_live: false }
    }

    /// Whether a removal notification of this identity must stop the
    /// running worker: only when a session is live and the identity is
    /// the tracked one.
    pub fn should_stop(&self, dev_vid: u16, dev_pid: u16) -> (b: bool)
        ensures
            b == (self.session_live && self.vid == dev_vid && self.pid == dev_pid),
    {
        self.session_live && self.vid == dev_vid && self.pid == dev_pid
    }

    /// Wires the monitor into a detector ready to be driven by the
    /// event pump.
    pub fn run(self) -> (d: Detect<App>)
        ensures
            d.callback() == self,
    {
        Detect::new(self)
    }
}

impl UsbCallback for App {
    /// An arrival starts a session for the arrived identity.
    open spec fn added_spec(self, dev_vid: u16, dev_pid: u16) -> App {
        App { vid: dev_vid, pid: dev_pid, init: 1, session_live: true }
    }

    /// A removal whose identity matches the tracked one ends the
    /// session and zeroes the identity; any other removal changes
    /// nothing.
    open spec fn removed_spec(self, dev_vid: u16, dev_pid: u16) -> App {
        if self.session_live && self.vid == dev_vid && self.pid == dev_pid {
            App { vid: 0, pid: 0, init: self.init, session_live: false }
        } else {
            self
        }
    }

    fn device_added(&mut self, dev_vid: u16, dev_pid: u16) {
        self.vid = dev_vid;
        self.pid = dev_pid;
        self.init = 1;
        self.session_live = true;
    }

    fn device_removed(&mut self, dev_vid: u16, dev_pid: u16) {
        if self.session_live && self.vid == dev_vid && self.pid == dev_pid {
            self.vid = 0;
            self.pid = 0;
            self.session_live = false;
        }
    }
}

/// The state a callback reaches on one notification.
pub open spec fn dispatch_spec<C: UsbCallback>(c: C, ev: HotplugEvent) -> C {
    match ev {
        HotplugEvent::Arrived { vid, pid } => c.added_spec(vid, pid),
        HotplugEvent::Left { vid, pid } => c.removed_spec(vid, pid),
    }
}

/// The hotplug detector: holds the workflow callback and hands it
/// each notification of the bus's single event stream.
pub struct Detect<C: UsbCallback> {
    callback: C,
}

impl<C: UsbCallback> Detect<C> {
    /// The callback the detector drives.
    pub closed spec fn callback(&self) -> C {
        self.callback
    }

    /// The callback, for the event pump around the library to
    /// consult between notifications.
    pub fn callback_ref(&self) -> (c: &C)
        ensures
            c == self.callback(),
    {
        &self.callback
    }

    /// A detector over the given workflow callback.
    pub fn new(callback: C) -> (d: Detect<C>)
        ensures
            d.callback() == callback,
    {
        Detect { callback }
    }

    /// Hands one notification to the callback.
    pub fn dispatch(&mut self, event: &HotplugEvent)
        ensures
            final(self).callback() == dispatch_spec(old(self).callback(), *event),
    {
        match event {
            HotplugEvent::Arrived { vid, pid } => self.callback.device_added(*vid, *pid),
            HotplugEvent::Left { vid, pid } => self.callback.device_removed(*vid, *pid),
        }
    }
}

/// Which interface a classified arrival is read on, and with which
/// protocol decoder: a keyboard is read on interface 0 (boot keyboards
/// switch interfaces after setup), anything else on the interface of
/// the active configuration. An unclassified arrival is dropped.
pub fn arrival_interface(desc: &InterfaceTriple, active_config: u8) -> (r: Option<(u8, u8)>)
    ensures
        r is Some <==> classify_spec(*desc, ClassifyPolicy::ByProtocol) != DeviceKind::Unspecified,
        classify_spec(*desc, ClassifyPolicy::ByProtocol) == DeviceKind::Keyboard ==> r == Some(
            (0u8, 1u8),
        ),
        classify_spec(*desc, ClassifyPolicy::ByProtocol) == DeviceKind::Mouse ==> r == Some(
            (active_config, 2u8),
        ),
{
    let (valid, prot) = check_class(desc);
    if !valid {
        return None;
    }
    if prot == HID_KEYBOARD {
        Some((0, prot))
    } else {
        Some((active_config, prot))
    }
}

} // verus!
