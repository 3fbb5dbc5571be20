//! The vocabulary of events that the back-end hands to its consumer.

use vstd::prelude::*;

verus! {

/// The type without values of the crate `void`, declared so that it can
/// stand in a field. Nothing is claimed of it.
#[verifier::external_type_specification]
#[verifier::external_body]
pub struct ExVoid(void::Void);

/// Identity of a window. The back-end has no windows, so the type has no value.
#[derive(Debug, Clone, Copy, PartialEq)]
pub struct WindowID(pub void::Void);

impl Eq for WindowID {

}

impl std::hash::Hash for WindowID {
    /// There is no window to tell from another: nothing is fed to the hasher.
    fn hash<H: std::hash::Hasher>(&self, _state: &mut H) {
    }
}

/// Identity of a button or key: the code of the raw record that reported it.
#[derive(Debug, Clone, Copy, PartialEq, Eq, Hash, Structural)]
pub struct ButtonID(pub u32);

/// Identity of an axis of motion.
#[derive(Debug, Clone, Copy, PartialEq, Eq, Hash, Structural)]
pub struct AxisID(pub u32);

/// Stable identity of a physical input device: the short name that the
/// operating system gave it.
#[derive(Debug, PartialEq, Eq, Hash)]
pub struct DeviceID {
    name: Vec<u8>,
}

impl View for DeviceID {
    type V = Seq<u8>;

    closed spec fn view(&self) -> Seq<u8> {
        self.name@
    }
}

impl DeviceID {
    /// The identity of the device with the given short name.
    pub fn new(name: Vec<u8>) -> (id: DeviceID)
        ensures
            id@ == name@,
    {
        DeviceID { name }
    }

    /// The short name behind the identity.
    pub fn name(&self) -> (name: &Vec<u8>)
        ensures
            name@ == self@,
    {
        &self.name
    }

    /// Whether two identities name the same device.
    pub fn same(&self, other: &DeviceID) -> (same: bool)
        ensures
            same == (self@ == other@),
    {
        if self.name.len() != other.name.len() {
            return false;
        }
        let mut i: usize = 0;
        while i < self.name.len()
            invariant
                i <= self.name.len(),
                self.name.len() == other.name.len(),
                forall|j: int| 0 <= j < i ==> self.name@[j] == other.name@[j],
            decreases self.name.len() - i,
        {
            if self.name[i] != other.name[i] {
                return false;
            }
            i += 1;
        }
        assert(self.name@ =~= other.name@);
        true
    }
}

impl Clone for DeviceID {
    fn clone(&self) -> (id: DeviceID)
        ensures
            id@ == self@,
    {
        DeviceID { name: self.name.clone() }
    }
}

/// An event as the consumer receives it.
///
/// The window-scoped variant belongs to the wider vocabulary that consumers
/// share with other back-ends. This back-end never produces it.
#[derive(Debug, PartialEq)]
pub enum Event {
    /// Something happened to a window.
    Window { window: WindowID },
    /// A device was plugged in and its node opened.
    DeviceAdded { device: DeviceID },
    /// An open device went away.
    DeviceRemoved { device: DeviceID },
    /// A button or key went down.
    RawButtonPress { device: DeviceID, button: ButtonID },
    /// A button or key came up.
    RawButtonRelease { device: DeviceID, button: ButtonID },
    /// An axis moved, or reported a position.
    RawMotion { device: DeviceID, axis: AxisID, value: i32 },
}

impl Clone for Event {
    fn clone(&self) -> (event: Event)
        ensures
            event@ == self@,
    {
        match self {
            Event::Window { window } => Event::Window { window: *window },
            Event::DeviceAdded { device } => Event::DeviceAdded { device: device.clone() },
            Event::DeviceRemoved { device } => Event::DeviceRemoved { device: device.clone() },
            Event::RawButtonPress { device, button } => Event::RawButtonPress {
                device: device.clone(),
                button: *button,
            },
            Event::RawButtonRelease { device, button } => Event::RawButtonRelease {
                device: device.clone(),
                button: *button,
            },
            Event::RawMotion { device, axis, value } => Event::RawMotion {
                device: device.clone(),
                axis: *axis,
                value: *value,
            },
        }
    }
}

/// What an event says, with the device named by its bytes.
pub enum EventView {
    Window,
    DeviceAdded { device: Seq<u8> },
    DeviceRemoved { device: Seq<u8> },
    RawButtonPress { device: Seq<u8>, button: ButtonID },
    RawButtonRelease { device: Seq<u8>, button: ButtonID },
    RawMotion { device: Seq<u8>, axis: AxisID, value: i32 },
}

impl View for Event {
    type V = EventView;

    open spec fn view(&self) -> EventView {
        match *self {
            Event::Window { .. } => EventView::Window,
            Event::DeviceAdded { device } => EventView::DeviceAdded { device: device@ },
            Event::DeviceRemoved { device } => EventView::DeviceRemoved { device: device@ },
            Event::RawButtonPress { device, button } => EventView::RawButtonPress {
                device: device@,
                button,
            },
            Event::RawButtonRelease { device, button } => EventView::RawButtonRelease {
                device: device@,
                button,
            },
            Event::RawMotion { device, axis, value } => EventView::RawMotion {
                device: device@,
                axis,
                value,
            },
        }
    }
}

} // verus!
