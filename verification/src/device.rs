//! Open device handles, and the table that owns them.

use vstd::prelude::*;
use crate::event::DeviceID;

verus! {

/// An open device node. The table owns it; letting go of it closes the node.
pub struct Device<D>(D);

impl<D> View for Device<D> {
    type V = D;

    closed spec fn view(&self) -> D {
        self.0
    }
}

impl<D> Device<D> {
    /// Wraps a node that was just opened.
    pub fn new(evdev: D) -> (device: Device<D>)
        ensures
            device@ == evdev,
    {
        Device(evdev)
    }

    /// The node, to ask it whether it can be read.
    pub fn get_ref(&self) -> (evdev: &D)
        ensures
            *evdev == self@,
    {
        &self.0
    }

    /// The node, to read from it.
    pub fn get_mut(&mut self) -> (evdev: &mut D)
        ensures
            *evdev == old(self)@,
            final(self)@ == *final(evdev),
    {
        &mut self.0
    }

    /// Gives the node back.
    pub fn into_inner(self) -> (evdev: D)
        ensures
            evdev == self@,
    {
        self.0
    }
}

/// Whether no two entries carry the same identity.
pub open spec fn unique<D>(entries: Seq<(Seq<u8>, D)>) -> bool {
    forall|i: int, j: int|
        0 <= i < j < entries.len() ==> (#[trigger] entries[i]).0 != (#[trigger] entries[j]).0
}

/// Whether some entry carries the identity `id`.
pub open spec fn holds<D>(entries: Seq<(Seq<u8>, D)>, id: Seq<u8>) -> bool {
    exists|i: int| 0 <= i < entries.len() && (#[trigger] entries[i]).0 == id
}

/// The position of the entry that carries the identity `id`, where there is one.
pub open spec fn position<D>(entries: Seq<(Seq<u8>, D)>, id: Seq<u8>) -> int {
    choose|i: int| 0 <= i < entries.len() && (#[trigger] entries[i]).0 == id
}

/// Using a device leaves the identities as they are, and so different.
pub proof fn used_keeps_unique<D>(entries: Seq<(Seq<u8>, D)>, index: int, device: D)
    requires
        unique(entries),
        0 <= index < entries.len(),
    ensures
        unique(entries.update(index, (entries[index].0, device))),
{
}

/// An entry under an identity that the table does not hold keeps the
/// identities different.
pub proof fn push_keeps_unique<D>(entries: Seq<(Seq<u8>, D)>, id: Seq<u8>, device: D)
    requires
        unique(entries),
        !holds(entries, id),
    ensures
        unique(entries.push((id, device))),
        holds(entries.push((id, device)), id),
{
    assert(entries.push((id, device))[entries.len() as int].0 == id);
}

/// Without the entry under an identity the others stay different, and the
/// identity is gone from the table.
pub proof fn remove_keeps_unique<D>(entries: Seq<(Seq<u8>, D)>, id: Seq<u8>)
    requires
        unique(entries),
        holds(entries, id),
    ensures
        0 <= position(entries, id) < entries.len(),
        entries[position(entries, id)].0 == id,
        unique(entries.remove(position(entries, id))),
        !holds(entries.remove(position(entries, id)), id),
{
}

/// Using a device changes no identity, so the table holds what it held.
pub proof fn used_keeps_held<D>(entries: Seq<(Seq<u8>, D)>, index: int, device: D, id: Seq<u8>)
    requires
        0 <= index < entries.len(),
    ensures
        holds(entries.update(index, (entries[index].0, device)), id) == holds(entries, id),
{
    let after = entries.update(index, (entries[index].0, device));
    if holds(entries, id) {
        assert(after[position(entries, id)].0 == id);
    }
}

struct Entry<D> {
    id: DeviceID,
    device: Device<D>,
}

/// The open devices, each under the identity it was opened for, in the order
/// in which they were opened. No identity occurs twice.
pub struct DeviceTable<D> {
    entries: Vec<Entry<D>>,
}

impl<D> View for DeviceTable<D> {
    type V = Seq<(Seq<u8>, D)>;

    closed spec fn view(&self) -> Seq<(Seq<u8>, D)> {
        Seq::new(self.entries@.len(), |i: int| (self.entries@[i].id@, self.entries@[i].device@))
    }
}

impl<D> DeviceTable<D> {
    /// Whether the table is in order: no identity occurs twice.
    pub open spec fn wf(&self) -> bool {
        unique(self@)
    }

    /// A table without devices.
    pub fn new() -> (table: DeviceTable<D>)
        ensures
            table.wf(),
            table@ == Seq::<(Seq<u8>, D)>::empty(),
    {
        let table = DeviceTable { entries: Vec::new() };
        table
    }

    /// The number of open devices.
    pub fn len(&self) -> (n: usize)
        ensures
            n == self@.len(),
    {
        self.entries.len()
    }

    /// The position of the device with identity `id`, if it is open.
    pub fn find(&self, id: &DeviceID) -> (found: Option<usize>)
        ensures
            match found {
                Some(i) => i < self@.len() && self@[i as int].0 == id@,
                None => !holds(self@, id@),
            },
    {
        let mut i: usize = 0;
        while i < self.entries.len()
            invariant
                i <= self.entries.len(),
                forall|j: int| 0 <= j < i ==> (#[trigger] self@[j]).0 != id@,
            decreases self.entries.len() - i,
        {
            if self.entries[i].id.same(id) {
                return Some(i);
            }
            i += 1;
        }
        None
    }

    /// The identity of the device at position `index`.
    pub fn id(&self, index: usize) -> (id: &DeviceID)
        requires
            index < self@.len(),
        ensures
            id@ == self@[index as int].0,
    {
        &self.entries[index].id
    }

    /// The device at position `index`, to ask it whether it can be read.
    pub fn get(&self, index: usize) -> (device: &Device<D>)
        requires
            index < self@.len(),
        ensures
            device@ == self@[index as int].1,
    {
        &self.entries[index].device
    }

    /// The device at position `index`, to read from it. Whatever the caller
    /// does to the device, it stays where it is and under its identity.
    pub fn get_mut(&mut self, index: usize) -> (device: &mut Device<D>)
        requires
            index < old(self)@.len(),
        ensures
            device@ == old(self)@[index as int].1,
            final(self)@ == old(self)@.update(
                index as int,
                (old(self)@[index as int].0, final(device)@),
            ),
            old(self).wf() ==> final(self).wf(),
    {
        proof {
            let entries = self@;
            assert forall|d: D| unique(entries) implies #[trigger] unique(
                entries.update(index as int, (entries[index as int].0, d)),
            ) by {
                used_keeps_unique(entries, index as int, d);
            }
        }
        &mut self.entries[index].device
    }

    /// Takes `device` in under the identity `id`, behind the devices that are
    /// open already. Where a device is open under that identity the table
    /// stays as it is and `device` comes back.
    pub fn insert(&mut self, id: DeviceID, device: Device<D>) -> (refused: Option<Device<D>>)
        requires
            old(self).wf(),
        ensures
            final(self).wf(),
            holds(old(self)@, id@) ==> final(self)@ == old(self)@ && refused == Some(device),
            !holds(old(self)@, id@) ==> final(self)@ == old(self)@.push((id@, device@))
                && refused is None,
    {
        match self.find(&id) {
            Some(_) => Some(device),
            None => {
                self.entries.push(Entry { id, device });
                assert(self@ =~= old(self)@.push((id@, device@)));
                None
            },
        }
    }

    /// Takes the device with identity `id` out of the table and hands it over.
    /// The other devices keep their order.
    pub fn remove(&mut self, id: &DeviceID) -> (removed: Option<Device<D>>)
        requires
            old(self).wf(),
        ensures
            final(self).wf(),
            match removed {
                Some(device) => holds(old(self)@, id@) && device@ == old(self)@[position(
                    old(self)@,
                    id@,
                )].1 && final(self)@ == old(self)@.remove(position(old(self)@, id@)),
                None => !holds(old(self)@, id@) && final(self)@ == old(self)@,
            },
    {
        match self.find(id) {
            Some(i) => {
                let entry = self.entries.remove(i);
                assert(self@ =~= old(self)@.remove(i as int));
                Some(entry.device)
            },
            None => None,
        }
    }
}

} // verus!
