//! The stream as a machine: what it holds, what it can be told, and what it
//! then holds and asks for.
//!
//! The stream does no I/O. It asks its driver for one thing at a time (an
//! `Action`), the driver does it and tells the stream what came of it (an
//! `Input`).

use vstd::prelude::*;
use crate::context::{add_action, remove_action, DeviceInfoView};
use crate::device::{holds, position, unique};
use crate::event::EventView;
use crate::record::{ReadFlag, ReadStatus};
use crate::translate::translate;

verus! {

/// Where the stream stands, and so what it waits for.
pub enum PhaseView {
    /// Taking in the devices that were present before the stream: waits for
    /// the next of them.
    Seeding,
    /// Waits for the node of `device` to be opened. `announce` says whether
    /// the consumer is to hear of the device.
    Opening { device: Seq<u8>, announce: bool },
    /// Between two pulls of the consumer.
    Idle,
    /// A pull has begun: waits to hear whether the monitor can be read.
    MonitorReadiness,
    /// Waits to hear whether the device at `index` can be read.
    DeviceReadiness { index: int },
    /// Waits for a read from the device at `index`, asked for with `flag`.
    Draining { index: int, flag: ReadFlag },
    /// Waits for the monitor's next notification.
    Receiving,
    /// The monitor has failed. The stream is over.
    Failed,
}

/// What the stream asks of its driver.
pub enum ActionView {
    /// Hand over the next device that is present, or say that there is none
    /// left.
    Enumerate,
    /// Open the node at this path, read-only and without blocking.
    Open { node: Seq<u8> },
    /// Nothing: the stream waits for the consumer's next pull.
    Idle,
    /// Say whether the monitor can be read.
    PollMonitor,
    /// Say whether the device at `index` can be read.
    PollDevice { index: int },
    /// Read one record from the device at `index`, in the way `flag` says.
    Read { index: int, flag: ReadFlag },
    /// Receive the monitor's next notification, if one is pending.
    Receive,
    /// Hand this event to the consumer. The pull is over.
    Ready(EventView),
    /// Ask the monitor once more to signal when it can be read, and tell the
    /// consumer that nothing is ready. The pull is over.
    NotReady,
    /// Tell the consumer that the stream has failed. No event follows.
    Failed,
}

impl ActionView {
    /// Whether the action ends a pull.
    pub open spec fn ends_pull(self) -> bool {
        self is Ready || self is NotReady
    }
}

/// What the driver tells the stream.
pub enum Input<D> {
    /// The next device that is present, or that none is left.
    Found(Option<DeviceInfoView>),
    /// The node that was opened, or that opening it failed.
    Opened(Option<D>),
    /// The consumer pulls.
    Poll,
    /// Whether the source that was asked about can be read.
    Readable(bool),
    /// The monitor could not be asked whether it can be read, and never will.
    Failed,
    /// What a read gave.
    Read(ReadStatus),
    /// The monitor's next notification, or that none is pending.
    Notified(Option<DeviceInfoView>),
    /// The driver has used the device at `index`, which is now `device`.
    Used { index: int, device: D },
}

/// All that the stream holds.
pub struct StreamView<D> {
    /// The open devices, each with its identity, in the order of opening.
    pub devices: Seq<(Seq<u8>, D)>,
    /// The events that wait for the consumer, oldest first.
    pub buffer: Seq<EventView>,
    /// Where the stream stands.
    pub phase: PhaseView,
}

impl<D> StreamView<D> {
    /// Whether the stream is in order: no identity is open twice, the device
    /// that the stream waits for exists, a node that is being opened is not
    /// open yet, and no window event waits in the buffer.
    pub open spec fn wf(self) -> bool {
        &&& unique(self.devices)
        &&& forall|i: int| 0 <= i < self.buffer.len() ==> !(#[trigger] self.buffer[i] is Window)
        &&& match self.phase {
            PhaseView::DeviceReadiness { index } => 0 <= index < self.devices.len(),
            PhaseView::Draining { index, .. } => 0 <= index < self.devices.len(),
            PhaseView::Opening { device, .. } => !holds(self.devices, device),
            _ => true,
        }
    }

    /// The same stream in another phase.
    pub open spec fn at(self, phase: PhaseView) -> StreamView<D> {
        StreamView { phase, ..self }
    }

    /// The same stream with `event` behind the events that wait, if there is
    /// one.
    pub open spec fn with(self, event: Option<EventView>) -> StreamView<D> {
        match event {
            Some(e) => StreamView { buffer: self.buffer.push(e), ..self },
            None => self,
        }
    }
}

/// The first step of draining: the first device is read, or, without
/// devices, the monitor.
pub open spec fn begin_drain<D>(s: StreamView<D>) -> (StreamView<D>, Option<ActionView>) {
    if s.devices.len() == 0 {
        (s.at(PhaseView::Receiving), Some(ActionView::Receive))
    } else {
        (
            s.at(PhaseView::Draining { index: 0, flag: ReadFlag::Normal }),
            Some(ActionView::Read { index: 0, flag: ReadFlag::Normal }),
        )
    }
}

/// A device of the monitor is considered for opening. It is opened if it has
/// a node and is not open already; else it is passed over and the stream
/// asks for the next.
pub open spec fn consider<D>(s: StreamView<D>, info: DeviceInfoView, announce: bool) -> (
    StreamView<D>,
    Option<ActionView>,
) {
    match info.devnode {
        Some(node) if !holds(s.devices, info.sysname) => (
            s.at(PhaseView::Opening { device: info.sysname, announce }),
            Some(ActionView::Open { node }),
        ),
        _ => (
            s,
            Some(
                if announce {
                    ActionView::Receive
                } else {
                    ActionView::Enumerate
                },
            ),
        ),
    }
}

/// The stream is told of a device that is present.
pub open spec fn on_found<D>(s: StreamView<D>, found: Option<DeviceInfoView>) -> (
    StreamView<D>,
    Option<ActionView>,
) {
    match s.phase {
        PhaseView::Seeding => match found {
            Some(info) => consider(s, info, false),
            None => (s.at(PhaseView::Idle), Some(ActionView::Idle)),
        },
        _ => (s, None),
    }
}

/// The stream is told what came of opening a node.
pub open spec fn on_opened<D>(s: StreamView<D>, opened: Option<D>) -> (
    StreamView<D>,
    Option<ActionView>,
) {
    match s.phase {
        PhaseView::Opening { device, announce } => {
            let (phase, action) = if announce {
                (PhaseView::Receiving, ActionView::Receive)
            } else {
                (PhaseView::Seeding, ActionView::Enumerate)
            };
            match opened {
                Some(handle) => (
                    StreamView {
                        devices: s.devices.push((device, handle)),
                        buffer: if announce {
                            s.buffer.push(EventView::DeviceAdded { device })
                        } else {
                            s.buffer
                        },
                        phase,
                    },
                    Some(action),
                ),
                None => (s.at(phase), Some(action)),
            }
        },
        _ => (s, None),
    }
}

/// The consumer pulls. A stream that has failed says so again.
pub open spec fn on_poll<D>(s: StreamView<D>) -> (StreamView<D>, Option<ActionView>) {
    match s.phase {
        PhaseView::Idle => (s.at(PhaseView::MonitorReadiness), Some(ActionView::PollMonitor)),
        PhaseView::Failed => (s, Some(ActionView::Failed)),
        _ => (s, None),
    }
}

/// The stream is told that the monitor has failed. The stream is over: the
/// consumer is told of the failure, and of no event after it.
pub open spec fn on_failed<D>(s: StreamView<D>) -> (StreamView<D>, Option<ActionView>) {
    match s.phase {
        PhaseView::MonitorReadiness => (s.at(PhaseView::Failed), Some(ActionView::Failed)),
        _ => (s, None),
    }
}

/// The stream is told whether a source can be read. The first source that
/// can starts the draining; if none can, the pull ends.
pub open spec fn on_readable<D>(s: StreamView<D>, ready: bool) -> (
    StreamView<D>,
    Option<ActionView>,
) {
    match s.phase {
        PhaseView::MonitorReadiness => if ready {
            begin_drain(s)
        } else if s.devices.len() == 0 {
            (s.at(PhaseView::Idle), Some(ActionView::NotReady))
        } else {
            (s.at(PhaseView::DeviceReadiness { index: 0 }), Some(ActionView::PollDevice { index: 0 }))
        },
        PhaseView::DeviceReadiness { index } => if ready {
            begin_drain(s)
        } else if index + 1 < s.devices.len() {
            (
                s.at(PhaseView::DeviceReadiness { index: index + 1 }),
                Some(ActionView::PollDevice { index: index + 1 }),
            )
        } else {
            (s.at(PhaseView::Idle), Some(ActionView::NotReady))
        },
        _ => (s, None),
    }
}

/// The stream is told what a read gave. A record is translated and its
/// event, if any, goes behind the events that wait. Word of lost records
/// turns the following reads of this device into reads of its replay, until
/// the device has nothing more to replay; then it is read in the ordinary
/// way again. When a device that is read in the ordinary way has nothing
/// more, the next device is read, and after the last device the monitor.
pub open spec fn on_read<D>(s: StreamView<D>, status: ReadStatus) -> (
    StreamView<D>,
    Option<ActionView>,
) {
    match s.phase {
        PhaseView::Draining { index, flag } => match status {
            ReadStatus::Again => if flag == ReadFlag::Sync {
                (
                    s.at(PhaseView::Draining { index, flag: ReadFlag::Normal }),
                    Some(ActionView::Read { index, flag: ReadFlag::Normal }),
                )
            } else if index + 1 < s.devices.len() {
                (
                    s.at(PhaseView::Draining { index: index + 1, flag: ReadFlag::Normal }),
                    Some(ActionView::Read { index: index + 1, flag: ReadFlag::Normal }),
                )
            } else {
                (s.at(PhaseView::Receiving), Some(ActionView::Receive))
            },
            ReadStatus::Sync(record) => (
                s.with(translate(s.devices[index].0, record)).at(
                    PhaseView::Draining { index, flag: ReadFlag::Sync },
                ),
                Some(ActionView::Read { index, flag: ReadFlag::Sync }),
            ),
            ReadStatus::Success(record) => (
                s.with(translate(s.devices[index].0, record)),
                Some(ActionView::Read { index, flag }),
            ),
        },
        _ => (s, None),
    }
}

/// The stream is told of the monitor's next notification. A device that was
/// plugged in is considered for opening. A device that went away leaves the
/// table, and the consumer hears of it, if it was open. Any other
/// notification is passed over. When no notification is pending, the oldest
/// event that waits is handed out; if none waits, nothing is ready.
pub open spec fn on_notified<D>(s: StreamView<D>, notified: Option<DeviceInfoView>) -> (
    StreamView<D>,
    Option<ActionView>,
) {
    match s.phase {
        PhaseView::Receiving => match notified {
            Some(info) => if info.action == add_action() {
                consider(s, info, true)
            } else if info.action == remove_action() && holds(s.devices, info.sysname) {
                (
                    StreamView {
                        devices: s.devices.remove(position(s.devices, info.sysname)),
                        buffer: s.buffer.push(EventView::DeviceRemoved { device: info.sysname }),
                        phase: s.phase,
                    },
                    Some(ActionView::Receive),
                )
            } else {
                (s, Some(ActionView::Receive))
            },
            None => if s.buffer.len() > 0 {
                (
                    StreamView {
                        devices: s.devices,
                        buffer: s.buffer.drop_first(),
                        phase: PhaseView::Idle,
                    },
                    Some(ActionView::Ready(s.buffer[0])),
                )
            } else {
                (s.at(PhaseView::Idle), Some(ActionView::NotReady))
            },
        },
        _ => (s, None),
    }
}

/// The driver has used a device. Nothing but that device has changed.
pub open spec fn on_used<D>(s: StreamView<D>, index: int, device: D) -> (
    StreamView<D>,
    Option<ActionView>,
) {
    if 0 <= index < s.devices.len() {
        (
            StreamView { devices: s.devices.update(index, (s.devices[index].0, device)), ..s },
            None,
        )
    } else {
        (s, None)
    }
}

/// What the stream holds after an input, and what it then asks for. It asks
/// for nothing, and holds what it held, when the input is not the one that
/// it waits for.
pub open spec fn next<D>(s: StreamView<D>, input: Input<D>) -> (StreamView<D>, Option<ActionView>) {
    match input {
        Input::Found(found) => on_found(s, found),
        Input::Opened(opened) => on_opened(s, opened),
        Input::Poll => on_poll(s),
        Input::Readable(ready) => on_readable(s, ready),
        Input::Failed => on_failed(s),
        Input::Read(status) => on_read(s, status),
        Input::Notified(notified) => on_notified(s, notified),
        Input::Used { index, device } => on_used(s, index, device),
    }
}

} // verus!
