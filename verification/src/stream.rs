//! The stream: device table, event buffer and the phase of the current pull,
//! moved on by what its driver reports.

use std::collections::VecDeque;
use vstd::prelude::*;
use crate::context::{is_add, is_remove, Context, DeviceInfo, DeviceInfoView};
use crate::device::{Device, DeviceTable};
use crate::event::{DeviceID, Event, EventView};
use crate::machine;
use crate::machine::{ActionView, Input, PhaseView, StreamView};
use crate::record::{ReadFlag, ReadStatus};
use crate::translate::{map_device_event, translation_stays_raw};

verus! {

/// Where the stream stands. `PhaseView` says what each phase waits for.
enum Phase {
    Seeding,
    Opening { device: DeviceID, announce: bool },
    Idle,
    MonitorReadiness,
    DeviceReadiness { index: usize },
    Draining { index: usize, flag: ReadFlag },
    Receiving,
    Failed,
}

impl View for Phase {
    type V = PhaseView;

    closed spec fn view(&self) -> PhaseView {
        match *self {
            Phase::Seeding => PhaseView::Seeding,
            Phase::Opening { device, announce } => PhaseView::Opening { device: device@, announce },
            Phase::Idle => PhaseView::Idle,
            Phase::MonitorReadiness => PhaseView::MonitorReadiness,
            Phase::DeviceReadiness { index } => PhaseView::DeviceReadiness { index: index as int },
            Phase::Draining { index, flag } => PhaseView::Draining { index: index as int, flag },
            Phase::Receiving => PhaseView::Receiving,
            Phase::Failed => PhaseView::Failed,
        }
    }
}

/// What the stream asks of its driver. `ActionView` says what each action
/// means.
#[derive(Debug, PartialEq)]
pub enum Action {
    /// Hand over the next device that is present.
    Enumerate,
    /// Open the node at this path.
    Open { node: Vec<u8> },
    /// Nothing, until the consumer pulls.
    Idle,
    /// Say whether the monitor can be read.
    PollMonitor,
    /// Say whether the device at `index` can be read.
    PollDevice { index: usize },
    /// Read one record from the device at `index`.
    Read { index: usize, flag: ReadFlag },
    /// Receive the monitor's next notification.
    Receive,
    /// Hand this event to the consumer.
    Ready(Event),
    /// Ask the monitor to signal again, and tell the consumer that nothing
    /// is ready.
    NotReady,
    /// Tell the consumer that the stream has failed.
    Failed,
}

impl View for Action {
    type V = ActionView;

    open spec fn view(&self) -> ActionView {
        match *self {
            Action::Enumerate => ActionView::Enumerate,
            Action::Open { node } => ActionView::Open { node: node@ },
            Action::Idle => ActionView::Idle,
            Action::PollMonitor => ActionView::PollMonitor,
            Action::PollDevice { index } => ActionView::PollDevice { index: index as int },
            Action::Read { index, flag } => ActionView::Read { index: index as int, flag },
            Action::Receive => ActionView::Receive,
            Action::Ready(event) => ActionView::Ready(event@),
            Action::NotReady => ActionView::NotReady,
            Action::Failed => ActionView::Failed,
        }
    }
}

/// What the driver tells the stream. `Input` says what each report means.
pub enum Report<D> {
    /// The next device that is present, or that none is left.
    Found(Option<DeviceInfo>),
    /// The node that was opened, or that opening it failed.
    Opened(Option<Device<D>>),
    /// The consumer pulls.
    Poll,
    /// Whether the source that was asked about can be read.
    Readable(bool),
    /// The monitor has failed.
    Failed,
    /// What a read gave.
    Read(ReadStatus),
    /// The monitor's next notification, or that none is pending.
    Notified(Option<DeviceInfo>),
}

impl<D> View for Report<D> {
    type V = Input<D>;

    open spec fn view(&self) -> Input<D> {
        match *self {
            Report::Found(found) => Input::Found(reported(found)),
            Report::Opened(opened) => Input::Opened(node_of(opened)),
            Report::Poll => Input::Poll,
            Report::Readable(ready) => Input::Readable(ready),
            Report::Failed => Input::Failed,
            Report::Read(status) => Input::Read(status),
            Report::Notified(notified) => Input::Notified(reported(notified)),
        }
    }
}

/// What an answer of the stream asks for, if anything.
pub open spec fn asked(action: Option<Action>) -> Option<ActionView> {
    match action {
        Some(a) => Some(a@),
        None => None,
    }
}

/// What the driver reports of a device of the monitor, if anything.
pub open spec fn reported(info: Option<DeviceInfo>) -> Option<DeviceInfoView> {
    match info {
        Some(i) => Some(i@),
        None => None,
    }
}

/// The node that the driver reports as opened, if any.
pub open spec fn node_of<D>(opened: Option<Device<D>>) -> Option<D> {
    match opened {
        Some(device) => Some(device@),
        None => None,
    }
}

/// The events of a buffer, as the consumer is to see them.
spec fn events(buffer: Seq<Event>) -> Seq<EventView> {
    buffer.map_values(|e: Event| e@)
}

/// The one stream of events of all input devices. It owns the monitor, the
/// open devices and the events that wait for the consumer.
pub struct Stream<M, D> {
    udev: Context<M>,
    devices: DeviceTable<D>,
    buffer: VecDeque<Event>,
    phase: Phase,
}

impl<M, D> View for Stream<M, D> {
    type V = StreamView<D>;

    closed spec fn view(&self) -> StreamView<D> {
        StreamView { devices: self.devices@, buffer: events(self.buffer@), phase: self.phase@ }
    }
}

impl<M, D> Stream<M, D> {
    /// Whether the stream is in order. Every stream that `new` made and the
    /// methods below moved on is.
    pub open spec fn wf(&self) -> bool {
        self@.wf()
    }

    /// The monitor that the stream holds.
    pub closed spec fn monitor(&self) -> M {
        self.udev@
    }

    /// A stream around the given monitor, without devices or events. It
    /// first takes in the devices that are present.
    pub fn new(udev: Context<M>) -> (stream: Stream<M, D>)
        ensures
            stream.wf(),
            stream.monitor() == udev@,
            stream@ == (StreamView::<D> {
                devices: Seq::empty(),
                buffer: Seq::empty(),
                phase: PhaseView::Seeding,
            }),
    {
        let stream = Stream {
            udev,
            devices: DeviceTable::new(),
            buffer: VecDeque::new(),
            phase: Phase::Seeding,
        };
        assert(stream@.buffer =~= Seq::<EventView>::empty());
        stream
    }

    /// The monitor, to ask it whether it can be read.
    pub fn context(&self) -> (udev: &Context<M>)
        ensures
            udev@ == self.monitor(),
    {
        &self.udev
    }

    /// The monitor, to receive from it. The stream is otherwise untouched.
    pub fn context_mut(&mut self) -> (udev: &mut Context<M>)
        ensures
            udev@ == old(self).monitor(),
            final(self).monitor() == final(udev)@,
            final(self)@ == old(self)@,
    {
        &mut self.udev
    }

    /// The open devices.
    pub fn devices(&self) -> (devices: &DeviceTable<D>)
        ensures
            devices@ == self@.devices,
    {
        &self.devices
    }

    /// The device at position `index` of the table, if there is one, to ask
    /// it whether it can be read.
    pub fn device(&self, index: usize) -> (device: Option<&Device<D>>)
        ensures
            match device {
                Some(d) => index < self@.devices.len() && d@ == self@.devices[index as int].1,
                None => index >= self@.devices.len(),
            },
    {
        if index < self.devices.len() {
            Some(self.devices.get(index))
        } else {
            None
        }
    }

    /// The device at position `index` of the table, if there is one, to read
    /// from it. The stream is otherwise untouched.
    pub fn device_mut(&mut self, index: usize) -> (device: Option<&mut Device<D>>)
        ensures
            final(self).monitor() == old(self).monitor(),
            old(self).wf() ==> final(self).wf(),
            match device {
                Some(d) => index < old(self)@.devices.len() && d@ == old(self)@.devices[index as int].1
                    && final(self)@ == machine::on_used(old(self)@, index as int, final(d)@).0,
                None => index >= old(self)@.devices.len() && final(self)@ == old(self)@,
            },
    {
        if index < self.devices.len() {
            Some(self.devices.get_mut(index))
        } else {
            None
        }
    }

    /// The number of events that wait for the consumer.
    pub fn buffered(&self) -> (n: usize)
        ensures
            n == self@.buffer.len(),
    {
        self.buffer.len()
    }

    /// Puts an event behind the events that wait, if there is one.
    fn push(&mut self, event: Option<Event>)
        ensures
            final(self).devices == old(self).devices,
            final(self).phase == old(self).phase,
            final(self).udev == old(self).udev,
            events(final(self).buffer@) == match event {
                Some(e) => events(old(self).buffer@).push(e@),
                None => events(old(self).buffer@),
            },
    {
        if let Some(e) = event {
            self.buffer.push_back(e);
        }
    }

    /// Begins the draining.
    fn begin_drain(&mut self) -> (action: Action)
        requires
            old(self).wf(),
        ensures
            final(self).wf(),
            final(self).monitor() == old(self).monitor(),
            (final(self)@, Some(action@)) == machine::begin_drain(old(self)@),
    {
        if self.devices.len() == 0 {
            self.phase = Phase::Receiving;
            Action::Receive
        } else {
            self.phase = Phase::Draining { index: 0, flag: ReadFlag::Normal };
            Action::Read { index: 0, flag: ReadFlag::Normal }
        }
    }

    /// Considers a device of the monitor for opening.
    fn consider(&mut self, info: DeviceInfo, announce: bool) -> (action: Action)
        requires
            old(self).wf(),
            old(self)@.phase is Seeding || old(self)@.phase is Receiving,
        ensures
            final(self).wf(),
            final(self).monitor() == old(self).monitor(),
            (final(self)@, Some(action@)) == machine::consider(old(self)@, info@, announce),
    {
        let DeviceInfo { action: _, sysname, devnode } = info;
        let device = DeviceID::new(sysname);
        if let Some(node) = devnode {
            if self.devices.find(&device).is_none() {
                self.phase = Phase::Opening { device, announce };
                return Action::Open { node };
            }
        }
        if announce {
            Action::Receive
        } else {
            Action::Enumerate
        }
    }

    /// Tells the stream of the next device that was present before it, or
    /// with `None` that there is none left. The stream asks to have the
    /// device's node opened, if it has one and is not open already; else for
    /// the next device. After the last device the stream is ready for the
    /// consumer.
    pub fn open_existing_devices(&mut self, found: Option<DeviceInfo>) -> (action: Option<Action>)
        requires
            old(self).wf(),
        ensures
            final(self).wf(),
            final(self).monitor() == old(self).monitor(),
            (final(self)@, asked(action)) == machine::on_found(old(self)@, reported(found)),
    {
        match self.phase {
            Phase::Seeding => match found {
                Some(info) => Some(self.consider(info, false)),
                None => {
                    self.phase = Phase::Idle;
                    Some(Action::Idle)
                },
            },
            _ => None,
        }
    }

    /// Tells the stream what came of opening the node that it asked for:
    /// the open device, or `None` where opening failed. An open device goes
    /// into the table, and the consumer hears of it if it was plugged in
    /// while the stream ran. A failure is passed over.
    pub fn open_device(&mut self, opened: Option<Device<D>>) -> (action: Option<Action>)
        requires
            old(self).wf(),
        ensures
            final(self).wf(),
            final(self).monitor() == old(self).monitor(),
            (final(self)@, asked(action)) == machine::on_opened(old(self)@, node_of(opened)),
    {
        let announce = match self.phase {
            Phase::Opening { announce, .. } => announce,
            _ => {
                return None;
            },
        };
        let (resumed, action) = if announce {
            (Phase::Receiving, Action::Receive)
        } else {
            (Phase::Seeding, Action::Enumerate)
        };
        let mut waited = resumed;
        std::mem::swap(&mut self.phase, &mut waited);
        if let Phase::Opening { device, .. } = waited {
            if let Some(handle) = opened {
                let event = if announce {
                    Some(Event::DeviceAdded { device: device.clone() })
                } else {
                    None
                };
                self.devices.insert(device, handle);
                self.push(event);
            }
        }
        Some(action)
    }

    /// The consumer pulls. The stream asks whether the monitor can be read,
    /// unless it has failed.
    pub fn poll(&mut self) -> (action: Option<Action>)
        requires
            old(self).wf(),
        ensures
            final(self).wf(),
            final(self).monitor() == old(self).monitor(),
            (final(self)@, asked(action)) == machine::on_poll(old(self)@),
    {
        match self.phase {
            Phase::Idle => {
                self.phase = Phase::MonitorReadiness;
                Some(Action::PollMonitor)
            },
            Phase::Failed => Some(Action::Failed),
            _ => None,
        }
    }

    /// Tells the stream that the monitor could not be asked whether it can
    /// be read. That ends the stream.
    pub fn monitor_failed(&mut self) -> (action: Option<Action>)
        requires
            old(self).wf(),
        ensures
            final(self).wf(),
            final(self).monitor() == old(self).monitor(),
            (final(self)@, asked(action)) == machine::on_failed(old(self)@),
    {
        match self.phase {
            Phase::MonitorReadiness => {
                self.phase = Phase::Failed;
                Some(Action::Failed)
            },
            _ => None,
        }
    }

    /// Tells the stream whether the source that it asked about can be read.
    pub fn readable(&mut self, ready: bool) -> (action: Option<Action>)
        requires
            old(self).wf(),
        ensures
            final(self).wf(),
            final(self).monitor() == old(self).monitor(),
            (final(self)@, asked(action)) == machine::on_readable(old(self)@, ready),
    {
        let count = self.devices.len();
        let following: usize = match self.phase {
            Phase::MonitorReadiness => 0,
            Phase::DeviceReadiness { index } => index + 1,
            _ => {
                return None;
            },
        };
        if ready {
            Some(self.begin_drain())
        } else if following < count {
            self.phase = Phase::DeviceReadiness { index: following };
            Some(Action::PollDevice { index: following })
        } else {
            self.phase = Phase::Idle;
            Some(Action::NotReady)
        }
    }

    /// Tells the stream what the read that it asked for gave.
    pub fn poll_device(&mut self, status: ReadStatus) -> (action: Option<Action>)
        requires
            old(self).wf(),
        ensures
            final(self).wf(),
            final(self).monitor() == old(self).monitor(),
            (final(self)@, asked(action)) == machine::on_read(old(self)@, status),
    {
        let (index, flag) = match self.phase {
            Phase::Draining { index, flag } => (index, flag),
            _ => {
                return None;
            },
        };
        let count = self.devices.len();
        match status {
            ReadStatus::Again => {
                if flag == ReadFlag::Sync {
                    self.phase = Phase::Draining { index, flag: ReadFlag::Normal };
                    Some(Action::Read { index, flag: ReadFlag::Normal })
                } else if index + 1 < count {
                    self.phase = Phase::Draining { index: index + 1, flag: ReadFlag::Normal };
                    Some(Action::Read { index: index + 1, flag: ReadFlag::Normal })
                } else {
                    self.phase = Phase::Receiving;
                    Some(Action::Receive)
                }
            },
            ReadStatus::Sync(record) => {
                let event = map_device_event(self.devices.id(index), record);
                proof {
                    translation_stays_raw(self@.devices[index as int].0, record);
                }
                self.push(event);
                self.phase = Phase::Draining { index, flag: ReadFlag::Sync };
                Some(Action::Read { index, flag: ReadFlag::Sync })
            },
            ReadStatus::Success(record) => {
                let event = map_device_event(self.devices.id(index), record);
                proof {
                    translation_stays_raw(self@.devices[index as int].0, record);
                }
                self.push(event);
                Some(Action::Read { index, flag })
            },
        }
    }

    /// Tells the stream of the monitor's next notification, or with `None`
    /// that none is pending.
    pub fn map_udev_event(&mut self, notified: Option<DeviceInfo>) -> (action: Option<Action>)
        requires
            old(self).wf(),
        ensures
            final(self).wf(),
            final(self).monitor() == old(self).monitor(),
            (final(self)@, asked(action)) == machine::on_notified(old(self)@, reported(notified)),
    {
        match self.phase {
            Phase::Receiving => {},
            _ => {
                return None;
            },
        }
        match notified {
            Some(info) => {
                if is_add(&info.action) {
                    Some(self.consider(info, true))
                } else if is_remove(&info.action) {
                    let device = DeviceID::new(info.sysname);
                    if self.devices.remove(&device).is_some() {
                        self.push(Some(Event::DeviceRemoved { device }));
                    }
                    Some(Action::Receive)
                } else {
                    Some(Action::Receive)
                }
            },
            None => {
                self.phase = Phase::Idle;
                match self.buffer.pop_front() {
                    Some(event) => {
                        assert(events(self.buffer@) =~= events(old(self).buffer@).drop_first());
                        Some(Action::Ready(event))
                    },
                    None => Some(Action::NotReady),
                }
            },
        }
    }

    /// Tells the stream what the driver reports, whatever it is. The stream
    /// answers with what it asks for next, or with `None` when the report is
    /// not the one that it waits for; it then holds what it held.
    pub fn step(&mut self, report: Report<D>) -> (action: Option<Action>)
        requires
            old(self).wf(),
        ensures
            final(self).wf(),
            final(self).monitor() == old(self).monitor(),
            (final(self)@, asked(action)) == machine::next(old(self)@, report@),
    {
        match report {
            Report::Found(found) => self.open_existing_devices(found),
            Report::Opened(opened) => self.open_device(opened),
            Report::Poll => self.poll(),
            Report::Readable(ready) => self.readable(ready),
            Report::Failed => self.monitor_failed(),
            Report::Read(status) => self.poll_device(status),
            Report::Notified(notified) => self.map_udev_event(notified),
        }
    }
}

} // verus!
