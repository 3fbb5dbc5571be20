//! What holds of the stream whatever its driver reports.

use vstd::prelude::*;
use crate::context::{add_action, remove_action, DeviceInfoView};
use crate::device::{
    holds, position, push_keeps_unique, remove_keeps_unique, unique, used_keeps_held,
    used_keeps_unique,
};
use crate::event::EventView;
use crate::machine::{next, ActionView, Input, PhaseView, StreamView};
use crate::record::{ReadFlag, ReadStatus};
use crate::translate::{translate, translation_stays_raw};

verus! {

/// The stream after a row of inputs, taken one after the other.
pub open spec fn run<D>(s: StreamView<D>, inputs: Seq<Input<D>>) -> StreamView<D>
    decreases inputs.len(),
{
    if inputs.len() == 0 {
        s
    } else {
        next(run(s, inputs.drop_last()), inputs.last()).0
    }
}

/// What the stream asks for at the end of a row of inputs: its answer to the
/// last of them.
pub open spec fn answer<D>(s: StreamView<D>, inputs: Seq<Input<D>>) -> Option<ActionView> {
    if inputs.len() == 0 {
        None
    } else {
        next(run(s, inputs.drop_last()), inputs.last()).1
    }
}

/// Whatever the stream is told, it stays in order: no identity is open
/// twice, and no window event waits for the consumer.
pub proof fn next_keeps_order<D>(s: StreamView<D>, input: Input<D>)
    requires
        s.wf(),
    ensures
        next(s, input).0.wf(),
{
    match (s.phase, input) {
        (PhaseView::Opening { device, .. }, Input::Opened(Some(handle))) => {
            push_keeps_unique(s.devices, device, handle);
        },
        (PhaseView::Draining { index, .. }, Input::Read(ReadStatus::Sync(record))) => {
            translation_stays_raw(s.devices[index].0, record);
        },
        (PhaseView::Draining { index, .. }, Input::Read(ReadStatus::Success(record))) => {
            translation_stays_raw(s.devices[index].0, record);
        },
        (PhaseView::Receiving, Input::Notified(Some(info))) => {
            if info.action != add_action() && info.action == remove_action() && holds(
                s.devices,
                info.sysname,
            ) {
                remove_keeps_unique(s.devices, info.sysname);
            }
        },
        (PhaseView::Receiving, Input::Notified(None)) => {
            let t = next(s, input).0;
            assert forall|i: int| 0 <= i < t.buffer.len() implies !(#[trigger] t.buffer[i]
                is Window) by {
                assert(t.buffer[i] == s.buffer[i + 1]);
            }
        },
        (PhaseView::Opening { device: waited, .. }, Input::Used { index, device }) => {
            if 0 <= index < s.devices.len() {
                used_keeps_unique(s.devices, index, device);
                used_keeps_held(s.devices, index, device, waited);
            }
        },
        (_, Input::Used { index, device }) => {
            if 0 <= index < s.devices.len() {
                used_keeps_unique(s.devices, index, device);
            }
        },
        _ => {},
    }
}

/// After every row of device notifications, reads and whatever else the
/// driver reports, in any order, the table holds no identity twice.
pub proof fn identities_stay_unique<D>(s: StreamView<D>, inputs: Seq<Input<D>>)
    requires
        s.wf(),
    ensures
        run(s, inputs).wf(),
        unique(run(s, inputs).devices),
    decreases inputs.len(),
{
    if inputs.len() > 0 {
        identities_stay_unique(s, inputs.drop_last());
        next_keeps_order(run(s, inputs.drop_last()), inputs.last());
    }
}

/// The devices of the table change in three ways only: a node that was
/// opened comes in behind the others, a device that went away leaves, and a
/// device that the driver used stays where it is. No handle is dropped or
/// taken in otherwise.
pub proof fn handles_come_and_go_by_notification<D>(s: StreamView<D>, input: Input<D>)
    requires
        s.wf(),
    ensures
        ({
            let t = next(s, input).0;
            ||| t.devices == s.devices
            ||| input matches Input::Opened(Some(handle)) && s.phase matches PhaseView::Opening {
                device,
                ..
            } && t.devices == s.devices.push((device, handle))
            ||| input matches Input::Notified(Some(info)) && s.phase is Receiving && info.action
                == remove_action() && holds(s.devices, info.sysname) && t.devices
                == s.devices.remove(position(s.devices, info.sysname))
            ||| input matches Input::Used { index, device } && 0 <= index < s.devices.len()
                && t.devices == s.devices.update(index, (s.devices[index].0, device))
        }),
{
}

/// A device that goes away is let go exactly once: its entry, and no other,
/// leaves the table, the consumer hears of it once, and the same
/// notification a second time finds nothing to let go.
pub proof fn removed_device_is_released_once<D>(s: StreamView<D>, info: DeviceInfoView)
    requires
        s.wf(),
        s.phase is Receiving,
        info.action == remove_action(),
        holds(s.devices, info.sysname),
    ensures
        ({
            let (t, action) = next(s, Input::Notified(Some(info)));
            let p = position(s.devices, info.sysname);
            &&& action == Some(ActionView::Receive)
            &&& 0 <= p < s.devices.len()
            &&& s.devices[p].0 == info.sysname
            &&& t.devices == s.devices.remove(p)
            &&& t.buffer == s.buffer.push(EventView::DeviceRemoved { device: info.sysname })
            &&& t.phase == s.phase
            &&& !holds(t.devices, info.sysname)
            &&& next(t, Input::Notified(Some(info))) == (t, Some(ActionView::Receive))
        }),
{
    remove_keeps_unique(s.devices, info.sysname);
}

/// The devices that were present before the stream are taken in silently:
/// until the last of them is taken in, no event is put into the buffer, and
/// the stream does not let the consumer pull.
pub proof fn present_devices_are_taken_in_silently<D>(s: StreamView<D>, input: Input<D>)
    requires
        s.phase is Seeding || (s.phase is Opening && !s.phase->announce),
    ensures
        next(s, input).0.buffer == s.buffer,
        next(s, Input::Poll) == (s, None::<ActionView>),
        next(s, input).0.phase is Idle ==> s.phase is Seeding && input == Input::<D>::Found(None),
{
}

/// A node that cannot be opened is passed over: the stream holds the devices
/// and events that it held, and goes on where it was.
pub proof fn failed_open_is_passed_over<D>(s: StreamView<D>)
    requires
        s.phase is Opening,
    ensures
        ({
            let (t, action) = next(s, Input::Opened(None));
            &&& t.devices == s.devices
            &&& t.buffer == s.buffer
            &&& if s.phase->announce {
                t.phase is Receiving && action == Some(ActionView::Receive)
            } else {
                t.phase is Seeding && action == Some(ActionView::Enumerate)
            }
        }),
{
}

/// A device that is open is not opened again: told of it once more, by a
/// notification or among the devices that are present, the stream holds what
/// it held, has no event for the consumer and asks for no node to be opened.
pub proof fn add_of_open_device_changes_nothing<D>(s: StreamView<D>, info: DeviceInfoView)
    requires
        holds(s.devices, info.sysname),
    ensures
        s.phase is Receiving && info.action == add_action() ==> next(
            s,
            Input::Notified(Some(info)),
        ) == (s, Some(ActionView::Receive)),
        s.phase is Seeding ==> next(s, Input::Found(Some(info))) == (
            s,
            Some(ActionView::Enumerate),
        ),
{
}

/// A notification that a device went away which is not open changes
/// nothing: the stream holds what it held, has no event for the consumer and
/// goes on to the next notification.
pub proof fn remove_of_unknown_device_changes_nothing<D>(s: StreamView<D>, info: DeviceInfoView)
    requires
        s.phase is Receiving,
        info.action == remove_action(),
        !holds(s.devices, info.sysname),
    ensures
        next(s, Input::Notified(Some(info))) == (s, Some(ActionView::Receive)),
{
}

/// The event that an input puts behind the events that wait, if any: what a
/// record that was read stands for, that a device which was plugged in is
/// open, or that an open device went away.
pub open spec fn appends<D>(s: StreamView<D>, input: Input<D>) -> Option<EventView> {
    match (s.phase, input) {
        (PhaseView::Draining { index, .. }, Input::Read(ReadStatus::Sync(record))) => translate(
            s.devices[index].0,
            record,
        ),
        (PhaseView::Draining { index, .. }, Input::Read(ReadStatus::Success(record))) => translate(
            s.devices[index].0,
            record,
        ),
        (PhaseView::Opening { device, announce }, Input::Opened(Some(_))) => if announce {
            Some(EventView::DeviceAdded { device })
        } else {
            None
        },
        (PhaseView::Receiving, Input::Notified(Some(info))) => if info.action != add_action()
            && info.action == remove_action() && holds(s.devices, info.sysname) {
            Some(EventView::DeviceRemoved { device: info.sysname })
        } else {
            None
        },
        _ => None,
    }
}

/// The buffer is a queue. An event leaves it only at the front, and only as
/// the event that is handed to the consumer. Every other input leaves the
/// events that wait as they are, and puts at most one behind them.
pub proof fn buffer_is_a_queue<D>(s: StreamView<D>, input: Input<D>)
    ensures
        ({
            let (t, action) = next(s, input);
            match action {
                Some(ActionView::Ready(event)) => {
                    &&& s.buffer.len() > 0
                    &&& event == s.buffer[0]
                    &&& t.buffer == s.buffer.drop_first()
                    &&& appends(s, input) is None
                },
                _ => t.buffer == s.with(appends(s, input)).buffer,
            }
        }),
{
}

/// The consumer never receives a window event.
pub proof fn no_window_event_is_handed_out<D>(s: StreamView<D>, input: Input<D>)
    requires
        s.wf(),
    ensures
        next(s, input).1 != Some(ActionView::Ready(EventView::Window)),
{
    if next(s, input).1 == Some(ActionView::Ready(EventView::Window)) {
        assert(s.buffer[0] is Window);
    }
}

/// The events that were handed to the consumer in the course of a row of
/// inputs, in the order of handing.
pub open spec fn handed<D>(s: StreamView<D>, inputs: Seq<Input<D>>) -> Seq<EventView>
    decreases inputs.len(),
{
    if inputs.len() == 0 {
        Seq::empty()
    } else {
        let before = handed(s, inputs.drop_last());
        match answer(s, inputs) {
            Some(ActionView::Ready(event)) => before.push(event),
            _ => before,
        }
    }
}

/// The events that the inputs of a row put into the buffer, in the order of
/// the inputs.
pub open spec fn appended<D>(s: StreamView<D>, inputs: Seq<Input<D>>) -> Seq<EventView>
    decreases inputs.len(),
{
    if inputs.len() == 0 {
        Seq::empty()
    } else {
        let before = appended(s, inputs.drop_last());
        match appends(run(s, inputs.drop_last()), inputs.last()) {
            Some(event) => before.push(event),
            None => before,
        }
    }
}

/// First in, first out, over any row of inputs and so over any number of
/// pulls: the events handed to the consumer, followed by those that still
/// wait, are the events that waited at the start followed by those that
/// were put in since, each once and in the order in which they were put in.
pub proof fn events_leave_in_order<D>(s: StreamView<D>, inputs: Seq<Input<D>>)
    ensures
        handed(s, inputs) + run(s, inputs).buffer == s.buffer + appended(s, inputs),
    decreases inputs.len(),
{
    if inputs.len() > 0 {
        let before = run(s, inputs.drop_last());
        let earlier = handed(s, inputs.drop_last());
        events_leave_in_order(s, inputs.drop_last());
        buffer_is_a_queue(before, inputs.last());
        match answer(s, inputs) {
            Some(ActionView::Ready(event)) => {
                assert(earlier.push(event) + before.buffer.drop_first() =~= earlier
                    + before.buffer);
            },
            _ => {
                if let Some(event) = appends(before, inputs.last()) {
                    assert(earlier + before.buffer.push(event) =~= (earlier + before.buffer).push(
                        event,
                    ));
                }
            },
        }
    }
}

/// Within one pull the devices are read before the monitor is heard, each
/// device as a whole and in the order of the table. The stream starts to
/// read devices only from the check of readiness that a pull begins with,
/// and from a device it goes on only to the next device or to the monitor.
/// So the events of records lie in the buffer before the events of the
/// notifications of the same pull.
pub proof fn devices_are_read_before_the_monitor<D>(s: StreamView<D>, input: Input<D>)
    requires
        s.wf(),
    ensures
        ({
            let t = next(s, input).0;
            &&& t.phase is MonitorReadiness ==> s.phase is Idle || s.phase is MonitorReadiness
            &&& t.phase is DeviceReadiness ==> s.phase is MonitorReadiness
                || s.phase is DeviceReadiness
            &&& t.phase is Draining ==> {
                ||| t.phase->Draining_index == 0 && (s.phase is MonitorReadiness
                    || s.phase is DeviceReadiness)
                ||| s.phase is Draining && (t.phase->Draining_index == s.phase->Draining_index
                    || t.phase->Draining_index == s.phase->Draining_index + 1)
            }
            &&& (s.phase is Draining && t.phase is Receiving) ==> (s.phase->Draining_index + 1
                == s.devices.len() && s.phase->flag == ReadFlag::Normal && input == Input::<
                D,
            >::Read(ReadStatus::Again))
            &&& appends(s, input) is Some ==> {
                let event = appends(s, input)->0;
                ||| s.phase is Draining && (event is RawButtonPress || event is RawButtonRelease
                    || event is RawMotion)
                ||| (s.phase is Receiving || s.phase is Opening) && (event is DeviceAdded || event
                    is DeviceRemoved)
            }
        }),
{
    if let (PhaseView::Draining { index, .. }, Input::Read(ReadStatus::Sync(record))) = (
        s.phase,
        input,
    ) {
        translation_stays_raw(s.devices[index].0, record);
    }
    if let (PhaseView::Draining { index, .. }, Input::Read(ReadStatus::Success(record))) = (
        s.phase,
        input,
    ) {
        translation_stays_raw(s.devices[index].0, record);
    }
}

/// A pull ends, with an event or without, at exactly these inputs. It ends
/// without when the last source that was asked cannot be read either, or
/// when the monitor has no more notifications and no event waits. It ends
/// with the oldest event that waits when the monitor has no more
/// notifications and an event waits. The stream is then between two pulls.
/// The stream reports a failure when it hears that the monitor has failed,
/// and at every pull after that.
pub proof fn pull_ends_exactly_when<D>(s: StreamView<D>, input: Input<D>)
    requires
        s.wf(),
    ensures
        ({
            let (t, action) = next(s, input);
            &&& action == Some(ActionView::NotReady) <==> {
                ||| input == Input::<D>::Readable(false) && s.phase is MonitorReadiness
                    && s.devices.len() == 0
                ||| input == Input::<D>::Readable(false) && s.phase is DeviceReadiness
                    && s.phase->DeviceReadiness_index + 1 == s.devices.len()
                ||| input == Input::<D>::Notified(None) && s.phase is Receiving && s.buffer.len()
                    == 0
            }
            &&& (action is Some && action->0 is Ready) <==> (input == Input::<D>::Notified(None)
                && s.phase is Receiving && s.buffer.len() > 0)
            &&& (action is Some && action->0.ends_pull()) ==> (t.phase is Idle && t.devices
                == s.devices)
            &&& action == Some(ActionView::NotReady) ==> t.buffer == s.buffer
            &&& action == Some(ActionView::Failed) <==> {
                ||| input == Input::<D>::Failed && s.phase is MonitorReadiness
                ||| input == Input::<D>::Poll && s.phase is Failed
            }
        }),
{
}

/// Between two pulls the stream asks for nothing, and so asks the monitor
/// to signal at most once for each pull that ends without an event: only a
/// new pull moves it on.
pub proof fn idle_stream_waits_for_pull<D>(s: StreamView<D>, input: Input<D>)
    requires
        s.phase is Idle,
    ensures
        next(s, input).1 is Some ==> input == Input::<D>::Poll && next(s, input).1 == Some(
            ActionView::PollMonitor,
        ),
        !(input is Used) && input != Input::<D>::Poll ==> next(s, input) == (s, None::<ActionView>),
{
}

/// Whether an answer of the stream ends the pull.
pub open spec fn ends_pull(action: Option<ActionView>) -> bool {
    match action {
        Some(a) => a.ends_pull(),
        None => false,
    }
}

/// Once the monitor has failed the stream is over: it stays failed whatever
/// it is told, and hands no event to the consumer.
pub proof fn after_failure_no_event_follows<D>(s: StreamView<D>, inputs: Seq<Input<D>>)
    requires
        s.phase is Failed,
    ensures
        run(s, inputs).phase is Failed,
        run(s, inputs).buffer == s.buffer,
        handed(s, inputs) == Seq::<EventView>::empty(),
    decreases inputs.len(),
{
    if inputs.len() > 0 {
        after_failure_no_event_follows(s, inputs.drop_last());
    }
}

/// Whether the input begins the draining: a source was asked, and can be
/// read.
pub open spec fn begins_draining<D>(s: StreamView<D>, input: Input<D>) -> bool {
    input == Input::<D>::Readable(true) && (s.phase is MonitorReadiness
        || s.phase is DeviceReadiness)
}

/// Whether, in the course of a row of inputs, some source that was asked
/// could be read.
pub open spec fn some_source_readable<D>(s: StreamView<D>, inputs: Seq<Input<D>>) -> bool {
    exists|k: int|
        0 <= k < inputs.len() && begins_draining(#[trigger] run(s, inputs.take(k)), inputs[k])
}

/// Whether a row of inputs is one whole pull: the stream is between two
/// pulls, the consumer pulls, and the stream ends the pull in answer to the
/// last input and to none before it.
pub open spec fn one_pull<D>(s: StreamView<D>, inputs: Seq<Input<D>>) -> bool {
    &&& s.phase is Idle
    &&& inputs.len() > 0
    &&& inputs[0] == Input::<D>::Poll
    &&& ends_pull(answer(s, inputs))
    &&& forall|k: int| 0 < k < inputs.len() ==> !ends_pull(#[trigger] answer(s, inputs.take(k)))
}

/// Whether some source could be read up to an input is whether one could
/// before it, or the input itself says so.
proof fn readable_so_far<D>(s: StreamView<D>, inputs: Seq<Input<D>>)
    requires
        inputs.len() > 0,
    ensures
        some_source_readable(s, inputs) <==> some_source_readable(s, inputs.drop_last())
            || begins_draining(run(s, inputs.drop_last()), inputs.last()),
{
    let earlier = inputs.drop_last();
    assert(inputs.take(earlier.len() as int) =~= earlier);
    if some_source_readable(s, inputs) {
        let k = choose|k: int|
            0 <= k < inputs.len() && begins_draining(#[trigger] run(s, inputs.take(k)), inputs[k]);
        if k < earlier.len() {
            assert(earlier.take(k) =~= inputs.take(k));
        }
    }
    if some_source_readable(s, earlier) {
        let k = choose|k: int|
            0 <= k < earlier.len() && begins_draining(
                #[trigger] run(s, earlier.take(k)),
                earlier[k],
            );
        assert(earlier.take(k) =~= inputs.take(k));
    }
}

/// Where a pull stands while it has not ended. As long as the sources are
/// asked, none could be read and the buffer is as the pull found it. Once
/// devices are read or the monitor is heard, some source could be read.
proof fn pull_so_far<D>(s: StreamView<D>, inputs: Seq<Input<D>>)
    requires
        s.wf(),
        s.phase is Idle,
        inputs.len() > 0,
        inputs[0] == Input::<D>::Poll,
        forall|k: int| 0 < k <= inputs.len() ==> !ends_pull(#[trigger] answer(s, inputs.take(k))),
    ensures
        ({
            let r = run(s, inputs);
            &&& r.wf()
            &&& match r.phase {
                PhaseView::MonitorReadiness => !some_source_readable(s, inputs) && r.buffer
                    == s.buffer,
                PhaseView::DeviceReadiness { .. } => !some_source_readable(s, inputs) && r.buffer
                    == s.buffer,
                PhaseView::Draining { .. } => some_source_readable(s, inputs),
                PhaseView::Receiving => some_source_readable(s, inputs),
                PhaseView::Opening { announce, .. } => announce && some_source_readable(s, inputs),
                PhaseView::Failed => true,
                PhaseView::Idle => false,
                PhaseView::Seeding => false,
            }
        }),
    decreases inputs.len(),
{
    let earlier = inputs.drop_last();
    readable_so_far(s, inputs);
    assert(inputs.take(inputs.len() as int) =~= inputs);
    assert(!ends_pull(answer(s, inputs)));
    if inputs.len() > 1 {
        assert forall|k: int| 0 < k <= earlier.len() implies !ends_pull(
            #[trigger] answer(s, earlier.take(k)),
        ) by {
            assert(earlier.take(k) =~= inputs.take(k));
        }
        pull_so_far(s, earlier);
        next_keeps_order(run(s, earlier), inputs.last());
    }
}

/// A pull tells the consumer that nothing is ready exactly when no event
/// waits and no source can be read.
///
/// Two kinds of pull are left out, in which the pull finds nothing ready
/// although one of the two is not so: a pull that finds events waiting while
/// no source can be read, which leaves them waiting, and a pull in which a
/// source can be read but after the reads and notifications no event waits.
pub proof fn not_ready_exactly_when_nothing_waits_and_nothing_is_readable<D>(
    s: StreamView<D>,
    inputs: Seq<Input<D>>,
)
    requires
        s.wf(),
        one_pull(s, inputs),
        !(s.buffer.len() > 0 && !some_source_readable(s, inputs)),
        !(some_source_readable(s, inputs) && run(s, inputs.drop_last()).buffer.len() == 0),
    ensures
        answer(s, inputs) == Some(ActionView::NotReady) <==> s.buffer.len() == 0
            && !some_source_readable(s, inputs),
{
    let earlier = inputs.drop_last();
    if inputs.len() > 1 {
        assert forall|k: int| 0 < k <= earlier.len() implies !ends_pull(
            #[trigger] answer(s, earlier.take(k)),
        ) by {
            assert(earlier.take(k) =~= inputs.take(k));
        }
        pull_so_far(s, earlier);
        readable_so_far(s, inputs);
        pull_ends_exactly_when(run(s, earlier), inputs.last());
    }
}

/// The inputs of a pull in which no source can be read: the pull, then one
/// refusal for the monitor and one for each of `devices` devices.
pub open spec fn nothing_readable<D>(devices: nat) -> Seq<Input<D>> {
    seq![Input::<D>::Poll] + Seq::new(devices + 1, |i: int| Input::<D>::Readable(false))
}

/// While sources are asked and none can be read, the stream asks the next.
proof fn refused_so_far<D>(s: StreamView<D>, asked: int)
    requires
        s.wf(),
        s.phase is Idle,
        0 <= asked <= s.devices.len(),
    ensures
        ({
            let inputs = nothing_readable::<D>(s.devices.len()).take(asked + 1);
            if asked == 0 {
                &&& run(s, inputs) == s.at(PhaseView::MonitorReadiness)
                &&& answer(s, inputs) == Some(ActionView::PollMonitor)
            } else {
                &&& run(s, inputs) == s.at(PhaseView::DeviceReadiness { index: asked - 1 })
                &&& answer(s, inputs) == Some(ActionView::PollDevice { index: asked - 1 })
            }
        }),
    decreases asked,
{
    if asked > 0 {
        let all = nothing_readable::<D>(s.devices.len());
        refused_so_far(s, asked - 1);
        assert(all.take(asked + 1).drop_last() =~= all.take(asked));
    }
}

/// When neither the monitor nor any device can be read, the pull ends
/// without an event, whatever waits in the buffer: the stream asks each
/// source in turn, answers the last refusal, and no input before it, by
/// asking the monitor to signal and reporting that nothing is ready, and
/// holds what it held before the pull.
pub proof fn nothing_readable_ends_not_ready<D>(s: StreamView<D>)
    requires
        s.wf(),
        s.phase is Idle,
    ensures
        one_pull(s, nothing_readable::<D>(s.devices.len())),
        !some_source_readable(s, nothing_readable::<D>(s.devices.len())),
        answer(s, nothing_readable::<D>(s.devices.len())) == Some(ActionView::NotReady),
        run(s, nothing_readable::<D>(s.devices.len())) == s,
{
    let all = nothing_readable::<D>(s.devices.len());
    refused_so_far(s, s.devices.len() as int);
    assert(all.drop_last() =~= all.take(s.devices.len() as int + 1));
    assert forall|asked: int| 0 < asked < all.len() implies !ends_pull(
        #[trigger] answer(s, all.take(asked)),
    ) by {
        refused_so_far(s, asked - 1);
    }
}

} // verus!
