//! From raw records to events.

use vstd::prelude::*;
use crate::codes::{EV_ABS, EV_KEY, EV_REL, REL_CNT};
use crate::event::{AxisID, ButtonID, DeviceID, Event, EventView};
use crate::record::InputEvent;

verus! {

/// The axis identity of a relative axis: its code.
pub open spec fn relative_axis(code: u16) -> AxisID {
    AxisID(code as u32)
}

/// The axis identity of an absolute axis: its code, moved past the codes of
/// the relative axes.
pub open spec fn absolute_axis(code: u16) -> AxisID {
    AxisID((REL_CNT + code) as u32)
}

/// The event that a record from the given device stands for, if any.
///
/// A key record is a release at value 0 and a press at value 1; any other
/// value, the repeat (2) among them, is no event. A record of an absolute or
/// relative axis is a motion. Every other type of record is no event.
pub open spec fn translate(device: Seq<u8>, record: InputEvent) -> Option<EventView> {
    if record.type_ == EV_KEY {
        if record.value == 0 {
            Some(EventView::RawButtonRelease { device, button: ButtonID(record.code as u32) })
        } else if record.value == 1 {
            Some(EventView::RawButtonPress { device, button: ButtonID(record.code as u32) })
        } else {
            None
        }
    } else if record.type_ == EV_ABS {
        Some(EventView::RawMotion { device, axis: absolute_axis(record.code), value: record.value })
    } else if record.type_ == EV_REL {
        Some(EventView::RawMotion { device, axis: relative_axis(record.code), value: record.value })
    } else {
        None
    }
}

/// Translates one record read from the device `id`.
pub fn map_device_event(id: &DeviceID, event: InputEvent) -> (mapped: Option<Event>)
    ensures
        match mapped {
            Some(e) => translate(id@, event) == Some(e@),
            None => translate(id@, event) is None,
        },
{
    if event.type_ == EV_KEY {
        if event.value == 0 {
            Some(Event::RawButtonRelease { device: id.clone(), button: ButtonID(event.code as u32) })
        } else if event.value == 1 {
            Some(Event::RawButtonPress { device: id.clone(), button: ButtonID(event.code as u32) })
        } else {
            None
        }
    } else if event.type_ == EV_ABS {
        Some(
            Event::RawMotion {
                device: id.clone(),
                axis: AxisID(REL_CNT as u32 + event.code as u32),
                value: event.value,
            },
        )
    } else if event.type_ == EV_REL {
        Some(Event::RawMotion { device: id.clone(), axis: AxisID(event.code as u32), value: event.value })
    } else {
        None
    }
}

/// A key record whose value says "repeat" is no event, whatever its code and
/// device.
pub proof fn repeat_is_no_event(device: Seq<u8>, code: u16)
    ensures
        translate(device, InputEvent { type_: EV_KEY, code, value: 2 }) is None,
{
}

/// A record is translated to at most a button or motion event of its own
/// device: never to a window or hot-plug event.
pub proof fn translation_stays_raw(device: Seq<u8>, record: InputEvent)
    ensures
        match translate(device, record) {
            Some(EventView::RawButtonPress { device: d, .. }) => d == device,
            Some(EventView::RawButtonRelease { device: d, .. }) => d == device,
            Some(EventView::RawMotion { device: d, .. }) => d == device,
            Some(_) => false,
            None => true,
        },
{
}

/// Within one class of axes, different codes give different axis identities.
pub proof fn axis_identity_is_injective(a: u16, b: u16)
    requires
        a != b,
    ensures
        relative_axis(a) != relative_axis(b),
        absolute_axis(a) != absolute_axis(b),
{
}

/// No relative axis that the interface defines shares its identity with an
/// absolute axis.
pub proof fn axis_classes_are_disjoint(relative: u16, absolute: u16)
    requires
        relative < REL_CNT,
    ensures
        relative_axis(relative) != absolute_axis(absolute),
{
}

/// Two motion records of one device with different codes, or of different
/// classes, are translated to motions of different axes.
pub proof fn motions_never_collide(device: Seq<u8>, a: InputEvent, b: InputEvent)
    requires
        a.type_ == EV_ABS || a.type_ == EV_REL,
        b.type_ == EV_ABS || b.type_ == EV_REL,
        a.type_ != b.type_ || a.code != b.code,
        a.type_ == EV_REL && b.type_ == EV_ABS ==> a.code < REL_CNT,
        a.type_ == EV_ABS && b.type_ == EV_REL ==> b.code < REL_CNT,
    ensures
        translate(device, a) matches Some(EventView::RawMotion { axis: axis_a, .. })
            && translate(device, b) matches Some(EventView::RawMotion { axis: axis_b, .. })
            && axis_a != axis_b,
{
}

} // verus!
