use wai_evdev::codes::{EV_ABS, EV_KEY, EV_MSC, EV_REL, EV_SYN, REL_CNT};
use wai_evdev::event::{AxisID, ButtonID, DeviceID, Event};
use wai_evdev::record::InputEvent;
use wai_evdev::translate::map_device_event;

fn keyboard() -> DeviceID {
    DeviceID::new(b"event3".to_vec())
}

fn record(type_: u16, code: u16, value: i32) -> InputEvent {
    InputEvent { type_, code, value }
}

#[test]
fn key_down_is_a_press() {
    assert_eq!(
        map_device_event(&keyboard(), record(EV_KEY, 30, 1)),
        Some(Event::RawButtonPress { device: keyboard(), button: ButtonID(30) })
    );
}

#[test]
fn key_up_is_a_release() {
    assert_eq!(
        map_device_event(&keyboard(), record(EV_KEY, 30, 0)),
        Some(Event::RawButtonRelease { device: keyboard(), button: ButtonID(30) })
    );
}

#[test]
fn key_repeat_is_no_event_for_any_code() {
    let mut code: u16 = 0;
    loop {
        assert_eq!(map_device_event(&keyboard(), record(EV_KEY, code, 2)), None);
        if code == u16::MAX {
            break;
        }
        code += 1;
    }
}

#[test]
fn unknown_key_state_is_no_event() {
    assert_eq!(map_device_event(&keyboard(), record(EV_KEY, 30, 3)), None);
    assert_eq!(map_device_event(&keyboard(), record(EV_KEY, 30, -1)), None);
    assert_eq!(map_device_event(&keyboard(), record(EV_KEY, 30, i32::MAX)), None);
    assert_eq!(map_device_event(&keyboard(), record(EV_KEY, 30, i32::MIN)), None);
}

#[test]
fn button_identity_is_the_code() {
    assert_eq!(
        map_device_event(&keyboard(), record(EV_KEY, u16::MAX, 1)),
        Some(Event::RawButtonPress { device: keyboard(), button: ButtonID(65535) })
    );
    assert_eq!(
        map_device_event(&keyboard(), record(EV_KEY, 0, 0)),
        Some(Event::RawButtonRelease { device: keyboard(), button: ButtonID(0) })
    );
}

#[test]
fn relative_motion_keeps_code_and_value() {
    assert_eq!(
        map_device_event(&keyboard(), record(EV_REL, 1, -7)),
        Some(Event::RawMotion { device: keyboard(), axis: AxisID(1), value: -7 })
    );
    assert_eq!(
        map_device_event(&keyboard(), record(EV_REL, 0, i32::MIN)),
        Some(Event::RawMotion { device: keyboard(), axis: AxisID(0), value: i32::MIN })
    );
}

#[test]
fn absolute_motion_is_moved_past_the_relative_axes() {
    assert_eq!(REL_CNT, 16);
    assert_eq!(
        map_device_event(&keyboard(), record(EV_ABS, 0, 512)),
        Some(Event::RawMotion { device: keyboard(), axis: AxisID(16), value: 512 })
    );
    assert_eq!(
        map_device_event(&keyboard(), record(EV_ABS, 5, i32::MAX)),
        Some(Event::RawMotion { device: keyboard(), axis: AxisID(21), value: i32::MAX })
    );
}

#[test]
fn absolute_motion_of_the_highest_code_does_not_wrap() {
    assert_eq!(
        map_device_event(&keyboard(), record(EV_ABS, u16::MAX, 1)),
        Some(Event::RawMotion { device: keyboard(), axis: AxisID(65551), value: 1 })
    );
}

#[test]
fn synchronization_and_miscellaneous_records_are_no_event() {
    assert_eq!(map_device_event(&keyboard(), record(EV_SYN, 0, 0)), None);
    assert_eq!(map_device_event(&keyboard(), record(EV_SYN, 3, 1)), None);
    assert_eq!(map_device_event(&keyboard(), record(EV_MSC, 4, 458756)), None);
}

#[test]
fn records_of_other_types_are_no_event() {
    assert_eq!(map_device_event(&keyboard(), record(0x05, 0, 1)), None);
    assert_eq!(map_device_event(&keyboard(), record(0x11, 1, 1)), None);
    assert_eq!(map_device_event(&keyboard(), record(0x14, 0, 250)), None);
    assert_eq!(map_device_event(&keyboard(), record(u16::MAX, u16::MAX, -1)), None);
}

#[test]
fn record_types_have_the_values_of_the_interface() {
    assert_eq!((EV_SYN, EV_KEY, EV_REL, EV_ABS, EV_MSC), (0, 1, 2, 3, 4));
}

fn axis_of(type_: u16, code: u16) -> AxisID {
    match map_device_event(&keyboard(), record(type_, code, 0)) {
        Some(Event::RawMotion { axis, .. }) => axis,
        other => panic!("no motion: {:?}", other),
    }
}

#[test]
fn axes_of_one_class_never_share_an_identity() {
    let mut a: u16 = 0;
    while a < 300 {
        let mut b: u16 = a + 1;
        while b < 300 {
            assert_ne!(axis_of(EV_ABS, a), axis_of(EV_ABS, b));
            assert_ne!(axis_of(EV_REL, a), axis_of(EV_REL, b));
            b += 1;
        }
        a += 1;
    }
    assert_ne!(axis_of(EV_ABS, 0), axis_of(EV_ABS, u16::MAX));
    assert_ne!(axis_of(EV_REL, 0), axis_of(EV_REL, u16::MAX));
}

#[test]
fn defined_relative_axes_share_no_identity_with_absolute_axes() {
    let mut relative: u16 = 0;
    while relative < REL_CNT {
        let mut absolute: u16 = 0;
        loop {
            assert_ne!(axis_of(EV_REL, relative), axis_of(EV_ABS, absolute));
            if absolute == u16::MAX {
                break;
            }
            absolute += 1;
        }
        relative += 1;
    }
}

#[test]
fn relative_code_past_the_defined_ones_meets_an_absolute_axis() {
    assert_eq!(axis_of(EV_REL, REL_CNT), axis_of(EV_ABS, 0));
}

#[test]
fn event_carries_the_device_it_came_from() {
    let mouse = DeviceID::new(b"event7".to_vec());
    assert_eq!(
        map_device_event(&mouse, record(EV_KEY, 272, 1)),
        Some(Event::RawButtonPress { device: mouse.clone(), button: ButtonID(272) })
    );
    assert_ne!(
        map_device_event(&mouse, record(EV_KEY, 272, 1)),
        map_device_event(&keyboard(), record(EV_KEY, 272, 1))
    );
}
