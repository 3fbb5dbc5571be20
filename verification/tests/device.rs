use wai_evdev::device::{Device, DeviceTable};
use wai_evdev::event::DeviceID;

fn id(name: &str) -> DeviceID {
    DeviceID::new(name.as_bytes().to_vec())
}

#[test]
fn identity_is_its_name() {
    let a = id("event0");
    assert_eq!(a.name(), &b"event0".to_vec());
    assert!(a.same(&id("event0")));
    assert!(!a.same(&id("event1")));
    assert!(!a.same(&id("event")));
    assert!(!a.same(&id("event00")));
    assert!(id("").same(&id("")));
    assert!(!id("").same(&id("e")));
}

#[test]
fn identity_clone_names_the_same_device() {
    let a = id("mouse1");
    let b = a.clone();
    assert!(a.same(&b));
    assert_eq!(a, b);
    assert_eq!(b.name(), &b"mouse1".to_vec());
}

#[test]
fn device_wraps_its_node() {
    let mut device = Device::new(41u32);
    assert_eq!(*device.get_ref(), 41);
    *device.get_mut() += 1;
    assert_eq!(*device.get_ref(), 42);
    assert_eq!(device.into_inner(), 42);
}

#[test]
fn new_table_is_empty() {
    let table: DeviceTable<u32> = DeviceTable::new();
    assert_eq!(table.len(), 0);
    assert_eq!(table.find(&id("event0")), None);
}

#[test]
fn table_keeps_devices_in_order_of_insertion() {
    let mut table: DeviceTable<u32> = DeviceTable::new();
    assert!(table.insert(id("event0"), Device::new(10)).is_none());
    assert!(table.insert(id("event1"), Device::new(11)).is_none());
    assert!(table.insert(id("event2"), Device::new(12)).is_none());
    assert_eq!(table.len(), 3);
    assert_eq!(table.find(&id("event0")), Some(0));
    assert_eq!(table.find(&id("event1")), Some(1));
    assert_eq!(table.find(&id("event2")), Some(2));
    assert_eq!(table.find(&id("event3")), None);
    assert_eq!(table.id(1), &id("event1"));
    assert_eq!(*table.get(1).get_ref(), 11);
}

#[test]
fn table_refuses_a_second_device_under_one_identity() {
    let mut table: DeviceTable<u32> = DeviceTable::new();
    assert!(table.insert(id("event0"), Device::new(10)).is_none());
    let refused = table.insert(id("event0"), Device::new(99));
    assert_eq!(refused.map(Device::into_inner), Some(99));
    assert_eq!(table.len(), 1);
    assert_eq!(*table.get(0).get_ref(), 10);
}

#[test]
fn table_removes_by_identity_and_keeps_the_rest() {
    let mut table: DeviceTable<u32> = DeviceTable::new();
    table.insert(id("event0"), Device::new(10));
    table.insert(id("event1"), Device::new(11));
    table.insert(id("event2"), Device::new(12));
    let removed = table.remove(&id("event1"));
    assert_eq!(removed.map(Device::into_inner), Some(11));
    assert_eq!(table.len(), 2);
    assert_eq!(table.find(&id("event1")), None);
    assert_eq!(table.find(&id("event0")), Some(0));
    assert_eq!(table.find(&id("event2")), Some(1));
    assert_eq!(*table.get(1).get_ref(), 12);
    assert!(table.remove(&id("event1")).is_none());
    assert_eq!(table.len(), 2);
}

#[test]
fn table_takes_an_identity_again_after_its_removal() {
    let mut table: DeviceTable<u32> = DeviceTable::new();
    table.insert(id("event0"), Device::new(10));
    table.remove(&id("event0"));
    assert!(table.insert(id("event0"), Device::new(20)).is_none());
    assert_eq!(table.len(), 1);
    assert_eq!(*table.get(0).get_ref(), 20);
}

#[test]
fn table_hands_out_a_device_to_be_used() {
    let mut table: DeviceTable<u32> = DeviceTable::new();
    table.insert(id("event0"), Device::new(10));
    table.insert(id("event1"), Device::new(11));
    *table.get_mut(1).get_mut() = 77;
    assert_eq!(*table.get(0).get_ref(), 10);
    assert_eq!(*table.get(1).get_ref(), 77);
    assert_eq!(table.id(1), &id("event1"));
    assert_eq!(table.len(), 2);
}
