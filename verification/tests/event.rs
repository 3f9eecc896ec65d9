use timeflippers::timeflip::event::same_handle;
use timeflippers::timeflip::{
    decode_battery_level, decode_facet, decode_last_event, stream_item, BluetoothEvent,
    Characteristic, Error, Event, EventError, EventHandles, StreamItem,
};
use timeflippers::{Facet, FacetError, Percent, PercentError};

fn handles() -> EventHandles {
    EventHandles {
        device_id: b"/org/bluez/hci0/dev_AA".to_vec(),
        battery_level: b"/org/bluez/hci0/dev_AA/service000a/char000b".to_vec(),
        last_event: b"/org/bluez/hci0/dev_AA/service0010/char0011".to_vec(),
        facet: b"/org/bluez/hci0/dev_AA/service0010/char0014".to_vec(),
        double_tap: b"/org/bluez/hci0/dev_AA/service0010/char001d".to_vec(),
    }
}

fn value(id: &[u8], value: &[u8]) -> BluetoothEvent {
    BluetoothEvent::Value { id: id.to_vec(), value: value.to_vec() }
}

#[test]
fn double_tap_with_pause_bit() {
    let handles = handles();
    assert_eq!(
        Event::from_bluetooth_event(value(&handles.double_tap, &[131]), &handles),
        Ok(Event::DoubleTap { facet: Facet::new(3).unwrap(), pause: true })
    );
}

#[test]
fn double_tap_without_pause_bit() {
    let handles = handles();
    assert_eq!(
        Event::from_bluetooth_event(value(&handles.double_tap, &[3]), &handles),
        Ok(Event::DoubleTap { facet: Facet::new(3).unwrap(), pause: false })
    );
}

#[test]
fn double_tap_errors() {
    let handles = handles();
    assert_eq!(
        Event::from_bluetooth_event(value(&handles.double_tap, &[]), &handles),
        Err(EventError::TooShort(Characteristic::DoubleTap))
    );
    assert_eq!(
        Event::from_bluetooth_event(value(&handles.double_tap, &[128]), &handles),
        Err(EventError::DoubleTap(FacetError::InvalidIndex(0)))
    );
    assert_eq!(
        Event::from_bluetooth_event(value(&handles.double_tap, &[13, 1]), &handles),
        Err(EventError::DoubleTap(FacetError::InvalidIndex(13)))
    );
}

#[test]
fn battery_level_events() {
    let handles = handles();
    assert_eq!(
        Event::from_bluetooth_event(value(&handles.battery_level, &[87, 1]), &handles),
        Ok(Event::BatteryLevel(Percent::new(87).unwrap()))
    );
    assert_eq!(
        Event::from_bluetooth_event(value(&handles.battery_level, &[101]), &handles),
        Err(EventError::BatteryLevel(PercentError::OutOfRange(101)))
    );
    assert_eq!(
        Event::from_bluetooth_event(value(&handles.battery_level, &[]), &handles),
        Err(EventError::TooShort(Characteristic::BatteryLevel))
    );
}

#[test]
fn facet_events() {
    let handles = handles();
    assert_eq!(
        Event::from_bluetooth_event(value(&handles.facet, &[12]), &handles),
        Ok(Event::Facet(Facet::new(12).unwrap()))
    );
    assert_eq!(
        Event::from_bluetooth_event(value(&handles.facet, &[131]), &handles),
        Err(EventError::Facet(FacetError::InvalidIndex(131)))
    );
    assert_eq!(
        Event::from_bluetooth_event(value(&handles.facet, &[]), &handles),
        Err(EventError::TooShort(Characteristic::Facet))
    );
}

#[test]
fn last_event_text_events() {
    let handles = handles();
    assert_eq!(
        Event::from_bluetooth_event(value(&handles.last_event, "Facet 3 \u{2713}".as_bytes()), &handles),
        Ok(Event::Event(String::from("Facet 3 \u{2713}")))
    );
    assert_eq!(
        Event::from_bluetooth_event(value(&handles.last_event, &[]), &handles),
        Ok(Event::Event(String::new()))
    );
    assert_eq!(
        Event::from_bluetooth_event(value(&handles.last_event, &[0x66, 0xFF, 0x6F]), &handles),
        Err(EventError::Event(vec![0x66, 0xFF, 0x6F]))
    );
}

#[test]
fn value_of_an_unknown_characteristic() {
    let handles = handles();
    assert_eq!(
        Event::from_bluetooth_event(value(b"/org/bluez/other", &[1]), &handles),
        Err(EventError::UnexpectedCharacteristic(b"/org/bluez/other".to_vec()))
    );
    // The handle of the device is none of a characteristic.
    assert_eq!(
        Event::from_bluetooth_event(value(&handles.device_id, &[1]), &handles),
        Err(EventError::UnexpectedCharacteristic(handles.device_id.clone()))
    );
}

#[test]
fn connectivity_events() {
    let handles = handles();
    let disconnected = BluetoothEvent::Connected { id: handles.device_id.clone(), connected: false };
    assert_eq!(Event::from_bluetooth_event(disconnected, &handles), Ok(Event::Disconnected));
    let connected = BluetoothEvent::Connected { id: handles.device_id.clone(), connected: true };
    assert_eq!(Event::from_bluetooth_event(connected, &handles), Err(EventError::IgnoreConnected));
    let other = BluetoothEvent::Connected { id: b"/org/bluez/hci0/dev_BB".to_vec(), connected: false };
    assert_eq!(
        Event::from_bluetooth_event(other, &handles),
        Err(EventError::UnexpectedDevice(b"/org/bluez/hci0/dev_BB".to_vec()))
    );
}

#[test]
fn any_other_event_is_unexpected() {
    assert_eq!(
        Event::from_bluetooth_event(BluetoothEvent::Other, &handles()),
        Err(EventError::UnexpectedEvent)
    );
}

#[test]
fn stream_keeps_what_decodes_in_delivery_order() {
    let handles = handles();
    let delivered = vec![
        value(&handles.facet, &[4]),
        BluetoothEvent::Connected { id: handles.device_id.clone(), connected: true },
        value(&handles.battery_level, &[200]),
        value(&handles.double_tap, &[132]),
        BluetoothEvent::Other,
        value(&handles.last_event, b"hello"),
        BluetoothEvent::Connected { id: handles.device_id.clone(), connected: false },
    ];
    let mut stream = Vec::new();
    let mut ignored = 0;
    let mut dropped = Vec::new();
    for bt_event in delivered {
        match stream_item(bt_event, &handles) {
            StreamItem::Event(event) => stream.push(event),
            StreamItem::Ignored => ignored += 1,
            StreamItem::Dropped(e) => dropped.push(e),
        }
    }
    assert_eq!(ignored, 1);
    assert_eq!(
        dropped,
        vec![
            EventError::BatteryLevel(PercentError::OutOfRange(200)),
            EventError::UnexpectedEvent,
        ]
    );
    assert_eq!(
        stream,
        vec![
            Event::Facet(Facet::new(4).unwrap()),
            Event::DoubleTap { facet: Facet::new(4).unwrap(), pause: true },
            Event::Event(String::from("hello")),
            Event::Disconnected,
        ]
    );
}

#[test]
fn handles_are_compared_byte_by_byte() {
    assert!(same_handle(&b"abc".to_vec(), &b"abc".to_vec()));
    assert!(same_handle(&Vec::new(), &Vec::new()));
    assert!(!same_handle(&b"abc".to_vec(), &b"abd".to_vec()));
    assert!(!same_handle(&b"abc".to_vec(), &b"ab".to_vec()));
    assert!(!same_handle(&b"ab".to_vec(), &b"abc".to_vec()));
}

#[test]
fn battery_level_read() {
    assert_eq!(decode_battery_level(&[100]), Ok(Percent::new(100).unwrap()));
    assert_eq!(decode_battery_level(&[0, 9]), Ok(Percent::new(0).unwrap()));
    assert_eq!(
        decode_battery_level(&[101]),
        Err(Error::InvalidBatteryLevel(PercentError::OutOfRange(101)))
    );
    assert_eq!(decode_battery_level(&[]), Err(Error::ReadTooShort(0, 1)));
}

#[test]
fn facet_read() {
    assert_eq!(decode_facet(&[1]), Ok(Facet::new(1).unwrap()));
    assert_eq!(decode_facet(&[13]), Err(Error::InvalidFacet(FacetError::InvalidIndex(13))));
    assert_eq!(decode_facet(&[0]), Err(Error::InvalidFacet(FacetError::InvalidIndex(0))));
    assert_eq!(decode_facet(&[]), Err(Error::ReadTooShort(0, 1)));
}

#[test]
fn last_event_read() {
    assert_eq!(decode_last_event(b"Battery 80%".to_vec()), Ok(String::from("Battery 80%")));
    assert_eq!(decode_last_event(vec![0xC3, 0xA9]), Ok(String::from("\u{e9}")));
    assert_eq!(decode_last_event(vec![0xC3]), Err(Error::Utf8Error(vec![0xC3])));
}
