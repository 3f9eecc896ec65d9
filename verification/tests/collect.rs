use timeflippers::time::Timestamp;
use timeflippers::timeflip::collect::{collect_history, history_step, HistoryStep};
use timeflippers::timeflip::{BluetoothEvent, DataFault, Entry, EntryError, Error};
use timeflippers::Facet;

const HISTORY: &[u8] = b"/org/bluez/hci0/dev_AA/service0010/char0020";

fn record(id: u32, facet: u8, time: u64, duration: u32) -> Vec<u8> {
    let mut data = Vec::new();
    data.extend_from_slice(&id.to_be_bytes());
    data.push(facet);
    data.extend_from_slice(&time.to_be_bytes());
    data.extend_from_slice(&duration.to_be_bytes());
    data
}

fn notification(id: u32) -> BluetoothEvent {
    BluetoothEvent::Value { id: HISTORY.to_vec(), value: record(id, 2, 1_000 + u64::from(id), 60) }
}

fn end_marker() -> BluetoothEvent {
    BluetoothEvent::Value { id: HISTORY.to_vec(), value: vec![0; 17] }
}

fn entry(id: u32) -> Entry {
    Entry {
        id,
        facet: Facet::new(2).unwrap(),
        pause: false,
        time: Timestamp(1_000 + i64::from(id)),
        duration: 60,
    }
}

#[test]
fn entries_are_collected_in_delivery_order() {
    let events = vec![notification(5), notification(3), notification(7), end_marker()];
    assert_eq!(
        collect_history(&events, &HISTORY.to_vec()),
        Ok(vec![entry(5), entry(3), entry(7)])
    );
}

#[test]
fn subscription_is_stopped_once_after_the_end_marker() {
    let events = vec![notification(5), notification(3), notification(7), end_marker()];
    let history = HISTORY.to_vec();
    let mut entries = Vec::new();
    let mut stops = 0;
    let mut taken = 0;
    for event in &events {
        taken += 1;
        match history_step(&mut entries, event, &history).unwrap() {
            HistoryStep::Collected => {}
            HistoryStep::Skipped(e) => panic!("skipped: {:?}", e),
            HistoryStep::Finished => {
                stops += 1;
                break;
            }
        }
    }
    assert_eq!(stops, 1);
    assert_eq!(taken, 4);
    assert_eq!(entries, vec![entry(5), entry(3), entry(7)]);
}

#[test]
fn nothing_after_the_end_marker_is_collected() {
    let events = vec![notification(1), end_marker(), notification(2), BluetoothEvent::Other];
    assert_eq!(collect_history(&events, &HISTORY.to_vec()), Ok(vec![entry(1)]));
}

#[test]
fn records_that_do_not_decode_are_skipped() {
    let events = vec![
        notification(1),
        BluetoothEvent::Value { id: HISTORY.to_vec(), value: vec![1, 2, 3] },
        BluetoothEvent::Value { id: HISTORY.to_vec(), value: record(9, 99, 5, 5) },
        BluetoothEvent::Value { id: HISTORY.to_vec(), value: record(9, 1, u64::MAX, 5) },
        notification(2),
    ];
    assert_eq!(collect_history(&events, &HISTORY.to_vec()), Ok(vec![entry(1), entry(2)]));
}

#[test]
fn a_stream_that_ends_without_marker_gives_what_came() {
    assert_eq!(collect_history(&vec![notification(4)], &HISTORY.to_vec()), Ok(vec![entry(4)]));
    assert_eq!(collect_history(&Vec::new(), &HISTORY.to_vec()), Ok(Vec::new()));
}

#[test]
fn events_that_do_not_belong_fail_the_collection() {
    let foreign = BluetoothEvent::Value { id: b"/other".to_vec(), value: record(1, 1, 1, 1) };
    assert_eq!(
        collect_history(&vec![notification(1), foreign], &HISTORY.to_vec()),
        Err(Error::InvalidCharacteristicData(DataFault::WrongCharacteristic))
    );
    let connected = BluetoothEvent::Connected { id: HISTORY.to_vec(), connected: false };
    assert_eq!(
        collect_history(&vec![connected], &HISTORY.to_vec()),
        Err(Error::InvalidCharacteristicData(DataFault::UnexpectedEvent))
    );
    assert_eq!(
        collect_history(&vec![BluetoothEvent::Other, end_marker()], &HISTORY.to_vec()),
        Err(Error::InvalidCharacteristicData(DataFault::UnexpectedEvent))
    );
}

#[test]
fn a_step_leaves_the_entries_alone_unless_it_collects() {
    let history = HISTORY.to_vec();
    let mut entries = vec![entry(8)];
    assert_eq!(history_step(&mut entries, &end_marker(), &history), Ok(HistoryStep::Finished));
    assert_eq!(entries, vec![entry(8)]);
    assert_eq!(
        history_step(&mut entries, &BluetoothEvent::Other, &history),
        Err(Error::InvalidCharacteristicData(DataFault::UnexpectedEvent))
    );
    assert_eq!(entries, vec![entry(8)]);
    assert_eq!(history_step(&mut entries, &notification(9), &history), Ok(HistoryStep::Collected));
    assert_eq!(entries, vec![entry(8), entry(9)]);
    let short = BluetoothEvent::Value { id: HISTORY.to_vec(), value: vec![1, 2, 3] };
    assert_eq!(
        history_step(&mut entries, &short, &history),
        Ok(HistoryStep::Skipped(EntryError::TooShort))
    );
    assert_eq!(entries, vec![entry(8), entry(9)]);
}
