use loctrack::entry::LocationEntry;
use loctrack::frame::LocationFrame;
use loctrack::store::{LocationStore, RecordId, StoreError};

fn frame(latitude: f64, longitude: f64, signal: f64, battery: f64, timestamp: u64) -> LocationFrame {
    LocationFrame::new(
        latitude.to_bits(),
        longitude.to_bits(),
        signal.to_bits(),
        battery.to_bits(),
        timestamp,
    )
    .unwrap()
}

#[test]
fn latest_on_an_empty_table_is_not_found() {
    let store = LocationStore::new();
    assert_eq!(store.len(), 0);
    assert_eq!(store.latest(), Err(StoreError::NotFound));
}

#[test]
fn first_insert_returns_identifier_one() {
    let mut store = LocationStore::new();
    let id = store.insert_at(frame(1.0, 2.0, 3.0, 4.0, 5), 6);
    assert_eq!(id, Ok(RecordId(1)));
    assert_eq!(store.len(), 1);
}

#[test]
fn latest_returns_what_was_inserted() {
    let mut store = LocationStore::new();
    let sent = frame(37.7749, -122.4194, -80.0, 0.73, 1_700_000_000);
    store.insert_at(sent, 1_700_000_042).unwrap();
    let entry = store.latest().unwrap();
    assert_eq!(entry.latitude, 37.7749f64.to_bits());
    assert_eq!(entry.longitude, (-122.4194f64).to_bits());
    assert_eq!(entry.signal, (-80.0f64).to_bits());
    assert_eq!(entry.battery, 0.73f64.to_bits());
    assert_eq!(entry.generated, 1_700_000_000);
    assert_eq!(entry.received, 1_700_000_042);
}

#[test]
fn latest_keeps_the_bits_of_odd_readings() {
    let mut store = LocationStore::new();
    let sent = LocationFrame::new(0x7ff8_0000_0000_0001, 0x8000_0000_0000_0000, u64::MAX, 1, 0)
        .unwrap();
    store.insert_at(sent, -1).unwrap();
    assert_eq!(
        store.latest(),
        Ok(LocationEntry {
            latitude: 0x7ff8_0000_0000_0001,
            longitude: 0x8000_0000_0000_0000,
            signal: u64::MAX,
            battery: 1,
            generated: 0,
            received: -1,
        })
    );
}

#[test]
fn second_insert_returns_the_greater_identifier() {
    let mut store = LocationStore::new();
    let first = store.insert_at(frame(1.0, 1.0, 1.0, 1.0, 10), 11).unwrap();
    let second = store.insert_at(frame(2.0, 2.0, 2.0, 2.0, 20), 21).unwrap();
    assert!(second > first);
    assert!(second.0 > first.0);
    assert_eq!((first, second), (RecordId(1), RecordId(2)));
}

#[test]
fn latest_is_the_last_row_inserted() {
    let mut store = LocationStore::new();
    store.insert_at(frame(1.0, 1.0, 1.0, 1.0, 10), 11).unwrap();
    store.insert_at(frame(2.0, 2.0, 2.0, 2.0, 20), 21).unwrap();
    store.insert_at(frame(3.0, 3.0, 3.0, 3.0, 30), 31).unwrap();
    let entry = store.latest().unwrap();
    assert_eq!(entry.latitude, 3.0f64.to_bits());
    assert_eq!(entry.generated, 30);
    assert_eq!(entry.received, 31);
}

#[test]
fn latest_does_not_change_the_table() {
    let mut store = LocationStore::new();
    store.insert_at(frame(1.0, 1.0, 1.0, 1.0, 10), 11).unwrap();
    assert_eq!(store.latest(), store.latest());
    assert_eq!(store.len(), 1);
}

#[test]
fn many_inserts_add_one_row_each() {
    let mut store = LocationStore::new();
    let mut ids = Vec::new();
    for k in 0..100u64 {
        ids.push(store.insert_at(frame(k as f64, 0.0, 0.0, 0.0, k), k as i64).unwrap());
    }
    assert_eq!(store.len(), 100);
    for (k, id) in ids.iter().enumerate() {
        assert_eq!(id.0, k as i64 + 1);
    }
    assert_eq!(store.latest().unwrap().generated, 99);
}

#[test]
fn generated_may_lie_after_received() {
    let mut store = LocationStore::new();
    store.insert_at(frame(0.0, 0.0, 0.0, 0.0, 2_000_000_000), 1_000_000_000).unwrap();
    let entry = store.latest().unwrap();
    assert!(entry.generated > entry.received);
}

#[test]
fn insert_stamps_the_time_of_receipt() {
    let mut store = LocationStore::new();
    let before = chrono::Utc::now().timestamp();
    let id = store.insert(frame(1.0, 2.0, 3.0, 4.0, 5)).unwrap();
    let after = chrono::Utc::now().timestamp();
    assert_eq!(id, RecordId(1));
    let entry = store.latest().unwrap();
    assert!(before <= entry.received && entry.received <= after);
    assert_eq!(entry.generated, 5);
    assert_eq!(entry.latitude, 1.0f64.to_bits());
}

#[test]
fn record_copies_the_frame() {
    let entry = LocationEntry::record(&frame(1.0, 2.0, 3.0, 4.0, 8_210_266_876_799), 9);
    assert_eq!(
        entry,
        LocationEntry {
            latitude: 1.0f64.to_bits(),
            longitude: 2.0f64.to_bits(),
            signal: 3.0f64.to_bits(),
            battery: 4.0f64.to_bits(),
            generated: 8_210_266_876_799,
            received: 9,
        }
    );
}
