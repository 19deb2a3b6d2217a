use loctrack::frame::DecodeError;
use loctrack::service::{
    add_location, add_location_at, decode_failure, get_location, inserted_body, store_failure,
    BAD_REQUEST, INTERNAL_SERVER_ERROR, NOT_FOUND,
};
use loctrack::store::{LocationStore, RecordId, StoreError};
use loctrack::text::to_decimal;

fn body(latitude: f64, longitude: f64, signal: f64, battery: f64, timestamp: u64) -> Vec<u8> {
    wincode::serialize(&(latitude, longitude, signal, battery, timestamp)).unwrap()
}

#[test]
fn post_then_get_end_to_end() {
    let mut store = LocationStore::new();
    let posted = add_location(&mut store, &body(37.7749, -122.4194, -80.0, 0.73, 1_700_000_000));
    assert_eq!(posted, Ok("1".to_string()));
    let entry = get_location(&store).unwrap();
    assert_eq!(f64::from_bits(entry.latitude), 37.7749);
    assert_eq!(f64::from_bits(entry.longitude), -122.4194);
    assert_eq!(f64::from_bits(entry.signal), -80.0);
    assert_eq!(f64::from_bits(entry.battery), 0.73);
    assert_eq!(entry.generated, 1_700_000_000);
}

#[test]
fn post_at_a_given_time_is_exact() {
    let mut store = LocationStore::new();
    let sent = body(1.0, 2.0, 3.0, 4.0, 5);
    assert_eq!(add_location_at(&mut store, &sent, 100), Ok("1".to_string()));
    assert_eq!(add_location_at(&mut store, &sent, 200), Ok("2".to_string()));
    let entry = get_location(&store).unwrap();
    assert_eq!(entry.received, 200);
    assert_eq!(entry.generated, 5);
    assert_eq!(store.len(), 2);
}

#[test]
fn post_of_a_short_body_is_refused_and_stores_nothing() {
    let mut store = LocationStore::new();
    let sent = body(1.0, 2.0, 3.0, 4.0, 5);
    let reply = add_location(&mut store, &sent[..39]);
    assert_eq!(reply, Err((400, "Malformed frame".to_string())));
    assert_eq!(store.len(), 0);
    assert!(get_location(&store).is_err());
}

#[test]
fn post_of_a_bad_timestamp_is_refused_and_stores_nothing() {
    let mut store = LocationStore::new();
    add_location_at(&mut store, &body(1.0, 2.0, 3.0, 4.0, 5), 6).unwrap();
    let reply = add_location(&mut store, &body(9.0, 9.0, 9.0, 9.0, 8_210_266_876_800));
    assert_eq!(reply, Err((400, "Failed to decode frame".to_string())));
    assert_eq!(store.len(), 1);
    assert_eq!(get_location(&store).unwrap().generated, 5);
}

#[test]
fn get_on_an_empty_table_is_not_found() {
    let store = LocationStore::new();
    assert_eq!(
        get_location(&store),
        Err((
            404,
            "no rows returned by a query that expected to return at least one row".to_string()
        ))
    );
}

#[test]
fn statuses_follow_the_kind_of_error() {
    assert_eq!((BAD_REQUEST, NOT_FOUND, INTERNAL_SERVER_ERROR), (400, 404, 500));
    assert_eq!(decode_failure(DecodeError::Malformed).0, 400);
    assert_eq!(decode_failure(DecodeError::InvalidTimestamp).0, 400);
    assert_eq!(store_failure(StoreError::NotFound).0, 404);
    assert_eq!(store_failure(StoreError::Io("disk full".to_string())).0, 500);
}

#[test]
fn a_failure_of_the_table_carries_its_cause() {
    assert_eq!(
        store_failure(StoreError::Io("database is locked".to_string())),
        (500, "database is locked".to_string())
    );
}

#[test]
fn inserted_body_is_the_identifier_in_decimal() {
    assert_eq!(inserted_body(RecordId(1)), "1");
    assert_eq!(inserted_body(RecordId(42)), "42");
    assert_eq!(inserted_body(RecordId(i64::MAX)), "9223372036854775807");
}

#[test]
fn to_decimal_matches_the_usual_writing() {
    for n in [0i64, 1, 7, 9, 10, 11, 99, 100, 101, 1_234_567_890, -1, -9, -10, -12_345] {
        assert_eq!(to_decimal(n), n.to_string());
    }
    assert_eq!(to_decimal(0), "0");
    assert_eq!(to_decimal(1_700_000_000), "1700000000");
    assert_eq!(to_decimal(-80), "-80");
    assert_eq!(to_decimal(i64::MAX), "9223372036854775807");
    assert_eq!(to_decimal(i64::MIN), "-9223372036854775808");
}
