use areum_backend::correlate::{collect_samples_in_window, correlate, correlate_one, instant_of_sample, overlaps};
use areum_backend::models::sensor_data::{
    DeviceInfo, HealthDataRecord, HealthDataTimeQuery, SensorUpload, StreamType, UploadSample,
};
use areum_backend::store::RecordStore;
use areum_backend::time::Timestamp;
use areum_backend::upload::assemble;
use serde_json::Value;

const OWNER: u128 = 0x550e8400_e29b_41d4_a716_446655440000;

fn at(text: &str) -> Timestamp {
    Timestamp::parse(text).expect("an instant")
}

fn object(members: Vec<(&str, Value)>) -> Value {
    let mut map = serde_json::Map::new();
    for (name, value) in members {
        map.insert(name.to_string(), value);
    }
    Value::Object(map)
}

fn gps_sample(time: &str, latitude: f64, longitude: f64) -> UploadSample {
    UploadSample {
        timestamp: at(time),
        body: object(vec![
            ("timestamp", Value::from(time)),
            ("latitude", Value::from(latitude)),
            ("longitude", Value::from(longitude)),
        ]),
    }
}

fn heart_sample(time: &str, rate: i32) -> UploadSample {
    UploadSample {
        timestamp: at(time),
        body: object(vec![("timestamp", Value::from(time)), ("heart_rate", Value::from(rate))]),
    }
}

fn motion_sample(time: &str, x: f64, y: f64, z: f64) -> UploadSample {
    UploadSample {
        timestamp: at(time),
        body: object(vec![
            ("timestamp", Value::from(time)),
            ("x", Value::from(x)),
            ("y", Value::from(y)),
            ("z", Value::from(z)),
        ]),
    }
}

fn upload(stream: StreamType, start: &str, end: Option<&str>, samples: Vec<UploadSample>) -> SensorUpload {
    SensorUpload {
        data_type: stream.as_str().to_string(),
        device_info: DeviceInfo::default(),
        sampling_rate_hz: 1,
        start_time: at(start),
        end_time: end.map(at),
        samples,
        metadata: None,
    }
}

fn record(stream: StreamType, id: u128, start: &str, end: Option<&str>, samples: Vec<UploadSample>) -> HealthDataRecord {
    assemble(stream, &upload(stream, start, end, samples), OWNER, id, at("2025-03-15T11:00:00Z")).expect("a record")
}

fn window_only(start: &str, end: &str) -> HealthDataRecord {
    record(StreamType::GpsLocation, 1, start, Some(end), vec![])
}

fn times_of(samples: &[Value]) -> Vec<String> {
    samples.iter().map(|sample| sample["timestamp"].as_str().expect("a timestamp").to_string()).collect()
}

#[test]
fn windows_that_share_an_instant_overlap() {
    let primary = window_only("2025-03-15T10:00:00Z", "2025-03-15T10:05:00Z");
    let touching = window_only("2025-03-15T10:05:00Z", "2025-03-15T10:10:00Z");
    let later = window_only("2025-03-15T10:06:00Z", "2025-03-15T10:10:00Z");
    assert!(overlaps(&primary, &touching));
    assert!(overlaps(&touching, &primary));
    assert!(!overlaps(&primary, &later));
    assert!(!overlaps(&later, &primary));
}

#[test]
fn a_window_of_no_length_overlaps_on_the_boundary() {
    let primary = window_only("2025-03-15T10:00:00Z", "2025-03-15T10:05:00Z");
    let instantaneous = window_only("2025-03-15T10:05:00Z", "2025-03-15T10:05:00Z");
    let inside = window_only("2025-03-15T10:01:00Z", "2025-03-15T10:02:00Z");
    let around = window_only("2025-03-15T09:00:00Z", "2025-03-15T11:00:00Z");
    assert!(overlaps(&primary, &instantaneous));
    assert!(overlaps(&primary, &inside));
    assert!(overlaps(&primary, &around));
}

#[test]
fn overlap_looks_at_nanoseconds() {
    let primary = window_only("2025-03-15T10:00:00Z", "2025-03-15T10:05:00Z");
    let just_after = window_only("2025-03-15T10:05:00.000000001Z", "2025-03-15T10:10:00Z");
    assert!(!overlaps(&primary, &just_after));
}

#[test]
fn the_instant_of_a_sample_is_read_from_its_timestamp() {
    let sample = object(vec![("timestamp", Value::from("2025-03-15T10:05:00Z")), ("heart_rate", Value::from(72))]);
    assert_eq!(instant_of_sample(&sample), Some(Timestamp { seconds: 1742033100, nanos: 0 }));
}

#[test]
fn a_sample_without_a_readable_timestamp_has_no_instant() {
    assert_eq!(instant_of_sample(&object(vec![("heart_rate", Value::from(72))])), None);
    assert_eq!(instant_of_sample(&object(vec![("timestamp", Value::from(1742033100))])), None);
    assert_eq!(instant_of_sample(&object(vec![("timestamp", Value::from("yesterday"))])), None);
    assert_eq!(instant_of_sample(&Value::from("2025-03-15T10:05:00Z")), None);
    assert_eq!(instant_of_sample(&Value::Null), None);
}

#[test]
fn only_samples_within_the_window_are_collected() {
    let payload = object(vec![(
        "samples",
        Value::Array(vec![
            gps_sample("2025-03-15T09:59:59Z", 40.0, -74.0).body,
            gps_sample("2025-03-15T10:00:00Z", 40.1, -74.1).body,
            gps_sample("2025-03-15T10:02:30Z", 40.2, -74.2).body,
            object(vec![("latitude", Value::from(1.0))]),
            gps_sample("2025-03-15T10:05:00Z", 40.3, -74.3).body,
            gps_sample("2025-03-15T10:05:01Z", 40.4, -74.4).body,
        ]),
    )]);
    let mut found = vec![Value::from("kept")];
    collect_samples_in_window(&mut found, &payload, &at("2025-03-15T10:00:00Z"), &at("2025-03-15T10:05:00Z"));
    assert_eq!(found.len(), 4);
    assert_eq!(found[0], Value::from("kept"));
    assert_eq!(times_of(&found[1..]), vec!["2025-03-15T10:00:00Z", "2025-03-15T10:02:30Z", "2025-03-15T10:05:00Z"]);
    assert_eq!(found[1]["latitude"], Value::from(40.1));
}

#[test]
fn a_payload_without_samples_adds_nothing() {
    let start = at("2025-03-15T10:00:00Z");
    let end = at("2025-03-15T10:05:00Z");
    let mut found = Vec::new();
    collect_samples_in_window(&mut found, &Value::Null, &start, &end);
    collect_samples_in_window(&mut found, &object(vec![]), &start, &end);
    collect_samples_in_window(&mut found, &object(vec![("samples", Value::from("none"))]), &start, &end);
    collect_samples_in_window(&mut found, &object(vec![("samples", Value::Array(vec![]))]), &start, &end);
    assert!(found.is_empty());
}

#[test]
fn samples_outside_the_primary_window_are_left_out() {
    let primary = record(
        StreamType::HeartRate,
        10,
        "2025-03-15T10:05:00Z",
        None,
        vec![heart_sample("2025-03-15T10:05:00Z", 72), heart_sample("2025-03-15T10:20:00Z", 74)],
    );
    let secondary = record(
        StreamType::GpsLocation,
        11,
        "2025-03-15T10:00:00Z",
        Some("2025-03-15T10:30:00Z"),
        vec![
            gps_sample("2025-03-15T10:00:00Z", 40.7128, -74.0060),
            gps_sample("2025-03-15T10:05:00Z", 40.7129, -74.0061),
            gps_sample("2025-03-15T10:10:00Z", 40.7130, -74.0062),
            gps_sample("2025-03-15T10:15:00Z", 40.7131, -74.0063),
            gps_sample("2025-03-15T10:20:00Z", 40.7132, -74.0064),
            gps_sample("2025-03-15T10:25:00Z", 40.7133, -74.0065),
            gps_sample("2025-03-15T10:30:00Z", 40.7134, -74.0066),
        ],
    );
    let found = correlate_one(&primary, &vec![secondary]);
    assert_eq!(
        times_of(&found),
        vec!["2025-03-15T10:05:00Z", "2025-03-15T10:10:00Z", "2025-03-15T10:15:00Z", "2025-03-15T10:20:00Z"]
    );
}

#[test]
fn a_record_that_does_not_overlap_gives_nothing() {
    let primary = record(StreamType::HeartRate, 10, "2025-03-15T10:00:00Z", Some("2025-03-15T10:05:00Z"), vec![]);
    // The record's window lies after the primary window, though one of its
    // samples is stamped inside it.
    let secondary = record(
        StreamType::GpsLocation,
        11,
        "2025-03-15T10:06:00Z",
        Some("2025-03-15T10:10:00Z"),
        vec![gps_sample("2025-03-15T10:03:00Z", 40.0, -74.0)],
    );
    assert!(correlate_one(&primary, &vec![secondary]).is_empty());
}

#[test]
fn samples_come_in_the_order_of_the_secondary_records() {
    let primary = record(StreamType::HeartRate, 10, "2025-03-15T10:00:00Z", Some("2025-03-15T11:00:00Z"), vec![]);
    let late = record(
        StreamType::GpsLocation,
        11,
        "2025-03-15T10:30:00Z",
        Some("2025-03-15T10:40:00Z"),
        vec![gps_sample("2025-03-15T10:35:00Z", 1.0, 1.0), gps_sample("2025-03-15T10:31:00Z", 2.0, 2.0)],
    );
    let early = record(
        StreamType::GpsLocation,
        12,
        "2025-03-15T10:00:00Z",
        Some("2025-03-15T10:10:00Z"),
        vec![gps_sample("2025-03-15T10:05:00Z", 3.0, 3.0)],
    );
    let found = correlate_one(&primary, &vec![late, early]);
    assert_eq!(times_of(&found), vec!["2025-03-15T10:35:00Z", "2025-03-15T10:31:00Z", "2025-03-15T10:05:00Z"]);
}

#[test]
fn each_primary_record_gets_an_entry() {
    let first = record(StreamType::HeartRate, 10, "2025-03-15T10:00:00Z", Some("2025-03-15T10:05:00Z"), vec![]);
    let second = record(StreamType::HeartRate, 11, "2025-03-15T12:00:00Z", Some("2025-03-15T12:05:00Z"), vec![]);
    let gps = record(
        StreamType::GpsLocation,
        12,
        "2025-03-15T10:00:00Z",
        Some("2025-03-15T10:10:00Z"),
        vec![gps_sample("2025-03-15T10:01:00Z", 3.0, 3.0)],
    );
    let entries = correlate(&vec![first, second], &vec![gps]);
    assert_eq!(entries.len(), 2);
    assert_eq!(entries[0].record.id, 10);
    assert_eq!(times_of(&entries[0].correlated_samples), vec!["2025-03-15T10:01:00Z"]);
    assert_eq!(entries[1].record.id, 11);
    assert!(entries[1].correlated_samples.is_empty());
    assert!(correlate(&vec![], &vec![]).is_empty());
}

#[test]
fn test_health_data_with_gps_endpoint() {
    let mut store = RecordStore::new();
    store.put(record(
        StreamType::GpsLocation,
        1,
        "2025-03-15T10:00:00Z",
        Some("2025-03-15T10:30:00Z"),
        vec![
            gps_sample("2025-03-15T10:00:00Z", 40.7128, -74.0060),
            gps_sample("2025-03-15T10:05:00Z", 40.7129, -74.0061),
            gps_sample("2025-03-15T10:10:00Z", 40.7130, -74.0062),
            gps_sample("2025-03-15T10:15:00Z", 40.7131, -74.0063),
            gps_sample("2025-03-15T10:20:00Z", 40.7132, -74.0064),
            gps_sample("2025-03-15T10:25:00Z", 40.7133, -74.0065),
            gps_sample("2025-03-15T10:30:00Z", 40.7134, -74.0066),
        ],
    ));
    store.put(record(
        StreamType::HeartRate,
        2,
        "2025-03-15T10:05:00Z",
        Some("2025-03-15T10:20:00Z"),
        vec![
            heart_sample("2025-03-15T10:05:00Z", 72),
            heart_sample("2025-03-15T10:10:00Z", 75),
            heart_sample("2025-03-15T10:15:00Z", 78),
            heart_sample("2025-03-15T10:20:00Z", 74),
        ],
    ));
    let query = HealthDataTimeQuery {
        data_type: "heart_rate".to_string(),
        start_time: at("2025-03-15T10:00:00Z"),
        end_time: at("2025-03-15T11:00:00Z"),
    };
    let entries = store.health_data_with_gps(OWNER, &query);
    assert_eq!(entries.len(), 1);
    assert_eq!(entries[0].record.id, 2);
    assert!(entries[0].correlated_samples.len() > 0);
    assert_eq!(entries[0].correlated_samples.len(), 4);
    assert_eq!(entries[0].correlated_samples[0]["latitude"], Value::from(40.7129));
}

#[test]
fn acceleration_is_correlated_with_the_one_gps_sample_in_its_window() {
    let mut store = RecordStore::new();
    store.put(record(
        StreamType::Acceleration,
        1,
        "2025-03-10T12:00:00Z",
        None,
        vec![
            motion_sample("2025-03-10T12:00:00Z", 0.1, 0.2, 9.8),
            motion_sample("2025-03-10T12:00:00.500Z", 0.2, 0.3, 9.7),
            motion_sample("2025-03-10T12:00:01Z", 0.3, 0.4, 9.6),
        ],
    ));
    store.put(record(
        StreamType::GpsLocation,
        2,
        "2025-03-10T12:00:00Z",
        Some("2025-03-10T12:05:00Z"),
        vec![
            gps_sample("2025-03-10T12:00:00Z", 37.7749, -122.4194),
            gps_sample("2025-03-10T12:01:00Z", 37.7750, -122.4195),
            gps_sample("2025-03-10T12:02:00Z", 37.7751, -122.4196),
            gps_sample("2025-03-10T12:03:00Z", 37.7752, -122.4197),
        ],
    ));
    let entries = store.correlated_in_range(
        OWNER,
        StreamType::Acceleration,
        StreamType::GpsLocation,
        at("2025-03-10T12:00:00Z"),
        at("2025-03-10T12:01:00Z"),
    );
    assert_eq!(entries.len(), 1);
    let entry = &entries[0];
    assert_eq!(entry.record.id, 1);
    assert_eq!(entry.record.data_type, StreamType::Acceleration);
    assert_eq!(entry.record.start_time, at("2025-03-10T12:00:00Z"));
    assert_eq!(entry.record.end_time, at("2025-03-10T12:00:01Z"));
    assert_eq!(times_of(&entry.correlated_samples), vec!["2025-03-10T12:00:00Z"]);
    assert_eq!(entry.correlated_samples[0]["latitude"], Value::from(37.7749));
    assert_eq!(entry.correlated_samples[0]["longitude"], Value::from(-122.4194));
}

#[test]
fn a_query_for_an_unknown_stream_is_empty() {
    let mut store = RecordStore::new();
    store.put(record(StreamType::HeartRate, 1, "2025-03-10T12:00:00Z", Some("2025-03-10T12:05:00Z"), vec![]));
    let query = HealthDataTimeQuery {
        data_type: "steps".to_string(),
        start_time: at("2025-03-10T12:00:00Z"),
        end_time: at("2025-03-10T13:00:00Z"),
    };
    assert!(store.health_data_with_gps(OWNER, &query).is_empty());
}

#[test]
fn a_query_without_primary_records_is_empty() {
    let mut store = RecordStore::new();
    store.put(record(
        StreamType::GpsLocation,
        2,
        "2025-03-10T12:00:00Z",
        Some("2025-03-10T12:05:00Z"),
        vec![gps_sample("2025-03-10T12:00:00Z", 37.7749, -122.4194)],
    ));
    let entries = store.correlated_in_range(
        OWNER,
        StreamType::Acceleration,
        StreamType::GpsLocation,
        at("2025-03-10T12:00:00Z"),
        at("2025-03-10T12:01:00Z"),
    );
    assert!(entries.is_empty());
}

#[test]
fn secondary_records_of_another_owner_are_not_correlated() {
    let mut store = RecordStore::new();
    store.put(record(StreamType::HeartRate, 1, "2025-03-10T12:00:00Z", Some("2025-03-10T12:05:00Z"), vec![]));
    let foreign = assemble(
        StreamType::GpsLocation,
        &upload(
            StreamType::GpsLocation,
            "2025-03-10T12:00:00Z",
            Some("2025-03-10T12:05:00Z"),
            vec![gps_sample("2025-03-10T12:01:00Z", 1.0, 1.0)],
        ),
        OWNER + 1,
        2,
        at("2025-03-15T11:00:00Z"),
    )
    .expect("a record");
    store.put(foreign);
    let entries = store.correlated_in_range(
        OWNER,
        StreamType::HeartRate,
        StreamType::GpsLocation,
        at("2025-03-10T12:00:00Z"),
        at("2025-03-10T13:00:00Z"),
    );
    assert_eq!(entries.len(), 1);
    assert!(entries[0].correlated_samples.is_empty());
}
