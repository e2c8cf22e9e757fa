use areum_backend::ident::parse_id;
use areum_backend::models::sensor_data::{DeviceInfo, HealthDataResponse, SensorUpload, StreamType, UploadSample};
use areum_backend::time::Timestamp;
use areum_backend::upload::{assemble, derive_end_time, normalize, pack_payload, UploadError};
use serde_json::Value;

fn at(text: &str) -> Timestamp {
    Timestamp::parse(text).expect("an instant")
}

fn object(members: Vec<(&str, Value)>) -> Value {
    let mut map = serde_json::Map::new();
    for (name, value) in members {
        map.insert(name.to_string(), value);
    }
    Value::Object(map)
}

fn heart_sample(time: &str, rate: i32, confidence: Option<f64>) -> UploadSample {
    let mut members = vec![("timestamp", Value::from(time)), ("heart_rate", Value::from(rate))];
    if let Some(confidence) = confidence {
        members.push(("confidence", Value::from(confidence)));
    }
    UploadSample { timestamp: at(time), body: object(members) }
}

fn heart_upload(samples: Vec<UploadSample>, end_time: Option<&str>) -> SensorUpload {
    SensorUpload {
        data_type: "heart_rate".to_string(),
        device_info: DeviceInfo {
            device_type: "smartwatch".to_string(),
            model: "Samsung Galaxy Watch".to_string(),
            os_version: "Wear OS 4.0".to_string(),
            device_id: None,
        },
        sampling_rate_hz: 1,
        start_time: at("2025-03-10T12:00:00Z"),
        end_time: end_time.map(at),
        samples,
        metadata: None,
    }
}

fn three_samples() -> Vec<UploadSample> {
    vec![
        heart_sample("2025-03-10T12:00:00Z", 72, Some(0.95)),
        heart_sample("2025-03-10T12:00:01Z", 73, Some(0.96)),
        heart_sample("2025-03-10T12:00:02Z", 74, Some(0.94)),
    ]
}

const OWNER_TEXT: &str = "550e8400-e29b-41d4-a716-446655440000";
const OWNER: u128 = 0x550e8400_e29b_41d4_a716_446655440000;

#[test]
fn the_window_ends_with_the_last_sample() {
    let start = at("2025-03-10T12:00:00Z");
    assert_eq!(derive_end_time(start, None, &three_samples()), at("2025-03-10T12:00:02Z"));
}

#[test]
fn an_upload_without_samples_ends_where_it_starts() {
    let start = at("2025-03-10T12:00:00Z");
    assert_eq!(derive_end_time(start, None, &vec![]), start);
    assert_eq!(derive_end_time(start, Some(start), &vec![]), start);
}

#[test]
fn an_end_that_is_named_is_taken() {
    let start = at("2025-03-10T12:00:00Z");
    let named = at("2025-03-10T12:30:00Z");
    assert_eq!(derive_end_time(start, Some(named), &three_samples()), named);
    assert_eq!(derive_end_time(start, Some(named), &vec![]), named);
}

#[test]
fn an_end_equal_to_the_start_counts_as_not_named() {
    let start = at("2025-03-10T12:00:00Z");
    assert_eq!(derive_end_time(start, Some(start), &three_samples()), at("2025-03-10T12:00:02Z"));
}

#[test]
fn the_last_sample_is_the_last_in_the_upload_not_the_latest() {
    let start = at("2025-03-10T12:00:00Z");
    let samples = vec![
        heart_sample("2025-03-10T12:00:05Z", 72, None),
        heart_sample("2025-03-10T12:00:09Z", 73, None),
        heart_sample("2025-03-10T12:00:07Z", 74, None),
    ];
    assert_eq!(derive_end_time(start, None, &samples), at("2025-03-10T12:00:07Z"));
}

#[test]
fn the_payload_holds_the_samples_in_upload_order() {
    let samples = vec![
        heart_sample("2025-03-10T12:00:05Z", 72, Some(0.5)),
        heart_sample("2025-03-10T12:00:09Z", 73, None),
        heart_sample("2025-03-10T12:00:07Z", 74, None),
    ];
    let payload = pack_payload(&samples, &None);
    let stored = payload["samples"].as_array().expect("an array");
    assert_eq!(stored.len(), 3);
    assert_eq!(stored[0], samples[0].body);
    assert_eq!(stored[1], samples[1].body);
    assert_eq!(stored[2], samples[2].body);
    assert_eq!(stored[0]["confidence"], Value::from(0.5));
    assert_eq!(payload.as_object().expect("an object").len(), 1);
    assert!(payload.get("metadata").is_none());
}

#[test]
fn the_payload_holds_the_metadata_where_there_is_any() {
    let metadata = object(vec![("activity", Value::from("running")), ("tags", Value::Array(vec![Value::from(1)]))]);
    let payload = pack_payload(&vec![], &Some(metadata.clone()));
    assert_eq!(payload["samples"], Value::Array(vec![]));
    assert_eq!(payload["metadata"], metadata);
    assert_eq!(payload.as_object().expect("an object").len(), 2);
}

#[test]
fn upload_heart_rate_data_returns_200_for_authenticated_user() {
    let upload = heart_upload(three_samples(), Some("2025-03-10T12:00:02Z"));
    let created_at = at("2025-03-10T12:01:00Z");
    let record = normalize(StreamType::HeartRate, &upload, OWNER_TEXT, created_at).expect("a record");
    assert_eq!(record.user_id, OWNER);
    assert_eq!(record.data_type, StreamType::HeartRate);
    assert_eq!(record.device_info.device_type, "smartwatch");
    assert_eq!(record.device_info.model, "Samsung Galaxy Watch");
    assert_eq!(record.device_info.os_version, "Wear OS 4.0");
    assert_eq!(record.device_info.device_id, None);
    assert_eq!(record.sampling_rate_hz, 1);
    assert_eq!(record.start_time, at("2025-03-10T12:00:00Z"));
    assert_eq!(record.end_time, at("2025-03-10T12:00:02Z"));
    assert_eq!(record.created_at, created_at);
    assert_eq!(record.data["samples"].as_array().expect("an array").len(), 3);
    assert_eq!(record.data["samples"][0]["heart_rate"], Value::from(72));
    let response = HealthDataResponse::uploaded(record.id, StreamType::HeartRate);
    assert_eq!(response.status, "success");
    assert_eq!(response.message, Some("Heart rate data uploaded successfully".to_string()));
    assert_eq!(parse_id(&response.id), Some(record.id));
}

#[test]
fn upload_heart_rate_data_with_missing_confidence_succeeds() {
    let samples = vec![
        heart_sample("2025-03-10T12:00:00Z", 68, None),
        heart_sample("2025-03-10T12:00:01Z", 67, None),
        heart_sample("2025-03-10T12:00:02Z", 69, None),
    ];
    let record = normalize(StreamType::HeartRate, &heart_upload(samples, None), OWNER_TEXT, at("2025-03-10T12:01:00Z"));
    let record = record.expect("a record");
    assert_eq!(record.end_time, at("2025-03-10T12:00:02Z"));
    assert!(record.data["samples"][1].get("confidence").is_none());
    assert_eq!(record.data["samples"][1]["heart_rate"], Value::from(67));
}

#[test]
fn an_upload_for_another_stream_is_a_client_error() {
    let upload = heart_upload(three_samples(), None);
    let outcome = normalize(StreamType::BloodOxygen, &upload, OWNER_TEXT, at("2025-03-10T12:01:00Z"));
    let error = outcome.err().expect("an error");
    assert_eq!(error, UploadError::WrongStreamType);
    assert!(error.is_client_error());
    assert_eq!(error.message(StreamType::BloodOxygen), "Invalid data type. Expected 'blood_oxygen'.");
    let mut mistyped = heart_upload(vec![], None);
    mistyped.data_type = "invalid_type".to_string();
    let outcome = assemble(StreamType::HeartRate, &mistyped, OWNER, 1, at("2025-03-10T12:01:00Z"));
    assert_eq!(outcome.err(), Some(UploadError::WrongStreamType));
    mistyped.data_type = "Heart_Rate".to_string();
    let outcome = assemble(StreamType::HeartRate, &mistyped, OWNER, 1, at("2025-03-10T12:01:00Z"));
    assert_eq!(outcome.err(), Some(UploadError::WrongStreamType));
}

#[test]
fn the_stream_is_checked_before_the_owner() {
    let upload = heart_upload(three_samples(), None);
    let outcome = normalize(StreamType::GpsLocation, &upload, "nobody", at("2025-03-10T12:01:00Z"));
    assert_eq!(outcome.err(), Some(UploadError::WrongStreamType));
}

#[test]
fn an_owner_that_is_no_uuid_is_a_server_error() {
    let upload = heart_upload(three_samples(), None);
    let outcome = normalize(StreamType::HeartRate, &upload, "nobody", at("2025-03-10T12:01:00Z"));
    let error = outcome.err().expect("an error");
    assert_eq!(error, UploadError::InvalidOwner);
    assert!(!error.is_client_error());
    assert_eq!(error.message(StreamType::HeartRate), "Invalid user ID");
}

#[test]
fn each_upload_gets_an_identifier_of_its_own() {
    let upload = heart_upload(three_samples(), None);
    let first = normalize(StreamType::HeartRate, &upload, OWNER_TEXT, at("2025-03-10T12:01:00Z")).expect("a record");
    let second = normalize(StreamType::HeartRate, &upload, OWNER_TEXT, at("2025-03-10T12:01:00Z")).expect("a record");
    assert_ne!(first.id, second.id);
    assert_eq!((first.id >> 76) & 0xf, 4);
    assert_eq!((first.id >> 62) & 0x3, 2);
}

#[test]
fn the_record_takes_owner_and_identifier_from_the_caller() {
    let mut upload = heart_upload(three_samples(), None);
    upload.metadata = Some(object(vec![("user_id", Value::from("someone else"))]));
    let record = assemble(StreamType::HeartRate, &upload, 77, 99, at("2025-03-10T12:01:00Z")).expect("a record");
    assert_eq!(record.id, 99);
    assert_eq!(record.user_id, 77);
    assert_eq!(record.data["metadata"]["user_id"], Value::from("someone else"));
}

#[test]
fn upload_messages_name_the_stream() {
    let id = 0x67e55044_10b1_426f_9247_bb680e5fe0c8;
    assert_eq!(HealthDataResponse::uploaded(id, StreamType::Acceleration).message.as_deref(), Some("Acceleration data uploaded successfully"));
    assert_eq!(HealthDataResponse::uploaded(id, StreamType::BloodOxygen).message.as_deref(), Some("Blood oxygen data uploaded successfully"));
    assert_eq!(HealthDataResponse::uploaded(id, StreamType::SkinTemperature).message.as_deref(), Some("Skin temperature data uploaded successfully"));
    assert_eq!(HealthDataResponse::uploaded(id, StreamType::GpsLocation).message.as_deref(), Some("GPS location data uploaded successfully"));
    assert_eq!(HealthDataResponse::uploaded(id, StreamType::GpsLocation).id, "67e55044-10b1-426f-9247-bb680e5fe0c8");
}
