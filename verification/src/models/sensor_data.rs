//! Sensor uploads and the records they are stored as.
use vstd::prelude::*;
use vstd::string::*;
use crate::ident::{id_text, uuid_text};
use crate::json::copy_of;
use crate::text::same_text;
use crate::time::Timestamp;

verus! {

/// The closed set of sensor streams.
#[derive(Debug, Clone, Copy, PartialEq, Eq, Hash, Structural)]
pub enum StreamType {
    Acceleration,
    HeartRate,
    BloodOxygen,
    SkinTemperature,
    GpsLocation,
}

/// The tag that names a stream in uploads and in stored records.
pub open spec fn stream_tag(stream: StreamType) -> Seq<char> {
    match stream {
        StreamType::Acceleration => "acceleration"@,
        StreamType::HeartRate => "heart_rate"@,
        StreamType::BloodOxygen => "blood_oxygen"@,
        StreamType::SkinTemperature => "skin_temperature"@,
        StreamType::GpsLocation => "gps_location"@,
    }
}

/// The words for a stream at the start of a sentence.
pub open spec fn stream_label(stream: StreamType) -> Seq<char> {
    match stream {
        StreamType::Acceleration => "Acceleration"@,
        StreamType::HeartRate => "Heart rate"@,
        StreamType::BloodOxygen => "Blood oxygen"@,
        StreamType::SkinTemperature => "Skin temperature"@,
        StreamType::GpsLocation => "GPS location"@,
    }
}

/// The stream that a tag names, if it names one.
pub open spec fn stream_of_tag(tag: Seq<char>) -> Option<StreamType> {
    if tag == stream_tag(StreamType::Acceleration) {
        Some(StreamType::Acceleration)
    } else if tag == stream_tag(StreamType::HeartRate) {
        Some(StreamType::HeartRate)
    } else if tag == stream_tag(StreamType::BloodOxygen) {
        Some(StreamType::BloodOxygen)
    } else if tag == stream_tag(StreamType::SkinTemperature) {
        Some(StreamType::SkinTemperature)
    } else if tag == stream_tag(StreamType::GpsLocation) {
        Some(StreamType::GpsLocation)
    } else {
        None
    }
}

impl StreamType {
    /// The tag of this stream, such as `heart_rate`.
    pub fn as_str(&self) -> (tag: &'static str)
        ensures
            tag@ == stream_tag(*self),
    {
        match self {
            StreamType::Acceleration => "acceleration",
            StreamType::HeartRate => "heart_rate",
            StreamType::BloodOxygen => "blood_oxygen",
            StreamType::SkinTemperature => "skin_temperature",
            StreamType::GpsLocation => "gps_location",
        }
    }

    /// The words for this stream at the start of a sentence, such as `Heart rate`.
    pub fn label(&self) -> (label: &'static str)
        ensures
            label@ == stream_label(*self),
    {
        match self {
            StreamType::Acceleration => "Acceleration",
            StreamType::HeartRate => "Heart rate",
            StreamType::BloodOxygen => "Blood oxygen",
            StreamType::SkinTemperature => "Skin temperature",
            StreamType::GpsLocation => "GPS location",
        }
    }

    /// The stream that a tag names. Tags are matched letter for letter.
    pub fn from_tag(tag: &str) -> (stream: Option<StreamType>)
        ensures
            stream == stream_of_tag(tag@),
    {
        if same_text(tag, "acceleration") {
            Some(StreamType::Acceleration)
        } else if same_text(tag, "heart_rate") {
            Some(StreamType::HeartRate)
        } else if same_text(tag, "blood_oxygen") {
            Some(StreamType::BloodOxygen)
        } else if same_text(tag, "skin_temperature") {
            Some(StreamType::SkinTemperature)
        } else if same_text(tag, "gps_location") {
            Some(StreamType::GpsLocation)
        } else {
            None
        }
    }
}

/// Every stream is read back from its own tag.
pub proof fn lemma_tag_round_trip(stream: StreamType)
    ensures
        stream_of_tag(stream_tag(stream)) == Some(stream),
{
    reveal_strlit("acceleration");
    reveal_strlit("heart_rate");
    reveal_strlit("blood_oxygen");
    reveal_strlit("skin_temperature");
    reveal_strlit("gps_location");
    assert("acceleration"@.len() == 12);
    assert("heart_rate"@.len() == 10);
    assert("blood_oxygen"@[0] == 'b');
    assert("skin_temperature"@.len() == 16);
    assert("gps_location"@[0] == 'g');
    assert("acceleration"@[0] == 'a');
}

/// What a device says of itself. Stored as it comes.
#[derive(Debug, Clone)]
pub struct DeviceInfo {
    pub device_type: String,
    pub model: String,
    pub os_version: String,
    pub device_id: Option<String>,
}

impl DeviceInfo {
    /// A copy with the same four fields.
    pub fn duplicate(&self) -> (copy: DeviceInfo)
        ensures
            copy == *self,
    {
        let device_id = match &self.device_id {
            Some(id) => Some(id.clone()),
            None => None,
        };
        DeviceInfo {
            device_type: self.device_type.clone(),
            model: self.model.clone(),
            os_version: self.os_version.clone(),
            device_id,
        }
    }
}

impl Default for DeviceInfo {
    /// A device of which nothing is known.
    fn default() -> (info: DeviceInfo)
        ensures
            info.device_type@ == "unknown"@,
            info.model@ == "unknown"@,
            info.os_version@ == "unknown"@,
            info.device_id is None,
    {
        DeviceInfo {
            device_type: String::from_str("unknown"),
            model: String::from_str("unknown"),
            os_version: String::from_str("unknown"),
            device_id: None,
        }
    }
}

/// One sample of an upload: when it was taken, and the sample as the JSON
/// object that is stored for it.
pub struct UploadSample {
    pub timestamp: Timestamp,
    pub body: serde_json::Value,
}

/// An upload of one stream, as a client sends it.
pub struct SensorUpload {
    pub data_type: String,
    pub device_info: DeviceInfo,
    pub sampling_rate_hz: i32,
    pub start_time: Timestamp,
    /// `None` where the upload names no end.
    pub end_time: Option<Timestamp>,
    pub samples: Vec<UploadSample>,
    pub metadata: Option<serde_json::Value>,
}

/// One stored upload: who owns it (`user_id`), which stream it is of
/// (`data_type`), its window, and its payload (`data`). A record is written
/// once and never changed.
pub struct HealthDataRecord {
    pub id: u128,
    pub user_id: u128,
    pub data_type: StreamType,
    pub device_info: DeviceInfo,
    pub sampling_rate_hz: i32,
    pub start_time: Timestamp,
    pub end_time: Timestamp,
    pub data: serde_json::Value,
    pub created_at: Timestamp,
}

impl HealthDataRecord {
    /// The window of the record does not end before it starts.
    pub open spec fn window_is_ordered(self) -> bool {
        self.start_time.not_after(self.end_time)
    }

    /// A copy that holds the same fields and the same payload.
    pub fn duplicate(&self) -> (copy: HealthDataRecord)
        ensures
            copy == *self,
    {
        HealthDataRecord {
            id: self.id,
            user_id: self.user_id,
            data_type: self.data_type,
            device_info: self.device_info.duplicate(),
            sampling_rate_hz: self.sampling_rate_hz,
            start_time: self.start_time,
            end_time: self.end_time,
            data: copy_of(&self.data),
            created_at: self.created_at,
        }
    }
}

/// A query for the records of one stream that start within a window, both
/// ends included. The stream is named by its tag, as the client wrote it.
#[derive(Debug, Clone)]
pub struct HealthDataTimeQuery {
    pub data_type: String,
    pub start_time: Timestamp,
    pub end_time: Timestamp,
}

/// The answer to an upload.
#[derive(Debug, Clone)]
pub struct HealthDataResponse {
    pub id: String,
    pub status: String,
    pub message: Option<String>,
}

/// The message that confirms an upload of a stream.
pub open spec fn upload_message(stream: StreamType) -> Seq<char> {
    stream_label(stream) + " data uploaded successfully"@
}

impl HealthDataResponse {
    /// The answer to an upload that was stored under `id`.
    pub fn uploaded(id: u128, stream: StreamType) -> (response: HealthDataResponse)
        ensures
            response.id@ == uuid_text(id),
            response.status@ == "success"@,
            response.message matches Some(message) && message@ == upload_message(stream),
    {
        let message = String::from_str(stream.label()).concat(" data uploaded successfully");
        HealthDataResponse {
            id: id_text(id),
            status: String::from_str("success"),
            message: Some(message),
        }
    }
}

} // verus!
