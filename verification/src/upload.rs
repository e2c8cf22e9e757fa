//! The upload normalizer: checks an upload of one stream and shapes it into
//! the record that is stored for it.
use vstd::prelude::*;
use vstd::string::*;
use crate::correlate::payload_samples;
use crate::ident::{fresh_id, is_random_uuid, parse_id, parsed_uuid};
use crate::json::{array_of, copy_of, json_elements, json_member, member_of_entries, names_differ, object_of};
use crate::models::sensor_data::{stream_tag, HealthDataRecord, SensorUpload, StreamType, UploadSample};
use crate::text::same_text;
use crate::time::Timestamp;

verus! {

/// Why an upload is turned down before anything is stored.
#[derive(Debug, Clone, Copy, PartialEq, Eq, Structural)]
pub enum UploadError {
    /// The upload names another stream than the one it was sent to. The
    /// client is at fault.
    WrongStreamType,
    /// The caller's identifier is no UUID. The server is at fault: the
    /// identifier comes from its own token.
    InvalidOwner,
}

/// The message that turns down an upload.
pub open spec fn upload_error_message(error: UploadError, expected: StreamType) -> Seq<char> {
    match error {
        UploadError::WrongStreamType => "Invalid data type. Expected '"@ + stream_tag(expected) + "'."@,
        UploadError::InvalidOwner => "Invalid user ID"@,
    }
}

impl UploadError {
    /// Whether the client is at fault (a 4xx outcome) and not the server (5xx).
    pub fn is_client_error(&self) -> (client: bool)
        ensures
            client == (*self == UploadError::WrongStreamType),
    {
        match self {
            UploadError::WrongStreamType => true,
            UploadError::InvalidOwner => false,
        }
    }

    /// The message for the client, for an upload that was sent as `expected`.
    pub fn message(&self, expected: StreamType) -> (sentence: String)
        ensures
            sentence@ == upload_error_message(*self, expected),
    {
        match self {
            UploadError::WrongStreamType => String::from_str("Invalid data type. Expected '").concat(
                expected.as_str(),
            ).concat("'."),
            UploadError::InvalidOwner => String::from_str("Invalid user ID"),
        }
    }
}

/// The end of a record's window. An end that the upload names, and that
/// differs from the start, is taken. Else the window ends with the last
/// sample, and an upload without samples ends where it starts.
pub open spec fn derived_end_time(start: Timestamp, end: Option<Timestamp>, samples: Seq<UploadSample>) -> Timestamp {
    if end is Some && end->0 != start {
        end->0
    } else if samples.len() > 0 {
        samples.last().timestamp
    } else {
        start
    }
}

/// The stored form of each sample, in upload order.
pub open spec fn sample_bodies(samples: Seq<UploadSample>) -> Seq<serde_json::Value> {
    Seq::new(samples.len(), |i: int| samples[i].body)
}

/// The payload document of an upload: under `samples` the array of the
/// samples in upload order; under `metadata` the metadata, where the upload
/// has any; and no other member.
pub open spec fn is_payload_of(payload: serde_json::Value, samples: Seq<UploadSample>, metadata: Option<serde_json::Value>) -> bool {
    &&& json_member(payload, "samples"@) matches Some(list) && json_elements(list) == Some(sample_bodies(samples))
    &&& json_member(payload, "metadata"@) == metadata
    &&& forall|key: Seq<char>| key != "samples"@ && key != "metadata"@ ==> #[trigger] json_member(payload, key) is None
}

/// The record that stores an upload of `stream` for `owner` under `id`.
pub open spec fn is_record_of(
    record: HealthDataRecord,
    upload: SensorUpload,
    stream: StreamType,
    owner: u128,
    id: u128,
    created_at: Timestamp,
) -> bool {
    &&& record.id == id
    &&& record.user_id == owner
    &&& record.data_type == stream
    &&& record.device_info == upload.device_info
    &&& record.sampling_rate_hz == upload.sampling_rate_hz
    &&& record.start_time == upload.start_time
    &&& record.end_time == derived_end_time(upload.start_time, upload.end_time, upload.samples@)
    &&& is_payload_of(record.data, upload.samples@, upload.metadata)
    &&& record.created_at == created_at
}

/// The end of the window of an upload.
pub fn derive_end_time(start: Timestamp, end: Option<Timestamp>, samples: &Vec<UploadSample>) -> (derived: Timestamp)
    ensures
        derived == derived_end_time(start, end, samples@),
{
    match end {
        Some(named) => {
            if named != start {
                return named;
            }
        },
        None => {},
    }
    if samples.len() > 0 {
        samples[samples.len() - 1].timestamp
    } else {
        start
    }
}

/// Packs samples and metadata into one payload document. The samples keep
/// the order of the upload.
pub fn pack_payload(samples: &Vec<UploadSample>, metadata: &Option<serde_json::Value>) -> (payload: serde_json::Value)
    ensures
        is_payload_of(payload, samples@, *metadata),
        payload_samples(payload) == sample_bodies(samples@),
{
    let mut bodies: Vec<serde_json::Value> = Vec::new();
    let mut i: usize = 0;
    while i < samples.len()
        invariant
            i <= samples.len(),
            bodies@ == sample_bodies(samples@.take(i as int)),
        decreases samples.len() - i,
    {
        bodies.push(copy_of(&samples[i].body));
        i = i + 1;
        proof {
            assert(bodies@ =~= sample_bodies(samples@.take(i as int)));
        }
    }
    proof {
        assert(samples@.take(i as int) =~= samples@);
    }
    let list = array_of(bodies);
    let mut entries: Vec<(String, serde_json::Value)> = Vec::new();
    entries.push((String::from_str("samples"), list));
    match metadata {
        Some(given) => {
            entries.push((String::from_str("metadata"), copy_of(given)));
        },
        None => {},
    }
    let ghost named = entries@;
    proof {
        reveal_strlit("samples");
        reveal_strlit("metadata");
        assert("samples"@.len() != "metadata"@.len());
        assert(names_differ(named));
    }
    let payload = object_of(entries);
    proof {
        reveal_strlit("samples");
        reveal_strlit("metadata");
        assert("samples"@.len() != "metadata"@.len());
        reveal_with_fuel(member_of_entries, 3);
        assert(json_member(payload, "samples"@) == member_of_entries(named, "samples"@));
        assert(json_member(payload, "metadata"@) == member_of_entries(named, "metadata"@));
        if metadata is Some {
            assert(named.drop_last().last() == named[0]);
        }
        assert forall|key: Seq<char>| key != "samples"@ && key != "metadata"@ implies #[trigger] json_member(payload, key) is None by {
            assert(json_member(payload, key) == member_of_entries(named, key));
        }
    }
    payload
}

/// Shapes an upload into the record that stores it. The upload must name
/// the stream that it was sent to; the owner, the identifier and the time of
/// writing are given by the caller and never read from the upload.
pub fn assemble(expected: StreamType, upload: &SensorUpload, owner: u128, id: u128, created_at: Timestamp) -> (outcome: Result<HealthDataRecord, UploadError>)
    ensures
        upload.data_type@ != stream_tag(expected) ==> outcome == Err::<HealthDataRecord, UploadError>(UploadError::WrongStreamType),
        upload.data_type@ == stream_tag(expected) ==> outcome is Ok && is_record_of(outcome->Ok_0, *upload, expected, owner, id, created_at),
{
    if !same_text(upload.data_type.as_str(), expected.as_str()) {
        return Err(UploadError::WrongStreamType);
    }
    let end_time = derive_end_time(upload.start_time, upload.end_time, &upload.samples);
    let payload = pack_payload(&upload.samples, &upload.metadata);
    Ok(
        HealthDataRecord {
            id,
            user_id: owner,
            data_type: expected,
            device_info: upload.device_info.duplicate(),
            sampling_rate_hz: upload.sampling_rate_hz,
            start_time: upload.start_time,
            end_time,
            data: payload,
            created_at,
        },
    )
}

/// Checks an upload and shapes it into a record with a new identifier. The
/// stream tag is checked first, then the caller's identifier; nothing is
/// stored here. Which identifier the record gets is left open.
pub fn normalize(expected: StreamType, upload: &SensorUpload, owner: &str, created_at: Timestamp) -> (outcome: Result<HealthDataRecord, UploadError>)
    ensures
        upload.data_type@ != stream_tag(expected) ==> outcome == Err::<HealthDataRecord, UploadError>(UploadError::WrongStreamType),
        upload.data_type@ == stream_tag(expected) && parsed_uuid(owner@) is None ==> outcome == Err::<HealthDataRecord, UploadError>(
            UploadError::InvalidOwner,
        ),
        upload.data_type@ == stream_tag(expected) && parsed_uuid(owner@) is Some ==> outcome is Ok && is_random_uuid(outcome->Ok_0.id)
            && is_record_of(outcome->Ok_0, *upload, expected, parsed_uuid(owner@)->0, outcome->Ok_0.id, created_at),
{
    if !same_text(upload.data_type.as_str(), expected.as_str()) {
        return Err(UploadError::WrongStreamType);
    }
    let user_id = match parse_id(owner) {
        Some(parsed) => parsed,
        None => {
            return Err(UploadError::InvalidOwner);
        },
    };
    let id = fresh_id();
    assemble(expected, upload, user_id, id, created_at)
}

/// The upload is in order of time: an end that it names is not before its
/// start, and its last sample was not taken before its start.
pub open spec fn upload_is_ordered(upload: SensorUpload) -> bool {
    &&& upload.end_time is Some ==> upload.start_time.not_after(upload.end_time->0)
    &&& upload.samples@.len() > 0 ==> upload.start_time.not_after(upload.samples@.last().timestamp)
}

/// The record of an upload that is in order of time has a window that does
/// not end before it starts.
pub proof fn lemma_record_window_is_ordered(
    record: HealthDataRecord,
    upload: SensorUpload,
    stream: StreamType,
    owner: u128,
    id: u128,
    created_at: Timestamp,
)
    requires
        is_record_of(record, upload, stream, owner, id, created_at),
        upload_is_ordered(upload),
    ensures
        record.window_is_ordered(),
{
}

/// The window of an upload that names no end, or its start as its end, runs
/// to its last sample, and that of an upload without samples is a single
/// instant.
pub proof fn lemma_end_without_a_named_end(start: Timestamp, end: Option<Timestamp>, samples: Seq<UploadSample>)
    requires
        end is None || end == Some(start),
    ensures
        samples.len() > 0 ==> derived_end_time(start, end, samples) == samples.last().timestamp,
        samples.len() == 0 ==> derived_end_time(start, end, samples) == start,
{
}

} // verus!
