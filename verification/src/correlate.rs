//! The temporal correlator: for each record of one stream, the samples of
//! another stream that were taken within that record's window.
use vstd::prelude::*;
use crate::json::{copy_of, elements, json_elements, json_member, json_text, member, text};
use crate::models::sensor_data::{stream_of_tag, HealthDataRecord, HealthDataTimeQuery, StreamType};
use crate::store::{listed_in_range, RecordStore};
use crate::time::{instant_of_text, Timestamp};

verus! {

/// Two closed windows overlap: each starts at or before the end of the
/// other. Windows that share a single instant overlap.
pub open spec fn windows_overlap(
    first_start: Timestamp,
    first_end: Timestamp,
    second_start: Timestamp,
    second_end: Timestamp,
) -> bool {
    first_start.not_after(second_end) && second_start.not_after(first_end)
}

/// The windows of two records overlap.
pub open spec fn records_overlap(first: HealthDataRecord, second: HealthDataRecord) -> bool {
    windows_overlap(first.start_time, first.end_time, second.start_time, second.end_time)
}

/// The samples that a payload holds: the elements of the array under
/// `samples`, and none where there is no such array.
pub open spec fn payload_samples(payload: serde_json::Value) -> Seq<serde_json::Value> {
    match json_member(payload, "samples"@) {
        Some(list) => match json_elements(list) {
            Some(samples) => samples,
            None => Seq::empty(),
        },
        None => Seq::empty(),
    }
}

/// The instant at which a sample was taken: what the text under `timestamp`
/// denotes. A sample without such a text, or with one that denotes no
/// instant, has none.
pub open spec fn sample_instant(sample: serde_json::Value) -> Option<Timestamp> {
    match json_member(sample, "timestamp"@) {
        Some(stamp) => match json_text(stamp) {
            Some(written) => instant_of_text(written),
            None => None,
        },
        None => None,
    }
}

/// The sample was taken within the closed window from `start` to `end`.
pub open spec fn sample_in_window(sample: serde_json::Value, start: Timestamp, end: Timestamp) -> bool {
    match sample_instant(sample) {
        Some(instant) => instant.within(start, end),
        None => false,
    }
}

/// Those of the samples that were taken within the window, in their order.
pub open spec fn samples_in_window(samples: Seq<serde_json::Value>, start: Timestamp, end: Timestamp) -> Seq<serde_json::Value>
    decreases samples.len(),
{
    if samples.len() == 0 {
        Seq::empty()
    } else if sample_in_window(samples.last(), start, end) {
        samples_in_window(samples.drop_last(), start, end).push(samples.last())
    } else {
        samples_in_window(samples.drop_last(), start, end)
    }
}

/// What one secondary record gives to a primary record: nothing where the
/// two windows do not overlap, else its samples within the primary window.
pub open spec fn contribution(primary: HealthDataRecord, secondary: HealthDataRecord) -> Seq<serde_json::Value> {
    if records_overlap(primary, secondary) {
        samples_in_window(payload_samples(secondary.data), primary.start_time, primary.end_time)
    } else {
        Seq::empty()
    }
}

/// The correlated samples of a primary record: the contributions of the
/// secondary records, one after the other in the order of those records.
pub open spec fn correlated_samples(primary: HealthDataRecord, secondaries: Seq<HealthDataRecord>) -> Seq<serde_json::Value>
    decreases secondaries.len(),
{
    if secondaries.len() == 0 {
        Seq::empty()
    } else {
        correlated_samples(primary, secondaries.drop_last()) + contribution(primary, secondaries.last())
    }
}

/// A primary record with the samples of the other stream that go with it.
pub struct CorrelatedRecord {
    pub record: HealthDataRecord,
    pub correlated_samples: Vec<serde_json::Value>,
}

/// The entry that the correlation of `primary` with `secondaries` gives.
pub open spec fn is_correlation_of(entry: CorrelatedRecord, primary: HealthDataRecord, secondaries: Seq<HealthDataRecord>) -> bool {
    entry.record == primary && entry.correlated_samples@ == correlated_samples(primary, secondaries)
}

/// One entry for each primary record, in the order of those records.
pub open spec fn is_correlation(entries: Seq<CorrelatedRecord>, primaries: Seq<HealthDataRecord>, secondaries: Seq<HealthDataRecord>) -> bool {
    &&& entries.len() == primaries.len()
    &&& forall|i: int| 0 <= i < entries.len() ==> is_correlation_of(#[trigger] entries[i], primaries[i], secondaries)
}

/// Whether the windows of two records overlap.
pub fn overlaps(first: &HealthDataRecord, second: &HealthDataRecord) -> (holds: bool)
    ensures
        holds == records_overlap(*first, *second),
{
    first.start_time.is_not_after(&second.end_time) && second.start_time.is_not_after(&first.end_time)
}

/// The instant at which a sample was taken, if the sample says so.
pub fn instant_of_sample(sample: &serde_json::Value) -> (instant: Option<Timestamp>)
    ensures
        instant == sample_instant(*sample),
{
    match member(sample, "timestamp") {
        Some(stamp) => match text(stamp) {
            Some(written) => Timestamp::parse(written),
            None => None,
        },
        None => None,
    }
}

/// Appends to `found` the samples of `payload` that were taken within the
/// window, in their order. A payload without samples adds nothing.
pub fn collect_samples_in_window(found: &mut Vec<serde_json::Value>, payload: &serde_json::Value, start: &Timestamp, end: &Timestamp)
    ensures
        final(found)@ == old(found)@ + samples_in_window(payload_samples(*payload), *start, *end),
{
    let ghost before = found@;
    let list = match member(payload, "samples") {
        Some(list) => list,
        None => {
            assert(found@ + Seq::<serde_json::Value>::empty() =~= found@);
            return;
        },
    };
    let samples = match elements(list) {
        Some(samples) => samples,
        None => {
            assert(found@ + Seq::<serde_json::Value>::empty() =~= found@);
            return;
        },
    };
    let mut i: usize = 0;
    proof {
        assert(samples@.take(0) =~= Seq::<serde_json::Value>::empty());
        assert(before + Seq::<serde_json::Value>::empty() =~= before);
    }
    while i < samples.len()
        invariant
            i <= samples.len(),
            samples@ == payload_samples(*payload),
            found@ == before + samples_in_window(samples@.take(i as int), *start, *end),
        decreases samples.len() - i,
    {
        proof {
            assert(samples@.take(i + 1).drop_last() =~= samples@.take(i as int));
        }
        let sample = &samples[i];
        let taken = match instant_of_sample(sample) {
            Some(instant) => instant.is_within(start, end),
            None => false,
        };
        if taken {
            found.push(copy_of(sample));
            proof {
                let kept = samples_in_window(samples@.take(i as int), *start, *end);
                assert(found@ =~= before + kept.push(*sample));
            }
        }
        i = i + 1;
    }
    proof {
        assert(samples@.take(i as int) =~= samples@);
    }
}

/// The samples of the secondary records that go with one primary record:
/// from each secondary record whose window overlaps the primary window,
/// those samples whose own instant lies within the primary window. Samples
/// keep their order, and secondary records are taken in the order given.
pub fn correlate_one(primary: &HealthDataRecord, secondaries: &Vec<HealthDataRecord>) -> (found: Vec<serde_json::Value>)
    ensures
        found@ == correlated_samples(*primary, secondaries@),
{
    let mut found: Vec<serde_json::Value> = Vec::new();
    let mut i: usize = 0;
    proof {
        assert(secondaries@.take(0) =~= Seq::<HealthDataRecord>::empty());
    }
    while i < secondaries.len()
        invariant
            i <= secondaries.len(),
            found@ == correlated_samples(*primary, secondaries@.take(i as int)),
        decreases secondaries.len() - i,
    {
        proof {
            assert(secondaries@.take(i + 1).drop_last() =~= secondaries@.take(i as int));
        }
        let secondary = &secondaries[i];
        if overlaps(primary, secondary) {
            collect_samples_in_window(&mut found, &secondary.data, &primary.start_time, &primary.end_time);
        } else {
            assert(found@ + Seq::<serde_json::Value>::empty() =~= found@);
        }
        i = i + 1;
    }
    proof {
        assert(secondaries@.take(i as int) =~= secondaries@);
    }
    found
}

/// Correlates every primary record with the secondary records: one entry
/// for each primary record, in the order given, each with its own fields and
/// its correlated samples. A primary record that nothing goes with gets an
/// empty list.
pub fn correlate(primaries: &Vec<HealthDataRecord>, secondaries: &Vec<HealthDataRecord>) -> (entries: Vec<CorrelatedRecord>)
    ensures
        is_correlation(entries@, primaries@, secondaries@),
{
    let mut entries: Vec<CorrelatedRecord> = Vec::new();
    let mut i: usize = 0;
    while i < primaries.len()
        invariant
            i <= primaries.len(),
            is_correlation(entries@, primaries@.take(i as int), secondaries@),
        decreases primaries.len() - i,
    {
        let primary = &primaries[i];
        let found = correlate_one(primary, secondaries);
        entries.push(CorrelatedRecord { record: primary.duplicate(), correlated_samples: found });
        i = i + 1;
    }
    proof {
        assert(primaries@.take(i as int) =~= primaries@);
    }
    entries
}

/// Two windows overlap exactly when some instant lies in both. So windows
/// that touch at one instant overlap.
pub proof fn lemma_overlap_is_a_shared_instant(
    first_start: Timestamp,
    first_end: Timestamp,
    second_start: Timestamp,
    second_end: Timestamp,
)
    requires
        first_start.not_after(first_end),
        second_start.not_after(second_end),
    ensures
        windows_overlap(first_start, first_end, second_start, second_end) <==> exists|instant: Timestamp|
            #[trigger] instant.within(first_start, first_end) && instant.within(second_start, second_end),
{
    if windows_overlap(first_start, first_end, second_start, second_end) {
        let later_start = if first_start.not_after(second_start) { second_start } else { first_start };
        assert(later_start.within(first_start, first_end) && later_start.within(second_start, second_end));
    }
}

/// A window that ends at the instant at which another starts overlaps it; a
/// window that starts after another has ended does not.
pub proof fn lemma_boundary_counts(start: Timestamp, shared: Timestamp, end: Timestamp, later_start: Timestamp, later_end: Timestamp)
    requires
        start.not_after(shared),
        shared.not_after(end),
        !later_start.not_after(shared),
    ensures
        windows_overlap(start, shared, shared, end),
        !windows_overlap(start, shared, later_start, later_end),
{
}

/// Every sample that is kept lies within the window, and comes from the samples given.
pub proof fn lemma_kept_samples_lie_in_window(samples: Seq<serde_json::Value>, start: Timestamp, end: Timestamp)
    ensures
        forall|i: int| 0 <= i < samples_in_window(samples, start, end).len() ==> sample_in_window(
            #[trigger] samples_in_window(samples, start, end)[i],
            start,
            end,
        ) && samples.contains(samples_in_window(samples, start, end)[i]),
    decreases samples.len(),
{
    if samples.len() > 0 {
        let front = samples.drop_last();
        lemma_kept_samples_lie_in_window(front, start, end);
        let kept = samples_in_window(samples, start, end);
        let inner = samples_in_window(front, start, end);
        assert forall|i: int| 0 <= i < kept.len() implies sample_in_window(#[trigger] kept[i], start, end) && samples.contains(kept[i]) by {
            if i < inner.len() {
                assert(kept[i] == inner[i]);
                assert(front.contains(inner[i]));
                let k = choose|k: int| 0 <= k < front.len() && front[k] == inner[i];
                assert(samples[k] == kept[i]);
            } else {
                assert(samples[samples.len() - 1] == kept[i]);
            }
        }
    }
}

/// Every sample within the window is kept.
pub proof fn lemma_samples_in_window_are_kept(samples: Seq<serde_json::Value>, start: Timestamp, end: Timestamp, k: int)
    requires
        0 <= k < samples.len(),
        sample_in_window(samples[k], start, end),
    ensures
        samples_in_window(samples, start, end).contains(samples[k]),
    decreases samples.len(),
{
    let kept = samples_in_window(samples, start, end);
    let front = samples.drop_last();
    if k == samples.len() - 1 {
        assert(kept[kept.len() - 1] == samples[k]);
    } else {
        lemma_samples_in_window_are_kept(front, start, end, k);
        let inner = samples_in_window(front, start, end);
        let i = choose|i: int| 0 <= i < inner.len() && inner[i] == front[k];
        assert(kept[i] == samples[k]);
    }
}

/// Only samples within the primary window are correlated: a sample outside
/// it is left out even where the record that holds it overlaps the window.
pub proof fn lemma_correlated_samples_lie_in_window(primary: HealthDataRecord, secondaries: Seq<HealthDataRecord>)
    ensures
        forall|i: int| 0 <= i < correlated_samples(primary, secondaries).len() ==> sample_in_window(
            #[trigger] correlated_samples(primary, secondaries)[i],
            primary.start_time,
            primary.end_time,
        ),
    decreases secondaries.len(),
{
    if secondaries.len() > 0 {
        lemma_correlated_samples_lie_in_window(primary, secondaries.drop_last());
        lemma_kept_samples_lie_in_window(payload_samples(secondaries.last().data), primary.start_time, primary.end_time);
        let all = correlated_samples(primary, secondaries);
        let earlier = correlated_samples(primary, secondaries.drop_last());
        let given = contribution(primary, secondaries.last());
        assert forall|i: int| 0 <= i < all.len() implies sample_in_window(#[trigger] all[i], primary.start_time, primary.end_time) by {
            if i < earlier.len() {
                assert(all[i] == earlier[i]);
            } else {
                assert(all[i] == given[i - earlier.len()]);
            }
        }
    }
}

/// Every sample of an overlapping secondary record that lies within the
/// primary window is correlated.
pub proof fn lemma_samples_in_window_are_correlated(primary: HealthDataRecord, secondaries: Seq<HealthDataRecord>, j: int, k: int)
    requires
        0 <= j < secondaries.len(),
        records_overlap(primary, secondaries[j]),
        0 <= k < payload_samples(secondaries[j].data).len(),
        sample_in_window(payload_samples(secondaries[j].data)[k], primary.start_time, primary.end_time),
    ensures
        correlated_samples(primary, secondaries).contains(payload_samples(secondaries[j].data)[k]),
    decreases secondaries.len(),
{
    let all = correlated_samples(primary, secondaries);
    let earlier = correlated_samples(primary, secondaries.drop_last());
    let sample = payload_samples(secondaries[j].data)[k];
    if j == secondaries.len() - 1 {
        lemma_samples_in_window_are_kept(payload_samples(secondaries[j].data), primary.start_time, primary.end_time, k);
        let given = contribution(primary, secondaries.last());
        let i = choose|i: int| 0 <= i < given.len() && given[i] == sample;
        assert(all[earlier.len() + i] == sample);
    } else {
        lemma_samples_in_window_are_correlated(primary, secondaries.drop_last(), j, k);
        let i = choose|i: int| 0 <= i < earlier.len() && earlier[i] == sample;
        assert(all[i] == sample);
    }
}

/// A primary record with no secondary record in reach has no correlated samples.
pub proof fn lemma_nothing_to_correlate(primary: HealthDataRecord)
    ensures
        correlated_samples(primary, Seq::empty()) == Seq::<serde_json::Value>::empty(),
{
}

impl RecordStore {
    /// Answers "what was measured on the other stream during each of these
    /// records": the owner's records of `primary` that start within the
    /// query window, oldest first, each with the samples of the owner's
    /// records of `secondary` that start within the same window. The
    /// secondary records are read once for the whole query, and not at all
    /// where there is no primary record.
    pub fn correlated_in_range(
        &self,
        owner: u128,
        primary: StreamType,
        secondary: StreamType,
        start: Timestamp,
        end: Timestamp,
    ) -> (entries: Vec<CorrelatedRecord>)
        ensures
            is_correlation(
                entries@,
                listed_in_range(self@, owner, primary, start, end),
                listed_in_range(self@, owner, secondary, start, end),
            ),
    {
        let primaries = self.list_in_range(owner, primary, start, end);
        if primaries.len() == 0 {
            return Vec::new();
        }
        let secondaries = self.list_in_range(owner, secondary, start, end);
        correlate(&primaries, &secondaries)
    }

    /// The owner's records of the stream that the query names, each with the
    /// GPS samples that were taken within its window. A tag that names no
    /// stream finds no record.
    pub fn health_data_with_gps(&self, owner: u128, query: &HealthDataTimeQuery) -> (entries: Vec<CorrelatedRecord>)
        ensures
            match stream_of_tag(query.data_type@) {
                Some(primary) => is_correlation(
                    entries@,
                    listed_in_range(self@, owner, primary, query.start_time, query.end_time),
                    listed_in_range(self@, owner, StreamType::GpsLocation, query.start_time, query.end_time),
                ),
                None => entries@.len() == 0,
            },
    {
        match StreamType::from_tag(query.data_type.as_str()) {
            Some(primary) => self.correlated_in_range(owner, primary, StreamType::GpsLocation, query.start_time, query.end_time),
            None => Vec::new(),
        }
    }
}

} // verus!
