//! Nightly sleep analyses, as an analysis job files them.
use vstd::prelude::*;
use crate::time::{CalendarDate, Timestamp};

verus! {

/// A stage of sleep.
#[derive(Debug, Clone, Copy, PartialEq, Eq, Hash, Structural)]
pub enum SleepStage {
    Awake,
    Light,
    Deep,
    REM,
    Unknown,
}

/// The name of a stage in stored documents.
pub open spec fn stage_name(stage: SleepStage) -> Seq<char> {
    match stage {
        SleepStage::Awake => "Awake"@,
        SleepStage::Light => "Light"@,
        SleepStage::Deep => "Deep"@,
        SleepStage::REM => "REM"@,
        SleepStage::Unknown => "Unknown"@,
    }
}

impl SleepStage {
    /// The name of this stage in stored documents.
    pub fn as_str(&self) -> (name: &'static str)
        ensures
            name@ == stage_name(*self),
    {
        match self {
            SleepStage::Awake => "Awake",
            SleepStage::Light => "Light",
            SleepStage::Deep => "Deep",
            SleepStage::REM => "REM",
            SleepStage::Unknown => "Unknown",
        }
    }
}

impl Default for SleepStage {
    /// A stage of which nothing is known.
    fn default() -> (stage: SleepStage)
        ensures
            stage == SleepStage::Unknown,
    {
        SleepStage::Unknown
    }
}

/// The durations and counts of one night. Any of them may be missing.
#[derive(Debug, Clone, Copy, PartialEq, Eq, Structural)]
pub struct SleepMetrics {
    pub sleep_latency_seconds: Option<i32>,
    pub awakenings: Option<i32>,
    pub time_in_bed_seconds: Option<i32>,
    pub total_sleep_seconds: Option<i32>,
    pub light_sleep_seconds: Option<i32>,
    pub deep_sleep_seconds: Option<i32>,
    pub rem_sleep_seconds: Option<i32>,
    pub awake_seconds: Option<i32>,
}

impl SleepMetrics {
    /// Metrics with every field missing.
    pub fn empty() -> (metrics: SleepMetrics)
        ensures
            metrics == (SleepMetrics {
                sleep_latency_seconds: None,
                awakenings: None,
                time_in_bed_seconds: None,
                total_sleep_seconds: None,
                light_sleep_seconds: None,
                deep_sleep_seconds: None,
                rem_sleep_seconds: None,
                awake_seconds: None,
            }),
    {
        SleepMetrics {
            sleep_latency_seconds: None,
            awakenings: None,
            time_in_bed_seconds: None,
            total_sleep_seconds: None,
            light_sleep_seconds: None,
            deep_sleep_seconds: None,
            rem_sleep_seconds: None,
            awake_seconds: None,
        }
    }
}

/// What the trend of a week reads from the summary of one night.
#[derive(Debug, Clone)]
pub struct SleepSummary {
    /// 0 to 100.
    pub sleep_score: i32,
    pub sleep_metrics: SleepMetrics,
    /// `Poor`, `Fair`, `Good` or `Excellent`.
    pub overall_quality: String,
}

/// One stored summary row: the night it is filed under, when it was written,
/// and its document, or `None` where the document does not have the shape of
/// a summary.
#[derive(Debug, Clone)]
pub struct NightRecord {
    pub night_date: CalendarDate,
    pub created_at: Timestamp,
    pub summary: Option<SleepSummary>,
}

/// A query for one night, with the date as the client wrote it.
#[derive(Debug, Clone)]
pub struct SleepDateQuery {
    pub date: String,
}

/// A query for a range of nights, with the dates as the client wrote them.
#[derive(Debug, Clone)]
pub struct SleepRangeQuery {
    pub start_date: String,
    pub end_date: String,
}

} // verus!
