//! Queries after sleep data: reading the dates a client wrote, finding the
//! record of a night, and checking a stored document before it is read.
use vstd::prelude::*;
use vstd::string::*;
use crate::json::{json_member, member};
use crate::models::sleep::{NightRecord, SleepDateQuery, SleepRangeQuery};
use crate::time::{date_of_text, CalendarDate};
use crate::trends::prevails;

verus! {

/// Why a query is turned down before the store is asked. The client is at
/// fault in each case.
#[derive(Debug, Clone, Copy, PartialEq, Eq, Structural)]
pub enum QueryError {
    InvalidDate,
    InvalidStartDate,
    InvalidEndDate,
    EndBeforeStart,
}

/// The sentence that tells a client what was wrong with a query.
pub open spec fn query_error_message(error: QueryError) -> Seq<char> {
    match error {
        QueryError::InvalidDate => "Invalid date format. Expected YYYY-MM-DD."@,
        QueryError::InvalidStartDate => "Invalid start date format. Expected YYYY-MM-DD."@,
        QueryError::InvalidEndDate => "Invalid end date format. Expected YYYY-MM-DD."@,
        QueryError::EndBeforeStart => "End date must be equal to or after start date"@,
    }
}

impl QueryError {
    /// The sentence that tells a client what was wrong.
    pub fn message(&self) -> (sentence: &'static str)
        ensures
            sentence@ == query_error_message(*self),
    {
        match self {
            QueryError::InvalidDate => "Invalid date format. Expected YYYY-MM-DD.",
            QueryError::InvalidStartDate => "Invalid start date format. Expected YYYY-MM-DD.",
            QueryError::InvalidEndDate => "Invalid end date format. Expected YYYY-MM-DD.",
            QueryError::EndBeforeStart => "End date must be equal to or after start date",
        }
    }
}

/// A range of nights, both ends included. The end is not before the start.
#[derive(Debug, Clone, Copy, PartialEq, Eq, Structural)]
pub struct DateRange {
    pub start: CalendarDate,
    pub end: CalendarDate,
}

impl DateRange {
    /// The night lies in the range.
    pub open spec fn holds(self, night: CalendarDate) -> bool {
        self.start.day_number <= night.day_number <= self.end.day_number
    }

    /// Whether the night lies in the range.
    pub fn contains(&self, night: &CalendarDate) -> (inside: bool)
        ensures
            inside == self.holds(*night),
    {
        self.start.day_number <= night.day_number && night.day_number <= self.end.day_number
    }
}

/// The range that two dates give, each as far as it could be read. An
/// unreadable start is reported before an unreadable end, and both before an
/// end that lies before the start.
pub open spec fn range_of(start: Option<CalendarDate>, end: Option<CalendarDate>) -> Result<DateRange, QueryError> {
    match start {
        None => Err(QueryError::InvalidStartDate),
        Some(start) => match end {
            None => Err(QueryError::InvalidEndDate),
            Some(end) => if end.day_number < start.day_number {
                Err(QueryError::EndBeforeStart)
            } else {
                Ok(DateRange { start, end })
            },
        },
    }
}

/// The night that a date gives, as far as it could be read.
pub open spec fn night_of(date: Option<CalendarDate>) -> Result<CalendarDate, QueryError> {
    match date {
        Some(night) => Ok(night),
        None => Err(QueryError::InvalidDate),
    }
}

/// Checks the two ends of a range after they were read.
pub fn check_range(start: Option<CalendarDate>, end: Option<CalendarDate>) -> (outcome: Result<DateRange, QueryError>)
    ensures
        outcome == range_of(start, end),
{
    match start {
        None => Err(QueryError::InvalidStartDate),
        Some(start) => match end {
            None => Err(QueryError::InvalidEndDate),
            Some(end) => {
                if end.day_number < start.day_number {
                    Err(QueryError::EndBeforeStart)
                } else {
                    Ok(DateRange { start, end })
                }
            },
        },
    }
}

impl SleepDateQuery {
    /// The night that the query asks for. The date must be written as
    /// `YYYY-MM-DD`.
    pub fn night(&self) -> (outcome: Result<CalendarDate, QueryError>)
        ensures
            outcome == night_of(date_of_text(self.date@)),
    {
        match CalendarDate::parse(self.date.as_str()) {
            Some(night) => Ok(night),
            None => Err(QueryError::InvalidDate),
        }
    }
}

impl SleepRangeQuery {
    /// The range that the query asks for. Both dates must be written as
    /// `YYYY-MM-DD`, and the end must not lie before the start.
    pub fn range(&self) -> (outcome: Result<DateRange, QueryError>)
        ensures
            outcome == range_of(date_of_text(self.start_date@), date_of_text(self.end_date@)),
    {
        let start = CalendarDate::parse(self.start_date.as_str());
        if start.is_none() {
            return Err(QueryError::InvalidStartDate);
        }
        let end = CalendarDate::parse(self.end_date.as_str());
        check_range(start, end)
    }
}

/// What the store holds for one night.
#[derive(Debug, Clone, Copy, PartialEq, Eq, Structural)]
pub enum NightAnswer {
    /// The record at this place is the one to answer with.
    Found(usize),
    /// The record at this place is the one to answer with, but its document
    /// cannot be read. The server is at fault.
    Unreadable(usize),
    /// There is no record of that night. Unlike a range without records,
    /// this is reported as not found.
    Missing,
}

/// The record at `at` is the newest of its night: none of the same night
/// prevails over it.
pub open spec fn is_latest_of_night(records: Seq<NightRecord>, at: int, night: CalendarDate) -> bool {
    &&& 0 <= at < records.len()
    &&& records[at].night_date == night
    &&& forall|other: int| 0 <= other < records.len() ==> !#[trigger] prevails(records, other, at)
}

/// No record is filed under that night.
pub open spec fn night_is_missing(records: Seq<NightRecord>, night: CalendarDate) -> bool {
    forall|at: int| 0 <= at < records.len() ==> (#[trigger] records[at]).night_date != night
}

/// The answer is the right one for that night.
pub open spec fn is_answer_for(answer: NightAnswer, records: Seq<NightRecord>, night: CalendarDate) -> bool {
    match answer {
        NightAnswer::Found(at) => is_latest_of_night(records, at as int, night) && records[at as int].summary is Some,
        NightAnswer::Unreadable(at) => is_latest_of_night(records, at as int, night) && records[at as int].summary is None,
        NightAnswer::Missing => night_is_missing(records, night),
    }
}

/// The place of the newest record of a night, if there is a record of it.
pub fn latest_of_night(records: &Vec<NightRecord>, night: CalendarDate) -> (found: Option<usize>)
    ensures
        match found {
            Some(at) => is_latest_of_night(records@, at as int, night),
            None => night_is_missing(records@, night),
        },
{
    let mut best: Option<usize> = None;
    let mut i: usize = 0;
    while i < records.len()
        invariant
            i <= records.len(),
            match best {
                Some(at) => at < i && records[at as int].night_date == night && forall|other: int|
                    0 <= other < i ==> !#[trigger] prevails(records@, other, at as int),
                None => forall|at: int| 0 <= at < i ==> (#[trigger] records[at]).night_date != night,
            },
        decreases records.len() - i,
    {
        if records[i].night_date == night {
            match best {
                Some(at) => {
                    // A record that comes later prevails unless it was written earlier.
                    if records[at].created_at.is_not_after(&records[i].created_at) {
                        proof {
                            assert forall|other: int| 0 <= other < i + 1 implies !#[trigger] prevails(records@, other, i as int) by {
                                if other < i {
                                    assert(!prevails(records@, other, at as int));
                                }
                            }
                        }
                        best = Some(i);
                    }
                },
                None => {
                    best = Some(i);
                },
            }
        }
        i = i + 1;
    }
    best
}

/// What to answer a query after one night: the newest record of that night,
/// if its document can be read.
pub fn answer_for_night(records: &Vec<NightRecord>, night: CalendarDate) -> (answer: NightAnswer)
    ensures
        is_answer_for(answer, records@, night),
{
    match latest_of_night(records, night) {
        Some(at) => {
            if records[at].summary.is_some() {
                NightAnswer::Found(at)
            } else {
                NightAnswer::Unreadable(at)
            }
        },
        None => NightAnswer::Missing,
    }
}

/// The places of the documents that could be read, in their order. A
/// document that could not be read is passed over, and the others are kept.
pub fn readable_places<T>(documents: &Vec<Option<T>>) -> (places: Vec<usize>)
    ensures
        forall|k: int| 0 <= k < places.len() ==> (#[trigger] places[k]) < documents.len() && documents[places[k] as int] is Some,
        forall|at: int| 0 <= at < documents.len() && (#[trigger] documents[at]) is Some ==> places@.contains(at as usize),
        forall|k: int, l: int| 0 <= k < l < places.len() ==> #[trigger] places[k] < #[trigger] places[l],
{
    let mut places: Vec<usize> = Vec::new();
    let mut i: usize = 0;
    while i < documents.len()
        invariant
            i <= documents.len(),
            forall|k: int| 0 <= k < places.len() ==> (#[trigger] places[k]) < i && documents[places[k] as int] is Some,
            forall|at: int| 0 <= at < i && (#[trigger] documents[at]) is Some ==> places@.contains(at as usize),
            forall|k: int, l: int| 0 <= k < l < places.len() ==> #[trigger] places[k] < #[trigger] places[l],
        decreases documents.len() - i,
    {
        if documents[i].is_some() {
            let ghost before = places@;
            places.push(i);
            proof {
                assert forall|at: int| 0 <= at < i + 1 && (#[trigger] documents[at]) is Some implies places@.contains(at as usize) by {
                    if at == i {
                        assert(places[places.len() - 1] == i);
                    } else {
                        assert(before.contains(at as usize));
                        let k = choose|k: int| 0 <= k < before.len() && before[k] == at as usize;
                        assert(places[k] == at as usize);
                    }
                }
            }
        }
        i = i + 1;
    }
    places
}

/// The number of members that a stored night of sleep stages must have.
pub const REQUIRED_FIELDS: usize = 9;

/// The names of those members, in the order in which they are checked.
pub open spec fn required_fields() -> Seq<Seq<char>> {
    seq![
        "id"@,
        "user_id"@,
        "night_date"@,
        "start_time"@,
        "end_time"@,
        "samples"@,
        "sleep_metrics"@,
        "sleep_score"@,
        "created_at"@,
    ]
}

/// The name of the first required member that a document lacks.
pub open spec fn is_first_missing(document: serde_json::Value, name: Seq<char>) -> bool {
    exists|at: int|
        0 <= at < required_fields().len() && #[trigger] required_fields()[at] == name && json_member(document, name) is None && forall|
            earlier: int,
        | 0 <= earlier < at ==> json_member(document, #[trigger] required_fields()[earlier]) is Some
}

/// The document has every required member.
pub open spec fn has_required_fields(document: serde_json::Value) -> bool {
    forall|at: int| 0 <= at < required_fields().len() ==> json_member(document, #[trigger] required_fields()[at]) is Some
}

/// What is put before the name of a missing member to make the error message.
pub open spec fn missing_field_prefix() -> Seq<char> {
    "Missing required field: "@
}

/// The name of the required member at a place.
fn required_field(at: usize) -> (name: &'static str)
    requires
        at < REQUIRED_FIELDS,
    ensures
        name@ == required_fields()[at as int],
{
    match at {
        0 => "id",
        1 => "user_id",
        2 => "night_date",
        3 => "start_time",
        4 => "end_time",
        5 => "samples",
        6 => "sleep_metrics",
        7 => "sleep_score",
        _ => "created_at",
    }
}

/// Checks that a stored night of sleep stages has all its members, before
/// it is read. Returns the name of the first member that is missing.
pub fn first_missing_field(document: &serde_json::Value) -> (missing: Option<&'static str>)
    ensures
        match missing {
            Some(name) => is_first_missing(*document, name@),
            None => has_required_fields(*document),
        },
{
    let mut at: usize = 0;
    while at < REQUIRED_FIELDS
        invariant
            at <= REQUIRED_FIELDS,
            required_fields().len() == REQUIRED_FIELDS,
            forall|earlier: int| 0 <= earlier < at ==> json_member(*document, #[trigger] required_fields()[earlier]) is Some,
        decreases REQUIRED_FIELDS - at,
    {
        let name = required_field(at);
        if member(document, name).is_none() {
            assert(required_fields()[at as int] == name@);
            return Some(name);
        }
        at = at + 1;
    }
    None
}

/// The message that reports a missing member.
pub fn missing_field_message(name: &str) -> (sentence: String)
    ensures
        sentence@ == missing_field_prefix() + name@,
{
    String::from_str("Missing required field: ").concat(name)
}

} // verus!
