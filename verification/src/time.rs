//! Instants and calendar dates as plain integers, and the texts they are read from.
use vstd::prelude::*;

verus! {

/// An instant in UTC: whole seconds since 1970-01-01T00:00:00Z and the
/// nanoseconds after that second. During a leap second `nanos` runs on past
/// 999,999,999, so instants are ordered by the pair, seconds first.
#[derive(Debug, Clone, Copy, PartialEq, Eq, Hash, Structural)]
pub struct Timestamp {
    pub seconds: i64,
    pub nanos: u32,
}

/// A calendar date, kept as the number of days since 0000-12-31 in the
/// proleptic Gregorian calendar: 0001-01-01 is day 1.
#[derive(Debug, Clone, Copy, PartialEq, Eq, Hash, Structural)]
pub struct CalendarDate {
    pub day_number: i32,
}

/// The format of the dates that queries carry: year, month and day.
pub open spec fn date_format() -> Seq<char> {
    "%Y-%m-%d"@
}

/// The seconds and nanoseconds of the instant that a text denotes to
/// `chrono`'s parser for `DateTime<Utc>` (a relaxed RFC 3339), or `None`
/// where the parser rejects the text.
pub uninterp spec fn parsed_instant(text: Seq<char>) -> Option<(i64, u32)>;

/// The day number of the date that a text denotes under a `strftime` format,
/// as `chrono`'s `NaiveDate::parse_from_str` reads it, or `None` where that
/// function rejects the text.
pub uninterp spec fn parsed_day_number(text: Seq<char>, format: Seq<char>) -> Option<i32>;

/// `str::parse::<chrono::DateTime<chrono::Utc>>`, with the instant handed out
/// as `timestamp()` and `timestamp_subsec_nanos()`. The result depends on the
/// text alone.
#[verifier::external_body]
fn parse_instant(text: &str) -> (instant: Option<(i64, u32)>)
    ensures
        instant == parsed_instant(text@),
{
    match text.parse::<chrono::DateTime<chrono::Utc>>() {
        Ok(moment) => Some((moment.timestamp(), moment.timestamp_subsec_nanos())),
        Err(_) => None,
    }
}

/// `chrono::NaiveDate::parse_from_str`, with the date handed out as
/// `num_days_from_ce()`. The result depends on the two texts alone.
#[verifier::external_body]
fn parse_day_number(text: &str, format: &str) -> (day: Option<i32>)
    ensures
        day == parsed_day_number(text@, format@),
{
    match chrono::NaiveDate::parse_from_str(text, format) {
        Ok(date) => Some(chrono::Datelike::num_days_from_ce(&date)),
        Err(_) => None,
    }
}

/// The instant that a text denotes, if it denotes one.
pub open spec fn instant_of_text(text: Seq<char>) -> Option<Timestamp> {
    match parsed_instant(text) {
        Some((seconds, nanos)) => Some(Timestamp { seconds, nanos }),
        None => None,
    }
}

/// The date that a `YYYY-MM-DD` text denotes, if it denotes one.
pub open spec fn date_of_text(text: Seq<char>) -> Option<CalendarDate> {
    match parsed_day_number(text, date_format()) {
        Some(day_number) => Some(CalendarDate { day_number }),
        None => None,
    }
}

impl Timestamp {
    /// `self` is at or before `other`.
    pub open spec fn not_after(self, other: Timestamp) -> bool {
        self.seconds < other.seconds || (self.seconds == other.seconds && self.nanos <= other.nanos)
    }

    /// `self` lies in the closed interval from `start` to `end`.
    pub open spec fn within(self, start: Timestamp, end: Timestamp) -> bool {
        start.not_after(self) && self.not_after(end)
    }

    pub fn new(seconds: i64, nanos: u32) -> (instant: Timestamp)
        ensures
            instant == (Timestamp { seconds, nanos }),
    {
        Timestamp { seconds, nanos }
    }

    /// Whether `self` is at or before `other`.
    pub fn is_not_after(&self, other: &Timestamp) -> (holds: bool)
        ensures
            holds == self.not_after(*other),
    {
        self.seconds < other.seconds || (self.seconds == other.seconds && self.nanos <= other.nanos)
    }

    /// Whether `self` lies in the closed interval from `start` to `end`.
    pub fn is_within(&self, start: &Timestamp, end: &Timestamp) -> (holds: bool)
        ensures
            holds == self.within(*start, *end),
    {
        start.is_not_after(self) && self.is_not_after(end)
    }

    /// Reads an instant from its text, such as `2025-03-10T12:00:00Z`.
    pub fn parse(text: &str) -> (instant: Option<Timestamp>)
        ensures
            instant == instant_of_text(text@),
    {
        match parse_instant(text) {
            Some((seconds, nanos)) => Some(Timestamp { seconds, nanos }),
            None => None,
        }
    }
}

impl CalendarDate {
    /// `self` is one of the `span` days that end with `last`.
    pub open spec fn in_trailing_days(self, last: CalendarDate, span: int) -> bool {
        last.day_number - span < self.day_number <= last.day_number
    }

    pub fn from_day_number(day_number: i32) -> (date: CalendarDate)
        ensures
            date == (CalendarDate { day_number }),
    {
        CalendarDate { day_number }
    }

    /// Whether `self` is one of the `span` days that end with `last`.
    pub fn is_in_trailing_days(&self, last: &CalendarDate, span: u32) -> (holds: bool)
        ensures
            holds == self.in_trailing_days(*last, span as int),
    {
        let day: i64 = self.day_number as i64;
        let end: i64 = last.day_number as i64;
        day <= end && end - day < span as i64
    }

    /// Reads a date from a `YYYY-MM-DD` text.
    pub fn parse(text: &str) -> (date: Option<CalendarDate>)
        ensures
            date == date_of_text(text@),
    {
        match parse_day_number(text, "%Y-%m-%d") {
            Some(day_number) => Some(CalendarDate { day_number }),
            None => None,
        }
    }
}

/// The order of instants is total and transitive, and two instants that are
/// each at or before the other are the same instant.
pub proof fn lemma_instants_are_ordered(a: Timestamp, b: Timestamp, c: Timestamp)
    ensures
        a.not_after(a),
        a.not_after(b) || b.not_after(a),
        a.not_after(b) && b.not_after(c) ==> a.not_after(c),
        a.not_after(b) && b.not_after(a) ==> a == b,
{
}

} // verus!
