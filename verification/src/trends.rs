//! The sleep trend aggregator: reduces the summaries of the last seven
//! nights to totals and a day-by-day list.
//!
//! The aggregator gives exact integers: the sum of the scores, the seconds
//! of sleep of each night that reports them, and the pairs of deep and total
//! seconds. Means are quotients of these, and are left to the caller.
use vstd::prelude::*;
use crate::models::sleep::{NightRecord, SleepSummary};
use crate::time::CalendarDate;

verus! {

/// The number of nights that a trend looks back on, the last one included.
pub const TREND_DAYS: u32 = 7;

/// The deep sleep and the whole sleep of one night, in seconds. The share of
/// deep sleep is their quotient; `total_seconds` is above zero.
#[derive(Debug, Clone, Copy, PartialEq, Eq, Structural)]
pub struct DeepSleepShare {
    pub deep_seconds: i32,
    pub total_seconds: i32,
}

/// One night of a trend.
#[derive(Debug, Clone)]
pub struct DailySummary {
    /// The place of the night's record among the records given.
    pub source: usize,
    pub date: CalendarDate,
    pub sleep_score: i32,
    pub total_sleep_seconds: Option<i32>,
    pub overall_quality: String,
}

/// The trend of a week.
#[derive(Debug, Clone)]
pub struct WeeklyTrend {
    /// The number of nights with a summary.
    pub days_with_data: usize,
    /// The sum of the scores of those nights.
    pub sleep_score_total: i128,
    /// The seconds of sleep of the nights that report them, oldest first.
    pub sleep_seconds: Vec<i32>,
    /// The nights that report deep sleep and a total above zero, oldest first.
    pub deep_sleep_shares: Vec<DeepSleepShare>,
    /// The nights, oldest first.
    pub daily_summaries: Vec<DailySummary>,
}

/// The record at `later_at` is filed under the same night as the one at
/// `earlier_at` and prevails over it: it was written later, or at the same
/// instant and stands later in the list.
pub open spec fn prevails(records: Seq<NightRecord>, later_at: int, earlier_at: int) -> bool {
    let later = records[later_at];
    let earlier = records[earlier_at];
    &&& later.night_date == earlier.night_date
    &&& later_at != earlier_at
    &&& (!later.created_at.not_after(earlier.created_at) || (later.created_at == earlier.created_at && later_at > earlier_at))
}

/// The record at `at` counts for the trend that ends on `today`: it is a
/// readable summary of one of the last seven nights, and no other readable
/// summary of that night prevails over it.
pub open spec fn counts_for_trend(records: Seq<NightRecord>, at: int, today: CalendarDate) -> bool {
    &&& 0 <= at < records.len()
    &&& records[at].summary is Some
    &&& records[at].night_date.in_trailing_days(today, TREND_DAYS as int)
    &&& forall|other: int| 0 <= other < records.len() && records[other].summary is Some ==> !#[trigger] prevails(records, other, at)
}

/// The sum of the scores of the nights.
pub open spec fn score_sum(nights: Seq<SleepSummary>) -> int
    decreases nights.len(),
{
    if nights.len() == 0 {
        0
    } else {
        score_sum(nights.drop_last()) + nights.last().sleep_score
    }
}

/// The seconds of sleep of the nights that report them.
pub open spec fn present_sleep_seconds(nights: Seq<SleepSummary>) -> Seq<i32>
    decreases nights.len(),
{
    if nights.len() == 0 {
        Seq::empty()
    } else {
        match nights.last().sleep_metrics.total_sleep_seconds {
            Some(seconds) => present_sleep_seconds(nights.drop_last()).push(seconds),
            None => present_sleep_seconds(nights.drop_last()),
        }
    }
}

/// The share of deep sleep that a night reports: both durations are there,
/// and the total is above zero.
pub open spec fn deep_share_of(night: SleepSummary) -> Option<DeepSleepShare> {
    match (night.sleep_metrics.deep_sleep_seconds, night.sleep_metrics.total_sleep_seconds) {
        (Some(deep_seconds), Some(total_seconds)) => if total_seconds > 0 {
            Some(DeepSleepShare { deep_seconds, total_seconds })
        } else {
            None
        },
        _ => None,
    }
}

/// The shares of deep sleep of the nights that report one.
pub open spec fn deep_shares(nights: Seq<SleepSummary>) -> Seq<DeepSleepShare>
    decreases nights.len(),
{
    if nights.len() == 0 {
        Seq::empty()
    } else {
        match deep_share_of(nights.last()) {
            Some(share) => deep_shares(nights.drop_last()).push(share),
            None => deep_shares(nights.drop_last()),
        }
    }
}

/// The entry of a trend that stands for the record at `day.source`.
pub open spec fn is_day_of(day: DailySummary, records: Seq<NightRecord>) -> bool {
    &&& 0 <= day.source < records.len()
    &&& records[day.source as int].summary matches Some(summary)
    &&& day.date == records[day.source as int].night_date
    &&& day.sleep_score == summary.sleep_score
    &&& day.total_sleep_seconds == summary.sleep_metrics.total_sleep_seconds
    &&& day.overall_quality == summary.overall_quality
}

/// The summaries that the entries of a trend stand for.
pub open spec fn nights_of(days: Seq<DailySummary>, records: Seq<NightRecord>) -> Seq<SleepSummary> {
    Seq::new(days.len(), |k: int| records[days[k].source as int].summary->0)
}

/// The places of the records that the entries of a trend stand for.
pub open spec fn sources_of(days: Seq<DailySummary>) -> Seq<usize> {
    Seq::new(days.len(), |k: int| days[k].source)
}

/// The places are those of the records that count, each once, from the
/// oldest night to the newest.
pub open spec fn are_trend_sources(sources: Seq<usize>, records: Seq<NightRecord>, today: CalendarDate) -> bool {
    &&& forall|k: int| 0 <= k < sources.len() ==> counts_for_trend(records, #[trigger] sources[k] as int, today)
    &&& forall|at: int| #[trigger] counts_for_trend(records, at, today) ==> sources.contains(at as usize)
    &&& forall|k: int, l: int|
        0 <= k < l < sources.len() ==> records[#[trigger] sources[k] as int].night_date.day_number < records[#[trigger] sources[
            l
        ] as int].night_date.day_number
}

/// The trend that ends on `today`, of the records given.
pub open spec fn is_weekly_trend(trend: WeeklyTrend, records: Seq<NightRecord>, today: CalendarDate) -> bool {
    let days = trend.daily_summaries@;
    let nights = nights_of(days, records);
    &&& are_trend_sources(sources_of(days), records, today)
    &&& forall|k: int| 0 <= k < days.len() ==> is_day_of(#[trigger] days[k], records)
    &&& trend.days_with_data == days.len()
    &&& trend.sleep_score_total == score_sum(nights)
    &&& trend.sleep_seconds@ == present_sleep_seconds(nights)
    &&& trend.deep_sleep_shares@ == deep_shares(nights)
}

/// Whether the record at `later_at` prevails over the one at `earlier_at`.
fn record_prevails(records: &Vec<NightRecord>, later_at: usize, earlier_at: usize) -> (holds: bool)
    requires
        later_at < records.len(),
        earlier_at < records.len(),
    ensures
        holds == prevails(records@, later_at as int, earlier_at as int),
{
    let later = &records[later_at];
    let earlier = &records[earlier_at];
    later.night_date == earlier.night_date && later_at != earlier_at && (!later.created_at.is_not_after(&earlier.created_at) || (
    later.created_at == earlier.created_at && later_at > earlier_at))
}

/// Whether the record at `at` counts for the trend that ends on `today`.
pub fn counts(records: &Vec<NightRecord>, at: usize, today: CalendarDate) -> (holds: bool)
    ensures
        holds == counts_for_trend(records@, at as int, today),
{
    if at >= records.len() {
        return false;
    }
    if records[at].summary.is_none() {
        return false;
    }
    if !records[at].night_date.is_in_trailing_days(&today, TREND_DAYS) {
        return false;
    }
    let mut other: usize = 0;
    while other < records.len()
        invariant
            at < records.len(),
            other <= records.len(),
            forall|j: int| 0 <= j < other && records@[j].summary is Some ==> !#[trigger] prevails(records@, j, at as int),
        decreases records.len() - other,
    {
        if records[other].summary.is_some() && record_prevails(records, other, at) {
            return false;
        }
        other = other + 1;
    }
    true
}

/// The places of the records that count for the trend, from the oldest
/// night to the newest.
pub fn trend_sources(records: &Vec<NightRecord>, today: CalendarDate) -> (sources: Vec<usize>)
    ensures
        are_trend_sources(sources@, records@, today),
{
    let mut sources: Vec<usize> = Vec::new();
    let mut i: usize = 0;
    while i < records.len()
        invariant
            i <= records.len(),
            forall|k: int| 0 <= k < sources.len() ==> #[trigger] sources[k] < i && counts_for_trend(records@, sources[k] as int, today),
            forall|at: int| 0 <= at < i && #[trigger] counts_for_trend(records@, at, today) ==> sources@.contains(at as usize),
            forall|k: int, l: int|
                0 <= k < l < sources.len() ==> records[#[trigger] sources[k] as int].night_date.day_number < records[#[trigger] sources[
                    l
                ] as int].night_date.day_number,
        decreases records.len() - i,
    {
        if counts(records, i, today) {
            let day: i32 = records[i].night_date.day_number;
            let mut at: usize = sources.len();
            while at > 0 && records[sources[at - 1]].night_date.day_number > day
                invariant
                    at <= sources.len(),
                    i < records.len(),
                    day == records[i as int].night_date.day_number,
                    forall|k: int| 0 <= k < sources.len() ==> #[trigger] sources[k] < i,
                    forall|k: int| at <= k < sources.len() ==> records[#[trigger] sources[k] as int].night_date.day_number > day,
                decreases at,
            {
                at = at - 1;
            }
            let ghost before = sources@;
            proof {
                if at > 0 {
                    let previous = before[at - 1] as int;
                    assert(counts_for_trend(records@, previous, today));
                    assert(!prevails(records@, i as int, previous));
                    assert(!prevails(records@, previous, i as int));
                    assert(records[previous].night_date.day_number < day);
                }
            }
            sources.insert(at, i);
            proof {
                assert forall|k: int| 0 <= k < sources.len() implies #[trigger] sources[k] < i + 1 && counts_for_trend(
                    records@,
                    sources[k] as int,
                    today,
                ) by {
                    if k < at {
                        assert(sources[k] == before[k]);
                    } else if k > at {
                        assert(sources[k] == before[k - 1]);
                    }
                }
                assert forall|known: int| 0 <= known < i + 1 && #[trigger] counts_for_trend(records@, known, today) implies sources@.contains(
                    known as usize,
                ) by {
                    if known == i {
                        assert(sources[at as int] == i);
                    } else {
                        assert(before.contains(known as usize));
                        let k = choose|k: int| 0 <= k < before.len() && before[k] == known as usize;
                        if k < at {
                            assert(sources[k] == before[k]);
                        } else {
                            assert(sources[k + 1] == before[k]);
                        }
                    }
                }
                assert forall|k: int, l: int| 0 <= k < l < sources.len() implies records[#[trigger] sources[k] as int].night_date.day_number
                    < records[#[trigger] sources[l] as int].night_date.day_number by {
                    let earlier = if k < at { k } else { k - 1 };
                    let later = if l < at { l } else { l - 1 };
                    if k != at {
                        assert(sources[k] == before[earlier]);
                    }
                    if l != at {
                        assert(sources[l] == before[later]);
                    }
                    if l == at {
                        if k < at - 1 {
                            assert(records[before[k] as int].night_date.day_number < records[before[at - 1] as int].night_date.day_number);
                        }
                    }
                }
            }
        }
        i = i + 1;
    }
    proof {
        assert forall|at: int| #[trigger] counts_for_trend(records@, at, today) implies sources@.contains(at as usize) by {
            assert(0 <= at < i);
        }
    }
    sources
}

/// The share of deep sleep that a night reports, if it reports one.
pub fn deep_share(night: &SleepSummary) -> (share: Option<DeepSleepShare>)
    ensures
        share == deep_share_of(*night),
{
    match (night.sleep_metrics.deep_sleep_seconds, night.sleep_metrics.total_sleep_seconds) {
        (Some(deep_seconds), Some(total_seconds)) => {
            if total_seconds > 0 {
                Some(DeepSleepShare { deep_seconds, total_seconds })
            } else {
                None
            }
        },
        _ => None,
    }
}

/// The sum of `count` scores lies within `count` times the range of a score.
proof fn lemma_score_sum_bounds(nights: Seq<SleepSummary>)
    ensures
        -0x8000_0000 * nights.len() <= score_sum(nights) <= 0x7fff_ffff * nights.len(),
    decreases nights.len(),
{
    if nights.len() > 0 {
        lemma_score_sum_bounds(nights.drop_last());
    }
}

/// The trend of the seven nights that end with `today`.
///
/// A record counts if its document is a readable summary and its night is
/// one of the seven; of several readable summaries of one night, the one
/// written last counts. Records that do not count are passed over. Each
/// total is taken over the nights that report the figure: a night without
/// its seconds of sleep still adds to the sum of scores, and a night whose
/// seconds of sleep are zero adds no share of deep sleep. With no record
/// that counts, every total is zero and every list is empty.
pub fn weekly_trend(records: &Vec<NightRecord>, today: CalendarDate) -> (trend: WeeklyTrend)
    ensures
        is_weekly_trend(trend, records@, today),
{
    let sources = trend_sources(records, today);
    let mut sleep_score_total: i128 = 0;
    let mut sleep_seconds: Vec<i32> = Vec::new();
    let mut deep_sleep_shares: Vec<DeepSleepShare> = Vec::new();
    let mut daily_summaries: Vec<DailySummary> = Vec::new();
    let mut k: usize = 0;
    while k < sources.len()
        invariant
            k <= sources.len(),
            are_trend_sources(sources@, records@, today),
            daily_summaries.len() == k,
            sources_of(daily_summaries@) == sources@.take(k as int),
            forall|m: int| 0 <= m < k ==> is_day_of(#[trigger] daily_summaries[m], records@),
            sleep_score_total == score_sum(nights_of(daily_summaries@, records@)),
            sleep_seconds@ == present_sleep_seconds(nights_of(daily_summaries@, records@)),
            deep_sleep_shares@ == deep_shares(nights_of(daily_summaries@, records@)),
        decreases sources.len() - k,
    {
        let source: usize = sources[k];
        assert(counts_for_trend(records@, sources@[k as int] as int, today));
        let record = &records[source];
        let ghost days_before = daily_summaries@;
        let ghost nights_before = nights_of(days_before, records@);
        // A record that counts has a summary.
        if let Some(summary) = &record.summary {
            proof {
                lemma_score_sum_bounds(nights_before);
            }
            sleep_score_total = sleep_score_total + summary.sleep_score as i128;
            if let Some(seconds) = summary.sleep_metrics.total_sleep_seconds {
                sleep_seconds.push(seconds);
            }
            if let Some(share) = deep_share(summary) {
                deep_sleep_shares.push(share);
            }
            daily_summaries.push(
                DailySummary {
                    source,
                    date: record.night_date,
                    sleep_score: summary.sleep_score,
                    total_sleep_seconds: summary.sleep_metrics.total_sleep_seconds,
                    overall_quality: summary.overall_quality.clone(),
                },
            );
            proof {
                let nights = nights_of(daily_summaries@, records@);
                assert(nights.drop_last() =~= nights_before);
                assert(nights.last() == *summary);
                assert(sources_of(daily_summaries@) =~= sources@.take(k + 1));
            }
        }
        k = k + 1;
    }
    proof {
        assert(sources@.take(k as int) =~= sources@);
    }
    WeeklyTrend { days_with_data: daily_summaries.len(), sleep_score_total, sleep_seconds, deep_sleep_shares, daily_summaries }
}

/// With no record that counts, the trend is empty: no night with data,
/// a score total of zero, and nothing to take a mean of.
pub proof fn lemma_no_night_no_trend(trend: WeeklyTrend, records: Seq<NightRecord>, today: CalendarDate)
    requires
        is_weekly_trend(trend, records, today),
        forall|at: int| !counts_for_trend(records, at, today),
    ensures
        trend.days_with_data == 0,
        trend.sleep_score_total == 0,
        trend.sleep_seconds@.len() == 0,
        trend.deep_sleep_shares@.len() == 0,
        trend.daily_summaries@.len() == 0,
{
    let days = trend.daily_summaries@;
    if days.len() > 0 {
        assert(counts_for_trend(records, sources_of(days)[0] as int, today));
    }
    assert(nights_of(days, records) =~= Seq::<SleepSummary>::empty());
}

/// No records, no trend.
pub proof fn lemma_no_record_no_trend(trend: WeeklyTrend, today: CalendarDate)
    requires
        is_weekly_trend(trend, Seq::<NightRecord>::empty(), today),
    ensures
        trend.days_with_data == 0,
        trend.sleep_score_total == 0,
        trend.sleep_seconds@.len() == 0,
        trend.deep_sleep_shares@.len() == 0,
{
    lemma_no_night_no_trend(trend, Seq::<NightRecord>::empty(), today);
}

/// Each figure is taken over the nights that report it. A further night
/// always adds its score. It adds its seconds of sleep only if it reports
/// them, and a share of deep sleep only if it reports both durations and
/// slept at all.
pub proof fn lemma_one_more_night(nights: Seq<SleepSummary>, night: SleepSummary)
    ensures
        score_sum(nights.push(night)) == score_sum(nights) + night.sleep_score,
        present_sleep_seconds(nights.push(night)) == match night.sleep_metrics.total_sleep_seconds {
            Some(seconds) => present_sleep_seconds(nights).push(seconds),
            None => present_sleep_seconds(nights),
        },
        deep_shares(nights.push(night)) == match deep_share_of(night) {
            Some(share) => deep_shares(nights).push(share),
            None => deep_shares(nights),
        },
        night.sleep_metrics.total_sleep_seconds is None || night.sleep_metrics.total_sleep_seconds == Some(0i32) ==> deep_shares(
            nights.push(night),
        ) == deep_shares(nights),
{
    assert(nights.push(night).drop_last() =~= nights);
}

/// No figure is taken over more nights than there are, and every share of
/// deep sleep has a total above zero, so that its quotient exists.
pub proof fn lemma_figures_are_partial(nights: Seq<SleepSummary>)
    ensures
        present_sleep_seconds(nights).len() <= nights.len(),
        deep_shares(nights).len() <= present_sleep_seconds(nights).len(),
        forall|k: int| 0 <= k < deep_shares(nights).len() ==> (#[trigger] deep_shares(nights)[k]).total_seconds > 0,
    decreases nights.len(),
{
    if nights.len() > 0 {
        lemma_figures_are_partial(nights.drop_last());
    }
}

/// At most one record of each night counts.
pub proof fn lemma_one_record_a_night(records: Seq<NightRecord>, today: CalendarDate, first: int, second: int)
    requires
        counts_for_trend(records, first, today),
        counts_for_trend(records, second, today),
        records[first].night_date == records[second].night_date,
    ensures
        first == second,
{
    if first != second {
        assert(!prevails(records, first, second));
        assert(!prevails(records, second, first));
    }
}

/// Two lists of trend sources of the same records agree on their first `k` places.
proof fn lemma_sources_agree_up_to(first: Seq<usize>, second: Seq<usize>, records: Seq<NightRecord>, today: CalendarDate, k: nat)
    requires
        are_trend_sources(first, records, today),
        are_trend_sources(second, records, today),
        k <= first.len(),
    ensures
        k <= second.len(),
        forall|i: int| 0 <= i < k ==> first[i] == second[i],
    decreases k,
{
    if k > 0 {
        lemma_sources_agree_up_to(first, second, records, today, (k - 1) as nat);
        let at = (k - 1) as int;
        let night = first[at];
        assert(counts_for_trend(records, night as int, today));
        assert(second.contains(night));
        let m = choose|m: int| 0 <= m < second.len() && second[m] == night;
        if m < at {
            assert(first[m] == second[m]);
            assert(records[first[m] as int].night_date.day_number < records[first[at] as int].night_date.day_number);
        }
        if m > at {
            let other = second[at];
            assert(counts_for_trend(records, other as int, today));
            assert(first.contains(other));
            let n = choose|n: int| 0 <= n < first.len() && first[n] == other;
            assert(records[second[at] as int].night_date.day_number < records[second[m] as int].night_date.day_number);
            if n < at {
                assert(first[n] == second[n]);
                assert(records[second[n] as int].night_date.day_number < records[second[at] as int].night_date.day_number);
            }
            if n > at {
                assert(records[first[at] as int].night_date.day_number < records[first[n] as int].night_date.day_number);
            }
        }
        assert(m == at);
    }
}

/// The records and the day determine the nights of a trend and their order:
/// there is one list of trend sources and no other.
pub proof fn lemma_trend_sources_are_determined(first: Seq<usize>, second: Seq<usize>, records: Seq<NightRecord>, today: CalendarDate)
    requires
        are_trend_sources(first, records, today),
        are_trend_sources(second, records, today),
    ensures
        first == second,
{
    lemma_sources_agree_up_to(first, second, records, today, first.len());
    lemma_sources_agree_up_to(second, first, records, today, second.len());
    assert(first =~= second);
}

/// The records and the day determine the trend: two trends of the same
/// records on the same day have the same nights and the same figures.
pub proof fn lemma_trend_is_determined(first: WeeklyTrend, second: WeeklyTrend, records: Seq<NightRecord>, today: CalendarDate)
    requires
        is_weekly_trend(first, records, today),
        is_weekly_trend(second, records, today),
    ensures
        sources_of(first.daily_summaries@) == sources_of(second.daily_summaries@),
        first.days_with_data == second.days_with_data,
        first.sleep_score_total == second.sleep_score_total,
        first.sleep_seconds@ == second.sleep_seconds@,
        first.deep_sleep_shares@ == second.deep_sleep_shares@,
{
    let first_days = first.daily_summaries@;
    let second_days = second.daily_summaries@;
    lemma_trend_sources_are_determined(sources_of(first_days), sources_of(second_days), records, today);
    assert(first_days.len() == sources_of(first_days).len());
    assert(second_days.len() == sources_of(second_days).len());
    assert forall|k: int| 0 <= k < first_days.len() implies first_days[k].source == second_days[k].source by {
        assert(sources_of(first_days)[k] == sources_of(second_days)[k]);
    }
    assert(nights_of(first_days, records) =~= nights_of(second_days, records));
}

} // verus!
