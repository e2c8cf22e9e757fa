//! The record store: every upload is kept as it was written, and read back
//! by owner and stream, in a fixed order.
use vstd::prelude::*;
use crate::models::sensor_data::{HealthDataRecord, StreamType};
use crate::time::Timestamp;

verus! {

/// The two orders in which records are listed.
#[derive(Debug, Clone, Copy, PartialEq, Eq, Structural)]
pub enum ListOrder {
    /// By the time of writing, the newest record first.
    NewestFirst,
    /// By the start of the window, the oldest record first.
    OldestStartFirst,
}

/// `first` may stand before `second` in the given order.
pub open spec fn in_order(first: HealthDataRecord, second: HealthDataRecord, order: ListOrder) -> bool {
    match order {
        ListOrder::NewestFirst => second.created_at.not_after(first.created_at),
        ListOrder::OldestStartFirst => first.start_time.not_after(second.start_time),
    }
}

/// Each record may stand before all that follow it.
pub open spec fn is_ordered(records: Seq<HealthDataRecord>, order: ListOrder) -> bool {
    forall|i: int, j: int| 0 <= i < j < records.len() ==> in_order(#[trigger] records[i], #[trigger] records[j], order)
}

/// The instant by which an order arranges a record.
pub open spec fn order_time(record: HealthDataRecord, order: ListOrder) -> Timestamp {
    match order {
        ListOrder::NewestFirst => record.created_at,
        ListOrder::OldestStartFirst => record.start_time,
    }
}

/// Those of the records that the order arranges by the instant `at`, in
/// their order. They are the records that tie with one another.
pub open spec fn with_time(records: Seq<HealthDataRecord>, order: ListOrder, at: Timestamp) -> Seq<HealthDataRecord>
    decreases records.len(),
{
    if records.len() == 0 {
        Seq::empty()
    } else if order_time(records.last(), order) == at {
        with_time(records.drop_last(), order, at).push(records.last())
    } else {
        with_time(records.drop_last(), order, at)
    }
}

/// An ordered sequence with one more record: it goes behind the last record
/// that may stand before it, so records that tie stay in the order in which
/// they came.
pub open spec fn placed(sorted: Seq<HealthDataRecord>, record: HealthDataRecord, order: ListOrder) -> Seq<HealthDataRecord>
    decreases sorted.len(),
{
    if sorted.len() == 0 {
        seq![record]
    } else if in_order(sorted.last(), record, order) {
        sorted.push(record)
    } else {
        placed(sorted.drop_last(), record, order).push(sorted.last())
    }
}

/// The records in the given order; those that tie keep their order.
pub open spec fn arranged(records: Seq<HealthDataRecord>, order: ListOrder) -> Seq<HealthDataRecord>
    decreases records.len(),
{
    if records.len() == 0 {
        Seq::empty()
    } else {
        placed(arranged(records.drop_last(), order), records.last(), order)
    }
}

/// The record is of that owner and that stream.
pub open spec fn belongs_to(record: HealthDataRecord, owner: u128, stream: StreamType) -> bool {
    record.user_id == owner && record.data_type == stream
}

/// The records of one owner and one stream, in the order in which they were written.
pub open spec fn selected(records: Seq<HealthDataRecord>, owner: u128, stream: StreamType) -> Seq<HealthDataRecord>
    decreases records.len(),
{
    if records.len() == 0 {
        Seq::empty()
    } else if belongs_to(records.last(), owner, stream) {
        selected(records.drop_last(), owner, stream).push(records.last())
    } else {
        selected(records.drop_last(), owner, stream)
    }
}

/// The records of one owner and one stream whose window starts within the
/// closed interval from `start` to `end`, in the order in which they were written.
pub open spec fn selected_in_range(
    records: Seq<HealthDataRecord>,
    owner: u128,
    stream: StreamType,
    start: Timestamp,
    end: Timestamp,
) -> Seq<HealthDataRecord>
    decreases records.len(),
{
    if records.len() == 0 {
        Seq::empty()
    } else if belongs_to(records.last(), owner, stream) && records.last().start_time.within(start, end) {
        selected_in_range(records.drop_last(), owner, stream, start, end).push(records.last())
    } else {
        selected_in_range(records.drop_last(), owner, stream, start, end)
    }
}

/// What `list` returns: the owner's records of the stream, newest first.
pub open spec fn listed(records: Seq<HealthDataRecord>, owner: u128, stream: StreamType) -> Seq<HealthDataRecord> {
    arranged(selected(records, owner, stream), ListOrder::NewestFirst)
}

/// What `list_in_range` returns: the owner's records of the stream that
/// start within the interval, oldest first.
pub open spec fn listed_in_range(
    records: Seq<HealthDataRecord>,
    owner: u128,
    stream: StreamType,
    start: Timestamp,
    end: Timestamp,
) -> Seq<HealthDataRecord> {
    arranged(selected_in_range(records, owner, stream, start, end), ListOrder::OldestStartFirst)
}

/// A sequence that holds one record more than another holds that record
/// and what the other holds.
proof fn lemma_holds_one_more(longer: Seq<HealthDataRecord>, shorter: Seq<HealthDataRecord>, record: HealthDataRecord)
    requires
        longer.to_multiset() == shorter.to_multiset().insert(record),
    ensures
        forall|x: HealthDataRecord| #[trigger] longer.contains(x) <==> (x == record || shorter.contains(x)),
{
    broadcast use vstd::multiset::group_multiset_axioms;
    assert forall|x: HealthDataRecord| #[trigger] longer.contains(x) <==> (x == record || shorter.contains(x)) by {
        vstd::seq_lib::to_multiset_contains(longer, x);
        vstd::seq_lib::to_multiset_contains(shorter, x);
        assert(longer.to_multiset().count(x) == shorter.to_multiset().insert(record).count(x));
    }
}

/// Two sequences that hold the same records, each as often as the other,
/// hold the same records.
proof fn lemma_holds_the_same(left: Seq<HealthDataRecord>, right: Seq<HealthDataRecord>)
    requires
        left.to_multiset() == right.to_multiset(),
    ensures
        left.len() == right.len(),
        forall|x: HealthDataRecord| #[trigger] left.contains(x) <==> right.contains(x),
{
    vstd::seq_lib::to_multiset_len(left);
    vstd::seq_lib::to_multiset_len(right);
    assert forall|x: HealthDataRecord| #[trigger] left.contains(x) <==> right.contains(x) by {
        vstd::seq_lib::to_multiset_contains(left, x);
        vstd::seq_lib::to_multiset_contains(right, x);
    }
}

/// Placing a record into an ordered sequence keeps it ordered, adds that
/// record and nothing else.
pub proof fn lemma_placed(sorted: Seq<HealthDataRecord>, record: HealthDataRecord, order: ListOrder)
    requires
        is_ordered(sorted, order),
    ensures
        is_ordered(placed(sorted, record, order), order),
        placed(sorted, record, order).len() == sorted.len() + 1,
        placed(sorted, record, order).to_multiset() == sorted.to_multiset().insert(record),
        forall|x: HealthDataRecord| #[trigger] placed(sorted, record, order).contains(x) <==> (x == record || sorted.contains(x)),
    decreases sorted.len(),
{
    let result = placed(sorted, record, order);
    if sorted.len() == 0 {
        assert(sorted =~= Seq::<HealthDataRecord>::empty());
        assert(result =~= sorted.push(record));
        sorted.to_multiset_ensures();
    } else if in_order(sorted.last(), record, order) {
        assert forall|i: int, j: int| 0 <= i < j < result.len() implies in_order(#[trigger] result[i], #[trigger] result[j], order) by {
            if j == sorted.len() {
                if i < sorted.len() - 1 {
                    assert(in_order(sorted[i], sorted[sorted.len() - 1], order));
                }
            } else {
                assert(in_order(sorted[i], sorted[j], order));
            }
        }
        sorted.to_multiset_ensures();
    } else {
        let front = sorted.drop_last();
        let last = sorted.last();
        assert forall|i: int, j: int| 0 <= i < j < front.len() implies in_order(#[trigger] front[i], #[trigger] front[j], order) by {
            assert(in_order(sorted[i], sorted[j], order));
        }
        lemma_placed(front, record, order);
        let inner = placed(front, record, order);
        assert(result == inner.push(last));
        assert(sorted =~= front.push(last));
        assert forall|i: int, j: int| 0 <= i < j < result.len() implies in_order(#[trigger] result[i], #[trigger] result[j], order) by {
            if j == inner.len() {
                assert(inner.contains(inner[i]));
                if inner[i] == record {
                    assert(in_order(record, last, order));
                } else {
                    assert(front.contains(inner[i]));
                    let k = choose|k: int| 0 <= k < front.len() && front[k] == inner[i];
                    assert(in_order(sorted[k], sorted[sorted.len() - 1], order));
                }
            } else {
                assert(in_order(inner[i], inner[j], order));
            }
        }
        inner.to_multiset_ensures();
        front.to_multiset_ensures();
        assert(result.to_multiset() =~= sorted.to_multiset().insert(record));
    }
    lemma_holds_one_more(result, sorted, record);
}

/// Placing a record moves no record past one that ties with it: the new
/// record comes last among those of its instant, and the others stay as
/// they were.
pub proof fn lemma_placed_keeps_ties(sorted: Seq<HealthDataRecord>, record: HealthDataRecord, order: ListOrder, at: Timestamp)
    requires
        is_ordered(sorted, order),
    ensures
        with_time(placed(sorted, record, order), order, at) == if order_time(record, order) == at {
            with_time(sorted, order, at).push(record)
        } else {
            with_time(sorted, order, at)
        },
    decreases sorted.len(),
{
    let result = placed(sorted, record, order);
    if sorted.len() == 0 {
        assert(result.drop_last() =~= sorted);
    } else if in_order(sorted.last(), record, order) {
        assert(result.drop_last() =~= sorted);
    } else {
        let front = sorted.drop_last();
        let last = sorted.last();
        assert forall|i: int, j: int| 0 <= i < j < front.len() implies in_order(#[trigger] front[i], #[trigger] front[j], order) by {
            assert(in_order(sorted[i], sorted[j], order));
        }
        lemma_placed_keeps_ties(front, record, order, at);
        let inner = placed(front, record, order);
        assert(result.drop_last() =~= inner);
        assert(result.last() == last);
    }
}

/// Arranging records keeps those that tie in the order in which they came.
pub proof fn lemma_arranged_keeps_ties(records: Seq<HealthDataRecord>, order: ListOrder, at: Timestamp)
    ensures
        with_time(arranged(records, order), order, at) == with_time(records, order, at),
    decreases records.len(),
{
    if records.len() > 0 {
        let front = records.drop_last();
        lemma_arranged_keeps_ties(front, order, at);
        lemma_arranged(front, order);
        lemma_placed_keeps_ties(arranged(front, order), records.last(), order, at);
    }
}

/// Arranging records puts them in order and neither adds nor drops one.
pub proof fn lemma_arranged(records: Seq<HealthDataRecord>, order: ListOrder)
    ensures
        is_ordered(arranged(records, order), order),
        arranged(records, order).len() == records.len(),
        arranged(records, order).to_multiset() == records.to_multiset(),
        forall|x: HealthDataRecord| #[trigger] arranged(records, order).contains(x) <==> records.contains(x),
    decreases records.len(),
{
    if records.len() == 0 {
        assert(records =~= Seq::<HealthDataRecord>::empty());
        assert(arranged(records, order) =~= Seq::<HealthDataRecord>::empty());
    } else {
        let front = records.drop_last();
        lemma_arranged(front, order);
        lemma_placed(arranged(front, order), records.last(), order);
        assert(records =~= front.push(records.last()));
        front.to_multiset_ensures();
    }
    lemma_holds_the_same(arranged(records, order), records);
}

/// Selecting keeps exactly the records of that owner and stream.
pub proof fn lemma_selected(records: Seq<HealthDataRecord>, owner: u128, stream: StreamType)
    ensures
        forall|x: HealthDataRecord| #[trigger] selected(records, owner, stream).contains(x) <==> (records.contains(x) && belongs_to(x, owner, stream)),
    decreases records.len(),
{
    let chosen = selected(records, owner, stream);
    if records.len() == 0 {
        assert(chosen =~= Seq::<HealthDataRecord>::empty());
    } else {
        let front = records.drop_last();
        let last = records.last();
        lemma_selected(front, owner, stream);
        let inner = selected(front, owner, stream);
        assert forall|x: HealthDataRecord| chosen.contains(x) <==> (records.contains(x) && belongs_to(x, owner, stream)) by {
            if chosen.contains(x) {
                let i = choose|i: int| 0 <= i < chosen.len() && chosen[i] == x;
                if i < inner.len() {
                    assert(inner[i] == x);
                    assert(inner.contains(x));
                    assert(front.contains(x));
                    let k = choose|k: int| 0 <= k < front.len() && front[k] == x;
                    assert(records[k] == x);
                } else {
                    assert(records[records.len() - 1] == x);
                }
            }
            if records.contains(x) && belongs_to(x, owner, stream) {
                let k = choose|k: int| 0 <= k < records.len() && records[k] == x;
                if k < front.len() {
                    assert(front[k] == x);
                    assert(front.contains(x));
                    assert(inner.contains(x));
                    let i = choose|i: int| 0 <= i < inner.len() && inner[i] == x;
                    assert(chosen[i] == x);
                } else {
                    assert(chosen[chosen.len() - 1] == x);
                }
            }
        }
    }
}

/// Selecting in a range keeps exactly the records of that owner and stream
/// whose window starts within the range.
pub proof fn lemma_selected_in_range(
    records: Seq<HealthDataRecord>,
    owner: u128,
    stream: StreamType,
    start: Timestamp,
    end: Timestamp,
)
    ensures
        forall|x: HealthDataRecord| #[trigger] selected_in_range(records, owner, stream, start, end).contains(x) <==> (records.contains(x) && belongs_to(x, owner, stream) && x.start_time.within(start, end)),
    decreases records.len(),
{
    let chosen = selected_in_range(records, owner, stream, start, end);
    if records.len() == 0 {
        assert(chosen =~= Seq::<HealthDataRecord>::empty());
    } else {
        let front = records.drop_last();
        let last = records.last();
        lemma_selected_in_range(front, owner, stream, start, end);
        let inner = selected_in_range(front, owner, stream, start, end);
        assert forall|x: HealthDataRecord| chosen.contains(x) <==> (records.contains(x) && belongs_to(x, owner, stream) && x.start_time.within(start, end)) by {
            if chosen.contains(x) {
                let i = choose|i: int| 0 <= i < chosen.len() && chosen[i] == x;
                if i < inner.len() {
                    assert(inner[i] == x);
                    assert(inner.contains(x));
                    assert(front.contains(x));
                    let k = choose|k: int| 0 <= k < front.len() && front[k] == x;
                    assert(records[k] == x);
                } else {
                    assert(records[records.len() - 1] == x);
                }
            }
            if records.contains(x) && belongs_to(x, owner, stream) && x.start_time.within(start, end) {
                let k = choose|k: int| 0 <= k < records.len() && records[k] == x;
                if k < front.len() {
                    assert(front[k] == x);
                    assert(front.contains(x));
                    assert(inner.contains(x));
                    let i = choose|i: int| 0 <= i < inner.len() && inner[i] == x;
                    assert(chosen[i] == x);
                } else {
                    assert(chosen[chosen.len() - 1] == x);
                }
            }
        }
    }
}

/// Whether `first` may stand before `second` in the given order.
fn stands_before(first: &HealthDataRecord, second: &HealthDataRecord, order: ListOrder) -> (holds: bool)
    ensures
        holds == in_order(*first, *second, order),
{
    match order {
        ListOrder::NewestFirst => second.created_at.is_not_after(&first.created_at),
        ListOrder::OldestStartFirst => first.start_time.is_not_after(&second.start_time),
    }
}

/// Puts a record into an ordered list, behind the last record that may
/// stand before it.
fn place(sorted: &mut Vec<HealthDataRecord>, record: HealthDataRecord, order: ListOrder)
    ensures
        final(sorted)@ == placed(old(sorted)@, record, order),
{
    let ghost before = sorted@;
    let mut at: usize = sorted.len();
    proof {
        assert(before.take(at as int) =~= before);
        assert(placed(before, record, order) + before.skip(at as int) =~= placed(before, record, order));
    }
    while at > 0 && !stands_before(&sorted[at - 1], &record, order)
        invariant
            at <= sorted.len(),
            sorted@ == before,
            placed(before, record, order) == placed(before.take(at as int), record, order) + before.skip(at as int),
        decreases at,
    {
        proof {
            let head = before.take(at as int);
            assert(head.drop_last() =~= before.take(at - 1));
            assert(head.last() == before[at - 1]);
            assert(placed(head, record, order) == placed(before.take(at - 1), record, order).push(before[at - 1]));
            assert(placed(before.take(at - 1), record, order).push(before[at - 1]) + before.skip(at as int)
                =~= placed(before.take(at - 1), record, order) + before.skip(at - 1));
        }
        at = at - 1;
    }
    proof {
        let head = before.take(at as int);
        assert(placed(head, record, order) =~= head.push(record));
        assert(before.insert(at as int, record) =~= head.push(record) + before.skip(at as int));
        assert(before.take(0) + before.skip(0) =~= before);
    }
    sorted.insert(at, record);
}

/// The store: the records that were put, in the order in which they came.
pub struct RecordStore {
    records: Vec<HealthDataRecord>,
}

impl View for RecordStore {
    type V = Seq<HealthDataRecord>;

    closed spec fn view(&self) -> Seq<HealthDataRecord> {
        self.records@
    }
}

impl RecordStore {
    /// A store that holds nothing.
    pub fn new() -> (store: RecordStore)
        ensures
            store@ == Seq::<HealthDataRecord>::empty(),
    {
        RecordStore { records: Vec::new() }
    }

    /// The number of records that were put.
    pub fn len(&self) -> (count: usize)
        ensures
            count == self@.len(),
    {
        self.records.len()
    }

    /// Adds a record and returns its identifier. What was stored before
    /// stays as it is.
    pub fn put(&mut self, record: HealthDataRecord) -> (id: u128)
        ensures
            final(self)@ == old(self)@.push(record),
            id == record.id,
    {
        let id = record.id;
        self.records.push(record);
        id
    }

    /// All records of one owner and one stream, newest first by the time of
    /// writing; records written at the same instant come in the order in
    /// which they were put. Each record comes back whole.
    pub fn list(&self, owner: u128, stream: StreamType) -> (found: Vec<HealthDataRecord>)
        ensures
            found@ == listed(self@, owner, stream),
            is_ordered(found@, ListOrder::NewestFirst),
            found@.to_multiset() == selected(self@, owner, stream).to_multiset(),
            forall|at: Timestamp| #[trigger]
                with_time(found@, ListOrder::NewestFirst, at) == with_time(selected(self@, owner, stream), ListOrder::NewestFirst, at),
            forall|x: HealthDataRecord| #[trigger] found@.contains(x) <==> (self@.contains(x) && belongs_to(x, owner, stream)),
    {
        let mut found: Vec<HealthDataRecord> = Vec::new();
        let mut i: usize = 0;
        while i < self.records.len()
            invariant
                i <= self.records.len(),
                found@ == arranged(selected(self.records@.take(i as int), owner, stream), ListOrder::NewestFirst),
            decreases self.records.len() - i,
        {
            proof {
                assert(self.records@.take(i + 1).drop_last() =~= self.records@.take(i as int));
            }
            let record = &self.records[i];
            if record.user_id == owner && record.data_type == stream {
                proof {
                    let chosen = selected(self.records@.take(i as int), owner, stream);
                    assert(chosen.push(*record).drop_last() =~= chosen);
                }
                place(&mut found, record.duplicate(), ListOrder::NewestFirst);
            }
            i = i + 1;
        }
        proof {
            assert(self.records@.take(i as int) =~= self.records@);
            lemma_arranged(selected(self@, owner, stream), ListOrder::NewestFirst);
            lemma_selected(self@, owner, stream);
            assert forall|at: Timestamp| #[trigger]
                with_time(found@, ListOrder::NewestFirst, at) == with_time(selected(self@, owner, stream), ListOrder::NewestFirst, at) by {
                lemma_arranged_keeps_ties(selected(self@, owner, stream), ListOrder::NewestFirst, at);
            }
            assert forall|x: HealthDataRecord| #[trigger] found@.contains(x) <==> (self@.contains(x) && belongs_to(x, owner, stream)) by {
                assert(found@.contains(x) <==> selected(self@, owner, stream).contains(x));
            }
        }
        found
    }

    /// The records of one owner and one stream whose window starts within
    /// the closed interval from `start` to `end`, oldest first by that start;
    /// records that start at the same instant come in the order in which
    /// they were put. Each record comes back whole.
    pub fn list_in_range(&self, owner: u128, stream: StreamType, start: Timestamp, end: Timestamp) -> (found: Vec<HealthDataRecord>)
        ensures
            found@ == listed_in_range(self@, owner, stream, start, end),
            is_ordered(found@, ListOrder::OldestStartFirst),
            found@.to_multiset() == selected_in_range(self@, owner, stream, start, end).to_multiset(),
            forall|at: Timestamp| #[trigger]
                with_time(found@, ListOrder::OldestStartFirst, at) == with_time(
                    selected_in_range(self@, owner, stream, start, end),
                    ListOrder::OldestStartFirst,
                    at,
                ),
            forall|x: HealthDataRecord| #[trigger] found@.contains(x) <==> (self@.contains(x) && belongs_to(x, owner, stream) && x.start_time.within(start, end)),
    {
        let mut found: Vec<HealthDataRecord> = Vec::new();
        let mut i: usize = 0;
        while i < self.records.len()
            invariant
                i <= self.records.len(),
                found@ == arranged(selected_in_range(self.records@.take(i as int), owner, stream, start, end), ListOrder::OldestStartFirst),
            decreases self.records.len() - i,
        {
            proof {
                assert(self.records@.take(i + 1).drop_last() =~= self.records@.take(i as int));
            }
            let record = &self.records[i];
            if record.user_id == owner && record.data_type == stream && record.start_time.is_within(&start, &end) {
                proof {
                    let chosen = selected_in_range(self.records@.take(i as int), owner, stream, start, end);
                    assert(chosen.push(*record).drop_last() =~= chosen);
                }
                place(&mut found, record.duplicate(), ListOrder::OldestStartFirst);
            }
            i = i + 1;
        }
        proof {
            assert(self.records@.take(i as int) =~= self.records@);
            lemma_arranged(selected_in_range(self@, owner, stream, start, end), ListOrder::OldestStartFirst);
            lemma_selected_in_range(self@, owner, stream, start, end);
            assert forall|at: Timestamp| #[trigger]
                with_time(found@, ListOrder::OldestStartFirst, at) == with_time(
                    selected_in_range(self@, owner, stream, start, end),
                    ListOrder::OldestStartFirst,
                    at,
                ) by {
                lemma_arranged_keeps_ties(selected_in_range(self@, owner, stream, start, end), ListOrder::OldestStartFirst, at);
            }
            assert forall|x: HealthDataRecord| #[trigger] found@.contains(x) <==> (self@.contains(x) && belongs_to(x, owner, stream) && x.start_time.within(start, end)) by {
                assert(found@.contains(x) <==> selected_in_range(self@, owner, stream, start, end).contains(x));
            }
        }
        found
    }
}

/// Reading changes nothing: two listings of one store, with no write between
/// them, are equal, record for record.
pub proof fn lemma_reads_repeat(
    store: RecordStore,
    owner: u128,
    stream: StreamType,
    start: Timestamp,
    end: Timestamp,
    first: Vec<HealthDataRecord>,
    second: Vec<HealthDataRecord>,
    first_in_range: Vec<HealthDataRecord>,
    second_in_range: Vec<HealthDataRecord>,
)
    requires
        first@ == listed(store@, owner, stream),
        second@ == listed(store@, owner, stream),
        first_in_range@ == listed_in_range(store@, owner, stream, start, end),
        second_in_range@ == listed_in_range(store@, owner, stream, start, end),
    ensures
        first@ == second@,
        first_in_range@ == second_in_range@,
{
}

/// A record of another owner or stream changes no listing: what one owner
/// reads of one stream depends on the records of that owner and stream alone.
pub proof fn lemma_put_elsewhere(
    stored: Seq<HealthDataRecord>,
    record: HealthDataRecord,
    owner: u128,
    stream: StreamType,
    start: Timestamp,
    end: Timestamp,
)
    requires
        !belongs_to(record, owner, stream),
    ensures
        listed(stored.push(record), owner, stream) == listed(stored, owner, stream),
        listed_in_range(stored.push(record), owner, stream, start, end) == listed_in_range(stored, owner, stream, start, end),
{
    assert(stored.push(record).drop_last() =~= stored);
}

/// A record that is put shows in every range of its owner and stream that
/// holds the start of its window, and in no other.
pub proof fn lemma_put_shows_in_range(stored: Seq<HealthDataRecord>, record: HealthDataRecord, start: Timestamp, end: Timestamp)
    ensures
        record.start_time.within(start, end) ==> listed_in_range(stored.push(record), record.user_id, record.data_type, start, end)
            == placed(
            listed_in_range(stored, record.user_id, record.data_type, start, end),
            record,
            ListOrder::OldestStartFirst,
        ),
        !record.start_time.within(start, end) ==> listed_in_range(stored.push(record), record.user_id, record.data_type, start, end)
            == listed_in_range(stored, record.user_id, record.data_type, start, end),
{
    let owner = record.user_id;
    let stream = record.data_type;
    assert(stored.push(record).drop_last() =~= stored);
    let chosen = selected_in_range(stored, owner, stream, start, end);
    assert(chosen.push(record).drop_last() =~= chosen);
}

/// A record that is put shows in the listing of its owner and stream, at the
/// place that its time of writing gives it.
pub proof fn lemma_put_shows(stored: Seq<HealthDataRecord>, record: HealthDataRecord)
    ensures
        listed(stored.push(record), record.user_id, record.data_type) == placed(
            listed(stored, record.user_id, record.data_type),
            record,
            ListOrder::NewestFirst,
        ),
        listed(stored.push(record), record.user_id, record.data_type).contains(record),
{
    let owner = record.user_id;
    let stream = record.data_type;
    assert(stored.push(record).drop_last() =~= stored);
    let chosen = selected(stored, owner, stream);
    assert(chosen.push(record).drop_last() =~= chosen);
    lemma_arranged(chosen, ListOrder::NewestFirst);
    lemma_placed(listed(stored, owner, stream), record, ListOrder::NewestFirst);
    assert(placed(listed(stored, owner, stream), record, ListOrder::NewestFirst).contains(record));
}

} // verus!
