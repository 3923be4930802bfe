use std::collections::VecDeque;

use vstd::prelude::*;

verus! {

/// Points of history kept per metric for averages: ten minutes at one poll a second.
pub const HISTORY_LEN: usize = 600;

/// Points kept per metric for drawing.
pub const GRAPH_LEN: usize = 100;

/// Larger of two readings.
pub open spec fn max_reading(a: i64, b: i64) -> i64 {
    if a >= b {
        a
    } else {
        b
    }
}

/// What a rolling series holds: the retained points, oldest first, the fixed
/// capacity, and the high-water mark of every value ever pushed.
pub struct SeriesView {
    pub points: Seq<i64>,
    pub capacity: nat,
    pub maximum_value: Option<i64>,
}

/// A series that has seen no value yet.
pub open spec fn empty_series(capacity: nat) -> SeriesView {
    SeriesView { points: Seq::empty(), capacity, maximum_value: None }
}

/// The series after one push: the value goes to the newest end, the oldest
/// point leaves when the capacity is exceeded, and the mark rises to the value.
pub open spec fn series_push(s: SeriesView, value: i64) -> SeriesView {
    let grown = s.points.push(value);
    SeriesView {
        points: if grown.len() > s.capacity {
            grown.drop_first()
        } else {
            grown
        },
        capacity: s.capacity,
        maximum_value: match s.maximum_value {
            Some(m) => Some(max_reading(m, value)),
            None => Some(value),
        },
    }
}

/// The series after pushing each value in order.
pub open spec fn series_push_all(s: SeriesView, values: Seq<i64>) -> SeriesView
    decreases values.len(),
{
    if values.len() == 0 {
        s
    } else {
        series_push(series_push_all(s, values.drop_last()), values.last())
    }
}

/// Largest value of a non-empty sequence.
pub open spec fn seq_max(values: Seq<i64>) -> i64
    recommends
        values.len() > 0,
    decreases values.len(),
{
    if values.len() <= 1 {
        values[0]
    } else {
        max_reading(seq_max(values.drop_last()), values.last())
    }
}

/// A bounded time series of one scalar metric, in thousandths of its unit.
#[derive(Debug, Clone)]
pub struct RollingSeries {
    points: VecDeque<i64>,
    capacity: usize,
    maximum_value: Option<i64>,
}

impl View for RollingSeries {
    type V = SeriesView;

    closed spec fn view(&self) -> SeriesView {
        SeriesView {
            points: self.points@,
            capacity: self.capacity as nat,
            maximum_value: self.maximum_value,
        }
    }
}

impl RollingSeries {
    /// An empty series that retains at most `capacity` points.
    pub fn new(capacity: usize) -> (r: RollingSeries)
        ensures
            r@ == empty_series(capacity as nat),
    {
        RollingSeries { points: VecDeque::new(), capacity, maximum_value: None }
    }

    /// Appends a value at the newest end, evicting the oldest point when the
    /// capacity would be exceeded, and raises the high-water mark.
    pub fn push(&mut self, value: i64)
        ensures
            final(self)@ == series_push(old(self)@, value),
    {
        self.points.push_back(value);
        if self.points.len() > self.capacity {
            self.points.pop_front();
        }
        self.maximum_value = match self.maximum_value {
            Some(m) => Some(if m >= value {
                m
            } else {
                value
            }),
            None => Some(value),
        };
    }

    /// Number of retained points.
    pub fn len(&self) -> (r: usize)
        ensures
            r == self@.points.len(),
    {
        self.points.len()
    }

    /// The capacity fixed at construction.
    pub fn capacity(&self) -> (r: usize)
        ensures
            r == self@.capacity,
    {
        self.capacity
    }

    /// The largest value ever pushed, if any was.
    pub fn maximum_value(&self) -> (r: Option<i64>)
        ensures
            r == self@.maximum_value,
    {
        self.maximum_value
    }

    /// The newest retained point.
    pub fn latest(&self) -> (r: Option<i64>)
        ensures
            self@.points.len() == 0 ==> r.is_none(),
            self@.points.len() > 0 ==> r == Some(self@.points.last()),
    {
        let n = self.points.len();
        if n == 0 {
            None
        } else {
            Some(self.points[n - 1])
        }
    }

    /// The retained points, oldest first.
    pub fn points(&self) -> (r: Vec<i64>)
        ensures
            r@ == self@.points,
    {
        let mut out: Vec<i64> = Vec::new();
        let n = self.points.len();
        let mut i: usize = 0;
        while i < n
            invariant
                n == self@.points.len(),
                i <= n,
                out@ == self@.points.subrange(0, i as int),
            decreases n - i,
        {
            out.push(self.points[i]);
            i = i + 1;
            assert(out@ =~= self@.points.subrange(0, i as int));
        }
        assert(out@ =~= self@.points);
        out
    }
}

/// However many values are pushed into a series, it retains the smaller of
/// that number and its capacity.
pub proof fn lemma_bounded_growth(capacity: nat, values: Seq<i64>)
    ensures
        series_push_all(empty_series(capacity), values).points.len() == if values.len()
            <= capacity {
            values.len()
        } else {
            capacity
        },
        series_push_all(empty_series(capacity), values).capacity == capacity,
    decreases values.len(),
{
    if values.len() > 0 {
        lemma_bounded_growth(capacity, values.drop_last());
    }
}

/// After one or more pushes the high-water mark is the largest value pushed,
/// and pushing more values never lowers it.
pub proof fn lemma_high_water_mark(capacity: nat, values: Seq<i64>, k: nat)
    requires
        0 < k <= values.len(),
    ensures
        series_push_all(empty_series(capacity), values).maximum_value == Some(seq_max(values)),
        series_push_all(empty_series(capacity), values.subrange(0, k as int)).maximum_value->0
            <= series_push_all(empty_series(capacity), values).maximum_value->0,
    decreases values.len(),
{
    lemma_mark_is_max(capacity, values);
    lemma_mark_is_max(capacity, values.subrange(0, k as int));
    lemma_prefix_max(values, k);
}

proof fn lemma_mark_is_max(capacity: nat, values: Seq<i64>)
    ensures
        values.len() > 0 ==> series_push_all(empty_series(capacity), values).maximum_value
            == Some(seq_max(values)),
        values.len() == 0 ==> series_push_all(empty_series(capacity), values).maximum_value
            is None,
    decreases values.len(),
{
    if values.len() > 0 {
        lemma_mark_is_max(capacity, values.drop_last());
    }
}

proof fn lemma_prefix_max(values: Seq<i64>, k: nat)
    requires
        0 < k <= values.len(),
    ensures
        seq_max(values.subrange(0, k as int)) <= seq_max(values),
    decreases values.len(),
{
    if k < values.len() {
        lemma_prefix_max(values.drop_last(), k);
        assert(values.drop_last().subrange(0, k as int) =~= values.subrange(0, k as int));
    } else {
        assert(values.subrange(0, k as int) =~= values);
    }
}

} // verus!
