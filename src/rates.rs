//! Priced half-hour intervals and the sorted index that answers
//! point-in-time and range queries over them.
use vstd::prelude::*;
use vstd::string::StringExecFns;
use crate::error::AppError;
use crate::time::day_of;
use crate::time::day_of_instant;

verus! {

/// One priced slot, valid over the half-open span `[valid_from, valid_to)`.
/// Prices are in millionths of a penny per kWh; instants in seconds since the epoch.
#[derive(Clone, Copy, Debug, PartialEq, Eq)]
pub struct Rate {
    pub value_inc_vat: i64,
    pub value_exc_vat: i64,
    pub valid_from: i64,
    pub valid_to: i64,
}

impl Rate {
    /// The interval holds instant `t`.
    pub open spec fn covers(self, t: int) -> bool {
        self.valid_from <= t < self.valid_to
    }

    /// The interval is not empty.
    pub open spec fn wf(self) -> bool {
        self.valid_from < self.valid_to
    }
}

/// The intervals come in ascending order of their start.
pub open spec fn sorted_by_start(s: Seq<Rate>) -> bool {
    forall|i: int, j: int| 0 <= i <= j < s.len() ==> s[i].valid_from <= s[j].valid_from
}

/// Every interval is non-empty and ends before the next one starts.
pub open spec fn non_overlapping(s: Seq<Rate>) -> bool {
    &&& forall|i: int| 0 <= i < s.len() ==> (#[trigger] s[i]).wf()
    &&& forall|i: int, j: int| 0 <= i < j < s.len() ==> s[i].valid_to <= s[j].valid_from
}

/// The number of intervals that start at or before `t`.
pub open spec fn count_started(s: Seq<Rate>, t: int) -> int
    decreases s.len(),
{
    if s.len() == 0 {
        0
    } else {
        count_started(s.drop_last(), t) + if s.last().valid_from <= t {
            1int
        } else {
            0int
        }
    }
}

/// The position of the interval that answers a lookup at `t`: the last one that
/// starts at or before `t`, provided that it has not ended by `t`.
pub open spec fn rate_index(s: Seq<Rate>, t: int) -> Option<int> {
    let p = count_started(s, t);
    if p > 0 && s[p - 1].valid_to > t {
        Some(p - 1)
    } else {
        None
    }
}

/// The interval that a lookup at `t` returns.
pub open spec fn rate_at_spec(s: Seq<Rate>, t: int) -> Option<Rate> {
    match rate_index(s, t) {
        Some(i) => Some(s[i]),
        None => None,
    }
}

/// The interval that a lookup at the end of the interval found at `t` returns.
pub open spec fn next_rate_spec(s: Seq<Rate>, t: int) -> Option<Rate> {
    match rate_at_spec(s, t) {
        Some(r) => rate_at_spec(s, r.valid_to as int),
        None => None,
    }
}

/// The intervals that start at instant `k`, in order.
pub open spec fn with_start(s: Seq<Rate>, k: i64) -> Seq<Rate> {
    s.filter(|r: Rate| r.valid_from == k)
}

/// The intervals that start on day `d`.
pub open spec fn on_day(s: Seq<Rate>, d: int) -> Seq<Rate> {
    s.filter(|r: Rate| day_of(r.valid_from as int) == d)
}

/// The intervals that start at or after `t`, in order.
pub open spec fn started_from(s: Seq<Rate>, t: int) -> Seq<Rate> {
    s.filter(|r: Rate| r.valid_from >= t)
}

/// `e` is a data error with the message `msg`.
pub open spec fn is_data_error(e: AppError, msg: Seq<char>) -> bool {
    e matches AppError::DataError(m) && m@ == msg
}

/// In a sorted sequence the intervals that start at or before `t` are exactly
/// the first `count_started(s, t)`.
pub proof fn lemma_count_started_split(s: Seq<Rate>, t: int)
    requires
        sorted_by_start(s),
    ensures
        0 <= count_started(s, t) <= s.len(),
        forall|j: int| 0 <= j < count_started(s, t) ==> s[j].valid_from <= t,
        forall|j: int| count_started(s, t) <= j < s.len() ==> s[j].valid_from > t,
    decreases s.len(),
{
    if s.len() > 0 {
        let s0 = s.drop_last();
        assert(sorted_by_start(s0));
        lemma_count_started_split(s0, t);
        let p0 = count_started(s0, t);
        let n = s.len() - 1;
        assert(forall|j: int| 0 <= j < n ==> s0[j] == s[j]);
        if s.last().valid_from <= t {
            if p0 < n {
                assert(s[p0].valid_from <= s[n].valid_from);
                assert(false);
            }
            assert(count_started(s, t) == n + 1);
        } else {
            assert(count_started(s, t) == p0);
        }
    }
}

/// A split point of a sorted sequence at `t` is `count_started(s, t)`.
proof fn lemma_split_is_count(s: Seq<Rate>, t: int, k: int)
    requires
        sorted_by_start(s),
        0 <= k <= s.len(),
        forall|j: int| 0 <= j < k ==> s[j].valid_from <= t,
        forall|j: int| k <= j < s.len() ==> s[j].valid_from > t,
    ensures
        count_started(s, t) == k,
{
    lemma_count_started_split(s, t);
    let p = count_started(s, t);
    if p < k {
        assert(s[p].valid_from > t);
    }
    if k < p {
        assert(s[k].valid_from <= t);
    }
}

/// Over intervals that do not overlap, a lookup at `t` returns the one
/// interval that holds `t`, and nothing where no interval holds it (a gap, or
/// outside the range).
pub proof fn lemma_rate_at_unique(s: Seq<Rate>, t: int)
    requires
        sorted_by_start(s),
        non_overlapping(s),
    ensures
        forall|i: int| 0 <= i < s.len() && s[i].covers(t) ==> rate_index(s, t) == Some(i),
        rate_index(s, t) is None <==> forall|i: int| 0 <= i < s.len() ==> !s[i].covers(t),
        rate_index(s, t) matches Some(i) ==> 0 <= i < s.len() && s[i].covers(t),
{
    lemma_count_started_split(s, t);
    let p = count_started(s, t);
    assert forall|i: int| 0 <= i < s.len() && s[i].covers(t) implies rate_index(s, t) == Some(i) by {
        assert(i < p);
        if i < p - 1 {
            assert(s[i].valid_to <= s[p - 1].valid_from);
        }
    }
}

/// Over intervals that do not overlap, the interval after the one at `t`
/// starts exactly where that one ends; where none starts there, there is none.
pub proof fn lemma_next_rate_at_boundary(s: Seq<Rate>, t: int)
    requires
        sorted_by_start(s),
        non_overlapping(s),
    ensures
        rate_at_spec(s, t) is None ==> next_rate_spec(s, t) is None,
        next_rate_spec(s, t) matches Some(n) ==> rate_at_spec(s, t) matches Some(c) && n.valid_from
            == c.valid_to,
        (rate_at_spec(s, t) matches Some(c) && forall|j: int|
            0 <= j < s.len() ==> s[j].valid_from != c.valid_to) ==> next_rate_spec(s, t) is None,
        (rate_at_spec(s, t) matches Some(c) && exists|j: int|
            0 <= j < s.len() && s[j].valid_from == c.valid_to) ==> next_rate_spec(s, t) is Some,
{
    lemma_rate_at_unique(s, t);
    if let Some(i) = rate_index(s, t) {
        let b = s[i].valid_to as int;
        lemma_rate_at_unique(s, b);
        if let Some(j) = rate_index(s, b) {
            if j < i {
                assert(s[j].valid_to <= s[i].valid_from);
            } else if i < j {
                assert(s[i].valid_to <= s[j].valid_from);
            }
        }
        if exists|j: int| 0 <= j < s.len() && s[j].valid_from == b {
            let j = choose|j: int| 0 <= j < s.len() && s[j].valid_from == b;
            assert(s[j].wf());
            assert(s[j].covers(b));
        }
    }
}

/// An interval that ends exactly at the midnight that starts day `d`, and is
/// no longer than a day, belongs to day `d - 1` and not to day `d`.
pub proof fn lemma_midnight_end_attribution(s: Seq<Rate>, i: int, d: int)
    requires
        0 <= i < s.len(),
        s[i].wf(),
        s[i].valid_to == d * 86400,
        s[i].valid_to - s[i].valid_from <= 86400,
    ensures
        !on_day(s, d).contains(s[i]),
        on_day(s, d - 1).contains(s[i]),
{
    let r = s[i];
    assert(day_of(r.valid_from as int) == d - 1) by (nonlinear_arith)
        requires
            (d - 1) * 86400 <= r.valid_from < d * 86400,
    {
        vstd::arithmetic::div_mod::lemma_fundamental_div_mod_converse(
            r.valid_from as int,
            86400,
            d - 1,
            r.valid_from - (d - 1) * 86400,
        );
    }
    broadcast use vstd::seq_lib::group_filter_ensures;
    let pd = |x: Rate| day_of(x.valid_from as int) == d;
    let pe = |x: Rate| day_of(x.valid_from as int) == d - 1;
    assert(s.filter(pe).contains(r));
    if s.filter(pd).contains(r) {
        let k = choose|k: int| 0 <= k < s.filter(pd).len() && s.filter(pd)[k] == r;
        assert(pd(s.filter(pd)[k]));
    }
}

/// Each interval belongs to exactly one day: the day on which it starts.
pub proof fn lemma_days_partition(s: Seq<Rate>, i: int, d: int)
    requires
        0 <= i < s.len(),
    ensures
        on_day(s, d).contains(s[i]) <==> d == day_of(s[i].valid_from as int),
{
    broadcast use vstd::seq_lib::group_filter_ensures;
    let pd = |x: Rate| day_of(x.valid_from as int) == d;
    if s.filter(pd).contains(s[i]) {
        let k = choose|k: int| 0 <= k < s.filter(pd).len() && s.filter(pd)[k] == s[i];
        assert(pd(s.filter(pd)[k]));
    }
    if d == day_of(s[i].valid_from as int) {
        assert(pd(s[i]));
    }
}

/// Relies on slice::sort_by_key (std): the same items, ascending by the key;
/// the sort is stable, so items with equal keys keep their order.
#[verifier::external_body]
fn sort_by_start(v: &mut Vec<Rate>)
    ensures
        final(v)@.to_multiset() == old(v)@.to_multiset(),
        final(v)@.len() == old(v)@.len(),
        sorted_by_start(final(v)@),
        forall|k: i64| #[trigger] with_start(final(v)@, k) == with_start(old(v)@, k),
{
    v.sort_by_key(|r| r.valid_from)
}

/// An immutable index of rate intervals, sorted ascending by start. Gaps
/// between intervals are allowed; overlaps are not checked.
#[derive(Debug, PartialEq)]
pub struct Rates {
    data: Vec<Rate>,
}

impl Clone for Rates {
    fn clone(&self) -> (r: Self)
        ensures
            r@ == self@,
    {
        proof {
            use_type_invariant(self);
        }
        let mut data: Vec<Rate> = Vec::new();
        let mut i: usize = 0;
        while i < self.data.len()
            invariant
                i <= self.data@.len(),
                data@ == self.data@.subrange(0, i as int),
            decreases self.data@.len() - i,
        {
            data.push(self.data[i]);
            i += 1;
            assert(data@ =~= self.data@.subrange(0, i as int));
        }
        assert(data@ =~= self.data@);
        Rates { data }
    }
}

impl View for Rates {
    type V = Seq<Rate>;

    closed spec fn view(&self) -> Seq<Rate> {
        self.data@
    }
}

impl Rates {
    #[verifier::type_invariant]
    spec fn inv(&self) -> bool {
        sorted_by_start(self.data@)
    }

    /// Builds the index from `data`, sorted by start; nothing is dropped or
    /// checked, and intervals with equal starts keep their order.
    pub fn new(data: Vec<Rate>) -> (r: Self)
        ensures
            r@.to_multiset() == data@.to_multiset(),
            r@.len() == data@.len(),
            sorted_by_start(r@),
            forall|k: i64| #[trigger] with_start(r@, k) == with_start(data@, k),
    {
        let mut data = data;
        sort_by_start(&mut data);
        Rates { data }
    }

    /// The intervals, in index order.
    pub fn rates(&self) -> (r: &Vec<Rate>)
        ensures
            r@ == self@,
            sorted_by_start(self@),
    {
        proof {
            use_type_invariant(self);
        }
        &self.data
    }

    pub fn is_empty(&self) -> (r: bool)
        ensures
            r == (self@.len() == 0),
    {
        self.data.len() == 0
    }

    pub fn len(&self) -> (r: usize)
        ensures
            r == self@.len(),
    {
        self.data.len()
    }

    /// The interval valid at `time`: the last one that starts at or before
    /// `time`, if it has not ended by then; none inside a gap or out of range.
    pub fn rate_at(&self, time: i64) -> (r: Option<&Rate>)
        ensures
            match r {
                Some(x) => rate_at_spec(self@, time as int) == Some(*x),
                None => rate_at_spec(self@, time as int) is None,
            },
    {
        proof {
            use_type_invariant(self);
        }
        let mut lo: usize = 0;
        let mut hi: usize = self.data.len();
        while lo < hi
            invariant
                sorted_by_start(self.data@),
                0 <= lo <= hi <= self.data@.len(),
                forall|j: int| 0 <= j < lo ==> self.data@[j].valid_from <= time,
                forall|j: int| hi <= j < self.data@.len() ==> self.data@[j].valid_from > time,
            decreases hi - lo,
        {
            let mid = lo + (hi - lo) / 2;
            if self.data[mid].valid_from <= time {
                proof {
                    assert forall|j: int| 0 <= j <= mid implies self.data@[j].valid_from <= time by {
                        assert(self.data@[j].valid_from <= self.data@[mid as int].valid_from);
                    }
                }
                lo = mid + 1;
            } else {
                proof {
                    assert forall|j: int| mid <= j < self.data@.len() implies self.data@[j].valid_from
                        > time by {
                        assert(self.data@[mid as int].valid_from <= self.data@[j].valid_from);
                    }
                }
                hi = mid;
            }
        }
        proof {
            lemma_split_is_count(self.data@, time as int, lo as int);
        }
        if lo == 0 {
            return None;
        }
        let rate = &self.data[lo - 1];
        if rate.valid_to > time {
            Some(rate)
        } else {
            None
        }
    }

    /// The interval that starts where the interval valid at `time` ends.
    pub fn next_rate(&self, time: i64) -> (r: Option<&Rate>)
        ensures
            match r {
                Some(x) => next_rate_spec(self@, time as int) == Some(*x),
                None => next_rate_spec(self@, time as int) is None,
            },
    {
        match self.rate_at(time) {
            Some(current) => self.rate_at(current.valid_to),
            None => None,
        }
    }

    /// The interval valid at `now`; a data error where none is.
    pub fn current_rate(&self, now: i64) -> (r: Result<&Rate, AppError>)
        ensures
            match r {
                Ok(x) => rate_at_spec(self@, now as int) == Some(*x),
                Err(e) => rate_at_spec(self@, now as int) is None && is_data_error(
                    e,
                    "No current rate found"@,
                ),
            },
    {
        match self.rate_at(now) {
            Some(rate) => Ok(rate),
            None => Err(AppError::DataError(String::from_str("No current rate found"))),
        }
    }

    /// The price of the interval valid at `now`; a data error where none is.
    pub fn current_price(&self, now: i64) -> (r: Result<i64, AppError>)
        ensures
            match r {
                Ok(p) => rate_at_spec(self@, now as int) matches Some(x) && x.value_inc_vat == p,
                Err(e) => rate_at_spec(self@, now as int) is None && is_data_error(
                    e,
                    "No current rate found"@,
                ),
            },
    {
        match self.current_rate(now) {
            Ok(rate) => Ok(rate.value_inc_vat),
            Err(e) => Err(e),
        }
    }

    /// The price of the interval after the one valid at `now`; a data error
    /// where there is none.
    pub fn next_price(&self, now: i64) -> (r: Result<i64, AppError>)
        ensures
            match r {
                Ok(p) => next_rate_spec(self@, now as int) matches Some(x) && x.value_inc_vat == p,
                Err(e) => next_rate_spec(self@, now as int) is None && is_data_error(
                    e,
                    "No next rate found"@,
                ),
            },
    {
        match self.next_rate(now) {
            Some(rate) => Ok(rate.value_inc_vat),
            None => Err(AppError::DataError(String::from_str("No next rate found"))),
        }
    }

    /// The intervals that start at or after `from`, in index order.
    pub fn filter_from(&self, from: i64) -> (r: Vec<Rate>)
        ensures
            r@ == started_from(self@, from as int),
    {
        let mut out: Vec<Rate> = Vec::new();
        let mut i: usize = 0;
        while i < self.data.len()
            invariant
                i <= self.data@.len(),
                out@ == started_from(self.data@.subrange(0, i as int), from as int),
            decreases self.data@.len() - i,
        {
            let r = self.data[i];
            proof {
                assert(self.data@.subrange(0, i as int + 1).drop_last() =~= self.data@.subrange(
                    0,
                    i as int,
                ));
            }
            let ghost prefix = self.data@.subrange(0, i as int + 1);
            assert(prefix.last() == r);
            proof {
                reveal(Seq::filter);
            }
            if r.valid_from >= from {
                out.push(r);
            }
            assert(out@ == started_from(self.data@.subrange(0, i as int + 1), from as int));
            i += 1;
        }
        assert(self.data@.subrange(0, self.data@.len() as int) =~= self.data@);
        out
    }

    /// The intervals that start on calendar day `day` (UTC): an interval that
    /// ends at midnight belongs to the day before it.
    pub fn filter_for_calendar_day(&self, day: i64) -> (r: Vec<Rate>)
        ensures
            r@ == on_day(self@, day as int),
    {
        let mut out: Vec<Rate> = Vec::new();
        let mut i: usize = 0;
        while i < self.data.len()
            invariant
                i <= self.data@.len(),
                out@ == on_day(self.data@.subrange(0, i as int), day as int),
            decreases self.data@.len() - i,
        {
            let r = self.data[i];
            proof {
                assert(self.data@.subrange(0, i as int + 1).drop_last() =~= self.data@.subrange(
                    0,
                    i as int,
                ));
            }
            let ghost prefix = self.data@.subrange(0, i as int + 1);
            assert(prefix.last() == r);
            proof {
                reveal(Seq::filter);
            }
            if day_of_instant(r.valid_from) == day {
                out.push(r);
            }
            assert(out@ == on_day(self.data@.subrange(0, i as int + 1), day as int));
            i += 1;
        }
        assert(self.data@.subrange(0, self.data@.len() as int) =~= self.data@);
        out
    }

    /// The intervals that start on the calendar day (UTC) that holds `now`.
    pub fn filter_for_today(&self, now: i64) -> (r: Vec<Rate>)
        ensures
            r@ == on_day(self@, day_of(now as int)),
    {
        let today = day_of_instant(now);
        self.filter_for_calendar_day(today)
    }
}

} // verus!
