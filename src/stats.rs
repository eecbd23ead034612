//! Aggregates over a rate index: overall and per-day statistics, the cheapest
//! slot in a window, and prices grouped by half-hour of the day.
use vstd::prelude::*;
use vstd::string::StringExecFns;
use crate::error::AppError;
use crate::rates::is_data_error;
use crate::rates::next_rate_spec;
use crate::rates::on_day;
use crate::rates::rate_at_spec;
use crate::rates::Rate;
use crate::rates::Rates;
use crate::text::price_range;
use crate::text::price_range_text;
use crate::time::day_of;
use crate::time::day_of_instant;
use crate::time::floor_div_wide;
use crate::time::minute_label;
use crate::time::minute_label_text;
use crate::time::SLOTS_PER_DAY;
use crate::time::slot_of_day;
use crate::time::slot_of_instant;

verus! {

/// Statistics over the whole index, with the prices at a reference instant.
/// Prices are in millionths of a penny.
#[derive(Debug, Clone, PartialEq)]
pub struct PriceStats {
    pub min: i64,
    pub max: i64,
    /// The mean, rounded down.
    pub avg: i64,
    /// The price at the reference instant, 0 where no interval holds it.
    pub current: i64,
    /// The price of the interval after that one, 0 where there is none.
    pub next: i64,
    /// `min` and `max` as text, as `15.50p - 20.30p`.
    pub price_range: String,
}

/// Statistics over the intervals of one calendar day.
#[derive(Debug, Clone, PartialEq)]
pub struct DayStats {
    pub min: i64,
    pub max: i64,
    /// The mean, rounded down.
    pub avg: i64,
    pub count: usize,
    pub price_range: String,
}

/// Today's statistics, tomorrow's where published, and the current and next prices.
#[derive(Debug, Clone, PartialEq)]
pub struct DailyStats {
    pub today: DayStats,
    pub tomorrow: Option<DayStats>,
    pub current: Option<i64>,
    pub next: Option<i64>,
}

/// The sum of the prices (including tax).
pub open spec fn total(s: Seq<Rate>) -> int
    decreases s.len(),
{
    if s.len() == 0 {
        0
    } else {
        total(s.drop_last()) + s.last().value_inc_vat
    }
}

/// The least price; 0 for no intervals.
pub open spec fn min_price(s: Seq<Rate>) -> int
    decreases s.len(),
{
    if s.len() == 0 {
        0
    } else if s.len() == 1 {
        s[0].value_inc_vat as int
    } else {
        let m = min_price(s.drop_last());
        if s.last().value_inc_vat < m {
            s.last().value_inc_vat as int
        } else {
            m
        }
    }
}

/// The greatest price; 0 for no intervals.
pub open spec fn max_price(s: Seq<Rate>) -> int
    decreases s.len(),
{
    if s.len() == 0 {
        0
    } else if s.len() == 1 {
        s[0].value_inc_vat as int
    } else {
        let m = max_price(s.drop_last());
        if s.last().value_inc_vat > m {
            s.last().value_inc_vat as int
        } else {
            m
        }
    }
}

/// The mean price, rounded down.
pub open spec fn average(s: Seq<Rate>) -> int {
    total(s) / (s.len() as int)
}

/// The price of an interval that may be absent, 0 where it is.
pub open spec fn price_or_zero(r: Option<Rate>) -> int {
    match r {
        Some(x) => x.value_inc_vat as int,
        None => 0,
    }
}

/// The price of an interval that may be absent.
pub open spec fn price_of(r: Option<Rate>) -> Option<i64> {
    match r {
        Some(x) => Some(x.value_inc_vat),
        None => None,
    }
}

/// `st` holds the statistics of the non-empty sequence `s`.
pub open spec fn describes_day(st: DayStats, s: Seq<Rate>) -> bool {
    &&& st.min == min_price(s)
    &&& st.max == max_price(s)
    &&& st.avg == average(s)
    &&& st.count == s.len()
    &&& st.price_range@ == price_range_text(st.min as int, st.max as int)
}

/// `st` holds the statistics of the index `s` at instant `t`.
pub open spec fn describes_index(st: PriceStats, s: Seq<Rate>, t: int) -> bool {
    &&& st.min == min_price(s)
    &&& st.max == max_price(s)
    &&& st.avg == average(s)
    &&& st.current == price_or_zero(rate_at_spec(s, t))
    &&& st.next == price_or_zero(next_rate_spec(s, t))
    &&& st.price_range@ == price_range_text(st.min as int, st.max as int)
}

/// What `stats_at` returns for the index `s` at instant `t`.
pub open spec fn stats_outcome(r: Result<PriceStats, AppError>, s: Seq<Rate>, t: int) -> bool {
    match r {
        Ok(st) => describes_index(st, s, t),
        Err(e) => is_data_error(e, "No data available"@),
    }
}

/// The interval starts in the window `[from, end)`.
pub open spec fn in_window(r: Rate, from: int, end: int) -> bool {
    from <= r.valid_from < end
}

/// Position `k` holds the cheapest interval of the window, and the first of
/// the cheapest in index order.
pub open spec fn is_cheapest(s: Seq<Rate>, from: int, end: int, k: int) -> bool {
    &&& 0 <= k < s.len()
    &&& in_window(s[k], from, end)
    &&& forall|j: int|
        0 <= j < s.len() && in_window(s[j], from, end) ==> s[k].value_inc_vat <= s[j].value_inc_vat
    &&& forall|j: int|
        0 <= j < k && in_window(s[j], from, end) ==> s[k].value_inc_vat < s[j].value_inc_vat
}

/// The prices of the intervals that start in half-hour slot `k` of their day, in order.
pub open spec fn slot_prices(s: Seq<Rate>, k: int) -> Seq<i64>
    decreases s.len(),
{
    if s.len() == 0 {
        Seq::empty()
    } else if slot_of_day(s.last().valid_from as int) == k {
        slot_prices(s.drop_last(), k).push(s.last().value_inc_vat)
    } else {
        slot_prices(s.drop_last(), k)
    }
}

/// `x` and `y` label and price the intervals of `s` one for one.
pub open spec fn describes_series(x: Seq<String>, y: Seq<i64>, s: Seq<Rate>) -> bool {
    &&& x.len() == s.len()
    &&& y.len() == s.len()
    &&& forall|i: int| 0 <= i < s.len() ==> (#[trigger] x[i])@ == minute_label(s[i].valid_from)
    &&& forall|i: int| 0 <= i < s.len() ==> #[trigger] y[i] == s[i].value_inc_vat
}

/// What `series_data` returns for the intervals `s` of a day.
pub open spec fn series_outcome(r: Result<(Vec<String>, Vec<i64>), AppError>, s: Seq<Rate>) -> bool {
    match r {
        Ok(xy) => s.len() > 0 && describes_series(xy.0@, xy.1@, s),
        Err(e) => s.len() == 0 && is_data_error(e, "No rates for today"@),
    }
}

/// What `daily_stats_at` returns for the index `s` at instant `t`: an error
/// exactly where the day of `t` has no intervals.
pub open spec fn daily_outcome(r: Result<DailyStats, AppError>, s: Seq<Rate>, t: int) -> bool {
    &&& (r is Err <==> on_day(s, day_of(t)).len() == 0)
    &&& match r {
        Ok(ds) => {
            &&& describes_day(ds.today, on_day(s, day_of(t)))
            &&& (ds.tomorrow is None <==> on_day(s, day_of(t) + 1).len() == 0)
            &&& (ds.tomorrow matches Some(st) ==> describes_day(st, on_day(s, day_of(t) + 1)))
            &&& ds.current == price_of(rate_at_spec(s, t))
            &&& ds.next == price_of(next_rate_spec(s, t))
        },
        Err(e) => is_data_error(e, "No data for today"@),
    }
}

/// The least and greatest prices bound every price, and the total.
proof fn lemma_price_bounds(s: Seq<Rate>)
    requires
        s.len() > 0,
    ensures
        forall|i: int| 0 <= i < s.len() ==> min_price(s) <= #[trigger] s[i].value_inc_vat <= max_price(s),
        s.len() * min_price(s) <= total(s) <= s.len() * max_price(s),
        i64::MIN <= min_price(s) <= max_price(s) <= i64::MAX,
    decreases s.len(),
{
    let s0 = s.drop_last();
    if s.len() > 1 {
        lemma_price_bounds(s0);
        assert(forall|i: int| 0 <= i < s0.len() ==> s0[i] == s[i]);
        let n0 = s0.len() as int;
        let (m0, x0, t0) = (min_price(s0), max_price(s0), total(s0));
        let (m, x, v) = (min_price(s), max_price(s), s.last().value_inc_vat as int);
        assert(s.len() * m <= total(s) <= s.len() * x) by (nonlinear_arith)
            requires
                n0 * m0 <= t0 <= n0 * x0,
                m <= m0,
                x >= x0,
                m <= v <= x,
                n0 >= 1,
                total(s) == t0 + v,
                s.len() == n0 + 1;
    } else {
        assert(total(s0) == 0);
    }
}

/// The mean price lies between the least and the greatest.
pub proof fn lemma_average_between(s: Seq<Rate>)
    requires
        s.len() > 0,
    ensures
        min_price(s) <= average(s) <= max_price(s),
{
    lemma_price_bounds(s);
    let n = s.len() as int;
    vstd::arithmetic::div_mod::lemma_fundamental_div_mod(total(s), n);
    let q = total(s) / n;
    let r = total(s) % n;
    assert(min_price(s) <= q <= max_price(s)) by (nonlinear_arith)
        requires
            n * min_price(s) <= total(s) <= n * max_price(s),
            total(s) == n * q + r,
            0 <= r < n;
}

/// The least, greatest and mean prices of a non-empty sequence.
fn summarize(v: &Vec<Rate>) -> (r: (i64, i64, i64))
    requires
        v@.len() > 0,
    ensures
        r.0 == min_price(v@),
        r.1 == max_price(v@),
        r.2 == average(v@),
{
    let first = v[0].value_inc_vat;
    let mut lo: i64 = first;
    let mut hi: i64 = first;
    let mut sum: i128 = first as i128;
    let mut i: usize = 1;
    assert(v@.subrange(0, 1).drop_last() =~= Seq::<Rate>::empty());
    assert(total(v@.subrange(0, 1)) == total(Seq::<Rate>::empty()) + first);
    while i < v.len()
        invariant
            1 <= i <= v@.len(),
            lo == min_price(v@.subrange(0, i as int)),
            hi == max_price(v@.subrange(0, i as int)),
            sum == total(v@.subrange(0, i as int)),
            (i as int) * (i64::MIN as int) <= sum <= (i as int) * (i64::MAX as int),
        decreases v@.len() - i,
    {
        let x = v[i].value_inc_vat;
        proof {
            assert(v@.subrange(0, i as int + 1).drop_last() =~= v@.subrange(0, i as int));
            assert((i as int + 1) * (i64::MIN as int) <= sum + x <= (i as int + 1) * (i64::MAX as int)
                && i128::MIN < (i as int + 1) * (i64::MIN as int) && (i as int + 1) * (i64::MAX as int)
                < i128::MAX) by (nonlinear_arith)
                requires
                    (i as int) * (i64::MIN as int) <= sum <= (i as int) * (i64::MAX as int),
                    i64::MIN <= x <= i64::MAX,
                    i < v@.len() <= usize::MAX;
        }
        if x < lo {
            lo = x;
        }
        if x > hi {
            hi = x;
        }
        sum = sum + x as i128;
        i += 1;
    }
    assert(v@.subrange(0, v@.len() as int) =~= v@);
    proof {
        lemma_average_between(v@);
    }
    let avg = floor_div_wide(sum, v.len() as i128);
    (lo, hi, avg as i64)
}

/// The statistics of a non-empty sequence of intervals.
fn day_stats_of(v: &Vec<Rate>) -> (r: DayStats)
    requires
        v@.len() > 0,
    ensures
        describes_day(r, v@),
{
    let (min, max, avg) = summarize(v);
    DayStats { min, max, avg, count: v.len(), price_range: price_range(min, max) }
}

impl Rates {
    /// Least, greatest and mean price over the whole index, with the prices
    /// at `time` and after it (0 where there is none); an error where the
    /// index is empty.
    pub fn stats_at(&self, time: i64) -> (r: Result<PriceStats, AppError>)
        ensures
            r is Err <==> self@.len() == 0,
            stats_outcome(r, self@, time as int),
            r matches Ok(st) ==> st.min <= st.avg <= st.max,
    {
        let v = self.rates();
        if v.len() == 0 {
            return Err(AppError::DataError(String::from_str("No data available")));
        }
        proof {
            lemma_average_between(v@);
        }
        let (min, max, avg) = summarize(v);
        let current = match self.rate_at(time) {
            Some(r) => r.value_inc_vat,
            None => 0,
        };
        let next = match self.next_rate(time) {
            Some(r) => r.value_inc_vat,
            None => 0,
        };
        Ok(PriceStats { min, max, avg, current, next, price_range: price_range(min, max) })
    }

    /// Statistics of the intervals that start on calendar day `day`; none
    /// where there are no such intervals.
    pub fn stats_for_calendar_day(&self, day: i64) -> (r: Option<DayStats>)
        ensures
            r is None <==> on_day(self@, day as int).len() == 0,
            r matches Some(st) ==> describes_day(st, on_day(self@, day as int)),
    {
        let v = self.filter_for_calendar_day(day);
        if v.len() == 0 {
            None
        } else {
            Some(day_stats_of(&v))
        }
    }

    /// Statistics of the day that holds `time` (required: an error where it
    /// has no intervals) and of the next day (absent until published), with
    /// the prices at `time` and after it.
    pub fn daily_stats_at(&self, time: i64) -> (r: Result<DailyStats, AppError>)
        ensures
            daily_outcome(r, self@, time as int),
    {
        let today = day_of_instant(time);
        assert(today + 1 <= i64::MAX) by (nonlinear_arith)
            requires
                today == time as int / 86400,
                time <= i64::MAX;
        let today_stats = match self.stats_for_calendar_day(today) {
            Some(st) => st,
            None => {
                return Err(AppError::DataError(String::from_str("No data for today")));
            },
        };
        let tomorrow = self.stats_for_calendar_day(today + 1);
        let current = match self.rate_at(time) {
            Some(r) => Some(r.value_inc_vat),
            None => None,
        };
        let next = match self.next_rate(time) {
            Some(r) => Some(r.value_inc_vat),
            None => None,
        };
        Ok(DailyStats { today: today_stats, tomorrow, current, next })
    }
    /// The start of the cheapest interval among those that start in
    /// `[from, from + duration)`; the earliest of equally cheap ones; none
    /// where no interval starts in the window.
    pub fn cheapest_in_window(&self, from: i64, duration: i64) -> (r: Option<i64>)
        ensures
            r is None <==> forall|i: int| 0 <= i < self@.len() ==> !in_window(
                #[trigger] self@[i],
                from as int,
                from + duration,
            ),
            r matches Some(t) ==> exists|k: int|
                is_cheapest(self@, from as int, from + duration, k) && t == self@[k].valid_from,
    {
        let v = self.rates();
        let end: i128 = from as i128 + duration as i128;
        let mut best: Option<usize> = None;
        let mut i: usize = 0;
        while i < v.len()
            invariant
                i <= v@.len(),
                v@ == self@,
                end == from + duration,
                best is None ==> forall|j: int| 0 <= j < i ==> !in_window(#[trigger] v@[j], from as int, end as int),
                best matches Some(k) ==> k < i && is_cheapest(v@.subrange(0, i as int), from as int, end as int, k as int),
            decreases v@.len() - i,
        {
            let r = v[i];
            if from <= r.valid_from && (r.valid_from as i128) < end {
                match best {
                    None => {
                        best = Some(i);
                    },
                    Some(k) => {
                        if r.value_inc_vat < v[k].value_inc_vat {
                            best = Some(i);
                        }
                    },
                }
            }
            proof {
                let p = v@.subrange(0, i as int + 1);
                assert(forall|j: int| 0 <= j <= i ==> p[j] == v@[j]);
            }
            i += 1;
        }
        assert(v@.subrange(0, v@.len() as int) =~= v@);
        match best {
            Some(k) => Some(v[k].valid_from),
            None => None,
        }
    }

    /// The prices of the index grouped by half-hour slot of the day
    /// (`hour * 2 + minute / 30`, UTC): 48 buckets, each in index order.
    pub fn group_by_time_of_day_slot(&self) -> (r: Vec<Vec<i64>>)
        ensures
            r@.len() == 48,
            forall|k: int| 0 <= k < 48 ==> (#[trigger] r@[k])@ == slot_prices(self@, k),
    {
        let v = self.rates();
        let mut buckets: Vec<Vec<i64>> = Vec::new();
        let mut k: usize = 0;
        while k < SLOTS_PER_DAY
            invariant
                k <= 48,
                v@ == self@,
                buckets@.len() == k,
                forall|j: int| 0 <= j < k ==> (#[trigger] buckets@[j])@ == slot_prices(self@, j),
            decreases 48 - k,
        {
            let mut bucket: Vec<i64> = Vec::new();
            let mut i: usize = 0;
            while i < v.len()
                invariant
                    i <= v@.len(),
                    k < 48,
                    bucket@ == slot_prices(v@.subrange(0, i as int), k as int),
                decreases v@.len() - i,
            {
                proof {
                    assert(v@.subrange(0, i as int + 1).drop_last() =~= v@.subrange(0, i as int));
                }
                if slot_of_instant(v[i].valid_from) == k {
                    bucket.push(v[i].value_inc_vat);
                }
                i += 1;
            }
            assert(v@.subrange(0, v@.len() as int) =~= v@);
            buckets.push(bucket);
            k += 1;
        }
        buckets
    }

    /// Chart data for the calendar day (UTC) that holds `now`: a
    /// `%Y-%m-%d %H:%M` label and the price of each interval that starts that
    /// day, in order; an error where there is none.
    pub fn series_data(&self, now: i64) -> (r: Result<(Vec<String>, Vec<i64>), AppError>)
        ensures
            series_outcome(r, on_day(self@, day_of(now as int))),
    {
        let rates = self.filter_for_today(now);
        if rates.len() == 0 {
            return Err(AppError::DataError(String::from_str("No rates for today")));
        }
        let mut labels: Vec<String> = Vec::new();
        let mut prices: Vec<i64> = Vec::new();
        let mut i: usize = 0;
        while i < rates.len()
            invariant
                i <= rates@.len(),
                describes_series(labels@, prices@, rates@.subrange(0, i as int)),
            decreases rates@.len() - i,
        {
            labels.push(minute_label_text(rates[i].valid_from));
            prices.push(rates[i].value_inc_vat);
            i += 1;
        }
        assert(rates@.subrange(0, rates@.len() as int) =~= rates@);
        Ok((labels, prices))
    }
}

/// The sum of the values at position `i` over the series that reach it.
pub open spec fn column_total(d: Seq<Vec<i64>>, i: int) -> int
    decreases d.len(),
{
    if d.len() == 0 {
        0
    } else {
        column_total(d.drop_last(), i) + if 0 <= i < d.last()@.len() {
            d.last()@[i] as int
        } else {
            0
        }
    }
}

/// The number of series that reach position `i`.
pub open spec fn column_count(d: Seq<Vec<i64>>, i: int) -> int
    decreases d.len(),
{
    if d.len() == 0 {
        0
    } else {
        column_count(d.drop_last(), i) + if 0 <= i < d.last()@.len() {
            1int
        } else {
            0int
        }
    }
}

/// The length of the longest series; 0 for none.
pub open spec fn longest(d: Seq<Vec<i64>>) -> int
    decreases d.len(),
{
    if d.len() == 0 {
        0
    } else {
        let m = longest(d.drop_last());
        if d.last()@.len() > m {
            d.last()@.len() as int
        } else {
            m
        }
    }
}

proof fn lemma_column_reached(d: Seq<Vec<i64>>, i: int)
    requires
        0 <= i < longest(d),
    ensures
        column_count(d, i) >= 1,
    decreases d.len(),
{
    if d.len() > 0 {
        if i < longest(d.drop_last()) {
            lemma_column_reached(d.drop_last(), i);
        } else {
            lemma_column_count_nonneg(d.drop_last(), i);
        }
    }
}

proof fn lemma_column_count_nonneg(d: Seq<Vec<i64>>, i: int)
    ensures
        column_count(d, i) >= 0,
    decreases d.len(),
{
    if d.len() > 0 {
        lemma_column_count_nonneg(d.drop_last(), i);
    }
}

/// For each position up to the longest series, the mean (rounded down) of
/// the values at that position over the series that reach it.
pub fn compute_means(data: &[Vec<i64>]) -> (r: Vec<i64>)
    ensures
        r@.len() == longest(data@),
        forall|i: int|
            0 <= i < r@.len() ==> #[trigger] r@[i] == column_total(data@, i) / column_count(data@, i),
{
    let mut max_len: usize = 0;
    let mut j: usize = 0;
    while j < data.len()
        invariant
            j <= data@.len(),
            max_len == longest(data@.subrange(0, j as int)),
        decreases data@.len() - j,
    {
        proof {
            assert(data@.subrange(0, j as int + 1).drop_last() =~= data@.subrange(0, j as int));
        }
        if data[j].len() > max_len {
            max_len = data[j].len();
        }
        j += 1;
    }
    assert(data@.subrange(0, data@.len() as int) =~= data@);
    let mut means: Vec<i64> = Vec::new();
    let mut i: usize = 0;
    while i < max_len
        invariant
            i <= max_len,
            max_len == longest(data@),
            means@.len() == i,
            forall|k: int| 0 <= k < i ==> #[trigger] means@[k] == column_total(data@, k) / column_count(data@, k),
        decreases max_len - i,
    {
        let mut sum: i128 = 0;
        let mut count: usize = 0;
        let mut j: usize = 0;
        while j < data.len()
            invariant
                j <= data@.len(),
                count <= j,
                sum == column_total(data@.subrange(0, j as int), i as int),
                count == column_count(data@.subrange(0, j as int), i as int),
                (count as int) * (i64::MIN as int) <= sum <= (count as int) * (i64::MAX as int),
            decreases data@.len() - j,
        {
            proof {
                assert(data@.subrange(0, j as int + 1).drop_last() =~= data@.subrange(0, j as int));
            }
            if i < data[j].len() {
                let x = data[j][i];
                proof {
                    assert((count as int + 1) * (i64::MIN as int) <= sum + x <= (count as int + 1) * (
                    i64::MAX as int) && i128::MIN < (count as int + 1) * (i64::MIN as int) && (count
                        as int + 1) * (i64::MAX as int) < i128::MAX) by (nonlinear_arith)
                        requires
                            (count as int) * (i64::MIN as int) <= sum <= (count as int) * (
                            i64::MAX as int),
                            i64::MIN <= x <= i64::MAX,
                            count < data@.len() <= usize::MAX;
                }
                sum = sum + x as i128;
                count = count + 1;
            }
            j += 1;
        }
        assert(data@.subrange(0, data@.len() as int) =~= data@);
        proof {
            lemma_column_reached(data@, i as int);
        }
        let mean = floor_div_wide(sum, count as i128);
        assert(i64::MIN <= mean <= i64::MAX) by (nonlinear_arith)
            requires
                (count as int) * (i64::MIN as int) <= sum <= (count as int) * (i64::MAX as int),
                (mean as int) * (count as int) <= sum,
                sum - (mean as int) * (count as int) < count,
                count >= 1;
        means.push(mean as i64);
        i += 1;
    }
    means
}

} // verus!
