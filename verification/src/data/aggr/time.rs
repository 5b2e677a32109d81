use vstd::prelude::*;
use std::collections::BTreeMap;

use crate::exchanges::Timeframe;

verus! {

broadcast use vstd::laws_cmp::group_laws_cmp;

/// The start of the interval of `interval` milliseconds that `time` falls
/// in.
pub open spec fn spec_bucket_start(time: u64, interval: u64) -> u64 {
    ((time / interval) * interval) as u64
}

/// The start of the interval of `interval` milliseconds that `time` falls
/// in: trades are grouped into the kline starting there.
pub fn bucket_start(time: u64, interval: u64) -> (t: u64)
    requires
        interval > 0,
    ensures
        t == spec_bucket_start(time, interval),
        t <= time < t + interval,
        t % interval == 0,
{
    proof {
        crate::charts::scales::timeseries::lemma_round_down(time, interval);
    }
    (time / interval) * interval
}

/// The distinct interval starts of `times`, in order of first appearance.
pub open spec fn distinct_buckets(times: Seq<u64>, interval: u64) -> Seq<u64>
    decreases times.len(),
{
    if times.len() == 0 {
        seq![]
    } else {
        let prev = distinct_buckets(times.drop_last(), interval);
        let b = spec_bucket_start(times.last(), interval);
        if prev.contains(b) {
            prev
        } else {
            prev.push(b)
        }
    }
}

/// The intervals that a batch of trades updates: the start of each trade's
/// interval, once each, in the order the trades first reach them.
pub fn updated_buckets(trade_times: &[u64], interval: u64) -> (r: Vec<u64>)
    requires
        interval > 0,
    ensures
        r@ == distinct_buckets(trade_times@, interval),
        r@.no_duplicates(),
{
    let mut updated_times: Vec<u64> = Vec::new();
    let mut i: usize = 0;
    while i < trade_times.len()
        invariant
            interval > 0,
            0 <= i <= trade_times.len(),
            updated_times@ == distinct_buckets(trade_times@.subrange(0, i as int), interval),
            updated_times@.no_duplicates(),
        decreases trade_times.len() - i,
    {
        let rounded_time = bucket_start(trade_times[i], interval);
        let mut present = false;
        let mut j: usize = 0;
        while j < updated_times.len()
            invariant
                0 <= j <= updated_times.len(),
                present == (exists|k: int| 0 <= k < j && updated_times@[k] == rounded_time),
            decreases updated_times.len() - j,
        {
            if updated_times[j] == rounded_time {
                present = true;
            }
            j = j + 1;
        }
        assert(trade_times@.subrange(0, i + 1).drop_last() =~= trade_times@.subrange(0, i as int));
        assert(present == updated_times@.contains(rounded_time));
        if !present {
            updated_times.push(rounded_time);
        }
        i = i + 1;
    }
    assert(trade_times@.subrange(0, trade_times.len() as int) =~= trade_times@);
    updated_times
}

/// The grid times `t, t + interval, ...` before `latest` that have no
/// datapoint, in order.
pub open spec fn missing_from(keys: Set<u64>, t: int, latest: int, interval: int) -> Seq<u64>
    decreases (if t < latest { latest - t } else { 0 }),
{
    if interval <= 0 || t >= latest {
        seq![]
    } else {
        (if keys.contains(t as u64) {
            Seq::<u64>::empty()
        } else {
            seq![t as u64]
        }) + missing_from(keys, t + interval, latest, interval)
    }
}

/// The greatest key of a set, if it has one.
pub open spec fn max_key(keys: Set<u64>) -> Option<u64> {
    if keys.is_empty() {
        None
    } else {
        Some(choose|k: u64| keys.contains(k) && forall|j: u64| #[trigger] keys.contains(j) ==> j <= k)
    }
}

/// The least key of a set, if it has one.
pub open spec fn min_key(keys: Set<u64>) -> Option<u64> {
    if keys.is_empty() {
        None
    } else {
        Some(choose|k: u64| keys.contains(k) && forall|j: u64| #[trigger] keys.contains(j) ==> k <= j)
    }
}

/// `BTreeMap::last_key_value`: the entry with the maximum key, `None` when
/// the map is empty.
#[verifier::external_body]
fn last_key<V>(m: &BTreeMap<u64, V>) -> (k: Option<u64>)
    ensures
        k is None <==> m@.dom().is_empty(),
        k matches Some(x) ==> m@.contains_key(x) && forall|j: u64|
            #[trigger] m@.contains_key(j) ==> j <= x,
{
    m.last_key_value().map(|(k, _)| *k)
}

/// `BTreeMap::first_key_value`: the entry with the minimum key, `None` when
/// the map is empty.
#[verifier::external_body]
fn first_key<V>(m: &BTreeMap<u64, V>) -> (k: Option<u64>)
    ensures
        k is None <==> m@.dom().is_empty(),
        k matches Some(x) ==> m@.contains_key(x) && forall|j: u64|
            #[trigger] m@.contains_key(j) ==> x <= j,
{
    m.first_key_value().map(|(k, _)| *k)
}

/// The integrity check reports exactly the times on the grid from `t`
/// every `interval` before `latest` that have no datapoint.
pub proof fn law_integrity_reports_exactly_absent(
    keys: Set<u64>,
    t: int,
    latest: int,
    interval: int,
    x: u64,
)
    requires
        interval > 0,
        0 <= t,
        latest <= u64::MAX,
    ensures
        missing_from(keys, t, latest, interval).contains(x) <==> (t <= x < latest && (x - t)
            % interval == 0 && !keys.contains(x)),
    decreases (if t < latest { latest - t } else { 0 }),
{
    if t < latest {
        law_integrity_reports_exactly_absent(keys, t + interval, latest, interval, x);
        let head = if keys.contains(t as u64) {
            Seq::<u64>::empty()
        } else {
            seq![t as u64]
        };
        let rest = missing_from(keys, t + interval, latest, interval);
        assert(missing_from(keys, t, latest, interval) == head + rest);
        assert((head + rest).contains(x) <==> head.contains(x) || rest.contains(x)) by {
            if (head + rest).contains(x) {
                let i = choose|i: int| 0 <= i < (head + rest).len() && (head + rest)[i] == x;
                if i >= head.len() {
                    assert(rest[i - head.len()] == x);
                }
            }
            if rest.contains(x) {
                let i = choose|i: int| 0 <= i < rest.len() && rest[i] == x;
                assert((head + rest)[i + head.len()] == x);
            }
            if head.contains(x) {
                assert((head + rest)[0] == x);
            }
        }
        if t + interval <= x {
            vstd::arithmetic::div_mod::lemma_mod_sub_multiples_vanish(x - t, interval);
            assert((x - t - interval) % interval == (x - t) % interval);
        }
        if t < x < t + interval {
            vstd::arithmetic::div_mod::lemma_small_mod((x - t) as nat, interval as nat);
        }
        if x == t {
            vstd::arithmetic::div_mod::lemma_small_mod(0, interval as nat);
        }
        assert(head.contains(x) <==> (x == t && !keys.contains(x))) by {
            if head.contains(x) {
                assert(head[0] == x);
            }
            if x == t && !keys.contains(x) {
                assert(head[0] == x);
            }
        }
    }
}

/// The last time of the grid `earliest, earliest + interval, ...` that is
/// before `latest` (when `earliest < latest`).
pub open spec fn last_grid_time(earliest: u64, latest: u64, interval: u64) -> int {
    earliest + ((latest - 1 - earliest) / (interval as int)) * interval
}

/// A grid time before `latest` is at most the last one, so the next grid
/// time fits whenever the one after the last does.
proof fn lemma_next_grid_time_fits(earliest: u64, latest: u64, interval: u64, time: u64)
    requires
        interval > 0,
        earliest <= time < latest,
        (time - earliest) % (interval as int) == 0,
        last_grid_time(earliest, latest, interval) + interval <= u64::MAX,
    ensures
        time + interval <= u64::MAX,
        (time + interval - earliest) % (interval as int) == 0,
{
    let i = interval as int;
    let d = time - earliest;
    let m = latest - 1 - earliest;
    let k = d / i;
    vstd::arithmetic::div_mod::lemma_fundamental_div_mod(d, i);
    assert(d == i * k);
    vstd::arithmetic::div_mod::lemma_div_is_ordered(d, m, i);
    vstd::arithmetic::mul::lemma_mul_inequality(k, m / i, i);
    vstd::arithmetic::mul::lemma_mul_is_commutative(k, i);
    vstd::arithmetic::mul::lemma_mul_is_commutative(m / i, i);
    assert(time <= last_grid_time(earliest, latest, interval));
    vstd::arithmetic::div_mod::lemma_mod_multiples_vanish(1, d, i);
    assert(d + i * 1 == time + interval - earliest);
}

/// Datapoints keyed by the start time of their interval.
pub struct TimeSeries<D> {
    pub datapoints: BTreeMap<u64, D>,
    pub interval: Timeframe,
}

impl<D> TimeSeries<D> {
    /// The start time of the latest datapoint.
    pub fn latest_timestamp(&self) -> (t: Option<u64>)
        ensures
            t == max_key(self.datapoints@.dom()),
    {
        let k = last_key(&self.datapoints);
        proof {
            if let Some(x) = k {
                let m = max_key(self.datapoints@.dom()).unwrap();
                assert(self.datapoints@.dom().contains(x));
                assert(self.datapoints@.dom().contains(m) && forall|j: u64| #[trigger] self.datapoints@.dom().contains(j) ==> j <= m);
            }
        }
        k
    }

    /// The start times of the earliest and the latest datapoint, zero for
    /// each when there is none.
    pub fn timerange(&self) -> (r: (u64, u64))
        ensures
            r.0 == (match min_key(self.datapoints@.dom()) {
                Some(k) => k,
                None => 0,
            }),
            r.1 == (match max_key(self.datapoints@.dom()) {
                Some(k) => k,
                None => 0,
            }),
    {
        let earliest = match first_key(&self.datapoints) {
            Some(k) => k,
            None => 0,
        };
        let latest = match last_key(&self.datapoints) {
            Some(k) => k,
            None => 0,
        };
        (earliest, latest)
    }

    /// Checks that every `interval` from `earliest` up to (not including)
    /// `latest` has a datapoint; returns the missing times, in order, when
    /// some are missing.
    pub fn check_kline_integrity(&self, earliest: u64, latest: u64, interval: u64) -> (r: Option<
        Vec<u64>,
    >)
        requires
            earliest < latest ==> interval > 0 && last_grid_time(earliest, latest, interval)
                + interval <= u64::MAX,
        ensures
            ({
                let missing = missing_from(
                    self.datapoints@.dom(),
                    earliest as int,
                    latest as int,
                    interval as int,
                );
                match r {
                    None => missing.len() == 0,
                    Some(v) => missing.len() > 0 && v@ == missing,
                }
            }),
    {
        let ghost keys = self.datapoints@.dom();
        let ghost all = missing_from(keys, earliest as int, latest as int, interval as int);
        if earliest >= latest {
            return None;
        }
        let mut time = earliest;
        let mut found_missing = false;
        proof {
            vstd::arithmetic::div_mod::lemma_small_mod(0, interval as nat);
        }
        while time < latest && !found_missing
            invariant
                interval > 0,
                earliest < latest ==> last_grid_time(earliest, latest, interval) + interval
                    <= u64::MAX,
                earliest <= time,
                (time - earliest) % (interval as int) == 0,
                keys == self.datapoints@.dom(),
                all == missing_from(keys, earliest as int, latest as int, interval as int),
                !found_missing ==> missing_from(keys, time as int, latest as int, interval as int)
                    == all,
                found_missing ==> all.len() > 0,
            decreases (if time < latest { latest - time } else { 0 }) + (if found_missing { 0int } else { 1int }),
        {
            if !self.datapoints.contains_key(&time) {
                found_missing = true;
            } else {
                assert(missing_from(keys, time as int, latest as int, interval as int)
                    =~= missing_from(keys, time + interval, latest as int, interval as int));
                proof {
                    lemma_next_grid_time_fits(earliest, latest, interval, time);
                }
                time = time + interval;
            }
        }
        if found_missing {
            let mut missing_keys: Vec<u64> = Vec::new();
            let mut time = earliest;
            proof {
                vstd::arithmetic::div_mod::lemma_small_mod(0, interval as nat);
            }
            while time < latest
                invariant
                    interval > 0,
                    earliest < latest ==> last_grid_time(earliest, latest, interval) + interval
                        <= u64::MAX,
                    earliest <= time,
                    (time - earliest) % (interval as int) == 0,
                    keys == self.datapoints@.dom(),
                    all == missing_from(keys, earliest as int, latest as int, interval as int),
                    missing_keys@ + missing_from(keys, time as int, latest as int, interval as int)
                        == all,
                decreases (if time < latest { latest - time } else { 0 }),
            {
                let ghost rest = missing_from(
                    keys,
                    time + interval,
                    latest as int,
                    interval as int,
                );
                if !self.datapoints.contains_key(&time) {
                    missing_keys.push(time);
                    assert(missing_from(keys, time as int, latest as int, interval as int)
                        =~= seq![time] + rest);
                } else {
                    assert(missing_from(keys, time as int, latest as int, interval as int)
                        =~= rest);
                }
                assert(missing_keys@ + rest =~= all);
                proof {
                    lemma_next_grid_time_fits(earliest, latest, interval, time);
                }
                time = time + interval;
            }
            assert(missing_from(keys, time as int, latest as int, interval as int) =~= seq![]);
            assert(missing_keys@ =~= all);
            return Some(missing_keys);
        }
        assert(missing_from(keys, time as int, latest as int, interval as int) =~= seq![]);
        None
    }
}


/// The time span of an open interest series seen from the latest kline:
/// from the earlier of the latest kline and the first point, to the last
/// point (zero without points).
pub fn oi_timerange<V>(oi: &BTreeMap<u64, V>, latest_kline: u64) -> (r: (u64, u64))
    ensures
        r.0 == (match min_key(oi@.dom()) {
            Some(k) => if k < latest_kline { k } else { latest_kline },
            None => latest_kline,
        }),
        r.1 == (match max_key(oi@.dom()) {
            Some(k) => k,
            None => 0,
        }),
{
    let first = first_key(oi);
    let last = last_key(oi);
    proof {
        if let Some(x) = first {
            let m = min_key(oi@.dom()).unwrap();
            assert(oi@.dom().contains(x));
        }
        if let Some(x) = last {
            let m = max_key(oi@.dom()).unwrap();
            assert(oi@.dom().contains(x));
        }
    }
    let from_time = match first {
        Some(k) => if k < latest_kline {
            k
        } else {
            latest_kline
        },
        None => latest_kline,
    };
    let to_time = match last {
        Some(k) => k,
        None => 0,
    };
    (from_time, to_time)
}

/// How many datapoints a heatmap keeps before dropping the oldest.
pub const CLEANUP_THRESHOLD: usize = 4800;

/// The map after dropping its `n` oldest entries (all of them when it has
/// fewer).
pub open spec fn drop_oldest<V>(m: Map<u64, V>, n: nat) -> Map<u64, V>
    decreases n,
{
    if n == 0 || m.dom().is_empty() {
        m
    } else {
        drop_oldest(m.remove(min_key(m.dom()).unwrap()), (n - 1) as nat)
    }
}

/// Drops the oldest tenth of the threshold once a series holds more than
/// `threshold` datapoints, and reports the oldest time left.
pub fn cleanup_old_data<V>(series: &mut BTreeMap<u64, V>, threshold: usize) -> (oldest: Option<u64>)
    ensures
        final(series)@ == (if old(series)@.dom().len() > threshold {
            drop_oldest(old(series)@, (threshold / 10) as nat)
        } else {
            old(series)@
        }),
        old(series)@.dom().len() > threshold ==> oldest == min_key(final(series)@.dom()),
        old(series)@.dom().len() <= threshold ==> oldest is None,
{
    if series.len() <= threshold {
        return None;
    }
    let n = threshold / 10;
    let ghost start = series@;
    let mut k: usize = 0;
    while k < n
        invariant
            0 <= k <= n,
            drop_oldest(start, n as nat) == drop_oldest(series@, (n - k) as nat),
        decreases n - k,
    {
        match first_key(series) {
            Some(key) => {
                proof {
                    let m = min_key(series@.dom()).unwrap();
                    assert(series@.dom().contains(key));
                    assert(m == key);
                }
                series.remove(&key);
            },
            None => {
                proof {
                    assert(series@.dom().is_empty());
                }
            },
        }
        k = k + 1;
    }
    assert(drop_oldest(series@, 0) == series@);
    let oldest = first_key(series);
    proof {
        if let Some(x) = oldest {
            let m = min_key(series@.dom()).unwrap();
            assert(series@.dom().contains(x));
        }
    }
    oldest
}

/// What a kline datapoint knows of the trades aggregated into it.
#[derive(Debug, Clone, Copy, PartialEq, Eq, Structural)]
pub struct TradeSpan {
    /// No trade has been aggregated into the datapoint.
    pub empty: bool,
    /// The time of its first trade.
    pub first_trade: Option<u64>,
    /// The time of its last trade.
    pub last_trade: Option<u64>,
}

/// The index of the latest datapoint without trades at or before index
/// `i`, or -1.
pub open spec fn last_empty_at_or_before(s: Seq<(u64, TradeSpan)>, i: int) -> int
    decreases i + 1,
{
    if i < 0 {
        -1
    } else if s[i].1.empty {
        i
    } else {
        last_empty_at_or_before(s, i - 1)
    }
}

/// The last trade time of the latest datapoint before index `i` that has
/// one.
pub open spec fn last_trade_before(s: Seq<(u64, TradeSpan)>, i: int) -> Option<u64>
    decreases i,
{
    if i <= 0 {
        None
    } else if s[i - 1].1.last_trade is Some {
        s[i - 1].1.last_trade
    } else {
        last_trade_before(s, i - 1)
    }
}

/// The first trade time of the earliest datapoint after index `i` that has
/// one.
pub open spec fn first_trade_after(s: Seq<(u64, TradeSpan)>, i: int) -> Option<u64>
    decreases s.len() - i,
{
    if i + 1 >= s.len() {
        None
    } else if s[i + 1].1.first_trade is Some {
        s[i + 1].1.first_trade
    } else {
        first_trade_after(s, i + 1)
    }
}

/// The trades bounding the latest datapoint without trades: the last trade
/// before it and the first trade after it.
pub open spec fn spec_trade_gap(s: Seq<(u64, TradeSpan)>) -> Option<(Option<u64>, Option<u64>)> {
    let g = last_empty_at_or_before(s, s.len() - 1);
    if g < 0 {
        None
    } else {
        Some((last_trade_before(s, g), first_trade_after(s, g)))
    }
}

proof fn lemma_last_empty(s: Seq<(u64, TradeSpan)>, i: int)
    requires
        -1 <= i < s.len(),
    ensures
        -1 <= last_empty_at_or_before(s, i) <= i,
        last_empty_at_or_before(s, i) >= 0 ==> s[last_empty_at_or_before(s, i)].1.empty,
        forall|k: int| last_empty_at_or_before(s, i) < k <= i ==> !(#[trigger] s[k]).1.empty,
    decreases i + 1,
{
    if i >= 0 && !s[i].1.empty {
        lemma_last_empty(s, i - 1);
    }
}

/// Where the last trade before index `i` comes from: the nearest earlier
/// datapoint that has one.
proof fn lemma_last_trade_before(s: Seq<(u64, TradeSpan)>, i: int) -> (j: int)
    requires
        0 <= i <= s.len(),
    ensures
        last_trade_before(s, i) is Some ==> 0 <= j < i && s[j].1.last_trade == last_trade_before(
            s,
            i,
        ) && forall|k: int| j < k < i ==> (#[trigger] s[k]).1.last_trade is None,
        last_trade_before(s, i) is None ==> forall|k: int|
            0 <= k < i ==> (#[trigger] s[k]).1.last_trade is None,
    decreases i,
{
    if i <= 0 {
        0
    } else if s[i - 1].1.last_trade is Some {
        i - 1
    } else {
        lemma_last_trade_before(s, i - 1)
    }
}

/// Where the first trade after index `i` comes from: the nearest later
/// datapoint that has one.
proof fn lemma_first_trade_after(s: Seq<(u64, TradeSpan)>, i: int) -> (j: int)
    requires
        -1 <= i < s.len(),
    ensures
        first_trade_after(s, i) is Some ==> i < j < s.len() && s[j].1.first_trade
            == first_trade_after(s, i) && forall|k: int| i < k < j ==> (#[trigger] s[k]).1.first_trade
            is None,
        first_trade_after(s, i) is None ==> forall|k: int|
            i < k < s.len() ==> (#[trigger] s[k]).1.first_trade is None,
    decreases s.len() - i,
{
    if i + 1 >= s.len() {
        0
    } else if s[i + 1].1.first_trade is Some {
        i + 1
    } else {
        lemma_first_trade_after(s, i + 1)
    }
}

/// The trade gap is the latest datapoint without trades (none when every
/// datapoint has some). Its bounds are the last trade of the nearest
/// datapoint before it that has a trade, with no datapoint in between
/// having one, and the first trade of the nearest datapoint after it that
/// has one; each is absent when no such datapoint exists.
pub proof fn law_trade_gap_bounds_are_nearest(s: Seq<(u64, TradeSpan)>)
    ensures
        spec_trade_gap(s) is None <==> forall|k: int| 0 <= k < s.len() ==> !(#[trigger] s[k]).1.empty,
        spec_trade_gap(s) matches Some((before, after)) ==> exists|g: int|
            #![trigger s[g]]
            0 <= g < s.len() && s[g].1.empty && (forall|k: int|
                g < k < s.len() ==> !(#[trigger] s[k]).1.empty) && (before matches Some(b)
                ==> exists|j: int|
                #![trigger s[j]]
                0 <= j < g && s[j].1.last_trade == Some(b) && forall|k: int|
                    j < k < g ==> (#[trigger] s[k]).1.last_trade is None) && (before is None
                ==> forall|k: int| 0 <= k < g ==> (#[trigger] s[k]).1.last_trade is None) && (
            after matches Some(a) ==> exists|j: int|
                #![trigger s[j]]
                g < j < s.len() && s[j].1.first_trade == Some(a) && forall|k: int|
                    g < k < j ==> (#[trigger] s[k]).1.first_trade is None) && (after is None
                ==> forall|k: int| g < k < s.len() ==> (#[trigger] s[k]).1.first_trade is None),
{
    lemma_last_empty(s, s.len() - 1);
    let g = last_empty_at_or_before(s, s.len() - 1);
    if g >= 0 {
        let jb = lemma_last_trade_before(s, g);
        let ja = lemma_first_trade_after(s, g);
        assert(s[g].1.empty);
        if last_trade_before(s, g) is Some {
            assert(s[jb].1.last_trade == last_trade_before(s, g));
        }
        if first_trade_after(s, g) is Some {
            assert(s[ja].1.first_trade == first_trade_after(s, g));
        }
    } else {
        assert forall|k: int| 0 <= k < s.len() implies !(#[trigger] s[k]).1.empty by {}
    }
}

pub open spec fn max_u64(a: u64, b: u64) -> u64 {
    if a >= b {
        a
    } else {
        b
    }
}

pub open spec fn min_u64(a: u64, b: u64) -> u64 {
    if a <= b {
        a
    } else {
        b
    }
}

/// The trade range worth fetching to fill the latest gap of trades: from
/// just after the last trade before the gap (or the first datapoint) to
/// just before the first trade after it (or the last datapoint), clipped to
/// the visible range; none when there is no gap, the gap has no trades on
/// either side, or the range is empty.
pub open spec fn spec_trade_fetch_range(
    s: Seq<(u64, TradeSpan)>,
    visible_earliest: u64,
    visible_latest: u64,
) -> Option<(u64, u64)> {
    if s.len() == 0 {
        None
    } else {
        match spec_trade_gap(s) {
            None => None,
            Some((before, after)) => if before is None && after is None {
                None
            } else {
                let from = max_u64(
                    match before {
                        Some(t) => if t < u64::MAX { (t + 1) as u64 } else { t },
                        None => s[0].0,
                    },
                    visible_earliest,
                );
                let to = min_u64(
                    match after {
                        Some(t) => if t > 0 { (t - 1) as u64 } else { t },
                        None => s.last().0,
                    },
                    visible_latest,
                );
                if from < to {
                    Some((from, to))
                } else {
                    None
                }
            },
        }
    }
}

/// Finds the latest datapoint without trades, and the trades around it.
pub fn find_trade_gap(spans: &[(u64, TradeSpan)]) -> (r: Option<(Option<u64>, Option<u64>)>)
    ensures
        r == spec_trade_gap(spans@),
{
    let n = spans.len();
    let mut i = n;
    let mut found = false;
    while i > 0 && !found
        invariant
            0 <= i <= n,
            n == spans@.len(),
            !found ==> last_empty_at_or_before(spans@, n - 1) == last_empty_at_or_before(
                spans@,
                i - 1,
            ),
            found ==> i > 0 && last_empty_at_or_before(spans@, n - 1) == i - 1,
        decreases i + (if found { 0int } else { 1int }),
    {
        if spans[i - 1].1.empty {
            found = true;
        } else {
            i = i - 1;
        }
    }
    if !found {
        return None;
    }
    let g = i - 1;
    let mut b = g;
    let mut before: Option<u64> = None;
    while b > 0 && before.is_none()
        invariant
            0 <= b <= g,
            g < n,
            n == spans@.len(),
            before is None ==> last_trade_before(spans@, g as int) == last_trade_before(
                spans@,
                b as int,
            ),
            before is Some ==> before == last_trade_before(spans@, g as int),
        decreases b + (if before is None { 1int } else { 0int }),
    {
        match spans[b - 1].1.last_trade {
            Some(t) => {
                before = Some(t);
            },
            None => {
                b = b - 1;
            },
        }
    }
    let mut a = g + 1;
    let mut after: Option<u64> = None;
    while a < n && after.is_none()
        invariant
            g + 1 <= a <= n,
            g < n,
            n == spans@.len(),
            after is None ==> first_trade_after(spans@, g as int) == first_trade_after(
                spans@,
                a - 1,
            ),
            after is Some ==> after == first_trade_after(spans@, g as int),
        decreases (n - a) + (if after is None { 1int } else { 0int }),
    {
        match spans[a].1.first_trade {
            Some(t) => {
                after = Some(t);
            },
            None => {
                a = a + 1;
            },
        }
    }
    Some((before, after))
}

/// Suggests the range of trades to fetch so that the latest datapoint
/// without trades gets them, limited to the visible time range.
pub fn suggest_trade_fetch_range(
    spans: &[(u64, TradeSpan)],
    visible_earliest: u64,
    visible_latest: u64,
) -> (r: Option<(u64, u64)>)
    ensures
        r == spec_trade_fetch_range(spans@, visible_earliest, visible_latest),
{
    if spans.len() == 0 {
        return None;
    }
    match find_trade_gap(spans) {
        None => None,
        Some((last_t_before_gap, first_t_after_gap)) => {
            if last_t_before_gap.is_none() && first_t_after_gap.is_none() {
                return None;
            }
            let data_earliest = spans[0].0;
            let data_latest = spans[spans.len() - 1].0;
            let start = match last_t_before_gap {
                Some(t) => t.saturating_add(1),
                None => data_earliest,
            };
            let fetch_from = if start >= visible_earliest {
                start
            } else {
                visible_earliest
            };
            let end = match first_t_after_gap {
                Some(t) => t.saturating_sub(1),
                None => data_latest,
            };
            let fetch_to = if end <= visible_latest {
                end
            } else {
                visible_latest
            };
            if fetch_from < fetch_to {
                Some((fetch_from, fetch_to))
            } else {
                None
            }
        },
    }
}

/// A suggested range is never empty, never leaves the visible range, and
/// lies after every trade before the gap and before every trade after it.
pub proof fn law_trade_fetch_range_bounds(
    s: Seq<(u64, TradeSpan)>,
    visible_earliest: u64,
    visible_latest: u64,
)
    ensures
        spec_trade_fetch_range(s, visible_earliest, visible_latest) matches Some((from, to)) ==> {
            &&& from < to
            &&& visible_earliest <= from
            &&& to <= visible_latest
            &&& (spec_trade_gap(s) matches Some((Some(b), _)) ==> b < from)
            &&& (spec_trade_gap(s) matches Some((_, Some(a))) ==> to < a)
        },
{
}

} // verus!
