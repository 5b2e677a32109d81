use vstd::prelude::*;

use crate::data::aggr::time::TradeSpan;
use crate::exchanges::{spec_millis, Timeframe};

verus! {

/// A range of data that a chart asks the exchange for.
#[derive(Debug, Clone, Copy, PartialEq, Eq, Structural)]
pub enum FetchRange {
    Kline(u64, u64),
    OpenInterest(u64, u64),
    Trades(u64, u64),
}

/// The times strictly increase along the sequence, as the keys of a map
/// come out of it.
pub open spec fn times_increasing(s: Seq<(u64, TradeSpan)>) -> bool {
    forall|i: int, j: int| 0 <= i < j < s.len() ==> s[i].0 < s[j].0
}

/// The index of the first datapoint at or after index `i` that has no
/// trades and whose time lies in `lo..=hi`; the length when there is none.
pub open spec fn first_empty_within(s: Seq<(u64, TradeSpan)>, lo: u64, hi: u64, i: int) -> int
    decreases s.len() - i,
{
    if i >= s.len() {
        s.len() as int
    } else if s[i].1.empty && lo <= s[i].0 <= hi {
        i
    } else {
        first_empty_within(s, lo, hi, i + 1)
    }
}

/// The time of the latest datapoint before index `i` that has trades.
pub open spec fn last_filled_before(s: Seq<(u64, TradeSpan)>, i: int) -> Option<u64>
    decreases i,
{
    if i <= 0 {
        None
    } else if !s[i - 1].1.empty {
        Some(s[i - 1].0)
    } else {
        last_filled_before(s, i - 1)
    }
}

/// The time of the earliest datapoint at or after index `i` that has
/// trades.
pub open spec fn first_filled_from(s: Seq<(u64, TradeSpan)>, i: int) -> Option<u64>
    decreases s.len() - i,
{
    if i >= s.len() {
        None
    } else if !s[i].1.empty {
        Some(s[i].0)
    } else {
        first_filled_from(s, i + 1)
    }
}

pub open spec fn max_of(a: u64, b: u64) -> u64 {
    if a >= b {
        a
    } else {
        b
    }
}

pub open spec fn min_of(a: u64, b: u64) -> u64 {
    if a <= b {
        a
    } else {
        b
    }
}

/// The trades to fetch for the earliest visible kline without trades: from
/// the latest kline with trades before it (or the gap itself) to just
/// before the next kline with trades (or the latest kline), clipped to the
/// visible range.
pub open spec fn spec_visible_trade_gap(
    s: Seq<(u64, TradeSpan)>,
    visible_earliest: u64,
    visible_latest: u64,
    kline_latest: u64,
) -> Option<(u64, u64)> {
    let g = first_empty_within(s, visible_earliest, visible_latest, 0);
    if g >= s.len() {
        None
    } else {
        let from = match last_filled_before(s, g) {
            Some(t) => t,
            None => s[g].0,
        };
        let to = match first_filled_from(s, g) {
            Some(t) => (t - 1) as u64,
            None => kline_latest,
        };
        Some((max_of(from, visible_earliest), min_of(to, visible_latest)))
    }
}

proof fn lemma_first_empty_within_bounds(s: Seq<(u64, TradeSpan)>, lo: u64, hi: u64, i: int)
    requires
        0 <= i <= s.len(),
    ensures
        i <= first_empty_within(s, lo, hi, i) <= s.len(),
        first_empty_within(s, lo, hi, i) < s.len() ==> {
            let g = first_empty_within(s, lo, hi, i);
            s[g].1.empty && lo <= s[g].0 <= hi
        },
        forall|k: int|
            i <= k < first_empty_within(s, lo, hi, i) ==> !((#[trigger] s[k]).1.empty && lo
                <= s[k].0 <= hi),
    decreases s.len() - i,
{
    if i < s.len() && !(s[i].1.empty && lo <= s[i].0 <= hi) {
        lemma_first_empty_within_bounds(s, lo, hi, i + 1);
    }
}

proof fn lemma_first_filled_after(s: Seq<(u64, TradeSpan)>, i: int, g: int)
    requires
        times_increasing(s),
        0 <= g < s.len(),
        g <= i <= s.len(),
        s[g].1.empty,
    ensures
        first_filled_from(s, i) matches Some(t) ==> s[g].0 < t,
    decreases s.len() - i,
{
    if i < s.len() && s[i].1.empty {
        lemma_first_filled_after(s, i + 1, g);
    }
}

proof fn lemma_last_filled_before(s: Seq<(u64, TradeSpan)>, i: int, g: int)
    requires
        times_increasing(s),
        0 <= g < s.len(),
        0 <= i <= g,
    ensures
        last_filled_before(s, i) matches Some(t) ==> t < s[g].0,
    decreases i,
{
    if i > 0 && s[i - 1].1.empty {
        lemma_last_filled_before(s, i - 1, g);
    }
}

/// The trades asked for a gap lie in the visible range and cover the time
/// of the kline without trades, when the latest kline time is at least
/// that of every datapoint.
pub proof fn law_visible_trade_gap_covers_gap(
    s: Seq<(u64, TradeSpan)>,
    visible_earliest: u64,
    visible_latest: u64,
    kline_latest: u64,
)
    requires
        times_increasing(s),
        forall|i: int| 0 <= i < s.len() ==> s[i].0 <= kline_latest,
    ensures
        spec_visible_trade_gap(s, visible_earliest, visible_latest, kline_latest) matches Some(
            (from, to),
        ) ==> {
            let g = first_empty_within(s, visible_earliest, visible_latest, 0);
            &&& 0 <= g < s.len()
            &&& s[g].1.empty
            &&& visible_earliest <= from <= s[g].0 <= to <= visible_latest
        },
{
    lemma_first_empty_within_bounds(s, visible_earliest, visible_latest, 0);
    let g = first_empty_within(s, visible_earliest, visible_latest, 0);
    if g < s.len() {
        lemma_last_filled_before(s, g, g);
        lemma_first_filled_after(s, g, g);
    }
}

/// Where the start of a trade gap's request comes from: the nearest
/// datapoint before index `i` that has trades.
proof fn lemma_last_filled_witness(s: Seq<(u64, TradeSpan)>, i: int) -> (j: int)
    requires
        0 <= i <= s.len(),
    ensures
        last_filled_before(s, i) is Some ==> 0 <= j < i && !s[j].1.empty && last_filled_before(s, i)
            == Some(s[j].0) && forall|k: int| j < k < i ==> (#[trigger] s[k]).1.empty,
        last_filled_before(s, i) is None ==> forall|k: int| 0 <= k < i ==> (#[trigger] s[k]).1.empty,
    decreases i,
{
    if i <= 0 {
        0
    } else if !s[i - 1].1.empty {
        i - 1
    } else {
        lemma_last_filled_witness(s, i - 1)
    }
}

/// Where the end of a trade gap's request comes from: the nearest
/// datapoint from index `i` on that has trades.
proof fn lemma_first_filled_witness(s: Seq<(u64, TradeSpan)>, i: int) -> (j: int)
    requires
        0 <= i <= s.len(),
    ensures
        first_filled_from(s, i) is Some ==> i <= j < s.len() && !s[j].1.empty && first_filled_from(
            s,
            i,
        ) == Some(s[j].0) && forall|k: int| i <= k < j ==> (#[trigger] s[k]).1.empty,
        first_filled_from(s, i) is None ==> forall|k: int|
            i <= k < s.len() ==> (#[trigger] s[k]).1.empty,
    decreases s.len() - i,
{
    if i >= s.len() {
        0
    } else if !s[i].1.empty {
        i
    } else {
        lemma_first_filled_witness(s, i + 1)
    }
}

/// The trades asked for a visible gap: the gap is the earliest visible
/// datapoint without trades (none when every visible datapoint has some);
/// the request starts at the latest datapoint with trades before it, every
/// datapoint in between being empty (at the gap when none before it has
/// trades), and ends just before the earliest datapoint with trades after
/// it (at the latest kline when none has), both clipped to the visible
/// range.
pub proof fn law_visible_trade_gap_is_nearest(
    s: Seq<(u64, TradeSpan)>,
    visible_earliest: u64,
    visible_latest: u64,
    kline_latest: u64,
)
    ensures
        spec_visible_trade_gap(s, visible_earliest, visible_latest, kline_latest) is None <==> forall|
            k: int,
        | 0 <= k < s.len() ==> !((#[trigger] s[k]).1.empty && visible_earliest <= s[k].0
            <= visible_latest),
        spec_visible_trade_gap(s, visible_earliest, visible_latest, kline_latest) matches Some(
            (from, to),
        ) ==> exists|g: int|
            #![trigger s[g]]
            0 <= g < s.len() && s[g].1.empty && visible_earliest <= s[g].0 <= visible_latest
                && (forall|k: int|
                0 <= k < g ==> !((#[trigger] s[k]).1.empty && visible_earliest <= s[k].0
                    <= visible_latest)) && ((exists|j: int|
                #![trigger s[j]]
                0 <= j < g && !s[j].1.empty && (forall|k: int|
                    j < k < g ==> (#[trigger] s[k]).1.empty) && from == max_of(
                    s[j].0,
                    visible_earliest,
                )) || ((forall|k: int| 0 <= k < g ==> (#[trigger] s[k]).1.empty) && from
                == max_of(s[g].0, visible_earliest))) && ((exists|j: int|
                #![trigger s[j]]
                g < j < s.len() && !s[j].1.empty && (forall|k: int|
                    g <= k < j ==> (#[trigger] s[k]).1.empty) && to == min_of(
                    (s[j].0 - 1) as u64,
                    visible_latest,
                )) || ((forall|k: int| g <= k < s.len() ==> (#[trigger] s[k]).1.empty) && to
                == min_of(kline_latest, visible_latest))),
{
    lemma_first_empty_within_bounds(s, visible_earliest, visible_latest, 0);
    let g = first_empty_within(s, visible_earliest, visible_latest, 0);
    if g < s.len() {
        let jb = lemma_last_filled_witness(s, g);
        let ja = lemma_first_filled_witness(s, g);
        assert(s[g].1.empty);
        if last_filled_before(s, g) is Some {
            assert(!s[jb].1.empty);
        }
        if first_filled_from(s, g) is Some {
            assert(!s[ja].1.empty);
            assert(ja != g);
        }
    }
}

/// Finds the trades a time-based chart should fetch for the earliest
/// visible kline that has none.
pub fn visible_trade_gap(
    spans: &[(u64, TradeSpan)],
    visible_earliest: u64,
    visible_latest: u64,
    kline_latest: u64,
) -> (r: Option<(u64, u64)>)
    requires
        times_increasing(spans@),
    ensures
        r == spec_visible_trade_gap(spans@, visible_earliest, visible_latest, kline_latest),
{
    let n = spans.len();
    let mut g: usize = 0;
    let mut found = false;
    while g < n && !found
        invariant
            0 <= g <= n,
            n == spans@.len(),
            !found ==> first_empty_within(spans@, visible_earliest, visible_latest, 0)
                == first_empty_within(spans@, visible_earliest, visible_latest, g as int),
            found ==> g < n && first_empty_within(spans@, visible_earliest, visible_latest, 0)
                == g,
        decreases n - g + (if found { 0int } else { 1int }),
    {
        let (t, span) = spans[g];
        if span.empty && visible_earliest <= t && t <= visible_latest {
            found = true;
        } else {
            g = g + 1;
        }
    }
    if !found {
        return None;
    }
    let gap_time = spans[g].0;
    let mut b = g;
    let mut before: Option<u64> = None;
    while b > 0 && before.is_none()
        invariant
            0 <= b <= g,
            g < n,
            n == spans@.len(),
            before is None ==> last_filled_before(spans@, g as int) == last_filled_before(
                spans@,
                b as int,
            ),
            before is Some ==> before == last_filled_before(spans@, g as int),
        decreases b + (if before is None { 1int } else { 0int }),
    {
        if !spans[b - 1].1.empty {
            before = Some(spans[b - 1].0);
        } else {
            b = b - 1;
        }
    }
    let mut a = g;
    let mut after: Option<u64> = None;
    while a < n && after.is_none()
        invariant
            g <= a <= n,
            g < n,
            n == spans@.len(),
            after is None ==> first_filled_from(spans@, g as int) == first_filled_from(
                spans@,
                a as int,
            ),
            after is Some ==> after == first_filled_from(spans@, g as int),
        decreases (n - a) + (if after is None { 1int } else { 0int }),
    {
        if !spans[a].1.empty {
            after = Some(spans[a].0);
        } else {
            a = a + 1;
        }
    }
    proof {
        lemma_first_empty_within_bounds(spans@, visible_earliest, visible_latest, 0);
        lemma_first_filled_after(spans@, g as int, g as int);
    }
    let from = match before {
        Some(t) => t,
        None => gap_time,
    };
    let to = match after {
        Some(t) => t - 1,
        None => kline_latest,
    };
    let lo = if from >= visible_earliest {
        from
    } else {
        visible_earliest
    };
    let hi = if to <= visible_latest {
        to
    } else {
        visible_latest
    };
    Some((lo, hi))
}

/// Whether a chart asks for open interest: where the indicator is shown, on
/// a perpetual, for a timeframe of five minutes or more.
pub open spec fn spec_open_interest_wanted(interval_ms: u64, shown: bool, is_perps: bool) -> bool {
    shown && is_perps && interval_ms >= spec_millis(Timeframe::M5)
}

/// Whether a chart asks for open interest.
pub fn open_interest_wanted(interval_ms: u64, shown: bool, is_perps: bool) -> (b: bool)
    ensures
        b == spec_open_interest_wanted(interval_ms, shown, is_perps),
{
    shown && is_perps && interval_ms >= Timeframe::M5.to_milliseconds()
}

pub open spec fn seq_min(s: Seq<u64>) -> u64
    decreases s.len(),
{
    if s.len() <= 1 {
        s[0]
    } else {
        min_of(seq_min(s.drop_last()), s.last())
    }
}

pub open spec fn seq_max(s: Seq<u64>) -> u64
    decreases s.len(),
{
    if s.len() <= 1 {
        s[0]
    } else {
        max_of(seq_max(s.drop_last()), s.last())
    }
}

/// The kline range that covers the missing kline times with one interval
/// to spare on each side (the visible range with it when the list is
/// empty).
pub open spec fn missing_kline_range(
    missing: Seq<u64>,
    visible_earliest: u64,
    visible_latest: u64,
    interval_ms: u64,
) -> (int, int) {
    if missing.len() == 0 {
        (visible_earliest - interval_ms, visible_latest + interval_ms)
    } else {
        (seq_min(missing) - interval_ms, seq_max(missing) + interval_ms)
    }
}

/// The requests a time-based kline chart makes for missing data, in order
/// of priority: the klines before the loaded ones, the trades of the gap,
/// open interest before and after the loaded points, and the klines that
/// are missing between the first and the last. `earliest` reaches back by
/// the visible span before the visible range.
pub open spec fn spec_missing_data_requests(
    visible_earliest: u64,
    visible_latest: u64,
    kline_earliest: u64,
    kline_latest: u64,
    interval_ms: u64,
    trade_gap: Option<(u64, u64)>,
    open_interest: Option<(u64, u64)>,
    missing_klines: Option<Seq<u64>>,
) -> Seq<FetchRange> {
    let earliest = (visible_earliest - (visible_latest - visible_earliest)) as u64;
    (if visible_earliest < kline_earliest {
        seq![FetchRange::Kline(earliest, kline_earliest)]
    } else {
        Seq::empty()
    }) + (match trade_gap {
        Some((from, to)) => seq![FetchRange::Trades(from, to)],
        None => Seq::empty(),
    }) + (match open_interest {
        Some((oi_earliest, oi_latest)) => (if visible_earliest < oi_earliest {
            seq![FetchRange::OpenInterest(earliest, oi_earliest)]
        } else {
            Seq::empty()
        }) + (if oi_latest < kline_latest {
            seq![FetchRange::OpenInterest(max_of(oi_latest, earliest), kline_latest)]
        } else {
            Seq::empty()
        }),
        None => Seq::empty(),
    }) + (match missing_klines {
        Some(m) => {
            let r = missing_kline_range(m, visible_earliest, visible_latest, interval_ms);
            seq![FetchRange::Kline(r.0 as u64, r.1 as u64)]
        },
        None => Seq::empty(),
    })
}

/// The least and the greatest of a non-empty list.
fn min_max(v: &Vec<u64>) -> (r: (u64, u64))
    requires
        v@.len() > 0,
    ensures
        r.0 == seq_min(v@),
        r.1 == seq_max(v@),
{
    let mut lo = v[0];
    let mut hi = v[0];
    let mut i: usize = 1;
    while i < v.len()
        invariant
            1 <= i <= v@.len(),
            lo == seq_min(v@.subrange(0, i as int)),
            hi == seq_max(v@.subrange(0, i as int)),
        decreases v@.len() - i,
    {
        let x = v[i];
        assert(v@.subrange(0, i + 1).drop_last() =~= v@.subrange(0, i as int));
        if x < lo {
            lo = x;
        }
        if x > hi {
            hi = x;
        }
        i = i + 1;
    }
    assert(v@.subrange(0, v@.len() as int) =~= v@);
    (lo, hi)
}

/// Lists, in order of priority, the requests a time-based kline chart
/// makes for missing data; the chart sends the first one that its request
/// handler lets through. `trade_gap` is what `visible_trade_gap` found
/// (none while trades are being fetched), `open_interest` the range of the
/// loaded open interest where `open_interest_wanted`, and `missing_klines`
/// what the integrity check of the loaded klines reported.
pub fn missing_data_requests(
    visible_earliest: u64,
    visible_latest: u64,
    kline_earliest: u64,
    kline_latest: u64,
    interval_ms: u64,
    trade_gap: Option<(u64, u64)>,
    open_interest: Option<(u64, u64)>,
    missing_klines: &Option<Vec<u64>>,
) -> (r: Vec<FetchRange>)
    requires
        visible_earliest <= visible_latest,
        visible_latest - visible_earliest <= visible_earliest,
        missing_klines matches Some(m) ==> {
            let r = missing_kline_range(m@, visible_earliest, visible_latest, interval_ms);
            0 <= r.0 && r.1 <= u64::MAX
        },
    ensures
        r@ == spec_missing_data_requests(
            visible_earliest,
            visible_latest,
            kline_earliest,
            kline_latest,
            interval_ms,
            trade_gap,
            open_interest,
            match missing_klines {
                Some(m) => Some(m@),
                None => None,
            },
        ),
{
    let earliest = visible_earliest - (visible_latest - visible_earliest);
    let mut r: Vec<FetchRange> = Vec::new();
    if visible_earliest < kline_earliest {
        r.push(FetchRange::Kline(earliest, kline_earliest));
    }
    let ghost r1 = r@;
    if let Some((from, to)) = trade_gap {
        r.push(FetchRange::Trades(from, to));
    }
    let ghost r2 = r@;
    if let Some((oi_earliest, oi_latest)) = open_interest {
        if visible_earliest < oi_earliest {
            r.push(FetchRange::OpenInterest(earliest, oi_earliest));
        }
        if oi_latest < kline_latest {
            let from = if oi_latest >= earliest {
                oi_latest
            } else {
                earliest
            };
            r.push(FetchRange::OpenInterest(from, kline_latest));
        }
    }
    let ghost r3 = r@;
    if let Some(m) = missing_klines {
        if m.len() == 0 {
            r.push(FetchRange::Kline(visible_earliest - interval_ms, visible_latest + interval_ms));
        } else {
            let (lo, hi) = min_max(m);
            r.push(FetchRange::Kline(lo - interval_ms, hi + interval_ms));
        }
    }
    let ghost mk = match missing_klines {
        Some(m) => Some(m@),
        None => None,
    };
    assert(r@ =~= spec_missing_data_requests(
        visible_earliest,
        visible_latest,
        kline_earliest,
        kline_latest,
        interval_ms,
        trade_gap,
        open_interest,
        mk,
    ));
    r
}

} // verus!
