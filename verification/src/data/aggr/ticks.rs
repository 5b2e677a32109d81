use vstd::prelude::*;

use super::{spec_tick_count, TickCount};

verus! {

/// The trade counts of the bars after one more trade: it opens a new bar
/// when there is none or the last one is full, and joins the last one
/// otherwise.
pub open spec fn add_trade(counts: Seq<usize>, interval: TickCount) -> Seq<usize> {
    if counts.len() == 0 || counts.last() >= spec_tick_count(interval) {
        counts.push(1)
    } else {
        counts.update(counts.len() - 1, (counts.last() + 1) as usize)
    }
}

/// The bar the next trade goes to.
pub open spec fn bar_for_next_trade(counts: Seq<usize>, interval: TickCount) -> int {
    if counts.len() == 0 || counts.last() >= spec_tick_count(interval) {
        counts.len() as int
    } else {
        counts.len() - 1
    }
}

/// The trade counts of the bars after `n` more trades.
pub open spec fn counts_after(counts: Seq<usize>, n: nat, interval: TickCount) -> Seq<usize>
    decreases n,
{
    if n == 0 {
        counts
    } else {
        add_trade(counts_after(counts, (n - 1) as nat, interval), interval)
    }
}

/// The bars that `n` more trades went to, in order of their first trade.
pub open spec fn bars_touched(counts: Seq<usize>, n: nat, interval: TickCount) -> Seq<usize>
    decreases n,
{
    if n == 0 {
        seq![]
    } else {
        let prev = bars_touched(counts, (n - 1) as nat, interval);
        let i = bar_for_next_trade(counts_after(counts, (n - 1) as nat, interval), interval);
        if prev.contains(i as usize) {
            prev
        } else {
            prev.push(i as usize)
        }
    }
}

/// Every bar but the last holds exactly the tick count of trades, and the
/// last one between one and that many.
pub open spec fn bars_well_formed(counts: Seq<usize>, interval: TickCount) -> bool {
    &&& forall|i: int| 0 <= i < counts.len() - 1 ==> #[trigger] counts[i] == spec_tick_count(
        interval,
    )
    &&& counts.len() > 0 ==> 1 <= counts.last() <= spec_tick_count(interval)
}

/// The number of trades in all the bars.
pub open spec fn total_trades(counts: Seq<usize>) -> int
    decreases counts.len(),
{
    if counts.len() == 0 {
        0
    } else {
        total_trades(counts.drop_last()) + counts.last()
    }
}

fn contains_index(v: &Vec<usize>, x: usize) -> (b: bool)
    ensures
        b == v@.contains(x),
{
    let mut i: usize = 0;
    while i < v.len()
        invariant
            0 <= i <= v.len(),
            forall|k: int| 0 <= k < i ==> v@[k] != x,
        decreases v.len() - i,
    {
        if v[i] == x {
            return true;
        }
        i = i + 1;
    }
    false
}

/// Groups `n_trades` more trades into the bars of a tick chart, whose trade
/// counts are `counts`: each trade joins the last bar until it holds the
/// tick count, then opens a new one. Returns the bars that received
/// trades, whose points of control are then recomputed.
pub fn group_trades_into_bars(counts: &mut Vec<usize>, n_trades: usize, interval: TickCount) -> (touched: Vec<usize>)
    requires
        old(counts).len() + n_trades <= usize::MAX,
    ensures
        final(counts)@ == counts_after(old(counts)@, n_trades as nat, interval),
        touched@ == bars_touched(old(counts)@, n_trades as nat, interval),
        bars_well_formed(old(counts)@, interval) ==> bars_well_formed(final(counts)@, interval)
            && total_trades(final(counts)@) == total_trades(old(counts)@) + n_trades,
        final(counts)@.len() >= old(counts)@.len(),
        forall|i: int|
            0 <= i < old(counts)@.len() ==> #[trigger] final(counts)@[i] >= old(counts)@[i],
        forall|i: int|
            0 <= i < old(counts)@.len() - 1 ==> #[trigger] final(counts)@[i] == old(counts)@[i],
        n_trades > 0 ==> bar_for_next_trade(
            counts_after(old(counts)@, (n_trades - 1) as nat, interval),
            interval,
        ) == final(counts)@.len() - 1,
{
    let full = interval.to_u64();
    let mut touched: Vec<usize> = Vec::new();
    let ghost start = counts@;
    let mut t: usize = 0;
    while t < n_trades
        invariant
            0 <= t <= n_trades,
            start.len() + n_trades <= usize::MAX,
            full == spec_tick_count(interval),
            counts@ == counts_after(start, t as nat, interval),
            counts@.len() <= start.len() + t,
            touched@ == bars_touched(start, t as nat, interval),
        decreases n_trades - t,
    {
        let n = counts.len();
        let idx: usize;
        if n == 0 || counts[n - 1] as u64 >= full {
            counts.push(1);
            idx = n;
        } else {
            let c = counts[n - 1];
            counts.set(n - 1, c + 1);
            idx = n - 1;
        }
        if !contains_index(&touched, idx) {
            touched.push(idx);
        }
        t = t + 1;
    }
    proof {
        law_bars_only_grow(start, n_trades as nat, interval);
        if bars_well_formed(start, interval) {
            law_bars_hold_tick_count(start, n_trades as nat, interval);
        }
    }
    touched
}

proof fn lemma_add_trade(counts: Seq<usize>, interval: TickCount)
    requires
        bars_well_formed(counts, interval),
    ensures
        bars_well_formed(add_trade(counts, interval), interval),
        total_trades(add_trade(counts, interval)) == total_trades(counts) + 1,
{
    let next = add_trade(counts, interval);
    if counts.len() == 0 || counts.last() >= spec_tick_count(interval) {
        assert(next.drop_last() =~= counts);
    } else {
        assert(next.drop_last() =~= counts.drop_last());
    }
}

/// Grouping trades into bars keeps every bar but the last full and the
/// last one neither empty nor over the tick count, loses no trade, and
/// never lowers the number of bars.
pub proof fn law_bars_hold_tick_count(counts: Seq<usize>, n: nat, interval: TickCount)
    requires
        bars_well_formed(counts, interval),
    ensures
        bars_well_formed(counts_after(counts, n, interval), interval),
        total_trades(counts_after(counts, n, interval)) == total_trades(counts) + n,
        counts_after(counts, n, interval).len() >= counts.len(),
    decreases n,
{
    law_bars_only_grow(counts, n, interval);
    if n > 0 {
        law_bars_hold_tick_count(counts, (n - 1) as nat, interval);
        lemma_add_trade(counts_after(counts, (n - 1) as nat, interval), interval);
    }
}

/// Grouping more trades never shrinks a bar: no bar is removed, every bar
/// keeps at least its trades, the bars before the last are left as they
/// were, and the latest trade lands in the last bar.
pub proof fn law_bars_only_grow(counts: Seq<usize>, n: nat, interval: TickCount)
    ensures
        counts_after(counts, n, interval).len() >= counts.len(),
        forall|i: int|
            0 <= i < counts.len() ==> #[trigger] counts_after(counts, n, interval)[i] >= counts[i],
        forall|i: int|
            0 <= i < counts.len() - 1 ==> #[trigger] counts_after(counts, n, interval)[i]
                == counts[i],
        n > 0 ==> bar_for_next_trade(counts_after(counts, (n - 1) as nat, interval), interval)
            == counts_after(counts, n, interval).len() - 1,
    decreases n,
{
    if n > 0 {
        law_bars_only_grow(counts, (n - 1) as nat, interval);
        let prev = counts_after(counts, (n - 1) as nat, interval);
        let next = counts_after(counts, n, interval);
        assert(next == add_trade(prev, interval));
        assert forall|i: int| 0 <= i < counts.len() implies #[trigger] next[i] >= counts[i] by {
            assert(prev[i] >= counts[i]);
        }
        assert forall|i: int| 0 <= i < counts.len() - 1 implies #[trigger] next[i] == counts[i] by {
            assert(prev[i] == counts[i]);
        }
    }
}

/// The position of bar `index` counted back from the latest of `total`
/// bars, the latest being at 0: where a point of control reports the bar
/// that filled it.
pub fn position_from_latest(total: usize, index: usize) -> (p: usize)
    requires
        index < total,
    ensures
        p == total - 1 - index,
{
    total - 1 - index
}

} // verus!
