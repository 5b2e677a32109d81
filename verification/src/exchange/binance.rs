use vstd::prelude::*;

use super::adapter::{Exchange, MarketKind};
use crate::exchanges::{spec_timeframe_label, Ticker, Timeframe};
use crate::text::{find_char_from, has_prefix_at, index_of_from, lemma_index_of_from, starts_with, str_equals};

verus! {

broadcast use vstd::string::group_string_axioms;

/// The Binance venue serving a market kind.
pub open spec fn spec_exchange_for(market: MarketKind) -> Exchange {
    match market {
        MarketKind::Spot => Exchange::BinanceSpot,
        MarketKind::LinearPerps => Exchange::BinanceLinear,
        MarketKind::InversePerps => Exchange::BinanceInverse,
    }
}

pub fn exchange_from_market_type(market: MarketKind) -> (e: Exchange)
    ensures
        e == spec_exchange_for(market),
{
    match market {
        MarketKind::Spot => Exchange::BinanceSpot,
        MarketKind::LinearPerps => Exchange::BinanceLinear,
        MarketKind::InversePerps => Exchange::BinanceInverse,
    }
}

// ---------------------------------------------------------------------------
// Depth stream synchronisation
// ---------------------------------------------------------------------------

/// The update ids a streamed depth diff carries.
#[derive(Debug, Clone, Copy, PartialEq, Eq, Structural)]
pub enum DepthEventIds {
    /// Futures diff: first and final update id, and the final id of the
    /// previous diff.
    Perp { first_id: u64, final_id: u64, prev_final_id: u64 },
    /// Spot diff: first and final update id.
    Spot { first_id: u64, final_id: u64 },
}

/// What the stream does with a depth diff.
#[derive(Debug, Clone, Copy, PartialEq, Eq, Structural)]
pub enum DepthSyncAction {
    /// Drop the diff: a snapshot is being fetched, no snapshot is there yet,
    /// or the diff is older than the book.
    Skip,
    /// Possibly fetch a fresh snapshot first (`resync`), then either apply
    /// the diff and remember its final id (`apply`), or disconnect because
    /// the diff does not continue the previous one.
    Proceed { resync: bool, apply: bool },
}

pub open spec fn event_first_id(e: DepthEventIds) -> u64 {
    match e {
        DepthEventIds::Perp { first_id, .. } => first_id,
        DepthEventIds::Spot { first_id, .. } => first_id,
    }
}

pub open spec fn event_final_id(e: DepthEventIds) -> u64 {
    match e {
        DepthEventIds::Perp { final_id, .. } => final_id,
        DepthEventIds::Spot { final_id, .. } => final_id,
    }
}

/// Whether a diff continues the one applied before it (final id `prev_id`).
pub open spec fn continues_previous(prev_id: u64, e: DepthEventIds) -> bool {
    match e {
        DepthEventIds::Perp { prev_final_id, .. } => prev_id == prev_final_id,
        DepthEventIds::Spot { first_id, .. } => prev_id == first_id - 1,
    }
}

/// The decision for a diff, given whether a snapshot fetch is running, the
/// update id of the book and the final id of the last diff applied (zero
/// after a snapshot).
pub open spec fn spec_depth_sync(
    already_fetching: bool,
    last_update_id: u64,
    prev_id: u64,
    e: DepthEventIds,
) -> DepthSyncAction {
    if already_fetching || event_final_id(e) <= last_update_id || last_update_id == 0 {
        DepthSyncAction::Skip
    } else {
        DepthSyncAction::Proceed {
            resync: (prev_id == 0 && event_first_id(e) > last_update_id + 1) || (last_update_id
                + 1 > event_final_id(e)),
            apply: prev_id == 0 || continues_previous(prev_id, e),
        }
    }
}

/// Whether a diff is dropped before it is looked at further.
pub open spec fn depth_diff_skipped(already_fetching: bool, last_update_id: u64, e: DepthEventIds) -> bool {
    already_fetching || event_final_id(e) <= last_update_id || last_update_id == 0
}

/// Decides what to do with a streamed depth diff. A spot diff that has to
/// continue an applied one starts at an id of at least one.
pub fn depth_sync_action(
    already_fetching: bool,
    last_update_id: u64,
    prev_id: u64,
    event: DepthEventIds,
) -> (a: DepthSyncAction)
    requires
        event is Spot && prev_id != 0 && !depth_diff_skipped(already_fetching, last_update_id, event)
            ==> event_first_id(event) >= 1,
    ensures
        a == spec_depth_sync(already_fetching, last_update_id, prev_id, event),
        a matches DepthSyncAction::Proceed { apply: true, .. } ==> event_final_id(event)
            > last_update_id && (prev_id == 0 || continues_previous(prev_id, event)),
        already_fetching ==> a == DepthSyncAction::Skip,
{
    if already_fetching {
        return DepthSyncAction::Skip;
    }
    let (first_id, final_id) = match event {
        DepthEventIds::Perp { first_id, final_id, .. } => (first_id, final_id),
        DepthEventIds::Spot { first_id, final_id } => (first_id, final_id),
    };
    if final_id <= last_update_id || last_update_id == 0 {
        return DepthSyncAction::Skip;
    }
    let resync = (prev_id == 0 && first_id > last_update_id + 1) || (last_update_id + 1
        > final_id);
    let apply = prev_id == 0 || match event {
        DepthEventIds::Perp { prev_final_id, .. } => prev_id == prev_final_id,
        DepthEventIds::Spot { first_id, .. } => prev_id == first_id - 1,
    };
    DepthSyncAction::Proceed { resync, apply }
}

/// Where a depth stream stands: disconnected, or connected with the final
/// id of the last diff applied (zero right after the snapshot).
#[derive(Debug, Clone, Copy, PartialEq, Eq, Structural)]
pub enum DepthStream {
    Disconnected,
    Connected { prev_id: u64 },
}

/// The stream after its diff was decided: a skipped diff changes nothing,
/// an applied one becomes the last applied, and one that does not continue
/// the previous diff disconnects the stream.
pub open spec fn spec_stream_after(prev_id: u64, e: DepthEventIds, a: DepthSyncAction) -> DepthStream {
    match a {
        DepthSyncAction::Skip => DepthStream::Connected { prev_id },
        DepthSyncAction::Proceed { apply, .. } => if apply {
            DepthStream::Connected { prev_id: event_final_id(e) }
        } else {
            DepthStream::Disconnected
        },
    }
}

impl DepthStream {
    /// A stream whose snapshot was just fetched: connected, with no diff
    /// applied yet.
    pub fn after_snapshot() -> (s: Self)
        ensures
            s == (DepthStream::Connected { prev_id: 0 }),
    {
        DepthStream::Connected { prev_id: 0 }
    }

    /// Takes a diff on a connected stream: decides what to do with it and
    /// gives the stream's next state.
    pub fn on_diff(
        prev_id: u64,
        already_fetching: bool,
        last_update_id: u64,
        event: DepthEventIds,
    ) -> (r: (DepthStream, DepthSyncAction))
        requires
            event is Spot && prev_id != 0 && !depth_diff_skipped(
                already_fetching,
                last_update_id,
                event,
            ) ==> event_first_id(event) >= 1,
        ensures
            r.1 == spec_depth_sync(already_fetching, last_update_id, prev_id, event),
            r.0 == spec_stream_after(prev_id, event, r.1),
    {
        let a = depth_sync_action(already_fetching, last_update_id, prev_id, event);
        let next = match a {
            DepthSyncAction::Skip => DepthStream::Connected { prev_id },
            DepthSyncAction::Proceed { apply, .. } => if apply {
                let final_id = match event {
                    DepthEventIds::Perp { final_id, .. } => final_id,
                    DepthEventIds::Spot { final_id, .. } => final_id,
                };
                DepthStream::Connected { prev_id: final_id }
            } else {
                DepthStream::Disconnected
            },
        };
        (next, a)
    }
}

/// Diffs applied in a row on a connected stream chain: each applied diff
/// comes after the book and continues the one applied before it (or is the
/// first after the snapshot), and the stream then remembers its final id; a
/// diff that does not continue the chain disconnects the stream.
pub proof fn law_stream_applies_only_chained_diffs(
    prev_id: u64,
    already_fetching: bool,
    last_update_id: u64,
    e: DepthEventIds,
)
    ensures
        ({
            let a = spec_depth_sync(already_fetching, last_update_id, prev_id, e);
            let next = spec_stream_after(prev_id, e, a);
            &&& a matches DepthSyncAction::Proceed { apply: true, .. } ==> next == (
            DepthStream::Connected { prev_id: event_final_id(e) }) && event_final_id(e)
                > last_update_id && (prev_id == 0 || continues_previous(prev_id, e))
            &&& (next is Disconnected <==> (!depth_diff_skipped(already_fetching, last_update_id, e)
                && prev_id != 0 && !continues_previous(prev_id, e)))
            &&& (depth_diff_skipped(already_fetching, last_update_id, e) ==> next == (
            DepthStream::Connected { prev_id }))
        }),
{
}


/// How a connected depth stream answers each diff, in terms of the diff's
/// update ids. A diff is dropped, leaving the stream as it was, exactly when
/// a snapshot is being fetched, no snapshot is there yet, or the diff ends
/// at or before the book. Otherwise a futures diff is applied exactly when
/// it is the first after the snapshot or its previous final id (`pu`) is the
/// final id of the last diff applied, whatever its first id; a spot diff
/// exactly when it is the first after the snapshot or it starts right after
/// the last diff applied. An applied diff leaves the stream connected with
/// its final id; a diff not applied disconnects it. A resync is asked for
/// exactly when the first diff after the snapshot starts past the book.
pub proof fn law_depth_stream_answers(
    prev_id: u64,
    already_fetching: bool,
    last_update_id: u64,
    e: DepthEventIds,
)
    ensures
        ({
            let a = spec_depth_sync(already_fetching, last_update_id, prev_id, e);
            let next = spec_stream_after(prev_id, e, a);
            let (first, last) = match e {
                DepthEventIds::Perp { first_id, final_id, .. } => (first_id, final_id),
                DepthEventIds::Spot { first_id, final_id } => (first_id, final_id),
            };
            let dropped = already_fetching || last <= last_update_id || last_update_id == 0;
            let chained = prev_id == 0 || match e {
                DepthEventIds::Perp { prev_final_id, .. } => prev_final_id == prev_id,
                DepthEventIds::Spot { first_id, .. } => first_id == prev_id + 1,
            };
            &&& dropped ==> a == DepthSyncAction::Skip && next == (DepthStream::Connected {
                prev_id,
            })
            &&& !dropped ==> a == (DepthSyncAction::Proceed {
                resync: prev_id == 0 && first > last_update_id + 1,
                apply: chained,
            })
            &&& !dropped && chained ==> next == (DepthStream::Connected { prev_id: last })
            &&& !dropped && !chained ==> next == DepthStream::Disconnected
        }),
{
}

// ---------------------------------------------------------------------------
// Combined stream names
// ---------------------------------------------------------------------------

/// The kind of payload a combined stream message carries.
#[derive(Debug, Clone, Copy, PartialEq, Eq, Structural)]
pub enum StreamWrapper {
    Trade,
    Depth,
    Kline,
}

/// The part of a stream name between its first and second '@', if it has
/// an '@'.
pub open spec fn second_segment(s: Seq<char>) -> Option<Seq<char>> {
    let a = index_of_from(s, '@', 0);
    if a >= s.len() {
        None
    } else {
        Some(s.subrange(a + 1, index_of_from(s, '@', a + 1)))
    }
}

/// The payload kind a stream name such as "btcusdt@depth@100ms" announces.
pub open spec fn spec_stream_wrapper(s: Seq<char>) -> Option<StreamWrapper> {
    match second_segment(s) {
        None => None,
        Some(seg) => if starts_with(seg, "de"@) {
            Some(StreamWrapper::Depth)
        } else if starts_with(seg, "ag"@) {
            Some(StreamWrapper::Trade)
        } else if starts_with(seg, "kl"@) {
            Some(StreamWrapper::Kline)
        } else {
            None
        },
    }
}

impl StreamWrapper {
    /// Reads the payload kind from the stream name of a combined stream
    /// message.
    pub fn from_stream_type(stream_type: &str) -> (w: Option<Self>)
        ensures
            w == spec_stream_wrapper(stream_type@),
    {
        let len = stream_type.unicode_len();
        proof {
            lemma_index_of_from(stream_type@, '@', 0);
        }
        let a = find_char_from(stream_type, len, '@', 0);
        if a >= len {
            return None;
        }
        proof {
            lemma_index_of_from(stream_type@, '@', a + 1);
        }
        let b = find_char_from(stream_type, len, '@', a + 1);
        if has_prefix_at(stream_type, len, a + 1, b, "de") {
            Some(StreamWrapper::Depth)
        } else if has_prefix_at(stream_type, len, a + 1, b, "ag") {
            Some(StreamWrapper::Trade)
        } else if has_prefix_at(stream_type, len, a + 1, b, "kl") {
            Some(StreamWrapper::Kline)
        } else {
            None
        }
    }
}

/// The timeframe of the first subscription whose interval name is
/// `interval`.
pub open spec fn spec_stream_timeframe(streams: Seq<(Ticker, Timeframe)>, interval: Seq<char>) -> Option<
    Timeframe,
>
    decreases streams.len(),
{
    if streams.len() == 0 {
        None
    } else if spec_timeframe_label(streams[0].1) == interval {
        Some(streams[0].1)
    } else {
        spec_stream_timeframe(streams.drop_first(), interval)
    }
}

/// Finds which subscribed kline stream a kline of interval `interval`
/// (such as "15m") belongs to.
pub fn find_stream_timeframe(streams: &[(Ticker, Timeframe)], interval: &str) -> (r: Option<
    Timeframe,
>)
    ensures
        r == spec_stream_timeframe(streams@, interval@),
{
    let mut i: usize = 0;
    assert(streams@.subrange(0, streams@.len() as int) =~= streams@);
    while i < streams.len()
        invariant
            0 <= i <= streams.len(),
            spec_stream_timeframe(streams@, interval@) == spec_stream_timeframe(
                streams@.subrange(i as int, streams@.len() as int),
                interval@,
            ),
        decreases streams.len() - i,
    {
        let tf = streams[i].1;
        let rest = Ghost(streams@.subrange(i as int, streams@.len() as int));
        assert(rest@[0] == streams@[i as int]);
        assert(rest@.drop_first() =~= streams@.subrange(i + 1, streams@.len() as int));
        if str_equals(tf.label(), interval) {
            return Some(tf);
        }
        i = i + 1;
    }
    assert(streams@.subrange(i as int, streams@.len() as int) =~= Seq::<(Ticker, Timeframe)>::empty());
    None
}

// ---------------------------------------------------------------------------
// Request windows
// ---------------------------------------------------------------------------

/// The query window of a kline request: the explicit time range, if any,
/// and the number of klines asked for.
#[derive(Debug, Clone, Copy, PartialEq, Eq)]
pub struct KlineWindow {
    pub range: Option<(u64, u64)>,
    pub limit: u64,
}

pub open spec fn min_int(a: int, b: int) -> int {
    if a <= b {
        a
    } else {
        b
    }
}

/// The window asked for: without a range the latest 400 klines; with a
/// range of fewer than three intervals, the range widened by five intervals
/// on each side; at most 1000 klines either way.
pub open spec fn spec_kline_window(range: Option<(u64, u64)>, interval_ms: u64) -> KlineWindow {
    match range {
        None => KlineWindow { range: None, limit: 400 },
        Some((start, end)) => {
            let n = min_int((end - start) / interval_ms as int, 1000);
            if n < 3 {
                let s2 = start - interval_ms * 5;
                let e2 = end + interval_ms * 5;
                KlineWindow {
                    range: Some((s2 as u64, e2 as u64)),
                    limit: min_int((e2 - s2) / interval_ms as int, 1000) as u64,
                }
            } else {
                KlineWindow { range: Some((start, end)), limit: n as u64 }
            }
        },
    }
}

/// Whether a kline range can be asked for without the arithmetic leaving
/// the u64 range.
pub open spec fn kline_range_ok(range: Option<(u64, u64)>, interval_ms: u64) -> bool {
    interval_ms > 0 && match range {
        None => true,
        Some((start, end)) => start <= end && (min_int((end - start) / interval_ms as int, 1000)
            < 3 ==> start >= interval_ms * 5 && end + interval_ms * 5 <= u64::MAX),
    }
}

/// Computes the window of a kline request for klines of `interval_ms`.
pub fn kline_fetch_window(range: Option<(u64, u64)>, interval_ms: u64) -> (w: KlineWindow)
    requires
        kline_range_ok(range, interval_ms),
    ensures
        w == spec_kline_window(range, interval_ms),
        w.limit <= 1000,
{
    match range {
        None => KlineWindow { range: None, limit: 400 },
        Some((start, end)) => {
            let q = (end - start) / interval_ms;
            let num_intervals = if q < 1000 {
                q
            } else {
                1000
            };
            if num_intervals < 3 {
                let new_start = start - (interval_ms * 5);
                let new_end = end + (interval_ms * 5);
                let q2 = (new_end - new_start) / interval_ms;
                let limit = if q2 < 1000 {
                    q2
                } else {
                    1000
                };
                KlineWindow { range: Some((new_start, new_end)), limit }
            } else {
                KlineWindow { range: Some((start, end)), limit: num_intervals }
            }
        },
    }
}

/// A kline request covers the range asked for: without a range it asks
/// for the latest 400 klines; with one, it asks for between three and 1000
/// klines over a window containing the range, widened by five intervals on
/// each side when the range holds fewer than three.
pub proof fn law_kline_window_covers_range(range: Option<(u64, u64)>, interval_ms: u64)
    requires
        kline_range_ok(range, interval_ms),
    ensures
        ({
            let w = spec_kline_window(range, interval_ms);
            &&& range is None ==> w.range is None && w.limit == 400
            &&& range matches Some((start, end)) ==> w.range matches Some((s2, e2)) && s2 <= start
                && end <= e2 && 3 <= w.limit <= 1000 && (s2 != start ==> s2 == start - 5
                * interval_ms && e2 == end + 5 * interval_ms)
        }),
{
    if let Some((start, end)) = range {
        let i = interval_ms as int;
        let n = min_int((end - start) / i, 1000);
        if n < 3 {
            let s2 = start - i * 5;
            let e2 = end + i * 5;
            vstd::arithmetic::div_mod::lemma_div_is_ordered(10 * i, e2 - s2, i);
            vstd::arithmetic::div_mod::lemma_div_multiples_vanish(10, i);
            assert((10 * i) / i == 10);
        }
    }
}

/// How far back the open interest history reaches.
pub const THIRTY_DAYS_MS: u64 = 2_592_000_000;

/// Why an open interest request cannot be made.
#[derive(Debug, Clone, Copy, PartialEq, Eq, Structural)]
pub enum OiRequestError {
    /// Spot markets have no open interest.
    UnsupportedMarket,
    /// The range ends before the thirty days the history keeps.
    BeforeAvailableData,
}

/// The window of an open interest request made at wall-clock time
/// `now_ms`: the range is moved to start no earlier than thirty days ago,
/// and at most 500 points are asked for.
pub open spec fn spec_oi_window(
    market: MarketKind,
    range: Option<(u64, u64)>,
    period_ms: u64,
    now_ms: u64,
) -> Result<KlineWindow, OiRequestError> {
    if market is Spot {
        Err(OiRequestError::UnsupportedMarket)
    } else {
        match range {
            None => Ok(KlineWindow { range: None, limit: 400 }),
            Some((start, end)) => {
                let floor = now_ms - THIRTY_DAYS_MS;
                if end < floor {
                    Err(OiRequestError::BeforeAvailableData)
                } else {
                    let s2 = if start < floor {
                        floor
                    } else {
                        start as int
                    };
                    Ok(
                        KlineWindow {
                            range: Some((s2 as u64, end)),
                            limit: min_int((end - s2) / period_ms as int, 500) as u64,
                        },
                    )
                }
            },
        }
    }
}

/// Computes the window of an open interest request. For a range on a
/// perpetual, the wall clock is past the first thirty days after the epoch;
/// a range that reaches into the last thirty days does not end before it
/// starts, and the period is not empty.
pub fn oi_fetch_window(
    market: MarketKind,
    range: Option<(u64, u64)>,
    period_ms: u64,
    now_ms: u64,
) -> (w: Result<KlineWindow, OiRequestError>)
    requires
        !(market is Spot) && range is Some ==> now_ms >= THIRTY_DAYS_MS,
        !(market is Spot) ==> match range {
            Some((start, end)) => end >= now_ms - THIRTY_DAYS_MS ==> start <= end && period_ms
                > 0,
            None => true,
        },
    ensures
        w == spec_oi_window(market, range, period_ms, now_ms),
{
    if let MarketKind::Spot = market {
        return Err(OiRequestError::UnsupportedMarket);
    }
    match range {
        None => Ok(KlineWindow { range: None, limit: 400 }),
        Some((start, end)) => {
            let thirty_days_ago = now_ms - THIRTY_DAYS_MS;
            if end < thirty_days_ago {
                return Err(OiRequestError::BeforeAvailableData);
            }
            let adjusted_start = if start < thirty_days_ago {
                thirty_days_ago
            } else {
                start
            };
            let q = (end - adjusted_start) / period_ms;
            let limit = if q < 500 {
                q
            } else {
                500
            };
            Ok(KlineWindow { range: Some((adjusted_start, end)), limit })
        },
    }
}

/// An open interest request never reaches before the thirty days of
/// history nor asks for more than 500 points; a range keeps its end and
/// only moves its start forward to the start of the history.
pub proof fn law_oi_window_within_history(
    market: MarketKind,
    range: Option<(u64, u64)>,
    period_ms: u64,
    now_ms: u64,
)
    requires
        now_ms >= THIRTY_DAYS_MS,
        period_ms > 0,
        range matches Some((start, end)) ==> start <= end,
    ensures
        spec_oi_window(market, range, period_ms, now_ms) matches Ok(w) ==> {
            &&& w.limit <= 500
            &&& (range is None <==> w.range is None)
            &&& (range matches Some((start, end)) ==> w.range matches Some((s2, e2)) && e2 == end
                && start <= s2 && now_ms - THIRTY_DAYS_MS <= s2 <= e2)
        },
{
}

// ---------------------------------------------------------------------------
// Exchange information
// ---------------------------------------------------------------------------

/// Whether a symbol listed in the exchange information is kept: perpetual
/// contracts only (when a contract type is given), quoted in USDT or USD
/// (when a quote asset is given), trading or halted (when a status is
/// given).
pub open spec fn spec_symbol_kept(
    contract_type: Option<Seq<char>>,
    quote_asset: Option<Seq<char>>,
    status: Option<Seq<char>>,
) -> bool {
    &&& (contract_type matches Some(c) ==> c == "PERPETUAL"@)
    &&& (quote_asset matches Some(q) ==> q == "USDT"@ || q == "USD"@)
    &&& (status matches Some(st) ==> st == "TRADING"@ || st == "HALT"@)
}

/// A listed symbol is kept exactly when each of its given fields has an
/// accepted value: contract type "PERPETUAL"; quote asset "USDT" or "USD"
/// (so "USDC", "BUSD" or any other quote asset is passed over); status
/// "TRADING" or "HALT". A field that is not given does not count against it.
pub proof fn law_symbol_kept_by_accepted_values(
    contract_type: Option<Seq<char>>,
    quote_asset: Option<Seq<char>>,
    status: Option<Seq<char>>,
)
    ensures
        spec_symbol_kept(contract_type, quote_asset, status) <==> (contract_type is None
            || contract_type == Some("PERPETUAL"@)) && (quote_asset is None || quote_asset == Some(
            "USDT"@,
        ) || quote_asset == Some("USD"@)) && (status is None || status == Some("TRADING"@)
            || status == Some("HALT"@)),
        quote_asset matches Some(q) && q != "USDT"@ && q != "USD"@ ==> !spec_symbol_kept(
            contract_type,
            quote_asset,
            status,
        ),
{
}

pub open spec fn opt_view(s: Option<&str>) -> Option<Seq<char>> {
    match s {
        Some(x) => Some(x@),
        None => None,
    }
}

pub fn symbol_kept(contract_type: Option<&str>, quote_asset: Option<&str>, status: Option<&str>) -> (b:
    bool)
    ensures
        b == spec_symbol_kept(opt_view(contract_type), opt_view(quote_asset), opt_view(status)),
{
    if let Some(c) = contract_type {
        if !str_equals(c, "PERPETUAL") {
            return false;
        }
    }
    if let Some(q) = quote_asset {
        if !str_equals(q, "USDT") && !str_equals(q, "USD") {
            return false;
        }
    }
    if let Some(st) = status {
        if !str_equals(st, "TRADING") && !str_equals(st, "HALT") {
            return false;
        }
    }
    true
}

/// The contract size of an inverse perpetual: 100 for "BTCUSD_PERP", 10
/// for the others; other markets have none.
pub open spec fn spec_contract_size(symbol: Seq<char>, market: MarketKind) -> Option<u32> {
    match market {
        MarketKind::InversePerps => if symbol == "BTCUSD_PERP"@ {
            Some(100)
        } else {
            Some(10)
        },
        _ => None,
    }
}

pub fn get_contract_size(symbol: &str, market: MarketKind) -> (c: Option<u32>)
    ensures
        c == spec_contract_size(symbol@, market),
{
    match market {
        MarketKind::Spot | MarketKind::LinearPerps => None,
        MarketKind::InversePerps => {
            if str_equals(symbol, "BTCUSD_PERP") {
                Some(100)
            } else {
                Some(10)
            }
        },
    }
}

/// Where trades from a given time are fetched.
#[derive(Debug, Clone, Copy, PartialEq, Eq, Structural)]
pub enum TradeSource {
    /// The paginated REST endpoint, for trades of the current day.
    Intraday,
    /// The daily archive, falling back to the REST endpoint.
    DailyArchive,
}

/// Trades from today (at or after midnight UTC) come from the REST
/// endpoint, older ones from the daily archive.
pub fn trade_source(from_time: u64, today_midnight_ms: u64) -> (s: TradeSource)
    ensures
        s == (if from_time >= today_midnight_ms {
            TradeSource::Intraday
        } else {
            TradeSource::DailyArchive
        }),
{
    if from_time >= today_midnight_ms {
        TradeSource::Intraday
    } else {
        TradeSource::DailyArchive
    }
}

/// The request weight a minute that Binance allows on a market's REST API.
pub open spec fn spec_weight_limit(market: MarketKind) -> u32 {
    match market {
        MarketKind::Spot => 6000,
        MarketKind::LinearPerps | MarketKind::InversePerps => 2400,
    }
}

pub fn weight_limit(market: MarketKind) -> (w: u32)
    ensures
        w == spec_weight_limit(market),
{
    match market {
        MarketKind::Spot => 6000,
        MarketKind::LinearPerps | MarketKind::InversePerps => 2400,
    }
}

/// The seconds to pause after a response that reports `weight` used out of
/// `max_limit` this minute: ten from 95% of the limit, five from 90%, three
/// from 80%, none below; none when both are zero, as the usage is then no
/// number at all.
pub open spec fn spec_rate_limit_pause(weight: i32, max_limit: u32) -> u64 {
    if weight == 0 && max_limit == 0 {
        0
    } else if 100 * weight >= 95 * max_limit {
        10
    } else if 100 * weight >= 90 * max_limit {
        5
    } else if 100 * weight >= 80 * max_limit {
        3
    } else {
        0
    }
}

/// How long to pause before the next request, judged by the weight that
/// the last response reported.
pub fn rate_limit_pause_secs(weight: i32, max_limit: u32) -> (secs: u64)
    ensures
        secs == spec_rate_limit_pause(weight, max_limit),
{
    let used: i64 = 100 * (weight as i64);
    let limit: i64 = max_limit as i64;
    if weight == 0 && max_limit == 0 {
        0
    } else if used >= 95 * limit {
        10
    } else if used >= 90 * limit {
        5
    } else if used >= 80 * limit {
        3
    } else {
        0
    }
}

} // verus!
