use std::collections::BTreeMap;

use flowsurface::chart::timeandsales::{trim_recent_trades, MAX_RECENT_TRADES, TRIMMED_RECENT_TRADES};
use flowsurface::chart::kline::{
    missing_data_requests, open_interest_wanted, visible_trade_gap, FetchRange,
};
use flowsurface::data::aggr::ticks::{group_trades_into_bars, position_from_latest};
use flowsurface::data::util::start_of_day_ms;
use flowsurface::data::aggr::time::{cleanup_old_data, oi_timerange, TradeSpan};
use flowsurface::data::aggr::TickCount;
use flowsurface::data::chart::kline::{npoc_status, KlineChartKind, LaterRange, NPoc};
use flowsurface::data::chart::timeandsales::count_buys_and_sells;
use flowsurface::exchange::adapter::MarketKind;
use flowsurface::exchange::binance::{find_stream_timeframe, rate_limit_pause_secs, weight_limit};
use flowsurface::exchanges::adapter::MarketType;
use flowsurface::exchanges::{Ticker, Timeframe};

fn filled(t: u64) -> (u64, TradeSpan) {
    (
        t,
        TradeSpan {
            empty: false,
            first_trade: Some(t + 1),
            last_trade: Some(t + 50),
        },
    )
}

fn empty(t: u64) -> (u64, TradeSpan) {
    (
        t,
        TradeSpan {
            empty: true,
            first_trade: None,
            last_trade: None,
        },
    )
}

#[test]
fn trade_gap_spans_from_last_filled_to_next_filled() {
    let spans = vec![filled(100), empty(200), empty(300), filled(400)];
    assert_eq!(visible_trade_gap(&spans, 150, 450, 400), Some((150, 399)));
    assert_eq!(visible_trade_gap(&spans, 50, 450, 400), Some((100, 399)));
    assert_eq!(visible_trade_gap(&spans, 250, 350, 400), Some((250, 350)));
}

#[test]
fn trade_gap_without_later_trades_reaches_latest_kline() {
    let spans = vec![filled(100), empty(200)];
    assert_eq!(visible_trade_gap(&spans, 0, 1000, 200), Some((100, 200)));
    let only_gap = vec![empty(500)];
    assert_eq!(visible_trade_gap(&only_gap, 0, 1000, 500), Some((500, 500)));
}

#[test]
fn trade_gap_ignores_gaps_outside_the_view() {
    let spans = vec![filled(100), empty(200), filled(300)];
    assert_eq!(visible_trade_gap(&spans, 250, 400, 300), None);
    assert_eq!(visible_trade_gap(&[], 0, 400, 0), None);
}

#[test]
fn missing_data_requests_in_priority_order() {
    let r = missing_data_requests(
        1000,
        1500,
        1200,
        2000,
        100,
        Some((1300, 1400)),
        Some((1100, 1900)),
        &Some(vec![1700, 1500]),
    );
    assert_eq!(
        r,
        vec![
            FetchRange::Kline(500, 1200),
            FetchRange::Trades(1300, 1400),
            FetchRange::OpenInterest(500, 1100),
            FetchRange::OpenInterest(1900, 2000),
            FetchRange::Kline(1400, 1800),
        ]
    );
}

#[test]
fn missing_data_requests_nothing_when_all_loaded() {
    let r = missing_data_requests(1000, 1200, 900, 1300, 100, None, Some((900, 1300)), &None);
    assert!(r.is_empty());
}

#[test]
fn missing_data_requests_empty_integrity_report_uses_view() {
    let r = missing_data_requests(1000, 1200, 900, 1300, 100, None, None, &Some(vec![]));
    assert_eq!(r, vec![FetchRange::Kline(900, 1300)]);
}

#[test]
fn open_interest_only_for_perps_from_five_minutes() {
    assert!(open_interest_wanted(300_000, true, true));
    assert!(open_interest_wanted(3_600_000, true, true));
    assert!(!open_interest_wanted(60_000, true, true));
    assert!(!open_interest_wanted(300_000, false, true));
    assert!(!open_interest_wanted(300_000, true, false));
}

#[test]
fn weight_limits_per_market() {
    assert_eq!(weight_limit(MarketKind::Spot), 6000);
    assert_eq!(weight_limit(MarketKind::LinearPerps), 2400);
    assert_eq!(weight_limit(MarketKind::InversePerps), 2400);
}

#[test]
fn rate_limit_pause_by_usage() {
    assert_eq!(rate_limit_pause_secs(5700, 6000), 10);
    assert_eq!(rate_limit_pause_secs(5699, 6000), 5);
    assert_eq!(rate_limit_pause_secs(5400, 6000), 5);
    assert_eq!(rate_limit_pause_secs(5399, 6000), 3);
    assert_eq!(rate_limit_pause_secs(4800, 6000), 3);
    assert_eq!(rate_limit_pause_secs(4799, 6000), 0);
    assert_eq!(rate_limit_pause_secs(2400, 2400), 10);
    assert_eq!(rate_limit_pause_secs(-5, 2400), 0);
}

#[test]
fn kline_stream_matched_by_interval_label() {
    let t = Ticker::new("BTCUSDT", MarketType::LinearPerps);
    let streams = vec![(t, Timeframe::M1), (t, Timeframe::M15)];
    assert_eq!(find_stream_timeframe(&streams, "15m"), Some(Timeframe::M15));
    assert_eq!(find_stream_timeframe(&streams, "1m"), Some(Timeframe::M1));
    assert_eq!(find_stream_timeframe(&streams, "4h"), None);
}

#[test]
fn open_interest_range_seen_from_latest_kline() {
    let mut oi: BTreeMap<u64, u32> = BTreeMap::new();
    assert_eq!(oi_timerange(&oi, 700), (700, 0));
    oi.insert(100, 1);
    oi.insert(300, 2);
    assert_eq!(oi_timerange(&oi, 200), (100, 300));
    assert_eq!(oi_timerange(&oi, 50), (50, 300));
}

#[test]
fn cleanup_drops_a_tenth_of_threshold_oldest() {
    let mut m: BTreeMap<u64, u32> = BTreeMap::new();
    for k in 1..=12u64 {
        m.insert(k, k as u32);
    }
    let oldest = cleanup_old_data(&mut m, 10);
    assert_eq!(oldest, Some(2));
    assert_eq!(m.len(), 11);
    assert!(!m.contains_key(&1));

    let mut big: BTreeMap<u64, u32> = BTreeMap::new();
    for k in 0..25u64 {
        big.insert(k * 10, 0);
    }
    assert_eq!(cleanup_old_data(&mut big, 20), Some(20));
    assert_eq!(big.len(), 23);

    let before = m.clone();
    assert_eq!(cleanup_old_data(&mut m, 20), None);
    assert_eq!(m, before);
}

#[test]
fn npoc_filled_at_first_revisit() {
    let later = vec![
        LaterRange { at: 1, low: 10, high: 40 },
        LaterRange { at: 2, low: 45, high: 55 },
        LaterRange { at: 3, low: 50, high: 60 },
    ];
    assert_eq!(npoc_status(50, &later), NPoc::Filled { at: 2 });
    assert_eq!(npoc_status(40, &later), NPoc::Filled { at: 1 });
    assert_eq!(npoc_status(70, &later), NPoc::Naked);
    assert_eq!(npoc_status(70, &[]), NPoc::Pending);
}

#[test]
fn kline_chart_defaults_to_candles() {
    assert_eq!(KlineChartKind::default_kind(), KlineChartKind::Candles);
}

#[test]
fn trades_fill_tick_bars_in_turn() {
    let mut counts: Vec<usize> = Vec::new();
    let touched = group_trades_into_bars(&mut counts, 25, TickCount::T10);
    assert_eq!(counts, vec![10, 10, 5]);
    assert_eq!(touched, vec![0, 1, 2]);

    let mut partial = vec![10, 7];
    let touched = group_trades_into_bars(&mut partial, 5, TickCount::T10);
    assert_eq!(partial, vec![10, 10, 2]);
    assert_eq!(touched, vec![1, 2]);

    let mut full = vec![20];
    let touched = group_trades_into_bars(&mut full, 0, TickCount::T20);
    assert_eq!(full, vec![20]);
    assert!(touched.is_empty());

    let mut one_more = vec![20];
    assert_eq!(group_trades_into_bars(&mut one_more, 1, TickCount::T20), vec![1]);
    assert_eq!(one_more, vec![20, 1]);
}

#[test]
fn stacked_bar_counts_each_side() {
    assert_eq!(count_buys_and_sells(&[true, false, false, true, true]), (2, 3));
    assert_eq!(count_buys_and_sells(&[false]), (1, 0));
    assert_eq!(count_buys_and_sells(&[]), (0, 0));
}

#[test]
fn recent_trades_trimmed_to_latest() {
    let mut trades: Vec<u32> = (0..901).collect();
    let dropped = trim_recent_trades(&mut trades, MAX_RECENT_TRADES, TRIMMED_RECENT_TRADES);
    assert_eq!(dropped, 201);
    assert_eq!(trades.len(), 700);
    assert_eq!(trades[0], 201);
    assert_eq!(trades[699], 900);

    let mut few: Vec<u32> = (0..900).collect();
    assert_eq!(trim_recent_trades(&mut few, MAX_RECENT_TRADES, TRIMMED_RECENT_TRADES), 0);
    assert_eq!(few.len(), 900);
}

#[test]
fn trim_keeps_latest_even_with_target_above_limit() {
    let mut trades: Vec<u32> = (0..12).collect();
    assert_eq!(trim_recent_trades(&mut trades, 10, 11), 1);
    assert_eq!(trades, (1..12).collect::<Vec<u32>>());
}

#[test]
fn tick_bars_only_grow() {
    let mut counts = vec![10, 10, 4];
    let before = counts.clone();
    let touched = group_trades_into_bars(&mut counts, 13, TickCount::T10);
    assert_eq!(counts, vec![10, 10, 10, 7]);
    assert_eq!(touched, vec![2, 3]);
    assert!(counts.len() >= before.len());
    for (i, c) in before.iter().enumerate() {
        assert!(counts[i] >= *c);
    }
    assert_eq!(*touched.last().unwrap(), counts.len() - 1);
}

#[test]
fn no_pause_when_usage_and_limit_are_both_zero() {
    assert_eq!(rate_limit_pause_secs(0, 0), 0);
    assert_eq!(rate_limit_pause_secs(1, 0), 10);
    assert_eq!(rate_limit_pause_secs(-1, 0), 0);
    assert_eq!(rate_limit_pause_secs(0, 6000), 0);
}

#[test]
fn start_of_day_in_milliseconds() {
    assert_eq!(start_of_day_ms(0), 0);
    assert_eq!(start_of_day_ms(86_399_999), 0);
    assert_eq!(start_of_day_ms(1_700_000_000_000), 1_699_920_000_000);
    assert_eq!(start_of_day_ms(-1), -86_400_000);
    assert_eq!(start_of_day_ms(-86_400_000), -86_400_000);
    assert_eq!(start_of_day_ms(-86_400_001), -172_800_000);
}

#[test]
fn bar_positions_count_back_from_latest() {
    assert_eq!(position_from_latest(5, 4), 0);
    assert_eq!(position_from_latest(5, 0), 4);
}
