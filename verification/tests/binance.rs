use flowsurface::exchange::adapter::{Exchange, MarketKind};
use flowsurface::exchange::binance::{
    depth_sync_action, exchange_from_market_type, get_contract_size, kline_fetch_window,
    oi_fetch_window, symbol_kept, trade_source, DepthEventIds, DepthSyncAction, OiRequestError,
    DepthStream, StreamWrapper, TradeSource, THIRTY_DAYS_MS,
};

#[test]
fn exchange_per_market_kind() {
    assert_eq!(exchange_from_market_type(MarketKind::Spot), Exchange::BinanceSpot);
    assert_eq!(exchange_from_market_type(MarketKind::LinearPerps), Exchange::BinanceLinear);
    assert_eq!(exchange_from_market_type(MarketKind::InversePerps), Exchange::BinanceInverse);
}

#[test]
fn stream_names_select_payload() {
    assert_eq!(StreamWrapper::from_stream_type("btcusdt@depth@100ms"), Some(StreamWrapper::Depth));
    assert_eq!(StreamWrapper::from_stream_type("btcusdt@aggTrade"), Some(StreamWrapper::Trade));
    assert_eq!(StreamWrapper::from_stream_type("btcusdt@kline_1m"), Some(StreamWrapper::Kline));
    assert_eq!(StreamWrapper::from_stream_type("btcusdt@ticker"), None);
    assert_eq!(StreamWrapper::from_stream_type("btcusdt"), None);
    assert_eq!(StreamWrapper::from_stream_type("btcusdt@"), None);
    assert_eq!(StreamWrapper::from_stream_type("depth@x"), None);
}

#[test]
fn depth_sync_skips_while_fetching_and_old_diffs() {
    let perp = DepthEventIds::Perp { first_id: 10, final_id: 20, prev_final_id: 9 };
    assert_eq!(depth_sync_action(true, 5, 0, perp), DepthSyncAction::Skip);
    assert_eq!(depth_sync_action(false, 0, 0, perp), DepthSyncAction::Skip);
    assert_eq!(depth_sync_action(false, 20, 0, perp), DepthSyncAction::Skip);
}

#[test]
fn depth_sync_first_diff_after_snapshot() {
    // the diff straddles the snapshot id: applied without resync
    let perp = DepthEventIds::Perp { first_id: 10, final_id: 20, prev_final_id: 9 };
    assert_eq!(
        depth_sync_action(false, 15, 0, perp),
        DepthSyncAction::Proceed { resync: false, apply: true }
    );
    // the diff starts past the snapshot: resync first
    assert_eq!(
        depth_sync_action(false, 5, 0, perp),
        DepthSyncAction::Proceed { resync: true, apply: true }
    );
}

#[test]
fn depth_sync_chain_checks() {
    let perp = DepthEventIds::Perp { first_id: 21, final_id: 30, prev_final_id: 20 };
    assert_eq!(
        depth_sync_action(false, 20, 20, perp),
        DepthSyncAction::Proceed { resync: false, apply: true }
    );
    assert_eq!(
        depth_sync_action(false, 20, 19, perp),
        DepthSyncAction::Proceed { resync: false, apply: false }
    );
    let spot = DepthEventIds::Spot { first_id: 21, final_id: 30 };
    assert_eq!(
        depth_sync_action(false, 20, 20, spot),
        DepthSyncAction::Proceed { resync: false, apply: true }
    );
    assert_eq!(
        depth_sync_action(false, 20, 18, spot),
        DepthSyncAction::Proceed { resync: false, apply: false }
    );
}

#[test]
fn kline_windows() {
    let w = kline_fetch_window(None, 60_000);
    assert_eq!((w.range, w.limit), (None, 400));
    let w = kline_fetch_window(Some((600_000, 1_200_000)), 60_000);
    assert_eq!((w.range, w.limit), (Some((600_000, 1_200_000)), 10));
    // fewer than three intervals: widened by five on each side
    let w = kline_fetch_window(Some((600_000, 660_000)), 60_000);
    assert_eq!((w.range, w.limit), (Some((300_000, 960_000)), 11));
    let w = kline_fetch_window(Some((0, 100_000_000)), 60_000);
    assert_eq!(w.limit, 1000);
}

#[test]
fn open_interest_windows() {
    let now = THIRTY_DAYS_MS + 10_000_000;
    assert_eq!(oi_fetch_window(MarketKind::Spot, None, 300_000, now), Err(OiRequestError::UnsupportedMarket));
    assert_eq!(
        oi_fetch_window(MarketKind::LinearPerps, Some((0, 5_000_000)), 300_000, now),
        Err(OiRequestError::BeforeAvailableData)
    );
    let w = oi_fetch_window(MarketKind::LinearPerps, Some((0, 13_000_000)), 300_000, now).unwrap();
    assert_eq!(w.range, Some((10_000_000, 13_000_000)));
    assert_eq!(w.limit, 10);
    let w = oi_fetch_window(MarketKind::InversePerps, None, 300_000, now).unwrap();
    assert_eq!((w.range, w.limit), (None, 400));
}

#[test]
fn exchange_info_symbol_filter() {
    assert!(symbol_kept(Some("PERPETUAL"), Some("USDT"), Some("TRADING")));
    assert!(symbol_kept(None, Some("USD"), Some("HALT")));
    assert!(symbol_kept(None, None, None));
    assert!(!symbol_kept(Some("CURRENT_QUARTER"), Some("USDT"), Some("TRADING")));
    assert!(!symbol_kept(Some("PERPETUAL"), Some("BTC"), Some("TRADING")));
    assert!(!symbol_kept(Some("PERPETUAL"), Some("USDT"), Some("BREAK")));
}

#[test]
fn contract_sizes() {
    assert_eq!(get_contract_size("BTCUSD_PERP", MarketKind::InversePerps), Some(100));
    assert_eq!(get_contract_size("ETHUSD_PERP", MarketKind::InversePerps), Some(10));
    assert_eq!(get_contract_size("BTCUSD_PERP", MarketKind::LinearPerps), None);
    assert_eq!(get_contract_size("BTCUSDT", MarketKind::Spot), None);
}

#[test]
fn trade_sources() {
    assert_eq!(trade_source(1_000, 500), TradeSource::Intraday);
    assert_eq!(trade_source(500, 500), TradeSource::Intraday);
    assert_eq!(trade_source(499, 500), TradeSource::DailyArchive);
}

#[test]
fn spot_diff_starting_at_zero_after_snapshot_is_applied() {
    let e = DepthEventIds::Spot { first_id: 0, final_id: 12 };
    assert_eq!(
        depth_sync_action(false, 10, 0, e),
        DepthSyncAction::Proceed { resync: false, apply: true }
    );
}

#[test]
fn depth_stream_keeps_the_chain() {
    let s = DepthStream::after_snapshot();
    assert_eq!(s, DepthStream::Connected { prev_id: 0 });
    let first = DepthEventIds::Perp { first_id: 9, final_id: 15, prev_final_id: 8 };
    let (s, a) = DepthStream::on_diff(0, false, 10, first);
    assert_eq!(a, DepthSyncAction::Proceed { resync: false, apply: true });
    assert_eq!(s, DepthStream::Connected { prev_id: 15 });
    let next = DepthEventIds::Perp { first_id: 16, final_id: 20, prev_final_id: 15 };
    assert_eq!(DepthStream::on_diff(15, false, 15, next).0, DepthStream::Connected { prev_id: 20 });
    let broken = DepthEventIds::Perp { first_id: 22, final_id: 25, prev_final_id: 21 };
    assert_eq!(DepthStream::on_diff(20, false, 20, broken).0, DepthStream::Disconnected);
    let stale = DepthEventIds::Perp { first_id: 1, final_id: 5, prev_final_id: 0 };
    assert_eq!(
        DepthStream::on_diff(20, false, 20, stale),
        (DepthStream::Connected { prev_id: 20 }, DepthSyncAction::Skip)
    );
    assert_eq!(DepthStream::on_diff(20, true, 20, next).1, DepthSyncAction::Skip);
}

#[test]
fn open_interest_windows_without_a_subtraction() {
    let now = THIRTY_DAYS_MS + 10_000_000;
    assert_eq!(
        oi_fetch_window(MarketKind::Spot, Some((9, 1)), 0, 0),
        Err(OiRequestError::UnsupportedMarket)
    );
    assert_eq!(
        oi_fetch_window(MarketKind::LinearPerps, Some((9_000_000, 5_000_000)), 0, now),
        Err(OiRequestError::BeforeAvailableData)
    );
    let w = oi_fetch_window(MarketKind::LinearPerps, None, 0, 0).unwrap();
    assert_eq!((w.range, w.limit), (None, 400));
}

