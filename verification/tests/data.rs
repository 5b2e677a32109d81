use std::collections::BTreeMap;

use flowsurface::data::aggr::time::{
    bucket_start, find_trade_gap, suggest_trade_fetch_range, updated_buckets, TimeSeries, TradeSpan,
};
use flowsurface::data::aggr::TickCount;
use flowsurface::data::chart::indicator::{HeatmapIndicator as HI, Indicator as I1, KlineIndicator as KI};
use flowsurface::data::chart::indicators::{
    CandlestickIndicator, HeatmapIndicator, Indicator, KlineIndicator,
};
use flowsurface::data::chart::kline::{ClusterKind, FootprintStudy, NPoc};
use flowsurface::data::chart::timeandsales::{default_buffer_filter, StackedBarRatio};
use flowsurface::data::config::sidebar::{Menu, Position, Sidebar};
use flowsurface::data::layout::pane::LinkGroup;
use flowsurface::data::util::commas_in_decimal;
use flowsurface::exchange::adapter::MarketKind;
use flowsurface::exchanges::Timeframe;
use flowsurface::text::count_fraction_digits;

#[test]
fn tick_counts() {
    for t in TickCount::ALL {
        assert_eq!(TickCount::from_u64(t.to_u64()), t);
    }
    assert_eq!(TickCount::from_usize(50), TickCount::T50);
    assert_eq!(TickCount::T1000.label(), "1000T");
}

#[test]
fn indicators_for_markets() {
    assert_eq!(KI::for_market(MarketKind::Spot), &[KI::Volume]);
    assert_eq!(KI::for_market(MarketKind::InversePerps), &[KI::Volume, KI::OpenInterest]);
    assert_eq!(HI::for_market(MarketKind::LinearPerps), &[HI::Volume]);
    assert_eq!(KlineIndicator::get_available(MarketKind::Spot).len(), 1);
    assert_eq!(HeatmapIndicator::get_available(MarketKind::Spot).len(), 2);
    let enabled = CandlestickIndicator::get_enabled(
        &[CandlestickIndicator::OpenInterest],
        MarketKind::Spot,
    );
    assert!(enabled.is_empty());
    assert_eq!(HeatmapIndicator::SessionVolumeProfile.label(), "VPSR");
}

#[test]
fn footprint_studies() {
    let all = FootprintStudy::all();
    assert!(all[0].is_same_type(&FootprintStudy::NPoC { lookback: 3 }));
    assert!(!all[0].is_same_type(&all[1]));
    assert_eq!(all[1].label(), "Imbalance");
    assert_eq!(ClusterKind::ALL[2].label(), "Delta Profile");
}

#[test]
fn npoc_marks() {
    let mut n = NPoc::default();
    assert_eq!(n, NPoc::Pending);
    n.unfilled();
    assert_eq!(n, NPoc::Naked);
    n.filled(42);
    assert_eq!(n, NPoc::Filled { at: 42 });
}

#[test]
fn time_and_sales_defaults() {
    assert_eq!(default_buffer_filter(), 900);
    assert_eq!(StackedBarRatio::default(), StackedBarRatio::Count);
    assert_eq!(StackedBarRatio::ALL[1].label(), "Average Size");
}

#[test]
fn sidebar_menus() {
    let mut s = Sidebar::default_sidebar();
    assert!(!s.is_menu_active(Menu::Audio));
    s.set_menu(Menu::Audio);
    assert!(s.is_menu_active(Menu::Audio));
    assert!(!s.is_menu_active(Menu::Layout));
    s.set_position(Position::Right);
    assert_eq!(s.position.label(), "Right");
    assert!(s.is_menu_active(Menu::Audio));
}

#[test]
fn link_group_labels() {
    assert_eq!(LinkGroup::A.label(), "1");
    assert_eq!(LinkGroup::I.label(), "9");
}

#[test]
fn decimal_numerals() {
    assert_eq!(commas_in_decimal("1234567.89", false), "1,234,567.89");
    assert_eq!(commas_in_decimal("1234.5", true), "-1,234.5");
    assert_eq!(commas_in_decimal("123456", false), "123,456");
    assert_eq!(count_fraction_digits("0.0001"), 4);
    assert_eq!(count_fraction_digits("25"), 0);
}

#[test]
fn buckets_of_trades() {
    assert_eq!(bucket_start(125_000, 60_000), 120_000);
    assert_eq!(updated_buckets(&[61_000, 65_000, 125_000, 62_000], 60_000), vec![60_000, 120_000]);
}

fn series(keys: &[u64]) -> TimeSeries<()> {
    let mut m = BTreeMap::new();
    for k in keys {
        m.insert(*k, ());
    }
    TimeSeries { datapoints: m, interval: Timeframe::M1 }
}

#[test]
fn kline_integrity() {
    let s = series(&[0, 60_000, 180_000]);
    assert_eq!(s.check_kline_integrity(0, 240_000, 60_000), Some(vec![120_000]));
    assert_eq!(s.check_kline_integrity(0, 120_000, 60_000), None);
    assert_eq!(s.latest_timestamp(), Some(180_000));
    assert_eq!(s.timerange(), (0, 180_000));
    assert_eq!(series(&[]).timerange(), (0, 0));
}

fn span(empty: bool, first: Option<u64>, last: Option<u64>) -> TradeSpan {
    TradeSpan { empty, first_trade: first, last_trade: last }
}

#[test]
fn trade_gap_and_fetch_range() {
    let spans = vec![
        (0, span(false, Some(5), Some(50))),
        (60, span(true, None, None)),
        (120, span(false, Some(130), Some(170))),
    ];
    assert_eq!(find_trade_gap(&spans), Some((Some(50), Some(130))));
    assert_eq!(suggest_trade_fetch_range(&spans, 0, 1000), Some((51, 129)));
    assert_eq!(suggest_trade_fetch_range(&spans, 100, 1000), Some((100, 129)));
    assert_eq!(suggest_trade_fetch_range(&spans, 0, 40), None);
    let full = vec![(0, span(false, Some(1), Some(2)))];
    assert_eq!(suggest_trade_fetch_range(&full, 0, 10), None);
    let only_gap = vec![(0, span(true, None, None))];
    assert_eq!(suggest_trade_fetch_range(&only_gap, 0, 10), None);
}

#[test]
fn kline_integrity_near_the_top_of_the_clock() {
    let s = series(&[u64::MAX - 10]);
    assert_eq!(s.check_kline_integrity(u64::MAX, u64::MAX, 60_000), None);
    assert_eq!(s.check_kline_integrity(u64::MAX - 10, u64::MAX, 5), Some(vec![u64::MAX - 5]));
    assert_eq!(series(&[100, 110]).check_kline_integrity(100, 120, 10), None);
}

#[test]
fn kline_integrity_of_an_empty_range_needs_no_interval() {
    let s = series(&[0]);
    assert_eq!(s.check_kline_integrity(5, 5, 0), None);
    assert_eq!(s.check_kline_integrity(10, 3, 0), None);
}
