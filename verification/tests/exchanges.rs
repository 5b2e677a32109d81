use flowsurface::data_providers;
use flowsurface::exchanges::adapter::{Exchange, MarketType, StreamConfig};
use flowsurface::exchanges::{Ticker, Timeframe};

#[test]
fn ticker_packs_and_unpacks_symbol() {
    let t = Ticker::new("BTCUSDT", MarketType::LinearPerps);
    let (s, m) = t.get_string();
    assert_eq!(s, "BTCUSDT");
    assert_eq!(m, MarketType::LinearPerps);
    assert_eq!(t.market_type, MarketType::LinearPerps);
}

#[test]
fn ticker_of_twenty_characters() {
    let sym = "ABCDEFGHIJ0123456789";
    let t = Ticker::new(sym, MarketType::Spot);
    assert_eq!(t.get_string().0, sym);
}

#[test]
fn ticker_empty_symbol_and_default() {
    let t = Ticker::new("", MarketType::Spot);
    assert_eq!(t.get_string().0, "");
    assert_eq!(t, Ticker::default());
}

#[test]
fn ticker_equality_follows_symbol() {
    let a = Ticker::new("ETHUSDT", MarketType::Spot);
    let b = Ticker::new("ETHUSDT", MarketType::Spot);
    let c = Ticker::new("ETHUSDC", MarketType::Spot);
    let d = Ticker::new("ETHUSDT", MarketType::LinearPerps);
    assert_eq!(a, b);
    assert_ne!(a, c);
    assert_ne!(a, d);
}

#[test]
fn ticker_word_boundary_characters() {
    // the tenth and eleventh characters sit in different words
    let t = Ticker::new("123456789ZA", MarketType::Spot);
    assert_eq!(t.get_string().0, "123456789ZA");
}

#[test]
fn timeframe_lengths() {
    assert_eq!(Timeframe::M1.to_minutes(), 1);
    assert_eq!(Timeframe::H4.to_minutes(), 240);
    assert_eq!(Timeframe::M15.to_milliseconds(), 900_000);
    assert_eq!(Timeframe::H2.to_milliseconds(), 7_200_000);
}

#[test]
fn timeframe_millis_roundtrip_all() {
    for tf in Timeframe::ALL {
        assert_eq!(Timeframe::from_milliseconds(tf.to_milliseconds()), tf);
    }
}

#[test]
fn timeframe_labels() {
    assert_eq!(Timeframe::M3.label(), "3m");
    assert_eq!(Timeframe::H1.label(), "1h");
}

#[test]
fn exchange_labels_and_market_types() {
    assert_eq!(Exchange::BinanceFutures.label(), "Binance Futures");
    assert_eq!(Exchange::BybitSpot.label(), "Bybit Spot");
    for (ex, mt) in Exchange::MARKET_TYPES {
        assert_eq!(StreamConfig::new(0u32, ex).market_type, mt);
    }
}

#[test]
fn stream_config_keeps_id() {
    let c = StreamConfig::new("pane-1", Exchange::BybitLinear);
    assert_eq!(c.id, "pane-1");
    assert_eq!(c.market_type, MarketType::LinearPerps);
}

#[test]
fn tick_multiplier_labels() {
    let all = data_providers::TickMultiplier::all();
    assert_eq!(all[0].label(), "1x");
    assert_eq!(all[7].label(), "200x");
}

#[test]
fn commas_in_whole_numerals() {
    assert_eq!(data_providers::commas_in_numeral("1234567"), "1,234,567");
    assert_eq!(data_providers::commas_in_numeral("-1234567"), "-1,234,567");
    assert_eq!(data_providers::commas_in_numeral("-999"), "-999");
    assert_eq!(data_providers::commas_in_numeral("-1000"), "-1,000");
    assert_eq!(data_providers::commas_in_numeral("-10000"), "-10,000");
    assert_eq!(data_providers::commas_in_numeral("100"), "100");
    assert_eq!(data_providers::commas_in_numeral("1000"), "1,000");
}
