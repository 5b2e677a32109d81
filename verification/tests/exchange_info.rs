use flowsurface::exchange::info::{parse_exchange_info, ExchangeInfoError, SymbolFault};
use flowsurface::exchanges::adapter::MarketType;
use flowsurface::exchanges::Ticker;

const DOC: &str = r#"{
  "rateLimits": [
    {"rateLimitType": "RAW_REQUESTS", "limit": 61000},
    {"rateLimitType": "REQUEST_WEIGHT", "limit": 2400},
    {"rateLimitType": "REQUEST_WEIGHT", "limit": 7}
  ],
  "symbols": [
    {"symbol": "BTCUSDT", "contractType": "PERPETUAL", "quoteAsset": "USDT", "status": "TRADING",
     "filters": [{"filterType": "PRICE_FILTER", "tickSize": "0.10"},
                 {"filterType": "LOT_SIZE", "minQty": "0.001"}]},
    {"symbol": "BTCUSDT_250926", "contractType": "CURRENT_QUARTER", "quoteAsset": "USDT"},
    {"symbol": "ETHUSD", "status": "HALT",
     "filters": [{"filterType": "LOT_SIZE", "minQty": "1"}]}
  ]
}"#;

#[test]
fn exchange_info_reads_limit_and_symbols() {
    let info = parse_exchange_info(DOC, MarketType::LinearPerps).unwrap();
    assert_eq!(info.request_weight_limit, 2400);
    assert_eq!(info.symbols.len(), 2);
    assert_eq!(info.symbols[0].ticker, Ticker::new("BTCUSDT", MarketType::LinearPerps));
    assert_eq!(info.symbols[0].min_qty, "0.001");
    assert_eq!(info.symbols[0].tick_size, Some("0.10".to_string()));
    assert_eq!(info.symbols[1].ticker, Ticker::new("ETHUSD", MarketType::LinearPerps));
    assert_eq!(info.symbols[1].tick_size, None);
    assert!(info.fault.is_none());
}

#[test]
fn exchange_info_document_errors() {
    let e = |t: &str| parse_exchange_info(t, MarketType::Spot).err();
    assert_eq!(e("not json"), Some(ExchangeInfoError::Parse));
    assert_eq!(e("{}"), Some(ExchangeInfoError::MissingRateLimits));
    assert_eq!(e("[1, 2]"), Some(ExchangeInfoError::MissingRateLimits));
    assert_eq!(
        e(r#"{"rateLimits": [{"rateLimitType": "ORDERS", "limit": 5}]}"#),
        Some(ExchangeInfoError::MissingRequestWeightLimit)
    );
    assert_eq!(
        e(r#"{"rateLimits": [{"rateLimitType": "REQUEST_WEIGHT", "limit": 6000.0}]}"#),
        Some(ExchangeInfoError::MissingRequestWeightLimit)
    );
    assert_eq!(
        e(r#"{"rateLimits": [{"rateLimitType": "REQUEST_WEIGHT", "limit": 6000}]}"#),
        Some(ExchangeInfoError::MissingSymbols)
    );
}

#[test]
fn exchange_info_integer_limits() {
    let limit = |n: &str| {
        let t = format!(r#"{{"rateLimits": [{{"rateLimitType": "REQUEST_WEIGHT", "limit": {n}}}], "symbols": []}}"#);
        parse_exchange_info(&t, MarketType::Spot).map(|i| i.request_weight_limit)
    };
    assert_eq!(limit("-12"), Ok(-12));
    assert_eq!(limit("9223372036854775807"), Ok(i64::MAX));
    assert_eq!(limit("-9223372036854775808"), Ok(i64::MIN));
    assert_eq!(limit("9223372036854775808"), Err(ExchangeInfoError::MissingRequestWeightLimit));
    assert_eq!(limit("1e3"), Err(ExchangeInfoError::MissingRequestWeightLimit));
    let dup = r#"{"rateLimits": [{"rateLimitType": "REQUEST_WEIGHT", "limit": 1, "limit": 2}], "symbols": []}"#;
    assert_eq!(parse_exchange_info(dup, MarketType::Spot).unwrap().request_weight_limit, 2);
}

fn faulted(symbols: &str) -> (usize, Option<SymbolFault>) {
    let t = format!(r#"{{"rateLimits": [{{"rateLimitType": "REQUEST_WEIGHT", "limit": 1}}], "symbols": {symbols}}}"#);
    let info = parse_exchange_info(&t, MarketType::Spot).unwrap();
    (info.symbols.len(), info.fault)
}

#[test]
fn exchange_info_symbol_faults_stop_the_reading() {
    let ok = r#"{"symbol": "AB", "filters": [{"filterType": "LOT_SIZE", "minQty": "1"}]}"#;
    assert!(matches!(faulted(&format!("[{ok}, {{}}, {ok}]")), (1, Some(SymbolFault::MissingSymbol))));
    assert!(matches!(
        faulted(r#"[{"symbol": "AB"}]"#),
        (0, Some(SymbolFault::MissingFilters))
    ));
    assert!(matches!(
        faulted(r#"[{"symbol": "AB", "filters": [{"filterType": "LOT_SIZE"}]}]"#),
        (0, Some(SymbolFault::MissingMinQty))
    ));
    match faulted(
        r#"[{"symbol": "AB", "filters": [{"filterType": "LOT_SIZE", "minQty": "2"}, {"filterType": "PRICE_FILTER"}]}]"#,
    ) {
        (0, Some(SymbolFault::MissingTickSize { min_qty })) => assert_eq!(min_qty, "2"),
        other => panic!("{other:?}"),
    }
    match faulted(r#"[{"symbol": "btc", "filters": [{"filterType": "LOT_SIZE", "minQty": "3"}]}]"#) {
        (0, Some(SymbolFault::InvalidSymbol { symbol, min_qty, tick_size })) => {
            assert_eq!((symbol.as_str(), min_qty.as_str(), tick_size), ("btc", "3", None));
        }
        other => panic!("{other:?}"),
    }
}
