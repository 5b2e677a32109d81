use vstd::prelude::*;

use super::{Ticker, Timeframe};

verus! {

/// The kind of market a ticker trades on.
#[derive(Debug, Clone, Copy, PartialEq, Eq, Hash, Structural)]
pub enum MarketType {
    Spot,
    LinearPerps,
}

/// A venue the market data comes from.
#[derive(Debug, Clone, Copy, PartialEq, Eq, Hash, Structural)]
pub enum Exchange {
    BinanceFutures,
    BinanceSpot,
    BybitLinear,
    BybitSpot,
}

/// The market type each exchange serves.
pub open spec fn spec_exchange_market(exchange: Exchange) -> MarketType {
    match exchange {
        Exchange::BinanceFutures | Exchange::BybitLinear => MarketType::LinearPerps,
        Exchange::BinanceSpot | Exchange::BybitSpot => MarketType::Spot,
    }
}

/// The display name of an exchange.
pub open spec fn spec_exchange_label(exchange: Exchange) -> Seq<char> {
    match exchange {
        Exchange::BinanceFutures => "Binance Futures"@,
        Exchange::BinanceSpot => "Binance Spot"@,
        Exchange::BybitLinear => "Bybit Linear"@,
        Exchange::BybitSpot => "Bybit Spot"@,
    }
}

impl Exchange {
    pub const MARKET_TYPES: [(Exchange, MarketType); 4] = [
        (Exchange::BinanceFutures, MarketType::LinearPerps),
        (Exchange::BybitLinear, MarketType::LinearPerps),
        (Exchange::BinanceSpot, MarketType::Spot),
        (Exchange::BybitSpot, MarketType::Spot),
    ];

    /// The display name of the exchange, such as "Binance Futures".
    pub fn label(&self) -> (s: &'static str)
        ensures
            s@ == spec_exchange_label(*self),
    {
        match self {
            Exchange::BinanceFutures => "Binance Futures",
            Exchange::BinanceSpot => "Binance Spot",
            Exchange::BybitLinear => "Bybit Linear",
            Exchange::BybitSpot => "Bybit Spot",
        }
    }
}

/// A market data subscription.
#[derive(Debug, Copy, Clone, PartialEq, Eq, Hash)]
pub enum StreamType {
    Kline { exchange: Exchange, ticker: Ticker, timeframe: Timeframe },
    DepthAndTrades { exchange: Exchange, ticker: Ticker },
    Empty,
}

/// Marker of an established stream connection.
#[derive(Debug, Clone)]
pub struct Connection;

/// Subscription settings keyed by an identifier.
#[derive(Debug, Clone, Hash)]
pub struct StreamConfig<I> {
    pub id: I,
    pub market_type: MarketType,
}

impl<I> StreamConfig<I> {
    /// A configuration for `id` on the market type that `exchange` serves.
    pub fn new(id: I, exchange: Exchange) -> (c: Self)
        ensures
            c.id == id,
            c.market_type == spec_exchange_market(exchange),
    {
        let market_type = match exchange {
            Exchange::BinanceFutures | Exchange::BybitLinear => MarketType::LinearPerps,
            Exchange::BinanceSpot | Exchange::BybitSpot => MarketType::Spot,
        };
        Self { id, market_type }
    }
}

/// Every exchange is listed in `Exchange::MARKET_TYPES` with the market type
/// that a stream configuration for it gets.
pub proof fn law_market_types_table_agrees(exchange: Exchange)
    ensures
        exists|i: int|
            0 <= i < 4 && #[trigger] Exchange::MARKET_TYPES@[i] == (
            exchange,
            spec_exchange_market(exchange),
        ),
{
    let t = Exchange::MARKET_TYPES@;
    match exchange {
        Exchange::BinanceFutures => assert(t[0] == (exchange, spec_exchange_market(exchange))),
        Exchange::BybitLinear => assert(t[1] == (exchange, spec_exchange_market(exchange))),
        Exchange::BinanceSpot => assert(t[2] == (exchange, spec_exchange_market(exchange))),
        Exchange::BybitSpot => assert(t[3] == (exchange, spec_exchange_market(exchange))),
    }
}

} // verus!
