use vstd::prelude::*;

verus! {

/// The kind of market a ticker trades on.
#[derive(Debug, Clone, Copy, PartialEq, Eq, Hash, Structural)]
pub enum MarketKind {
    Spot,
    LinearPerps,
    InversePerps,
}

/// The Binance venues, one per market kind.
#[derive(Debug, Clone, Copy, PartialEq, Eq, Hash, Structural)]
pub enum Exchange {
    BinanceLinear,
    BinanceInverse,
    BinanceSpot,
}

} // verus!
