use vstd::prelude::*;

use crate::exchange::adapter::MarketKind;

verus! {

/// An indicator kind, with the ones each market offers.
pub trait Indicator: Sized + 'static {
    /// The indicators offered on `market`, in display order.
    spec fn offered(market: MarketKind) -> Seq<Self>;

    fn for_market(market: MarketKind) -> (r: &'static [Self])
        ensures
            r@ == Self::offered(market),
    ;
}

#[derive(Debug, Clone, Copy, PartialEq, Eq, Hash, Structural)]
pub enum KlineIndicator {
    Volume,
    OpenInterest,
}

impl KlineIndicator {
    const SPOT: [KlineIndicator; 1] = [KlineIndicator::Volume];
    const PERPS: [KlineIndicator; 2] = [KlineIndicator::Volume, KlineIndicator::OpenInterest];

    /// The name shown for the indicator.
    pub fn label(&self) -> (s: &'static str)
        ensures
            s@ == (match self {
                KlineIndicator::Volume => "Volume"@,
                KlineIndicator::OpenInterest => "Open Interest"@,
            }),
    {
        match self {
            KlineIndicator::Volume => "Volume",
            KlineIndicator::OpenInterest => "Open Interest",
        }
    }
}

impl Indicator for KlineIndicator {
    /// Spot markets have volume only; perpetuals add open interest.
    open spec fn offered(market: MarketKind) -> Seq<Self> {
        match market {
            MarketKind::Spot => seq![KlineIndicator::Volume],
            MarketKind::LinearPerps | MarketKind::InversePerps => seq![
                KlineIndicator::Volume,
                KlineIndicator::OpenInterest,
            ],
        }
    }

    fn for_market(market: MarketKind) -> (r: &'static [Self]) {
        match market {
            MarketKind::Spot => &Self::SPOT,
            MarketKind::LinearPerps | MarketKind::InversePerps => &Self::PERPS,
        }
    }
}

#[derive(Debug, Clone, Copy, PartialEq, Eq, Hash, Structural)]
pub enum HeatmapIndicator {
    Volume,
}

impl HeatmapIndicator {
    const SPOT: [HeatmapIndicator; 1] = [HeatmapIndicator::Volume];
    const PERPS: [HeatmapIndicator; 1] = [HeatmapIndicator::Volume];

    /// The name shown for the indicator.
    pub fn label(&self) -> (s: &'static str)
        ensures
            s@ == "Volume"@,
    {
        match self {
            HeatmapIndicator::Volume => "Volume",
        }
    }
}

impl Indicator for HeatmapIndicator {
    /// Every market offers the volume indicator only.
    open spec fn offered(market: MarketKind) -> Seq<Self> {
        seq![HeatmapIndicator::Volume]
    }

    fn for_market(market: MarketKind) -> (r: &'static [Self]) {
        match market {
            MarketKind::Spot => &Self::SPOT,
            MarketKind::LinearPerps | MarketKind::InversePerps => &Self::PERPS,
        }
    }
}

} // verus!
