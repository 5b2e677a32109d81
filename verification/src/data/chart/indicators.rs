use vstd::prelude::*;

use crate::exchange::adapter::MarketKind;

verus! {

/// An indicator kind, with the ones each market offers and the enabled
/// ones among them.
pub trait Indicator: Sized + Copy + 'static {
    /// The indicators offered on `market`, in display order.
    spec fn offered(market: MarketKind) -> Seq<Self>;

    fn get_available(market: MarketKind) -> (r: &'static [Self])
        ensures
            r@ == Self::offered(market),
    ;

    /// Equality of indicator kinds.
    fn same_kind(&self, other: &Self) -> (b: bool)
        ensures
            b == (*self == *other),
    ;

    /// The indicators offered on `market` that are among `indicators`, in
    /// display order.
    fn get_enabled(indicators: &[Self], market: MarketKind) -> (r: Vec<Self>)
        ensures
            r@ == Self::offered(market).filter(|x: Self| indicators@.contains(x)),
    {
        let available = Self::get_available(market);
        let mut r: Vec<Self> = Vec::new();
        let mut i: usize = 0;
        while i < available.len()
            invariant
                available@ == Self::offered(market),
                0 <= i <= available.len(),
                r@ == available@.subrange(0, i as int).filter(|x: Self| indicators@.contains(x)),
            decreases available.len() - i,
        {
            let a = available[i];
            let mut found = false;
            let mut j: usize = 0;
            while j < indicators.len()
                invariant
                    0 <= j <= indicators.len(),
                    found == (exists|k: int| 0 <= k < j && indicators@[k] == a),
                decreases indicators.len() - j,
            {
                if indicators[j].same_kind(&a) {
                    found = true;
                }
                j = j + 1;
            }
            proof {
                reveal(Seq::filter);
                assert(available@.subrange(0, i + 1).drop_last() =~= available@.subrange(
                    0,
                    i as int,
                ));
                if found {
                    let k = choose|k: int| 0 <= k < indicators.len() && indicators@[k] == a;
                    assert(indicators@.contains(a));
                }
            }
            if found {
                r.push(a);
            }
            i = i + 1;
        }
        assert(available@.subrange(0, available.len() as int) =~= available@);
        r
    }
}

#[derive(Debug, Clone, Copy, PartialEq, Eq, Hash, Structural)]
pub enum KlineIndicator {
    Volume,
    OpenInterest,
}

impl KlineIndicator {
    const SPOT: [KlineIndicator; 1] = [KlineIndicator::Volume];
    const PERPS: [KlineIndicator; 2] = [KlineIndicator::Volume, KlineIndicator::OpenInterest];

    /// The name shown for the indicator.
    pub fn label(&self) -> (s: &'static str)
        ensures
            s@ == (match self {
                KlineIndicator::Volume => "Volume"@,
                KlineIndicator::OpenInterest => "Open Interest"@,
            }),
    {
        match self {
            KlineIndicator::Volume => "Volume",
            KlineIndicator::OpenInterest => "Open Interest",
        }
    }
}

impl Indicator for KlineIndicator {
    /// Spot markets have volume only; perpetuals add open interest.
    open spec fn offered(market: MarketKind) -> Seq<Self> {
        match market {
            MarketKind::Spot => seq![KlineIndicator::Volume],
            MarketKind::LinearPerps | MarketKind::InversePerps => seq![
                KlineIndicator::Volume,
                KlineIndicator::OpenInterest,
            ],
        }
    }

    fn get_available(market: MarketKind) -> (r: &'static [Self]) {
        match market {
            MarketKind::Spot => &Self::SPOT,
            MarketKind::LinearPerps | MarketKind::InversePerps => &Self::PERPS,
        }
    }

    fn same_kind(&self, other: &Self) -> (b: bool) {
        *self == *other
    }
}

#[derive(Debug, Clone, Copy, PartialEq, Eq, Hash, Structural)]
pub enum CandlestickIndicator {
    Volume,
    OpenInterest,
}

impl CandlestickIndicator {
    const SPOT: [CandlestickIndicator; 1] = [CandlestickIndicator::Volume];
    const PERPS: [CandlestickIndicator; 2] = [
        CandlestickIndicator::Volume,
        CandlestickIndicator::OpenInterest,
    ];

    /// The name shown for the indicator.
    pub fn label(&self) -> (s: &'static str)
        ensures
            s@ == (match self {
                CandlestickIndicator::Volume => "Volume"@,
                CandlestickIndicator::OpenInterest => "Open Interest"@,
            }),
    {
        match self {
            CandlestickIndicator::Volume => "Volume",
            CandlestickIndicator::OpenInterest => "Open Interest",
        }
    }
}

impl Indicator for CandlestickIndicator {
    /// Spot markets have volume only; perpetuals add open interest.
    open spec fn offered(market: MarketKind) -> Seq<Self> {
        match market {
            MarketKind::Spot => seq![CandlestickIndicator::Volume],
            MarketKind::LinearPerps | MarketKind::InversePerps => seq![
                CandlestickIndicator::Volume,
                CandlestickIndicator::OpenInterest,
            ],
        }
    }

    fn get_available(market: MarketKind) -> (r: &'static [Self]) {
        match market {
            MarketKind::Spot => &Self::SPOT,
            MarketKind::LinearPerps | MarketKind::InversePerps => &Self::PERPS,
        }
    }

    fn same_kind(&self, other: &Self) -> (b: bool) {
        *self == *other
    }
}

#[derive(Debug, Clone, Copy, PartialEq, Eq, Hash, Structural)]
pub enum HeatmapIndicator {
    Volume,
    SessionVolumeProfile,
}

impl HeatmapIndicator {
    const SPOT: [HeatmapIndicator; 2] = [
        HeatmapIndicator::Volume,
        HeatmapIndicator::SessionVolumeProfile,
    ];
    const PERPS: [HeatmapIndicator; 2] = [
        HeatmapIndicator::Volume,
        HeatmapIndicator::SessionVolumeProfile,
    ];

    /// The name shown for the indicator.
    pub fn label(&self) -> (s: &'static str)
        ensures
            s@ == (match self {
                HeatmapIndicator::Volume => "Volume"@,
                HeatmapIndicator::SessionVolumeProfile => "VPSR"@,
            }),
    {
        match self {
            HeatmapIndicator::Volume => "Volume",
            HeatmapIndicator::SessionVolumeProfile => "VPSR",
        }
    }
}

impl Indicator for HeatmapIndicator {
    /// Every market offers volume and the session volume profile.
    open spec fn offered(market: MarketKind) -> Seq<Self> {
        seq![HeatmapIndicator::Volume, HeatmapIndicator::SessionVolumeProfile]
    }

    fn get_available(market: MarketKind) -> (r: &'static [Self]) {
        match market {
            MarketKind::Spot => &Self::SPOT,
            MarketKind::LinearPerps | MarketKind::InversePerps => &Self::PERPS,
        }
    }

    fn same_kind(&self, other: &Self) -> (b: bool) {
        *self == *other
    }
}

#[derive(Debug, Clone, Copy, PartialEq, Eq, Hash, Structural)]
pub enum FootprintIndicator {
    Volume,
    OpenInterest,
}

impl FootprintIndicator {
    const SPOT: [FootprintIndicator; 1] = [FootprintIndicator::Volume];
    const PERPS: [FootprintIndicator; 2] = [
        FootprintIndicator::Volume,
        FootprintIndicator::OpenInterest,
    ];

    /// The name shown for the indicator.
    pub fn label(&self) -> (s: &'static str)
        ensures
            s@ == (match self {
                FootprintIndicator::Volume => "Volume"@,
                FootprintIndicator::OpenInterest => "Open Interest"@,
            }),
    {
        match self {
            FootprintIndicator::Volume => "Volume",
            FootprintIndicator::OpenInterest => "Open Interest",
        }
    }
}

impl Indicator for FootprintIndicator {
    /// Spot markets have volume only; perpetuals add open interest.
    open spec fn offered(market: MarketKind) -> Seq<Self> {
        match market {
            MarketKind::Spot => seq![FootprintIndicator::Volume],
            MarketKind::LinearPerps | MarketKind::InversePerps => seq![
                FootprintIndicator::Volume,
                FootprintIndicator::OpenInterest,
            ],
        }
    }

    fn get_available(market: MarketKind) -> (r: &'static [Self]) {
        match market {
            MarketKind::Spot => &Self::SPOT,
            MarketKind::LinearPerps | MarketKind::InversePerps => &Self::PERPS,
        }
    }

    fn same_kind(&self, other: &Self) -> (b: bool) {
        *self == *other
    }
}

/// The enabled indicators are the offered ones that were asked for, and
/// asking for every offered indicator enables all of them, in order.
pub proof fn law_enabled_are_offered_and_asked<T: Indicator>(
    enabled: Seq<T>,
    market: MarketKind,
    x: T,
)
    ensures
        T::offered(market).filter(|y: T| enabled.contains(y)).contains(x) <==> (T::offered(
            market,
        ).contains(x) && enabled.contains(x)),
        T::offered(market).filter(|y: T| T::offered(market).contains(y)) == T::offered(market),
{
    let o = T::offered(market);
    let f = |y: T| enabled.contains(y);
    if o.filter(f).contains(x) {
        o.lemma_filter_contains_rev(f, x);
        let k = choose|k: int| 0 <= k < o.filter(f).len() && o.filter(f)[k] == x;
        o.lemma_filter_pred(f, k);
    }
    if o.contains(x) && enabled.contains(x) {
        let k = choose|k: int| 0 <= k < o.len() && o[k] == x;
        o.lemma_filter_contains(f, k);
    }
    let g = |y: T| o.contains(y);
    assert forall|i: int| 0 <= i < o.len() implies #[trigger] g(o[i]) by {
        assert(o.contains(o[i]));
    }
    crate::charts::indicators::lemma_filter_keeps_all(o, g);
}

} // verus!
