use vstd::prelude::*;

use crate::exchanges::adapter::MarketType;

verus! {

/// An indicator kind, with the ones each market offers (every kind when the
/// market is not known) and the enabled ones among them.
pub trait Indicator: Sized + Copy + 'static {
    /// The indicators offered on `market`, in display order.
    spec fn offered(market: Option<MarketType>) -> Seq<Self>;

    fn get_available(market_type: Option<MarketType>) -> (r: &'static [Self])
        ensures
            r@ == Self::offered(market_type),
    ;

    /// Equality of indicator kinds.
    fn same_kind(&self, other: &Self) -> (b: bool)
        ensures
            b == (*self == *other),
    ;

    /// The indicators offered on `market_type` that are among `indicators`,
    /// in display order.
    fn get_enabled(indicators: &[Self], market_type: Option<MarketType>) -> (r: Vec<Self>)
        ensures
            r@ == Self::offered(market_type).filter(|x: Self| indicators@.contains(x)),
    {
        let available = Self::get_available(market_type);
        let mut r: Vec<Self> = Vec::new();
        let mut i: usize = 0;
        while i < available.len()
            invariant
                available@ == Self::offered(market_type),
                0 <= i <= available.len(),
                r@ == available@.subrange(0, i as int).filter(|x: Self| indicators@.contains(x)),
            decreases available.len() - i,
        {
            let a = available[i];
            let mut found = false;
            let mut j: usize = 0;
            while j < indicators.len()
                invariant
                    0 <= j <= indicators.len(),
                    found == (exists|k: int| 0 <= k < j && indicators@[k] == a),
                decreases indicators.len() - j,
            {
                if indicators[j].same_kind(&a) {
                    found = true;
                }
                j = j + 1;
            }
            proof {
                reveal(Seq::filter);
                assert(available@.subrange(0, i + 1).drop_last() =~= available@.subrange(
                    0,
                    i as int,
                ));
                if found {
                    let k = choose|k: int| 0 <= k < indicators.len() && indicators@[k] == a;
                    assert(indicators@.contains(a));
                }
            }
            if found {
                r.push(a);
            }
            i = i + 1;
        }
        assert(available@.subrange(0, available.len() as int) =~= available@);
        r
    }
}

/// Candlestick chart indicators.
#[derive(Debug, Clone, Copy, PartialEq, Eq, Hash, Structural)]
pub enum CandlestickIndicator {
    Volume,
    OpenInterest,
}

impl CandlestickIndicator {
    const ALL: [CandlestickIndicator; 2] = [
        CandlestickIndicator::Volume,
        CandlestickIndicator::OpenInterest,
    ];
    const SPOT: [CandlestickIndicator; 1] = [CandlestickIndicator::Volume];
    const PERPS: [CandlestickIndicator; 2] = [
        CandlestickIndicator::Volume,
        CandlestickIndicator::OpenInterest,
    ];

    /// The name shown for the indicator.
    pub fn label(&self) -> (s: &'static str)
        ensures
            s@ == (match self {
                CandlestickIndicator::Volume => "Volume"@,
                CandlestickIndicator::OpenInterest => "Open Interest"@,
            }),
    {
        match self {
            CandlestickIndicator::Volume => "Volume",
            CandlestickIndicator::OpenInterest => "Open Interest",
        }
    }
}

impl Indicator for CandlestickIndicator {
    /// Spot markets have volume only; perpetuals, and unknown markets, add
    /// open interest.
    open spec fn offered(market: Option<MarketType>) -> Seq<Self> {
        match market {
            Some(MarketType::Spot) => seq![CandlestickIndicator::Volume],
            _ => seq![CandlestickIndicator::Volume, CandlestickIndicator::OpenInterest],
        }
    }

    fn get_available(market_type: Option<MarketType>) -> (r: &'static [Self]) {
        match market_type {
            Some(MarketType::Spot) => &Self::SPOT,
            Some(MarketType::LinearPerps) => &Self::PERPS,
            _ => &Self::ALL,
        }
    }

    fn same_kind(&self, other: &Self) -> (b: bool) {
        *self == *other
    }
}

/// Heatmap chart indicators.
#[derive(Debug, Clone, Copy, PartialEq, Eq, Hash, Structural)]
pub enum HeatmapIndicator {
    Volume,
}

impl HeatmapIndicator {
    const ALL: [HeatmapIndicator; 1] = [HeatmapIndicator::Volume];
    const SPOT: [HeatmapIndicator; 1] = [HeatmapIndicator::Volume];
    const PERPS: [HeatmapIndicator; 1] = [HeatmapIndicator::Volume];

    /// The name shown for the indicator.
    pub fn label(&self) -> (s: &'static str)
        ensures
            s@ == "Volume"@,
    {
        match self {
            HeatmapIndicator::Volume => "Volume",
        }
    }
}

impl Indicator for HeatmapIndicator {
    /// Every market offers the volume indicator only.
    open spec fn offered(market: Option<MarketType>) -> Seq<Self> {
        seq![HeatmapIndicator::Volume]
    }

    fn get_available(market_type: Option<MarketType>) -> (r: &'static [Self]) {
        match market_type {
            Some(MarketType::Spot) => &Self::SPOT,
            Some(MarketType::LinearPerps) => &Self::PERPS,
            _ => &Self::ALL,
        }
    }

    fn same_kind(&self, other: &Self) -> (b: bool) {
        *self == *other
    }
}

/// Footprint chart indicators.
#[derive(Debug, Clone, Copy, PartialEq, Eq, Hash, Structural)]
pub enum FootprintIndicator {
    Volume,
    OpenInterest,
}

impl FootprintIndicator {
    const ALL: [FootprintIndicator; 2] = [
        FootprintIndicator::Volume,
        FootprintIndicator::OpenInterest,
    ];
    const SPOT: [FootprintIndicator; 1] = [FootprintIndicator::Volume];
    const PERPS: [FootprintIndicator; 2] = [
        FootprintIndicator::Volume,
        FootprintIndicator::OpenInterest,
    ];

    /// The name shown for the indicator.
    pub fn label(&self) -> (s: &'static str)
        ensures
            s@ == (match self {
                FootprintIndicator::Volume => "Volume"@,
                FootprintIndicator::OpenInterest => "Open Interest"@,
            }),
    {
        match self {
            FootprintIndicator::Volume => "Volume",
            FootprintIndicator::OpenInterest => "Open Interest",
        }
    }
}

impl Indicator for FootprintIndicator {
    /// Spot markets have volume only; perpetuals, and unknown markets, add
    /// open interest.
    open spec fn offered(market: Option<MarketType>) -> Seq<Self> {
        match market {
            Some(MarketType::Spot) => seq![FootprintIndicator::Volume],
            _ => seq![FootprintIndicator::Volume, FootprintIndicator::OpenInterest],
        }
    }

    fn get_available(market_type: Option<MarketType>) -> (r: &'static [Self]) {
        match market_type {
            Some(MarketType::Spot) => &Self::SPOT,
            Some(MarketType::LinearPerps) => &Self::PERPS,
            _ => &Self::ALL,
        }
    }

    fn same_kind(&self, other: &Self) -> (b: bool) {
        *self == *other
    }
}

/// Filtering by a predicate that every element meets keeps the sequence.
pub(crate) proof fn lemma_filter_keeps_all<A>(s: Seq<A>, p: spec_fn(A) -> bool)
    requires
        forall|i: int| 0 <= i < s.len() ==> #[trigger] p(s[i]),
    ensures
        s.filter(p) == s,
    decreases s.len(),
{
    reveal(Seq::filter);
    if s.len() > 0 {
        lemma_filter_keeps_all(s.drop_last(), p);
        assert(s.drop_last().push(s.last()) =~= s);
    }
}

/// The enabled indicators are the offered ones that were asked for, and
/// asking for every offered indicator enables all of them, in order.
pub proof fn law_enabled_are_offered_and_asked<T: Indicator>(
    enabled: Seq<T>,
    market: Option<MarketType>,
    x: T,
)
    ensures
        T::offered(market).filter(|y: T| enabled.contains(y)).contains(x) <==> (T::offered(
            market,
        ).contains(x) && enabled.contains(x)),
        T::offered(market).filter(|y: T| T::offered(market).contains(y)) == T::offered(market),
{
    let o = T::offered(market);
    let f = |y: T| enabled.contains(y);
    if o.filter(f).contains(x) {
        o.lemma_filter_contains_rev(f, x);
        let k = choose|k: int| 0 <= k < o.filter(f).len() && o.filter(f)[k] == x;
        o.lemma_filter_pred(f, k);
    }
    if o.contains(x) && enabled.contains(x) {
        let k = choose|k: int| 0 <= k < o.len() && o[k] == x;
        o.lemma_filter_contains(f, k);
    }
    let g = |y: T| o.contains(y);
    assert forall|i: int| 0 <= i < o.len() implies #[trigger] g(o[i]) by {
        assert(o.contains(o[i]));
    }
    lemma_filter_keeps_all(o, g);
}

} // verus!
