use vstd::prelude::*;

verus! {

/// What a kline chart draws.
#[derive(Debug, Clone, PartialEq, Eq)]
pub enum KlineChartKind {
    Candles,
    Footprint { clusters: ClusterKind, studies: Vec<FootprintStudy> },
}

impl KlineChartKind {
    /// Candles are the default kind.
    pub fn default_kind() -> (k: Self)
        ensures
            k is Candles,
    {
        KlineChartKind::Candles
    }
}

/// How the trades of a footprint cluster are summarised.
#[derive(Debug, Copy, Clone, PartialEq, Eq, Structural)]
pub enum ClusterKind {
    BidAsk,
    VolumeProfile,
    DeltaProfile,
}

impl ClusterKind {
    pub const ALL: [ClusterKind; 3] = [
        ClusterKind::BidAsk,
        ClusterKind::VolumeProfile,
        ClusterKind::DeltaProfile,
    ];

    /// The name shown for the cluster kind.
    pub fn label(&self) -> (s: &'static str)
        ensures
            s@ == (match self {
                ClusterKind::BidAsk => "Bid/Ask"@,
                ClusterKind::VolumeProfile => "Volume Profile"@,
                ClusterKind::DeltaProfile => "Delta Profile"@,
            }),
    {
        match self {
            ClusterKind::BidAsk => "Bid/Ask",
            ClusterKind::VolumeProfile => "Volume Profile",
            ClusterKind::DeltaProfile => "Delta Profile",
        }
    }
}

/// Settings of a kline chart.
#[derive(Debug, Default, Copy, Clone, PartialEq)]
pub struct Config {}

/// A study drawn over a footprint chart, with its settings.
#[derive(Debug, Clone, Copy, PartialEq, Eq, Structural)]
pub enum FootprintStudy {
    NPoC { lookback: usize },
    Imbalance { threshold: usize, color_scale: Option<usize>, ignore_zeros: bool },
}

impl FootprintStudy {
    /// Whether both are the same study, whatever their settings.
    pub fn is_same_type(&self, other: &Self) -> (b: bool)
        ensures
            b == ((*self is NPoC && *other is NPoC) || (*self is Imbalance && *other is Imbalance)),
    {
        match (self, other) {
            (FootprintStudy::NPoC { .. }, FootprintStudy::NPoC { .. }) => true,
            (FootprintStudy::Imbalance { .. }, FootprintStudy::Imbalance { .. }) => true,
            _ => false,
        }
    }

    /// Every study, with its default settings.
    pub fn all() -> (r: [FootprintStudy; 2])
        ensures
            r@ == seq![
                FootprintStudy::NPoC { lookback: 80 },
                FootprintStudy::Imbalance { threshold: 200, color_scale: Option::None, ignore_zeros: true },
            ],
    {
        [
            FootprintStudy::NPoC { lookback: 80 },
            FootprintStudy::Imbalance { threshold: 200, color_scale: Option::None, ignore_zeros: true },
        ]
    }

    /// The name shown for the study.
    pub fn label(&self) -> (s: &'static str)
        ensures
            s@ == (match self {
                FootprintStudy::NPoC { .. } => "Naked Point of Control"@,
                FootprintStudy::Imbalance { .. } => "Imbalance"@,
            }),
    {
        match self {
            FootprintStudy::NPoC { .. } => "Naked Point of Control",
            FootprintStudy::Imbalance { .. } => "Imbalance",
        }
    }
}

/// Being of the same study is an equivalence: reflexive, symmetric and
/// transitive.
pub proof fn law_same_type_is_equivalence(a: FootprintStudy, b: FootprintStudy, c: FootprintStudy)
    ensures
        same_study(a, a),
        same_study(a, b) == same_study(b, a),
        same_study(a, b) && same_study(b, c) ==> same_study(a, c),
{
}

/// Whether two studies are the same study.
pub open spec fn same_study(a: FootprintStudy, b: FootprintStudy) -> bool {
    (a is NPoC && b is NPoC) || (a is Imbalance && b is Imbalance)
}

/// Whether a point of control has been revisited by later prices.
#[derive(Debug, Clone, Copy, PartialEq, Eq, Structural)]
pub enum NPoc {
    /// Not yet compared with later prices.
    Pending,
    Naked,
    Filled { at: u64 },
}

impl Default for NPoc {
    fn default() -> (n: Self)
        ensures
            n == NPoc::Pending,
    {
        NPoc::Pending
    }
}

impl NPoc {
    /// Marks the point of control as revisited at `at`.
    pub fn filled(&mut self, at: u64)
        ensures
            *final(self) == (NPoc::Filled { at }),
    {
        *self = NPoc::Filled { at };
    }

    /// Marks the point of control as not revisited.
    pub fn unfilled(&mut self)
        ensures
            *final(self) == NPoc::Naked,
    {
        *self = NPoc::Naked;
    }
}


/// The price range a later datapoint traded in, as order-preserving keys
/// of its low and high rounded to the tick size, with its position (time
/// or index) to report.
#[derive(Debug, Clone, Copy, PartialEq, Eq, Structural)]
pub struct LaterRange {
    pub at: u64,
    pub low: u32,
    pub high: u32,
}

/// The status of a point of control at `poc` given the datapoints after
/// it, in order: filled at the first one whose range reaches it, naked if
/// none does, still pending when there is none.
pub open spec fn spec_npoc_status(poc: u32, later: Seq<LaterRange>) -> NPoc
    decreases later.len(),
{
    if later.len() == 0 {
        NPoc::Pending
    } else if later[0].low <= poc && later[0].high >= poc {
        NPoc::Filled { at: later[0].at }
    } else {
        match spec_npoc_status(poc, later.drop_first()) {
            NPoc::Pending => NPoc::Naked,
            other => other,
        }
    }
}

/// Decides whether a point of control at `poc` was revisited by the
/// datapoints after it.
pub fn npoc_status(poc: u32, later: &[LaterRange]) -> (n: NPoc)
    ensures
        n == spec_npoc_status(poc, later@),
{
    let mut npoc = NPoc::default();
    let mut i: usize = 0;
    let mut done = false;
    assert(later@.subrange(0, later@.len() as int) =~= later@);
    while i < later.len() && !done
        invariant
            0 <= i <= later.len(),
            done ==> npoc == spec_npoc_status(poc, later@),
            !done ==> (i == 0 ==> npoc == NPoc::Pending),
            !done ==> (i > 0 ==> npoc == NPoc::Naked),
            !done ==> spec_npoc_status(poc, later@) == (match spec_npoc_status(
                poc,
                later@.subrange(i as int, later@.len() as int),
            ) {
                NPoc::Pending => npoc,
                other => other,
            }),
        decreases later.len() - i + (if done { 0int } else { 1int }),
    {
        let r = later[i];
        let rest = Ghost(later@.subrange(i as int, later@.len() as int));
        assert(rest@[0] == r);
        assert(rest@.drop_first() =~= later@.subrange(i + 1, later@.len() as int));
        if r.low <= poc && r.high >= poc {
            npoc.filled(r.at);
            done = true;
        } else {
            npoc.unfilled();
            i = i + 1;
        }
    }
    if !done {
        assert(later@.subrange(i as int, later@.len() as int) =~= Seq::<LaterRange>::empty());
    }
    npoc
}

/// A point of control is filled at the first later datapoint whose range
/// reaches its price, and naked only when later datapoints exist and none
/// reaches it.
pub proof fn law_npoc_filled_at_first_touch(poc: u32, later: Seq<LaterRange>)
    ensures
        spec_npoc_status(poc, later) matches NPoc::Filled { at } ==> exists|i: int|
            0 <= i < later.len() && #[trigger] later[i].at == at && later[i].low <= poc
                && later[i].high >= poc && forall|j: int|
                0 <= j < i ==> !(#[trigger] later[j].low <= poc && later[j].high >= poc),
        spec_npoc_status(poc, later) == NPoc::Naked <==> (later.len() > 0 && forall|i: int|
            0 <= i < later.len() ==> !(#[trigger] later[i].low <= poc && later[i].high >= poc)),
    decreases later.len(),
{
    if later.len() > 0 {
        law_npoc_filled_at_first_touch(poc, later.drop_first());
        if !(later[0].low <= poc && later[0].high >= poc) {
            if let NPoc::Filled { at } = spec_npoc_status(poc, later) {
                let i = choose|i: int|
                    0 <= i < later.drop_first().len() && #[trigger] later.drop_first()[i].at == at
                        && later.drop_first()[i].low <= poc && later.drop_first()[i].high >= poc
                        && forall|j: int|
                        0 <= j < i ==> !(#[trigger] later.drop_first()[j].low <= poc
                            && later.drop_first()[j].high >= poc);
                assert(later[i + 1].at == at);
                assert forall|j: int| 0 <= j < i + 1 implies !(#[trigger] later[j].low <= poc
                    && later[j].high >= poc) by {
                    if j > 0 {
                        assert(later[j] == later.drop_first()[j - 1]);
                    }
                }
            }
            if spec_npoc_status(poc, later.drop_first()) == NPoc::Naked
                || spec_npoc_status(poc, later.drop_first()) == NPoc::Pending {
                assert forall|i: int| 0 <= i < later.len() implies !(#[trigger] later[i].low <= poc
                    && later[i].high >= poc) by {
                    if i > 0 {
                        assert(later[i] == later.drop_first()[i - 1]);
                    }
                }
            }
            if spec_npoc_status(poc, later) != NPoc::Naked {
                let s = spec_npoc_status(poc, later.drop_first());
                if let NPoc::Filled { at } = s {
                    let i = choose|i: int|
                        0 <= i < later.drop_first().len() && #[trigger] later.drop_first()[i].at
                            == at && later.drop_first()[i].low <= poc
                            && later.drop_first()[i].high >= poc && forall|j: int|
                            0 <= j < i ==> !(#[trigger] later.drop_first()[j].low <= poc
                                && later.drop_first()[j].high >= poc);
                    assert(later[i + 1] == later.drop_first()[i]);
                }
            }
        } else {
            assert(later[0].at == later[0].at);
        }
    }
}

} // verus!
