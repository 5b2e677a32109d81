use vstd::prelude::*;

verus! {

/// How many trades the time and sales panel keeps by default.
pub const DEFAULT_BUFFER_SIZE: usize = 900;

pub fn default_buffer_filter() -> (n: usize)
    ensures
        n == DEFAULT_BUFFER_SIZE,
{
    DEFAULT_BUFFER_SIZE
}

/// What the stacked buy/sell bar compares.
#[derive(Debug, Clone, PartialEq, Eq, Default, Copy, Structural)]
pub enum StackedBarRatio {
    #[default]
    Count,
    AverageSize,
    Volume,
}

impl StackedBarRatio {
    pub const ALL: [StackedBarRatio; 3] = [
        StackedBarRatio::Count,
        StackedBarRatio::AverageSize,
        StackedBarRatio::Volume,
    ];

    /// The name shown for the ratio.
    pub fn label(&self) -> (s: &'static str)
        ensures
            s@ == (match self {
                StackedBarRatio::Count => "Count"@,
                StackedBarRatio::AverageSize => "Average Size"@,
                StackedBarRatio::Volume => "Volume"@,
            }),
    {
        match self {
            StackedBarRatio::Count => "Count",
            StackedBarRatio::AverageSize => "Average Size",
            StackedBarRatio::Volume => "Volume",
        }
    }
}

/// The number of sells among the trades, by their sides.
pub open spec fn sell_count(is_sell: Seq<bool>) -> nat
    decreases is_sell.len(),
{
    if is_sell.len() == 0 {
        0
    } else {
        sell_count(is_sell.drop_last()) + (if is_sell.last() { 1nat } else { 0nat })
    }
}

/// Counts the buys and the sells among trades given by their sides, for
/// the count ratio of the stacked bar.
pub fn count_buys_and_sells(is_sell: &[bool]) -> (r: (usize, usize))
    ensures
        r.1 == sell_count(is_sell@),
        r.0 + r.1 == is_sell@.len(),
{
    let mut buys: usize = 0;
    let mut sells: usize = 0;
    let mut i: usize = 0;
    while i < is_sell.len()
        invariant
            0 <= i <= is_sell.len(),
            sells == sell_count(is_sell@.subrange(0, i as int)),
            buys + sells == i,
        decreases is_sell.len() - i,
    {
        assert(is_sell@.subrange(0, i + 1).drop_last() =~= is_sell@.subrange(0, i as int));
        if is_sell[i] {
            sells = sells + 1;
        } else {
            buys = buys + 1;
        }
        i = i + 1;
    }
    assert(is_sell@.subrange(0, is_sell.len() as int) =~= is_sell@);
    (buys, sells)
}

} // verus!
