use vstd::prelude::*;

pub mod indicators;
pub mod scales;

use crate::text::{decimal, decimal_with_suffix};

verus! {

/// Which axis scale was clicked.
#[derive(Debug, Clone, Copy, PartialEq, Eq, Structural)]
pub enum AxisScaleClicked {
    X,
    Y,
}

/// Defines how chart data is aggregated and displayed along the x-axis.
#[derive(Debug, Clone, Copy, PartialEq, Eq, Structural)]
pub enum ChartBasis {
    /// Time-based aggregation: each datapoint covers this many milliseconds.
    Time(u64),
    /// Trade-based aggregation: each datapoint covers this many trades.
    Tick(u64),
}

/// The label of a chart basis: the timeframe name for the eight standard
/// intervals, otherwise the milliseconds or the trade count.
pub open spec fn spec_basis_label(b: ChartBasis) -> Seq<char> {
    match b {
        ChartBasis::Time(ms) => if ms == 60_000 {
            "1m"@
        } else if ms == 180_000 {
            "3m"@
        } else if ms == 300_000 {
            "5m"@
        } else if ms == 900_000 {
            "15m"@
        } else if ms == 1_800_000 {
            "30m"@
        } else if ms == 3_600_000 {
            "1h"@
        } else if ms == 7_200_000 {
            "2h"@
        } else if ms == 14_400_000 {
            "4h"@
        } else {
            decimal(ms as nat) + "ms"@
        },
        ChartBasis::Tick(count) => decimal(count as nat) + "T"@,
    }
}

fn literal(s: &str) -> (r: String)
    ensures
        r@ == s@,
{
    String::from_str(s)
}

impl ChartBasis {
    pub fn is_time(&self) -> (b: bool)
        ensures
            b == (*self is Time),
    {
        match self {
            ChartBasis::Time(_) => true,
            ChartBasis::Tick(_) => false,
        }
    }

    /// The label shown for the basis, such as "5m", "250ms" or "100T".
    pub fn label(&self) -> (s: String)
        ensures
            s@ == spec_basis_label(*self),
    {
        match self {
            ChartBasis::Time(millis) => match *millis {
                60_000 => literal("1m"),
                180_000 => literal("3m"),
                300_000 => literal("5m"),
                900_000 => literal("15m"),
                1_800_000 => literal("30m"),
                3_600_000 => literal("1h"),
                7_200_000 => literal("2h"),
                14_400_000 => literal("4h"),
                other => decimal_with_suffix(other, "ms"),
            },
            ChartBasis::Tick(count) => decimal_with_suffix(*count, "T"),
        }
    }
}

} // verus!
