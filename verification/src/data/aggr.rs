use vstd::prelude::*;

use crate::text::{decimal, decimal_with_suffix};

pub mod ticks;
pub mod time;

verus! {

/// The number of trades aggregated into one bar of a tick chart.
#[derive(Debug, Clone, Copy, PartialEq, Eq, Structural)]
pub enum TickCount {
    T10,
    T20,
    T50,
    T100,
    T200,
    T500,
    T1000,
}

/// The number of trades of a tick count.
pub open spec fn spec_tick_count(t: TickCount) -> u64 {
    match t {
        TickCount::T10 => 10,
        TickCount::T20 => 20,
        TickCount::T50 => 50,
        TickCount::T100 => 100,
        TickCount::T200 => 200,
        TickCount::T500 => 500,
        TickCount::T1000 => 1000,
    }
}

/// The tick count of `n` trades, if there is one.
pub open spec fn tick_count_of(n: int) -> Option<TickCount> {
    if n == 10 {
        Some(TickCount::T10)
    } else if n == 20 {
        Some(TickCount::T20)
    } else if n == 50 {
        Some(TickCount::T50)
    } else if n == 100 {
        Some(TickCount::T100)
    } else if n == 200 {
        Some(TickCount::T200)
    } else if n == 500 {
        Some(TickCount::T500)
    } else if n == 1000 {
        Some(TickCount::T1000)
    } else {
        None
    }
}

impl TickCount {
    pub const ALL: [TickCount; 7] = [
        TickCount::T10,
        TickCount::T20,
        TickCount::T50,
        TickCount::T100,
        TickCount::T200,
        TickCount::T500,
        TickCount::T1000,
    ];

    /// The number of trades per bar.
    pub fn to_u64(self) -> (n: u64)
        ensures
            n == spec_tick_count(self),
    {
        match self {
            TickCount::T10 => 10,
            TickCount::T20 => 20,
            TickCount::T50 => 50,
            TickCount::T100 => 100,
            TickCount::T200 => 200,
            TickCount::T500 => 500,
            TickCount::T1000 => 1000,
        }
    }

    /// The tick count of `value` trades; only the seven counts are
    /// accepted.
    pub fn from_u64(value: u64) -> (t: TickCount)
        requires
            tick_count_of(value as int) is Some,
        ensures
            Some(t) == tick_count_of(value as int),
    {
        match value {
            10 => TickCount::T10,
            20 => TickCount::T20,
            50 => TickCount::T50,
            100 => TickCount::T100,
            200 => TickCount::T200,
            500 => TickCount::T500,
            _ => TickCount::T1000,
        }
    }

    /// The label of the tick count, such as "100T".
    pub fn label(&self) -> (s: String)
        ensures
            s@ == decimal(spec_tick_count(*self) as nat) + "T"@,
    {
        decimal_with_suffix(self.to_u64(), "T")
    }

    /// The tick count of `value` trades; only the seven counts are
    /// accepted.
    pub fn from_usize(value: usize) -> (t: TickCount)
        requires
            tick_count_of(value as int) is Some,
        ensures
            Some(t) == tick_count_of(value as int),
    {
        Self::from_u64(value as u64)
    }
}

/// A tick count is recovered from its number of trades.
pub proof fn law_tick_count_roundtrip(t: TickCount)
    ensures
        tick_count_of(spec_tick_count(t) as int) == Some(t),
{
}

} // verus!
