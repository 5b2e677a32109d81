use vstd::prelude::*;

verus! {

/// How many trades the time and sales panel holds before it trims them.
pub const MAX_RECENT_TRADES: usize = 900;

/// How many of the latest trades a trim keeps.
pub const TRIMMED_RECENT_TRADES: usize = 700;

/// Once more than `max_size` trades are held, drops the oldest so that the
/// latest `target_size` remain; returns how many were dropped.
pub fn trim_recent_trades<T>(trades: &mut Vec<T>, max_size: usize, target_size: usize) -> (dropped: usize)
    requires
        old(trades)@.len() > max_size ==> old(trades)@.len() >= target_size,
    ensures
        old(trades)@.len() > max_size ==> {
            &&& dropped == old(trades)@.len() - target_size
            &&& final(trades)@ == old(trades)@.subrange(dropped as int, old(trades)@.len() as int)
        },
        old(trades)@.len() <= max_size ==> dropped == 0 && final(trades)@ == old(trades)@,
{
    let n = trades.len();
    if n > max_size {
        let dropped = n - target_size;
        let kept = trades.split_off(dropped);
        *trades = kept;
        dropped
    } else {
        0
    }
}

} // verus!
