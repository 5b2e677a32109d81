use vstd::prelude::*;

use crate::charts::scales::timeseries::{
    lemma_round_down, select_step, spec_time_step, HOURLY_TIME_STEPS, M1_TIME_STEPS,
    M15_TIME_STEPS, M30_TIME_STEPS, M5_TIME_STEPS,
};
use crate::exchanges::{spec_millis, Timeframe};

verus! {

/// A day in milliseconds.
pub const ONE_DAY_MS: u64 = 86_400_000;

pub const M3_TIME_STEPS: [u64; 9] = [
    1000 * 60 * 1440,
    1000 * 60 * 720,
    1000 * 60 * 360,
    1000 * 60 * 120,
    1000 * 60 * 60,
    1000 * 60 * 30,
    1000 * 60 * 15,
    1000 * 60 * 9,
    1000 * 60 * 3,
];

pub const MS_TIME_STEPS: [u64; 10] = [
    1000 * 120,
    1000 * 60,
    1000 * 30,
    1000 * 10,
    1000 * 5,
    1000 * 2,
    1000,
    500,
    200,
    100,
];

/// The step list for klines of `minutes` minutes.
pub open spec fn spec_steps_for(minutes: u64) -> Seq<u64> {
    if minutes < 1 {
        MS_TIME_STEPS@
    } else if minutes <= 30 {
        if minutes == 1 {
            M1_TIME_STEPS@
        } else if minutes == 3 {
            M3_TIME_STEPS@
        } else if minutes == 5 {
            M5_TIME_STEPS@
        } else if minutes == 15 {
            M15_TIME_STEPS@
        } else if minutes == 30 {
            M30_TIME_STEPS@
        } else {
            HOURLY_TIME_STEPS@
        }
    } else {
        HOURLY_TIME_STEPS@
    }
}

/// Picks the spacing of time labels for the range `earliest..latest` of a
/// chart of `timeframe` klines, and the first label time: `earliest`
/// rounded down to a multiple of the spacing.
pub fn calc_time_step(earliest: u64, latest: u64, labels_can_fit: i32, timeframe: Timeframe) -> (r:
    (u64, u64))
    requires
        earliest <= latest,
    ensures
        r == spec_time_step(
            spec_steps_for((spec_millis(timeframe) / 60_000) as u64),
            earliest,
            latest,
            labels_can_fit as u64,
        ),
        r.0 > 0,
{
    let timeframe_in_min = timeframe.to_milliseconds() / 60_000;
    let time_steps: &[u64] = if timeframe_in_min < 1 {
        &MS_TIME_STEPS
    } else if timeframe_in_min <= 30 {
        if timeframe_in_min == 1 {
            &M1_TIME_STEPS
        } else if timeframe_in_min == 3 {
            &M3_TIME_STEPS
        } else if timeframe_in_min == 5 {
            &M5_TIME_STEPS
        } else if timeframe_in_min == 15 {
            &M15_TIME_STEPS
        } else if timeframe_in_min == 30 {
            &M30_TIME_STEPS
        } else {
            &HOURLY_TIME_STEPS
        }
    } else {
        &HOURLY_TIME_STEPS
    };
    assert(time_steps@ == spec_steps_for(timeframe_in_min));
    let duration = latest - earliest;
    let selected_step = select_step(time_steps, duration, labels_can_fit as u64);
    proof {
        lemma_round_down(earliest, selected_step);
    }
    let rounded_earliest = (earliest / selected_step) * selected_step;
    (selected_step, rounded_earliest)
}

} // verus!
