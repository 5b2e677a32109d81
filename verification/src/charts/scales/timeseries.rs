use vstd::prelude::*;

verus! {

pub const M1_TIME_STEPS: [u64; 9] = [
    1000 * 60 * 720,
    1000 * 60 * 180,
    1000 * 60 * 60,
    1000 * 60 * 30,
    1000 * 60 * 15,
    1000 * 60 * 10,
    1000 * 60 * 5,
    1000 * 60 * 2,
    60 * 1000,
];

pub const M3_TIME_STEPS: [u64; 9] = [
    1000 * 60 * 1440,
    1000 * 60 * 720,
    1000 * 60 * 360,
    1000 * 60 * 120,
    1000 * 60 * 60,
    1000 * 60 * 30,
    1000 * 60 * 15,
    1000 * 60 * 9,
    1000 * 60 * 3,
];

pub const M5_TIME_STEPS: [u64; 9] = [
    1000 * 60 * 1440,
    1000 * 60 * 720,
    1000 * 60 * 480,
    1000 * 60 * 240,
    1000 * 60 * 120,
    1000 * 60 * 60,
    1000 * 60 * 30,
    1000 * 60 * 15,
    1000 * 60 * 5,
];

/// The first seven steps of the five-minute list, for 15 minute klines.
pub const M15_TIME_STEPS: [u64; 7] = [
    1000 * 60 * 1440,
    1000 * 60 * 720,
    1000 * 60 * 480,
    1000 * 60 * 240,
    1000 * 60 * 120,
    1000 * 60 * 60,
    1000 * 60 * 30,
];

/// The first six steps of the five-minute list, for 30 minute klines.
pub const M30_TIME_STEPS: [u64; 6] = [
    1000 * 60 * 1440,
    1000 * 60 * 720,
    1000 * 60 * 480,
    1000 * 60 * 240,
    1000 * 60 * 120,
    1000 * 60 * 60,
];

pub const HOURLY_TIME_STEPS: [u64; 8] = [
    1000 * 60 * 5760,
    1000 * 60 * 2880,
    1000 * 60 * 1440,
    1000 * 60 * 720,
    1000 * 60 * 480,
    1000 * 60 * 240,
    1000 * 60 * 120,
    1000 * 60 * 60,
];

pub const MS_TIME_STEPS: [u64; 8] = [1000 * 30, 1000 * 10, 1000 * 5, 1000 * 2, 1000, 500, 200, 100];

/// The step chosen from `steps` (scanning from `i`, with `sel` chosen so
/// far): the first step that fits at least `fit` labels into `duration`,
/// or else the last step no longer than the duration, or else the first
/// step.
pub open spec fn pick_step_from(steps: Seq<u64>, duration: u64, fit: u64, i: int, sel: u64) -> u64
    decreases steps.len() - i,
{
    if i < 0 || i >= steps.len() {
        sel
    } else if duration / steps[i] >= fit {
        steps[i]
    } else {
        pick_step_from(steps, duration, fit, i + 1, if steps[i] <= duration { steps[i] } else { sel })
    }
}

/// Steps usable as divisors.
pub open spec fn steps_ok(steps: Seq<u64>) -> bool {
    &&& steps.len() > 0
    &&& forall|i: int| 0 <= i < steps.len() ==> #[trigger] steps[i] > 0
}

/// The chosen step, and the earliest time rounded down to a multiple of it.
pub open spec fn spec_time_step(steps: Seq<u64>, earliest: u64, latest: u64, fit: u64) -> (u64, u64) {
    let step = pick_step_from(steps, (latest - earliest) as u64, fit, 0, steps[0]);
    (step, ((earliest / step) * step) as u64)
}

proof fn lemma_pick_step_member(steps: Seq<u64>, duration: u64, fit: u64, i: int, sel: u64)
    requires
        0 <= i <= steps.len(),
        steps.contains(sel),
    ensures
        steps.contains(pick_step_from(steps, duration, fit, i, sel)),
    decreases steps.len() - i,
{
    if i < steps.len() && duration / steps[i] < fit {
        let next = if steps[i] <= duration {
            steps[i]
        } else {
            sel
        };
        assert(steps.contains(next)) by {
            if steps[i] <= duration {
                assert(steps[i] == steps[i]);
            }
        }
        lemma_pick_step_member(steps, duration, fit, i + 1, next);
    } else if i < steps.len() {
        assert(steps[i] == steps[i]);
    }
}

/// Rounding down to a multiple of `s` stays within one step below `x`.
pub proof fn lemma_round_down(x: u64, s: u64)
    requires
        s > 0,
    ensures
        (x / s) * s <= x,
        x < (x / s) * s + s,
        ((x / s) * s) % (s as int) == 0,
{
    vstd::arithmetic::div_mod::lemma_fundamental_div_mod(x as int, s as int);
    vstd::arithmetic::mul::lemma_mul_is_commutative((x / s) as int, s as int);
    vstd::arithmetic::div_mod::lemma_mod_bound(x as int, s as int);
    vstd::arithmetic::div_mod::lemma_mod_multiples_basic((x / s) as int, s as int);
}

/// Scans `steps` for the label step of a range lasting `duration`.
pub fn select_step(steps: &[u64], duration: u64, fit: u64) -> (step: u64)
    requires
        steps_ok(steps@),
    ensures
        step == pick_step_from(steps@, duration, fit, 0, steps@[0]),
        step > 0,
{
    proof {
        assert(steps@.contains(steps@[0]));
        lemma_pick_step_member(steps@, duration, fit, 0, steps@[0]);
    }
    let mut selected = steps[0];
    let mut i: usize = 0;
    while i < steps.len()
        invariant
            0 <= i <= steps.len(),
            steps_ok(steps@),
            steps@.contains(selected),
            pick_step_from(steps@, duration, fit, i as int, selected) == pick_step_from(
                steps@,
                duration,
                fit,
                0,
                steps@[0],
            ),
        decreases steps.len() - i,
    {
        let step = steps[i];
        if duration / step >= fit {
            proof {
                assert(steps@.contains(step));
            }
            return step;
        }
        if step <= duration {
            selected = step;
            proof {
                assert(steps@.contains(step));
            }
        }
        i = i + 1;
    }
    proof {
        let k = choose|k: int| 0 <= k < steps@.len() && steps@[k] == selected;
        assert(steps@[k] > 0);
    }
    selected
}

/// The step list for klines of `minutes` minutes.
pub open spec fn spec_steps_for(minutes: u64) -> Seq<u64> {
    if minutes < 1 {
        MS_TIME_STEPS@
    } else if minutes <= 30 {
        if minutes == 1 {
            M1_TIME_STEPS@
        } else if minutes == 3 {
            M3_TIME_STEPS@
        } else if minutes == 5 {
            M5_TIME_STEPS@
        } else if minutes == 15 {
            M15_TIME_STEPS@
        } else if minutes == 30 {
            M30_TIME_STEPS@
        } else {
            HOURLY_TIME_STEPS@
        }
    } else {
        HOURLY_TIME_STEPS@
    }
}

/// Picks the spacing of time labels for the range `earliest..latest` of a
/// chart with klines of `timeframe` milliseconds, and the first label time:
/// `earliest` rounded down to a multiple of the spacing.
pub fn calc_time_step(earliest: u64, latest: u64, labels_can_fit: i32, timeframe: u64) -> (r: (
    u64,
    u64,
))
    requires
        earliest <= latest,
    ensures
        r == spec_time_step(spec_steps_for(timeframe / 60000), earliest, latest, labels_can_fit as u64),
        r.0 > 0,
{
    let timeframe_in_min = timeframe / 60000;
    let time_steps: &[u64] = if timeframe_in_min < 1 {
        &MS_TIME_STEPS
    } else if timeframe_in_min <= 30 {
        if timeframe_in_min == 1 {
            &M1_TIME_STEPS
        } else if timeframe_in_min == 3 {
            &M3_TIME_STEPS
        } else if timeframe_in_min == 5 {
            &M5_TIME_STEPS
        } else if timeframe_in_min == 15 {
            &M15_TIME_STEPS
        } else if timeframe_in_min == 30 {
            &M30_TIME_STEPS
        } else {
            &HOURLY_TIME_STEPS
        }
    } else {
        &HOURLY_TIME_STEPS
    };
    assert(time_steps@ == spec_steps_for(timeframe_in_min));
    let duration = latest - earliest;
    let selected_step = select_step(time_steps, duration, labels_can_fit as u64);
    proof {
        lemma_round_down(earliest, selected_step);
    }
    let rounded_earliest = (earliest / selected_step) * selected_step;
    (selected_step, rounded_earliest)
}

/// The first label is at or before the start of the range, less than one
/// step before it, and on a multiple of the step; the step is one of the
/// candidates.
pub proof fn law_time_step_alignment(steps: Seq<u64>, earliest: u64, latest: u64, fit: u64)
    requires
        steps_ok(steps),
        earliest <= latest,
    ensures
        ({
            let (step, first) = spec_time_step(steps, earliest, latest, fit);
            &&& steps.contains(step)
            &&& first <= earliest < first + step
            &&& first % step == 0
        }),
{
    assert(steps.contains(steps[0]));
    lemma_pick_step_member(steps, (latest - earliest) as u64, fit, 0, steps[0]);
    let (step, first) = spec_time_step(steps, earliest, latest, fit);
    let k = choose|k: int| 0 <= k < steps.len() && steps[k] == step;
    assert(step > 0);
    lemma_round_down(earliest, step);
}

/// Whether `fit` labels spaced by step `j` fit into `duration`.
pub open spec fn step_fits(steps: Seq<u64>, duration: u64, fit: u64, j: int) -> bool {
    duration / steps[j] >= fit
}

/// Whether step `j` is no longer than `duration`.
pub open spec fn step_within(steps: Seq<u64>, duration: u64, j: int) -> bool {
    steps[j] <= duration
}

/// The steps strictly decrease along the list.
pub open spec fn steps_descending(steps: Seq<u64>) -> bool {
    forall|a: int, b: int| 0 <= a < b < steps.len() ==> steps[a] > steps[b]
}

/// The index of the first step from `i` on that fits, or the length.
spec fn first_fit_from(steps: Seq<u64>, duration: u64, fit: u64, i: int) -> int
    decreases steps.len() - i,
{
    if i < 0 || i >= steps.len() {
        steps.len() as int
    } else if step_fits(steps, duration, fit, i) {
        i
    } else {
        first_fit_from(steps, duration, fit, i + 1)
    }
}

/// The index of the last step from `i` on that is no longer than
/// `duration`, or -1.
spec fn last_within_from(steps: Seq<u64>, duration: u64, i: int) -> int
    decreases steps.len() - i,
{
    if i < 0 || i >= steps.len() {
        -1
    } else {
        let r = last_within_from(steps, duration, i + 1);
        if r >= 0 {
            r
        } else if step_within(steps, duration, i) {
            i
        } else {
            -1
        }
    }
}

proof fn lemma_first_fit_from(steps: Seq<u64>, duration: u64, fit: u64, i: int)
    requires
        0 <= i <= steps.len(),
    ensures
        i <= first_fit_from(steps, duration, fit, i) <= steps.len(),
        first_fit_from(steps, duration, fit, i) < steps.len() ==> step_fits(
            steps,
            duration,
            fit,
            first_fit_from(steps, duration, fit, i),
        ),
        forall|l: int|
            i <= l < first_fit_from(steps, duration, fit, i) ==> !#[trigger] step_fits(
                steps,
                duration,
                fit,
                l,
            ),
    decreases steps.len() - i,
{
    if i < steps.len() && !step_fits(steps, duration, fit, i) {
        lemma_first_fit_from(steps, duration, fit, i + 1);
    }
}

proof fn lemma_last_within_from(steps: Seq<u64>, duration: u64, i: int)
    requires
        0 <= i <= steps.len(),
    ensures
        -1 <= last_within_from(steps, duration, i) < steps.len(),
        last_within_from(steps, duration, i) >= 0 ==> {
            let w = last_within_from(steps, duration, i);
            &&& i <= w
            &&& step_within(steps, duration, w)
            &&& forall|l: int| w < l < steps.len() ==> !#[trigger] step_within(steps, duration, l)
        },
        last_within_from(steps, duration, i) == -1 ==> forall|l: int|
            i <= l < steps.len() ==> !#[trigger] step_within(steps, duration, l),
    decreases steps.len() - i,
{
    if i < steps.len() {
        lemma_last_within_from(steps, duration, i + 1);
    }
}

proof fn lemma_pick_is_first_fit_else_last_within(
    steps: Seq<u64>,
    duration: u64,
    fit: u64,
    i: int,
    sel: u64,
)
    requires
        0 <= i <= steps.len(),
    ensures
        pick_step_from(steps, duration, fit, i, sel) == (if first_fit_from(steps, duration, fit, i)
            < steps.len() {
            steps[first_fit_from(steps, duration, fit, i)]
        } else if last_within_from(steps, duration, i) >= 0 {
            steps[last_within_from(steps, duration, i)]
        } else {
            sel
        }),
    decreases steps.len() - i,
{
    if i < steps.len() && !step_fits(steps, duration, fit, i) {
        let next = if steps[i] <= duration {
            steps[i]
        } else {
            sel
        };
        lemma_pick_is_first_fit_else_last_within(steps, duration, fit, i + 1, next);
    }
}

/// The label step is the first step in the list that fits the labels into
/// the range; when none does, the last step no longer than the range; when
/// none is, the first step. For a list of decreasing steps that is the
/// largest step that fits, else the smallest step within the range.
pub proof fn law_step_choice(steps: Seq<u64>, duration: u64, fit: u64)
    requires
        steps_ok(steps),
    ensures
        ({
            let r = pick_step_from(steps, duration, fit, 0, steps[0]);
            &&& (exists|j: int| 0 <= j < steps.len() && #[trigger] step_fits(steps, duration, fit, j))
                ==> exists|j: int|
                #![trigger step_fits(steps, duration, fit, j)]
                0 <= j < steps.len() && step_fits(steps, duration, fit, j) && r == steps[j] && (
                forall|l: int| 0 <= l < j ==> !#[trigger] step_fits(steps, duration, fit, l))
            &&& (forall|j: int| 0 <= j < steps.len() ==> !#[trigger] step_fits(steps, duration, fit, j))
                && (exists|j: int| 0 <= j < steps.len() && #[trigger] step_within(steps, duration, j))
                ==> exists|j: int|
                #![trigger step_within(steps, duration, j)]
                0 <= j < steps.len() && step_within(steps, duration, j) && r == steps[j] && (forall|
                l: int,
            | j < l < steps.len() ==> !#[trigger] step_within(steps, duration, l))
            &&& (forall|j: int| 0 <= j < steps.len() ==> !#[trigger] step_fits(steps, duration, fit, j))
                && (forall|j: int| 0 <= j < steps.len() ==> !#[trigger] step_within(steps, duration, j))
                ==> r == steps[0]
            &&& steps_descending(steps) && (exists|j: int|
                0 <= j < steps.len() && #[trigger] step_fits(steps, duration, fit, j)) ==> duration / r
                >= fit && forall|j: int|
                0 <= j < steps.len() && #[trigger] step_fits(steps, duration, fit, j) ==> steps[j] <= r
            &&& steps_descending(steps) && (forall|j: int|
                0 <= j < steps.len() ==> !#[trigger] step_fits(steps, duration, fit, j)) && (exists|
                j: int,
            | 0 <= j < steps.len() && #[trigger] step_within(steps, duration, j)) ==> r <= duration
                && forall|j: int|
                0 <= j < steps.len() && #[trigger] step_within(steps, duration, j) ==> r <= steps[j]
        }),
{
    lemma_first_fit_from(steps, duration, fit, 0);
    lemma_last_within_from(steps, duration, 0);
    lemma_pick_is_first_fit_else_last_within(steps, duration, fit, 0, steps[0]);
    let f = first_fit_from(steps, duration, fit, 0);
    let w = last_within_from(steps, duration, 0);
    if f < steps.len() {
        assert(step_fits(steps, duration, fit, f));
    }
    if w >= 0 {
        assert(step_within(steps, duration, w));
    }
}

} // verus!
