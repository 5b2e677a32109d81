use vstd::prelude::*;

verus! {

/// The observable state of a fixed window bucket. Times are milliseconds
/// on the caller's monotonic clock.
#[derive(Debug, Clone, Copy, PartialEq, Eq)]
pub struct FixedWindowState {
    pub max_tokens: usize,
    pub available_tokens: usize,
    pub last_refill: u64,
    pub refill_rate: u64,
}

/// A bucket state is valid when it never holds more tokens than its
/// capacity and its window lasts at least one whole second.
pub open spec fn fixed_window_valid(s: FixedWindowState) -> bool {
    &&& s.available_tokens <= s.max_tokens
    &&& s.refill_rate >= 1000
}

/// Milliseconds from `since` to `now`, zero when the clock reading is older.
pub open spec fn elapsed_ms(now: u64, since: u64) -> int {
    if now >= since {
        now - since
    } else {
        0
    }
}

/// Whether the window is refilled at monotonic time `now` with wall-clock
/// seconds `unix_secs` (absent when the wall clock is before the epoch):
/// a whole window has elapsed, or the wall clock is in the first second of
/// a window period.
pub open spec fn refill_due(s: FixedWindowState, now: u64, unix_secs: Option<u64>) -> bool {
    match unix_secs {
        Some(secs) => elapsed_ms(now, s.last_refill) >= s.refill_rate || (secs as int) % (
        (s.refill_rate / 1000) as int) < 1,
        None => false,
    }
}

/// The state after the refill check at `now`.
pub open spec fn after_refill(
    s: FixedWindowState,
    now: u64,
    unix_secs: Option<u64>,
) -> FixedWindowState {
    if refill_due(s, now, unix_secs) {
        FixedWindowState { available_tokens: s.max_tokens, last_refill: now, ..s }
    } else {
        s
    }
}

/// The outcome of asking for `tokens` at `now`: the next state and the wait,
/// `None` when the tokens were granted.
pub open spec fn fixed_window_request(
    s: FixedWindowState,
    tokens: usize,
    now: u64,
    unix_secs: Option<u64>,
) -> (FixedWindowState, Option<u64>) {
    let r = after_refill(s, now, unix_secs);
    if r.available_tokens >= tokens {
        (FixedWindowState { available_tokens: (r.available_tokens - tokens) as usize, ..r }, None)
    } else {
        let e = elapsed_ms(now, r.last_refill);
        (r, Some((if r.refill_rate >= e { r.refill_rate - e } else { 0 }) as u64))
    }
}

/// The state after spending `tokens` (or all that are left) at `now`.
pub open spec fn fixed_window_consume(
    s: FixedWindowState,
    tokens: usize,
    now: u64,
    unix_secs: Option<u64>,
) -> FixedWindowState {
    let r = after_refill(s, now, unix_secs);
    let spent = if tokens <= r.available_tokens { tokens } else { r.available_tokens };
    FixedWindowState { available_tokens: (r.available_tokens - spent) as usize, ..r }
}

/// Limiter for a fixed window rate.
pub struct FixedWindowBucket {
    max_tokens: usize,
    available_tokens: usize,
    last_refill: u64,
    refill_rate: u64,
}

impl View for FixedWindowBucket {
    type V = FixedWindowState;

    closed spec fn view(&self) -> FixedWindowState {
        FixedWindowState {
            max_tokens: self.max_tokens,
            available_tokens: self.available_tokens,
            last_refill: self.last_refill,
            refill_rate: self.refill_rate,
        }
    }
}

fn saturating_elapsed(now: u64, since: u64) -> (e: u64)
    ensures
        e == elapsed_ms(now, since),
{
    if now >= since {
        now - since
    } else {
        0
    }
}

impl FixedWindowBucket {
    /// A full bucket of `max_tokens` whose window lasts `refill_rate`
    /// milliseconds, started at `now`.
    /// Its window must last at least a second for the bucket to be usable.
    pub fn new(max_tokens: usize, refill_rate: u64, now: u64) -> (b: Self)
        ensures
            b@ == (FixedWindowState {
                max_tokens,
                available_tokens: max_tokens,
                last_refill: now,
                refill_rate,
            }),
            fixed_window_valid(b@) <==> refill_rate >= 1000,
    {
        Self { max_tokens, available_tokens: max_tokens, last_refill: now, refill_rate }
    }

    fn refill(&mut self, now: u64, unix_secs: Option<u64>)
        requires
            fixed_window_valid(old(self)@),
        ensures
            final(self)@ == after_refill(old(self)@, now, unix_secs),
    {
        if let Some(current_secs) = unix_secs {
            let period_seconds = self.refill_rate / 1000;
            let seconds_in_current_period = current_secs % period_seconds;
            let elapsed = saturating_elapsed(now, self.last_refill);
            if elapsed >= self.refill_rate || seconds_in_current_period < 1 {
                self.available_tokens = self.max_tokens;
                self.last_refill = now;
            }
        }
    }

    /// Takes `tokens` if the window has them; otherwise says how many
    /// milliseconds remain until the window is refilled.
    pub fn calculate_wait_time(&mut self, tokens: usize, now: u64, unix_secs: Option<u64>) -> (w:
        Option<u64>)
        requires
            fixed_window_valid(old(self)@),
        ensures
            (final(self)@, w) == fixed_window_request(old(self)@, tokens, now, unix_secs),
            fixed_window_valid(final(self)@),
    {
        self.refill(now, unix_secs);
        if self.available_tokens >= tokens {
            self.available_tokens = self.available_tokens - tokens;
            return None;
        }
        let elapsed = saturating_elapsed(now, self.last_refill);
        let wait_time = if self.refill_rate >= elapsed {
            self.refill_rate - elapsed
        } else {
            0
        };
        Some(wait_time)
    }

    /// Spends `tokens`, or every token that is left when there are fewer.
    pub fn consume_tokens(&mut self, tokens: usize, now: u64, unix_secs: Option<u64>)
        requires
            fixed_window_valid(old(self)@),
        ensures
            final(self)@ == fixed_window_consume(old(self)@, tokens, now, unix_secs),
            fixed_window_valid(final(self)@),
    {
        self.refill(now, unix_secs);
        let spent = if tokens <= self.available_tokens {
            tokens
        } else {
            self.available_tokens
        };
        self.available_tokens = self.available_tokens - spent;
    }
}


/// Requests never overdraw a fixed window: the bucket stays valid, a grant
/// takes exactly the tokens asked for, a refusal leaves the tokens untouched
/// and never asks to wait longer than one window, and once a whole window
/// has passed a request for at most the capacity is granted.
pub proof fn law_fixed_window_request(
    s: FixedWindowState,
    tokens: usize,
    now: u64,
    unix_secs: Option<u64>,
)
    requires
        fixed_window_valid(s),
    ensures
        ({
            let (n, w) = fixed_window_request(s, tokens, now, unix_secs);
            let r = after_refill(s, now, unix_secs);
            &&& fixed_window_valid(n)
            &&& n.max_tokens == s.max_tokens
            &&& n.refill_rate == s.refill_rate
            &&& (w is None <==> tokens <= r.available_tokens)
            &&& (w is None ==> n.available_tokens + tokens == r.available_tokens)
            &&& (w matches Some(ms) ==> ms <= s.refill_rate && n.available_tokens
                == r.available_tokens)
            &&& (unix_secs is Some && elapsed_ms(now, s.last_refill) >= s.refill_rate
                && tokens <= s.max_tokens ==> w is None)
        }),
{
}

/// Within a window, outside the first second of a wall-clock window period
/// (or when the wall clock reads before the epoch), a fixed window is not
/// refilled: a request is granted exactly when the tokens left cover it,
/// takes exactly those tokens, and is otherwise told to wait until the
/// window ends; the window keeps its start.
pub proof fn law_no_refill_inside_window(
    s: FixedWindowState,
    tokens: usize,
    now: u64,
    unix_secs: Option<u64>,
)
    requires
        fixed_window_valid(s),
        s.last_refill <= now < s.last_refill + s.refill_rate,
        unix_secs matches Some(secs) ==> (secs as int) % ((s.refill_rate / 1000) as int) >= 1,
    ensures
        ({
            let (n, w) = fixed_window_request(s, tokens, now, unix_secs);
            &&& n.last_refill == s.last_refill
            &&& n.max_tokens == s.max_tokens
            &&& (w is None <==> tokens <= s.available_tokens)
            &&& (w is None ==> n.available_tokens == s.available_tokens - tokens)
            &&& (w matches Some(ms) ==> n.available_tokens == s.available_tokens && ms
                == s.last_refill + s.refill_rate - now)
        }),
{
}

/// Two requests granted in one window, the second neither a whole window
/// after the refill nor in the first second of a window period, take
/// together no more tokens than the bucket holds.
pub proof fn law_one_window_grants_at_most_capacity(
    s: FixedWindowState,
    first: usize,
    now1: u64,
    unix1: Option<u64>,
    second: usize,
    now2: u64,
    unix2: Option<u64>,
)
    requires
        fixed_window_valid(s),
        ({
            let (n1, w1) = fixed_window_request(s, first, now1, unix1);
            &&& w1 is None
            &&& n1.last_refill <= now2 < n1.last_refill + n1.refill_rate
            &&& unix2 matches Some(secs) ==> (secs as int) % ((n1.refill_rate / 1000) as int) >= 1
            &&& fixed_window_request(n1, second, now2, unix2).1 is None
        }),
    ensures
        first + second <= s.max_tokens,
{
    let (n1, w1) = fixed_window_request(s, first, now1, unix1);
    law_fixed_window_request(s, first, now1, unix1);
    law_no_refill_inside_window(n1, second, now2, unix2);
}

/// Why a dynamic bucket asks the caller to wait.
#[derive(Debug, Clone, Copy, PartialEq, Eq, Structural)]
pub enum DynamicLimitReason {
    HeaderRate,
    FixedWindowRate,
}

/// The observable state of a dynamic bucket.
#[derive(Debug, Clone, Copy, PartialEq, Eq)]
pub struct DynamicState {
    pub max_weight: usize,
    pub current_used_weight: usize,
    pub last_updated: u64,
    pub refill_rate: u64,
    pub fallback: FixedWindowState,
}

/// A dynamic bucket is valid when its fallback window is, with the same
/// capacity and window length.
pub open spec fn dynamic_valid(s: DynamicState) -> bool {
    &&& fixed_window_valid(s.fallback)
    &&& s.max_weight == s.fallback.max_tokens
    &&& s.refill_rate == s.fallback.refill_rate
    &&& s.refill_rate >= 1000
}

/// The wait, in milliseconds, until the next window period starts on the
/// wall clock, plus half a second of margin.
pub open spec fn header_wait(refill_rate: u64, unix_secs: Option<u64>) -> int {
    let period = (refill_rate / 1000) as int;
    let secs = match unix_secs {
        Some(t) => t as int,
        None => 0,
    };
    (period - secs % period) * 1000 + 500
}

/// Whether the weight reported by the exchange is recent enough to trust.
pub open spec fn uses_header_data(s: DynamicState, now: u64) -> bool {
    elapsed_ms(now, s.last_updated) <= s.refill_rate && s.current_used_weight > 0
}

/// The outcome of preparing a request of `weight` at `now`.
pub open spec fn dynamic_request(
    s: DynamicState,
    weight: usize,
    now: u64,
    unix_secs: Option<u64>,
) -> (DynamicState, (Option<u64>, Option<DynamicLimitReason>)) {
    if uses_header_data(s, now) {
        let available = if s.max_weight >= s.current_used_weight {
            s.max_weight - s.current_used_weight
        } else {
            0
        };
        if available >= weight {
            (s, (None, None))
        } else {
            (
                s,
                (
                    Some(
                        (if header_wait(s.refill_rate, unix_secs) <= u64::MAX {
                            header_wait(s.refill_rate, unix_secs)
                        } else {
                            u64::MAX as int
                        }) as u64,
                    ),
                    Some(DynamicLimitReason::HeaderRate),
                ),
            )
        }
    } else {
        let (f, w) = fixed_window_request(s.fallback, weight, now, unix_secs);
        (
            DynamicState { fallback: f, ..s },
            match w {
                None => (None, None),
                Some(ms) => (Some(ms), Some(DynamicLimitReason::FixedWindowRate)),
            },
        )
    }
}

/// Limiter that follows the usage the exchange reports, and falls back to a
/// fixed window bucket when no recent report is available.
pub struct DynamicBucket {
    max_weight: usize,
    current_used_weight: usize,
    last_updated: u64,
    refill_rate: u64,
    fallback_bucket: FixedWindowBucket,
}

impl View for DynamicBucket {
    type V = DynamicState;

    closed spec fn view(&self) -> DynamicState {
        DynamicState {
            max_weight: self.max_weight,
            current_used_weight: self.current_used_weight,
            last_updated: self.last_updated,
            refill_rate: self.refill_rate,
            fallback: self.fallback_bucket@,
        }
    }
}

impl DynamicBucket {
    /// A bucket with no reported usage whose window lasts `refill_rate`
    /// milliseconds.
    /// Its window must last at least a second for the bucket to be usable.
    pub fn new(max_weight: usize, refill_rate: u64, now: u64) -> (b: Self)
        ensures
            b@ == (DynamicState {
                max_weight,
                current_used_weight: 0,
                last_updated: now,
                refill_rate,
                fallback: FixedWindowState {
                    max_tokens: max_weight,
                    available_tokens: max_weight,
                    last_refill: now,
                    refill_rate,
                },
            }),
            dynamic_valid(b@) <==> refill_rate >= 1000,
    {
        Self {
            max_weight,
            current_used_weight: 0,
            last_updated: now,
            refill_rate,
            fallback_bucket: FixedWindowBucket::new(max_weight, refill_rate, now),
        }
    }

    /// Records the weight used so far as reported by the exchange; a report
    /// of zero is ignored.
    pub fn update_weight(&mut self, new_weight: usize, now: u64)
        ensures
            final(self)@ == (if new_weight > 0 {
                DynamicState { current_used_weight: new_weight, last_updated: now, ..old(self)@ }
            } else {
                old(self)@
            }),
    {
        if new_weight > 0 {
            self.current_used_weight = new_weight;
            self.last_updated = now;
        }
    }

    /// Decides whether a request of `weight` may go now, or how long to
    /// wait and why.
    pub fn prepare_request(&mut self, weight: usize, now: u64, unix_secs: Option<u64>) -> (r: (
        Option<u64>,
        Option<DynamicLimitReason>,
    ))
        requires
            dynamic_valid(old(self)@),
        ensures
            (final(self)@, r) == dynamic_request(old(self)@, weight, now, unix_secs),
            dynamic_valid(final(self)@),
    {
        let elapsed = saturating_elapsed(now, self.last_updated);
        if elapsed <= self.refill_rate && self.current_used_weight > 0 {
            self.prepare_with_header_data(weight, unix_secs)
        } else {
            self.prepare_with_fallback(weight, now, unix_secs)
        }
    }

    fn prepare_with_header_data(&self, weight: usize, unix_secs: Option<u64>) -> (r: (
        Option<u64>,
        Option<DynamicLimitReason>,
    ))
        requires
            dynamic_valid(self@),
            self.current_used_weight > 0,
        ensures
            r == dynamic_request(self@, weight, self.last_updated, unix_secs).1,
    {
        let available = if self.max_weight >= self.current_used_weight {
            self.max_weight - self.current_used_weight
        } else {
            0
        };
        if available >= weight {
            return (None, None);
        }
        let current_secs: u64 = match unix_secs {
            Some(t) => t,
            None => 0,
        };
        let period_seconds = self.refill_rate / 1000;
        let seconds_in_period = current_secs % period_seconds;
        let whole = (period_seconds - seconds_in_period) as u128 * 1000 + 500;
        let wait_time: u64 = if whole <= u64::MAX as u128 {
            whole as u64
        } else {
            u64::MAX
        };
        (Some(wait_time), Some(DynamicLimitReason::HeaderRate))
    }

    fn prepare_with_fallback(&mut self, weight: usize, now: u64, unix_secs: Option<u64>) -> (r: (
        Option<u64>,
        Option<DynamicLimitReason>,
    ))
        requires
            dynamic_valid(old(self)@),
        ensures
            final(self)@ == (DynamicState {
                fallback: fixed_window_request(old(self)@.fallback, weight, now, unix_secs).0,
                ..old(self)@
            }),
            r == (match fixed_window_request(old(self)@.fallback, weight, now, unix_secs).1 {
                None => (None, None),
                Some(ms) => (Some(ms), Some(DynamicLimitReason::FixedWindowRate)),
            }),
    {
        match self.fallback_bucket.calculate_wait_time(weight, now, unix_secs) {
            None => (None, None),
            Some(wait_time) => (Some(wait_time), Some(DynamicLimitReason::FixedWindowRate)),
        }
    }
}

/// A dynamic bucket asks to wait only for a reason, and a wait caused by the
/// reported usage is more than half a second and at most one window period
/// plus half a second.
pub proof fn law_dynamic_wait_bounds(s: DynamicState, weight: usize, now: u64, unix_secs: Option<
    u64,
>)
    requires
        dynamic_valid(s),
    ensures
        ({
            let (n, (w, why)) = dynamic_request(s, weight, now, unix_secs);
            &&& (w is Some <==> why is Some)
            &&& (why == Some(DynamicLimitReason::HeaderRate) ==> (w matches Some(ms) && 500 < ms
                <= (s.refill_rate / 1000) as int * 1000 + 500))
            &&& dynamic_valid(n)
        }),
{
    let period = (s.refill_rate / 1000) as int;
    let secs = match unix_secs {
        Some(t) => t as int,
        None => 0,
    };
    assert(0 <= secs % period < period);
}

} // verus!
