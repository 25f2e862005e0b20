//! The fixed-tick policy: how long a tick lasts at each speed level, and
//! how many steps a frame runs.
//!
//! Times are whole microseconds on any clock that does not run backwards;
//! the scheduler only ever looks at differences.

use vstd::prelude::*;

verus! {

/// The length of a tick at speed level 1, in microseconds.
pub const BASE_INTERVAL: u64 = 150_000;

/// The slowest speed level.
pub const MIN_SPEED: u8 = 1;

/// The fastest speed level.
pub const MAX_SPEED: u8 = 9;

/// Whether `speed` is one of the nine speed levels.
pub open spec fn is_speed_level(speed: u8) -> bool {
    MIN_SPEED <= speed <= MAX_SPEED
}

/// The length of a tick at a speed level: `base / (1 + (speed - 1) / 8)`,
/// which is `8 * base / (7 + speed)`, rounded down to a whole unit.
pub open spec fn interval_of(base: u64, speed: u8) -> int {
    (8 * base) / (7 + speed)
}

/// Whether `elapsed` has reached the tick length, `8 * base / (7 + speed)`
/// taken exactly.
pub open spec fn is_due(base: u64, speed: u8, elapsed: int) -> bool {
    elapsed * (7 + speed) >= 8 * base
}

/// The time from `last_tick` to `now`, and nothing if the clock stood
/// still or ran backwards.
pub open spec fn elapsed_between(last_tick: u64, now: u64) -> int {
    if now >= last_tick {
        now - last_tick
    } else {
        0
    }
}

/// The tick length is the exact quotient rounded down.
pub proof fn lemma_interval_is_floor(base: u64, speed: u8)
    requires
        is_speed_level(speed),
    ensures
        interval_of(base, speed) * (7 + speed) <= 8 * base < (interval_of(base, speed) + 1) * (7
            + speed),
        0 <= interval_of(base, speed) <= base,
{
    let n = 8 * base;
    let d = (7 + speed) as int;
    let q = n / d;
    assert(q * d <= n < (q + 1) * d && 0 <= q) by (nonlinear_arith)
        requires
            q == n / d,
            d > 0,
            n >= 0,
    ;
    assert(q <= base) by (nonlinear_arith)
        requires
            q * d <= 8 * base,
            d >= 8,
            q >= 0,
    ;
}

/// A tick is due no earlier than the rounded tick length, and at the
/// latest one unit after it.
pub proof fn lemma_due_at_the_interval(base: u64, speed: u8, elapsed: int)
    requires
        is_speed_level(speed),
    ensures
        is_due(base, speed, elapsed) ==> elapsed >= interval_of(base, speed),
        elapsed > interval_of(base, speed) ==> is_due(base, speed, elapsed),
        (8 * base) % (7 + speed) == 0 ==> (is_due(base, speed, elapsed) <==> elapsed
            >= interval_of(base, speed)),
{
    lemma_interval_is_floor(base, speed);
    let q = interval_of(base, speed);
    let d = (7 + speed) as int;
    let n = 8 * base;
    assert(elapsed * d >= n ==> elapsed >= q) by (nonlinear_arith)
        requires
            q * d <= n,
            d > 0,
    ;
    assert(elapsed > q ==> elapsed * d >= n) by (nonlinear_arith)
        requires
            n < (q + 1) * d,
            d > 0,
    ;
    if n % d == 0 {
        assert(q * d == n) by (nonlinear_arith)
            requires
                q == n / d,
                n % d == 0,
                d > 0,
        ;
    }
}

/// Level 1 ticks at the base length and level 9 at half of it.
pub proof fn lemma_interval_at_the_ends(base: u64)
    ensures
        interval_of(base, 1) == base,
        interval_of(base, 9) == base / 2,
{
    assert((8 * base) / 8 == base);
    assert((8 * base) / 16 == base / 2);
}

/// A higher level never ticks more slowly.
pub proof fn lemma_interval_decreases(base: u64, slow: u8, fast: u8)
    requires
        is_speed_level(slow),
        is_speed_level(fast),
        slow <= fast,
    ensures
        interval_of(base, fast) <= interval_of(base, slow),
{
    lemma_interval_is_floor(base, slow);
    lemma_interval_is_floor(base, fast);
    let a = interval_of(base, slow);
    let b = interval_of(base, fast);
    let ds = (7 + slow) as int;
    let df = (7 + fast) as int;
    assert(b <= a) by (nonlinear_arith)
        requires
            b * df <= 8 * base,
            8 * base < (a + 1) * ds,
            0 < ds <= df,
            a >= 0,
            b >= 0,
    ;
}

/// The length of a tick at a speed level.
pub fn interval(base: u64, speed: u8) -> (t: u64)
    requires
        is_speed_level(speed),
    ensures
        t == interval_of(base, speed),
{
    proof {
        lemma_interval_is_floor(base, speed);
    }
    let wide: u128 = (8 * (base as u128)) / (7 + speed as u128);
    wide as u64
}

/// The model of a scheduler.
pub struct SchedulerView {
    /// The length of a tick at level 1.
    pub base: u64,
    /// The speed level.
    pub speed: u8,
    /// When the last tick fired.
    pub last_tick: u64,
}

impl SchedulerView {
    /// What every scheduler satisfies: its speed is one of the nine levels.
    pub open spec fn wf(self) -> bool {
        is_speed_level(self.speed)
    }

    /// Whether a tick is due at `now`.
    pub open spec fn due(self, now: u64) -> bool {
        is_due(self.base, self.speed, elapsed_between(self.last_tick, now))
    }

    /// The number of steps to run at `now`: none before the tick is due,
    /// then one, or two when `fast` is asked for, however late it is.
    pub open spec fn steps_at(self, now: u64, fast: bool) -> u8 {
        if !self.due(now) {
            0
        } else if fast {
            2
        } else {
            1
        }
    }

    /// The scheduler after it was polled at `now`: a tick that fires
    /// restarts the count at `now`, so lateness is not carried over.
    pub open spec fn polled(self, now: u64) -> SchedulerView {
        if self.due(now) {
            SchedulerView { last_tick: now, ..self }
        } else {
            self
        }
    }

    /// The scheduler after a request for speed level `level`: a level
    /// outside 1 to 9 is ignored.
    pub open spec fn with_speed(self, level: u8) -> SchedulerView {
        if is_speed_level(level) {
            SchedulerView { speed: level, ..self }
        } else {
            self
        }
    }
}

/// Decides when the simulation steps, apart from how often frames come.
pub struct TickScheduler {
    base: u64,
    speed: u8,
    last_tick: u64,
}

impl View for TickScheduler {
    type V = SchedulerView;

    closed spec fn view(&self) -> SchedulerView {
        SchedulerView { base: self.base, speed: self.speed, last_tick: self.last_tick }
    }
}

impl TickScheduler {
    /// What every scheduler satisfies; see [`SchedulerView::wf`].
    pub open spec fn wf(&self) -> bool {
        self@.wf()
    }

    /// A scheduler at speed level 1 whose count starts at `now`.
    pub fn new(base: u64, now: u64) -> (s: TickScheduler)
        ensures
            s.wf(),
            s@ == (SchedulerView { base, speed: MIN_SPEED, last_tick: now }),
    {
        TickScheduler { base, speed: MIN_SPEED, last_tick: now }
    }

    /// The speed level.
    pub fn speed(&self) -> (level: u8)
        ensures
            level == self@.speed,
    {
        self.speed
    }

    /// When the last tick fired.
    pub fn last_tick(&self) -> (t: u64)
        ensures
            t == self@.last_tick,
    {
        self.last_tick
    }

    /// The length of a tick at the current speed level.
    pub fn interval(&self) -> (t: u64)
        requires
            self.wf(),
        ensures
            t == interval_of(self@.base, self@.speed),
    {
        interval(self.base, self.speed)
    }

    /// Sets the speed level if `level` is one of 1 to 9, and says whether
    /// it was.
    pub fn set_speed(&mut self, level: u8) -> (accepted: bool)
        requires
            old(self).wf(),
        ensures
            final(self).wf(),
            accepted == is_speed_level(level),
            final(self)@ == old(self)@.with_speed(level),
    {
        if MIN_SPEED <= level && level <= MAX_SPEED {
            self.speed = level;
            true
        } else {
            false
        }
    }

    /// Restarts the count at `now` without firing.
    pub fn restart(&mut self, now: u64)
        ensures
            final(self)@ == (SchedulerView { last_tick: now, ..old(self)@ }),
    {
        self.last_tick = now;
    }

    /// Whether a tick is due at `now`.
    pub fn due(&self, now: u64) -> (b: bool)
        requires
            self.wf(),
        ensures
            b == self@.due(now),
    {
        let elapsed: u64 = if now >= self.last_tick {
            now - self.last_tick
        } else {
            0
        };
        let weight: u128 = 7 + self.speed as u128;
        assert(elapsed * weight <= u64::MAX * 16) by (nonlinear_arith)
            requires
                elapsed <= u64::MAX,
                0 <= weight <= 16,
        ;
        (elapsed as u128) * weight >= 8 * (self.base as u128)
    }

    /// Says how many steps to run at `now`, and restarts the count if that
    /// is any.
    pub fn poll(&mut self, now: u64, fast: bool) -> (steps: u8)
        requires
            old(self).wf(),
        ensures
            final(self).wf(),
            steps == old(self)@.steps_at(now, fast),
            final(self)@ == old(self)@.polled(now),
    {
        if self.due(now) {
            self.last_tick = now;
            if fast {
                2
            } else {
                1
            }
        } else {
            0
        }
    }
}

} // verus!
