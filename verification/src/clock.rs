//! The clock that paces the generations: it counts ticks and says, once per
//! tick, whether the next generation is due.

use vstd::prelude::*;

verus! {

/// Ticks between two generations at a speed level.
///
/// Level zero gives the base rate. Each level above zero divides the base by
/// one more, rounding down; each level below zero multiplies it by one more.
pub open spec fn interval_for(base: int, speed: int) -> int {
    if speed > 0 {
        base / (1 + speed)
    } else if speed < 0 {
        base * (1 - speed)
    } else {
        base
    }
}

/// What a clock is, mathematically.
pub struct ClockState {
    /// Ticks counted since the last generation.
    pub counter: int,
    /// Whether the clock is paused.
    pub paused: bool,
    /// The speed level.
    pub speed: int,
    /// Ticks between two generations.
    pub interval: int,
    /// The interval at speed level zero.
    pub base: int,
}

impl ClockState {
    /// The interval is the one that belongs to the speed level.
    pub open spec fn wf(self) -> bool {
        self.interval == interval_for(self.base, self.speed)
    }

    /// The clock as it starts: running, at speed zero, with nothing counted.
    pub open spec fn initial(base: int) -> ClockState {
        ClockState { counter: 0, paused: false, speed: 0, interval: base, base }
    }

    /// The counter after one more tick, reduced modulo the interval. With an
    /// interval of zero the counter stays at zero.
    pub open spec fn reduced(self) -> int {
        if self.interval == 0 {
            0
        } else {
            (self.counter + 1) % self.interval
        }
    }

    /// Whether a tick in this state makes a generation due.
    pub open spec fn steps_on_tick(self) -> bool {
        !self.paused && self.reduced() == 0
    }

    /// The state after one tick. A paused clock does not count.
    pub open spec fn ticked(self) -> ClockState {
        if self.paused {
            self
        } else {
            ClockState { counter: self.reduced(), ..self }
        }
    }

    /// The state after `count` ticks in a row.
    pub open spec fn ticked_times(self, count: nat) -> ClockState
        decreases count,
    {
        if count == 0 {
            self
        } else {
            self.ticked_times((count - 1) as nat).ticked()
        }
    }

    /// The state after the speed level has changed by `delta`.
    pub open spec fn with_speed_change(self, delta: int) -> ClockState {
        ClockState {
            speed: self.speed + delta,
            interval: interval_for(self.base, self.speed + delta),
            ..self
        }
    }

    /// The state after the pause flag has been flipped.
    pub open spec fn toggled(self) -> ClockState {
        ClockState { paused: !self.paused, ..self }
    }
}

/// A tick counter with a pause flag and a speed level.
#[derive(Clone, Copy, Debug, PartialEq, Eq)]
pub struct Clock {
    counter: u64,
    paused: bool,
    speed: i32,
    interval: u64,
    base: u32,
}

impl View for Clock {
    type V = ClockState;

    closed spec fn view(&self) -> ClockState {
        ClockState {
            counter: self.counter as int,
            paused: self.paused,
            speed: self.speed as int,
            interval: self.interval as int,
            base: self.base as int,
        }
    }
}

/// Computes the interval that belongs to a speed level.
pub fn interval_at(base: u32, speed: i32) -> (interval: u64)
    ensures
        interval == interval_for(base as int, speed as int),
{
    if speed > 0 {
        base as u64 / (1 + speed as u64)
    } else if speed < 0 {
        let factor: u64 = (1 - speed as i64) as u64;
        assert(base * factor <= 0xffff_ffff * 0x8000_0001) by (nonlinear_arith)
            requires
                0 <= base <= 0xffff_ffff,
                0 <= factor <= 0x8000_0001,
        ;
        base as u64 * factor
    } else {
        base as u64
    }
}

impl Clock {
    /// A running clock at speed zero that makes a generation due every `base`
    /// ticks.
    pub fn new(base: u32) -> (clock: Clock)
        ensures
            clock@ == ClockState::initial(base as int),
            clock@.wf(),
    {
        Clock { counter: 0, paused: false, speed: 0, interval: base as u64, base }
    }

    /// The speed level of a clock is a machine integer, and so are its
    /// counter, its interval and its base rate.
    pub proof fn lemma_view_fits(&self)
        ensures
            i32::MIN <= self@.speed <= i32::MAX,
            0 <= self@.counter <= u64::MAX,
            0 <= self@.interval <= u64::MAX,
            0 <= self@.base <= u32::MAX,
    {
    }

    /// Ticks counted since the last generation.
    pub fn counter(&self) -> (counter: u64)
        ensures
            counter == self@.counter,
    {
        self.counter
    }

    /// Whether the clock is paused.
    pub fn is_paused(&self) -> (paused: bool)
        ensures
            paused == self@.paused,
    {
        self.paused
    }

    /// The speed level.
    pub fn speed(&self) -> (speed: i32)
        ensures
            speed == self@.speed,
    {
        self.speed
    }

    /// Ticks between two generations.
    pub fn interval(&self) -> (interval: u64)
        ensures
            interval == self@.interval,
    {
        self.interval
    }

    /// The interval at speed level zero.
    pub fn base(&self) -> (base: u32)
        ensures
            base == self@.base,
    {
        self.base
    }

    /// Counts one tick and reports whether a generation is due.
    ///
    /// A paused clock reports `false` and does not count. A running clock
    /// reports `true` once every `interval` ticks, and on every tick when the
    /// interval is zero or one.
    pub fn on_tick(&mut self) -> (step: bool)
        ensures
            step == old(self)@.steps_on_tick(),
            final(self)@ == old(self)@.ticked(),
            old(self)@.paused ==> !step && *final(self) == *old(self),
    {
        if self.paused {
            return false;
        }
        if self.interval == 0 {
            self.counter = 0;
            return true;
        }
        let within: u64 = self.counter % self.interval;
        let reduced: u64 = (within + 1) % self.interval;
        proof {
            lemma_reduce_then_count(self.counter as int, self.interval as int);
        }
        self.counter = reduced;
        reduced == 0
    }

    /// Adds `delta` to the speed level and recomputes the interval.
    pub fn set_speed(&mut self, delta: i32)
        requires
            i32::MIN <= old(self)@.speed + delta <= i32::MAX,
        ensures
            final(self)@ == old(self)@.with_speed_change(delta as int),
            old(self)@.wf() ==> final(self)@.wf(),
    {
        self.speed = self.speed + delta;
        self.interval = interval_at(self.base, self.speed);
    }

    /// Pauses a running clock and resumes a paused one.
    pub fn toggle_pause(&mut self)
        ensures
            final(self)@ == old(self)@.toggled(),
    {
        self.paused = !self.paused;
    }
}

/// Reducing a counter before counting one more gives the same remainder as
/// counting first.
proof fn lemma_reduce_then_count(counter: int, interval: int)
    requires
        0 <= counter,
        0 < interval,
    ensures
        (counter % interval + 1) % interval == (counter + 1) % interval,
{
    vstd::arithmetic::div_mod::lemma_add_mod_noop(counter, 1, interval);
    if interval == 1 {
        assert(1int % 1 == 0);
        assert((counter % interval + 1) % 1 == 0);
        assert((counter + 1) % 1 == 0);
    } else {
        vstd::arithmetic::div_mod::lemma_small_mod(1, interval as nat);
    }
}

/// The interval is never negative, at any speed level.
pub proof fn lemma_interval_never_negative(base: int, speed: int)
    requires
        0 <= base,
    ensures
        0 <= interval_for(base, speed),
{
    if speed > 0 {
        vstd::arithmetic::div_mod::lemma_div_pos_is_pos(base, 1 + speed);
    } else if speed < 0 {
        assert(base * (1 - speed) >= 0) by (nonlinear_arith)
            requires
                base >= 0,
                1 - speed >= 0,
        ;
    }
}

/// A higher speed level never gives a longer interval.
pub proof fn lemma_interval_shrinks_as_speed_grows(base: int, slower: int, faster: int)
    requires
        0 <= base,
        slower <= faster,
    ensures
        interval_for(base, faster) <= interval_for(base, slower),
{
    lemma_interval_against_base(base, slower);
    lemma_interval_against_base(base, faster);
    if slower > 0 {
        vstd::arithmetic::div_mod::lemma_div_is_ordered_by_denominator(
            base,
            1 + slower,
            1 + faster,
        );
    } else if faster < 0 {
        assert(base * (1 - faster) <= base * (1 - slower)) by (nonlinear_arith)
            requires
                base >= 0,
                1 - faster <= 1 - slower,
        ;
    }
}

/// Speeding up never lengthens the base interval, slowing down never
/// shortens it.
proof fn lemma_interval_against_base(base: int, speed: int)
    requires
        0 <= base,
    ensures
        speed >= 0 ==> interval_for(base, speed) <= base,
        speed <= 0 ==> interval_for(base, speed) >= base,
{
    if speed > 0 {
        vstd::arithmetic::div_mod::lemma_div_is_ordered_by_denominator(base, 1, 1 + speed);
    } else if speed < 0 {
        assert(base * (1 - speed) >= base) by (nonlinear_arith)
            requires
                base >= 0,
                1 - speed >= 1,
        ;
    }
}

/// From speed level `base` on the interval is zero; from half the base on it
/// is at most one.
pub proof fn lemma_interval_bottoms_out(base: int, speed: int)
    requires
        0 <= base,
        0 < speed,
    ensures
        speed >= base ==> interval_for(base, speed) == 0,
        base < 2 * (1 + speed) ==> interval_for(base, speed) <= 1,
{
    let divisor = 1 + speed;
    if speed >= base {
        vstd::arithmetic::div_mod::lemma_basic_div(base, divisor);
    }
    if base < 2 * divisor {
        vstd::arithmetic::div_mod::lemma_fundamental_div_mod(base, divisor);
        vstd::arithmetic::div_mod::lemma_mod_pos_bound(base, divisor);
        let q = base / divisor;
        assert(q <= 1) by (nonlinear_arith)
            requires
                base == divisor * q + base % divisor,
                0 <= base % divisor,
                base < 2 * divisor,
                divisor > 0,
        ;
    }
}

/// Changing the speed level in two moves gives the clock that one move by
/// their sum gives, and the interval always belongs to the level reached.
pub proof fn lemma_speed_changes_add_up(clock: ClockState, first: int, second: int)
    ensures
        clock.with_speed_change(first).with_speed_change(second) == clock.with_speed_change(
            first + second,
        ),
        clock.with_speed_change(first).wf(),
{
}

/// A running clock whose interval is zero or one makes a generation due on
/// every tick.
pub proof fn lemma_shortest_interval_steps_every_tick(clock: ClockState)
    requires
        !clock.paused,
        0 <= clock.interval <= 1,
    ensures
        clock.steps_on_tick(),
        clock.ticked().counter == 0,
        clock.ticked().interval == clock.interval,
        !clock.ticked().paused,
{
}

/// A paused clock ignores ticks: after any number of them it is in the state
/// it was in, and none of them makes a generation due.
pub proof fn lemma_paused_clock_ignores_ticks(clock: ClockState, count: nat)
    requires
        clock.paused,
    ensures
        clock.ticked_times(count) == clock,
        !clock.ticked_times(count).steps_on_tick(),
    decreases count,
{
    if count > 0 {
        lemma_paused_clock_ignores_ticks(clock, (count - 1) as nat);
    }
}

} // verus!
