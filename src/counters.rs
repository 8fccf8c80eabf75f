//! The plain counters of the clock and their per-tick arithmetic.
use vstd::prelude::*;

use crate::timer::MILLIS_INCREMENT;
use vstd::arithmetic::div_mod::{lemma_add_mod_noop, lemma_fundamental_div_mod_converse};

verus! {

/// Milliseconds without a minute mark after which the decoder's second
/// counter is pushed forward by one.
pub const FALLBACK_THRESHOLD: u16 = 59_000;

/// The tick length that the configured prescaler and count give.
pub proof fn lemma_millis_increment()
    ensures
        MILLIS_INCREMENT == 8,
{
    assert(crate::timer::PRESCALER * crate::timer::TIMER_COUNTS == 128_000u32);
    assert(128_000u32 / 16_000u32 == 8u32);
}

/// `a + b` modulo 2^32.
pub open spec fn wrap_add(a: int, b: int) -> u32 {
    ((a + b) % 0x1_0000_0000) as u32
}

/// `a + b`, held at `u16::MAX`.
pub open spec fn sat_add(a: int, b: int) -> u16 {
    if a + b > u16::MAX { u16::MAX } else { (a + b) as u16 }
}

/// The timestamp handed to the decoder: milliseconds as microseconds, modulo 2^32.
pub open spec fn micros_of(millis: u32) -> u32 {
    ((millis * 1000) % 0x1_0000_0000) as u32
}

/// What a tick did, besides advancing the time.
#[derive(Clone, Copy, Debug, PartialEq, Eq, Structural)]
pub struct TickOutcome {
    /// The pin level differed from the last observed one; the edge went to the decoder.
    pub edge: bool,
    /// The decoder confirmed a minute mark on an active-going edge; the
    /// wall clock was replaced and the minute counter restarted.
    pub minute_boundary: bool,
    /// The fallback rollover pushed the decoder's second counter forward.
    pub rollover: bool,
}

/// The counters that the timer tick advances.
#[derive(Clone, Copy, Debug, PartialEq, Eq, Structural)]
pub struct Counters {
    /// Milliseconds since the clock started; wraps at 2^32.
    pub millis: u32,
    /// Milliseconds since the last minute mark (or fallback rollover); saturates.
    pub minute_elapsed: u16,
    /// Last observed level of the time-code pin.
    pub pin_state: bool,
}

impl Counters {
    /// Between ticks the minute counter never exceeds the fallback threshold.
    pub open spec fn wf(self) -> bool {
        self.minute_elapsed <= FALLBACK_THRESHOLD
    }

    /// The counters after the time of one tick has been added.
    pub open spec fn advanced(self) -> Counters {
        Counters {
            millis: wrap_add(self.millis as int, MILLIS_INCREMENT as int),
            minute_elapsed: sat_add(self.minute_elapsed as int, MILLIS_INCREMENT as int),
            pin_state: self.pin_state,
        }
    }

    /// Whether the fallback rollover fires on these counters.
    pub open spec fn rollover_due(self) -> bool {
        self.minute_elapsed > FALLBACK_THRESHOLD
    }

    /// The counters after the fallback rollover step: the threshold is taken
    /// off the minute counter where it was exceeded.
    pub open spec fn rolled_over(self) -> Counters {
        if self.rollover_due() {
            Counters { minute_elapsed: (self.minute_elapsed - FALLBACK_THRESHOLD) as u16, ..self }
        } else {
            self
        }
    }

    /// The counters just before the rollover step of a tick that sampled
    /// `level`, where `boundary` tells whether a minute mark was confirmed.
    pub open spec fn sampled(self, level: bool, boundary: bool) -> Counters {
        let a = self.advanced();
        Counters {
            millis: a.millis,
            minute_elapsed: if boundary { 0 } else { a.minute_elapsed },
            pin_state: level,
        }
    }

    /// The counters after a whole tick that sampled `level`, where `boundary`
    /// tells whether a minute mark was confirmed on it.
    pub open spec fn after_tick(self, level: bool, boundary: bool) -> Counters {
        self.sampled(level, boundary).rolled_over()
    }

    /// Whether the fallback rollover fires on a tick that sampled `level`.
    pub open spec fn tick_rolls_over(self, level: bool, boundary: bool) -> bool {
        self.sampled(level, boundary).rollover_due()
    }

    /// Whether a tick that samples `level` confirms a minute mark, given the
    /// decoder's new-minute flag as it reads after the edge was handed over:
    /// only an active-going (rising) change of level can.
    pub open spec fn confirms_minute(self, level: bool, new_minute: bool) -> bool {
        level != self.pin_state && level && new_minute
    }

    /// The transition of one tick: the next counters and the tick's outcome.
    pub open spec fn step_spec(self, level: bool, new_minute: bool) -> (Counters, TickOutcome) {
        let boundary = self.confirms_minute(level, new_minute);
        (
            self.after_tick(level, boundary),
            TickOutcome {
                edge: level != self.pin_state,
                minute_boundary: boundary,
                rollover: self.tick_rolls_over(level, boundary),
            },
        )
    }

    /// Fresh counters: zero time, and the pin's level as found at start-up.
    pub fn new(initial_level: bool) -> (r: Counters)
        ensures
            r == (Counters { millis: 0, minute_elapsed: 0, pin_state: initial_level }),
            r.wf(),
    {
        Counters { millis: 0, minute_elapsed: 0, pin_state: initial_level }
    }

    /// Adds the time of one tick: `millis` wraps, `minute_elapsed` saturates.
    pub fn advance(&mut self)
        ensures
            *final(self) == old(self).advanced(),
    {
        proof {
            lemma_millis_increment();
        }
        let room: u32 = u32::MAX - self.millis;
        if MILLIS_INCREMENT <= room {
            self.millis = self.millis + MILLIS_INCREMENT;
        } else {
            self.millis = MILLIS_INCREMENT - room - 1;
        }
        let minute_room: u16 = u16::MAX - self.minute_elapsed;
        if MILLIS_INCREMENT as u16 <= minute_room {
            self.minute_elapsed = self.minute_elapsed + MILLIS_INCREMENT as u16;
        } else {
            self.minute_elapsed = u16::MAX;
        }
    }

    /// Records the sampled pin level; returns whether it differs from the
    /// level observed before.
    pub fn observe_level(&mut self, level: bool) -> (changed: bool)
        ensures
            changed == (level != old(self).pin_state),
            *final(self) == (Counters { pin_state: level, ..*old(self) }),
    {
        if level != self.pin_state {
            self.pin_state = level;
            true
        } else {
            false
        }
    }

    /// The current time in microseconds, modulo 2^32, as the decoder takes it.
    pub fn timestamp_micros(&self) -> (r: u32)
        ensures
            r == micros_of(self.millis),
    {
        let m: u64 = self.millis as u64 * 1000;
        (m % 0x1_0000_0000) as u32
    }

    /// The transition table of one tick that samples `level`, where
    /// `new_minute` is the decoder's new-minute flag as it reads after the
    /// edge was handed over (it matters only on a rising edge).
    ///
    /// Adds the tick's time, records the level, restarts the minute counter
    /// where a minute mark is confirmed, then applies the fallback rollover.
    pub fn step(&self, level: bool, new_minute: bool) -> (r: (Counters, TickOutcome))
        ensures
            r == self.step_spec(level, new_minute),
            r.0.wf(),
    {
        let mut next = *self;
        next.advance();
        let edge = next.observe_level(level);
        let minute_boundary = edge && level && new_minute;
        if minute_boundary {
            next.finish_minute();
        }
        let rollover = next.fallback_rollover();
        (next, TickOutcome { edge, minute_boundary, rollover })
    }

    /// Restarts the minute counter at a confirmed minute mark.
    pub fn finish_minute(&mut self)
        ensures
            *final(self) == (Counters { minute_elapsed: 0, ..*old(self) }),
    {
        self.minute_elapsed = 0;
    }

    /// The fallback rollover: where the minute counter exceeds the threshold,
    /// takes the threshold off it and returns `true`.
    pub fn fallback_rollover(&mut self) -> (fired: bool)
        ensures
            fired == old(self).rollover_due(),
            *final(self) == old(self).rolled_over(),
    {
        if self.minute_elapsed > FALLBACK_THRESHOLD {
            self.minute_elapsed = self.minute_elapsed - FALLBACK_THRESHOLD;
            true
        } else {
            false
        }
    }
}

/// The counters after `n` ticks that all sample the level last observed.
pub open spec fn quiet_run(c: Counters, n: nat) -> Counters
    decreases n,
{
    if n == 0 {
        c
    } else {
        quiet_run(c, (n - 1) as nat).after_tick(c.pin_state, false)
    }
}

/// How many of those `n` ticks fire the fallback rollover.
pub open spec fn quiet_rollovers(c: Counters, n: nat) -> nat
    decreases n,
{
    if n == 0 {
        0
    } else {
        quiet_rollovers(c, (n - 1) as nat) + if quiet_run(c, (n - 1) as nat).tick_rolls_over(
            c.pin_state,
            false,
        ) {
            1nat
        } else {
            0nat
        }
    }
}

/// Over ticks that see no level change, the millisecond counter grows by
/// exactly the tick length per tick, modulo 2^32, and the observed level
/// stays as it was.
pub proof fn lemma_quiet_ticks_advance_millis(c: Counters, n: nat)
    ensures
        quiet_run(c, n).millis == wrap_add(c.millis as int, n * MILLIS_INCREMENT),
        quiet_run(c, n).pin_state == c.pin_state,
    decreases n,
{
    lemma_millis_increment();
    if n == 0 {
        assert(c.millis as int % 0x1_0000_0000 == c.millis);
    } else {
        let k = (n - 1) as nat;
        lemma_quiet_ticks_advance_millis(c, k);
        let x = c.millis + k * 8;
        lemma_add_mod_noop(x, 8, 0x1_0000_0000);
        assert(8int % 0x1_0000_0000 == 8);
        assert(x + 8 == c.millis + n * 8) by (nonlinear_arith)
            requires
                x == c.millis + k * 8,
                k == n - 1,
        ;
    }
}

/// Over ticks that see no level change, starting from well-formed counters,
/// the minute counter never exceeds the fallback threshold (so it never
/// saturates), and the rollover fires exactly once for every full threshold
/// of elapsed time: what the counter shows plus the threshold times the
/// rollovers is the elapsed time, and the rollovers number
/// `(m + n * tick - 1) / threshold` once any time has been counted.
pub proof fn lemma_quiet_ticks_roll_over(c: Counters, n: nat)
    requires
        c.wf(),
    ensures
        quiet_run(c, n).wf(),
        quiet_run(c, n).minute_elapsed + FALLBACK_THRESHOLD * quiet_rollovers(c, n)
            == c.minute_elapsed + n * MILLIS_INCREMENT,
        quiet_rollovers(c, n) == if c.minute_elapsed + n * MILLIS_INCREMENT == 0 {
            0
        } else {
            (c.minute_elapsed + n * MILLIS_INCREMENT - 1) / FALLBACK_THRESHOLD as int
        },
    decreases n,
{
    lemma_millis_increment();
    lemma_quiet_ticks_counted(c, n);
    let t = c.minute_elapsed + n * 8;
    let m = quiet_run(c, n).minute_elapsed;
    let f = quiet_rollovers(c, n);
    if t != 0 {
        lemma_fundamental_div_mod_converse(t - 1, 59_000, f as int, m - 1);
    }
}

/// The inductive core of the rollover law: the counter stays within
/// `1..=threshold` once time has been counted, and accounts for all of it.
proof fn lemma_quiet_ticks_counted(c: Counters, n: nat)
    requires
        c.wf(),
    ensures
        quiet_run(c, n).wf(),
        quiet_run(c, n).minute_elapsed + 59_000 * quiet_rollovers(c, n) == c.minute_elapsed + n * 8,
        c.minute_elapsed + n * 8 != 0 ==> quiet_run(c, n).minute_elapsed >= 1,
    decreases n,
{
    lemma_millis_increment();
    if n > 0 {
        let k = (n - 1) as nat;
        lemma_quiet_ticks_counted(c, k);
        assert(c.minute_elapsed + k * 8 + 8 == c.minute_elapsed + n * 8) by (nonlinear_arith)
            requires
                k == n - 1,
        ;
    }
}

/// The millisecond counter wraps at 2^32: a tick adds the tick length where
/// it fits, and otherwise continues from zero with what is left over.
pub proof fn lemma_tick_millis_wraps(c: Counters, level: bool, boundary: bool)
    ensures
        c.after_tick(level, boundary).millis == if c.millis as int + MILLIS_INCREMENT <= u32::MAX {
            c.millis as int + MILLIS_INCREMENT
        } else {
            c.millis as int + MILLIS_INCREMENT - 0x1_0000_0000
        },
{
    lemma_millis_increment();
}

} // verus!
