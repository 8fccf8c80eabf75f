//! Configuration of the periodic timer tick.
use vstd::prelude::*;

verus! {

/// Clock frequency of the hardware timer, in Hz.
pub const TIMER_CLOCK_HZ: u32 = 16_000_000;

/// Prescaler divisor the timer runs with.
///
/// Possible pairs of divisor and compare count, at a 16 MHz timer clock:
///
/// | divisor | compare count | interval |
/// |--------:|--------------:|---------:|
/// |      64 |           250 |     1 ms |
/// |     256 |           125 |     2 ms |
/// |     256 |           250 |     4 ms |
/// |    1024 |           125 |     8 ms |
/// |    1024 |           250 |    16 ms |
pub const PRESCALER: u32 = 1024;

/// Number of timer counts between two compare-match interrupts.
pub const TIMER_COUNTS: u32 = 125;

/// Milliseconds that pass between two ticks.
pub const MILLIS_INCREMENT: u32 = PRESCALER * TIMER_COUNTS / (TIMER_CLOCK_HZ / 1000);

/// Clock selection of the timer: the supported prescaler divisors.
#[derive(Clone, Copy, Debug, PartialEq, Eq, Structural)]
pub enum Prescaler {
    Div8,
    Div64,
    Div256,
    Div1024,
}

impl Prescaler {
    /// The divisor this selection stands for.
    pub open spec fn divisor_spec(self) -> u32 {
        match self {
            Prescaler::Div8 => 8,
            Prescaler::Div64 => 64,
            Prescaler::Div256 => 256,
            Prescaler::Div1024 => 1024,
        }
    }

    /// The divisor this selection stands for.
    pub fn divisor(self) -> (r: u32)
        ensures
            r == self.divisor_spec(),
    {
        match self {
            Prescaler::Div8 => 8,
            Prescaler::Div64 => 64,
            Prescaler::Div256 => 256,
            Prescaler::Div1024 => 1024,
        }
    }

    /// The selection for a divisor, or `None` where the timer has no such divisor.
    pub fn from_divisor(divisor: u32) -> (r: Option<Prescaler>)
        ensures
            r is None <==> !is_supported_divisor(divisor),
            r matches Some(p) ==> p.divisor_spec() == divisor,
    {
        match divisor {
            8 => Some(Prescaler::Div8),
            64 => Some(Prescaler::Div64),
            256 => Some(Prescaler::Div256),
            1024 => Some(Prescaler::Div1024),
            _ => None,
        }
    }
}

/// The divisors the timer can be configured with.
pub open spec fn is_supported_divisor(divisor: u32) -> bool {
    divisor == 8 || divisor == 64 || divisor == 256 || divisor == 1024
}

/// Milliseconds between two ticks for a divisor and a compare count.
pub open spec fn tick_millis(divisor: int, counts: int) -> int {
    divisor * counts / (TIMER_CLOCK_HZ / 1000) as int
}

/// A validated timer configuration: the clock selection, the value of the
/// compare register and the milliseconds per tick that follow from them.
#[derive(Clone, Copy, Debug, PartialEq, Eq, Structural)]
pub struct TimerConfig {
    pub prescaler: Prescaler,
    pub compare: u8,
    pub millis_increment: u32,
}

/// Milliseconds between two ticks for a prescaler divisor and a compare count.
pub fn millis_increment(divisor: u32, counts: u32) -> (r: u32)
    requires
        divisor as int * counts as int <= u32::MAX,
    ensures
        r == tick_millis(divisor as int, counts as int),
{
    divisor * counts / (TIMER_CLOCK_HZ / 1000)
}

/// Checks a prescaler divisor and compare count and derives the tick length.
///
/// Fails (`None`) where the divisor is not one the timer offers or the count
/// does not fit the 8-bit compare register, so that a wrong tick rate is never
/// configured silently.
pub fn timer_config(divisor: u32, counts: u32) -> (r: Option<TimerConfig>)
    ensures
        r is None <==> (!is_supported_divisor(divisor) || counts > 255),
        r matches Some(c) ==> {
            &&& c.prescaler.divisor_spec() == divisor
            &&& c.compare == counts
            &&& c.millis_increment == tick_millis(divisor as int, counts as int)
        },
{
    let prescaler = match Prescaler::from_divisor(divisor) {
        Some(p) => p,
        None => return None,
    };
    if counts > 255 {
        return None;
    }
    Some(TimerConfig { prescaler, compare: counts as u8, millis_increment: millis_increment(divisor, counts) })
}

} // verus!
