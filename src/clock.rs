//! The shared clock state and the logic that runs on every timer tick.
use vstd::prelude::*;

use dcf77_utils::DCF77Utils;

use crate::counters::{
    lemma_quiet_ticks_advance_millis, micros_of, quiet_run, wrap_add, Counters, TickOutcome,
};
use crate::decoder::{
    after_decode, after_edge, after_reset, after_second, day_field, decode_tally, edge_origin,
    february_overrun, month_field, new_minute_of, record_is_blank, record_of, spike_limit_of,
    wrapped_gap,
};
use crate::timer::MILLIS_INCREMENT;
use crate::wall_clock::{lemma_blank_record_unknown, unknown_spec, wall_clock_of, WallClock};

verus! {

/// Decodes after which the decoder is reset, before the counters of its
/// date/time record could overflow.
pub const DECODER_RENEWAL: u8 = 127;

/// Spike limit of a decoder as this library uses it, in µs.
pub const SPIKE_LIMIT_MICROS: u32 = 30_000;

/// What a [`ClockState`] holds, as its contracts speak of it.
pub struct ClockView {
    /// Elapsed time and the last observed pin level.
    pub counters: Counters,
    /// The snapshot taken at the last confirmed minute mark.
    pub wall_clock: WallClock,
    /// The DCF77 decoder that the pin's edges are handed to.
    pub decoder: DCF77Utils,
    /// Decodes since the decoder was made or last reset.
    pub decodes: u8,
}

/// The timestamp that an edge on the next tick hands the decoder: the
/// advanced millisecond counter in µs (modulo 2^32), fitted to the
/// decoder's stored timestamp by [`fitting_timestamp_spec`].
pub open spec fn edge_timestamp(v: ClockView) -> u32 {
    fitting_timestamp_spec(edge_origin(v.decoder), micros_of(v.counters.advanced().millis))
}

/// The decoder after an edge to `level`: the edge handed over, then, on a
/// rising edge, a second counted.
pub open spec fn fed_decoder(v: ClockView, level: bool) -> DCF77Utils {
    let d = after_edge(v.decoder, level, edge_timestamp(v));
    if level {
        after_second(d)
    } else {
        d
    }
}

/// The decoder after the decode at a minute mark: all checks on, and the
/// passed minute added unless the record is a February overrun.
pub open spec fn decoded(d: DCF77Utils) -> DCF77Utils {
    let r = record_of(d);
    after_decode(d, !february_overrun(month_field(r), day_field(r)), true)
}

/// One timer tick that samples `level`: the next state and the outcome.
///
/// - The counters and the outcome follow [`Counters::step_spec`].
/// - On an edge the decoder gets the edge ([`fed_decoder`]); a minute mark
///   is a rising edge after which the decoder's new-minute flag is set.
/// - At a minute mark the decoder decodes ([`decoded`]) and the wall clock
///   becomes the snapshot of its record; when this completes
///   [`DECODER_RENEWAL`] decodes, the decoder is reset and given the same
///   edge again, so that it measures the coming minute from it.
/// - A fallback rollover counts one more second on the decoder.
/// - Nothing else touches the decoder or the wall clock.
pub open spec fn tick_spec(v: ClockView, level: bool) -> (ClockView, TickOutcome) {
    let edge = level != v.counters.pin_state;
    let fed = if edge {
        fed_decoder(v, level)
    } else {
        v.decoder
    };
    let mark = edge && level && new_minute_of(fed);
    let (counters, o) = v.counters.step_spec(level, mark);
    let dec = if mark {
        decoded(fed)
    } else {
        fed
    };
    let renew = mark && v.decodes + 1 >= DECODER_RENEWAL;
    let kept = if renew {
        after_edge(after_reset(dec), level, edge_timestamp(v))
    } else {
        dec
    };
    (
        ClockView {
            counters,
            wall_clock: if mark {
                wall_clock_of(record_of(dec))
            } else {
                v.wall_clock
            },
            decoder: if o.rollover {
                after_second(kept)
            } else {
                kept
            },
            decodes: if renew {
                0
            } else if mark {
                (v.decodes + 1) as u8
            } else {
                v.decodes
            },
        },
        o,
    )
}

/// Over a run of ticks that all sample the level observed at its start,
/// the wall clock never changes, no tick sees an edge or a minute mark, the
/// counters follow [`quiet_run`], and the millisecond counter has grown by
/// exactly the tick length per tick, modulo 2^32.
pub proof fn lemma_quiet_ticks_keep_wall_clock(run: Seq<ClockView>, outcomes: Seq<TickOutcome>)
    requires
        run.len() == outcomes.len() + 1,
        forall|i: int|
            0 <= i < outcomes.len() ==> (run[i + 1], outcomes[i]) == #[trigger] tick_spec(
                run[i],
                run[0].counters.pin_state,
            ),
    ensures
        forall|i: int|
            0 <= i < run.len() ==> {
                &&& (#[trigger] run[i]).wall_clock == run[0].wall_clock
                &&& run[i].counters == quiet_run(run[0].counters, i as nat)
                &&& run[i].counters.millis == wrap_add(
                    run[0].counters.millis as int,
                    i * MILLIS_INCREMENT,
                )
            },
        forall|i: int|
            0 <= i < outcomes.len() ==> {
                &&& !(#[trigger] outcomes[i]).edge
                &&& !outcomes[i].minute_boundary
                &&& run[i + 1].decoder == if outcomes[i].rollover {
                    after_second(run[i].decoder)
                } else {
                    run[i].decoder
                }
            },
{
    assert forall|i: int| 0 <= i < run.len() implies {
        &&& (#[trigger] run[i]).wall_clock == run[0].wall_clock
        &&& run[i].counters == quiet_run(run[0].counters, i as nat)
        &&& run[i].counters.millis == wrap_add(run[0].counters.millis as int, i * MILLIS_INCREMENT)
    } by {
        lemma_quiet_prefix(run, outcomes, i);
        lemma_quiet_ticks_advance_millis(run[0].counters, i as nat);
    }
    assert forall|i: int| 0 <= i < outcomes.len() implies {
        &&& !(#[trigger] outcomes[i]).edge
        &&& !outcomes[i].minute_boundary
        &&& run[i + 1].decoder == if outcomes[i].rollover {
            after_second(run[i].decoder)
        } else {
            run[i].decoder
        }
    } by {
        lemma_quiet_prefix(run, outcomes, i);
        lemma_quiet_ticks_advance_millis(run[0].counters, i as nat);
        assert((run[i + 1], outcomes[i]) == tick_spec(run[i], run[0].counters.pin_state));
    }
}

/// The induction behind [`lemma_quiet_ticks_keep_wall_clock`], up to tick `k`.
proof fn lemma_quiet_prefix(run: Seq<ClockView>, outcomes: Seq<TickOutcome>, k: int)
    requires
        run.len() == outcomes.len() + 1,
        0 <= k < run.len(),
        forall|i: int|
            0 <= i < outcomes.len() ==> (run[i + 1], outcomes[i]) == #[trigger] tick_spec(
                run[i],
                run[0].counters.pin_state,
            ),
    ensures
        run[k].wall_clock == run[0].wall_clock,
        run[k].counters == quiet_run(run[0].counters, k as nat),
    decreases k,
{
    if k > 0 {
        lemma_quiet_prefix(run, outcomes, k - 1);
        lemma_quiet_ticks_advance_millis(run[0].counters, (k - 1) as nat);
        let j = k - 1;
        assert((run[j + 1], outcomes[j]) == tick_spec(run[j], run[0].counters.pin_state));
        assert(j + 1 == k);
    }
}

/// The timestamp to hand the decoder for an edge at `t`, where `last` is
/// the timestamp it measures from: `t` itself, except for a spike that
/// straddles the 2^32 µs wrap, which gets `last` (a zero gap, which the
/// decoder ignores as a spike, as it would the real one).
pub open spec fn fitting_timestamp_spec(last: Option<u32>, t: u32) -> u32 {
    match last {
        Some(t0) => if t < t0 && wrapped_gap(t0, t) < SPIKE_LIMIT_MICROS { t0 } else { t },
        None => t,
    }
}

/// See [`fitting_timestamp_spec`].
pub fn fitting_timestamp(last: Option<u32>, t: u32) -> (r: u32)
    ensures
        r == fitting_timestamp_spec(last, t),
{
    match last {
        Some(t0) => {
            if t < t0 && (u32::MAX - t0) as u64 + t as u64 + 1 < SPIKE_LIMIT_MICROS as u64 {
                t0
            } else {
                t
            }
        },
        None => t,
    }
}

/// Whether a record holds February with a day after the 29th.
pub fn is_february_overrun(month: Option<u8>, day: Option<u8>) -> (r: bool)
    ensures
        r == february_overrun(month, day),
{
    match (month, day) {
        (Some(m), Some(d)) => m == 2 && d > 29,
        _ => false,
    }
}

/// All timekeeping state: the counters, the decoder fed with the pin's
/// edges, and the last decoded wall-clock snapshot.
pub struct ClockState {
    counters: Counters,
    wall_clock: WallClock,
    decoder: DCF77Utils,
    /// The timestamp the decoder measures its next edge from.
    last_edge: Option<u32>,
    /// Decodes since the decoder was made.
    decodes: u8,
}

impl View for ClockState {
    type V = ClockView;

    closed spec fn view(&self) -> ClockView {
        ClockView {
            counters: self.counters,
            wall_clock: self.wall_clock,
            decoder: self.decoder,
            decodes: self.decodes,
        }
    }
}

impl ClockState {
    /// The decoder's edge timestamp is mirrored, its spike limit is the
    /// default, and its record's counters stay below the renewal bound.
    pub closed spec fn wf(&self) -> bool {
        &&& self.counters.wf()
        &&& self.last_edge == edge_origin(self.decoder)
        &&& spike_limit_of(self.decoder) == SPIKE_LIMIT_MICROS
        &&& decode_tally(self.decoder) <= self.decodes
        &&& self.decodes < DECODER_RENEWAL
    }

    /// A clock at time zero, seeded with the pin's current level so that the
    /// first tick sees no spurious edge; the wall clock is the fresh
    /// decoder's record.
    pub fn new(initial_level: bool) -> (r: ClockState)
        ensures
            r@.counters == (Counters { millis: 0, minute_elapsed: 0, pin_state: initial_level }),
            r@.wall_clock == unknown_spec(),
            r@.decodes == 0,
            edge_origin(r@.decoder) is None,
            decode_tally(r@.decoder) == 0,
            record_is_blank(record_of(r@.decoder)),
            r.wf(),
    {
        let decoder = DCF77Utils::new();
        let rdt = decoder.get_radio_datetime();
        proof {
            lemma_blank_record_unknown(rdt);
        }
        ClockState {
            counters: Counters::new(initial_level),
            wall_clock: WallClock::from_radio(&rdt),
            decoder,
            last_edge: None,
            decodes: 0,
        }
    }

    /// The counters.
    pub fn counters(&self) -> (r: Counters)
        ensures
            r == self@.counters,
    {
        self.counters
    }

    /// The last decoded wall clock.
    pub fn wall_clock(&self) -> (r: WallClock)
        ensures
            r == self@.wall_clock,
    {
        self.wall_clock
    }

    /// One timer tick with the pin sampled at `level`.
    ///
    /// Adds the tick's milliseconds. Where the level changed, hands the edge
    /// and its microsecond timestamp to the decoder, counts a second on an
    /// active-going edge and, where the decoder then reports a minute mark,
    /// decodes with all checks on, takes the decoder's record as the new wall
    /// clock and restarts the minute counter. Finally, where the minute
    /// counter exceeds the fallback threshold, takes the threshold off it and
    /// pushes the decoder's second counter forward.
    ///
    /// An edge that comes within the spike limit of the previous one but past
    /// the 2^32 µs wrap of the timestamps is handed over with the previous
    /// timestamp (see [`fitting_timestamp`]).
    ///
    /// The decode also adds the minute that passed to the decoder's record,
    /// except where that record holds February with a day after the 29th,
    /// which the decoder cannot advance. Every [`DECODER_RENEWAL`] decodes the decoder is replaced by a fresh
    /// one right after the decode.
    pub fn tick(&mut self, level: bool) -> (outcome: TickOutcome)
        requires
            old(self).wf(),
        ensures
            final(self).wf(),
            (final(self)@, outcome) == tick_spec(old(self)@, level),
    {
        let edge = level != self.counters.pin_state;
        let mut new_minute = false;
        if edge {
            let mut advanced = self.counters;
            advanced.advance();
            let t = fitting_timestamp(self.last_edge, advanced.timestamp_micros());
            self.decoder.handle_new_edge(level, t);
            self.last_edge = Some(t);
            if level {
                self.decoder.increase_second();
                new_minute = self.decoder.is_new_minute();
            }
            if new_minute {
                let record = self.decoder.get_radio_datetime();
                let add_minute = !is_february_overrun(record.get_month(), record.get_day());
                self.decoder.decode_time(add_minute, true);
                let rdt = self.decoder.get_radio_datetime();
                self.wall_clock = WallClock::from_radio(&rdt);
                if self.decodes + 1 >= DECODER_RENEWAL {
                    self.decoder.reset();
                    self.decoder.handle_new_edge(level, t);
                    self.decodes = 0;
                } else {
                    self.decodes = self.decodes + 1;
                }
            }
        }
        let (next, outcome) = self.counters.step(level, new_minute);
        self.counters = next;
        if outcome.rollover {
            self.decoder.increase_second();
        }
        outcome
    }
}

/// The single home of the clock state: empty until initialised, after which
/// the timer tick updates it and readers take copies.
///
/// Before initialisation readers get zero time and an unknown wall clock,
/// and ticks do nothing.
pub struct ClockCell {
    state: Option<ClockState>,
}

impl ClockCell {
    /// The live state, if the clock was initialised.
    pub closed spec fn live(&self) -> Option<ClockState> {
        self.state
    }

    /// A live clock is well formed.
    pub closed spec fn wf(&self) -> bool {
        self.state matches Some(s) ==> s.wf()
    }

    /// The time that readers see: zero before initialisation.
    pub open spec fn millis_spec(&self) -> u32 {
        match self.live() {
            Some(s) => s@.counters.millis,
            None => 0,
        }
    }

    /// The wall clock that readers see: all unknown before initialisation.
    pub open spec fn wall_clock_spec(&self) -> WallClock {
        match self.live() {
            Some(s) => s@.wall_clock,
            None => unknown_spec(),
        }
    }

    /// A cell that holds no clock yet.
    pub fn new() -> (r: ClockCell)
        ensures
            r.live() is None,
            r.wf(),
    {
        ClockCell { state: None }
    }

    /// Installs a fresh clock seeded with the pin's current level.
    pub fn initialize(&mut self, initial_level: bool)
        ensures
            final(self).wf(),
            final(self).live() matches Some(s) && s@.counters == (Counters {
                millis: 0,
                minute_elapsed: 0,
                pin_state: initial_level,
            }) && s@.wall_clock == unknown_spec() && s@.decodes == 0 && edge_origin(s@.decoder)
                is None && decode_tally(s@.decoder) == 0 && record_is_blank(record_of(s@.decoder)),
    {
        self.state = Some(ClockState::new(initial_level));
    }

    /// Milliseconds since initialisation, modulo 2^32; zero before it.
    pub fn read_millis(&self) -> (r: u32)
        ensures
            r == self.millis_spec(),
    {
        match &self.state {
            Some(s) => s.counters().millis,
            None => 0,
        }
    }

    /// A copy of the last decoded wall clock; all unknown before initialisation.
    pub fn read_wall_clock(&self) -> (r: WallClock)
        ensures
            r == self.wall_clock_spec(),
    {
        match &self.state {
            Some(s) => s.wall_clock(),
            None => WallClock::unknown(),
        }
    }

    /// The counters of the live clock, if there is one.
    pub fn read_counters(&self) -> (r: Option<Counters>)
        ensures
            r == (match self.live() {
                Some(s) => Some(s@.counters),
                None => None::<Counters>,
            }),
    {
        match &self.state {
            Some(s) => Some(s.counters()),
            None => None,
        }
    }

    /// The timer tick: runs [`ClockState::tick`] on the live clock, and does
    /// nothing (`None`) before initialisation.
    pub fn tick(&mut self, level: bool) -> (r: Option<TickOutcome>)
        requires
            old(self).wf(),
        ensures
            final(self).wf(),
            old(self).live() is None ==> r is None && final(self).live() is None,
            old(self).live() matches Some(s0) ==> {
                &&& r matches Some(o)
                &&& final(self).live() matches Some(s1)
                &&& (s1@, o) == tick_spec(s0@, level)
            },
    {
        match &mut self.state {
            Some(s) => Some(s.tick(level)),
            None => None,
        }
    }
}

} // verus!
