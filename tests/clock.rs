use funkuhr::clock::{fitting_timestamp, is_february_overrun, ClockCell, ClockState, DECODER_RENEWAL};
use funkuhr::counters::{Counters, TickOutcome, FALLBACK_THRESHOLD};
use funkuhr::timer::MILLIS_INCREMENT;
use funkuhr::wall_clock::WallClock;

/// Start of the simulated minute whose bits are decoded, in milliseconds.
const FRAME_START: u32 = 12_000;

fn bcd(value: u32, len: usize) -> Vec<bool> {
    let mut bits = Vec::new();
    let digits = [value % 10, value / 10];
    for i in 0..len {
        let digit = digits[i / 4];
        bits.push((digit >> (i % 4)) & 1 == 1);
    }
    bits
}

fn even_parity(bits: &[bool]) -> bool {
    bits.iter().filter(|b| **b).count() % 2 == 1
}

/// The 59 bits of a DCF77 minute (winter time, no announcements).
fn frame_bits(minute: u32, hour: u32, day: u32, weekday: u32, month: u32, year: u32) -> Vec<bool> {
    let mut bits = vec![false; 17];
    bits.push(false); // summer time off
    bits.push(true); // winter time on
    bits.push(false); // no leap second announced
    bits.push(true); // start of time
    let m = bcd(minute, 7);
    bits.extend(&m);
    bits.push(even_parity(&m));
    let h = bcd(hour, 6);
    bits.extend(&h);
    bits.push(even_parity(&h));
    let mut date = bcd(day, 6);
    date.extend(bcd(weekday, 3));
    date.extend(bcd(month, 5));
    date.extend(bcd(year, 8));
    bits.extend(&date);
    bits.push(even_parity(&date));
    assert_eq!(bits.len(), 59);
    bits
}

/// Pulses (start, length) in milliseconds: ten lead-in seconds, a minute mark
/// at `FRAME_START`, the given seconds of the frame, and the next minute mark.
fn pulses(bits: &[bool], skip: &[usize]) -> Vec<(u32, u32)> {
    let mut p = Vec::new();
    for i in 1..=10u32 {
        p.push((1000 * i, 100));
    }
    for (s, bit) in bits.iter().enumerate() {
        if !skip.contains(&s) {
            p.push((FRAME_START + 1000 * s as u32, if *bit { 200 } else { 100 }));
        }
    }
    p.push((FRAME_START + 60_000, 100));
    p
}

fn level_at(pulses: &[(u32, u32)], t: u32) -> bool {
    pulses.iter().any(|(start, len)| *start <= t && t < start + len)
}

/// Runs the clock over the pulses up to and including the tick at the second
/// minute mark; returns the cell and the outcome of that tick.
fn run_frame(pulses: &[(u32, u32)]) -> (ClockCell, TickOutcome) {
    let mut cell = ClockCell::new();
    cell.initialize(level_at(pulses, 0));
    let last_tick = (FRAME_START + 60_000) / MILLIS_INCREMENT;
    let mut last = None;
    for k in 1..=last_tick {
        last = cell.tick(level_at(pulses, k * MILLIS_INCREMENT));
    }
    assert_eq!(cell.read_millis(), FRAME_START + 60_000);
    (cell, last.unwrap())
}

#[test]
fn millis_after_125_quiet_ticks() {
    let mut cell = ClockCell::new();
    cell.initialize(false);
    for _ in 0..125 {
        cell.tick(false);
    }
    assert_eq!(cell.read_millis(), 1000);
}

#[test]
fn quiet_ticks_add_increment_and_keep_wall_clock() {
    for level in [false, true] {
        let mut cell = ClockCell::new();
        cell.initialize(level);
        let wall = cell.read_wall_clock();
        for k in 1..=1000u32 {
            let o = cell.tick(level).unwrap();
            assert!(!o.edge);
            assert!(!o.minute_boundary);
            assert_eq!(cell.read_millis(), k * 8);
            assert_eq!(cell.read_wall_clock(), wall);
        }
    }
}

#[test]
fn reads_before_initialize_are_zero_and_unknown() {
    let mut cell = ClockCell::new();
    assert_eq!(cell.read_millis(), 0);
    assert!(cell.read_wall_clock().is_unknown());
    assert_eq!(cell.read_wall_clock(), WallClock::unknown());
    assert_eq!(cell.read_counters(), None);
    assert_eq!(cell.tick(true), None);
    assert_eq!(cell.read_millis(), 0);
}

#[test]
fn initialize_starts_at_zero_with_pin_level() {
    let mut cell = ClockCell::new();
    cell.initialize(true);
    assert_eq!(cell.read_counters(), Some(Counters { millis: 0, minute_elapsed: 0, pin_state: true }));
    assert!(cell.read_wall_clock().is_unknown());
}

#[test]
fn fallback_rollover_once_per_59_seconds() {
    let mut cell = ClockCell::new();
    cell.initialize(false);
    let mut fired_at = Vec::new();
    for k in 1..=(3 * 7375 + 10u32) {
        let o = cell.tick(false).unwrap();
        let c = cell.read_counters().unwrap();
        assert!(c.minute_elapsed <= FALLBACK_THRESHOLD);
        if o.rollover {
            fired_at.push(k);
        }
    }
    assert_eq!(fired_at, vec![7376, 7376 + 7375, 7376 + 2 * 7375]);
}

#[test]
fn rollover_takes_threshold_off() {
    let mut c = Counters { millis: 0, minute_elapsed: 59_000, pin_state: false };
    c.advance();
    assert_eq!(c.minute_elapsed, 59_008);
    assert!(c.fallback_rollover());
    assert_eq!(c.minute_elapsed, 8);
    assert!(!c.fallback_rollover());
    assert_eq!(c.minute_elapsed, 8);
}

#[test]
fn minute_counter_saturates() {
    let mut c = Counters { millis: 0, minute_elapsed: u16::MAX - 3, pin_state: false };
    c.advance();
    assert_eq!(c.minute_elapsed, u16::MAX);
    assert!(c.fallback_rollover());
    assert_eq!(c.minute_elapsed, u16::MAX - 59_000);
}

#[test]
fn millis_wraps_at_u32_max() {
    let mut c = Counters { millis: u32::MAX - 3, minute_elapsed: 0, pin_state: false };
    c.advance();
    assert_eq!(c.millis, 4);
    c.advance();
    assert_eq!(c.millis, 12);
    let mut d = Counters { millis: u32::MAX - 8, minute_elapsed: 0, pin_state: false };
    d.advance();
    assert_eq!(d.millis, u32::MAX);
    d.advance();
    assert_eq!(d.millis, 7);
}

#[test]
fn timestamp_is_micros_modulo_2_pow_32() {
    let c = Counters { millis: 1234, minute_elapsed: 0, pin_state: false };
    assert_eq!(c.timestamp_micros(), 1_234_000);
    let d = Counters { millis: 5_000_000, minute_elapsed: 0, pin_state: false };
    assert_eq!(d.timestamp_micros(), 705_032_704);
}

#[test]
fn observe_level_reports_changes() {
    let mut c = Counters::new(false);
    assert!(!c.observe_level(false));
    assert!(c.observe_level(true));
    assert!(c.pin_state);
    assert!(!c.observe_level(true));
    assert!(c.observe_level(false));
    assert!(!c.pin_state);
}

#[test]
fn finish_minute_resets_minute_counter_only() {
    let mut c = Counters { millis: 77, minute_elapsed: 4000, pin_state: true };
    c.finish_minute();
    assert_eq!(c, Counters { millis: 77, minute_elapsed: 0, pin_state: true });
}

#[test]
fn valid_frame_gives_complete_wall_clock() {
    let bits = frame_bits(37, 14, 15, 5, 3, 24);
    let (cell, outcome) = run_frame(&pulses(&bits, &[]));
    assert!(outcome.edge);
    assert!(outcome.minute_boundary);
    assert!(!outcome.rollover);
    let wall = cell.read_wall_clock();
    assert!(wall.is_complete());
    assert_eq!(wall.year, Some(24));
    assert_eq!(wall.month, Some(3));
    assert_eq!(wall.day, Some(15));
    assert_eq!(wall.hour, Some(14));
    assert_eq!(wall.minute, Some(37));
    assert_eq!(wall.leap_second, Some(0));
    assert_eq!(cell.read_counters().unwrap().minute_elapsed, 0);
}

#[test]
fn minute_mark_edge_resets_minute_counter() {
    let bits = frame_bits(5, 9, 1, 1, 7, 30);
    let p = pulses(&bits, &[]);
    let mut state = ClockState::new(false);
    let mut boundaries = Vec::new();
    for k in 1..=((FRAME_START + 60_000) / 8) {
        let o = state.tick(level_at(&p, k * 8));
        if o.minute_boundary {
            assert!(o.edge);
            assert!(state.counters().pin_state);
            assert_eq!(state.counters().minute_elapsed, 0);
            boundaries.push(state.counters().millis);
        }
    }
    assert_eq!(boundaries, vec![FRAME_START, FRAME_START + 60_000]);
    assert!(state.wall_clock().is_complete());
    assert_eq!(state.wall_clock().hour, Some(9));
    assert_eq!(state.wall_clock().minute, Some(5));
}

#[test]
fn incomplete_frame_leaves_wall_clock_unknown() {
    let bits = frame_bits(37, 14, 15, 5, 3, 24);
    let (cell, outcome) = run_frame(&pulses(&bits, &[30, 31, 32, 33, 34, 35]));
    assert!(outcome.minute_boundary);
    assert!(cell.read_wall_clock().is_unknown());
    assert_eq!(cell.read_counters().unwrap().minute_elapsed, 0);
}

#[test]
fn corrupted_frame_leaves_date_and_time_unknown() {
    let mut bits = frame_bits(37, 14, 15, 5, 3, 24);
    bits[22] = !bits[22]; // minute parity no longer holds
    let (cell, outcome) = run_frame(&pulses(&bits, &[]));
    assert!(outcome.minute_boundary);
    let wall = cell.read_wall_clock();
    assert_eq!(wall.year, None);
    assert_eq!(wall.month, None);
    assert_eq!(wall.day, None);
    assert_eq!(wall.hour, None);
    assert_eq!(wall.minute, None);
}

#[test]
fn wall_clock_completeness() {
    let mut w = WallClock::unknown();
    assert!(w.is_unknown());
    assert!(!w.is_complete());
    w.year = Some(24);
    assert!(!w.is_unknown());
    assert!(!w.is_complete());
    let full = WallClock {
        year: Some(24),
        month: Some(3),
        day: Some(15),
        hour: Some(14),
        minute: Some(37),
        leap_second: Some(0),
    };
    assert!(full.is_complete());
}

#[test]
fn step_table_without_change() {
    let c = Counters { millis: 100, minute_elapsed: 500, pin_state: true };
    for new_minute in [false, true] {
        let (next, o) = c.step(true, new_minute);
        assert_eq!(next, Counters { millis: 108, minute_elapsed: 508, pin_state: true });
        assert_eq!(o, TickOutcome { edge: false, minute_boundary: false, rollover: false });
    }
}

#[test]
fn step_table_falling_edge() {
    let c = Counters { millis: 100, minute_elapsed: 500, pin_state: true };
    for new_minute in [false, true] {
        let (next, o) = c.step(false, new_minute);
        assert_eq!(next, Counters { millis: 108, minute_elapsed: 508, pin_state: false });
        assert_eq!(o, TickOutcome { edge: true, minute_boundary: false, rollover: false });
    }
}

#[test]
fn step_table_rising_edge() {
    let c = Counters { millis: 100, minute_elapsed: 500, pin_state: false };
    let (next, o) = c.step(true, false);
    assert_eq!(next, Counters { millis: 108, minute_elapsed: 508, pin_state: true });
    assert_eq!(o, TickOutcome { edge: true, minute_boundary: false, rollover: false });
    let (next, o) = c.step(true, true);
    assert_eq!(next, Counters { millis: 108, minute_elapsed: 0, pin_state: true });
    assert_eq!(o, TickOutcome { edge: true, minute_boundary: true, rollover: false });
}

#[test]
fn step_table_rollover() {
    let c = Counters { millis: 7, minute_elapsed: 58_995, pin_state: false };
    let (next, o) = c.step(false, true);
    assert_eq!(next, Counters { millis: 15, minute_elapsed: 3, pin_state: false });
    assert_eq!(o, TickOutcome { edge: false, minute_boundary: false, rollover: true });
    // a confirmed minute mark restarts the counter before the rollover check
    let (next, o) = c.step(true, true);
    assert_eq!(next, Counters { millis: 15, minute_elapsed: 0, pin_state: true });
    assert_eq!(o, TickOutcome { edge: true, minute_boundary: true, rollover: false });
}

#[test]
fn timestamp_kept_where_it_fits() {
    assert_eq!(fitting_timestamp(None, 5), 5);
    assert_eq!(fitting_timestamp(Some(1_000), 9_000), 9_000);
    assert_eq!(fitting_timestamp(Some(1_000), 1_000), 1_000);
    // wrapped, but a gap of 40 ms is no spike
    assert_eq!(fitting_timestamp(Some(u32::MAX - 9_999), 30_000), 30_000);
}

#[test]
fn wrapped_spike_gets_previous_timestamp() {
    // an edge at 4 294 960 ms, then one 8 ms later, past the 2^32 µs wrap
    let first = 4_294_960u32.wrapping_mul(1000);
    let second = 4_294_968u32.wrapping_mul(1000);
    assert!(second < first);
    assert_eq!(fitting_timestamp(Some(first), second), first);
    assert_eq!(fitting_timestamp(Some(u32::MAX), 0), u32::MAX);
}

#[test]
fn spike_across_timestamp_wrap_does_not_panic() {
    let mut state = ClockState::new(false);
    // quiet ticks up to 4 294 952 ms; the first edge comes at 4 294 960 ms,
    // the next 8 ms later, when the µs timestamp has wrapped
    while state.counters().millis < 4_294_952 {
        state.tick(false);
    }
    let rise = state.tick(true);
    assert!(rise.edge);
    let fall = state.tick(false);
    assert!(fall.edge);
    let rise2 = state.tick(true);
    assert!(rise2.edge);
    assert_eq!(state.counters().millis, 4_294_976);
}

/// Level of a signal with ten lead-in seconds and then one valid frame per
/// minute from `FRAME_START` on, frame `j` encoding 10:05 plus `j` minutes.
fn long_signal_level(frames: &[Vec<bool>], t: u32) -> bool {
    if t < FRAME_START {
        return (1000..11_000).contains(&t) && t % 1000 < 100;
    }
    let off = t - FRAME_START;
    let (j, s, ms) = ((off / 60_000) as usize, (off % 60_000 / 1000) as usize, off % 1000);
    if j >= frames.len() || s == 59 {
        return false;
    }
    ms < if frames[j][s] { 200 } else { 100 }
}

#[test]
fn valid_signal_decodes_every_minute_across_decoder_reset() {
    let frames: Vec<Vec<bool>> = (0..131u32)
        .map(|j| {
            let total = 10 * 60 + 5 + j;
            frame_bits(total % 60, total / 60, 15, 5, 3, 24)
        })
        .collect();
    let mut state = ClockState::new(false);
    let mut marks = Vec::new();
    for k in 1..=((FRAME_START + 130 * 60_000) / 8) {
        let o = state.tick(long_signal_level(&frames, k * 8));
        if o.minute_boundary {
            marks.push(state.wall_clock());
        }
    }
    // the mark at FRAME_START, then one per frame; the decoder is reset
    // after the mark that completes its renewal bound and still decodes the
    // next frame in full
    assert_eq!(marks.len(), 131);
    assert!(marks.len() > DECODER_RENEWAL as usize + 2);
    for (k, w) in marks.iter().enumerate().skip(1) {
        let total = 10 * 60 + 5 + (k as u32 - 1);
        assert!(w.is_complete(), "mark {} {:?}", k, w);
        assert_eq!(w.minute, Some((total % 60) as u8), "mark {}", k);
        assert_eq!(w.hour, Some((total / 60) as u8), "mark {}", k);
        assert_eq!(w.day, Some(15), "mark {}", k);
    }
}

#[test]
fn february_overrun_detected() {
    assert!(is_february_overrun(Some(2), Some(30)));
    assert!(is_february_overrun(Some(2), Some(31)));
    assert!(!is_february_overrun(Some(2), Some(29)));
    assert!(!is_february_overrun(Some(3), Some(31)));
    assert!(!is_february_overrun(None, Some(31)));
    assert!(!is_february_overrun(Some(2), None));
}
