use funkuhr::timer::{millis_increment, timer_config, Prescaler, TimerConfig, MILLIS_INCREMENT, PRESCALER, TIMER_COUNTS};

#[test]
fn configured_tick_is_8_ms() {
    assert_eq!(MILLIS_INCREMENT, 8);
    assert_eq!(
        timer_config(PRESCALER, TIMER_COUNTS),
        Some(TimerConfig { prescaler: Prescaler::Div1024, compare: 125, millis_increment: 8 })
    );
}

#[test]
fn increments_of_the_interval_table() {
    assert_eq!(millis_increment(64, 250), 1);
    assert_eq!(millis_increment(256, 125), 2);
    assert_eq!(millis_increment(256, 250), 4);
    assert_eq!(millis_increment(1024, 125), 8);
    assert_eq!(millis_increment(1024, 250), 16);
}

#[test]
fn unsupported_prescaler_is_refused() {
    assert_eq!(timer_config(100, 125), None);
    assert_eq!(timer_config(0, 125), None);
    assert_eq!(timer_config(128, 125), None);
    assert_eq!(Prescaler::from_divisor(512), None);
}

#[test]
fn compare_count_must_fit_register() {
    assert_eq!(timer_config(1024, 256), None);
    assert_eq!(
        timer_config(64, 255),
        Some(TimerConfig { prescaler: Prescaler::Div64, compare: 255, millis_increment: 1 })
    );
}

#[test]
fn prescaler_divisors_round_trip() {
    for d in [8u32, 64, 256, 1024] {
        assert_eq!(Prescaler::from_divisor(d).unwrap().divisor(), d);
    }
}
