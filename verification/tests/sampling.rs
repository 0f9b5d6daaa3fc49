use rc_drive::motor::drive_step;
use rc_drive::sampler::{counter_duty_percent, edge_width_us, pwm_top, ticks_to_us};
use rc_drive::{CounterSampler, Motors};

const CLOCK_HZ: u32 = 125_000_000;
// capture configuration for one 100 Hz radio frame: with divider 250 the
// counter ticks every 2 us, so a frame spans 5000 ticks and top fits the
// 16-bit counter
const CAPTURE_DIVIDER: u8 = 250;
const WINDOW_TOP: u16 = 4999;

#[test]
fn pwm_top_matches_clock_arithmetic() {
    // motor carrier: 125 MHz / (25 kHz * 16) - 1
    assert_eq!(pwm_top(CLOCK_HZ, 25_000, 16), 311);
    // 100 Hz capture window at divider 250
    assert_eq!(pwm_top(CLOCK_HZ, 100, CAPTURE_DIVIDER), WINDOW_TOP as u32);
    // the same window at divider 16 does not fit a 16-bit counter; the
    // computation says so at configuration time instead of truncating
    assert_eq!(pwm_top(CLOCK_HZ, 100, 16), 78_124);
    assert!(pwm_top(CLOCK_HZ, 100, 16) > u16::MAX as u32);
}

#[test]
fn ticks_convert_to_whole_microseconds() {
    // one tick is divider / clock seconds: 16 / 125 MHz = 0.128 us
    assert_eq!(ticks_to_us(125, 16, CLOCK_HZ), 16);
    assert_eq!(ticks_to_us(0, 16, CLOCK_HZ), 0);
    // 11718 ticks span 1499.904 us; sub-microsecond precision truncates
    assert_eq!(ticks_to_us(11718, 16, CLOCK_HZ), 1499);
    assert_eq!(ticks_to_us(875, CAPTURE_DIVIDER, CLOCK_HZ), 1750);
    assert_eq!(ticks_to_us(u16::MAX, 1, 1_000_000), 65535);
}

#[test]
fn edge_pair_measures_elapsed_active_time() {
    assert_eq!(edge_width_us(0, 1500, 1_000_000), 1500);
    assert_eq!(edge_width_us(1_000_000, 1_001_750, 1_000_000), 1750);
    // 72_001 ticks at 48 MHz span 1500.02 us; truncates
    assert_eq!(edge_width_us(0, 72_001, 48_000_000), 1500);
    assert_eq!(edge_width_us(42, 42, 1_000_000), 0);
}

#[test]
fn counter_duty_is_the_window_fraction_clamped() {
    assert_eq!(counter_duty_percent(0, WINDOW_TOP), 0);
    assert_eq!(counter_duty_percent(2500, WINDOW_TOP), 50);
    assert_eq!(counter_duty_percent(WINDOW_TOP, WINDOW_TOP), 99);
    assert_eq!(counter_duty_percent(u16::MAX, WINDOW_TOP), 100);
}

#[test]
fn sample_reads_without_clearing_the_counter() {
    let mut s = CounterSampler::new(CAPTURE_DIVIDER, CLOCK_HZ, WINDOW_TOP);
    assert_eq!(s.sample(), 0);
    s.accumulate(875);
    // 875 ticks * 250 / 125 MHz = 1750 us
    assert_eq!(s.sample(), 1750);
    // a second read with no reset repeats the (possibly stale) value
    assert_eq!(s.sample(), 1750);
    s.accumulate(875);
    assert_eq!(s.sample(), 3500);
}

#[test]
fn reset_isolates_samples_from_earlier_activity() {
    let mut s = CounterSampler::new(CAPTURE_DIVIDER, CLOCK_HZ, WINDOW_TOP);
    s.accumulate(875);
    assert_eq!(s.sample(), 1750);
    s.reset();
    s.accumulate(350);
    let mut fresh = CounterSampler::new(CAPTURE_DIVIDER, CLOCK_HZ, WINDOW_TOP);
    fresh.accumulate(350);
    // only activity since the reset is reflected
    assert_eq!(s.sample(), 700);
    assert_eq!(s.sample(), fresh.sample());
}

#[test]
fn counter_wraps_past_the_configured_period() {
    let mut s = CounterSampler::new(CAPTURE_DIVIDER, CLOCK_HZ, 99);
    s.accumulate(150);
    assert_eq!(s.read_ticks(), 50);
    // wrapping inside one window also shows in a full-window accumulation
    let mut w = CounterSampler::new(CAPTURE_DIVIDER, CLOCK_HZ, WINDOW_TOP);
    w.accumulate(5000);
    assert_eq!(w.read_ticks(), 0);
}

#[test]
fn drive_step_commands_window_fraction_and_resets() {
    let mut steering = CounterSampler::new(CAPTURE_DIVIDER, CLOCK_HZ, WINDOW_TOP);
    let mut motors = Motors::init(CLOCK_HZ);
    steering.accumulate(2500);
    let duty = drive_step(&mut steering, &mut motors);
    assert_eq!(duty, 50);
    assert_eq!(motors.left().a, 50);
    assert_eq!(motors.left().b, 0);
    assert_eq!(motors.right().a, 50);
    assert_eq!(motors.right().b, 0);
    // the read bounded its window: the counter was reset afterwards
    assert_eq!(steering.read_ticks(), 0);
    let duty2 = drive_step(&mut steering, &mut motors);
    assert_eq!(duty2, 0);
    assert_eq!(motors.left().a, 0);
    assert_eq!(motors.right().a, 0);
}
