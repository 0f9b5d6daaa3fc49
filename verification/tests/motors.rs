use rc_drive::{Motors, Speed};

const CLOCK_HZ: u32 = 125_000_000;

#[test]
fn from_percent_clamps_into_unit_range() {
    assert_eq!(Speed::from_percent(1500).millis(), 1000);
    assert_eq!(Speed::from_percent(1000).millis(), 1000);
    assert_eq!(Speed::from_percent(-2000).millis(), -1000);
    assert_eq!(Speed::from_percent(-1000).millis(), -1000);
    assert_eq!(Speed::from_percent(0).millis(), 0);
    assert_eq!(Speed::from_percent(437).millis(), 437);
    assert_eq!(Speed::from_percent(i64::MAX).millis(), 1000);
    assert_eq!(Speed::from_percent(i64::MIN).millis(), -1000);
}

#[test]
fn init_computes_shared_period_and_leaves_pins_off() {
    let m = Motors::init(CLOCK_HZ);
    // 125 MHz / (25 kHz * divider 16) - 1
    assert_eq!(m.top(), 311);
    assert_eq!(m.left().a, 0);
    assert_eq!(m.left().b, 0);
    assert_eq!(m.right().a, 0);
    assert_eq!(m.right().b, 0);
}

#[test]
fn drive_forward_and_reverse_program_complementary_duties() {
    let mut m = Motors::init(CLOCK_HZ);
    m.drive_speed(Speed::from_percent(600), Speed::from_percent(-300));
    assert_eq!(m.left().a, 60);
    assert_eq!(m.left().b, 0);
    assert_eq!(m.right().a, 0);
    assert_eq!(m.right().b, 30);
}

#[test]
fn drive_zero_turns_both_motors_fully_off() {
    let mut m = Motors::init(CLOCK_HZ);
    m.drive_speed(Speed::from_percent(600), Speed::from_percent(-300));
    m.drive_speed(Speed::from_percent(0), Speed::from_percent(0));
    assert_eq!(m.left().a, 0);
    assert_eq!(m.left().b, 0);
    assert_eq!(m.right().a, 0);
    assert_eq!(m.right().b, 0);
}

#[test]
fn drive_duty_truncates_to_whole_percent() {
    let mut m = Motors::init(CLOCK_HZ);
    m.drive_speed(Speed::from_percent(605), Speed::from_percent(-5));
    assert_eq!(m.left().a, 60);
    assert_eq!(m.left().b, 0);
    // half a percent of reverse truncates to fully off on both pins
    assert_eq!(m.right().a, 0);
    assert_eq!(m.right().b, 0);
}

#[test]
fn repeating_a_drive_command_leaves_state_unchanged() {
    let mut m = Motors::init(CLOCK_HZ);
    m.drive_speed(Speed::from_percent(600), Speed::from_percent(-300));
    let left = m.left();
    let right = m.right();
    let top = m.top();
    m.drive_speed(Speed::from_percent(600), Speed::from_percent(-300));
    assert_eq!(m.left(), left);
    assert_eq!(m.right(), right);
    assert_eq!(m.top(), top);
}

#[test]
fn full_scale_commands_reach_hundred_percent() {
    let mut m = Motors::init(CLOCK_HZ);
    m.drive_speed(Speed::from_percent(1000), Speed::from_percent(-1000));
    assert_eq!(m.left().a, 100);
    assert_eq!(m.left().b, 0);
    assert_eq!(m.right().a, 0);
    assert_eq!(m.right().b, 100);
}
