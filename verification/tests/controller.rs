use rc_drive::{Calibration, Channel, ChannelSampler, Controller, PulseEvent};

const CLOCK_HZ: u32 = 125_000_000;
const DIVIDER: u8 = 16;

fn counter_channel() -> Channel {
    Channel {
        sampler: ChannelSampler::HardwareCounter { divider: DIVIDER, clock_hz: CLOCK_HZ },
        cal: Calibration::new(1000, 1500, 2000).unwrap(),
    }
}

fn edge_channel() -> Channel {
    Channel {
        sampler: ChannelSampler::EdgeTimestamp { tick_hz: 1_000_000 },
        cal: Calibration::new(1000, 1500, 2000).unwrap(),
    }
}

#[test]
fn counter_strategy_reads_normalized_values() {
    let c = Controller::init(counter_channel(), counter_channel());
    // 13672 ticks * 16 / 125 MHz = 1750.016 us -> 1750 us -> +0.5
    let ev = PulseEvent::CounterTicks { ticks: 13672 };
    assert_eq!(c.get_throttle(&ev).millis(), 500);
    assert_eq!(c.get_steering(&ev), 500);
    // 10547 ticks * 16 / 125 MHz = 1350.016 us -> 1350 us -> -0.3
    let ev = PulseEvent::CounterTicks { ticks: 10547 };
    assert_eq!(c.get_throttle(&ev).millis(), -300);
}

#[test]
fn edge_strategy_reads_normalized_values_behind_the_same_contract() {
    let c = Controller::init(edge_channel(), edge_channel());
    let ev = PulseEvent::Edges { rise_ticks: 1000, fall_ticks: 2750 };
    assert_eq!(c.get_throttle(&ev).millis(), 500);
    assert_eq!(c.get_steering(&ev), 500);
    let ev = PulseEvent::Edges { rise_ticks: 0, fall_ticks: 1250 };
    assert_eq!(c.get_steering(&ev), -500);
}

#[test]
fn strategies_may_be_mixed_across_channels() {
    let c = Controller::init(edge_channel(), counter_channel());
    let steering_ev = PulseEvent::Edges { rise_ticks: 0, fall_ticks: 1500 };
    let throttle_ev = PulseEvent::CounterTicks { ticks: 13672 };
    assert_eq!(c.get_steering(&steering_ev), 0);
    assert_eq!(c.get_throttle(&throttle_ev).millis(), 500);
}

#[test]
fn out_of_range_pulses_clamp_at_the_read_path() {
    let c = Controller::init(counter_channel(), counter_channel());
    // a full counter: 65535 ticks span 8388 us, far past the calibration
    let ev = PulseEvent::CounterTicks { ticks: u16::MAX };
    assert_eq!(c.get_throttle(&ev).millis(), 1000);
    assert_eq!(c.get_steering(&ev), 1000);
    // no pulse captured at all: the extreme propagates, clamped, not an error
    let ev = PulseEvent::CounterTicks { ticks: 0 };
    assert_eq!(c.get_throttle(&ev).millis(), -1000);
    assert_eq!(c.get_steering(&ev), -1000);
}

#[test]
fn anomalously_long_edge_pulses_saturate_and_clamp() {
    let c = Controller::init(edge_channel(), edge_channel());
    let ev = PulseEvent::Edges { rise_ticks: 0, fall_ticks: u32::MAX as u64 };
    assert_eq!(c.get_steering(&ev), 1000);
}
