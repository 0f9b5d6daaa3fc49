use vstd::prelude::*;

verus! {

use crate::calib::Calibration;
use crate::motor::{Speed, clamped_norm};
use crate::sampler::{edge_width_us, edge_width_us_spec, ticks_to_us, ticks_to_us_spec};

/// One raw observation handed in by the surrounding runtime: what the
/// hardware produced for one read of a channel.
#[derive(Clone, Copy)]
pub enum PulseEvent {
    /// The rising and the subsequent falling timestamp from one
    /// suspension-based edge wait, in timestamp ticks.
    Edges { rise_ticks: u64, fall_ticks: u64 },
    /// The value the free-running capture counter currently holds.
    CounterTicks { ticks: u16 },
}

/// Strategy for measuring one channel's active-pulse duration, selected
/// at construction. The two strategies are mutually exclusive per channel:
/// edge timestamping suspends the calling task until a fresh pulse
/// completes, the hardware counter is read synchronously and may repeat a
/// stale value.
#[derive(Clone, Copy)]
pub enum ChannelSampler {
    /// Edge-timestamp capture on a digital input line, with timestamps
    /// counted at `tick_hz`. If no edge ever arrives, the surrounding
    /// wait suspends indefinitely and no observation is produced — a
    /// documented limitation of this strategy, not patched here with a
    /// timeout.
    EdgeTimestamp { tick_hz: u32 },
    /// Free-running pulse-width counter on a capture-capable PWM
    /// peripheral: level-high ticks counted at `clock_hz / divider`.
    HardwareCounter { divider: u8, clock_hz: u32 },
}

impl ChannelSampler {
    /// A usable configuration: nonzero rates, validated at construction
    /// rather than per read.
    pub open spec fn wf(self) -> bool {
        match self {
            ChannelSampler::EdgeTimestamp { tick_hz } => 1 <= tick_hz,
            ChannelSampler::HardwareCounter { divider, clock_hz } => 1 <= divider
                && 1_000_000 <= clock_hz,
        }
    }

    /// Whether an observation belongs to this strategy and is in range:
    /// an edge pair must be ordered (the rising-edge wait strictly
    /// precedes the falling-edge wait) and span a representable duration.
    pub open spec fn accepts(self, ev: PulseEvent) -> bool {
        match (self, ev) {
            (
                ChannelSampler::EdgeTimestamp { .. },
                PulseEvent::Edges { rise_ticks, fall_ticks },
            ) => rise_ticks <= fall_ticks && fall_ticks - rise_ticks <= u32::MAX,
            (ChannelSampler::HardwareCounter { .. }, PulseEvent::CounterTicks { .. }) => true,
            _ => false,
        }
    }

    /// The pulse width, in whole microseconds, that this strategy derives
    /// from an observation.
    pub open spec fn width_spec(self, ev: PulseEvent) -> int {
        match (self, ev) {
            (
                ChannelSampler::EdgeTimestamp { tick_hz },
                PulseEvent::Edges { rise_ticks, fall_ticks },
            ) => edge_width_us_spec(rise_ticks as int, fall_ticks as int, tick_hz as int),
            (
                ChannelSampler::HardwareCounter { divider, clock_hz },
                PulseEvent::CounterTicks { ticks },
            ) => ticks_to_us_spec(ticks as int, divider as int, clock_hz as int),
            _ => 0,
        }
    }

    /// Measure one observation: the same read contract for both
    /// strategies.
    pub fn pulse_width_us(&self, ev: &PulseEvent) -> (r: u64)
        requires
            self.wf(),
            self.accepts(*ev),
        ensures
            r == self.width_spec(*ev),
    {
        match (self, ev) {
            (
                ChannelSampler::EdgeTimestamp { tick_hz },
                PulseEvent::Edges { rise_ticks, fall_ticks },
            ) => edge_width_us(*rise_ticks, *fall_ticks, *tick_hz),
            (
                ChannelSampler::HardwareCounter { divider, clock_hz },
                PulseEvent::CounterTicks { ticks },
            ) => ticks_to_us(*ticks, *divider, *clock_hz) as u64,
            _ => 0,
        }
    }
}

/// Saturate a measured width into the mapping's input domain: an
/// anomalously long measurement propagates as an extreme value, never as
/// an error.
pub open spec fn saturate_pulse(w: int) -> int {
    if w > i32::MAX {
        i32::MAX as int
    } else {
        w
    }
}

/// One input channel: a sampler strategy paired with its calibration
/// table. Calibration stays externally configurable per channel — the
/// neutral point and travel extremes differ between installations.
#[derive(Clone, Copy)]
pub struct Channel {
    pub sampler: ChannelSampler,
    pub cal: Calibration,
}

impl Channel {
    pub open spec fn wf(self) -> bool {
        self.sampler.wf() && self.cal.wf()
    }

    /// The channel's normalized reading for one observation: measured
    /// width, saturated, mapped through the calibration, then clamped
    /// into `[-NORM_ONE, NORM_ONE]`. The mapping itself extrapolates
    /// outside the calibrated range; both read paths clamp the final
    /// value, one policy fixed for the whole pipeline.
    pub open spec fn read_spec(self, ev: PulseEvent) -> int {
        clamped_norm(self.cal.map_spec(saturate_pulse(self.sampler.width_spec(ev))))
    }

    /// Read the channel from one observation.
    pub fn read(&self, ev: &PulseEvent) -> (s: Speed)
        requires
            self.wf(),
            self.sampler.accepts(*ev),
        ensures
            s.wf(),
            s.value() == self.read_spec(*ev),
    {
        let w: u64 = self.sampler.pulse_width_us(ev);
        let pulse: i32 = if w > i32::MAX as u64 {
            i32::MAX
        } else {
            w as i32
        };
        let mapped: i64 = self.cal.map(pulse);
        Speed::from_percent(mapped)
    }
}

/// The controller owns one sampler/calibration pair for steering and one
/// for throttle, and exposes one read operation per channel. The two
/// channels live on independently owned lines, so their readings are not
/// phase-aligned: one channel's pulse may be captured up to one pulse
/// period ahead of or behind the other's.
pub struct Controller {
    steering: Channel,
    throttle: Channel,
}

impl Controller {
    /// The steering sampler/calibration pair.
    pub closed spec fn steering_channel(self) -> Channel {
        self.steering
    }

    /// The throttle sampler/calibration pair.
    pub closed spec fn throttle_channel(self) -> Channel {
        self.throttle
    }

    pub open spec fn wf(self) -> bool {
        self.steering_channel().wf() && self.throttle_channel().wf()
    }

    /// Wire up the two channels, each with the strategy chosen at
    /// construction.
    pub fn init(steering: Channel, throttle: Channel) -> (c: Controller)
        requires
            steering.wf(),
            throttle.wf(),
        ensures
            c.wf(),
            c.steering_channel() == steering,
            c.throttle_channel() == throttle,
    {
        Controller { steering, throttle }
    }

    /// The normalized steering value for one observation of the steering
    /// line, clamped into `[-NORM_ONE, NORM_ONE]`, in fixed-point
    /// thousandths.
    pub fn get_steering(&self, ev: &PulseEvent) -> (r: i32)
        requires
            self.wf(),
            self.steering_channel().sampler.accepts(*ev),
        ensures
            r == self.steering_channel().read_spec(*ev),
    {
        self.steering.read(ev).millis()
    }

    /// The commanded throttle for one observation of the throttle line,
    /// as a clamped `Speed`.
    pub fn get_throttle(&self, ev: &PulseEvent) -> (s: Speed)
        requires
            self.wf(),
            self.throttle_channel().sampler.accepts(*ev),
        ensures
            s.wf(),
            s.value() == self.throttle_channel().read_spec(*ev),
    {
        self.throttle.read(ev)
    }
}

} // verus!
