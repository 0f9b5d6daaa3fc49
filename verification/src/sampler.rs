use vstd::prelude::*;

verus! {

use vstd::arithmetic::div_mod::{
    lemma_div_is_ordered_by_denominator,
    lemma_div_multiples_vanish,
    lemma_mod_division_less_than_divisor,
};
use vstd::arithmetic::mul::lemma_mul_upper_bound;

/// The wraparound period (`top`) programming a PWM peripheral for a
/// target cycle rate: the counter runs from `0` to `top` and wraps, so
/// one cycle takes `top + 1` steps of `divider / clock_hz` seconds each.
pub open spec fn pwm_top_spec(clock_hz: int, freq_hz: int, divider: int) -> int {
    clock_hz / (freq_hz * divider) - 1
}

/// Compute the wraparound period for a target cycle rate, done once at
/// configuration time. Both motor carriers share one such period, and a
/// capture window uses one sized to its expected frame; a caller whose
/// peripheral holds `top` in fewer bits must check the fit here, at
/// configuration time, rather than truncate it silently.
pub fn pwm_top(clock_hz: u32, freq_hz: u32, divider: u8) -> (r: u32)
    requires
        1 <= freq_hz,
        1 <= divider,
        freq_hz * divider <= clock_hz,
    ensures
        r == pwm_top_spec(clock_hz as int, freq_hz as int, divider as int),
{
    proof {
        vstd::arithmetic::mul::lemma_mul_inequality(1, freq_hz as int, divider as int);
    }
    let d: u32 = freq_hz * divider as u32;
    let q: u32 = clock_hz / d;
    proof {
        vstd::arithmetic::div_mod::lemma_div_is_ordered(d as int, clock_hz as int, d as int);
        vstd::arithmetic::div_mod::lemma_div_by_self(d as int);
    }
    q - 1
}

/// Tick-count to microseconds conversion shared by the capture
/// strategies: ticks are counted at `clock_hz / divider`, so a count of
/// `ticks` spans `ticks * divider * 1_000_000 / clock_hz` whole
/// microseconds (sub-microsecond precision truncates).
pub open spec fn ticks_to_us_spec(ticks: int, divider: int, clock_hz: int) -> int {
    (ticks * divider * 1_000_000) / clock_hz
}

/// Convert a pulse-width tick count to whole microseconds. The
/// multiplication is done in a width validated here once, not per
/// configuration: a 16-bit count times an 8-bit divider times the
/// microsecond scale always fits 64 bits.
pub fn ticks_to_us(ticks: u16, divider: u8, clock_hz: u32) -> (r: u32)
    requires
        1 <= divider,
        1_000_000 <= clock_hz,
    ensures
        r == ticks_to_us_spec(ticks as int, divider as int, clock_hz as int),
{
    proof {
        lemma_mul_upper_bound(ticks as int, 0xFFFF, divider as int, 0xFF);
    }
    let num: u64 = ticks as u64 * divider as u64 * 1_000_000;
    let wide: u64 = num / (clock_hz as u64);
    proof {
        lemma_div_is_ordered_by_denominator(num as int, 1_000_000, clock_hz as int);
        lemma_div_multiples_vanish((ticks * divider) as int, 1_000_000);
    }
    wide as u32
}

/// Elapsed active time between a rising edge and the subsequent falling
/// edge, with both timestamps counted at `tick_hz`, truncated to whole
/// microseconds.
pub open spec fn edge_width_us_spec(rise_ticks: int, fall_ticks: int, tick_hz: int) -> int {
    ((fall_ticks - rise_ticks) * 1_000_000) / tick_hz
}

/// Pulse width measured by the edge-timestamp strategy. The surrounding
/// task waits (suspending) for the rising and then the falling transition
/// and hands the two timestamps in; the rising-edge wait strictly precedes
/// the falling-edge wait, so the order of the timestamps is a given.
pub fn edge_width_us(rise_ticks: u64, fall_ticks: u64, tick_hz: u32) -> (r: u64)
    requires
        rise_ticks <= fall_ticks,
        fall_ticks - rise_ticks <= u32::MAX,
        1 <= tick_hz,
    ensures
        r == edge_width_us_spec(rise_ticks as int, fall_ticks as int, tick_hz as int),
{
    let elapsed: u64 = fall_ticks - rise_ticks;
    (elapsed * 1_000_000) / (tick_hz as u64)
}

/// Duty percentage for the tightest drive loop: the fraction of the
/// capture window (period `top + 1`) that the monitored line spent high,
/// as a 0–100 percentage, clamped at 100.
pub open spec fn counter_duty_spec(high: int, top: int) -> int {
    let q = (high * 100) / (top + 1);
    if q > 100 {
        100
    } else {
        q
    }
}

/// Convert a capture-counter reading to the clamped duty percentage of
/// its window.
pub fn counter_duty_percent(high: u16, top: u16) -> (r: u8)
    ensures
        r == counter_duty_spec(high as int, top as int),
{
    let q: u32 = (high as u32 * 100) / (top as u32 + 1);
    if q > 100 {
        100
    } else {
        q as u8
    }
}

/// Model of the free-running pulse-width capture peripheral: configured
/// with a clock divider and a wraparound period `top`, it counts clock
/// ticks while the monitored line is high into a counter that wraps past
/// `top`. Reading never suspends and never clears the counter by itself;
/// clearing is a separate, explicit operation. Two compositions use it:
/// the drive loop reads and then resets, bounding each measurement to one
/// iteration, while the controller reads without reset and may therefore
/// see a stale or aliased value when no new pulse completed between reads
/// — a deliberate trade-off for suspension-free reads, not a defect.
pub struct CounterSampler {
    divider: u8,
    clock_hz: u32,
    top: u16,
    counter: u16,
}

impl CounterSampler {
    /// The configured clock divider.
    pub closed spec fn divider_value(self) -> int {
        self.divider as int
    }

    /// The system clock the capture peripheral runs from, in hertz.
    pub closed spec fn clock_hz_value(self) -> int {
        self.clock_hz as int
    }

    /// The configured wraparound period.
    pub closed spec fn top_value(self) -> int {
        self.top as int
    }

    /// The ticks currently held in the counter register.
    pub closed spec fn ticks(self) -> int {
        self.counter as int
    }

    /// A usable configuration: a nonzero divider and a plausible system
    /// clock (validated once here, so per-read conversion cannot
    /// overflow).
    pub open spec fn wf(self) -> bool {
        1 <= self.divider_value() && 1_000_000 <= self.clock_hz_value()
    }

    /// Two samplers configured identically (whatever their counters hold).
    pub open spec fn same_config(self, other: CounterSampler) -> bool {
        self.divider_value() == other.divider_value()
            && self.clock_hz_value() == other.clock_hz_value()
            && self.top_value() == other.top_value()
    }

    /// The sampler after an explicit counter reset.
    pub closed spec fn spec_reset(self) -> CounterSampler {
        CounterSampler { counter: 0, ..self }
    }

    /// The sampler after the peripheral counted `n` more level-high
    /// ticks, wrapping past the configured period.
    pub closed spec fn spec_accumulate(self, n: u16) -> CounterSampler {
        CounterSampler { counter: ((self.counter + n) % (self.top_value() + 1)) as u16, ..self }
    }

    /// What a non-suspending read returns: the current count converted to
    /// microseconds.
    pub open spec fn sample_spec(self) -> int {
        ticks_to_us_spec(self.ticks(), self.divider_value(), self.clock_hz_value())
    }

    /// Configure a capture peripheral model: counter starts cleared.
    pub fn new(divider: u8, clock_hz: u32, top: u16) -> (s: CounterSampler)
        requires
            1 <= divider,
            1_000_000 <= clock_hz,
        ensures
            s.wf(),
            s.divider_value() == divider,
            s.clock_hz_value() == clock_hz,
            s.top_value() == top,
            s.ticks() == 0,
    {
        CounterSampler { divider, clock_hz, top, counter: 0 }
    }

    /// The peripheral counted `n` more ticks of level-high time, wrapping
    /// past the configured period.
    pub fn accumulate(&mut self, n: u16)
        ensures
            *final(self) == old(self).spec_accumulate(n),
            final(self).ticks() == (old(self).ticks() + n) % (old(self).top_value() + 1),
            final(self).same_config(*old(self)),
    {
        let sum: u32 = self.counter as u32 + n as u32;
        let wrapped: u32 = sum % (self.top as u32 + 1);
        proof {
            lemma_mod_division_less_than_divisor(sum as int, self.top as int + 1);
        }
        self.counter = wrapped as u16;
    }

    /// Explicitly clear the counter, so that what follows reflects only
    /// activity after this call.
    pub fn reset(&mut self)
        ensures
            *final(self) == old(self).spec_reset(),
            final(self).ticks() == 0,
            final(self).same_config(*old(self)),
    {
        self.counter = 0;
    }

    /// The raw counter value (one drive-loop read of the register).
    pub fn read_ticks(&self) -> (r: u16)
        ensures
            r as int == self.ticks(),
    {
        self.counter
    }

    /// The configured wraparound period.
    pub fn top(&self) -> (r: u16)
        ensures
            r as int == self.top_value(),
    {
        self.top
    }

    /// Non-suspending read: the current count, converted to whole
    /// microseconds. Does not clear the counter — two consecutive reads
    /// with no completed pulse in between return the same (stale) value.
    pub fn sample(&self) -> (r: u32)
        requires
            self.wf(),
        ensures
            r == self.sample_spec(),
    {
        ticks_to_us(self.counter, self.divider, self.clock_hz)
    }
}

/// Law: an explicit reset isolates later samples from earlier activity —
/// whatever two identically configured counters held before, after a reset
/// followed by the same accumulation their samples agree, and the count
/// they convert is exactly the ticks accumulated since the reset.
pub proof fn lemma_reset_isolates_sample(s1: CounterSampler, s2: CounterSampler, n: u16)
    requires
        s1.same_config(s2),
    ensures
        s1.spec_reset().spec_accumulate(n).sample_spec()
            == s2.spec_reset().spec_accumulate(n).sample_spec(),
        s1.spec_reset().spec_accumulate(n).ticks() == n as int % (s1.top_value() + 1),
{
}

} // verus!
