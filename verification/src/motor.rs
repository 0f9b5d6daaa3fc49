use vstd::prelude::*;

verus! {

use crate::NORM_ONE;
use crate::sampler::{CounterSampler, counter_duty_spec, counter_duty_percent, pwm_top, pwm_top_spec};

/// Clamp of a normalized fixed-point value into `[-NORM_ONE, NORM_ONE]`.
pub open spec fn clamped_norm(v: int) -> int {
    if v < -(NORM_ONE as int) {
        -(NORM_ONE as int)
    } else if v > NORM_ONE {
        NORM_ONE as int
    } else {
        v
    }
}

/// A clamped scalar commanding direction and magnitude for one motor, in
/// fixed-point thousandths of full scale: `NORM_ONE` is full forward,
/// `-NORM_ONE` full reverse, `0` coasting (motor off). Values are created
/// fresh from each sampling cycle and consumed once; construction clamps,
/// so every `Speed` is in range.
#[derive(Clone, Copy)]
pub struct Speed {
    millis: i32,
}

impl Speed {
    /// The normalized value, in thousandths of full scale.
    pub closed spec fn value(self) -> int {
        self.millis as int
    }

    /// Every constructed `Speed` lies in `[-NORM_ONE, NORM_ONE]`.
    pub open spec fn wf(self) -> bool {
        -(NORM_ONE as int) <= self.value() <= NORM_ONE
    }

    /// Construct from a raw normalized value in thousandths of full
    /// scale, clamping into `[-NORM_ONE, NORM_ONE]`. Zero means "off".
    pub fn from_percent(val: i64) -> (s: Speed)
        ensures
            s.value() == clamped_norm(val as int),
            s.wf(),
    {
        let c: i64 = if val < -NORM_ONE {
            -NORM_ONE
        } else if val > NORM_ONE {
            NORM_ONE
        } else {
            val
        };
        Speed { millis: c as i32 }
    }

    /// The stored normalized value, in thousandths of full scale.
    pub fn millis(&self) -> (r: i32)
        ensures
            r as int == self.value(),
    {
        self.millis
    }
}

/// Forward-pin duty percentage commanded for a speed: `value / 10` percent
/// for a positive speed (thousandths of full scale to a 0–100 percentage,
/// truncating), fully off otherwise.
pub open spec fn forward_duty_spec(s: Speed) -> int {
    if s.value() > 0 {
        s.value() / 10
    } else {
        0
    }
}

/// Reverse-pin duty percentage commanded for a speed: `-value / 10`
/// percent for a negative speed, fully off otherwise.
pub open spec fn reverse_duty_spec(s: Speed) -> int {
    if s.value() < 0 {
        (-s.value()) / 10
    } else {
        0
    }
}

/// The duty pair one speed commands: exactly one pin of the pair carries a
/// nonzero duty at a time (both off for zero speed).
pub open spec fn commanded_duty(s: Speed) -> PwmOutputAb {
    PwmOutputAb { a: forward_duty_spec(s) as u8, b: reverse_duty_spec(s) as u8 }
}

/// Law: a speed never drives both pins of a pair — the commanded duty
/// pair carries at most one nonzero side (both are off for zero speed),
/// and for an in-range speed both duties stay within 0–100 percent.
pub proof fn lemma_duty_pins_mutually_exclusive(s: Speed)
    requires
        s.wf(),
    ensures
        forward_duty_spec(s) == 0 || reverse_duty_spec(s) == 0,
        s.value() == 0 ==> forward_duty_spec(s) == 0 && reverse_duty_spec(s) == 0,
        0 <= forward_duty_spec(s) <= 100,
        0 <= reverse_duty_spec(s) <= 100,
{
}

/// The duty-cycle pair last commanded to one motor's complementary PWM pin
/// pair, as 0–100 percentages: `a` drives the forward pin, `b` the reverse
/// pin.
#[derive(Clone, Copy, Debug, PartialEq, Eq, Structural)]
pub struct PwmOutputAb {
    pub a: u8,
    pub b: u8,
}

/// Target carrier frequency of the motor PWM outputs, in hertz.
pub const MOTOR_PWM_FREQ_HZ: u32 = 25_000;

/// Clock divider shared by the PWM peripherals.
pub const PWM_CLOCK_DIVIDER: u32 = 16;

/// Two independently commanded H-bridge style motor outputs. Both share
/// one carrier period (`top`), computed once at initialization, so the two
/// carriers stay phase-synchronized (no audible beat between the motors).
/// The duty registers are written only by the drive operations below.
pub struct Motors {
    left: PwmOutputAb,
    right: PwmOutputAb,
    top: u16,
}

/// The shared carrier period for a system clock: the general PWM period
/// computation at the motor carrier frequency and divider.
pub open spec fn carrier_top_spec(clock_freq_hz: int) -> int {
    pwm_top_spec(clock_freq_hz, MOTOR_PWM_FREQ_HZ as int, PWM_CLOCK_DIVIDER as int)
}

impl Motors {
    /// Duty pair currently commanded to the left motor.
    pub closed spec fn left_duty(self) -> PwmOutputAb {
        self.left
    }

    /// Duty pair currently commanded to the right motor.
    pub closed spec fn right_duty(self) -> PwmOutputAb {
        self.right
    }

    /// The shared carrier period (`top`).
    pub closed spec fn top_value(self) -> int {
        self.top as int
    }

    /// Configure both motor outputs for the target carrier frequency: one
    /// divider/period pair derived once from the system clock and reused
    /// for both motors, with every pin initially fully off.
    pub fn init(clock_freq_hz: u32) -> (m: Motors)
        requires
            clock_freq_hz >= MOTOR_PWM_FREQ_HZ * PWM_CLOCK_DIVIDER,
        ensures
            m.top_value() == carrier_top_spec(clock_freq_hz as int),
            m.left_duty() == (PwmOutputAb { a: 0, b: 0 }),
            m.right_duty() == (PwmOutputAb { a: 0, b: 0 }),
    {
        let wide: u32 = pwm_top(clock_freq_hz, MOTOR_PWM_FREQ_HZ, PWM_CLOCK_DIVIDER as u8);
        proof {
            // the quotient over freq * divider = 400_000 is small enough
            // that the carrier period always fits the 16-bit register
            vstd::arithmetic::div_mod::lemma_fundamental_div_mod(clock_freq_hz as int, 400_000);
            vstd::arithmetic::div_mod::lemma_mod_division_less_than_divisor(
                clock_freq_hz as int, 400_000);
        }
        let top: u16 = wide as u16;
        Motors {
            left: PwmOutputAb { a: 0, b: 0 },
            right: PwmOutputAb { a: 0, b: 0 },
            top,
        }
    }

    /// Translate one speed into the duty pair it commands.
    fn duty_for(s: Speed) -> (d: PwmOutputAb)
        requires
            s.wf(),
        ensures
            d == commanded_duty(s),
    {
        let m: i32 = s.millis;
        if m > 0 {
            PwmOutputAb { a: ((m as u32) / 10) as u8, b: 0 }
        } else if m < 0 {
            let neg: i32 = -m;
            PwmOutputAb { a: 0, b: ((neg as u32) / 10) as u8 }
        } else {
            PwmOutputAb { a: 0, b: 0 }
        }
    }

    /// Drive each motor at the given speed: a positive speed puts
    /// `value / 10` percent duty on the forward pin with the reverse pin
    /// fully off, a negative speed mirrors that onto the reverse pin, and
    /// zero turns both pins fully off (coast). Always succeeds; a speed
    /// outside `[-NORM_ONE, NORM_ONE]` cannot occur, since clamped
    /// construction is the sole source of `Speed` values.
    pub fn drive_speed(&mut self, left: Speed, right: Speed)
        requires
            left.wf(),
            right.wf(),
        ensures
            final(self).left_duty() == commanded_duty(left),
            final(self).right_duty() == commanded_duty(right),
            final(self).top_value() == old(self).top_value(),
    {
        self.left = Self::duty_for(left);
        self.right = Self::duty_for(right);
    }

    /// Command the same forward duty on both motors with the reverse pins
    /// forced off — the drive loop's identical-wheels simplification (no
    /// differential steering; a documented placeholder, not a steering
    /// algorithm).
    pub fn drive_forward_both(&mut self, duty: u8)
        requires
            duty <= 100,
        ensures
            final(self).left_duty() == (PwmOutputAb { a: duty, b: 0 }),
            final(self).right_duty() == (PwmOutputAb { a: duty, b: 0 }),
            final(self).top_value() == old(self).top_value(),
    {
        self.left = PwmOutputAb { a: duty, b: 0 };
        self.right = PwmOutputAb { a: duty, b: 0 };
    }

    /// The duty pair currently commanded to the left motor.
    pub fn left(&self) -> (d: PwmOutputAb)
        ensures
            d == self.left_duty(),
    {
        self.left
    }

    /// The duty pair currently commanded to the right motor.
    pub fn right(&self) -> (d: PwmOutputAb)
        ensures
            d == self.right_duty(),
    {
        self.right
    }

    /// The shared carrier period (`top`).
    pub fn top(&self) -> (r: u16)
        ensures
            r as int == self.top_value(),
    {
        self.top
    }
}

/// Law: the duty state left by `drive_speed` is a function of the two
/// commanded speeds alone, so issuing the same command twice in succession
/// leaves the duty-cycle state unchanged — no accumulation or drift.
pub proof fn lemma_drive_idempotent(after_first: Motors, after_second: Motors, left: Speed, right: Speed)
    requires
        after_first.left_duty() == commanded_duty(left),
        after_first.right_duty() == commanded_duty(right),
        after_second.left_duty() == commanded_duty(left),
        after_second.right_duty() == commanded_duty(right),
        after_second.top_value() == after_first.top_value(),
    ensures
        after_second == after_first,
{
}

/// One iteration of the tightest drive loop: read the steering capture
/// counter, reset it immediately (so the counter accumulates only since
/// this read, bounding the measurement window to one iteration), and
/// command the measured fraction of the capture window identically to both
/// motors' forward pins with the reverse pins off.
pub fn drive_step(steering: &mut CounterSampler, motors: &mut Motors) -> (duty: u8)
    ensures
        duty == counter_duty_spec(old(steering).ticks(), old(steering).top_value()),
        *final(steering) == old(steering).spec_reset(),
        final(motors).left_duty() == (PwmOutputAb { a: duty, b: 0 }),
        final(motors).right_duty() == (PwmOutputAb { a: duty, b: 0 }),
        final(motors).top_value() == old(motors).top_value(),
{
    let high: u16 = steering.read_ticks();
    steering.reset();
    let duty: u8 = counter_duty_percent(high, steering.top());
    motors.drive_forward_both(duty);
    duty
}

} // verus!
