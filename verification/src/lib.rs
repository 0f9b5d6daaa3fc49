//! Decoding of pulse-position-modulated (PPM/PWM) radio-control channels
//! into normalized control values, and translation of those values into
//! duty-cycle commands for a two-motor differential actuator.
//!
//! The pipeline is: a channel sampler measures a pulse width in
//! microseconds (either from an edge-timestamp pair or from a hardware
//! pulse-width counter), a per-channel calibration triple maps the width
//! to a signed normalized value, and the motor driver turns one `Speed`
//! per motor into a complementary forward/reverse duty-cycle pair.
//!
//! Normalized values are fixed-point integers in thousandths of full
//! scale (see [`NORM_ONE`]); the surrounding runtime owns the actual
//! peripherals and hands raw observations in as plain integers.

pub mod calib;
pub mod controller;
pub mod motor;
pub mod sampler;

pub use calib::Calibration;
pub use controller::{Channel, ChannelSampler, Controller, PulseEvent};
pub use motor::{Motors, PwmOutputAb, Speed};
pub use sampler::CounterSampler;

use vstd::prelude::*;

verus! {

/// One full-scale unit of a normalized control value, in fixed-point
/// thousandths: a mapped value of `NORM_ONE` means full travel forward,
/// `-NORM_ONE` full travel reverse, and `0` the neutral point.
pub const NORM_ONE: i64 = 1000;

} // verus!
