use vstd::prelude::*;

verus! {

use crate::NORM_ONE;

/// Immutable per-channel calibration triple: the pulse widths (in
/// microseconds) of the channel's reverse extreme, neutral point and
/// forward extreme, with `min_us < mid_us < max_us`.
///
/// The triple defines two affine segments, `[min_us, mid_us]` mapped onto
/// `[-NORM_ONE, 0]` and `[mid_us, max_us]` mapped onto `[0, NORM_ONE]`,
/// sharing `mid_us` as the zero crossing. The mapping itself never clamps:
/// widths outside the calibrated range extrapolate linearly, since the
/// calibration bounds are nominal rather than hard limits.
#[derive(Clone, Copy)]
pub struct Calibration {
    pub min_us: i32,
    pub mid_us: i32,
    pub max_us: i32,
}

impl Calibration {
    /// The calibration invariant: the three reference points are strictly
    /// ordered, so both segment spans are positive.
    pub open spec fn wf(self) -> bool {
        self.min_us < self.mid_us < self.max_us
    }

    /// Lower-segment formula: affine from `[min_us, mid_us]` onto
    /// `[-NORM_ONE, 0]`, extrapolating below `min_us`.
    pub open spec fn map_lower(self, pulse_us: int) -> int {
        -(((self.mid_us - pulse_us) * NORM_ONE) / (self.mid_us - self.min_us))
    }

    /// Upper-segment formula: affine from `[mid_us, max_us]` onto
    /// `[0, NORM_ONE]`, extrapolating above `max_us`.
    pub open spec fn map_upper(self, pulse_us: int) -> int {
        ((pulse_us - self.mid_us) * NORM_ONE) / (self.max_us - self.mid_us)
    }

    /// The full piecewise-linear mapping: the lower-segment formula at and
    /// below the pivot, the upper-segment formula above it. The two slopes
    /// differ whenever the two spans do, so the mapping need not be
    /// symmetric.
    pub open spec fn map_spec(self, pulse_us: int) -> int {
        if pulse_us <= self.mid_us {
            self.map_lower(pulse_us)
        } else {
            self.map_upper(pulse_us)
        }
    }

    /// Build a calibration, rejecting any triple that is not strictly
    /// ordered.
    pub fn new(min_us: i32, mid_us: i32, max_us: i32) -> (r: Option<Calibration>)
        ensures
            r is Some <==> min_us < mid_us < max_us,
            r is Some ==> r->0 == (Calibration { min_us, mid_us, max_us }),
            r is Some ==> r->0.wf(),
    {
        if min_us < mid_us && mid_us < max_us {
            Some(Calibration { min_us, mid_us, max_us })
        } else {
            None
        }
    }

    /// Map a measured pulse width to a signed normalized value in
    /// fixed-point thousandths. No range precondition on the width: out of
    /// range (even negative) widths extrapolate; callers that need a
    /// bounded result clamp afterwards.
    pub fn map(&self, pulse_us: i32) -> (r: i64)
        requires
            self.wf(),
        ensures
            r == self.map_spec(pulse_us as int),
    {
        if pulse_us <= self.mid_us {
            let diff: u64 = (self.mid_us as i64 - pulse_us as i64) as u64;
            let span: u64 = (self.mid_us as i64 - self.min_us as i64) as u64;
            let q: u64 = (diff * (NORM_ONE as u64)) / span;
            assert(q <= diff * 1000) by {
                vstd::arithmetic::div_mod::lemma_div_nonincreasing((diff * 1000) as int, span as int);
                vstd::arithmetic::div_mod::lemma_div_is_ordered_by_denominator(
                    (diff * 1000) as int, 1, span as int);
            };
            -(q as i64)
        } else {
            let diff: u64 = (pulse_us as i64 - self.mid_us as i64) as u64;
            let span: u64 = (self.max_us as i64 - self.mid_us as i64) as u64;
            let q: u64 = (diff * (NORM_ONE as u64)) / span;
            assert(q <= diff * 1000) by {
                vstd::arithmetic::div_mod::lemma_div_nonincreasing((diff * 1000) as int, span as int);
                vstd::arithmetic::div_mod::lemma_div_is_ordered_by_denominator(
                    (diff * 1000) as int, 1, span as int);
            };
            q as i64
        }
    }
}

/// Law: at the calibrated pivot the mapping is exactly zero — for every
/// well-formed calibration, `map` of `mid_us` returns `0`.
pub proof fn lemma_map_zero_at_mid(cal: Calibration)
    requires
        cal.wf(),
    ensures
        cal.map_spec(cal.mid_us as int) == 0,
{
    vstd::arithmetic::div_mod::lemma_div_of0((cal.mid_us - cal.min_us) as int);
}

/// Law: the mapping is continuous at the pivot — the lower-segment and the
/// upper-segment formula agree there, both yielding exactly zero.
pub proof fn lemma_map_continuous_at_mid(cal: Calibration)
    requires
        cal.wf(),
    ensures
        cal.map_lower(cal.mid_us as int) == cal.map_upper(cal.mid_us as int),
        cal.map_lower(cal.mid_us as int) == 0,
{
    vstd::arithmetic::div_mod::lemma_div_of0((cal.mid_us - cal.min_us) as int);
    vstd::arithmetic::div_mod::lemma_div_of0((cal.max_us - cal.mid_us) as int);
}

/// `(d1 * NORM_ONE) / span` grows strictly with `d1` as long as one step of
/// `d1` moves the scaled numerator by at least `span`.
proof fn lemma_scaled_div_strict(d1: int, d2: int, span: int)
    requires
        0 <= d1 < d2,
        0 < span <= 1000,
    ensures
        (d1 * 1000) / span < (d2 * 1000) / span,
{
    let a = d1 * 1000;
    let b = d2 * 1000;
    assert(d1 * 1000 + span <= d2 * 1000) by (nonlinear_arith)
        requires
            d1 < d2,
            0 < span <= 1000;
    assert(a / span + 1 == (a + span) / span) by {
        vstd::arithmetic::div_mod::lemma_hoist_over_denominator(a, 1, span as nat);
    };
    vstd::arithmetic::div_mod::lemma_div_is_ordered(a + span, b, span);
}

/// Law: the mapping is strictly monotone — a smaller pulse width maps
/// strictly below a larger one, within a segment and across the pivot
/// alike. This holds whenever each segment the two widths touch spans at
/// most `NORM_ONE` microseconds; a coarser segment has less than one
/// fixed-point step per microsecond of travel, so two adjacent widths can
/// land on the same output value there.
pub proof fn lemma_map_strictly_monotone(cal: Calibration, pulse1: int, pulse2: int)
    requires
        cal.wf(),
        pulse1 < pulse2,
        pulse1 < cal.mid_us ==> cal.mid_us - cal.min_us <= NORM_ONE,
        cal.mid_us < pulse2 ==> cal.max_us - cal.mid_us <= NORM_ONE,
    ensures
        cal.map_spec(pulse1) < cal.map_spec(pulse2),
{
    let lower_span = (cal.mid_us - cal.min_us) as int;
    let upper_span = (cal.max_us - cal.mid_us) as int;
    vstd::arithmetic::div_mod::lemma_div_of0(lower_span);
    vstd::arithmetic::div_mod::lemma_div_of0(upper_span);
    if pulse2 <= cal.mid_us {
        lemma_scaled_div_strict(cal.mid_us - pulse2, cal.mid_us - pulse1, lower_span);
    } else if cal.mid_us <= pulse1 {
        lemma_scaled_div_strict(pulse1 - cal.mid_us, pulse2 - cal.mid_us, upper_span);
    } else {
        // the widths straddle the pivot: the lower one maps strictly
        // below zero, the upper one strictly above
        lemma_scaled_div_strict(0, cal.mid_us - pulse1, lower_span);
        lemma_scaled_div_strict(0, pulse2 - cal.mid_us, upper_span);
    }
}

} // verus!
