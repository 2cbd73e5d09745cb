//! PI servo: maps a phase offset in nanoseconds to a frequency adjustment.
//!
//! The whole control path works in fixed point. Gains are dimensionless
//! ratios scaled by 10^6 (`GAIN_SCALE`), and adjustments are in milli-PPM
//! (PPM scaled by 1000), the unit the diagnostic wire format also uses.
//! The integral term is clamped symmetrically for anti-windup.

use vstd::prelude::*;

verus! {

/// A gain of 1.0 is stored as this value.
pub const GAIN_SCALE: i64 = 1_000_000;

/// Anti-windup bound in milli-PPM: 200 PPM covers standard crystal drift.
pub const DEFAULT_MAX_INTEGRAL_MPPM: i64 = 200_000;

/// Largest gain (scaled) and clamp bound the servo accepts; keeps every
/// intermediate product inside `i64`.
pub const MAX_GAIN_SCALED: i64 = 1_000_000_000;

/// Largest phase offset magnitude the servo accepts, one whole second.
pub const MAX_SERVO_OFFSET_NS: i64 = 1_000_000_000;

/// Division by 1000 with truncation toward zero, as the executable `/` does.
pub open spec fn tdiv1000(a: int) -> int {
    if a >= 0 {
        a / 1000
    } else {
        -((-a) / 1000)
    }
}

/// `v` clamped to `[-bound, bound]`.
pub open spec fn clamped(v: int, bound: int) -> int {
    if v > bound {
        bound
    } else if v < -bound {
        -bound
    } else {
        v
    }
}

/// Proportional-integral servo in fixed point.
pub struct PiServo {
    pub kp_scaled: i64,
    pub ki_scaled: i64,
    pub integral_mppm: i64,
    pub max_integral_mppm: i64,
}

/// The integral term after one sample: the error (negated offset) times the
/// integral gain is accumulated, then clamped for anti-windup.
pub open spec fn servo_integral_next(s: PiServo, offset_ns: int) -> int {
    clamped(s.integral_mppm + tdiv1000(-offset_ns * s.ki_scaled), s.max_integral_mppm as int)
}

/// The servo output for one sample: proportional term plus updated integral.
pub open spec fn servo_output(s: PiServo, offset_ns: int) -> int {
    tdiv1000(-offset_ns * s.kp_scaled) + servo_integral_next(s, offset_ns)
}

/// Divides by 1000 truncating toward zero, matching `tdiv1000`.
fn scale_down(prod: i64) -> (r: i64)
    requires
        -0x7fff_ffff_ffff_ffff <= prod,
    ensures
        r == tdiv1000(prod as int),
{
    if prod >= 0 {
        prod / 1000
    } else {
        -((-prod) / 1000)
    }
}

impl PiServo {
    /// The servo's invariant: gains are non-negative and bounded, and the
    /// integral term never leaves the anti-windup band.
    pub open spec fn wf(&self) -> bool {
        &&& 0 <= self.kp_scaled <= MAX_GAIN_SCALED
        &&& 0 <= self.ki_scaled <= MAX_GAIN_SCALED
        &&& 0 <= self.max_integral_mppm <= MAX_GAIN_SCALED
        &&& -self.max_integral_mppm <= self.integral_mppm <= self.max_integral_mppm
    }

    /// The current integral term in milli-PPM.
    pub open spec fn spec_integral(&self) -> int {
        self.integral_mppm as int
    }

    /// The anti-windup bound in milli-PPM.
    pub open spec fn spec_max_integral(&self) -> int {
        self.max_integral_mppm as int
    }

    /// Creates a servo with the given gains (scaled by `GAIN_SCALE`) and the
    /// default anti-windup bound; the integral starts at zero.
    pub fn new(kp_scaled: i64, ki_scaled: i64) -> (s: Self)
        requires
            0 <= kp_scaled <= MAX_GAIN_SCALED,
            0 <= ki_scaled <= MAX_GAIN_SCALED,
        ensures
            s.wf(),
            s.kp_scaled == kp_scaled,
            s.ki_scaled == ki_scaled,
            s.integral_mppm == 0,
            s.max_integral_mppm == DEFAULT_MAX_INTEGRAL_MPPM,
    {
        PiServo {
            kp_scaled,
            ki_scaled,
            integral_mppm: 0,
            max_integral_mppm: DEFAULT_MAX_INTEGRAL_MPPM,
        }
    }

    /// Zeroes the integral term; gains and bound are unchanged.
    pub fn reset(&mut self)
        ensures
            final(self).integral_mppm == 0,
            final(self).kp_scaled == old(self).kp_scaled,
            final(self).ki_scaled == old(self).ki_scaled,
            final(self).max_integral_mppm == old(self).max_integral_mppm,
            old(self).wf() ==> final(self).wf(),
    {
        self.integral_mppm = 0;
    }

    /// One servo step. `offset_ns` is local minus master: a positive offset
    /// (local clock ahead) yields a negative, slow-down adjustment. Returns
    /// the frequency adjustment in milli-PPM.
    pub fn sample(&mut self, offset_ns: i64) -> (adj_mppm: i64)
        requires
            old(self).wf(),
            -MAX_SERVO_OFFSET_NS <= offset_ns <= MAX_SERVO_OFFSET_NS,
        ensures
            final(self).wf(),
            final(self).integral_mppm == servo_integral_next(*old(self), offset_ns as int),
            adj_mppm == servo_output(*old(self), offset_ns as int),
            final(self).kp_scaled == old(self).kp_scaled,
            final(self).ki_scaled == old(self).ki_scaled,
            final(self).max_integral_mppm == old(self).max_integral_mppm,
            -final(self).max_integral_mppm <= final(self).integral_mppm
                <= final(self).max_integral_mppm,
    {
        let error: i64 = -offset_ns;
        proof {
            assert(-0x7fff_ffff_ffff_ffff <= error * self.ki_scaled
                <= 0x7fff_ffff_ffff_ffff) by (nonlinear_arith)
                requires
                    -MAX_SERVO_OFFSET_NS <= error <= MAX_SERVO_OFFSET_NS,
                    0 <= self.ki_scaled <= MAX_GAIN_SCALED;
            assert(-0x7fff_ffff_ffff_ffff <= error * self.kp_scaled
                <= 0x7fff_ffff_ffff_ffff) by (nonlinear_arith)
                requires
                    -MAX_SERVO_OFFSET_NS <= error <= MAX_SERVO_OFFSET_NS,
                    0 <= self.kp_scaled <= MAX_GAIN_SCALED;
        }
        let integral_term: i64 = scale_down(error * self.ki_scaled);
        let mut integral: i64 = self.integral_mppm + integral_term;
        if integral > self.max_integral_mppm {
            integral = self.max_integral_mppm;
        }
        if integral < -self.max_integral_mppm {
            integral = -self.max_integral_mppm;
        }
        self.integral_mppm = integral;

        let proportional: i64 = scale_down(error * self.kp_scaled);
        proportional + integral
    }
}

/// Idempotence on reset: after `reset`, sampling a zero offset returns zero
/// and leaves the integral at zero, regardless of prior state.
pub proof fn lemma_reset_then_zero_sample(s: PiServo)
    requires
        s.wf(),
        s.integral_mppm == 0,
    ensures
        servo_output(s, 0) == 0,
        servo_integral_next(s, 0) == 0,
{
}

/// Anti-windup: after any sample on any well-formed servo, the integral term
/// stays within the configured bound.
pub proof fn lemma_integral_clamped(s: PiServo, offset_ns: int)
    requires
        s.wf(),
    ensures
        -s.spec_max_integral() <= servo_integral_next(s, offset_ns) <= s.spec_max_integral(),
{
}

} // verus!
