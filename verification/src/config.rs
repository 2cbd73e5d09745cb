//! Tunables for the servo and the controller's filters.
//!
//! Gains are dimensionless ratios scaled by `servo::GAIN_SCALE` (10^6) and
//! adjustment bounds are in milli-PPM, as everywhere in the engine.

use vstd::prelude::*;

use crate::servo::MAX_GAIN_SCALED;

verus! {

/// Servo tunables.
#[derive(Debug, Clone, Copy, PartialEq, Eq, Structural)]
pub struct ServoConfig {
    pub kp_scaled: i64,
    pub ki_scaled: i64,
    pub max_freq_adj_mppm: i64,
    pub max_integral_mppm: i64,
}

/// Filter tunables: the step thresholds, the plausibility window, and the
/// sampling hooks a jittery timestamp source needs.
#[derive(Debug, Clone, Copy, PartialEq, Eq, Structural)]
pub struct FilterConfig {
    pub step_threshold_ns: i64,
    pub panic_threshold_ns: i64,
    pub sample_window_size: usize,
    pub min_delta_ns: i64,
    pub calibration_samples: usize,
    pub ptp_stepping_enabled: bool,
}

/// The whole configuration record.
#[derive(Debug, Clone, Copy, PartialEq, Eq, Structural)]
pub struct SystemConfig {
    pub servo: ServoConfig,
    pub filters: FilterConfig,
}

impl SystemConfig {
    /// Values the arithmetic of the engine accepts.
    pub open spec fn wf(&self) -> bool {
        &&& 0 <= self.servo.kp_scaled <= MAX_GAIN_SCALED
        &&& 0 <= self.servo.ki_scaled <= MAX_GAIN_SCALED
        &&& 0 <= self.servo.max_freq_adj_mppm <= 1_000_000_000
        &&& 0 <= self.servo.max_integral_mppm <= MAX_GAIN_SCALED
        &&& self.filters.step_threshold_ns >= 0
        &&& self.filters.panic_threshold_ns >= 0
        &&& self.filters.min_delta_ns >= 0
    }
}

impl SystemConfig {
    /// The defaults for a platform whose receive timestamps are taken in
    /// user space: the same gains, but a sixteen-sample window for median
    /// selection, no minimum delta (the timestamps are too jittery to gate
    /// on it), three calibration samples, and a coarser 50 ms panic
    /// threshold for the initial alignment.
    pub fn user_space_default() -> (c: Self)
        ensures
            c.wf(),
            c.servo.kp_scaled == 500,
            c.servo.ki_scaled == 50,
            c.servo.max_freq_adj_mppm == 500_000,
            c.servo.max_integral_mppm == 100_000,
            c.filters.step_threshold_ns == 5_000_000,
            c.filters.panic_threshold_ns == 50_000_000,
            c.filters.sample_window_size == 16,
            c.filters.min_delta_ns == 0,
            c.filters.calibration_samples == 3,
            c.filters.ptp_stepping_enabled,
    {
        let mut c = Self::default();
        c.filters = FilterConfig {
            step_threshold_ns: 5_000_000,
            panic_threshold_ns: 50_000_000,
            sample_window_size: 16,
            min_delta_ns: 0,
            calibration_samples: 3,
            ptp_stepping_enabled: true,
        };
        c
    }
}

impl Default for SystemConfig {
    /// The defaults for a kernel-timestamping platform: gentle gains
    /// (kp = 0.0005, ki = 0.00005), a 500 PPM adjustment clamp, a 100 PPM
    /// integral bound, a 5 ms step threshold, a 1 ms minimum delta, a
    /// four-sample window and no calibration.
    fn default() -> (c: Self)
        ensures
            c.wf(),
            c.servo.kp_scaled == 500,
            c.servo.ki_scaled == 50,
            c.servo.max_freq_adj_mppm == 500_000,
            c.servo.max_integral_mppm == 100_000,
            c.filters.step_threshold_ns == 5_000_000,
            c.filters.panic_threshold_ns == 10_000_000,
            c.filters.sample_window_size == 4,
            c.filters.min_delta_ns == 1_000_000,
            c.filters.calibration_samples == 0,
            c.filters.ptp_stepping_enabled,
    {
        SystemConfig {
            servo: ServoConfig {
                kp_scaled: 500,
                ki_scaled: 50,
                max_freq_adj_mppm: 500_000,
                max_integral_mppm: 100_000,
            },
            filters: FilterConfig {
                step_threshold_ns: 5_000_000,
                panic_threshold_ns: 10_000_000,
                sample_window_size: 4,
                min_delta_ns: 1_000_000,
                calibration_samples: 0,
                ptp_stepping_enabled: true,
            },
        }
    }
}

} // verus!
