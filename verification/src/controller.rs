//! Controller: the settling/stepping/locked state machine.
//!
//! The controller consumes valid `(T1, T2)` pairs, extracts the sub-second
//! phase offset, filters implausible pairs, and decides what the platform
//! clock should do: nothing, a discontinuous step, or a frequency slew. It
//! performs no I/O itself; each decision is returned as a `ControllerAction`
//! for the embedding loop to carry out, and the current monotonic time is
//! passed in.

use vstd::prelude::*;

use crate::pairer::{PendingSync, SyncPairer, PAIRER_SOFT_BOUND};
use crate::ptp::{PtpV1Control, PtpV1Header, PtpV1FollowUpBody, control_of, be16, be32, uuid_val,
    uuid_key};
use crate::servo::{PiServo, clamped, servo_integral_next, servo_output};
use vstd::relations::{sorted_by, total_ordering};

verus! {

/// Pairs whose master or slave delta exceeds this are implausible.
pub const MAX_DELTA_NS: i64 = 2_000_000_000;

/// Default lower bound on the master/slave deltas (1 ms).
pub const DEFAULT_MIN_DELTA_NS: i64 = 1_000_000;

/// Default phase magnitude above which the first lock steps the clock (1 ms).
pub const DEFAULT_STEP_THRESHOLD_NS: i64 = 1_000_000;

/// Default clamp on the applied frequency adjustment, in milli-PPM (500 PPM).
pub const DEFAULT_MAX_FREQ_ADJ_MPPM: i64 = 500_000;

/// Default proportional gain, scaled by `servo::GAIN_SCALE` (0.8).
pub const DEFAULT_KP_SCALED: i64 = 800_000;

/// Default integral gain, scaled by `servo::GAIN_SCALE` (0.2).
pub const DEFAULT_KI_SCALED: i64 = 200_000;

/// The hardware clock is rewritten at most once per this interval (10 min).
pub const RTC_UPDATE_INTERVAL_NS: i64 = 600_000_000_000;

/// An NTP offset above this magnitude steps the clock (50 ms).
pub const NTP_STEP_THRESHOLD_MS: u64 = 50;

/// A discontinuous clock correction: move the wallclock by `magnitude_ns`
/// in the direction of `sign`.
#[derive(Debug, Clone, Copy, PartialEq, Eq, Structural)]
pub struct ClockStep {
    pub magnitude_ns: i64,
    pub sign: i8,
}

/// What the platform clock should do after one controller decision.
#[derive(Debug, Clone, Copy, PartialEq, Eq, Structural)]
pub struct ControllerAction {
    pub step: Option<ClockStep>,
    pub slew_mppm: Option<i64>,
    pub update_rtc: bool,
}

/// The action that leaves the clock alone.
pub open spec fn action_none() -> ControllerAction {
    ControllerAction { step: None, slew_mppm: None, update_rtc: false }
}

impl ControllerAction {
    /// The action that leaves the clock alone.
    pub fn none() -> (r: Self)
        ensures
            r == action_none(),
    {
        ControllerAction { step: None, slew_mppm: None, update_rtc: false }
    }
}

/// The sub-second phase offset of a `(T1, T2)` pair, normalized into
/// `(-5*10^8, +5*10^8]`: only the fractional second is meaningful because the
/// sender's clock runs from power-on and differs from wallclock by whole
/// seconds.
pub open spec fn spec_phase_offset(t1_ns: int, t2_ns: int) -> int {
    let d = t2_ns % 1_000_000_000 - t1_ns % 1_000_000_000;
    if d > 500_000_000 {
        d - 1_000_000_000
    } else if d <= -500_000_000 {
        d + 1_000_000_000
    } else {
        d
    }
}

/// Computes the normalized sub-second phase offset `T2 - T1`. The result
/// always lies in `(-5*10^8, +5*10^8]`.
pub fn normalize_phase_offset(t1_ns: i64, t2_ns: i64) -> (r: i64)
    requires
        t1_ns >= 0,
        t2_ns >= 0,
    ensures
        r == spec_phase_offset(t1_ns as int, t2_ns as int),
        -500_000_000 < r <= 500_000_000,
{
    let d: i64 = t2_ns % 1_000_000_000 - t1_ns % 1_000_000_000;
    if d > 500_000_000 {
        d - 1_000_000_000
    } else if d <= -500_000_000 {
        d + 1_000_000_000
    } else {
        d
    }
}

/// Whether an NTP offset of the given magnitude warrants a clock step:
/// only offsets of more than 50 whole milliseconds do.
pub fn ntp_step_needed(offset_ns: u64) -> (r: bool)
    ensures
        r == (offset_ns / 1_000_000 > NTP_STEP_THRESHOLD_MS),
{
    offset_ns / 1_000_000 > NTP_STEP_THRESHOLD_MS
}

/// The PTP controller state. `prev_t1_ns`/`prev_t2_ns` are zero exactly when
/// no prior valid pair exists; `clock_settled` moves only from false to true
/// between resets; `epoch_aligned` is set at first lock.
pub struct PtpController {
    pub servo: PiServo,
    pub pairer: SyncPairer,
    pub prev_t1_ns: i64,
    pub prev_t2_ns: i64,
    pub valid_count: u64,
    pub clock_settled: bool,
    pub settling_threshold: u64,
    pub epoch_aligned: bool,
    pub initial_epoch_offset_ns: i64,
    pub last_phase_offset_ns: i64,
    pub last_adj_mppm: i64,
    pub last_gm_uuid: Option<u64>,
    pub last_rtc_update_ns: i64,
    pub min_delta_ns: i64,
    pub step_threshold_ns: i64,
    pub max_freq_adj_mppm: i64,
}

/// Whether a previous valid pair exists.
pub open spec fn spec_has_prev(c: PtpController) -> bool {
    c.prev_t1_ns > 0 && c.prev_t2_ns > 0
}

/// Whether the deltas against the previous pair are plausible.
pub open spec fn spec_deltas_ok(c: PtpController, t1_ns: int, t2_ns: int) -> bool {
    &&& c.min_delta_ns <= t1_ns - c.prev_t1_ns <= MAX_DELTA_NS
    &&& c.min_delta_ns <= t2_ns - c.prev_t2_ns <= MAX_DELTA_NS
}

/// Whether the pair is rejected by the plausibility filter.
pub open spec fn spec_rejected(c: PtpController, t1_ns: int, t2_ns: int) -> bool {
    spec_has_prev(c) && !spec_deltas_ok(c, t1_ns, t2_ns)
}

/// The valid-pair count after an accepted pair (saturating).
pub open spec fn spec_next_count(c: PtpController) -> int {
    if c.valid_count == u64::MAX {
        c.valid_count as int
    } else {
        c.valid_count + 1
    }
}

/// Whether this pair reaches (or keeps) the locked state.
pub open spec fn spec_locks(c: PtpController, t1_ns: int, t2_ns: int) -> bool {
    !spec_rejected(c, t1_ns, t2_ns) && spec_next_count(c) >= c.settling_threshold
}

/// Whether this pair is the first to lock.
pub open spec fn spec_first_lock(c: PtpController, t1_ns: int, t2_ns: int) -> bool {
    spec_locks(c, t1_ns, t2_ns) && !c.clock_settled
}

/// The magnitude of an offset.
pub open spec fn spec_abs(v: int) -> int {
    if v >= 0 {
        v
    } else {
        -v
    }
}

/// Whether the first lock steps the clock instead of slewing: the phase
/// magnitude exceeds the step threshold.
pub open spec fn spec_steps(c: PtpController, t1_ns: int, t2_ns: int) -> bool {
    spec_first_lock(c, t1_ns, t2_ns) && spec_abs(spec_phase_offset(t1_ns, t2_ns))
        > c.step_threshold_ns
}

/// The slew this pair produces when locked: the servo output, clamped to the
/// configured maximum frequency adjustment.
pub open spec fn spec_slew(c: PtpController, t1_ns: int, t2_ns: int) -> int {
    clamped(servo_output(c.servo, spec_phase_offset(t1_ns, t2_ns)), c.max_freq_adj_mppm as int)
}

/// Whether the periodic hardware-clock write is due.
pub open spec fn spec_rtc_due(c: PtpController, now_mono_ns: int) -> bool {
    now_mono_ns - c.last_rtc_update_ns > RTC_UPDATE_INTERVAL_NS
}

/// The full transition one `(T1, T2)` pair causes, over every controller
/// field except the pairer table (stated separately by each caller):
/// rejection updates only the previous pair, settling counts the pair,
/// a large first-lock phase steps and returns to the initial state, and a
/// locked pair runs the servo and slews.
pub open spec fn handle_transition(
    c: PtpController,
    d: PtpController,
    r: ControllerAction,
    t1_ns: int,
    t2_ns: int,
    now_mono_ns: int,
) -> bool {
    let phase = spec_phase_offset(t1_ns, t2_ns);
    &&& d.settling_threshold == c.settling_threshold
    &&& d.min_delta_ns == c.min_delta_ns
    &&& d.step_threshold_ns == c.step_threshold_ns
    &&& d.max_freq_adj_mppm == c.max_freq_adj_mppm
    &&& d.servo.kp_scaled == c.servo.kp_scaled
    &&& d.servo.ki_scaled == c.servo.ki_scaled
    &&& d.servo.max_integral_mppm == c.servo.max_integral_mppm
    &&& d.last_phase_offset_ns == phase
    &&& if spec_rejected(c, t1_ns, t2_ns) {
        &&& r == action_none()
        &&& d.prev_t1_ns == t1_ns && d.prev_t2_ns == t2_ns
        &&& d.valid_count == c.valid_count
        &&& d.clock_settled == c.clock_settled
        &&& d.servo.integral_mppm == c.servo.integral_mppm
        &&& d.epoch_aligned == c.epoch_aligned
        &&& d.initial_epoch_offset_ns == c.initial_epoch_offset_ns
        &&& d.last_adj_mppm == c.last_adj_mppm
        &&& d.last_rtc_update_ns == c.last_rtc_update_ns
    } else if !spec_locks(c, t1_ns, t2_ns) {
        &&& r == action_none()
        &&& d.prev_t1_ns == t1_ns && d.prev_t2_ns == t2_ns
        &&& d.valid_count == spec_next_count(c)
        &&& !d.clock_settled
        &&& d.servo.integral_mppm == c.servo.integral_mppm
        &&& d.epoch_aligned == c.epoch_aligned
        &&& d.initial_epoch_offset_ns == c.initial_epoch_offset_ns
        &&& d.last_adj_mppm == c.last_adj_mppm
        &&& d.last_rtc_update_ns == c.last_rtc_update_ns
    } else if spec_steps(c, t1_ns, t2_ns) {
        &&& r.step == Some(
            ClockStep {
                magnitude_ns: spec_abs(phase) as i64,
                sign: if phase > 0 {
                    -1 as i8
                } else {
                    1 as i8
                },
            },
        )
        &&& r.slew_mppm.is_none()
        &&& !r.update_rtc
        &&& d.prev_t1_ns == 0 && d.prev_t2_ns == 0
        &&& d.valid_count == 0
        &&& !d.clock_settled
        &&& d.servo.integral_mppm == 0
        &&& d.epoch_aligned
        &&& d.initial_epoch_offset_ns == t2_ns - t1_ns
        &&& d.last_adj_mppm == c.last_adj_mppm
        &&& d.last_rtc_update_ns == c.last_rtc_update_ns
    } else {
        let first = !c.clock_settled;
        let due = first || spec_rtc_due(c, now_mono_ns);
        &&& r.step.is_none()
        &&& r.slew_mppm == Some(spec_slew(c, t1_ns, t2_ns) as i64)
        &&& r.update_rtc == due
        &&& d.prev_t1_ns == t1_ns && d.prev_t2_ns == t2_ns
        &&& d.valid_count == spec_next_count(c)
        &&& d.clock_settled
        &&& d.servo.integral_mppm == servo_integral_next(c.servo, phase)
        &&& d.epoch_aligned == (first || c.epoch_aligned)
        &&& d.initial_epoch_offset_ns == if first {
            t2_ns - t1_ns
        } else {
            c.initial_epoch_offset_ns as int
        }
        &&& d.last_adj_mppm == spec_slew(c, t1_ns, t2_ns)
        &&& d.last_rtc_update_ns == if due {
            now_mono_ns
        } else {
            c.last_rtc_update_ns as int
        }
    }
}

impl PtpController {
    /// The controller's invariant: servo and pairer are well formed, the
    /// bookkeeping timestamps are non-negative, the tunables lie in the
    /// ranges the arithmetic needs, and a settled clock has seen at least
    /// `settling_threshold` valid pairs.
    pub open spec fn wf(&self) -> bool {
        &&& self.servo.wf()
        &&& self.pairer.wf()
        &&& self.prev_t1_ns >= 0
        &&& self.prev_t2_ns >= 0
        &&& self.last_rtc_update_ns >= 0
        &&& self.min_delta_ns >= 0
        &&& 0 <= self.step_threshold_ns
        &&& 0 <= self.max_freq_adj_mppm <= 1_000_000_000
        &&& self.settling_threshold >= 1
        &&& (self.clock_settled ==> self.valid_count >= self.settling_threshold)
        &&& (self.last_gm_uuid matches Some(k) ==> k < 0x1000000000000)
        &&& -500_000_000 < self.last_phase_offset_ns <= 500_000_000
    }

    /// A controller in the initial state, with the default tunables the
    /// engine ships with.
    pub fn new() -> (c: Self)
        ensures
            c.wf(),
            c.servo.integral_mppm == 0,
            c.servo.kp_scaled == DEFAULT_KP_SCALED,
            c.servo.ki_scaled == DEFAULT_KI_SCALED,
            c.pairer.view() =~= Map::<u16, PendingSync>::empty(),
            c.prev_t1_ns == 0 && c.prev_t2_ns == 0,
            c.valid_count == 0,
            !c.clock_settled,
            c.settling_threshold == 1,
            !c.epoch_aligned,
            c.initial_epoch_offset_ns == 0,
            c.last_phase_offset_ns == 0,
            c.last_adj_mppm == 0,
            c.last_gm_uuid.is_none(),
            c.last_rtc_update_ns == 0,
            c.min_delta_ns == DEFAULT_MIN_DELTA_NS,
            c.step_threshold_ns == DEFAULT_STEP_THRESHOLD_NS,
            c.max_freq_adj_mppm == DEFAULT_MAX_FREQ_ADJ_MPPM,
    {
        PtpController {
            servo: PiServo::new(DEFAULT_KP_SCALED, DEFAULT_KI_SCALED),
            pairer: SyncPairer::new(),
            prev_t1_ns: 0,
            prev_t2_ns: 0,
            valid_count: 0,
            clock_settled: false,
            settling_threshold: 1,
            epoch_aligned: false,
            initial_epoch_offset_ns: 0,
            last_phase_offset_ns: 0,
            last_adj_mppm: 0,
            last_gm_uuid: None,
            last_rtc_update_ns: 0,
            min_delta_ns: DEFAULT_MIN_DELTA_NS,
            step_threshold_ns: DEFAULT_STEP_THRESHOLD_NS,
            max_freq_adj_mppm: DEFAULT_MAX_FREQ_ADJ_MPPM,
        }
    }

    /// A controller in the initial state whose gains, adjustment clamp,
    /// minimum delta and step threshold come from the configuration.
    pub fn from_config(cfg: &crate::config::SystemConfig) -> (c: Self)
        requires
            cfg.wf(),
        ensures
            c.wf(),
            c.servo.integral_mppm == 0,
            c.servo.kp_scaled == cfg.servo.kp_scaled,
            c.servo.ki_scaled == cfg.servo.ki_scaled,
            c.pairer.view() =~= Map::<u16, PendingSync>::empty(),
            c.prev_t1_ns == 0 && c.prev_t2_ns == 0,
            c.valid_count == 0,
            !c.clock_settled,
            c.settling_threshold == 1,
            !c.epoch_aligned,
            c.last_gm_uuid.is_none(),
            c.servo.max_integral_mppm == cfg.servo.max_integral_mppm,
            c.min_delta_ns == cfg.filters.min_delta_ns,
            c.step_threshold_ns == cfg.filters.step_threshold_ns,
            c.max_freq_adj_mppm == cfg.servo.max_freq_adj_mppm,
    {
        let mut c = Self::new();
        c.servo = PiServo::new(cfg.servo.kp_scaled, cfg.servo.ki_scaled);
        c.servo.max_integral_mppm = cfg.servo.max_integral_mppm;
        c.min_delta_ns = cfg.filters.min_delta_ns;
        c.step_threshold_ns = cfg.filters.step_threshold_ns;
        c.max_freq_adj_mppm = cfg.servo.max_freq_adj_mppm;
        c
    }

    /// The snapshot the status publisher shows: the last phase offset, the
    /// last applied adjustment, the grandmaster, and whether the clock has
    /// settled, stamped with the given wallclock second.
    pub fn status(&self, updated_ts: u64) -> (s: crate::status::SyncStatus)
        requires
            self.wf(),
        ensures
            s.offset_ns == self.last_phase_offset_ns,
            s.drift_mppm == self.last_adj_mppm,
            s.gm_uuid == self.last_gm_uuid,
            s.settled == self.clock_settled,
            s.updated_ts == updated_ts,
            s.wf(),
    {
        crate::status::SyncStatus {
            offset_ns: self.last_phase_offset_ns,
            drift_mppm: self.last_adj_mppm,
            gm_uuid: self.last_gm_uuid,
            settled: self.clock_settled,
            updated_ts,
        }
    }

    /// Sets how many valid pairs must accumulate before the controller
    /// locks. A threshold above the pairs already seen is refused once the
    /// clock has settled.
    pub fn set_settling_threshold(&mut self, threshold: u64)
        requires
            old(self).wf(),
            threshold >= 1,
            old(self).clock_settled ==> old(self).valid_count >= threshold,
        ensures
            final(self).wf(),
            final(self).settling_threshold == threshold,
            *final(self) == (PtpController { settling_threshold: threshold, ..*old(self) }),
    {
        self.settling_threshold = threshold;
    }

    /// Returns the filter to the initial state: no pairs seen, not settled.
    fn reset_filter(&mut self)
        ensures
            final(self).valid_count == 0,
            !final(self).clock_settled,
            final(self).prev_t1_ns == 0,
            final(self).prev_t2_ns == 0,
            final(self).servo == old(self).servo,
            final(self).pairer == old(self).pairer,
            final(self).settling_threshold == old(self).settling_threshold,
            final(self).epoch_aligned == old(self).epoch_aligned,
            final(self).initial_epoch_offset_ns == old(self).initial_epoch_offset_ns,
            final(self).last_phase_offset_ns == old(self).last_phase_offset_ns,
            final(self).last_adj_mppm == old(self).last_adj_mppm,
            final(self).last_gm_uuid == old(self).last_gm_uuid,
            final(self).last_rtc_update_ns == old(self).last_rtc_update_ns,
            final(self).min_delta_ns == old(self).min_delta_ns,
            final(self).step_threshold_ns == old(self).step_threshold_ns,
            final(self).max_freq_adj_mppm == old(self).max_freq_adj_mppm,
    {
        self.valid_count = 0;
        self.clock_settled = false;
        self.prev_t1_ns = 0;
        self.prev_t2_ns = 0;
    }

    /// Consumes one valid `(T1, T2)` pair and decides the clock action, as
    /// `handle_transition` states: store the phase, filter implausible
    /// deltas, settle, step once on a large first-lock phase, and otherwise
    /// run the servo. The pairer table is emptied exactly when the pair
    /// steps the clock.
    pub fn handle_sync_pair(&mut self, t1_ns: i64, t2_ns: i64, now_mono_ns: i64) -> (r:
        ControllerAction)
        requires
            old(self).wf(),
            t1_ns >= 0,
            t2_ns >= 0,
            now_mono_ns >= 0,
        ensures
            final(self).wf(),
            handle_transition(
                *old(self),
                *final(self),
                r,
                t1_ns as int,
                t2_ns as int,
                now_mono_ns as int,
            ),
            spec_steps(*old(self), t1_ns as int, t2_ns as int) ==> final(self).pairer.view()
                =~= Map::<u16, PendingSync>::empty(),
            !spec_steps(*old(self), t1_ns as int, t2_ns as int) ==> final(self).pairer == old(
                self,
            ).pairer,
            final(self).last_gm_uuid == old(self).last_gm_uuid,
    {
        let phase: i64 = normalize_phase_offset(t1_ns, t2_ns);
        self.last_phase_offset_ns = phase;

        if self.prev_t1_ns > 0 && self.prev_t2_ns > 0 {
            let delta_master: i64 = t1_ns - self.prev_t1_ns;
            let delta_slave: i64 = t2_ns - self.prev_t2_ns;
            if delta_master < self.min_delta_ns || delta_master > MAX_DELTA_NS
                || delta_slave < self.min_delta_ns || delta_slave > MAX_DELTA_NS {
                self.prev_t1_ns = t1_ns;
                self.prev_t2_ns = t2_ns;
                return ControllerAction::none();
            }
        }

        if self.valid_count < u64::MAX {
            self.valid_count = self.valid_count + 1;
        }

        if self.valid_count < self.settling_threshold {
            self.prev_t1_ns = t1_ns;
            self.prev_t2_ns = t2_ns;
            return ControllerAction::none();
        }

        let first = !self.clock_settled;
        let mut update_rtc = false;
        if first {
            self.clock_settled = true;
            self.initial_epoch_offset_ns = t2_ns - t1_ns;
            self.epoch_aligned = true;

            let magnitude: i64 = if phase >= 0 {
                phase
            } else {
                -phase
            };
            if magnitude > self.step_threshold_ns {
                let sign: i8 = if phase > 0 {
                    -1
                } else {
                    1
                };
                self.reset_filter();
                self.servo.reset();
                self.pairer.reset();
                return ControllerAction {
                    step: Some(ClockStep { magnitude_ns: magnitude, sign }),
                    slew_mppm: None,
                    update_rtc: false,
                };
            }
            update_rtc = true;
        }

        let adj_mppm: i64 = self.servo.sample(phase);
        let clamped_adj: i64 = if adj_mppm > self.max_freq_adj_mppm {
            self.max_freq_adj_mppm
        } else if adj_mppm < -self.max_freq_adj_mppm {
            -self.max_freq_adj_mppm
        } else {
            adj_mppm
        };
        self.last_adj_mppm = clamped_adj;

        if !update_rtc && now_mono_ns - self.last_rtc_update_ns > RTC_UPDATE_INTERVAL_NS {
            update_rtc = true;
        }
        if update_rtc {
            self.last_rtc_update_ns = now_mono_ns;
        }

        self.prev_t1_ns = t1_ns;
        self.prev_t2_ns = t2_ns;

        ControllerAction { step: None, slew_mppm: Some(clamped_adj), update_rtc }
    }

    /// Recovers locked servo operation after a commanded clock step could
    /// not be applied: the embedding loop calls this instead of leaving the
    /// controller in the initial state. The stored phase offset of the pair
    /// that asked for the step is fed to the servo, the clock is slewed, the
    /// hardware-clock write is scheduled, and the controller counts as
    /// settled again.
    pub fn step_failed(&mut self, now_mono_ns: i64) -> (r: ControllerAction)
        requires
            old(self).wf(),
            now_mono_ns >= 0,
        ensures
            final(self).wf(),
            r.step.is_none(),
            r.slew_mppm == Some(
                clamped(
                    servo_output(old(self).servo, old(self).last_phase_offset_ns as int),
                    old(self).max_freq_adj_mppm as int,
                ) as i64,
            ),
            r.update_rtc,
            final(self).clock_settled,
            final(self).valid_count == if old(self).valid_count >= old(self).settling_threshold {
                old(self).valid_count as int
            } else {
                old(self).settling_threshold as int
            },
            final(self).servo.integral_mppm == servo_integral_next(
                old(self).servo,
                old(self).last_phase_offset_ns as int,
            ),
            final(self).servo.kp_scaled == old(self).servo.kp_scaled,
            final(self).servo.ki_scaled == old(self).servo.ki_scaled,
            final(self).servo.max_integral_mppm == old(self).servo.max_integral_mppm,
            final(self).last_adj_mppm == r.slew_mppm.unwrap(),
            final(self).last_rtc_update_ns == now_mono_ns,
            final(self).prev_t1_ns == old(self).prev_t1_ns,
            final(self).prev_t2_ns == old(self).prev_t2_ns,
            final(self).last_phase_offset_ns == old(self).last_phase_offset_ns,
            final(self).epoch_aligned == old(self).epoch_aligned,
            final(self).initial_epoch_offset_ns == old(self).initial_epoch_offset_ns,
            final(self).last_gm_uuid == old(self).last_gm_uuid,
            final(self).pairer == old(self).pairer,
            final(self).settling_threshold == old(self).settling_threshold,
            final(self).min_delta_ns == old(self).min_delta_ns,
            final(self).step_threshold_ns == old(self).step_threshold_ns,
            final(self).max_freq_adj_mppm == old(self).max_freq_adj_mppm,
    {
        self.clock_settled = true;
        if self.valid_count < self.settling_threshold {
            self.valid_count = self.settling_threshold;
        }

        let adj_mppm: i64 = self.servo.sample(self.last_phase_offset_ns);
        let clamped_adj: i64 = if adj_mppm > self.max_freq_adj_mppm {
            self.max_freq_adj_mppm
        } else if adj_mppm < -self.max_freq_adj_mppm {
            -self.max_freq_adj_mppm
        } else {
            adj_mppm
        };
        self.last_adj_mppm = clamped_adj;
        self.last_rtc_update_ns = now_mono_ns;

        ControllerAction { step: None, slew_mppm: Some(clamped_adj), update_rtc: true }
    }
}

/// All controller fields but the pairer table are equal.
pub open spec fn same_but_pairer(c: PtpController, d: PtpController) -> bool {
    &&& d.servo == c.servo
    &&& d.prev_t1_ns == c.prev_t1_ns && d.prev_t2_ns == c.prev_t2_ns
    &&& d.valid_count == c.valid_count
    &&& d.clock_settled == c.clock_settled
    &&& d.settling_threshold == c.settling_threshold
    &&& d.epoch_aligned == c.epoch_aligned
    &&& d.initial_epoch_offset_ns == c.initial_epoch_offset_ns
    &&& d.last_phase_offset_ns == c.last_phase_offset_ns
    &&& d.last_adj_mppm == c.last_adj_mppm
    &&& d.last_gm_uuid == c.last_gm_uuid
    &&& d.last_rtc_update_ns == c.last_rtc_update_ns
    &&& d.min_delta_ns == c.min_delta_ns
    &&& d.step_threshold_ns == c.step_threshold_ns
    &&& d.max_freq_adj_mppm == c.max_freq_adj_mppm
}

/// The pairer table after the end-of-message bound check: garbage collected
/// exactly when the count had passed the soft bound, untouched otherwise.
pub open spec fn pairer_outcome(
    m_before: Map<u16, PendingSync>,
    count_before: int,
    p_after: SyncPairer,
    now_ns: int,
) -> bool {
    if count_before > PAIRER_SOFT_BOUND as int {
        crate::pairer::gc_relation(m_before, p_after.view(), now_ns)
    } else {
        p_after.view() =~= m_before
    }
}

impl PtpController {
    /// Consumes one received packet: decodes the PTPv1 header, records a
    /// Sync under its sequence id, completes a FollowUp against its pending
    /// Sync (same sequence id and source UUID) and feeds the resulting
    /// `(T1, T2)` pair to `handle_sync_pair`, ignores every other message,
    /// and garbage-collects the pending table when it has outgrown its soft
    /// bound. `t2_ns` is the receive wallclock of the packet; `now_mono_ns`
    /// the current monotonic time.
    pub fn process_packet(&mut self, data: &[u8], t2_ns: i64, now_mono_ns: i64) -> (r:
        ControllerAction)
        requires
            old(self).wf(),
            t2_ns >= 0,
            now_mono_ns >= 0,
        ensures
            final(self).wf(),
            ({
                let s = data@;
                let c = *old(self);
                let d = *final(self);
                if s.len() < 36 {
                    r == action_none() && d == c
                } else if control_of(s[32]) == PtpV1Control::Sync {
                    let entry = PendingSync {
                        sequence_id: be16(s[30], s[31]) as u16,
                        t2_ns,
                        source_uuid: uuid_val(s.subrange(22, 28)) as u64,
                    };
                    let m1 = c.pairer.view().insert(entry.sequence_id, entry);
                    let cnt1 = c.pairer.spec_count() + (if c.pairer.view().contains_key(
                        entry.sequence_id,
                    ) {
                        0int
                    } else {
                        1int
                    });
                    r == action_none() && same_but_pairer(c, d) && pairer_outcome(
                        m1,
                        cnt1,
                        d.pairer,
                        t2_ns as int,
                    )
                } else if control_of(s[32]) == PtpV1Control::FollowUp && s.len() >= 52 {
                    let asid = be16(s[42], s[43]) as u16;
                    let ukey = uuid_val(s.subrange(22, 28)) as u64;
                    let m = c.pairer.view();
                    if m.contains_key(asid) && m[asid].source_uuid == ukey {
                        let t1 = be32(s[44], s[45], s[46], s[47]) * 1_000_000_000 + be32(
                            s[48],
                            s[49],
                            s[50],
                            s[51],
                        );
                        let t2p = m[asid].t2_ns;
                        let m2 = m.remove(asid);
                        &&& handle_transition(c, d, r, t1, t2p as int, now_mono_ns as int)
                        &&& d.last_gm_uuid == Some(ukey)
                        &&& if spec_steps(c, t1, t2p as int) {
                            d.pairer.view() =~= Map::<u16, PendingSync>::empty()
                        } else {
                            pairer_outcome(
                                m2,
                                c.pairer.spec_count() - 1,
                                d.pairer,
                                t2_ns as int,
                            )
                        }
                    } else {
                        r == action_none() && same_but_pairer(c, d) && pairer_outcome(
                            m,
                            c.pairer.spec_count() as int,
                            d.pairer,
                            t2_ns as int,
                        )
                    }
                } else {
                    r == action_none() && same_but_pairer(c, d) && pairer_outcome(
                        c.pairer.view(),
                        c.pairer.spec_count() as int,
                        d.pairer,
                        t2_ns as int,
                    )
                }
            }),
    {
        if data.len() < PtpV1Header::SIZE {
            return ControllerAction::none();
        }
        let header = match PtpV1Header::parse(data) {
            Ok(h) => h,
            Err(_) => {
                return ControllerAction::none();
            },
        };
        let mut action = ControllerAction::none();
        match header.message_type {
            PtpV1Control::Sync => {
                let key = uuid_key(&header.source_uuid);
                proof {
                    assert(uuid_val(header.source_uuid@) == uuid_val(data@.subrange(22, 28)));
                }
                self.pairer.record_sync(header.sequence_id, t2_ns, key);
            },
            PtpV1Control::FollowUp => {
                if data.len() >= PtpV1Header::SIZE + PtpV1FollowUpBody::SIZE {
                    let body_slice = vstd::slice::slice_subrange(
                        data,
                        PtpV1Header::SIZE,
                        data.len(),
                    );
                    if let Ok(body) = PtpV1FollowUpBody::parse(body_slice) {
                        let key = uuid_key(&header.source_uuid);
                        proof {
                            assert(uuid_val(header.source_uuid@) == uuid_val(
                                data@.subrange(22, 28),
                            ));
                            assert(body_slice@[6] == data@[42] && body_slice@[7] == data@[43]);
                            assert(body_slice@[8] == data@[44] && body_slice@[9] == data@[45]
                                && body_slice@[10] == data@[46] && body_slice@[11] == data@[47]);
                            assert(body_slice@[12] == data@[48] && body_slice@[13] == data@[49]
                                && body_slice@[14] == data@[50] && body_slice@[15] == data@[51]);
                        }
                        match self.pairer.match_followup(body.associated_sequence_id, key) {
                            Some(stored_t2) => {
                                let t1 = body.precise_origin_timestamp.to_nanos();
                                action = self.handle_sync_pair(t1, stored_t2, now_mono_ns);
                                self.last_gm_uuid = Some(key);
                            },
                            None => {},
                        }
                    }
                }
            },
            _ => {},
        }
        if self.pairer.len() > PAIRER_SOFT_BOUND {
            self.pairer.gc(t2_ns);
        }
        action
    }
}

/// The order the median filter sorts by.
pub open spec fn le_i64() -> spec_fn(i64, i64) -> bool {
    |x: i64, y: i64| x <= y
}

/// The window in ascending order.
pub open spec fn spec_sorted_window(s: Seq<i64>) -> Seq<i64> {
    s.sort_by(le_i64())
}

/// The lower median of a window: the middle element of the window sorted.
pub open spec fn spec_median(s: Seq<i64>) -> i64 {
    spec_sorted_window(s)[((s.len() - 1) / 2) as int]
}

/// `<=` on 64-bit integers is a total ordering.
proof fn lemma_le_i64_total_ordering()
    ensures
        total_ordering(le_i64()),
{
    assert forall|x: i64| #[trigger] le_i64()(x, x) by {}
}

/// Inserting an element anywhere in a sequence adds exactly it to the
/// sequence's multiset.
proof fn lemma_insert_to_multiset(s: Seq<i64>, j: int, x: i64)
    requires
        0 <= j <= s.len(),
    ensures
        s.insert(j, x).to_multiset() =~= s.to_multiset().insert(x),
{
    broadcast use vstd::seq_lib::group_to_multiset_ensures;
    broadcast use vstd::multiset::group_multiset_axioms;

    let t = s.insert(j, x);
    assert(t.remove(j) =~= s);
    assert(t.remove(j).to_multiset() =~= t.to_multiset().remove(t[j]));
    assert(t[j] == x);
    assert(t.contains(x));
    assert(t.to_multiset().count(x) > 0);
    assert forall|a: i64| t.to_multiset().count(a) == s.to_multiset().insert(x).count(a) by {
        assert(s.to_multiset() =~= t.to_multiset().remove(x));
    }
}

/// The median of a window of phase-offset samples: the middle value (lower
/// middle for an even window) of the samples in ascending order. A jittery
/// user-space timestamp source feeds the servo this instead of each raw
/// sample.
pub fn median_of(samples: &Vec<i64>) -> (r: i64)
    requires
        samples@.len() > 0,
    ensures
        r == spec_median(samples@),
{
    proof {
        lemma_le_i64_total_ordering();
        broadcast use vstd::seq_lib::group_to_multiset_ensures;
    }
    let n = samples.len();
    let mut sorted: Vec<i64> = Vec::new();
    let mut i: usize = 0;
    while i < n
        invariant
            n == samples@.len(),
            0 <= i <= n,
            sorted@.len() == i,
            sorted_by(sorted@, le_i64()),
            sorted@.to_multiset() == samples@.subrange(0, i as int).to_multiset(),
        decreases n - i,
    {
        let x = samples[i];
        let ghost pre = sorted@;
        let mut j: usize = 0;
        while j < sorted.len() && sorted[j] <= x
            invariant
                sorted@ == pre,
                0 <= j <= pre.len(),
                forall|a: int| 0 <= a < j ==> #[trigger] pre[a] <= x,
            decreases pre.len() - j,
        {
            j += 1;
        }
        sorted.insert(j, x);
        proof {
            broadcast use vstd::seq_lib::group_to_multiset_ensures;

            let post = sorted@;
            assert(post == pre.insert(j as int, x));
            assert(sorted_by(post, le_i64())) by {
                assert forall|a: int, b: int| 0 <= a < b < post.len() implies #[trigger] le_i64()(
                    post[a],
                    post[b],
                ) by {
                    if b < j {
                        assert(post[a] == pre[a] && post[b] == pre[b]);
                        assert(sorted_by(pre, le_i64()));
                        assert(le_i64()(pre[a], pre[b]));
                    } else if b == j {
                        assert(post[a] == pre[a] && post[b] == x);
                        assert(pre[a] <= x);
                    } else if a < j {
                        assert(post[a] == pre[a] && post[b] == pre[b - 1]);
                        if a < b - 1 {
                            assert(le_i64()(pre[a], pre[b - 1]));
                        }
                    } else if a == j {
                        assert(post[a] == x && post[b] == pre[b - 1]);
                        assert(j < pre.len() ==> !(pre[j as int] <= x));
                        if (j as int) < b - 1 {
                            assert(le_i64()(pre[j as int], pre[b - 1]));
                        }
                    } else {
                        assert(post[a] == pre[a - 1] && post[b] == pre[b - 1]);
                        assert(le_i64()(pre[a - 1], pre[b - 1]));
                    }
                }
            }
            lemma_insert_to_multiset(pre, j as int, x);
            assert(samples@.subrange(0, i + 1).drop_last() =~= samples@.subrange(0, i as int));
            assert(samples@.subrange(0, i + 1) =~= samples@.subrange(0, i as int).push(
                samples@[i as int],
            ));
            assert(samples@.subrange(0, i + 1).to_multiset() =~= samples@.subrange(
                0,
                i as int,
            ).to_multiset().insert(samples@[i as int]));
        }
        i += 1;
    }
    proof {
        assert(samples@.subrange(0, n as int) =~= samples@);
        samples@.lemma_sort_by_ensures(le_i64());
        vstd::seq_lib::lemma_sorted_unique(sorted@, samples@.sort_by(le_i64()), le_i64());
        assert(sorted@ == spec_sorted_window(samples@));
    }
    let m = sorted[(n - 1) / 2];
    m
}

/// On a zero phase offset a well-formed controller with a quiet servo never
/// steps, and the slew it commands is exactly zero; the servo's integral also
/// stays at zero, so a whole zero-offset sequence keeps producing zero
/// adjustments once the settling threshold is reached.
pub proof fn lemma_zero_offset_no_step(c: PtpController, t1_ns: int, t2_ns: int)
    requires
        c.wf(),
        c.servo.integral_mppm == 0,
        spec_phase_offset(t1_ns, t2_ns) == 0,
    ensures
        !spec_steps(c, t1_ns, t2_ns),
        spec_slew(c, t1_ns, t2_ns) == 0,
        servo_integral_next(c.servo, spec_phase_offset(t1_ns, t2_ns)) == 0,
{
}

/// The induction step behind the zero-offset law: across any transition a
/// zero-phase pair causes, a quiet servo stays quiet, no step is issued, and
/// any slew that is applied is exactly zero. By induction, a whole monotone
/// sequence of zero-offset pairs settles within the threshold and never
/// disturbs the clock.
pub proof fn lemma_zero_offset_sequence_step(
    c: PtpController,
    d: PtpController,
    r: ControllerAction,
    t1_ns: int,
    t2_ns: int,
    now_mono_ns: int,
)
    requires
        c.wf(),
        c.servo.integral_mppm == 0,
        spec_phase_offset(t1_ns, t2_ns) == 0,
        handle_transition(c, d, r, t1_ns, t2_ns, now_mono_ns),
    ensures
        d.servo.integral_mppm == 0,
        r.step.is_none(),
        r.slew_mppm.is_none() || r.slew_mppm == Some(0i64),
{
    lemma_zero_offset_no_step(c, t1_ns, t2_ns);
}

} // verus!
