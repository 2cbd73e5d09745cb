//! Platform clock arithmetic: the conversions between the engine's
//! milli-PPM adjustments and each platform's native frequency units, and the
//! step arithmetic, all exact. The system calls that apply them live outside
//! the crate; its contract is "positive PPM = speed up", and any inversion a
//! platform's API needs stays with the caller of these helpers.

use vstd::prelude::*;

use crate::servo::tdiv1000;

verus! {

/// Microseconds per second, the unit of a timeval's fractional field.
pub const USEC_PER_SEC: i64 = 1_000_000;

/// State captured when clock discipline starts on a kernel whose frequency
/// offset is set through a scaled-PPM field: the original value, restored on
/// shutdown.
#[derive(Debug, Clone, Copy, PartialEq, Eq, Structural)]
pub struct LinuxClock {
    pub original_freq: i64,
}

impl LinuxClock {
    /// Records the frequency offset that was in force at startup.
    pub fn from_initial_freq(freq: i64) -> (c: Self)
        ensures
            c.original_freq == freq,
    {
        LinuxClock { original_freq: freq }
    }
}

/// State captured when clock discipline starts on a kernel that paces the
/// wallclock by adding an increment per timer interrupt: the running
/// adjustment, the interrupt increment (used as the nominal rate) and
/// whether adjustment was disabled, all restored on shutdown.
#[derive(Debug, Clone, Copy, PartialEq, Eq, Structural)]
pub struct WindowsClock {
    pub original_adjustment: u32,
    pub original_increment: u32,
    pub original_disabled: bool,
    pub nominal_frequency: u32,
}

impl WindowsClock {
    /// Records the adjustment state that was in force at startup; the
    /// reported increment becomes the nominal rate.
    pub fn from_initial_state(adjustment: u32, increment: u32, disabled: bool) -> (c: Self)
        ensures
            c.original_adjustment == adjustment,
            c.original_increment == increment,
            c.original_disabled == disabled,
            c.nominal_frequency == increment,
    {
        WindowsClock {
            original_adjustment: adjustment,
            original_increment: increment,
            original_disabled: disabled,
            nominal_frequency: increment,
        }
    }
}

/// The adjustment value that paces the clock at `nominal * (1 + mppm*10^-9)`:
/// a positive milli-PPM yields a larger per-interrupt increment and speeds
/// the wallclock up. The result is clamped into the 32-bit field the API
/// takes.
pub open spec fn spec_paced_adjustment(nominal: u32, adj_mppm: int) -> int {
    let prod = nominal * adj_mppm;
    let delta = if prod >= 0 {
        prod / 1_000_000_000
    } else {
        -((-prod) / 1_000_000_000)
    };
    let v = nominal + delta;
    if v < 0 {
        0
    } else if v > u32::MAX {
        u32::MAX as int
    } else {
        v
    }
}

/// Computes the per-interrupt increment for an adjustment in milli-PPM,
/// keeping "positive PPM = speed up" whatever the platform's conventions
/// are elsewhere.
pub fn paced_adjustment(nominal: u32, adj_mppm: i64) -> (r: u32)
    requires
        -1_000_000_000 <= adj_mppm <= 1_000_000_000,
    ensures
        r == spec_paced_adjustment(nominal, adj_mppm as int),
{
    proof {
        assert(-0x7fff_ffff_ffff_ffff <= nominal * adj_mppm <= 0x7fff_ffff_ffff_ffff)
            by (nonlinear_arith)
            requires
                0 <= nominal <= 0xffff_ffff,
                -1_000_000_000 <= adj_mppm <= 1_000_000_000;
    }
    let prod: i64 = (nominal as i64) * adj_mppm;
    let delta: i64 = if prod >= 0 {
        prod / 1_000_000_000
    } else {
        -((-prod) / 1_000_000_000)
    };
    let v: i64 = nominal as i64 + delta;
    if v < 0 {
        0
    } else if v > u32::MAX as i64 {
        u32::MAX
    } else {
        v as u32
    }
}

/// Converts an adjustment in milli-PPM to the kernel's frequency-offset
/// unit of PPM scaled by 65536 (2^16), truncating toward zero.
pub fn freq_offset_of_mppm(adj_mppm: i64) -> (r: i64)
    requires
        -1_000_000_000 <= adj_mppm <= 1_000_000_000,
    ensures
        r == tdiv1000(adj_mppm * 65536),
{
    let prod: i64 = adj_mppm * 65536;
    if prod >= 0 {
        prod / 1000
    } else {
        -((-prod) / 1000)
    }
}

/// The value of a second/microsecond pair as microseconds.
pub open spec fn timeval_usecs(sec: int, usec: int) -> int {
    sec * 1_000_000 + usec
}

/// The total a stepped timeval would carry, in microseconds.
pub open spec fn stepped_usecs(
    tv_sec: int,
    tv_usec: int,
    offset_sec: int,
    offset_usec: int,
    sign: i8,
) -> int {
    timeval_usecs(tv_sec, tv_usec) + (if sign > 0 {
        1int
    } else {
        -1int
    }) * timeval_usecs(offset_sec, offset_usec)
}

/// Applies a signed step to a wallclock given as a normalized timeval and
/// renormalizes. A step whose result would be a negative wallclock is
/// rejected; otherwise the result carries the same total time, shifted by
/// exactly the offset in the direction of `sign`, with the microsecond field
/// back in `[0, 10^6)`.
pub fn step_timeval(tv_sec: i64, tv_usec: i64, offset_sec: i64, offset_usec: i64, sign: i8) -> (r:
    Option<(i64, i64)>)
    requires
        0 <= tv_usec < 1_000_000,
        0 <= offset_usec < 1_000_000,
        -0x1000_0000_0000_0000 <= tv_sec <= 0x1000_0000_0000_0000,
        0 <= offset_sec <= 0x1000_0000_0000_0000,
    ensures
        stepped_usecs(tv_sec as int, tv_usec as int, offset_sec as int, offset_usec as int, sign)
            < 0 ==> r.is_none(),
        stepped_usecs(tv_sec as int, tv_usec as int, offset_sec as int, offset_usec as int, sign)
            >= 0 ==> (r matches Some(tv) && timeval_usecs(tv.0 as int, tv.1 as int)
            == stepped_usecs(
            tv_sec as int,
            tv_usec as int,
            offset_sec as int,
            offset_usec as int,
            sign,
        ) && 0 <= tv.1 < 1_000_000),
{
    let mut sec: i64 = tv_sec;
    let mut usec: i64 = tv_usec;
    if sign > 0 {
        sec = sec + offset_sec;
        usec = usec + offset_usec;
    } else {
        sec = sec - offset_sec;
        usec = usec - offset_usec;
    }
    if usec >= 1_000_000 {
        sec = sec + 1;
        usec = usec - 1_000_000;
    }
    if usec < 0 {
        sec = sec - 1;
        usec = usec + 1_000_000;
    }
    proof {
        if sign > 0 {
            assert(sec * 1_000_000 + usec == timeval_usecs(tv_sec as int, tv_usec as int)
                + timeval_usecs(offset_sec as int, offset_usec as int));
        } else {
            assert(sec * 1_000_000 + usec == timeval_usecs(tv_sec as int, tv_usec as int)
                - timeval_usecs(offset_sec as int, offset_usec as int));
            assert((-1int) * timeval_usecs(offset_sec as int, offset_usec as int)
                == -timeval_usecs(offset_sec as int, offset_usec as int));
        }
    }
    if sec < 0 {
        // A wallclock must never go negative.
        return None;
    }
    Some((sec, usec))
}

/// Applies a signed step to a wallclock held as an unsigned count of 100 ns
/// units. A backward step that would cross zero is rejected: the platform
/// clock must never be handed a negative wallclock.
pub fn step_filetime(current_100ns: u64, offset_100ns: u64, sign: i8) -> (r: Option<u64>)
    requires
        sign > 0 ==> current_100ns + offset_100ns <= u64::MAX,
    ensures
        sign > 0 ==> r == Some((current_100ns + offset_100ns) as u64),
        sign <= 0 && current_100ns > offset_100ns ==> r == Some(
            (current_100ns - offset_100ns) as u64,
        ),
        sign <= 0 && current_100ns <= offset_100ns ==> r.is_none(),
{
    if sign > 0 {
        Some(current_100ns + offset_100ns)
    } else {
        if current_100ns > offset_100ns {
            Some(current_100ns - offset_100ns)
        } else {
            None
        }
    }
}

} // verus!
