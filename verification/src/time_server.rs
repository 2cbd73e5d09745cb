//! Diagnostic time-query protocol: a UDP request/response pair that lets
//! peers compare wallclock, monotonic counter and sync state across the
//! network. Request parsing and response building are pure; the socket work
//! lives outside the crate.

use vstd::prelude::*;

use crate::ptp::{be32, be32_byte, be64_byte, write_be32, write_be64};
use crate::status::SyncStatus;
use vstd::string::StringSliceAdditionalSpecFns;

verus! {

/// UDP port of the time query server.
pub const TIME_SERVER_PORT: u16 = 31900;

/// Request magic, the bytes "DSYN".
pub const REQUEST_MAGIC: u32 = 0x4453594E;

/// Response magic, the bytes "DSYR".
pub const RESPONSE_MAGIC: u32 = 0x44535952;

/// Minimum request packet size.
pub const REQUEST_SIZE: usize = 8;

/// Response packet size.
pub const RESPONSE_SIZE: usize = 64;

/// Parses a time query: 4 magic bytes "DSYN" and a 32-bit request id, both
/// big-endian. Anything shorter or with another magic is ignored.
pub fn parse_request(data: &[u8]) -> (r: Option<u32>)
    ensures
        ({
            let s = data@;
            if s.len() >= 8 && be32(s[0], s[1], s[2], s[3]) == REQUEST_MAGIC {
                r == Some(be32(s[4], s[5], s[6], s[7]) as u32)
            } else {
                r.is_none()
            }
        }),
{
    if data.len() < REQUEST_SIZE {
        return None;
    }
    let magic: u32 = crate::ptp::read_be32(data[0], data[1], data[2], data[3]);
    if magic != REQUEST_MAGIC {
        return None;
    }
    Some(crate::ptp::read_be32(data[4], data[5], data[6], data[7]))
}

/// `v` clamped into `i32` range, as the response's scaled-PPM fields are.
pub open spec fn sat_i32(v: int) -> int {
    if v > i32::MAX {
        i32::MAX as int
    } else if v < i32::MIN {
        i32::MIN as int
    } else {
        v
    }
}

/// Clamps a milli-PPM value into the 32-bit field the response carries.
fn saturate_i32(v: i64) -> (r: i32)
    ensures
        r == sat_i32(v as int),
{
    if v > i32::MAX as i64 {
        i32::MAX
    } else if v < i32::MIN as i64 {
        i32::MIN
    } else {
        v as i32
    }
}

/// The mode byte a mode label encodes to: "ACQ" is 1, "PROD" 2, "LOCK" 3,
/// "NANO" 4, "NTP-only" 5, and anything else 0.
pub open spec fn mode_code(s: Seq<u8>) -> u8 {
    if s.len() == 3 && s[0] == 65 && s[1] == 67 && s[2] == 81 {
        1u8
    } else if s.len() == 4 && s[0] == 80 && s[1] == 82 && s[2] == 79 && s[3] == 68 {
        2u8
    } else if s.len() == 4 && s[0] == 76 && s[1] == 79 && s[2] == 67 && s[3] == 75 {
        3u8
    } else if s.len() == 4 && s[0] == 78 && s[1] == 65 && s[2] == 78 && s[3] == 79 {
        4u8
    } else if s.len() == 8 && s[0] == 78 && s[1] == 84 && s[2] == 80 && s[3] == 45 && s[4] == 111
        && s[5] == 110 && s[6] == 108 && s[7] == 121 {
        5u8
    } else {
        0u8
    }
}

/// Encodes a mode label into its response byte, per `mode_code`.
pub fn encode_mode(mode: &str) -> (r: u8)
    ensures
        r == mode_code(mode.spec_bytes()),
{
    let b: &[u8] = mode.as_bytes();
    if b.len() == 3 && b[0] == 65 && b[1] == 67 && b[2] == 81 {
        1
    } else if b.len() == 4 && b[0] == 80 && b[1] == 82 && b[2] == 79 && b[3] == 68 {
        2
    } else if b.len() == 4 && b[0] == 76 && b[1] == 79 && b[2] == 67 && b[3] == 75 {
        3
    } else if b.len() == 4 && b[0] == 78 && b[1] == 65 && b[2] == 78 && b[3] == 79 {
        4
    } else if b.len() == 8 && b[0] == 78 && b[1] == 84 && b[2] == 80 && b[3] == 45 && b[4] == 111
        && b[5] == 110 && b[6] == 108 && b[7] == 121 {
        5
    } else {
        0
    }
}

/// Ticks per second of the monotonic counter the response reports: on this
/// platform the counter is in nanoseconds.
pub fn get_monotonic_frequency() -> (r: u64)
    ensures
        r == 1_000_000_000,
{
    1_000_000_000
}

/// Builds the 64-byte response: magic, echoed request id, the sampled
/// wallclock and monotonic counter, the status snapshot's offset and drift,
/// the applied adjustment, mode and lock bytes, the grandmaster UUID, and
/// the monotonic frequency, all big-endian; the last eight bytes stay zero.
pub fn build_response(
    request_id: u32,
    status: &SyncStatus,
    adj_mppm: i64,
    mode: u8,
    system_ns: u64,
    monotonic: u64,
    mono_freq: u64,
) -> (r: Vec<u8>)
    requires
        status.wf(),
    ensures
        r@.len() == RESPONSE_SIZE,
        r@[0] == 0x44 && r@[1] == 0x53 && r@[2] == 0x59 && r@[3] == 0x52,
        forall|i: int| 4 <= i < 8 ==> #[trigger] r@[i] == be32_byte(request_id, i - 4),
        forall|i: int| 8 <= i < 16 ==> #[trigger] r@[i] == be64_byte(system_ns, i - 8),
        forall|i: int| 16 <= i < 24 ==> #[trigger] r@[i] == be64_byte(monotonic, i - 16),
        forall|i: int| 24 <= i < 32 ==> #[trigger] r@[i] == be64_byte(status.offset_ns as u64, i - 24),
        forall|i: int|
            32 <= i < 36 ==> #[trigger] r@[i] == be32_byte(sat_i32(status.drift_mppm as int) as u32, i - 32),
        forall|i: int|
            36 <= i < 40 ==> #[trigger] r@[i] == be32_byte(sat_i32(adj_mppm as int) as u32, i - 36),
        r@[40] == mode,
        r@[41] == (if status.settled { 1u8 } else { 0u8 }),
        forall|i: int| 42 <= i < 48 ==> #[trigger] r@[i] == (match status.gm_uuid {
            Some(k) => be64_byte(k, i - 40),
            None => 0u8,
        }),
        forall|i: int| 48 <= i < 56 ==> #[trigger] r@[i] == be64_byte(mono_freq, i - 48),
        forall|i: int| 56 <= i < 64 ==> #[trigger] r@[i] == 0,
{
    let mut r: Vec<u8> = vec![0u8; 64];
    r[0] = 0x44;
    r[1] = 0x53;
    r[2] = 0x59;
    r[3] = 0x52;
    write_be32(&mut r, 4, request_id);
    write_be64(&mut r, 8, system_ns);
    write_be64(&mut r, 16, monotonic);
    write_be64(&mut r, 24, status.offset_ns as u64);
    write_be32(&mut r, 32, saturate_i32(status.drift_mppm) as u32);
    write_be32(&mut r, 36, saturate_i32(adj_mppm) as u32);
    r[40] = mode;
    r[41] = if status.settled {
        1
    } else {
        0
    };
    match status.gm_uuid {
        Some(k) => {
            r[42] = ((k / 0x10000000000) % 256) as u8;
            r[43] = ((k / 0x100000000) % 256) as u8;
            r[44] = ((k / 0x1000000) % 256) as u8;
            r[45] = ((k / 0x10000) % 256) as u8;
            r[46] = ((k / 0x100) % 256) as u8;
            r[47] = (k % 256) as u8;
            proof {
                assert(k / 0x10000000000 % 256 == k / 0x10000000000) by (nonlinear_arith)
                    requires
                        0 <= k < 0x1000000000000;
                assert(k / 0x100000000000000 == 0 && k / 0x1000000000000 % 256 == 0)
                    by (nonlinear_arith)
                    requires
                        0 <= k < 0x1000000000000;
            }
        },
        None => {},
    }
    write_be64(&mut r, 48, mono_freq);
    r
}

} // verus!
