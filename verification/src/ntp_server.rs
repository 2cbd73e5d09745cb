//! NTP server logic: request validation, timestamp conversion, and the
//! 48-byte response layout. The UDP socket work lives outside the crate;
//! the caller passes in the timestamps it sampled and sends the bytes this
//! module builds.

use vstd::prelude::*;

use crate::ptp::be32_byte;

verus! {

/// NTP packet size in bytes.
pub const NTP_PACKET_SIZE: usize = 48;

/// Offset of the NTP epoch (1900) from the Unix epoch (1970), in seconds.
pub const NTP_EPOCH_OFFSET: u64 = 2_208_988_800;

/// Leap indicator: no warning.
pub const LI_NO_WARNING: u8 = 0;

/// Mode field: server response.
pub const MODE_SERVER: u8 = 4;

/// Mode field: client request.
pub const MODE_CLIENT: u8 = 3;

/// Reference ID "LOCL": an undisciplined local clock.
pub const REF_ID_LOCL: u32 = 0x4C4F434C;

/// The mode bits of an NTP packet's first byte.
pub open spec fn spec_ntp_mode(li_vn_mode: u8) -> u8 {
    li_vn_mode % 8
}

/// The version bits of an NTP packet's first byte.
pub open spec fn spec_ntp_version(li_vn_mode: u8) -> u8 {
    (li_vn_mode / 8) % 8
}

/// Whether a request's first byte merits a response: a client-mode packet
/// of version 3 or 4. Everything else is ignored.
pub fn ntp_request_accepted(li_vn_mode: u8) -> (r: bool)
    ensures
        r == (spec_ntp_mode(li_vn_mode) == MODE_CLIENT && 3 <= spec_ntp_version(li_vn_mode) <= 4),
{
    let mode: u8 = li_vn_mode % 8;
    let version: u8 = (li_vn_mode / 8) % 8;
    mode == MODE_CLIENT && version >= 3 && version <= 4
}

/// The NTP form of a wallclock given as Unix seconds and subsecond
/// nanoseconds: seconds since 1900 (truncated to 32 bits) and the fraction
/// as a 32-bit binary fraction of a second.
pub fn system_time_to_ntp(unix_secs: u64, subsec_nanos: u32) -> (r: (u32, u32))
    requires
        unix_secs + NTP_EPOCH_OFFSET <= u64::MAX,
        subsec_nanos < 1_000_000_000,
    ensures
        r.0 == (unix_secs + NTP_EPOCH_OFFSET) % 0x1_0000_0000,
        r.1 == (subsec_nanos * 0x1_0000_0000) / 1_000_000_000,
{
    let ntp_secs: u64 = unix_secs + NTP_EPOCH_OFFSET;
    let frac: u64 = (subsec_nanos as u64 * 0x1_0000_0000) / 1_000_000_000;
    ((ntp_secs % 0x1_0000_0000) as u32, frac as u32)
}

/// The Unix form of an NTP timestamp: seconds clamp at the Unix epoch for
/// times before 1970, and the binary fraction becomes nanoseconds.
pub fn ntp_to_system_time(secs: u32, frac: u32) -> (r: (u64, u32))
    ensures
        r.0 == if secs >= NTP_EPOCH_OFFSET {
            secs - NTP_EPOCH_OFFSET
        } else {
            0int
        },
        r.1 == (frac * 1_000_000_000) / 0x1_0000_0000,
        r.1 < 1_000_000_000,
{
    let unix_secs: u64 = if secs as u64 >= NTP_EPOCH_OFFSET {
        secs as u64 - NTP_EPOCH_OFFSET
    } else {
        0
    };
    let nanos: u64 = (frac as u64 * 1_000_000_000) / 0x1_0000_0000;
    proof {
        assert(frac * 1_000_000_000 / 0x1_0000_0000 < 1_000_000_000) by (nonlinear_arith)
            requires
                0 <= frac < 0x1_0000_0000;
    }
    (unix_secs, nanos as u32)
}

/// Builds the 48-byte NTP server response: header fields, the reference,
/// originate (copied from the client), receive and transmit timestamps, all
/// big-endian, and "LOCL" as the reference ID.
pub fn build_response(
    version: u8,
    stratum: u8,
    originate_ts: &[u8],
    ref_secs: u32,
    ref_frac: u32,
    recv_secs: u32,
    recv_frac: u32,
    tx_secs: u32,
    tx_frac: u32,
) -> (r: Vec<u8>)
    requires
        version < 8,
        originate_ts@.len() == 8,
    ensures
        r@.len() == NTP_PACKET_SIZE,
        r@[0] == version * 8 + MODE_SERVER,
        r@[1] == stratum,
        r@[2] == 6,
        r@[3] == 0xEC,
        forall|i: int| 4 <= i < 11 ==> r@[i] == 0,
        r@[11] == 16,
        r@[12] == 0x4C && r@[13] == 0x4F && r@[14] == 0x43 && r@[15] == 0x4C,
        forall|i: int| 16 <= i < 20 ==> #[trigger] r@[i] == be32_byte(ref_secs, i - 16),
        forall|i: int| 20 <= i < 24 ==> #[trigger] r@[i] == be32_byte(ref_frac, i - 20),
        forall|i: int| 24 <= i < 32 ==> #[trigger] r@[i] == originate_ts@[i - 24],
        forall|i: int| 32 <= i < 36 ==> #[trigger] r@[i] == be32_byte(recv_secs, i - 32),
        forall|i: int| 36 <= i < 40 ==> #[trigger] r@[i] == be32_byte(recv_frac, i - 36),
        forall|i: int| 40 <= i < 44 ==> #[trigger] r@[i] == be32_byte(tx_secs, i - 40),
        forall|i: int| 44 <= i < 48 ==> #[trigger] r@[i] == be32_byte(tx_frac, i - 44),
{
    let mut r: Vec<u8> = vec![0u8; 48];
    r[0] = version * 8 + MODE_SERVER;
    r[1] = stratum;
    r[2] = 6;
    r[3] = 0xEC;
    r[11] = 16;
    r[12] = 0x4C;
    r[13] = 0x4F;
    r[14] = 0x43;
    r[15] = 0x4C;
    crate::ptp::write_be32(&mut r, 16, ref_secs);
    crate::ptp::write_be32(&mut r, 20, ref_frac);
    let ghost r_snap = r@;
    let mut i: usize = 0;
    while i < 8
        invariant
            0 <= i <= 8,
            originate_ts@.len() == 8,
            r@.len() == 48,
            r_snap.len() == 48,
            forall|j: int| 24 <= j < 24 + i ==> #[trigger] r@[j] == originate_ts@[j - 24],
            forall|j: int| 0 <= j < 24 ==> #[trigger] r@[j] == r_snap[j],
            forall|j: int| 32 <= j < 48 ==> #[trigger] r@[j] == r_snap[j],
        decreases 8 - i,
    {
        r[24 + i] = originate_ts[i];
        i += 1;
    }
    crate::ptp::write_be32(&mut r, 32, recv_secs);
    crate::ptp::write_be32(&mut r, 36, recv_frac);
    crate::ptp::write_be32(&mut r, 40, tx_secs);
    crate::ptp::write_be32(&mut r, 44, tx_frac);
    r
}

} // verus!
