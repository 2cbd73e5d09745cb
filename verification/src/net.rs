//! Packet classification for the capture backend: picks the UDP payload of
//! a PTP packet out of a raw Ethernet frame. The capture itself and the
//! sockets that hold the multicast membership live outside the crate.

use vstd::prelude::*;

use crate::ptp::be16;

verus! {

/// Bytes of Ethernet (14), IPv4 (20) and UDP (8) headers before the payload.
pub const ETH_IP_UDP_HEADER: usize = 42;

/// Whether a raw frame is an IPv4/UDP packet addressed to a PTP port with a
/// non-empty payload: EtherType 0x0800, protocol 17, destination port 319
/// or 320.
pub open spec fn frame_is_ptp(s: Seq<u8>) -> bool {
    &&& s.len() > 42
    &&& s[12] == 0x08 && s[13] == 0x00
    &&& s[23] == 17
    &&& (be16(s[36], s[37]) == 319 || be16(s[36], s[37]) == 320)
}

/// Extracts the UDP payload of a PTP packet from a raw Ethernet frame, or
/// nothing when the frame is not an IPv4/UDP packet for a PTP port or has an
/// empty payload.
pub fn extract_ptp_payload<'a>(frame: &'a [u8]) -> (r: Option<&'a [u8]>)
    ensures
        frame_is_ptp(frame@) ==> (r matches Some(p) && p@ == frame@.subrange(
            42,
            frame@.len() as int,
        )),
        !frame_is_ptp(frame@) ==> r.is_none(),
{
    if frame.len() <= ETH_IP_UDP_HEADER {
        return None;
    }
    if frame[12] != 0x08 || frame[13] != 0x00 {
        return None;
    }
    if frame[23] != 17 {
        return None;
    }
    let dst_port: u16 = crate::ptp::read_be16(frame[36], frame[37]);
    if dst_port != 319 && dst_port != 320 {
        return None;
    }
    Some(vstd::slice::slice_subrange(frame, ETH_IP_UDP_HEADER, frame.len()))
}

/// Rounds a length up to the next multiple of 8, the alignment of control
/// message entries in a receive buffer.
pub fn cmsg_align(len: usize) -> (r: usize)
    requires
        len <= usize::MAX - 7,
    ensures
        r % 8 == 0,
        len <= r < len + 8,
{
    ((len + 7) / 8) * 8
}

/// Converts a difference of monotonic counter ticks to nanoseconds,
/// truncating toward zero.
pub fn qpc_ticks_to_ns(qpc_diff: i64, qpc_frequency: i64) -> (r: i64)
    requires
        qpc_frequency > 0,
        -9_000_000_000 <= qpc_diff <= 9_000_000_000,
    ensures
        qpc_diff >= 0 ==> r == (qpc_diff * 1_000_000_000) / (qpc_frequency as int),
        qpc_diff < 0 ==> r == -((qpc_diff * -1_000_000_000) / (qpc_frequency as int)),
{
    if qpc_diff >= 0 {
        let prod: i64 = qpc_diff * 1_000_000_000;
        proof {
            assert(prod / qpc_frequency <= prod) by (nonlinear_arith)
                requires
                    qpc_frequency > 0,
                    prod >= 0;
        }
        prod / qpc_frequency
    } else {
        let prod: i64 = (-qpc_diff) * 1_000_000_000;
        proof {
            assert(prod / qpc_frequency <= prod) by (nonlinear_arith)
                requires
                    qpc_frequency > 0,
                    prod >= 0;
        }
        -(prod / qpc_frequency)
    }
}

/// Little-endian 64-bit value of the eight bytes at `at`.
pub open spec fn le64(s: Seq<u8>, at: int) -> int {
    s[at] + s[at + 1] * 0x100 + s[at + 2] * 0x10000 + s[at + 3] * 0x1000000 + s[at + 4]
        * 0x100000000 + s[at + 5] * 0x10000000000 + s[at + 6] * 0x1000000000000 + s[at + 7]
        * 0x100000000000000
}

/// Little-endian 32-bit value of the four bytes at `at`.
pub open spec fn le32(s: Seq<u8>, at: int) -> int {
    s[at] + s[at + 1] * 0x100 + s[at + 2] * 0x10000 + s[at + 3] * 0x1000000
}

/// Reads the little-endian 64-bit integer at `at`.
pub fn read_le64(data: &[u8], at: usize) -> (r: u64)
    requires
        at + 8 <= data@.len(),
    ensures
        r == le64(data@, at as int),
{
    (data[at] as u64) + (data[at + 1] as u64) * 0x100 + (data[at + 2] as u64) * 0x10000 + (data[at
        + 3] as u64) * 0x1000000 + (data[at + 4] as u64) * 0x100000000 + (data[at + 5] as u64)
        * 0x10000000000 + (data[at + 6] as u64) * 0x1000000000000 + (data[at + 7] as u64)
        * 0x100000000000000
}

/// Reads the little-endian 32-bit integer at `at`.
pub fn read_le32(data: &[u8], at: usize) -> (r: u32)
    requires
        at + 4 <= data@.len(),
    ensures
        r == le32(data@, at as int),
{
    (data[at] as u32) + (data[at + 1] as u32) * 0x100 + (data[at + 2] as u32) * 0x10000 + (data[at
        + 3] as u32) * 0x1000000
}

/// The 64-bit payload of the first control message at or after `offset`
/// whose level and type match. Each record is a native-layout header (64-bit
/// length, then level and type as 32-bit values) followed by its data, and
/// records are 8-byte aligned; a zero length or a record past the end stops
/// the scan.
pub open spec fn spec_cmsg_find(s: Seq<u8>, offset: int, level: u32, ty: u32) -> Option<u64>
    decreases s.len() - offset,
{
    if offset + 16 > s.len() {
        None
    } else {
        let clen = le64(s, offset);
        if clen == 0 {
            None
        } else if le32(s, offset + 8) == level && le32(s, offset + 12) == ty && offset + 24
            <= s.len() {
            Some(le64(s, offset + 16) as u64)
        } else {
            let step = ((clen + 7) / 8) * 8;
            if offset + step > s.len() {
                None
            } else {
                spec_cmsg_find(s, offset + step, level, ty)
            }
        }
    }
}

/// The scan, from `offset`: structurally the same cases as
/// `spec_cmsg_find`, with the arithmetic kept inside `u64`.
fn cmsg_find_from(control: &[u8], offset: usize, level: u32, ty: u32) -> (r: Option<u64>)
    requires
        control@.len() <= 0x7fff_ffff_ffff_ffff,
        offset <= control@.len(),
    ensures
        r == spec_cmsg_find(control@, offset as int, level, ty),
    decreases control@.len() - offset,
{
    let n = control.len();
    if n - offset < 16 {
        return None;
    }
    let clen: u64 = read_le64(control, offset);
    if clen == 0 {
        return None;
    }
    let lvl: u32 = read_le32(control, offset + 8);
    let t: u32 = read_le32(control, offset + 12);
    if lvl == level && t == ty && n - offset >= 24 {
        return Some(read_le64(control, offset + 16));
    }
    let remaining: u64 = (n - offset) as u64;
    proof {
        assert(((clen + 7) / 8) * 8 >= clen && ((clen + 7) / 8) * 8 >= 8) by (nonlinear_arith)
            requires
                clen >= 1;
    }
    if clen >= remaining {
        // The record reaches (or passes) the end of the buffer: either the
        // next offset is past the end, or it is exactly the end, where the
        // scan stops anyway.
        proof {
            if offset + ((clen + 7) / 8) * 8 == n {
                assert(spec_cmsg_find(control@, n as int, level, ty) is None);
            }
        }
        return None;
    }
    let aligned: u64 = ((clen + 7) / 8) * 8;
    proof {
        assert(aligned < remaining + 8) by (nonlinear_arith)
            requires
                1 <= clen < remaining,
                aligned == ((clen + 7) / 8) * 8;
    }
    if aligned >= remaining {
        proof {
            if offset + aligned == n {
                assert(spec_cmsg_find(control@, n as int, level, ty) is None);
            }
        }
        return None;
    }
    cmsg_find_from(control, offset + (aligned as usize), level, ty)
}

/// Walks a control-message buffer and returns the 64-bit payload of the
/// first record matching `level` and `ty` — the kernel receive timestamp,
/// when the socket was asked for one.
pub fn cmsg_find_u64(control: &[u8], level: u32, ty: u32) -> (r: Option<u64>)
    requires
        control@.len() <= 0x7fff_ffff_ffff_ffff,
    ensures
        r == spec_cmsg_find(control@, 0, level, ty),
{
    cmsg_find_from(control, 0, level, ty)
}

} // verus!
