//! PTPv1 wire format: header and message bodies, with parsers and serializers.
//!
//! All multi-byte integers on the wire are big-endian. The parsers are pure
//! functions over byte slices and fail only when the input is too short.

use vstd::prelude::*;

verus! {

/// UDP port for PTP event messages (Sync).
pub const PTP_EVENT_PORT: u16 = 319;

/// UDP port for PTP general messages (FollowUp).
pub const PTP_GENERAL_PORT: u16 = 320;

/// The PTP multicast group 224.0.1.129, as its four address octets.
pub const PTP_MULTICAST_OCTETS: [u8; 4] = [224, 0, 1, 129];

/// Big-endian 16-bit value of two bytes.
pub open spec fn be16(b0: u8, b1: u8) -> int {
    b0 * 256 + b1
}

/// Big-endian 32-bit value of four bytes.
pub open spec fn be32(b0: u8, b1: u8, b2: u8, b3: u8) -> int {
    b0 * 0x1000000 + b1 * 0x10000 + b2 * 0x100 + b3
}

/// Combines two bytes into the big-endian 16-bit integer they encode.
pub fn read_be16(b0: u8, b1: u8) -> (r: u16)
    ensures
        r == be16(b0, b1),
{
    (b0 as u16) * 256 + (b1 as u16)
}

/// Combines four bytes into the big-endian 32-bit integer they encode.
pub fn read_be32(b0: u8, b1: u8, b2: u8, b3: u8) -> (r: u32)
    ensures
        r == be32(b0, b1, b2, b3),
{
    (b0 as u32) * 0x1000000 + (b1 as u32) * 0x10000 + (b2 as u32) * 0x100 + (b3 as u32)
}

/// The 48-bit big-endian value of a 6-byte clock UUID; an integer key that
/// stands for the UUID one-for-one.
pub open spec fn uuid_val(s: Seq<u8>) -> int {
    s[0] * 0x10000000000 + s[1] * 0x100000000 + s[2] * 0x1000000 + s[3] * 0x10000 + s[4] * 0x100
        + s[5]
}

/// Packs a 6-byte clock UUID into its 48-bit integer key.
pub fn uuid_key(uuid: &[u8; 6]) -> (r: u64)
    ensures
        r == uuid_val(uuid@),
        r < 0x1000000000000,
{
    (uuid[0] as u64) * 0x10000000000 + (uuid[1] as u64) * 0x100000000 + (uuid[2] as u64) * 0x1000000
        + (uuid[3] as u64) * 0x10000 + (uuid[4] as u64) * 0x100 + (uuid[5] as u64)
}

/// The UUID key is injective: equal keys mean equal UUID bytes, so comparing
/// keys is exactly comparing UUIDs.
pub proof fn lemma_uuid_key_injective(a: Seq<u8>, b: Seq<u8>)
    requires
        a.len() == 6,
        b.len() == 6,
        uuid_val(a) == uuid_val(b),
    ensures
        a =~= b,
{
    assert forall|i: int| 0 <= i < 6 implies a[i] == b[i] by {
        let av = uuid_val(a);
        let bv = uuid_val(b);
        assert(a[0] == av / 0x10000000000 && b[0] == bv / 0x10000000000) by (nonlinear_arith)
            requires
                av == a[0] * 0x10000000000 + a[1] * 0x100000000 + a[2] * 0x1000000 + a[3] * 0x10000
                    + a[4] * 0x100 + a[5],
                bv == b[0] * 0x10000000000 + b[1] * 0x100000000 + b[2] * 0x1000000 + b[3] * 0x10000
                    + b[4] * 0x100 + b[5],
                0 <= a[0] < 256 && 0 <= a[1] < 256 && 0 <= a[2] < 256 && 0 <= a[3] < 256 && 0 <= a[4] < 256 && 0 <= a[5] < 256,
                0 <= b[0] < 256 && 0 <= b[1] < 256 && 0 <= b[2] < 256 && 0 <= b[3] < 256 && 0 <= b[4] < 256 && 0 <= b[5] < 256;
        assert(a[1] == (av / 0x100000000) % 256 && b[1] == (bv / 0x100000000) % 256)
            by (nonlinear_arith)
            requires
                av == a[0] * 0x10000000000 + a[1] * 0x100000000 + a[2] * 0x1000000 + a[3] * 0x10000
                    + a[4] * 0x100 + a[5],
                bv == b[0] * 0x10000000000 + b[1] * 0x100000000 + b[2] * 0x1000000 + b[3] * 0x10000
                    + b[4] * 0x100 + b[5],
                0 <= a[0] < 256 && 0 <= a[1] < 256 && 0 <= a[2] < 256 && 0 <= a[3] < 256 && 0 <= a[4] < 256 && 0 <= a[5] < 256,
                0 <= b[0] < 256 && 0 <= b[1] < 256 && 0 <= b[2] < 256 && 0 <= b[3] < 256 && 0 <= b[4] < 256 && 0 <= b[5] < 256;
        assert(a[2] == (av / 0x1000000) % 256 && b[2] == (bv / 0x1000000) % 256)
            by (nonlinear_arith)
            requires
                av == a[0] * 0x10000000000 + a[1] * 0x100000000 + a[2] * 0x1000000 + a[3] * 0x10000
                    + a[4] * 0x100 + a[5],
                bv == b[0] * 0x10000000000 + b[1] * 0x100000000 + b[2] * 0x1000000 + b[3] * 0x10000
                    + b[4] * 0x100 + b[5],
                0 <= a[0] < 256 && 0 <= a[1] < 256 && 0 <= a[2] < 256 && 0 <= a[3] < 256 && 0 <= a[4] < 256 && 0 <= a[5] < 256,
                0 <= b[0] < 256 && 0 <= b[1] < 256 && 0 <= b[2] < 256 && 0 <= b[3] < 256 && 0 <= b[4] < 256 && 0 <= b[5] < 256;
        assert(a[3] == (av / 0x10000) % 256 && b[3] == (bv / 0x10000) % 256) by (nonlinear_arith)
            requires
                av == a[0] * 0x10000000000 + a[1] * 0x100000000 + a[2] * 0x1000000 + a[3] * 0x10000
                    + a[4] * 0x100 + a[5],
                bv == b[0] * 0x10000000000 + b[1] * 0x100000000 + b[2] * 0x1000000 + b[3] * 0x10000
                    + b[4] * 0x100 + b[5],
                0 <= a[0] < 256 && 0 <= a[1] < 256 && 0 <= a[2] < 256 && 0 <= a[3] < 256 && 0 <= a[4] < 256 && 0 <= a[5] < 256,
                0 <= b[0] < 256 && 0 <= b[1] < 256 && 0 <= b[2] < 256 && 0 <= b[3] < 256 && 0 <= b[4] < 256 && 0 <= b[5] < 256;
        assert(a[4] == (av / 0x100) % 256 && b[4] == (bv / 0x100) % 256) by (nonlinear_arith)
            requires
                av == a[0] * 0x10000000000 + a[1] * 0x100000000 + a[2] * 0x1000000 + a[3] * 0x10000
                    + a[4] * 0x100 + a[5],
                bv == b[0] * 0x10000000000 + b[1] * 0x100000000 + b[2] * 0x1000000 + b[3] * 0x10000
                    + b[4] * 0x100 + b[5],
                0 <= a[0] < 256 && 0 <= a[1] < 256 && 0 <= a[2] < 256 && 0 <= a[3] < 256 && 0 <= a[4] < 256 && 0 <= a[5] < 256,
                0 <= b[0] < 256 && 0 <= b[1] < 256 && 0 <= b[2] < 256 && 0 <= b[3] < 256 && 0 <= b[4] < 256 && 0 <= b[5] < 256;
        assert(a[5] == av % 256 && b[5] == bv % 256) by (nonlinear_arith)
            requires
                av == a[0] * 0x10000000000 + a[1] * 0x100000000 + a[2] * 0x1000000 + a[3] * 0x10000
                    + a[4] * 0x100 + a[5],
                bv == b[0] * 0x10000000000 + b[1] * 0x100000000 + b[2] * 0x1000000 + b[3] * 0x10000
                    + b[4] * 0x100 + b[5],
                0 <= a[0] < 256 && 0 <= a[1] < 256 && 0 <= a[2] < 256 && 0 <= a[3] < 256 && 0 <= a[4] < 256 && 0 <= a[5] < 256,
                0 <= b[0] < 256 && 0 <= b[1] < 256 && 0 <= b[2] < 256 && 0 <= b[3] < 256 && 0 <= b[4] < 256 && 0 <= b[5] < 256;
    }
}

/// The message class a PTPv1 control byte selects.
#[derive(Debug, PartialEq, Eq, Clone, Copy, Structural)]
pub enum PtpV1Control {
    Sync,
    DelayReq,
    FollowUp,
    DelayResp,
    Management,
    Other,
}

/// The message class encoded by a control byte; values above 4 are `Other`.
pub open spec fn control_of(v: u8) -> PtpV1Control {
    if v == 0 {
        PtpV1Control::Sync
    } else if v == 1 {
        PtpV1Control::DelayReq
    } else if v == 2 {
        PtpV1Control::FollowUp
    } else if v == 3 {
        PtpV1Control::DelayResp
    } else if v == 4 {
        PtpV1Control::Management
    } else {
        PtpV1Control::Other
    }
}

impl From<u8> for PtpV1Control {
    fn from(v: u8) -> (r: Self) {
        match v {
            0 => PtpV1Control::Sync,
            1 => PtpV1Control::DelayReq,
            2 => PtpV1Control::FollowUp,
            3 => PtpV1Control::DelayResp,
            4 => PtpV1Control::Management,
            _ => PtpV1Control::Other,
        }
    }
}

impl vstd::std_specs::convert::FromSpecImpl<u8> for PtpV1Control {
    open spec fn obeys_from_spec() -> bool {
        true
    }

    open spec fn from_spec(v: u8) -> Self {
        control_of(v)
    }
}

/// Why a parse rejected its input: the only failure is a short packet.
#[derive(Debug, PartialEq, Eq, Clone, Copy, Structural)]
pub enum PtpParseError {
    TooShort,
}

/// The PTPv1 header fields this engine reads (36 bytes on the wire).
#[derive(Debug, PartialEq, Eq, Clone, Copy)]
pub struct PtpV1Header {
    pub version_ptp: u8,
    pub message_length: u16,
    pub message_type: PtpV1Control,
    pub source_uuid: [u8; 6],
    pub sequence_id: u16,
    pub control: u8,
}

/// Relates a byte sequence of at least 36 bytes to the header parsed from it.
pub open spec fn header_matches(s: Seq<u8>, h: PtpV1Header) -> bool {
    &&& h.version_ptp == s[0] / 16
    &&& h.message_length == be16(s[2], s[3])
    &&& h.message_type == control_of(s[32])
    &&& h.source_uuid@ =~= s.subrange(22, 28)
    &&& h.sequence_id == be16(s[30], s[31])
    &&& h.control == s[32]
}

/// A header that serialization can represent exactly: the version fits its
/// nibble and the message type agrees with the control byte.
pub open spec fn header_wf(h: PtpV1Header) -> bool {
    &&& h.version_ptp < 16
    &&& h.message_type == control_of(h.control)
}

/// Byte `i` of the serialized 36-byte header; unnamed fields are zero.
pub open spec fn header_byte(h: PtpV1Header, i: int) -> u8 {
    if i == 0 {
        (h.version_ptp * 16) as u8
    } else if i == 2 {
        (h.message_length / 256) as u8
    } else if i == 3 {
        (h.message_length % 256) as u8
    } else if 22 <= i < 28 {
        h.source_uuid@[i - 22]
    } else if i == 30 {
        (h.sequence_id / 256) as u8
    } else if i == 31 {
        (h.sequence_id % 256) as u8
    } else if i == 32 {
        h.control
    } else {
        0u8
    }
}

/// The 36-byte wire form of a header.
pub open spec fn spec_serialize_header(h: PtpV1Header) -> Seq<u8> {
    Seq::new(36, |i: int| header_byte(h, i))
}

impl PtpV1Header {
    /// Wire size of a PTPv1 header in bytes.
    pub const SIZE: usize = 36;

    /// Parses a PTPv1 header from the front of `data`. The version is the high
    /// nibble of byte 0; length, sequence id and the source UUID sit at fixed
    /// offsets; the message type is derived from the control byte at offset 32.
    pub fn parse(data: &[u8]) -> (r: Result<Self, PtpParseError>)
        ensures
            data@.len() < 36 ==> r == Result::<Self, PtpParseError>::Err(PtpParseError::TooShort),
            data@.len() >= 36 ==> r.is_ok() && header_matches(data@, r.unwrap()),
    {
        if data.len() < Self::SIZE {
            return Err(PtpParseError::TooShort);
        }
        let version_ptp: u8 = data[0] / 16;
        let message_length: u16 = read_be16(data[2], data[3]);
        let source_uuid: [u8; 6] = [data[22], data[23], data[24], data[25], data[26], data[27]];
        let sequence_id: u16 = read_be16(data[30], data[31]);
        let control: u8 = data[32];
        let message_type = PtpV1Control::from(control);
        let h = PtpV1Header { version_ptp, message_length, message_type, source_uuid, sequence_id, control };
        proof {
            assert(h.source_uuid@ =~= data@.subrange(22, 28));
        }
        Ok(h)
    }

    /// Serializes the header into its 36-byte wire form, the exact inverse of
    /// `parse` on well-formed headers.
    pub fn serialize(&self) -> (r: Vec<u8>)
        requires
            self.version_ptp < 16,
        ensures
            r@.len() == 36,
            r@ =~= spec_serialize_header(*self),
    {
        let mut v: Vec<u8> = vec![0u8; 36];
        v[0] = self.version_ptp * 16;
        v[2] = (self.message_length / 256) as u8;
        v[3] = (self.message_length % 256) as u8;
        v[22] = self.source_uuid[0];
        v[23] = self.source_uuid[1];
        v[24] = self.source_uuid[2];
        v[25] = self.source_uuid[3];
        v[26] = self.source_uuid[4];
        v[27] = self.source_uuid[5];
        v[30] = (self.sequence_id / 256) as u8;
        v[31] = (self.sequence_id % 256) as u8;
        v[32] = self.control;
        proof {
            assert(v@ =~= spec_serialize_header(*self));
        }
        v
    }
}

/// Parsing the serialized form of a well-formed header gives back that header:
/// any header whose fields match the serialized bytes is the original.
pub proof fn lemma_header_round_trip(h: PtpV1Header, h2: PtpV1Header)
    requires
        header_wf(h),
        header_matches(spec_serialize_header(h), h2),
    ensures
        h2 == h,
{
    let s = spec_serialize_header(h);
    assert(h2.source_uuid@ =~= s.subrange(22, 28));
    assert(h.source_uuid@ =~= s.subrange(22, 28));
    assert(h2.source_uuid =~= h.source_uuid);
    assert(h2.message_length == h.message_length) by {
        assert(be16(s[2], s[3]) == (h.message_length / 256) * 256 + h.message_length % 256);
    }
    assert(h2.sequence_id == h.sequence_id) by {
        assert(be16(s[30], s[31]) == (h.sequence_id / 256) * 256 + h.sequence_id % 256);
    }
    assert(h2.version_ptp == h.version_ptp);
    assert(h2.control == h.control);
}

/// A PTP timestamp: 32-bit seconds and 32-bit nanoseconds since the PTP epoch.
#[derive(Debug, PartialEq, Eq, Clone, Copy, Structural)]
pub struct PtpTimestamp {
    pub seconds: u32,
    pub nanoseconds: u32,
}

impl PtpTimestamp {
    /// The timestamp as a single signed nanosecond count.
    pub fn to_nanos(&self) -> (r: i64)
        ensures
            r == self.seconds * 1_000_000_000 + self.nanoseconds,
            r >= 0,
    {
        self.seconds as i64 * 1_000_000_000 + self.nanoseconds as i64
    }
}

/// The part of a Sync message body this engine reads: the grandmaster UUID.
#[derive(Debug, PartialEq, Eq, Clone, Copy)]
pub struct PtpV1SyncMessageBody {
    pub grandmaster_clock_uuid: [u8; 6],
}

impl PtpV1SyncMessageBody {
    /// Bytes needed to reach the grandmaster UUID (13-byte skip plus 6).
    pub const MIN_SIZE: usize = 19;

    /// Reads the grandmaster clock UUID at offset 13 of a Sync body.
    pub fn parse(data: &[u8]) -> (r: Result<Self, PtpParseError>)
        ensures
            data@.len() < 19 ==> r == Result::<Self, PtpParseError>::Err(PtpParseError::TooShort),
            data@.len() >= 19 ==> r.is_ok() && r.unwrap().grandmaster_clock_uuid@ =~= data@.subrange(13, 19),
    {
        if data.len() < Self::MIN_SIZE {
            return Err(PtpParseError::TooShort);
        }
        let gm_uuid: [u8; 6] = [data[13], data[14], data[15], data[16], data[17], data[18]];
        let b = PtpV1SyncMessageBody { grandmaster_clock_uuid: gm_uuid };
        proof {
            assert(b.grandmaster_clock_uuid@ =~= data@.subrange(13, 19));
        }
        Ok(b)
    }
}

/// A FollowUp body: the sequence id of the Sync it completes and the precise
/// origin timestamp T1 (16 bytes on the wire).
#[derive(Debug, PartialEq, Eq, Clone, Copy, Structural)]
pub struct PtpV1FollowUpBody {
    pub associated_sequence_id: u16,
    pub precise_origin_timestamp: PtpTimestamp,
}

/// Relates a byte sequence of at least 16 bytes to the FollowUp body parsed
/// from it: 6 pad bytes, then the associated sequence id and the timestamp.
pub open spec fn followup_matches(s: Seq<u8>, b: PtpV1FollowUpBody) -> bool {
    &&& b.associated_sequence_id == be16(s[6], s[7])
    &&& b.precise_origin_timestamp.seconds == be32(s[8], s[9], s[10], s[11])
    &&& b.precise_origin_timestamp.nanoseconds == be32(s[12], s[13], s[14], s[15])
}

/// Byte `i` of the serialized 16-byte FollowUp body; the pad bytes are zero.
pub open spec fn followup_byte(b: PtpV1FollowUpBody, i: int) -> u8 {
    if i == 6 {
        (b.associated_sequence_id / 256) as u8
    } else if i == 7 {
        (b.associated_sequence_id % 256) as u8
    } else if 8 <= i < 12 {
        be32_byte(b.precise_origin_timestamp.seconds, i - 8)
    } else if 12 <= i < 16 {
        be32_byte(b.precise_origin_timestamp.nanoseconds, i - 12)
    } else {
        0u8
    }
}

/// Byte `i` (0 = most significant) of a 32-bit integer in big-endian order.
pub open spec fn be32_byte(v: u32, i: int) -> u8 {
    if i == 0 {
        (v / 0x1000000) as u8
    } else if i == 1 {
        ((v / 0x10000) % 256) as u8
    } else if i == 2 {
        ((v / 0x100) % 256) as u8
    } else {
        (v % 256) as u8
    }
}

/// Byte `i` (0 = most significant) of a 64-bit integer in big-endian order.
pub open spec fn be64_byte(v: u64, i: int) -> u8 {
    if i == 0 {
        (v / 0x100000000000000) as u8
    } else if i == 1 {
        ((v / 0x1000000000000) % 256) as u8
    } else if i == 2 {
        ((v / 0x10000000000) % 256) as u8
    } else if i == 3 {
        ((v / 0x100000000) % 256) as u8
    } else if i == 4 {
        ((v / 0x1000000) % 256) as u8
    } else if i == 5 {
        ((v / 0x10000) % 256) as u8
    } else if i == 6 {
        ((v / 0x100) % 256) as u8
    } else {
        (v % 256) as u8
    }
}

/// Writes `v` into `out[at..at+8]` in big-endian order.
pub fn write_be64(out: &mut Vec<u8>, at: usize, v: u64)
    requires
        at + 8 <= old(out)@.len(),
        old(out)@.len() <= usize::MAX,
    ensures
        final(out)@.len() == old(out)@.len(),
        forall|i: int|
            0 <= i < old(out)@.len() && !(at <= i < at + 8) ==> #[trigger] final(out)@[i] == old(
                out,
            )@[i],
        forall|i: int| at <= i < at + 8 ==> #[trigger] final(out)@[i] == be64_byte(v, i - at),
{
    out[at] = (v / 0x100000000000000) as u8;
    out[at + 1] = ((v / 0x1000000000000) % 256) as u8;
    out[at + 2] = ((v / 0x10000000000) % 256) as u8;
    out[at + 3] = ((v / 0x100000000) % 256) as u8;
    out[at + 4] = ((v / 0x1000000) % 256) as u8;
    out[at + 5] = ((v / 0x10000) % 256) as u8;
    out[at + 6] = ((v / 0x100) % 256) as u8;
    out[at + 7] = (v % 256) as u8;
}

/// The 16-byte wire form of a FollowUp body.
pub open spec fn spec_serialize_followup(b: PtpV1FollowUpBody) -> Seq<u8> {
    Seq::new(16, |i: int| followup_byte(b, i))
}

/// Writes `v` into `out[at..at+4]` in big-endian order.
pub fn write_be32(out: &mut Vec<u8>, at: usize, v: u32)
    requires
        at + 4 <= old(out)@.len(),
        old(out)@.len() <= usize::MAX,
    ensures
        final(out)@.len() == old(out)@.len(),
        forall|i: int|
            0 <= i < old(out)@.len() && !(at <= i < at + 4) ==> #[trigger] final(out)@[i] == old(
                out,
            )@[i],
        forall|i: int| at <= i < at + 4 ==> #[trigger] final(out)@[i] == be32_byte(v, i - at),
{
    out[at] = (v / 0x1000000) as u8;
    out[at + 1] = ((v / 0x10000) % 256) as u8;
    out[at + 2] = ((v / 0x100) % 256) as u8;
    out[at + 3] = (v % 256) as u8;
}

impl PtpV1FollowUpBody {
    /// Wire size of the FollowUp body fields this engine reads.
    pub const SIZE: usize = 16;

    /// Parses a FollowUp body: skips 6 pad bytes, then reads the associated
    /// sequence id and the precise origin timestamp, all big-endian.
    pub fn parse(data: &[u8]) -> (r: Result<Self, PtpParseError>)
        ensures
            data@.len() < 16 ==> r == Result::<Self, PtpParseError>::Err(PtpParseError::TooShort),
            data@.len() >= 16 ==> r.is_ok() && followup_matches(data@, r.unwrap()),
    {
        if data.len() < Self::SIZE {
            return Err(PtpParseError::TooShort);
        }
        let associated_sequence_id: u16 = read_be16(data[6], data[7]);
        let seconds: u32 = read_be32(data[8], data[9], data[10], data[11]);
        let nanoseconds: u32 = read_be32(data[12], data[13], data[14], data[15]);
        Ok(PtpV1FollowUpBody {
            associated_sequence_id,
            precise_origin_timestamp: PtpTimestamp { seconds, nanoseconds },
        })
    }

    /// Serializes the body into its 16-byte wire form, the exact inverse of
    /// `parse`.
    pub fn serialize(&self) -> (r: Vec<u8>)
        ensures
            r@.len() == 16,
            r@ =~= spec_serialize_followup(*self),
    {
        let mut v: Vec<u8> = vec![0u8; 16];
        v[6] = (self.associated_sequence_id / 256) as u8;
        v[7] = (self.associated_sequence_id % 256) as u8;
        write_be32(&mut v, 8, self.precise_origin_timestamp.seconds);
        write_be32(&mut v, 12, self.precise_origin_timestamp.nanoseconds);
        proof {
            assert(v@ =~= spec_serialize_followup(*self));
        }
        v
    }
}

/// A 32-bit value is recovered exactly from its four big-endian bytes.
proof fn lemma_be32_bytes_inverse(v: u32)
    ensures
        be32(be32_byte(v, 0), be32_byte(v, 1), be32_byte(v, 2), be32_byte(v, 3)) == v,
{
    assert(be32(
        (v / 0x1000000) as u8,
        ((v / 0x10000) % 256) as u8,
        ((v / 0x100) % 256) as u8,
        (v % 256) as u8,
    ) == v) by (nonlinear_arith);
}

/// Parsing the serialized form of a FollowUp body gives back that body: any
/// body whose fields match the serialized bytes is the original.
pub proof fn lemma_followup_round_trip(b: PtpV1FollowUpBody, b2: PtpV1FollowUpBody)
    requires
        followup_matches(spec_serialize_followup(b), b2),
    ensures
        b2 == b,
{
    let s = spec_serialize_followup(b);
    assert(b2.associated_sequence_id == b.associated_sequence_id) by {
        assert(be16(s[6], s[7]) == (b.associated_sequence_id / 256) * 256
            + b.associated_sequence_id % 256);
    }
    lemma_be32_bytes_inverse(b.precise_origin_timestamp.seconds);
    lemma_be32_bytes_inverse(b.precise_origin_timestamp.nanoseconds);
}

} // verus!
