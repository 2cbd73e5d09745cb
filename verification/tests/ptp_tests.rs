use dantesync::ptp::{
    uuid_key, PtpParseError, PtpTimestamp, PtpV1Control, PtpV1FollowUpBody, PtpV1Header,
    PtpV1SyncMessageBody, PTP_EVENT_PORT, PTP_GENERAL_PORT, PTP_MULTICAST_OCTETS,
};

#[test]
fn test_ptp_v1_control_from() {
    assert_eq!(PtpV1Control::from(0), PtpV1Control::Sync);
    assert_eq!(PtpV1Control::from(1), PtpV1Control::DelayReq);
    assert_eq!(PtpV1Control::from(2), PtpV1Control::FollowUp);
    assert_eq!(PtpV1Control::from(3), PtpV1Control::DelayResp);
    assert_eq!(PtpV1Control::from(4), PtpV1Control::Management);
    assert_eq!(PtpV1Control::from(5), PtpV1Control::Other);
    assert_eq!(PtpV1Control::from(99), PtpV1Control::Other);
}

#[test]
fn test_parse_header_too_short() {
    let data = [0u8; 35];
    assert!(PtpV1Header::parse(&data).is_err());
    assert_eq!(PtpV1Header::parse(&data).unwrap_err(), PtpParseError::TooShort);
}

#[test]
fn test_parse_header_valid_sync() {
    let mut data = vec![0u8; 36];
    data[0] = 0x10; // Version PTP = 1
    data[3] = 0; // msg length high
    data[32] = 0; // Control = Sync (offset 32)

    // UUID
    data[22] = 0xAA;
    data[23] = 0xBB;
    data[24] = 0xCC;
    data[25] = 0xDD;
    data[26] = 0xEE;
    data[27] = 0xFF;

    // Sequence ID (bytes 30, 31)
    data[30] = 0x01;
    data[31] = 0x02; // 0x0102 = 258

    let header = PtpV1Header::parse(&data).unwrap();
    assert_eq!(header.version_ptp, 1);
    assert_eq!(header.message_type, PtpV1Control::Sync);
    assert_eq!(header.sequence_id, 258);
    assert_eq!(header.source_uuid, [0xAA, 0xBB, 0xCC, 0xDD, 0xEE, 0xFF]);
}

#[test]
fn test_ptp_timestamp_to_nanos() {
    let ts = PtpTimestamp { seconds: 1, nanoseconds: 500 };
    assert_eq!(ts.to_nanos(), 1_000_000_500);
}

#[test]
fn test_parse_followup_body() {
    let mut data = vec![0u8; 16];
    // Padding 6 bytes (0..6)
    // Associated Seq ID (6,7)
    data[6] = 0x00;
    data[7] = 0x05;
    // Seconds (8..11)
    data[8] = 0x00;
    data[9] = 0x00;
    data[10] = 0x00;
    data[11] = 0x0A; // 10 seconds
                     // Nanos (12..15)
    data[12] = 0x00;
    data[13] = 0x00;
    data[14] = 0x01;
    data[15] = 0x00; // 256 nanos

    let body = PtpV1FollowUpBody::parse(&data).unwrap();
    assert_eq!(body.associated_sequence_id, 5);
    assert_eq!(body.precise_origin_timestamp.seconds, 10);
    assert_eq!(body.precise_origin_timestamp.nanoseconds, 256);
}

#[test]
fn test_parse_sync_body_gm_uuid() {
    let mut data = vec![0u8; 20];
    // 13 bytes skip
    // 13: GM UUID start
    data[13] = 0x11;
    data[14] = 0x22;
    data[15] = 0x33;
    data[16] = 0x44;
    data[17] = 0x55;
    data[18] = 0x66;

    let body = PtpV1SyncMessageBody::parse(&data).unwrap();
    assert_eq!(body.grandmaster_clock_uuid, [0x11, 0x22, 0x33, 0x44, 0x55, 0x66]);
}

#[test]
fn test_ptp_port_constants() {
    assert_eq!(PTP_EVENT_PORT, 319);
    assert_eq!(PTP_GENERAL_PORT, 320);
}

#[test]
fn test_port_big_endian() {
    // Port 319 in big-endian: 0x013F
    let be_port = PTP_EVENT_PORT.to_be();
    let bytes = be_port.to_ne_bytes();
    assert_eq!(bytes[0], 0x01);
    assert_eq!(bytes[1], 0x3F);

    // Port 320 in big-endian: 0x0140
    let be_port = PTP_GENERAL_PORT.to_be();
    let bytes = be_port.to_ne_bytes();
    assert_eq!(bytes[0], 0x01);
    assert_eq!(bytes[1], 0x40);
}

#[test]
fn test_multicast_address_bytes() {
    let bytes = PTP_MULTICAST_OCTETS;
    assert_eq!(bytes, [224, 0, 1, 129]);

    // As u32 in network byte order
    let u32_val = u32::from_ne_bytes(bytes);
    assert_ne!(u32_val, 0);
}

#[test]
fn test_header_round_trip() {
    let h = PtpV1Header {
        version_ptp: 1,
        message_length: 0x2C,
        message_type: PtpV1Control::FollowUp,
        source_uuid: [0x00, 0x1D, 0xC1, 0x12, 0x34, 0x56],
        sequence_id: 0xBEEF,
        control: 2,
    };
    let bytes = h.serialize();
    assert_eq!(bytes.len(), 36);
    let parsed = PtpV1Header::parse(&bytes).unwrap();
    assert_eq!(parsed, h);
}

#[test]
fn test_followup_round_trip() {
    let b = PtpV1FollowUpBody {
        associated_sequence_id: 777,
        precise_origin_timestamp: PtpTimestamp { seconds: 123456, nanoseconds: 999_999_999 },
    };
    let bytes = b.serialize();
    assert_eq!(bytes.len(), 16);
    let parsed = PtpV1FollowUpBody::parse(&bytes).unwrap();
    assert_eq!(parsed, b);
}

#[test]
fn test_uuid_key_packs_big_endian() {
    let key = uuid_key(&[0x00, 0x1D, 0xC1, 0xAB, 0xCD, 0xEF]);
    assert_eq!(key, 0x001D_C1AB_CDEF);
    assert_ne!(key, uuid_key(&[0x00, 0x1D, 0xC1, 0xAB, 0xCD, 0xEE]));
}
