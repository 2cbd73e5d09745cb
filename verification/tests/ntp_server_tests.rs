use std::time::{SystemTime, UNIX_EPOCH};

use dantesync::ntp_server::{
    build_response, ntp_request_accepted, ntp_to_system_time, system_time_to_ntp, LI_NO_WARNING,
    MODE_CLIENT, MODE_SERVER, NTP_EPOCH_OFFSET, NTP_PACKET_SIZE, REF_ID_LOCL,
};

#[test]
fn test_system_time_to_ntp_epoch() {
    // Unix epoch (1970-01-01 00:00:00) should be NTP epoch + 70 years
    let (secs, _) = system_time_to_ntp(0, 0);
    assert_eq!(secs as u64, NTP_EPOCH_OFFSET);
}

#[test]
fn test_system_time_to_ntp_roundtrip() {
    let original = SystemTime::now().duration_since(UNIX_EPOCH).unwrap();
    let (secs, frac) = system_time_to_ntp(original.as_secs(), original.subsec_nanos());
    let (rec_secs, rec_nanos) = ntp_to_system_time(secs, frac);

    // Should be within 1µs (due to fractional precision)
    assert_eq!(rec_secs, original.as_secs());
    let diff = (rec_nanos as i64 - original.subsec_nanos() as i64).abs();
    assert!(diff < 10_000, "Roundtrip error: {:?} ns", diff);
}

#[test]
fn test_ntp_fractional_conversion() {
    // Test 0.5 seconds
    let (_, frac) = system_time_to_ntp(0, 500_000_000);
    // 0.5 * 2^32 = 2147483648
    assert!((frac as i64 - 2147483648).abs() < 1000, "Fractional 0.5s conversion: {}", frac);
}

#[test]
fn test_ntp_fractional_quarter() {
    // Test 0.25 seconds
    let (_, frac) = system_time_to_ntp(0, 250_000_000);
    // 0.25 * 2^32 = 1073741824
    assert!((frac as i64 - 1073741824).abs() < 1000, "Fractional 0.25s conversion: {}", frac);
}

#[test]
fn test_ntp_packet_constants() {
    assert_eq!(NTP_PACKET_SIZE, 48);
    assert_eq!(NTP_EPOCH_OFFSET, 2_208_988_800);
    assert_eq!(LI_NO_WARNING, 0);
    assert_eq!(MODE_SERVER, 4);
    assert_eq!(MODE_CLIENT, 3);
}

#[test]
fn test_ref_id_locl() {
    // "LOCL" in ASCII
    let bytes = REF_ID_LOCL.to_be_bytes();
    assert_eq!(bytes, [b'L', b'O', b'C', b'L']);
}

#[test]
fn ntp_server_test_build_response_format() {
    let originate_ts = [0u8; 8];
    let response = build_response(4, 3, &originate_ts, 0, 0, 100, 200, 0, 0);
    assert_eq!(response.len(), NTP_PACKET_SIZE);

    // Check header
    let li_vn_mode = response[0];
    let li = (li_vn_mode >> 6) & 0x03;
    let vn = (li_vn_mode >> 3) & 0x07;
    let mode = li_vn_mode & 0x07;

    assert_eq!(li, LI_NO_WARNING);
    assert_eq!(vn, 4); // Version 4
    assert_eq!(mode, MODE_SERVER);

    // Check stratum
    assert_eq!(response[1], 3);

    // Check reference ID
    assert_eq!(&response[12..16], b"LOCL");
}

#[test]
fn test_response_copies_originate_timestamp() {
    let originate_ts = [1, 2, 3, 4, 5, 6, 7, 8];
    let response = build_response(4, 3, &originate_ts, 0, 0, 100, 200, 0, 0);

    // Originate timestamp should be at bytes 24-31
    assert_eq!(&response[24..32], &originate_ts);
}

#[test]
fn test_receive_timestamp_in_response() {
    let recv_secs: u32 = 0x12345678;
    let recv_frac: u32 = 0xABCDEF00;
    let response = build_response(4, 3, &[0; 8], 0, 0, recv_secs, recv_frac, 0, 0);

    // Receive timestamp at bytes 32-39
    let recv_secs_out = u32::from_be_bytes([response[32], response[33], response[34], response[35]]);
    let recv_frac_out = u32::from_be_bytes([response[36], response[37], response[38], response[39]]);

    assert_eq!(recv_secs_out, recv_secs);
    assert_eq!(recv_frac_out, recv_frac);
}

#[test]
fn test_version_3_response() {
    let response = build_response(3, 3, &[0; 8], 0, 0, 100, 200, 0, 0);

    let vn = (response[0] >> 3) & 0x07;
    assert_eq!(vn, 3, "Response should match client's version");
}

#[test]
fn test_ntp_to_system_time_clamps_before_epoch() {
    // An NTP timestamp before 1970 clamps to the Unix epoch.
    let (secs, nanos) = ntp_to_system_time(100, 0);
    assert_eq!(secs, 0);
    assert_eq!(nanos, 0);
}

#[test]
fn test_request_validation() {
    // A version-4 client request (LI 0, VN 4, mode 3).
    assert!(ntp_request_accepted(0x23));
    // A version-3 client request.
    assert!(ntp_request_accepted(0x1B));
    // A server-mode packet is ignored.
    assert!(!ntp_request_accepted(0x24));
    // A version-2 packet is ignored.
    assert!(!ntp_request_accepted(0x13));
}
