use dantesync::clock::{freq_offset_of_mppm, paced_adjustment, step_filetime, step_timeval, LinuxClock, WindowsClock};
use dantesync::config::SystemConfig;
use dantesync::net::{cmsg_find_u64, extract_ptp_payload};
use dantesync::ntp::NtpClient;
use dantesync::status::SyncStatus;

#[test]
fn test_config_defaults() {
    let cfg = SystemConfig::default();
    assert_eq!(cfg.servo.kp_scaled, 500); // 0.0005
    assert_eq!(cfg.servo.ki_scaled, 50); // 0.00005
    assert_eq!(cfg.servo.max_freq_adj_mppm, 500_000); // 500 PPM
    assert_eq!(cfg.servo.max_integral_mppm, 100_000); // 100 PPM
    assert_eq!(cfg.filters.step_threshold_ns, 5_000_000);
    assert_eq!(cfg.filters.panic_threshold_ns, 10_000_000);
    assert_eq!(cfg.filters.sample_window_size, 4);
    assert_eq!(cfg.filters.min_delta_ns, 1_000_000);
    assert_eq!(cfg.filters.calibration_samples, 0);
    assert!(cfg.filters.ptp_stepping_enabled);
}

#[test]
fn test_config_user_space_defaults() {
    // The set for a platform with jittery user-space receive timestamps:
    // same gains, a sixteen-sample median window, no minimum delta, three
    // calibration samples, and a 50 ms panic threshold.
    let cfg = SystemConfig::user_space_default();
    assert_eq!(cfg.servo.kp_scaled, 500);
    assert_eq!(cfg.servo.ki_scaled, 50);
    assert_eq!(cfg.filters.sample_window_size, 16);
    assert_eq!(cfg.filters.min_delta_ns, 0);
    assert_eq!(cfg.filters.calibration_samples, 3);
    assert_eq!(cfg.filters.step_threshold_ns, 5_000_000);
    assert_eq!(cfg.filters.panic_threshold_ns, 50_000_000);
    assert!(cfg.filters.ptp_stepping_enabled);
}

#[test]
fn test_status_default() {
    let s = SyncStatus::default();
    assert_eq!(s.offset_ns, 0);
    assert_eq!(s.drift_mppm, 0);
    assert!(s.gm_uuid.is_none());
    assert!(!s.settled);
    assert_eq!(s.updated_ts, 0);
}

#[test]
fn test_ntp_client_stores_server() {
    let c = NtpClient::new("pool.ntp.org");
    assert_eq!(c.server(), "pool.ntp.org");
}

#[test]
fn test_linux_clock_records_freq() {
    let c = LinuxClock::from_initial_freq(-12345);
    assert_eq!(c.original_freq, -12345);
}

#[test]
fn test_windows_clock_records_state() {
    let c = WindowsClock::from_initial_state(156_250, 156_250, false);
    assert_eq!(c.nominal_frequency, 156_250);
    assert_eq!(c.original_adjustment, 156_250);
    assert!(!c.original_disabled);
}

#[test]
fn test_paced_adjustment_speed_up() {
    // A typical nominal increment of 156,250 hundred-nanosecond units.
    let nominal: u32 = 156_250;
    // +1 PPM (1000 milli-PPM) is about 0.156 extra units: truncates to 0.
    assert_eq!(paced_adjustment(nominal, 1_000), nominal);
    // +100 PPM adds 15 units; -100 PPM removes them.
    assert_eq!(paced_adjustment(nominal, 100_000), nominal + 15);
    assert_eq!(paced_adjustment(nominal, -100_000), nominal - 15);
    // No adjustment leaves the nominal rate alone.
    assert_eq!(paced_adjustment(nominal, 0), nominal);
}

#[test]
fn test_freq_offset_conversion() {
    // 1 PPM (1000 milli-PPM) is 65536 in the kernel's scaled unit.
    assert_eq!(freq_offset_of_mppm(1_000), 65_536);
    assert_eq!(freq_offset_of_mppm(-1_000), -65_536);
    assert_eq!(freq_offset_of_mppm(0), 0);
    // Half a PPM truncates toward zero.
    assert_eq!(freq_offset_of_mppm(500), 32_768);
}

#[test]
fn test_step_timeval_normalizes() {
    // Forward step across a second boundary.
    assert_eq!(step_timeval(10, 900_000, 0, 200_000, 1), Some((11, 100_000)));
    // Backward step across a second boundary.
    assert_eq!(step_timeval(10, 100_000, 0, 200_000, -1), Some((9, 900_000)));
    // Whole-second steps leave the fraction alone.
    assert_eq!(step_timeval(10, 123, 2, 0, 1), Some((12, 123)));
}

#[test]
fn test_step_timeval_rejects_negative_wallclock() {
    // A 20 s backward step from t = 10 s would make the wallclock negative.
    assert_eq!(step_timeval(10, 0, 20, 0, -1), None);
    // Stepping exactly to zero is allowed.
    assert_eq!(step_timeval(10, 0, 10, 0, -1), Some((0, 0)));
    // One microsecond past zero is refused.
    assert_eq!(step_timeval(10, 0, 10, 1, -1), None);
}

#[test]
fn test_step_filetime_rejects_negative() {
    assert_eq!(step_filetime(1_000, 400, 1), Some(1_400));
    assert_eq!(step_filetime(1_000, 400, -1), Some(600));
    // A backward step to or below zero is refused.
    assert_eq!(step_filetime(400, 400, -1), None);
    assert_eq!(step_filetime(100, 400, -1), None);
}

#[test]
fn test_cmsg_scan_finds_timestamp() {
    // Two records: an unrelated one, then the timestamp record
    // (64-bit length, 32-bit level, 32-bit type, little-endian, 8 bytes of
    // payload, 8-byte alignment).
    let mut buf = vec![0u8; 48];
    // First record: length 17 (aligns to 24), level 1, type 2.
    buf[0..8].copy_from_slice(&17u64.to_le_bytes());
    buf[8..12].copy_from_slice(&1u32.to_le_bytes());
    buf[12..16].copy_from_slice(&2u32.to_le_bytes());
    // Second record at offset 24: length 24, level 0xFFFF, type 0x300A.
    buf[24..32].copy_from_slice(&24u64.to_le_bytes());
    buf[32..36].copy_from_slice(&0xFFFFu32.to_le_bytes());
    buf[36..40].copy_from_slice(&0x300Au32.to_le_bytes());
    buf[40..48].copy_from_slice(&0xDEAD_BEEF_1234u64.to_le_bytes());

    assert_eq!(cmsg_find_u64(&buf, 0xFFFF, 0x300A), Some(0xDEAD_BEEF_1234));
    // A level/type that no record carries is not found.
    assert_eq!(cmsg_find_u64(&buf, 0xFFFF, 0x300B), None);
    // A zero-length record stops the scan.
    buf[0..8].copy_from_slice(&0u64.to_le_bytes());
    assert_eq!(cmsg_find_u64(&buf, 0xFFFF, 0x300A), None);
}

#[test]
fn test_extract_ptp_payload() {
    let mut frame = vec![0u8; 42 + 36];
    frame[12] = 0x08; // EtherType IPv4
    frame[13] = 0x00;
    frame[23] = 17; // UDP
    frame[36] = 0x01; // destination port 319
    frame[37] = 0x3F;
    frame[42] = 0x10; // first payload byte
    let payload = extract_ptp_payload(&frame).expect("PTP frame should yield its payload");
    assert_eq!(payload.len(), 36);
    assert_eq!(payload[0], 0x10);

    // A TCP packet or another port is not PTP.
    frame[23] = 6;
    assert!(extract_ptp_payload(&frame).is_none());
    frame[23] = 17;
    frame[37] = 0x41; // port 321
    assert!(extract_ptp_payload(&frame).is_none());
}
