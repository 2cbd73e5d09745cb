use dantesync::config::SystemConfig;
use dantesync::controller::{median_of, normalize_phase_offset, ntp_step_needed, PtpController};

fn sync_packet(sequence_id: u16, uuid0: u8) -> Vec<u8> {
    let mut pkt = vec![0u8; 36];
    pkt[0] = 0x10; // version 1
    pkt[30] = (sequence_id >> 8) as u8;
    pkt[31] = (sequence_id & 0xFF) as u8;
    pkt[32] = 0; // control: Sync
    pkt[22] = uuid0;
    pkt
}

fn followup_packet(assoc_id: u16, uuid0: u8, t1_secs: u32, t1_nanos: u32) -> Vec<u8> {
    let mut pkt = vec![0u8; 52];
    pkt[0] = 0x10;
    pkt[30] = 0x00;
    pkt[31] = 0x02;
    pkt[32] = 2; // control: FollowUp
    pkt[22] = uuid0;
    pkt[36 + 6] = (assoc_id >> 8) as u8;
    pkt[36 + 7] = (assoc_id & 0xFF) as u8;
    pkt[36 + 8..36 + 12].copy_from_slice(&t1_secs.to_be_bytes());
    pkt[36 + 12..36 + 16].copy_from_slice(&t1_nanos.to_be_bytes());
    pkt
}

#[test]
fn test_ntp_sync_trigger() {
    // A 100 ms NTP offset is above the 50 ms bound: the loop steps the clock
    // with that magnitude and the reported sign.
    assert!(ntp_step_needed(100_000_000));
    // At exactly 50 ms nothing happens.
    assert!(!ntp_step_needed(50_000_000));
}

#[test]
fn test_ntp_initial_alignment() {
    // A 2 s NTP offset always merits a step, whatever the PTP state is.
    assert!(ntp_step_needed(2_000_000_000));
}

#[test]
fn test_process_sync_followup_flow_with_servo() {
    let mut controller = PtpController::new();

    let sync_pkt = sync_packet(1, 0xAA);
    let fu_pkt = followup_packet(1, 0xAA, 10, 0);

    let t2_ns: i64 = 10_000_000_000; // 10 s after the epoch

    let a1 = controller.process_packet(&sync_pkt, t2_ns, 0);
    assert!(a1.step.is_none() && a1.slew_mppm.is_none());

    let a2 = controller.process_packet(&fu_pkt, t2_ns, 0);
    // settling_threshold is 1, so the single pair locks and slews once.
    assert!(a2.slew_mppm.is_some());
    assert!(a2.step.is_none());

    assert_eq!(controller.valid_count, 1);
}

#[test]
fn test_zero_offset_lock() {
    // Pairs one second apart whose sub-second phases agree exactly: the
    // controller settles on the first pair, never steps, and every slew is
    // zero.
    let mut c = PtpController::new();
    let pairs = [
        (10_000_000_000i64, 100_000_000_000i64),
        (11_000_000_000, 101_000_000_000),
        (12_000_000_000, 102_000_000_000),
    ];
    for (i, (t1, t2)) in pairs.iter().enumerate() {
        let action = c.handle_sync_pair(*t1, *t2, 0);
        assert!(action.step.is_none());
        assert_eq!(action.slew_mppm, Some(0), "pair {}", i);
        assert!(c.clock_settled);
        assert_eq!(c.last_phase_offset_ns, 0);
    }
    assert_eq!(c.servo.integral_mppm, 0);
}

#[test]
fn test_sub_ms_positive_offset() {
    // A constant +500 us phase produces negative adjustments whose
    // magnitude grows while the integral term winds in (the loop is open
    // here: the offset never shrinks in response).
    let cfg = SystemConfig::default();
    let mut c = PtpController::from_config(&cfg);
    let a1 = c.handle_sync_pair(10_000_000_000, 100_000_000_000 + 500_000, 0);
    assert!(a1.step.is_none());
    assert_eq!(a1.slew_mppm, Some(-275_000)); // -250 ppm P + -25 ppm I
    let a2 = c.handle_sync_pair(11_000_000_000, 101_000_000_000 + 500_000, 0);
    assert_eq!(a2.slew_mppm, Some(-300_000)); // integral wound to -50 ppm
}

#[test]
fn test_initial_large_offset_steps_once() {
    // A 50 ms first-lock phase offset steps the clock backwards once and
    // returns the controller to its initial state.
    let mut c = PtpController::new();
    let action = c.handle_sync_pair(10_000_000_000, 100_000_000_000 + 50_000_000, 0);
    let step = action.step.expect("first lock with a large phase must step");
    assert_eq!(step.magnitude_ns, 50_000_000);
    assert_eq!(step.sign, -1);
    assert!(action.slew_mppm.is_none());

    assert_eq!(c.valid_count, 0);
    assert!(!c.clock_settled);
    assert_eq!(c.prev_t1_ns, 0);
    assert_eq!(c.prev_t2_ns, 0);
    assert_eq!(c.servo.integral_mppm, 0);
    assert_eq!(c.pairer.len(), 0);
}

#[test]
fn test_implausible_delta_skips_servo() {
    let mut c = PtpController::new();
    let a1 = c.handle_sync_pair(10_000_000_000, 100_000_000_000, 0);
    assert_eq!(a1.slew_mppm, Some(0));
    // Ten seconds of master delta is far above the 2 s plausibility bound:
    // the pair only refreshes the previous-pair fields.
    let a2 = c.handle_sync_pair(20_000_000_000, 110_000_000_000, 0);
    assert!(a2.slew_mppm.is_none() && a2.step.is_none());
    assert_eq!(c.valid_count, 1);
    assert_eq!(c.prev_t1_ns, 20_000_000_000);
}

#[test]
fn test_pairer_bounded_through_controller() {
    // 150 Syncs without FollowUps: the table is collected as soon as it
    // outgrows the soft bound and old entries age past 5 s.
    let mut c = PtpController::new();
    for sid in 0..101u16 {
        let pkt = sync_packet(sid, 0x01);
        c.process_packet(&pkt, 0, 0);
    }
    // All entries are still young at t = 0.
    assert_eq!(c.pairer.len(), 101);
    // One more Sync six seconds later evicts everything stale.
    let pkt = sync_packet(200, 0x01);
    c.process_packet(&pkt, 6_000_000_000, 0);
    assert_eq!(c.pairer.len(), 1);
}

#[test]
fn test_phase_normalization_range() {
    // The normalized phase always lies in (-5*10^8, +5*10^8].
    assert_eq!(normalize_phase_offset(0, 500_000), 500_000);
    assert_eq!(normalize_phase_offset(0, 600_000_000), -400_000_000);
    assert_eq!(normalize_phase_offset(600_000_000, 0), 400_000_000);
    // The boundary case maps onto +5*10^8, never -5*10^8.
    assert_eq!(normalize_phase_offset(500_000_000, 0), 500_000_000);
    assert_eq!(normalize_phase_offset(0, 500_000_000), 500_000_000);
    assert_eq!(normalize_phase_offset(123_456_789_000_000_000, 987_654_321_000_000_000), 0);
}

#[test]
fn test_uuid_mismatch_through_controller() {
    let mut c = PtpController::new();
    let sync_pkt = sync_packet(5, 0xAA);
    c.process_packet(&sync_pkt, 1_000_000_000, 0);
    // FollowUp from a different clock UUID: no pair, entry remains.
    let fu_pkt = followup_packet(5, 0xBB, 1, 0);
    let action = c.process_packet(&fu_pkt, 1_000_000_000, 0);
    assert!(action.slew_mppm.is_none());
    assert_eq!(c.valid_count, 0);
    assert_eq!(c.pairer.len(), 1);
}

#[test]
fn test_median_of_window() {
    // Odd window: the middle value.
    assert_eq!(median_of(&vec![5, 1, 9]), 5);
    // The median rejects a single outlier that the mean would not.
    assert_eq!(median_of(&vec![100, 102, 101, 5_000_000]), 101);
    // Even window: the lower middle.
    assert_eq!(median_of(&vec![4, 1, 3, 2]), 2);
    // Duplicates and negatives.
    assert_eq!(median_of(&vec![-7, -7, 0, -7, 12]), -7);
    assert_eq!(median_of(&vec![42]), 42);
}

#[test]
fn test_step_failed_recovers_locked_operation() {
    // A 50 ms first-lock phase commands a step and resets to the initial
    // state; if the step cannot be applied, the loop reports the failure
    // and the controller falls through to servo operation on that phase.
    let mut c = PtpController::new();
    let action = c.handle_sync_pair(10_000_000_000, 100_000_000_000 + 50_000_000, 0);
    assert!(action.step.is_some());
    assert!(!c.clock_settled);

    let recovery = c.step_failed(7);
    assert!(recovery.step.is_none());
    assert!(recovery.update_rtc);
    // Default gains 0.8/0.2 on a 50 ms offset saturate at the 500 PPM clamp.
    assert_eq!(recovery.slew_mppm, Some(-500_000));
    assert!(c.clock_settled);
    assert_eq!(c.valid_count, 1);
    assert_eq!(c.last_adj_mppm, -500_000);
}

#[test]
fn test_status_snapshot() {
    let mut c = PtpController::new();
    c.handle_sync_pair(10_000_000_000, 100_000_000_000 + 400, 7);
    let s = c.status(1234);
    assert_eq!(s.offset_ns, 400);
    assert!(s.settled);
    assert_eq!(s.updated_ts, 1234);
    assert_eq!(s.drift_mppm, c.last_adj_mppm);
}
