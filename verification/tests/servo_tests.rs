use dantesync::servo::PiServo;

// Gains are scaled by 10^6 and outputs are in milli-PPM, so a gain written
// 0.001 in decimal is 1_000 scaled, and -1.0 PPM is -1_000 milli-PPM.

#[test]
fn test_servo_proportional() {
    // Zero Ki, purely proportional
    let mut servo = PiServo::new(1_000, 0);

    // Offset 1000ns (ahead) -> Error -1000 -> Adj -1.0 ppm
    let adj = servo.sample(1000);
    assert_eq!(adj, -1_000);

    // Offset -500ns (behind) -> Error 500 -> Adj 0.5 ppm
    let adj = servo.sample(-500);
    assert_eq!(adj, 500);
}

#[test]
fn test_servo_integral_accumulation() {
    let mut servo = PiServo::new(0, 1_000); // Pure integral

    // Error -1000. I += -1.0. Adj -1.0
    let adj1 = servo.sample(1000);
    assert_eq!(adj1, -1_000);

    // Error -1000 again. I += -1.0 -> -2.0. Adj -2.0
    let adj2 = servo.sample(1000);
    assert_eq!(adj2, -2_000);
}

#[test]
fn test_servo_reset() {
    let mut servo = PiServo::new(0, 1_000);
    servo.sample(1000); // I = -1.0
    assert!(servo.integral_mppm != 0);

    servo.reset();
    assert_eq!(servo.integral_mppm, 0);

    let adj = servo.sample(0);
    assert_eq!(adj, 0);
}

#[test]
fn test_servo_clamping() {
    let mut servo = PiServo::new(0, 1_000_000); // High Ki (1.0)

    // Huge error to trigger clamp (max 200 PPM)
    servo.sample(-300); // Error 300. I += 300 -> Clamped to 200.

    assert_eq!(servo.integral_mppm, 200_000);

    let adj = servo.sample(0); // Error 0. Adj = I = 200.
    assert_eq!(adj, 200_000);
}

#[test]
fn test_servo_clamp_negative_side() {
    let mut servo = PiServo::new(0, 1_000_000);
    servo.sample(300); // Error -300 -> clamped to -200 PPM
    assert_eq!(servo.integral_mppm, -200_000);
    let adj = servo.sample(0);
    assert_eq!(adj, -200_000);
}
