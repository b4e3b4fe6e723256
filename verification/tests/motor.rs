use mech_car::motor::{
    report_to_drive, MotorController, MotorDriveActuator, MotorDriveDirection, PWM_MIN_DUTY_COUNT,
    PWM_TOP,
};
use mech_car::xbox::XboxReport;

fn report(lt: u16, rt: u16, rx: u16) -> XboxReport {
    let mut body = vec![0u8; 16];
    body[0..2].copy_from_slice(&32768u16.to_le_bytes());
    body[2..4].copy_from_slice(&32768u16.to_le_bytes());
    body[4..6].copy_from_slice(&rx.to_le_bytes());
    body[6..8].copy_from_slice(&32768u16.to_le_bytes());
    body[8..10].copy_from_slice(&lt.to_le_bytes());
    body[10..12].copy_from_slice(&rt.to_le_bytes());
    XboxReport::parse(&body).unwrap()
}

#[test]
fn init_enables_driver_and_idles() {
    let m = MotorController::init();
    assert!(m.stby);
    assert!(!m.ai1 && !m.ai2 && !m.bi1 && !m.bi2);
    assert_eq!((m.compare_a, m.compare_b), (0, 0));
    assert!(PWM_MIN_DUTY_COUNT < PWM_TOP);
}

#[test]
fn drive_sets_pins_and_duties() {
    let mut m = MotorController::init();
    m.drive(MotorDriveActuator {
        left_pwm_count: 1500,
        right_pwm_count: 4000,
        left_direction: MotorDriveDirection::Backward,
        right_direction: MotorDriveDirection::Forward,
    });
    // Right motor (AI) forward, left motor (BI) backward.
    assert!(m.ai1 && !m.ai2);
    assert!(!m.bi1 && m.bi2);
    // Channel A = right duty, channel B = left duty.
    assert_eq!(m.compare_a, 4000);
    assert_eq!(m.compare_b, 1500);
    assert!(m.stby);
}

#[test]
fn drive_halt_direction_drops_both_inputs() {
    let mut m = MotorController::init();
    m.drive(MotorDriveActuator {
        left_pwm_count: 0,
        right_pwm_count: 0,
        left_direction: MotorDriveDirection::Halt,
        right_direction: MotorDriveDirection::Backward,
    });
    assert!(!m.bi1 && !m.bi2);
    assert!(!m.ai1 && m.ai2);
}

#[test]
fn stop_halts_everything() {
    let mut m = MotorController::init();
    m.drive(MotorDriveActuator {
        left_pwm_count: 3000,
        right_pwm_count: 2000,
        left_direction: MotorDriveDirection::Forward,
        right_direction: MotorDriveDirection::Forward,
    });
    m.stop();
    assert!(!m.ai1 && !m.ai2 && !m.bi1 && !m.bi2);
    assert_eq!((m.compare_a, m.compare_b), (0, 0));
    assert!(m.stby);
}

#[test]
fn failsafe_update_stops() {
    let mut m = MotorController::init();
    let cmd = MotorDriveActuator {
        left_pwm_count: 2500,
        right_pwm_count: 2600,
        left_direction: MotorDriveDirection::Forward,
        right_direction: MotorDriveDirection::Backward,
    };
    m.on_update(Some(cmd));
    assert_eq!((m.compare_a, m.compare_b), (2600, 2500));
    m.on_update(None);
    assert_eq!(m, MotorController::init());
}

#[test]
fn trigger_difference_is_throttle() {
    assert_eq!(report_to_drive(&report(0, 1023, 32768)).throttle, 127);
    assert_eq!(report_to_drive(&report(1023, 0, 32768)).throttle, -127);
    assert_eq!(report_to_drive(&report(500, 500, 32768)).throttle, 0);
    assert_eq!(report_to_drive(&report(0, 512, 32768)).throttle, 63);
    assert_eq!(report_to_drive(&report(512, 0, 32768)).throttle, -63);
}

#[test]
fn right_stick_is_steering() {
    assert_eq!(report_to_drive(&report(0, 0, 32768)).steer, 0);
    assert_eq!(report_to_drive(&report(0, 0, 65535)).steer, 125);
    assert_eq!(report_to_drive(&report(0, 0, 0)).steer, -127);
    assert_eq!(report_to_drive(&report(0, 0, 49152)).steer, 63);
}

#[test]
fn out_of_range_triggers_wrap_into_a_byte() {
    // Triggers never exceed 1023 in a decoded report; a hand-built one shows
    // the narrowing: 65535 * 127 / 1023 = 8135, which is -57 as a byte.
    let mut r = report(0, 0, 32768);
    r.rt = 65535;
    assert_eq!(report_to_drive(&r).throttle, -57);
}
