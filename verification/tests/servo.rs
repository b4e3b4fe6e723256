use mech_car::servo::{report_to_angle, Servo, PULSE_CENTRE_US, PULSE_MAX_US, PULSE_MIN_US};
use mech_car::xbox::XboxReport;

fn report_rx(rx: u16) -> XboxReport {
    let mut body = vec![0u8; 16];
    body[4..6].copy_from_slice(&rx.to_le_bytes());
    XboxReport::parse(&body).unwrap()
}

#[test]
fn init_parks_at_centre() {
    assert_eq!(Servo::init().compare_a as i32, PULSE_CENTRE_US);
}

#[test]
fn angle_to_pulse() {
    let mut s = Servo::init();
    for (angle, pulse) in [(0, 1500), (90, 2500), (-90, 500), (45, 2000), (-45, 1000), (1, 1511), (-1, 1489)] {
        s.set_angle(angle);
        assert_eq!(s.compare_a, pulse, "angle {}", angle);
    }
}

#[test]
fn angle_is_clamped() {
    let mut s = Servo::init();
    s.set_angle(180);
    assert_eq!(s.compare_a as i32, PULSE_MAX_US);
    s.set_angle(i32::MIN);
    assert_eq!(s.compare_a as i32, PULSE_MIN_US);
    s.set_angle(i32::MAX);
    assert_eq!(s.compare_a as i32, PULSE_MAX_US);
}

#[test]
fn pulse_is_monotone_and_bounded() {
    let mut s = Servo::init();
    let mut prev = 0u16;
    for angle in -120..=120 {
        s.set_angle(angle);
        assert!(s.compare_a >= prev);
        assert!((500..=2500).contains(&s.compare_a));
        prev = s.compare_a;
    }
}

#[test]
fn centre_recentres() {
    let mut s = Servo::init();
    s.set_angle(60);
    s.centre();
    assert_eq!(s.compare_a, 1500);
}

#[test]
fn stick_deadzone_and_inversion() {
    assert_eq!(report_to_angle(&report_rx(32768)), 0);
    // 5% right of centre is still in the deadzone.
    assert_eq!(report_rx(32768 + 1967).rx_pct(), 6);
    assert_eq!(report_to_angle(&report_rx(32768 + 1966)), 0);
    assert_eq!(report_to_angle(&report_rx(32768 + 1967)), -5);
    assert_eq!(report_to_angle(&report_rx(65535)), -89);
    assert_eq!(report_to_angle(&report_rx(0)), 90);
}

#[test]
fn update_follows_stick_or_recentres() {
    let mut s = Servo::init();
    s.on_update(Some(report_rx(0)));
    assert_eq!(s.compare_a, 2500);
    s.on_update(Some(report_rx(65535)));
    assert_eq!(s.compare_a, 512); // 1500 - 89 * 1000 / 90
    s.on_update(None);
    assert_eq!(s.compare_a, 1500);
}
