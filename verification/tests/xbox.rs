use mech_car::xbox::{axis_pct, Dpad, XboxReport};

fn body() -> Vec<u8> {
    vec![
        0x00, 0x80, // LX = 32768
        0xff, 0xff, // LY = 65535
        0x00, 0x00, // RX = 0
        0x34, 0x12, // RY = 0x1234
        0xff, 0xff, // LT raw 0xffff -> 1023
        0x00, 0x02, // RT raw 0x0200 -> 512
        0xf3, // hat low nibble 3 -> Right
        0b1101_1011, // A, B, X, Y, LB, RB all set (bits 0,1,3,4,6,7)
        0b0111_1100, // View, Menu, Xbox, LS, RS
        0x02, // Share
    ]
}

#[test]
fn parse_full_body() {
    let r = XboxReport::parse(&body()).expect("16 bytes is a report");
    assert_eq!(r.lx, 32768);
    assert_eq!(r.ly, 65535);
    assert_eq!(r.rx, 0);
    assert_eq!(r.ry, 0x1234);
    assert_eq!(r.lt, 1023);
    assert_eq!(r.rt, 512);
    assert_eq!(r.dpad, Dpad::Right);
    assert!(r.a && r.b && r.x && r.y && r.lb && r.rb);
    assert!(r.view && r.menu && r.xbox && r.ls && r.rs && r.share);
}

#[test]
fn parse_gaps_between_buttons_are_ignored() {
    let mut b = vec![0u8; 16];
    b[13] = 0b0010_0100; // buttons 3 and 6 (no mapping)
    b[14] = 0b1000_0011; // buttons 9, 10 and a stray high bit
    b[15] = 0xfd; // everything but the Share bit
    let r = XboxReport::parse(&b).unwrap();
    assert!(!(r.a || r.b || r.x || r.y || r.lb || r.rb));
    assert!(!(r.view || r.menu || r.xbox || r.ls || r.rs || r.share));
    assert_eq!(r.dpad, Dpad::Neutral);
}

#[test]
fn parse_with_report_id_prefix() {
    let mut with_id = vec![0x01u8];
    with_id.extend(body());
    let a = XboxReport::parse(&with_id).unwrap();
    let b = XboxReport::parse(&body()).unwrap();
    assert_eq!(a.lx, b.lx);
    assert_eq!(a.ry, b.ry);
    assert_eq!(a.lt, b.lt);
    assert_eq!(a.dpad, b.dpad);
    assert_eq!(a.share, b.share);
}

#[test]
fn parse_takes_last_sixteen_bytes() {
    let mut data = vec![0xaau8, 0xbb, 0xcc];
    data.extend(body());
    let r = XboxReport::parse(&data).unwrap();
    assert_eq!(r.lx, 32768);
    assert_eq!(r.rt, 512);
}

#[test]
fn parse_rejects_short_input() {
    assert!(XboxReport::parse(&[]).is_none());
    assert!(XboxReport::parse(&body()[..15]).is_none());
}

#[test]
fn hat_values() {
    let expected = [
        Dpad::Neutral,
        Dpad::Up,
        Dpad::UpRight,
        Dpad::Right,
        Dpad::DownRight,
        Dpad::Down,
        Dpad::DownLeft,
        Dpad::Left,
        Dpad::UpLeft,
    ];
    for v in 0u8..=8 {
        assert_eq!(Dpad::from_hat(v), expected[v as usize]);
    }
    assert_eq!(Dpad::from_hat(9), Dpad::Neutral);
    assert_eq!(Dpad::from_hat(15), Dpad::Neutral);
}

#[test]
fn dpad_labels() {
    assert_eq!(Dpad::Neutral.label(), "-");
    assert_eq!(Dpad::Up.label(), "N");
    assert_eq!(Dpad::UpRight.label(), "NE");
    assert_eq!(Dpad::Right.label(), "E");
    assert_eq!(Dpad::DownRight.label(), "SE");
    assert_eq!(Dpad::Down.label(), "S");
    assert_eq!(Dpad::DownLeft.label(), "SW");
    assert_eq!(Dpad::Left.label(), "W");
    assert_eq!(Dpad::UpLeft.label(), "NW");
}

#[test]
fn axis_percentages() {
    assert_eq!(axis_pct(0), -100);
    assert_eq!(axis_pct(16384), -50);
    assert_eq!(axis_pct(32767), 0);
    assert_eq!(axis_pct(32768), 0);
    assert_eq!(axis_pct(49152), 50);
    assert_eq!(axis_pct(65535), 99);
    // Truncation toward zero on both sides of the centre.
    assert_eq!(axis_pct(32768 - 400), -1);
    assert_eq!(axis_pct(32768 + 400), 1);
}

#[test]
fn axis_percentage_is_monotone() {
    let mut prev = axis_pct(0);
    for v in (0u32..=65535).step_by(7) {
        let p = axis_pct(v as u16);
        assert!(p >= prev);
        assert!((-100..=99).contains(&p));
        prev = p;
    }
}

#[test]
fn stick_and_trigger_percentages() {
    let r = XboxReport::parse(&body()).unwrap();
    assert_eq!(r.lx_pct(), 0);
    assert_eq!(r.ly_pct(), 99);
    assert_eq!(r.rx_pct(), -100);
    assert_eq!(r.ry_pct(), (0x1234 - 32768) * 100 / 32768);
    assert_eq!(r.lt_pct(), 100);
    assert_eq!(r.rt_pct(), 50);
    let mut idle = r;
    idle.lt = 0;
    idle.rt = 1;
    assert_eq!(idle.lt_pct(), 0);
    assert_eq!(idle.rt_pct(), 0);
}
