use mech_car::text::{push_decimal, push_hex_byte, push_hex_word, push_signed_decimal};

#[test]
fn decimal_rendering() {
    for n in [0u32, 7, 10, 99, 100, 305, 65535, u32::MAX] {
        let mut s = String::from("x=");
        push_decimal(&mut s, n);
        assert_eq!(s, format!("x={}", n));
    }
}

#[test]
fn signed_decimal_rendering() {
    for v in [0i32, -1, 1, -45, 45, i32::MIN, i32::MAX] {
        let mut s = String::new();
        push_signed_decimal(&mut s, v);
        assert_eq!(s, format!("{}", v));
    }
}

#[test]
fn hex_rendering() {
    for b in [0u8, 9, 10, 15, 16, 0xab, 0xff] {
        let mut s = String::new();
        push_hex_byte(&mut s, b);
        assert_eq!(s, format!("{:02x}", b));
    }
    for w in [0u16, 0x1f, 0x2a4d, 0xffff] {
        let mut s = String::new();
        push_hex_word(&mut s, w);
        assert_eq!(s, format!("{:04x}", w));
    }
}
