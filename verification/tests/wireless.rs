use mech_car::board::{reset_reason_text, vreg_text};
use mech_car::wireless::{rssi_text, wifi_status_text, WifiOutcome};

#[test]
fn rssi_categories() {
    assert_eq!(rssi_text(-45), "-45 dBm (Strong)");
    assert_eq!(rssi_text(-50), "-50 dBm (Strong)");
    assert_eq!(rssi_text(-51), "-51 dBm (OK)");
    assert_eq!(rssi_text(-70), "-70 dBm (OK)");
    assert_eq!(rssi_text(-71), "-71 dBm (Weak)");
    assert_eq!(rssi_text(-80), "-80 dBm (Weak)");
    assert_eq!(rssi_text(-85), "-85 dBm");
    assert_eq!(rssi_text(-89), "-89 dBm");
    assert_eq!(rssi_text(-90), "-90 dBm (Unstable)");
    assert_eq!(rssi_text(-120), "-120 dBm (Unstable)");
    assert_eq!(rssi_text(0), "0 dBm (Strong)");
    assert_eq!(rssi_text(12), "12 dBm (Strong)");
    assert_eq!(rssi_text(i32::MAX), "2147483647 dBm (Strong)");
    assert_eq!(rssi_text(i32::MIN + 1), "-2147483647 dBm (Unstable)");
}

#[test]
fn rssi_lines_fit_the_buffer() {
    for v in [-2_000_000_000, -100, -1, 0, 1, 2_000_000_000] {
        assert!(rssi_text(v).len() <= 32);
    }
}

#[test]
fn wifi_status_lines() {
    assert_eq!(wifi_status_text(WifiOutcome::JoinFailed), "Join failed");
    assert_eq!(wifi_status_text(WifiOutcome::NoIpv4Config), "No IPv4 config");
    assert_eq!(wifi_status_text(WifiOutcome::Address([192, 168, 1, 42])), "192.168.1.42");
    assert_eq!(wifi_status_text(WifiOutcome::Address([0, 0, 0, 0])), "0.0.0.0");
    assert_eq!(wifi_status_text(WifiOutcome::Address([255, 255, 255, 255])), "255.255.255.255");
    assert_eq!(wifi_status_text(WifiOutcome::Address([10, 0, 7, 200])), "10.0.7.200");
}

#[test]
fn reset_reasons_in_priority_order() {
    assert_eq!(reset_reason_text(true, true, true), "Debug Port Reset");
    assert_eq!(reset_reason_text(false, true, true), "Run Pin Reset");
    assert_eq!(reset_reason_text(false, false, true), "PwrOn|BrownOut");
    assert_eq!(reset_reason_text(false, false, false), "Invalid Reset Reason");
}

#[test]
fn regulator_lines() {
    assert_eq!(vreg_text(true), "vreg: ok");
    assert_eq!(vreg_text(false), "vreg: bad");
}
