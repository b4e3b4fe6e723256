use mech_car::bluetooth::{
    ad_items_mark_xbox, adv_is_xbox, is_xbox_name, mac_text, report_bytes_text,
    report_handle_text, subscription_status, wants_subscription, AdItem, HidDrawState, HidRedraw,
    HidStatus, XboxFinder,
};

fn name_ad(ty: u8, name: &[u8]) -> Vec<u8> {
    let mut v = vec![(name.len() + 1) as u8, ty];
    v.extend_from_slice(name);
    v
}

#[test]
fn xbox_name_matching() {
    assert!(is_xbox_name("Xbox Wireless Controller"));
    assert!(is_xbox_name("XBOX"));
    assert!(is_xbox_name("my xBoX pad"));
    assert!(is_xbox_name("controller-xbox"));
    assert!(!is_xbox_name("xbo"));
    assert!(!is_xbox_name("x box"));
    assert!(!is_xbox_name(""));
    assert!(!is_xbox_name("Pro Controller"));
}

#[test]
fn advert_with_complete_name() {
    assert!(adv_is_xbox(&name_ad(0x09, b"Xbox Wireless Controller")));
}

#[test]
fn advert_with_shortened_name() {
    let mut ad = vec![0x02, 0x01, 0x06]; // flags first
    ad.extend(name_ad(0x08, b"XBOX"));
    assert!(adv_is_xbox(&ad));
}

#[test]
fn advert_with_gamepad_appearance() {
    assert!(adv_is_xbox(&[0x03, 0x19, 0xc4, 0x03]));
    // Keyboard appearance is not a controller.
    assert!(!adv_is_xbox(&[0x03, 0x19, 0xc1, 0x03]));
    // Appearance shorter than a word.
    assert!(!adv_is_xbox(&[0x02, 0x19, 0xc4]));
}

#[test]
fn advert_without_controller() {
    assert!(!adv_is_xbox(&[]));
    assert!(!adv_is_xbox(&[0x02, 0x01, 0x06]));
    assert!(!adv_is_xbox(&name_ad(0x09, b"Keyboard")));
    // A name that is not UTF-8 is not matched.
    assert!(!adv_is_xbox(&name_ad(0x09, &[0xff, b'x', b'b', b'o', b'x'])));
    // The name must be in a name structure, not in other data.
    assert!(!adv_is_xbox(&name_ad(0xff, b"\x00\x00xbox")));
}

#[test]
fn advert_structures_are_read_in_sequence() {
    // A non-matching name, then the Gamepad appearance.
    let mut ad = name_ad(0x09, b"Keyboard");
    ad.extend_from_slice(&[0x03, 0x19, 0xc4, 0x03]);
    assert!(adv_is_xbox(&ad));
    // A matching name after an appearance of another kind.
    let mut ad = vec![0x03, 0x19, 0xc1, 0x03];
    ad.extend(name_ad(0x08, b"xbox"));
    assert!(adv_is_xbox(&ad));
    // Neither structure matches.
    let mut ad = name_ad(0x09, b"Keyboard");
    ad.extend_from_slice(&[0x03, 0x19, 0xc1, 0x03]);
    assert!(!adv_is_xbox(&ad));
}

#[test]
fn advert_led_by_flags() {
    assert!(adv_is_xbox(&[0x02, 0x01, 0x06, 0x03, 0x19, 0xc4, 0x03]));
    assert!(!adv_is_xbox(&[0x02, 0x01, 0x06, 0x03, 0x19, 0xc1, 0x03]));
    // Manufacturer data and a TX power level before the name.
    let mut ad = vec![0x02, 0x01, 0x06, 0x04, 0xff, 0x06, 0x00, 0x01, 0x02, 0x0a, 0x08];
    ad.extend(name_ad(0x09, b"Xbox Wireless Controller"));
    assert!(adv_is_xbox(&ad));
}

#[test]
fn advert_decoding_continues_after_a_bad_structure() {
    // A zero length is malformed; the structure after it is still read.
    assert!(adv_is_xbox(&[0x00, 0x03, 0x19, 0xc4, 0x03]));
    // A structure longer than the payload is malformed.
    assert!(!adv_is_xbox(&[0x0a, 0x09, b'x', b'b', b'o', b'x']));
}

#[test]
fn decoded_items_matching() {
    let items = vec![
        AdItem::Other,
        AdItem::Malformed,
        AdItem::Unknown { ty: 0x19, data: vec![0xc4, 0x03] },
    ];
    assert!(ad_items_mark_xbox(&items));
    let items = vec![AdItem::CompleteLocalName(b"Gamepad".to_vec()), AdItem::Other];
    assert!(!ad_items_mark_xbox(&items));
    assert!(ad_items_mark_xbox(&vec![AdItem::ShortenedLocalName(b"xbox 1914".to_vec())]));
}

#[test]
fn finder_reports_first_controller_once() {
    let mut f = XboxFinder::new();
    let batch = vec![
        name_ad(0x09, b"Keyboard"),
        name_ad(0x09, b"Xbox Wireless Controller"),
        vec![0x03, 0x19, 0xc4, 0x03],
    ];
    assert_eq!(f.on_adv_reports(&vec![name_ad(0x09, b"Mouse")]), None);
    assert!(!f.done);
    assert_eq!(f.on_adv_reports(&batch), Some(1));
    assert!(f.done);
    assert_eq!(f.on_adv_reports(&batch), None);
}

#[test]
fn finder_hands_over_one_controller_across_batches() {
    let mut f = XboxFinder::new();
    let batches = vec![
        vec![name_ad(0x09, b"Keyboard")],
        vec![],
        vec![name_ad(0x09, b"Mouse"), vec![0x03, 0x19, 0xc4, 0x03], name_ad(0x09, b"xbox")],
        vec![name_ad(0x09, b"Xbox Wireless Controller")],
        vec![vec![0x03, 0x19, 0xc4, 0x03]],
    ];
    let found: Vec<Option<usize>> = batches.iter().map(|b| f.on_adv_reports(b)).collect();
    assert_eq!(found, vec![None, None, Some(1), None, None]);
    assert!(f.done);
}

#[test]
fn mac_is_shown_most_significant_first() {
    assert_eq!(mac_text(&[0x01, 0x02, 0x03, 0x04, 0x05, 0xab]), "ab0504030201");
    assert_eq!(mac_text(&[0xff, 0x8f, 0x28, 0x05, 0xe4, 0xff]), "ffe405288fff");
}

#[test]
fn report_lines() {
    assert_eq!(report_handle_text(0x001f), "rpt h001f");
    assert_eq!(report_handle_text(0xbeef), "rpt hbeef");
    let data = [0x00, 0x80, 0xff, 0x7f, 0x01, 0x10, 0xab, 0xcd, 0xee, 0xee];
    assert_eq!(report_bytes_text(&data), "0080ff7f0110abcd");
    assert_eq!(report_bytes_text(&data[..3]), "0080ff");
    assert_eq!(report_bytes_text(&[]), "");
}

#[test]
fn report_subscription_filter() {
    assert!(wants_subscription(Some(0x2a4d), true));
    assert!(!wants_subscription(Some(0x2a4d), false));
    assert!(!wants_subscription(Some(0x2a4b), true));
    assert!(!wants_subscription(None, true));
}

#[test]
fn hid_status_lines() {
    assert_eq!(subscription_status(0), HidStatus::NoReportSubscribed);
    assert_eq!(subscription_status(3), HidStatus::Live);
    assert_eq!(HidStatus::NoHidService.text(), "NO HID SVC");
    assert_eq!(HidStatus::CharacteristicsError.text(), "CHAR ERR");
    assert_eq!(HidStatus::NoReportSubscribed.text(), "NO HID RPT");
    assert_eq!(HidStatus::Live.text(), "HID LIVE");
    assert_eq!(HidStatus::ListenError.text(), "LISTEN ERR");
}

#[test]
fn redraws_are_throttled() {
    let mut st = HidDrawState::new(0, 200_000);
    assert_eq!(st.on_notification(100_000, 0x20), HidRedraw::Skip);
    assert_eq!(st.on_notification(250_000, 0x20), HidRedraw::Draw { relabel: true });
    assert_eq!(st.on_notification(300_000, 0x20), HidRedraw::Skip);
    assert_eq!(st.on_notification(450_000, 0x20), HidRedraw::Draw { relabel: false });
    assert_eq!(st.on_notification(700_000, 0x24), HidRedraw::Draw { relabel: true });
    assert_eq!(st.shown_handle, Some(0x24));
    assert_eq!(st.last_ticks, 700_000);
}
