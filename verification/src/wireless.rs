//! Status lines of the CYW43 (Pico W) Wi-Fi bring-up: the DHCP outcome and
//! the live signal strength.
use vstd::prelude::*;
use crate::text::{decimal, lemma_decimal_len, push_char, push_decimal, push_signed_decimal, signed_decimal};

verus! {

/// Capacity of a wireless status line.
pub const STATUS_LINE_CAP: usize = 32;

/// How joining the network and waiting for a DHCP lease ended.
#[derive(Clone, Copy, PartialEq, Eq, Debug)]
pub enum WifiOutcome {
    /// The network could not be joined.
    JoinFailed,
    /// The link came up but no IPv4 configuration was obtained.
    NoIpv4Config,
    /// The IPv4 address leased, octets in network order.
    Address([u8; 4]),
}

/// Dotted-quad rendering of an IPv4 address.
pub open spec fn ipv4_chars(a: Seq<u8>) -> Seq<char> {
    decimal(a[0] as nat) + seq!['.'] + decimal(a[1] as nat) + seq!['.'] + decimal(a[2] as nat)
        + seq!['.'] + decimal(a[3] as nat)
}

/// The status line for a bring-up outcome.
pub open spec fn wifi_status_chars(o: WifiOutcome) -> Seq<char> {
    match o {
        WifiOutcome::JoinFailed => "Join failed"@,
        WifiOutcome::NoIpv4Config => "No IPv4 config"@,
        WifiOutcome::Address(a) => ipv4_chars(a@),
    }
}

/// The signal-quality word for an RSSI magnitude (dB below 1 mW): nothing
/// between 80 and 90.
pub open spec fn rssi_quality(magnitude: int) -> Seq<char> {
    if magnitude <= 50 {
        " (Strong)"@
    } else if magnitude <= 70 {
        " (OK)"@
    } else if magnitude <= 80 {
        " (Weak)"@
    } else if magnitude >= 90 {
        " (Unstable)"@
    } else {
        Seq::empty()
    }
}

/// The RSSI line for a reading of `rssi` dBm.
pub open spec fn rssi_chars(rssi: int) -> Seq<char> {
    signed_decimal(rssi) + " dBm"@ + rssi_quality(-rssi)
}

/// A short, display-friendly status line for the bring-up outcome: the
/// acquired IPv4 address on success, or a failure reason.
pub fn wifi_status_text(outcome: WifiOutcome) -> (s: String)
    ensures
        s@ == wifi_status_chars(outcome),
{
    match outcome {
        WifiOutcome::JoinFailed => String::from_str("Join failed"),
        WifiOutcome::NoIpv4Config => String::from_str("No IPv4 config"),
        WifiOutcome::Address(a) => {
            let mut s = String::new();
            push_decimal(&mut s, a[0] as u32);
            push_char(&mut s, '.');
            push_decimal(&mut s, a[1] as u32);
            push_char(&mut s, '.');
            push_decimal(&mut s, a[2] as u32);
            push_char(&mut s, '.');
            push_decimal(&mut s, a[3] as u32);
            assert(s@ =~= ipv4_chars(a@));
            s
        },
    }
}

/// The signal-strength line for a reading of `rssi` dBm, e.g.
/// "-45 dBm (Strong)".
pub fn rssi_text(rssi: i32) -> (s: String)
    requires
        rssi > i32::MIN,
    ensures
        s@ == rssi_chars(rssi as int),
{
    // Flip to positive to get the magnitude.
    let magnitude = -rssi;
    let mut s = String::new();
    push_signed_decimal(&mut s, -magnitude);
    s.append(" dBm");
    if magnitude <= 50 {
        s.append(" (Strong)");
    } else if magnitude > 50 && magnitude <= 70 {
        s.append(" (OK)");
    } else if magnitude > 70 && magnitude <= 80 {
        s.append(" (Weak)");
    } else if magnitude >= 90 {
        s.append(" (Unstable)");
    }
    assert(s@ =~= rssi_chars(rssi as int));
    s
}

// ---------------------------------------------------------------------------
// Laws
// ---------------------------------------------------------------------------

/// An IPv4 address renders in at most 15 characters, so every bring-up
/// status line fits its 32-character buffer.
pub proof fn lemma_wifi_status_fits(o: WifiOutcome)
    ensures
        wifi_status_chars(o).len() <= STATUS_LINE_CAP,
{
    reveal_strlit("Join failed");
    reveal_strlit("No IPv4 config");
    if let WifiOutcome::Address(a) = o {
        lemma_decimal_len(a@[0] as nat);
        lemma_decimal_len(a@[1] as nat);
        lemma_decimal_len(a@[2] as nat);
        lemma_decimal_len(a@[3] as nat);
    }
}

/// Every RSSI line fits its 32-character buffer.
pub proof fn lemma_rssi_line_fits(rssi: i32)
    requires
        rssi > i32::MIN,
    ensures
        rssi_chars(rssi as int).len() <= STATUS_LINE_CAP,
{
    reveal_strlit(" dBm");
    reveal_strlit(" (Strong)");
    reveal_strlit(" (OK)");
    reveal_strlit(" (Weak)");
    reveal_strlit(" (Unstable)");
    if rssi < 0 {
        lemma_decimal_len((-rssi) as nat);
    } else {
        lemma_decimal_len(rssi as nat);
    }
}

/// The signal-quality word by magnitude (dB below 1 mW): "Strong" up to 50,
/// "OK" above 50 up to 70, "Weak" above 70 up to 80, none above 80 and below
/// 90, "Unstable" from 90.
pub proof fn lemma_rssi_quality_bands(m: int)
    ensures
        m <= 50 ==> rssi_quality(m) == " (Strong)"@,
        50 < m <= 70 ==> rssi_quality(m) == " (OK)"@,
        70 < m <= 80 ==> rssi_quality(m) == " (Weak)"@,
        80 < m < 90 ==> rssi_quality(m).len() == 0,
        m >= 90 ==> rssi_quality(m) == " (Unstable)"@,
{
}

/// A dotted-quad address is the four octets in order, in decimal, separated
/// by three dots.
pub proof fn lemma_ipv4_layout(a: Seq<u8>)
    requires
        a.len() == 4,
    ensures
        ipv4_chars(a) == decimal(a[0] as nat) + "."@ + decimal(a[1] as nat) + "."@ + decimal(
            a[2] as nat,
        ) + "."@ + decimal(a[3] as nat),
{
    reveal_strlit(".");
    assert("."@ =~= seq!['.']);
}

} // verus!
