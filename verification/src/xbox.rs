//! Xbox Wireless Controller HID input-report decoding.
//!
//! Layout follows the Xbox Series controller (model 1914) BLE HID report
//! descriptor, which recent firmware also uses on the Xbox One S (1708). The
//! 16-byte report body is:
//!
//! | bytes | field                                              |
//! |-------|----------------------------------------------------|
//! | 0..7  | LX, LY, RX, RY: `u16` LE, 0..65535, centre 32768   |
//! | 8..11 | LT, RT: 10-bit (0..1023), low bits of a `u16`      |
//! | 12    | D-pad hat: low nibble, 1..8 clockwise from up      |
//! | 13    | buttons 1..8                                       |
//! | 14    | buttons 9..15                                      |
//! | 15    | Record/Share (bit 1)                               |
//!
//! Button names follow the common SDL/xpadneo convention, with the
//! characteristic gaps at buttons 3, 6, 9, 10.
use vstd::prelude::*;

verus! {

/// Number of bytes in the report body (excluding any leading report-id byte).
pub const BODY_LEN: usize = 16;

/// Centre value of a stick axis.
pub const AXIS_CENTRE: u16 = 32768;

/// Largest value a trigger can report (10 bits).
pub const TRIGGER_MAX: u16 = 1023;

/// Rust's `/` on integers: the quotient rounded toward zero (for `b > 0`).
pub open spec fn trunc_div(a: int, b: int) -> int {
    if a >= 0 {
        a / b
    } else {
        -((-a) / b)
    }
}

/// The value of a little-endian 16-bit word made of `lo` and `hi`.
pub open spec fn le_word(lo: u8, hi: u8) -> int {
    lo as int + 256 * (hi as int)
}

/// Whether bit `i` (0 = least significant) of `b` is set.
pub open spec fn bit(b: u8, i: u8) -> bool {
    (b >> i) & 1u8 == 1u8
}

/// D-pad (hat switch) direction.
#[derive(Clone, Copy, PartialEq, Eq, Debug, Structural)]
pub enum Dpad {
    Neutral,
    Up,
    UpRight,
    Right,
    DownRight,
    Down,
    DownLeft,
    Left,
    UpLeft,
}

/// The direction that a hat value denotes: 1..8 clockwise from up, anything
/// else neutral.
pub open spec fn hat_direction(v: u8) -> Dpad {
    if v == 1 {
        Dpad::Up
    } else if v == 2 {
        Dpad::UpRight
    } else if v == 3 {
        Dpad::Right
    } else if v == 4 {
        Dpad::DownRight
    } else if v == 5 {
        Dpad::Down
    } else if v == 6 {
        Dpad::DownLeft
    } else if v == 7 {
        Dpad::Left
    } else if v == 8 {
        Dpad::UpLeft
    } else {
        Dpad::Neutral
    }
}

/// The compass label of a direction, "-" when neutral.
pub open spec fn dpad_label(d: Dpad) -> Seq<char> {
    match d {
        Dpad::Neutral => "-"@,
        Dpad::Up => "N"@,
        Dpad::UpRight => "NE"@,
        Dpad::Right => "E"@,
        Dpad::DownRight => "SE"@,
        Dpad::Down => "S"@,
        Dpad::DownLeft => "SW"@,
        Dpad::Left => "W"@,
        Dpad::UpLeft => "NW"@,
    }
}

impl Dpad {
    pub fn from_hat(v: u8) -> (d: Self)
        ensures
            d == hat_direction(v),
            (d != Dpad::Neutral) <==> (1 <= v <= 8),
    {
        match v {
            1 => Dpad::Up,
            2 => Dpad::UpRight,
            3 => Dpad::Right,
            4 => Dpad::DownRight,
            5 => Dpad::Down,
            6 => Dpad::DownLeft,
            7 => Dpad::Left,
            8 => Dpad::UpLeft,
            _ => Dpad::Neutral,
        }
    }

    /// Short label for display, e.g. "NE", or "-" when neutral.
    pub fn label(self) -> (s: &'static str)
        ensures
            s@ == dpad_label(self),
    {
        match self {
            Dpad::Neutral => "-",
            Dpad::Up => "N",
            Dpad::UpRight => "NE",
            Dpad::Right => "E",
            Dpad::DownRight => "SE",
            Dpad::Down => "S",
            Dpad::DownLeft => "SW",
            Dpad::Left => "W",
            Dpad::UpLeft => "NW",
        }
    }
}

/// A decoded controller state snapshot.
#[derive(Clone, Copy, Debug)]
pub struct XboxReport {
    /// Stick axes, 0..65535, centre 32768. Y grows downward.
    pub lx: u16,
    pub ly: u16,
    pub rx: u16,
    pub ry: u16,
    /// Triggers, 0..1023.
    pub lt: u16,
    pub rt: u16,
    pub dpad: Dpad,
    pub a: bool,
    pub b: bool,
    pub x: bool,
    pub y: bool,
    pub lb: bool,
    pub rb: bool,
    pub view: bool,
    pub menu: bool,
    pub xbox: bool,
    pub ls: bool,
    pub rs: bool,
    pub share: bool,
}

/// The report that a 16-byte body encodes.
pub open spec fn report_of_body(d: Seq<u8>) -> XboxReport
    recommends
        d.len() == BODY_LEN,
{
    XboxReport {
        lx: le_word(d[0], d[1]) as u16,
        ly: le_word(d[2], d[3]) as u16,
        rx: le_word(d[4], d[5]) as u16,
        ry: le_word(d[6], d[7]) as u16,
        lt: (le_word(d[8], d[9]) % 1024) as u16,
        rt: (le_word(d[10], d[11]) % 1024) as u16,
        dpad: hat_direction((d[12] % 16) as u8),
        a: bit(d[13], 0),
        b: bit(d[13], 1),
        x: bit(d[13], 3),
        y: bit(d[13], 4),
        lb: bit(d[13], 6),
        rb: bit(d[13], 7),
        view: bit(d[14], 2),
        menu: bit(d[14], 3),
        xbox: bit(d[14], 4),
        ls: bit(d[14], 5),
        rs: bit(d[14], 6),
        share: bit(d[15], 1),
    }
}

/// A HID input report: its last 16 bytes are the body; a shorter one is no
/// gamepad report.
pub open spec fn parse_report(data: Seq<u8>) -> Option<XboxReport> {
    if data.len() < BODY_LEN {
        None
    } else {
        Some(report_of_body(data.subrange(data.len() - BODY_LEN, data.len() as int)))
    }
}

/// A stick axis as a signed percentage of its half-range.
pub open spec fn axis_percent(v: u16) -> int {
    trunc_div((v as int - 32768) * 100, 32768)
}

/// A trigger value as a percentage of its full range.
pub open spec fn trigger_percent(v: u16) -> int {
    (v as int * 100) / 1023
}

/// The little-endian word at `i`, `i + 1` of `d`.
fn u16le(d: &[u8], i: usize) -> (w: u16)
    requires
        i + 1 < d@.len(),
    ensures
        w == le_word(d@[i as int], d@[i + 1]),
{
    let lo = d[i];
    let hi = d[i + 1];
    lo as u16 + (hi as u16) * 256
}

/// Testing a byte against the one-bit mask `1 << i` reads its bit `i`.
proof fn lemma_mask_bit(b: u8)
    ensures
        (b & 0x01u8 != 0) == bit(b, 0),
        (b & 0x02u8 != 0) == bit(b, 1),
        (b & 0x04u8 != 0) == bit(b, 2),
        (b & 0x08u8 != 0) == bit(b, 3),
        (b & 0x10u8 != 0) == bit(b, 4),
        (b & 0x20u8 != 0) == bit(b, 5),
        (b & 0x40u8 != 0) == bit(b, 6),
        (b & 0x80u8 != 0) == bit(b, 7),
{
    assert((b & 0x01u8 != 0) == ((b >> 0u8) & 1u8 == 1u8)) by (bit_vector);
    assert((b & 0x02u8 != 0) == ((b >> 1u8) & 1u8 == 1u8)) by (bit_vector);
    assert((b & 0x04u8 != 0) == ((b >> 2u8) & 1u8 == 1u8)) by (bit_vector);
    assert((b & 0x08u8 != 0) == ((b >> 3u8) & 1u8 == 1u8)) by (bit_vector);
    assert((b & 0x10u8 != 0) == ((b >> 4u8) & 1u8 == 1u8)) by (bit_vector);
    assert((b & 0x20u8 != 0) == ((b >> 5u8) & 1u8 == 1u8)) by (bit_vector);
    assert((b & 0x40u8 != 0) == ((b >> 6u8) & 1u8 == 1u8)) by (bit_vector);
    assert((b & 0x80u8 != 0) == ((b >> 7u8) & 1u8 == 1u8)) by (bit_vector);
}

/// Buttons 1..8 (byte 13): A, B, X, Y, LB, RB.
fn decode_buttons_lo(lo: u8) -> (r: (bool, bool, bool, bool, bool, bool))
    ensures
        r == (bit(lo, 0), bit(lo, 1), bit(lo, 3), bit(lo, 4), bit(lo, 6), bit(lo, 7)),
{
    proof {
        lemma_mask_bit(lo);
    }
    (
        lo & 0x01 != 0,  // button 1
        lo & 0x02 != 0,  // button 2
        lo & 0x08 != 0,  // button 4
        lo & 0x10 != 0,  // button 5
        lo & 0x40 != 0,  // button 7
        lo & 0x80 != 0,  // button 8
    )
}

/// Buttons 9..15 (byte 14): View, Menu, Xbox, LS, RS.
fn decode_buttons_hi(hi: u8) -> (r: (bool, bool, bool, bool, bool))
    ensures
        r == (bit(hi, 2), bit(hi, 3), bit(hi, 4), bit(hi, 5), bit(hi, 6)),
{
    proof {
        lemma_mask_bit(hi);
    }
    (
        hi & 0x04 != 0,  // button 11
        hi & 0x08 != 0,  // button 12
        hi & 0x10 != 0,  // button 13 (guide)
        hi & 0x20 != 0,  // button 14 (left stick click)
        hi & 0x40 != 0,  // button 15 (right stick click)
    )
}

/// The low 10 bits of a little-endian word (a trigger reading).
fn trigger_word(d: &[u8], i: usize) -> (w: u16)
    requires
        i + 1 < d@.len(),
    ensures
        w == le_word(d@[i as int], d@[i + 1]) % 1024,
{
    let raw = u16le(d, i);
    assert(raw & 0x03ffu16 == raw % 1024) by (bit_vector);
    raw & 0x03ff
}

/// The D-pad direction from the low nibble of a byte.
fn hat_of(b: u8) -> (d: Dpad)
    ensures
        d == hat_direction((b % 16) as u8),
{
    assert(b & 0x0fu8 == b % 16) by (bit_vector);
    Dpad::from_hat(b & 0x0f)
}

/// Decode the 16-byte body starting at `start`.
fn decode_body(data: &[u8], start: usize) -> (r: XboxReport)
    requires
        start + BODY_LEN <= data.len(),
    ensures
        r == report_of_body(data@.subrange(start as int, start + BODY_LEN)),
{
    let ghost d = data@.subrange(start as int, start + BODY_LEN);
    let lx = u16le(data, start);
    let ly = u16le(data, start + 2);
    let rx = u16le(data, start + 4);
    let ry = u16le(data, start + 6);
    let lt = trigger_word(data, start + 8);
    let rt = trigger_word(data, start + 10);
    let dpad = hat_of(data[start + 12]);
    let (a, b, x, y, lb, rb) = decode_buttons_lo(data[start + 13]);
    let (view, menu, xbox, ls, rs) = decode_buttons_hi(data[start + 14]);
    proof {
        lemma_mask_bit(data@[start + 15]);
    }
    let share = data[start + 15] & 0x02 != 0;
    assert(forall|k: int| 0 <= k < 16 ==> d[k] == data@[start + k]);
    XboxReport { lx, ly, rx, ry, lt, rt, dpad, a, b, x, y, lb, rb, view, menu, xbox, ls, rs, share }
}

impl XboxReport {
    /// Decode a HID input report. Tolerates an optional leading report-id byte
    /// (the report body is taken as the last [`BODY_LEN`] bytes). Returns `None`
    /// if the slice is too short to be a gamepad report.
    pub fn parse(data: &[u8]) -> (r: Option<Self>)
        ensures
            r == parse_report(data@),
            r is Some <==> data@.len() >= BODY_LEN,
            r matches Some(rep) ==> rep.lt <= TRIGGER_MAX && rep.rt <= TRIGGER_MAX,
    {
        if data.len() < BODY_LEN {
            return None;
        }
        let start = data.len() - BODY_LEN;
        Some(decode_body(data, start))
    }

    /// Left stick X axis as a signed percentage, -100..100 (centre = 0).
    pub fn lx_pct(&self) -> (p: i32)
        ensures
            p == axis_percent(self.lx),
    {
        axis_pct(self.lx)
    }

    /// Left stick Y axis as a signed percentage, -100..100 (centre = 0).
    pub fn ly_pct(&self) -> (p: i32)
        ensures
            p == axis_percent(self.ly),
    {
        axis_pct(self.ly)
    }

    /// Right stick X axis as a signed percentage, -100..100 (centre = 0).
    pub fn rx_pct(&self) -> (p: i32)
        ensures
            p == axis_percent(self.rx),
    {
        axis_pct(self.rx)
    }

    /// Right stick Y axis as a signed percentage, -100..100 (centre = 0).
    pub fn ry_pct(&self) -> (p: i32)
        ensures
            p == axis_percent(self.ry),
    {
        axis_pct(self.ry)
    }

    /// Left trigger as a percentage, 0..100.
    pub fn lt_pct(&self) -> (p: u32)
        ensures
            p == trigger_percent(self.lt),
    {
        self.lt as u32 * 100 / 1023
    }

    /// Right trigger as a percentage, 0..100.
    pub fn rt_pct(&self) -> (p: u32)
        ensures
            p == trigger_percent(self.rt),
    {
        self.rt as u32 * 100 / 1023
    }
}

/// Map a 0..65535 axis (centre 32768) to a signed -100..100 percentage.
pub fn axis_pct(v: u16) -> (p: i32)
    ensures
        p == axis_percent(v),
        -100 <= p <= 99,
{
    (v as i32 - 32768) * 100 / 32768
}

// ---------------------------------------------------------------------------
// Laws
// ---------------------------------------------------------------------------

/// A leading report-id byte (or any prefix) in front of a full report body
/// does not change what the report decodes to.
pub proof fn lemma_parse_ignores_prefix(prefix: Seq<u8>, body: Seq<u8>)
    requires
        body.len() == BODY_LEN,
    ensures
        parse_report(prefix + body) == parse_report(body),
{
    let data = prefix + body;
    assert(data.subrange(data.len() - BODY_LEN, data.len() as int) =~= body);
    assert(body.subrange(0, BODY_LEN as int) =~= body);
}

/// Every report decoded from bytes has its triggers in 0..=1023.
pub proof fn lemma_parsed_triggers_in_range(data: Seq<u8>)
    ensures
        parse_report(data) matches Some(r) ==> r.lt <= TRIGGER_MAX && r.rt <= TRIGGER_MAX,
{
}

/// A stick axis reads 0% at its centre, -100% fully one way and 99% fully the
/// other; every reading lies in -100..=99.
pub proof fn lemma_axis_percent_range(v: u16)
    ensures
        -100 <= axis_percent(v) <= 99,
        axis_percent(AXIS_CENTRE) == 0,
        axis_percent(0) == -100,
        axis_percent(65535) == 99,
{
}

/// The axis percentage never decreases as the axis value grows.
pub proof fn lemma_axis_percent_monotone(a: u16, b: u16)
    requires
        a <= b,
    ensures
        axis_percent(a) <= axis_percent(b),
{
    let x = (a as int - 32768) * 100;
    let y = (b as int - 32768) * 100;
    assert(x <= y) by (nonlinear_arith)
        requires
            a <= b,
            x == (a as int - 32768) * 100,
            y == (b as int - 32768) * 100,
    ;
    if x >= 0 {
        vstd::arithmetic::div_mod::lemma_div_is_ordered(x, y, 32768);
    } else if y >= 0 {
    } else {
        vstd::arithmetic::div_mod::lemma_div_is_ordered(-y, -x, 32768);
    }
}

/// A trigger in its 10-bit range reads 0..=100%, with 0 at rest and 100 fully
/// pressed; the percentage never decreases as the trigger is pressed further.
pub proof fn lemma_trigger_percent(a: u16, b: u16)
    requires
        a <= b <= TRIGGER_MAX,
    ensures
        0 <= trigger_percent(a) <= trigger_percent(b) <= 100,
        trigger_percent(0) == 0,
        trigger_percent(TRIGGER_MAX) == 100,
{
    assert(a * 100 <= b * 100);
    vstd::arithmetic::div_mod::lemma_div_is_ordered(a * 100, b * 100, 1023);
    vstd::arithmetic::div_mod::lemma_div_is_ordered(b * 100, 102300, 1023);
}

/// Bit `i` of a byte read arithmetically: the quotient by 2^i is odd.
proof fn lemma_bit_is_arith(b: u8)
    ensures
        bit(b, 0) == (b % 2 == 1),
        bit(b, 1) == ((b / 2) % 2 == 1),
        bit(b, 2) == ((b / 4) % 2 == 1),
        bit(b, 3) == ((b / 8) % 2 == 1),
        bit(b, 4) == ((b / 16) % 2 == 1),
        bit(b, 5) == ((b / 32) % 2 == 1),
        bit(b, 6) == ((b / 64) % 2 == 1),
        bit(b, 7) == ((b / 128) % 2 == 1),
{
    assert(((b >> 0u8) & 1u8 == 1u8) == (b % 2 == 1)) by (bit_vector);
    assert(((b >> 1u8) & 1u8 == 1u8) == ((b / 2) % 2 == 1)) by (bit_vector);
    assert(((b >> 2u8) & 1u8 == 1u8) == ((b / 4) % 2 == 1)) by (bit_vector);
    assert(((b >> 3u8) & 1u8 == 1u8) == ((b / 8) % 2 == 1)) by (bit_vector);
    assert(((b >> 4u8) & 1u8 == 1u8) == ((b / 16) % 2 == 1)) by (bit_vector);
    assert(((b >> 5u8) & 1u8 == 1u8) == ((b / 32) % 2 == 1)) by (bit_vector);
    assert(((b >> 6u8) & 1u8 == 1u8) == ((b / 64) % 2 == 1)) by (bit_vector);
    assert(((b >> 7u8) & 1u8 == 1u8) == ((b / 128) % 2 == 1)) by (bit_vector);
}

/// Every field of a decoded body comes from its own fixed place in the byte
/// layout: the four stick words in bytes 0..8 (little endian), the triggers as
/// the low 10 bits of the words in bytes 8..12, the hat as the low nibble of
/// byte 12, and each button as one fixed bit: A, B, X, Y, LB, RB are bits
/// 0, 1, 3, 4, 6, 7 of byte 13; View, Menu, Xbox, LS, RS are bits 2..6 of
/// byte 14; Share is bit 1 of byte 15.
pub proof fn lemma_report_layout(d: Seq<u8>)
    requires
        d.len() == BODY_LEN,
    ensures
        parse_report(d) matches Some(r) && {
            &&& r.lx == d[0] + 256 * d[1]
            &&& r.ly == d[2] + 256 * d[3]
            &&& r.rx == d[4] + 256 * d[5]
            &&& r.ry == d[6] + 256 * d[7]
            &&& r.lt == (d[8] + 256 * d[9]) % 1024
            &&& r.rt == (d[10] + 256 * d[11]) % 1024
            &&& r.dpad == hat_direction((d[12] % 16) as u8)
            &&& r.a == (d[13] % 2 == 1)
            &&& r.b == ((d[13] / 2) % 2 == 1)
            &&& r.x == ((d[13] / 8) % 2 == 1)
            &&& r.y == ((d[13] / 16) % 2 == 1)
            &&& r.lb == ((d[13] / 64) % 2 == 1)
            &&& r.rb == ((d[13] / 128) % 2 == 1)
            &&& r.view == ((d[14] / 4) % 2 == 1)
            &&& r.menu == ((d[14] / 8) % 2 == 1)
            &&& r.xbox == ((d[14] / 16) % 2 == 1)
            &&& r.ls == ((d[14] / 32) % 2 == 1)
            &&& r.rs == ((d[14] / 64) % 2 == 1)
            &&& r.share == ((d[15] / 2) % 2 == 1)
        },
{
    assert(d.subrange(0, BODY_LEN as int) =~= d);
    lemma_bit_is_arith(d[13]);
    lemma_bit_is_arith(d[14]);
    lemma_bit_is_arith(d[15]);
}

/// The hat values 1..=8 name the eight compass directions clockwise from up,
/// and every other value is neutral.
pub proof fn lemma_hat_compass(v: u8)
    ensures
        v == 1 ==> dpad_label(hat_direction(v)) == "N"@,
        v == 2 ==> dpad_label(hat_direction(v)) == "NE"@,
        v == 3 ==> dpad_label(hat_direction(v)) == "E"@,
        v == 4 ==> dpad_label(hat_direction(v)) == "SE"@,
        v == 5 ==> dpad_label(hat_direction(v)) == "S"@,
        v == 6 ==> dpad_label(hat_direction(v)) == "SW"@,
        v == 7 ==> dpad_label(hat_direction(v)) == "W"@,
        v == 8 ==> dpad_label(hat_direction(v)) == "NW"@,
        (v == 0 || v > 8) ==> hat_direction(v) == Dpad::Neutral && dpad_label(hat_direction(v))
            == "-"@,
{
}

/// The axis percentage is `(v - 32768) * 100 / 32768` rounded toward zero:
/// it has the sign of the offset from centre, and its magnitude is the
/// largest whole percentage not above the exact one.
pub proof fn lemma_axis_percent_exact(v: u16)
    ensures
        ({
            let off = (v as int - 32768) * 100;
            let p = axis_percent(v);
            &&& off >= 0 ==> p >= 0 && p * 32768 <= off < (p + 1) * 32768
            &&& off < 0 ==> p <= 0 && -p * 32768 <= -off < (-p + 1) * 32768
        }),
{
}

/// The trigger percentage is `v * 100 / 1023` rounded down.
pub proof fn lemma_trigger_percent_exact(v: u16)
    ensures
        trigger_percent(v) * 1023 <= v * 100 < (trigger_percent(v) + 1) * 1023,
{
}

} // verus!
