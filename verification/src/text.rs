//! Building the short status lines shown on the OLED: decimal and lowercase
//! hexadecimal renderings of integers.
use vstd::prelude::*;

verus! {

/// The decimal digit character for `n` in 0..10.
pub open spec fn decimal_digit(n: int) -> char
    recommends
        0 <= n < 10,
{
    (48 + n) as char
}

/// The lowercase hexadecimal digit character for `n` in 0..16.
pub open spec fn hex_digit(n: int) -> char
    recommends
        0 <= n < 16,
{
    if n < 10 {
        (48 + n) as char
    } else {
        (87 + n) as char
    }
}

/// The decimal rendering of a natural number, without leading zeros.
pub open spec fn decimal(n: nat) -> Seq<char>
    decreases n,
{
    if n < 10 {
        seq![decimal_digit(n as int)]
    } else {
        decimal(n / 10).push(decimal_digit((n % 10) as int))
    }
}

/// The decimal rendering of an integer, with a leading '-' when negative.
pub open spec fn signed_decimal(v: int) -> Seq<char> {
    if v < 0 {
        seq!['-'] + decimal((-v) as nat)
    } else {
        decimal(v as nat)
    }
}

/// A byte as two lowercase hexadecimal digits (`{:02x}`).
pub open spec fn hex_byte(b: u8) -> Seq<char> {
    seq![hex_digit(b as int / 16), hex_digit(b as int % 16)]
}

/// A 16-bit value as four lowercase hexadecimal digits (`{:04x}`).
pub open spec fn hex_word(w: u16) -> Seq<char> {
    hex_byte((w as int / 256) as u8) + hex_byte((w as int % 256) as u8)
}

/// Append one character to a string: `String::push`.
#[verifier::external_body]
pub(crate) fn push_char(s: &mut String, c: char)
    ensures
        final(s)@ == old(s)@.push(c),
{
    s.push(c)
}

/// The decimal digit character for `n`.
pub fn decimal_char(n: u32) -> (c: char)
    requires
        n < 10,
    ensures
        c == decimal_digit(n as int),
{
    match n {
        0 => '0',
        1 => '1',
        2 => '2',
        3 => '3',
        4 => '4',
        5 => '5',
        6 => '6',
        7 => '7',
        8 => '8',
        _ => '9',
    }
}

/// The lowercase hexadecimal digit character for `n`.
pub fn hex_char(n: u8) -> (c: char)
    requires
        n < 16,
    ensures
        c == hex_digit(n as int),
{
    match n {
        0 => '0',
        1 => '1',
        2 => '2',
        3 => '3',
        4 => '4',
        5 => '5',
        6 => '6',
        7 => '7',
        8 => '8',
        9 => '9',
        10 => 'a',
        11 => 'b',
        12 => 'c',
        13 => 'd',
        14 => 'e',
        _ => 'f',
    }
}

/// Append the decimal rendering of `n`.
pub fn push_decimal(s: &mut String, n: u32)
    ensures
        final(s)@ == old(s)@ + decimal(n as nat),
    decreases n,
{
    let ghost before = s@;
    if n >= 10 {
        push_decimal(s, n / 10);
    }
    push_char(s, decimal_char(n % 10));
    assert(s@ =~= before + decimal(n as nat));
}

/// Append the decimal rendering of a signed value (Rust's `{}` for `i32`).
pub fn push_signed_decimal(s: &mut String, v: i32)
    ensures
        final(s)@ == old(s)@ + signed_decimal(v as int),
{
    let ghost before = s@;
    if v < 0 {
        push_char(s, '-');
        let magnitude: u32 = (0i64 - v as i64) as u32;
        push_decimal(s, magnitude);
        assert(s@ =~= before + signed_decimal(v as int));
    } else {
        push_decimal(s, v as u32);
    }
}

/// Append a byte as two lowercase hexadecimal digits (Rust's `{:02x}`).
pub fn push_hex_byte(s: &mut String, b: u8)
    ensures
        final(s)@ == old(s)@ + hex_byte(b),
{
    let ghost before = s@;
    push_char(s, hex_char(b / 16));
    push_char(s, hex_char(b % 16));
    assert(s@ =~= before + hex_byte(b));
}

/// Append a 16-bit value as four lowercase hexadecimal digits (Rust's `{:04x}`).
pub fn push_hex_word(s: &mut String, w: u16)
    ensures
        final(s)@ == old(s)@ + hex_word(w),
{
    let ghost before = s@;
    push_hex_byte(s, (w / 256) as u8);
    push_hex_byte(s, (w % 256) as u8);
    assert(s@ =~= before + hex_word(w));
}

/// A decimal rendering has one digit per power of ten below the value: at
/// most ten digits for anything that fits in a `u32`.
pub proof fn lemma_decimal_len(n: nat)
    ensures
        1 <= decimal(n).len(),
        n < 10 ==> decimal(n).len() <= 1,
        n < 100 ==> decimal(n).len() <= 2,
        n < 1000 ==> decimal(n).len() <= 3,
        n < 10000 ==> decimal(n).len() <= 4,
        n < 100000 ==> decimal(n).len() <= 5,
        n < 1000000 ==> decimal(n).len() <= 6,
        n < 10000000 ==> decimal(n).len() <= 7,
        n < 100000000 ==> decimal(n).len() <= 8,
        n < 1000000000 ==> decimal(n).len() <= 9,
        n < 10000000000 ==> decimal(n).len() <= 10,
    decreases n,
{
    if n >= 10 {
        lemma_decimal_len(n / 10);
    }
}

/// The digit characters: '0'..'9' for 0..9 and 'a'..'f' for 10..15.
pub proof fn lemma_digit_chars()
    ensures
        decimal_digit(0) == '0' && decimal_digit(1) == '1' && decimal_digit(2) == '2'
            && decimal_digit(3) == '3' && decimal_digit(4) == '4' && decimal_digit(5) == '5'
            && decimal_digit(6) == '6' && decimal_digit(7) == '7' && decimal_digit(8) == '8'
            && decimal_digit(9) == '9',
        hex_digit(0) == '0' && hex_digit(1) == '1' && hex_digit(2) == '2' && hex_digit(3) == '3'
            && hex_digit(4) == '4' && hex_digit(5) == '5' && hex_digit(6) == '6' && hex_digit(7)
            == '7' && hex_digit(8) == '8' && hex_digit(9) == '9',
        hex_digit(10) == 'a' && hex_digit(11) == 'b' && hex_digit(12) == 'c' && hex_digit(13)
            == 'd' && hex_digit(14) == 'e' && hex_digit(15) == 'f',
{
}

/// A byte in hex is its high nibble's digit, then its low nibble's.
pub proof fn lemma_hex_byte_nibbles(b: u8)
    ensures
        hex_byte(b).len() == 2,
        hex_byte(b)[0] == hex_digit(b as int / 16),
        hex_byte(b)[1] == hex_digit(b as int % 16),
        b < 16 ==> hex_byte(b)[0] == '0',
{
}

} // verus!
