//! Board status shown at start-up: why the chip last reset, and whether the
//! core voltage regulator is in regulation.
use vstd::prelude::*;

verus! {

/// Display rows (8px units) of the board status lines.
pub const RESET_REASON_ROW: i32 = 0;

pub const POWER_STATUS_ROW: i32 = 1;

pub const STATUS_ROW: i32 = 2;

/// The reset-reason line: the debug-port reset takes precedence over the RUN
/// pin, which takes precedence over power-on / brown-out.
pub open spec fn reset_reason_chars(debug_port: bool, run_pin: bool, power_on: bool) -> Seq<
    char,
> {
    if debug_port {
        "Debug Port Reset"@
    } else if run_pin {
        "Run Pin Reset"@
    } else if power_on {
        "PwrOn|BrownOut"@
    } else {
        "Invalid Reset Reason"@
    }
}

/// The reset-reason line from the chip-reset register's flags.
pub fn reset_reason_text(debug_port: bool, run_pin: bool, power_on: bool) -> (t: &'static str)
    ensures
        t@ == reset_reason_chars(debug_port, run_pin, power_on),
{
    if debug_port {
        "Debug Port Reset"
    } else if run_pin {
        "Run Pin Reset"
    } else if power_on {
        "PwrOn|BrownOut"
    } else {
        "Invalid Reset Reason"
    }
}

/// The regulator line: "vreg: ok" while the regulator reports regulation.
pub fn vreg_text(regulation_ok: bool) -> (t: &'static str)
    ensures
        t@ == (if regulation_ok {
            "vreg: ok"@
        } else {
            "vreg: bad"@
        }),
{
    if regulation_ok {
        "vreg: ok"
    } else {
        "vreg: bad"
    }
}

/// The reset-reason line names the debug-port reset whenever that flag is
/// set, whatever the others; otherwise the RUN-pin reset whenever its flag
/// is set; otherwise power-on / brown-out whenever its flag is set; and says
/// the reason is invalid only when no flag is set.
pub proof fn lemma_reset_reason_precedence(debug_port: bool, run_pin: bool, power_on: bool)
    ensures
        debug_port ==> reset_reason_chars(debug_port, run_pin, power_on) == "Debug Port Reset"@,
        !debug_port && run_pin ==> reset_reason_chars(debug_port, run_pin, power_on)
            == "Run Pin Reset"@,
        !debug_port && !run_pin && power_on ==> reset_reason_chars(debug_port, run_pin, power_on)
            == "PwrOn|BrownOut"@,
        !debug_port && !run_pin && !power_on ==> reset_reason_chars(
            debug_port,
            run_pin,
            power_on,
        ) == "Invalid Reset Reason"@,
{
}

} // verus!
