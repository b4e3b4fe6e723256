//! Drive logic for a Pico W robot car steered by an Xbox Wireless Controller:
//! decoding the controller's HID reports, mixing them into motor and servo
//! commands, recognising and bonding with the controller over BLE, and the
//! status lines shown on the OLED.
use vstd::prelude::*;

pub mod bluetooth;
pub mod board;
pub mod link;
pub mod mech_hal;
pub mod motor;
pub mod servo;
pub mod text;
pub mod wireless;
pub mod xbox;

verus! {
} // verus!
