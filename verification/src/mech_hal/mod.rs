//! Board-independent hardware interfaces.
pub mod mech_gpio;
pub mod mech_i2c;
