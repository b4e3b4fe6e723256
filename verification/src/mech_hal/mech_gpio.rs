//! A board-independent GPIO interface.
use vstd::prelude::*;

verus! {

#[derive(Debug, Clone)]
pub enum GPIOError {
    InvalidPin,
    InvalidFunction,
    Generic,
}

/// The functions a GPIO pin can be muxed to.
pub enum MechGPIOFunc {
    IO,
    I2C,
    UART,
    SPI,
    PWM,
}

/// GPIO access by pin number, implemented by each board.
pub trait MechGPIO {
    fn set_output(self, num: u8, is_output: bool) -> Result<(), GPIOError>;

    fn set_level(self, num: u8, is_high: bool) -> Result<(), GPIOError>;

    fn get_level(self, num: u8) -> Result<bool, GPIOError>;

    fn set_function(self, num: u8, function: MechGPIOFunc) -> Result<(), GPIOError>;
}

} // verus!
