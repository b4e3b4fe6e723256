//! A board-independent I2C interface.
use vstd::prelude::*;

verus! {

#[derive(Debug, Clone)]
pub enum I2CError {
    BusError,
}

/// I2C transfers, implemented by each board.
pub trait MechI2C {
    fn read(&mut self, buf: &mut [u8], num: u8) -> Result<(), I2CError>;

    fn write(&mut self, buf: &mut [u8], num: u8) -> Result<(), I2CError>;
}

} // verus!
