//! The errors that a transaction with the sensor can end with.

use vstd::prelude::*;

verus! {

/// Error conditions from accessing SHT4x sensors.
#[derive(Clone, Copy, Debug, PartialEq, Eq, Hash)]
#[non_exhaustive]
pub enum Error<E> {
    /// Failed I2C communication.
    I2c(E),
    /// Failed CRC verification of sensor data.
    Crc,
}

} // verus!
