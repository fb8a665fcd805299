//! What can go wrong in an exchange with the sensor.

use vstd::prelude::*;

verus! {

/// A word of a response frame whose checksum byte does not fit its two data
/// bytes.
#[derive(Clone, Copy, Debug, PartialEq, Eq)]
pub struct ChecksumError {
    /// The position of the damaged word in the frame, counted from 0.
    pub word: usize,
}

/// The failure of an operation. `E` is the error type of the bus.
#[derive(Debug, PartialEq, Eq)]
pub enum Error<E> {
    /// The bus failed to write the command or to read the answer.
    I2c(E),
    /// A word of the answer came with a wrong checksum.
    Crc,
}

} // verus!
