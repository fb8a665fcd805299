//! What a finished exchange means: the outcome that the bus reports, turned
//! into the value the operation was after, or into the error it ends with.
//!
//! A failure of the bus is handed on as it is. A frame that arrived is
//! checked word by word before anything is read from it.

use vstd::prelude::*;
use crate::error::Error;
use crate::frame::{decode_words, frame_intact, word_at};
use crate::types::Sen5xDataRaw;

verus! {

/// The serial number in a 3-word frame: the six data bytes, first byte
/// highest.
pub open spec fn serial_number_value(frame: Seq<u8>) -> u64 {
    (word_at(frame, 0) * 0x1_0000_0000 + word_at(frame, 1) * 0x1_0000 + word_at(frame, 2)) as u64
}

/// The data bytes of the first `words` words of `frame`, in order: the frame
/// without its checksum bytes.
pub open spec fn data_bytes(frame: Seq<u8>, words: nat) -> Seq<u8> {
    Seq::new(2 * words, |k: int| frame[3 * (k / 2) + k % 2])
}

/// Whether a status word announces new data: any of its low 11 bits is set.
pub open spec fn status_says_ready(status: u16) -> bool {
    status & 0x07FF != 0
}

/// The measured values in an 8-word frame.
pub open spec fn raw_measurement(frame: Seq<u8>) -> Sen5xDataRaw {
    Sen5xDataRaw {
        pm1_0: word_at(frame, 0),
        pm2_5: word_at(frame, 1),
        pm4_0: word_at(frame, 2),
        pm10_0: word_at(frame, 3),
        humidity: word_at(frame, 4),
        temperature: word_at(frame, 5),
        voc_index: word_at(frame, 6),
        nox_index: word_at(frame, 7),
    }
}

/// The outcome of a command that has no answer.
pub open spec fn command_outcome<E>(sent: Result<(), E>) -> Result<(), Error<E>> {
    match sent {
        Ok(_) => Ok(()),
        Err(e) => Err(Error::I2c(e)),
    }
}

/// The outcome of reading the serial number.
pub open spec fn serial_number_outcome<E>(response: Result<[u8; 9], E>) -> Result<u64, Error<E>> {
    match response {
        Err(e) => Err(Error::I2c(e)),
        Ok(frame) => if frame_intact(frame@, 3) {
            Ok(serial_number_value(frame@))
        } else {
            Err(Error::Crc)
        },
    }
}

/// Whether `name` is the outcome of reading the product name.
pub open spec fn product_name_outcome<E>(
    response: Result<[u8; 48], E>,
    name: Result<[u8; 32], Error<E>>,
) -> bool {
    match response {
        Err(e) => name == Err::<[u8; 32], Error<E>>(Error::I2c(e)),
        Ok(frame) => if frame_intact(frame@, 16) {
            name matches Ok(bytes) && bytes@ == data_bytes(frame@, 16)
        } else {
            name == Err::<[u8; 32], Error<E>>(Error::Crc)
        },
    }
}

/// The outcome of reading the firmware version.
pub open spec fn firmware_version_outcome<E>(response: Result<[u8; 3], E>) -> Result<u8, Error<E>> {
    match response {
        Err(e) => Err(Error::I2c(e)),
        Ok(frame) => if frame_intact(frame@, 1) {
            Ok(frame@[0])
        } else {
            Err(Error::Crc)
        },
    }
}

/// The outcome of reading the measured values.
pub open spec fn measurement_outcome<E>(response: Result<[u8; 24], E>) -> Result<
    Sen5xDataRaw,
    Error<E>,
> {
    match response {
        Err(e) => Err(Error::I2c(e)),
        Ok(frame) => if frame_intact(frame@, 8) {
            Ok(raw_measurement(frame@))
        } else {
            Err(Error::Crc)
        },
    }
}

/// The outcome of asking for the data-ready status.
pub open spec fn data_ready_outcome<E>(response: Result<[u8; 3], E>) -> Result<bool, Error<E>> {
    match response {
        Err(e) => Err(Error::I2c(e)),
        Ok(frame) => if frame_intact(frame@, 1) {
            Ok(status_says_ready(word_at(frame@, 0)))
        } else {
            Err(Error::Crc)
        },
    }
}

/// Reports how sending a command without an answer went.
pub fn command_reply<E>(sent: Result<(), E>) -> (done: Result<(), Error<E>>)
    ensures
        done == command_outcome(sent),
{
    match sent {
        Ok(_) => Ok(()),
        Err(e) => Err(Error::I2c(e)),
    }
}

/// Reads the 48-bit serial number from the outcome of the exchange.
pub fn serial_number_reply<E>(response: Result<[u8; 9], E>) -> (serial: Result<u64, Error<E>>)
    ensures
        serial == serial_number_outcome(response),
{
    match response {
        Err(e) => Err(Error::I2c(e)),
        Ok(frame) => match decode_words(&frame, 3) {
            Err(_) => Err(Error::Crc),
            Ok(words) => {
                let high: u64 = words[0] as u64;
                let mid: u64 = words[1] as u64;
                let low: u64 = words[2] as u64;
                Ok(high * 0x1_0000_0000 + mid * 0x1_0000 + low)
            },
        },
    }
}

/// Reads the product name from the outcome of the exchange: the 32 data
/// bytes of the frame. What text they hold is for the caller to say.
pub fn product_name_reply<E>(response: Result<[u8; 48], E>) -> (name: Result<[u8; 32], Error<E>>)
    ensures
        product_name_outcome(response, name),
{
    match response {
        Err(e) => Err(Error::I2c(e)),
        Ok(frame) => match decode_words(&frame, 16) {
            Err(_) => Err(Error::Crc),
            Ok(_) => {
                let mut bytes: [u8; 32] = [0u8; 32];
                let mut i: usize = 0;
                while i < 16
                    invariant
                        i <= 16,
                        forall|k: int| 0 <= k < 2 * i ==> bytes@[k] == frame@[3 * (k / 2) + k % 2],
                    decreases 16 - i,
                {
                    bytes[2 * i] = frame[3 * i];
                    bytes[2 * i + 1] = frame[3 * i + 1];
                    i = i + 1;
                }
                assert(bytes@ =~= data_bytes(frame@, 16));
                Ok(bytes)
            },
        },
    }
}

/// Reads the firmware version from the outcome of the exchange: the first
/// byte of the word. The second byte is reserved; it is checked and dropped.
pub fn firmware_version_reply<E>(response: Result<[u8; 3], E>) -> (version: Result<u8, Error<E>>)
    ensures
        version == firmware_version_outcome(response),
{
    match response {
        Err(e) => Err(Error::I2c(e)),
        Ok(frame) => match decode_words(&frame, 1) {
            Err(_) => Err(Error::Crc),
            Ok(_) => Ok(frame[0]),
        },
    }
}

/// Reads the measured values from the outcome of the exchange, in the order
/// the sensor sends them: PM1.0, PM2.5, PM4.0, PM10, humidity, temperature,
/// VOC index, NOx index.
pub fn measurement_reply<E>(response: Result<[u8; 24], E>) -> (values: Result<
    Sen5xDataRaw,
    Error<E>,
>)
    ensures
        values == measurement_outcome(response),
{
    match response {
        Err(e) => Err(Error::I2c(e)),
        Ok(frame) => match decode_words(&frame, 8) {
            Err(_) => Err(Error::Crc),
            Ok(words) => Ok(
                Sen5xDataRaw {
                    pm1_0: words[0],
                    pm2_5: words[1],
                    pm4_0: words[2],
                    pm10_0: words[3],
                    humidity: words[4],
                    temperature: words[5],
                    voc_index: words[6],
                    nox_index: words[7],
                },
            ),
        },
    }
}

/// Reads from the outcome of the exchange whether new measured values wait:
/// they do unless the low 11 bits of the status word are all zero.
pub fn data_ready_reply<E>(response: Result<[u8; 3], E>) -> (ready: Result<bool, Error<E>>)
    ensures
        ready == data_ready_outcome(response),
{
    match response {
        Err(e) => Err(Error::I2c(e)),
        Ok(frame) => match decode_words(&frame, 1) {
            Err(_) => Err(Error::Crc),
            Ok(words) => {
                let status: u16 = words[0];
                Ok(status & 0x07FF != 0)
            },
        },
    }
}

/// A failure of the bus, whichever step of the exchange it struck, comes out
/// of every operation as that same failure, and so never as a checksum
/// error.
pub proof fn lemma_bus_failure_is_handed_on<E>(e: E)
    ensures
        command_outcome(Err::<(), E>(e)) == Err::<(), Error<E>>(Error::I2c(e)),
        serial_number_outcome(Err::<[u8; 9], E>(e)) == Err::<u64, Error<E>>(Error::I2c(e)),
        forall|name: Result<[u8; 32], Error<E>>|
            product_name_outcome(Err::<[u8; 48], E>(e), name) <==> name == Err::<
                [u8; 32],
                Error<E>,
            >(Error::I2c(e)),
        firmware_version_outcome(Err::<[u8; 3], E>(e)) == Err::<u8, Error<E>>(Error::I2c(e)),
        measurement_outcome(Err::<[u8; 24], E>(e)) == Err::<Sen5xDataRaw, Error<E>>(
            Error::I2c(e),
        ),
        data_ready_outcome(Err::<[u8; 3], E>(e)) == Err::<bool, Error<E>>(Error::I2c(e)),
{
}

/// The serial number is the number that the six data bytes of the frame
/// spell, first byte highest; it has 48 bits.
pub proof fn lemma_serial_number_bytes(frame: Seq<u8>)
    ensures
        serial_number_value(frame) == frame[0] * 0x100_0000_0000 + frame[1] * 0x1_0000_0000
            + frame[3] * 0x100_0000 + frame[4] * 0x1_0000 + frame[6] * 0x100 + frame[7],
        serial_number_value(frame) < 0x1_0000_0000_0000,
{
}

/// The low 11 bits of a status word are all zero exactly when the word is a
/// multiple of 2048; only then is no new data announced.
pub proof fn lemma_status_low_bits(status: u16)
    ensures
        status_says_ready(status) <==> status % 2048 != 0,
{
    assert((status & 0x07FF != 0) <==> status % 2048 != 0) by (bit_vector);
}

} // verus!
