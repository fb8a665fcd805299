//! The commands the sensor understands, and what each one costs on the bus.

use vstd::prelude::*;

verus! {

/// A command of the sensor. Every command is sent as a 16-bit opcode; the
/// sensor then needs some time before it accepts the next transfer.
#[derive(Clone, Copy, Debug, PartialEq, Eq, Structural)]
pub enum Command {
    /// Start periodic measurement; new values come once a second.
    StartMeasurement,
    /// Reset the sensor, which reloads the settings stored in its EEPROM.
    Reinit,
    /// Read the 48-bit serial number.
    GetSerialNumber,
    /// Read the product name, 32 bytes of text.
    ReadProductName,
    /// Read the firmware version.
    ReadFirmwareVersion,
    /// Read the measured values.
    ReadMeasurement,
    /// Ask whether new measured values are waiting to be read.
    GetReadDataReadyStatus,
}

impl Command {
    /// The 16-bit code that goes over the wire, high byte first.
    pub open spec fn opcode(self) -> u16 {
        match self {
            Command::StartMeasurement => 0x0021,
            Command::Reinit => 0xD304,
            Command::GetSerialNumber => 0xD033,
            Command::ReadProductName => 0xD014,
            Command::ReadFirmwareVersion => 0xD100,
            Command::ReadMeasurement => 0x03C4,
            Command::GetReadDataReadyStatus => 0x0202,
        }
    }

    /// The time in milliseconds that the sensor needs after the command
    /// before the bus may be used again.
    pub open spec fn delay_ms(self) -> u32 {
        match self {
            Command::StartMeasurement => 50,
            Command::Reinit => 100,
            Command::GetSerialNumber => 20,
            Command::ReadProductName => 20,
            Command::ReadFirmwareVersion => 20,
            Command::ReadMeasurement => 20,
            Command::GetReadDataReadyStatus => 20,
        }
    }

    /// Whether the sensor accepts the command while it is measuring.
    pub open spec fn allowed_if_running(self) -> bool {
        match self {
            Command::StartMeasurement => false,
            Command::Reinit => true,
            Command::GetSerialNumber => true,
            Command::ReadProductName => true,
            Command::ReadFirmwareVersion => true,
            Command::ReadMeasurement => true,
            Command::GetReadDataReadyStatus => true,
        }
    }

    /// The number of 16-bit words the sensor answers with; 0 for a command
    /// that has no answer.
    pub open spec fn spec_response_words(self) -> usize {
        match self {
            Command::StartMeasurement => 0,
            Command::Reinit => 0,
            Command::GetSerialNumber => 3,
            Command::ReadProductName => 16,
            Command::ReadFirmwareVersion => 1,
            Command::ReadMeasurement => 8,
            Command::GetReadDataReadyStatus => 1,
        }
    }

    /// Looks the command up: its opcode, its settle time in milliseconds, and
    /// whether it is allowed while the sensor is measuring.
    pub fn as_tuple(self) -> (entry: (u16, u32, bool))
        ensures
            entry == (self.opcode(), self.delay_ms(), self.allowed_if_running()),
    {
        match self {
            Command::StartMeasurement => (0x0021, 50, false),
            Command::Reinit => (0xD304, 100, true),
            Command::GetSerialNumber => (0xD033, 20, true),
            Command::ReadProductName => (0xD014, 20, true),
            Command::ReadFirmwareVersion => (0xD100, 20, true),
            Command::ReadMeasurement => (0x03C4, 20, true),
            Command::GetReadDataReadyStatus => (0x0202, 20, true),
        }
    }

    /// The number of 16-bit words in the sensor's answer.
    #[verifier::when_used_as_spec(spec_response_words)]
    pub fn response_words(self) -> (words: usize)
        ensures
            words == self.spec_response_words(),
    {
        match self {
            Command::StartMeasurement => 0,
            Command::Reinit => 0,
            Command::GetSerialNumber => 3,
            Command::ReadProductName => 16,
            Command::ReadFirmwareVersion => 1,
            Command::ReadMeasurement => 8,
            Command::GetReadDataReadyStatus => 1,
        }
    }
}

} // verus!
