//! The session with one sensor.
//!
//! The session knows where the sensor sits on the bus and which steps each
//! operation takes there. It does not touch the bus itself: every operation
//! is handed a `transfer`, which carries out the steps it is given, in order,
//! and reports how that went.

use vstd::prelude::*;
use crate::commands::Command;
use crate::error::Error;
use crate::reply::{
    command_outcome, command_reply, data_ready_outcome, data_ready_reply,
    firmware_version_outcome, firmware_version_reply, measurement_outcome, measurement_reply,
    product_name_outcome, product_name_reply, serial_number_outcome, serial_number_reply,
};
use crate::types::Sen5xDataRaw;

verus! {

/// The bus address of the sensor as it leaves the factory.
pub const DEFAULT_I2C_ADDRESS: u8 = 0x69;

/// One thing to do on the bus.
#[derive(Clone, Copy, Debug, PartialEq, Eq)]
pub enum Step {
    /// Write `opcode` to the device at `address`, high byte first.
    Write { address: u8, opcode: u16 },
    /// Leave the bus alone for `ms` milliseconds.
    Delay { ms: u32 },
    /// Read `len` bytes from the device at `address`.
    Read { address: u8, len: usize },
}

/// The bus steps of one exchange with the sensor at `address`: the command
/// is written once, the sensor is given its settle time, and where the
/// command has an answer, the whole answer is read once.
pub open spec fn exchange_steps(address: u8, command: Command) -> Seq<Step> {
    let send = seq![
        Step::Write { address, opcode: command.opcode() },
        Step::Delay { ms: command.delay_ms() },
    ];
    if command.response_words() == 0 {
        send
    } else {
        send.push(Step::Read { address, len: (3 * command.response_words()) as usize })
    }
}

/// Every exchange starts with the one write of the command's opcode and
/// goes on with the command's settle time. For a command with an answer the
/// one read follows, of the whole answer, and nothing else; for a command
/// without an answer nothing follows.
pub proof fn lemma_exchange_order(address: u8, command: Command)
    ensures
        exchange_steps(address, command).len() == (if command.response_words() > 0 {
            3int
        } else {
            2int
        }),
        exchange_steps(address, command)[0] == (Step::Write { address, opcode: command.opcode() }),
        exchange_steps(address, command)[1] == (Step::Delay { ms: command.delay_ms() }),
        command.response_words() > 0 ==> exchange_steps(address, command)[2] == (Step::Read {
            address,
            len: (3 * command.response_words()) as usize,
        }),
        forall|i: int|
            0 <= i < exchange_steps(address, command).len() && exchange_steps(
                address,
                command,
            )[i] is Write ==> i == 0,
        forall|i: int|
            0 <= i < exchange_steps(address, command).len() && exchange_steps(
                address,
                command,
            )[i] is Read ==> i == 2,
{
}

/// What is known of one sensor: where it sits on the bus, and whether it has
/// been told to measure.
#[derive(Debug)]
pub struct Sen5x {
    is_running: bool,
    address: u8,
}

impl Sen5x {
    /// The bus address of the sensor.
    pub closed spec fn spec_address(&self) -> u8 {
        self.address
    }

    /// Whether periodic measurement has been started.
    pub closed spec fn spec_is_running(&self) -> bool {
        self.is_running
    }

    /// A session with a sensor at the default address, not yet measuring.
    pub fn new() -> (session: Self)
        ensures
            session.address() == DEFAULT_I2C_ADDRESS,
            !session.is_running(),
    {
        Sen5x { is_running: false, address: DEFAULT_I2C_ADDRESS }
    }

    /// A session with a sensor at `address`, not yet measuring.
    pub fn with_i2c_address(address: u8) -> (session: Self)
        ensures
            session.address() == address,
            !session.is_running(),
    {
        Sen5x { is_running: false, address }
    }

    /// The bus address of the sensor.
    #[verifier::when_used_as_spec(spec_address)]
    pub fn address(&self) -> (address: u8)
        ensures
            address == self.spec_address(),
    {
        self.address
    }

    /// Whether periodic measurement has been started.
    #[verifier::when_used_as_spec(spec_is_running)]
    pub fn is_running(&self) -> (running: bool)
        ensures
            running == self.spec_is_running(),
    {
        self.is_running
    }

    /// The steps to take on the bus for `command`, in order. A step that
    /// fails ends the exchange.
    pub fn exchange(&self, command: Command) -> (steps: Vec<Step>)
        ensures
            steps@ == exchange_steps(self.address(), command),
    {
        let (opcode, ms, _) = command.as_tuple();
        let words: usize = command.response_words();
        let mut steps: Vec<Step> = Vec::new();
        steps.push(Step::Write { address: self.address, opcode });
        steps.push(Step::Delay { ms });
        if words != 0 {
            steps.push(Step::Read { address: self.address, len: 3 * words });
        }
        steps
    }

    /// Starts periodic measurement; the sensor then has new values once a
    /// second. Once the command is out, the session counts the sensor as
    /// measuring.
    pub fn start_measurement<E, F>(&mut self, transfer: F) -> (done: Result<(), Error<E>>)
        where F: FnOnce(Vec<Step>) -> Result<(), E>,
        requires
            forall|steps: Vec<Step>|
                steps@ == exchange_steps(old(self).address(), Command::StartMeasurement)
                    ==> call_requires(transfer, (steps,)),
        ensures
            final(self).address() == old(self).address(),
            final(self).is_running() == (old(self).is_running() || done is Ok),
            (exists|steps: Vec<Step>, sent: Result<(), E>|
                {
                    &&& steps@ == exchange_steps(old(self).address(), Command::StartMeasurement)
                    &&& call_ensures(transfer, (steps,), sent)
                    &&& done == command_outcome(sent)
                }),
    {
        let done = command_reply(transfer(self.exchange(Command::StartMeasurement)));
        if done.is_ok() {
            self.is_running = true;
        }
        done
    }

    /// Reads the 48-bit serial number of the sensor.
    pub fn serial_number<E, F>(&mut self, transfer: F) -> (serial: Result<u64, Error<E>>)
        where F: FnOnce(Vec<Step>) -> Result<[u8; 9], E>,
        requires
            forall|steps: Vec<Step>|
                steps@ == exchange_steps(old(self).address(), Command::GetSerialNumber)
                    ==> call_requires(transfer, (steps,)),
        ensures
            *final(self) == *old(self),
            (exists|steps: Vec<Step>, response: Result<[u8; 9], E>|
                {
                    &&& steps@ == exchange_steps(old(self).address(), Command::GetSerialNumber)
                    &&& call_ensures(transfer, (steps,), response)
                    &&& serial == serial_number_outcome(response)
                }),
    {
        serial_number_reply(transfer(self.exchange(Command::GetSerialNumber)))
    }

    /// Resets the sensor, which reloads the settings stored in its EEPROM.
    /// The session stays as it is.
    pub fn reinit<E, F>(&mut self, transfer: F) -> (done: Result<(), Error<E>>)
        where F: FnOnce(Vec<Step>) -> Result<(), E>,
        requires
            forall|steps: Vec<Step>|
                steps@ == exchange_steps(old(self).address(), Command::Reinit)
                    ==> call_requires(transfer, (steps,)),
        ensures
            *final(self) == *old(self),
            (exists|steps: Vec<Step>, sent: Result<(), E>|
                {
                    &&& steps@ == exchange_steps(old(self).address(), Command::Reinit)
                    &&& call_ensures(transfer, (steps,), sent)
                    &&& done == command_outcome(sent)
                }),
    {
        command_reply(transfer(self.exchange(Command::Reinit)))
    }

    /// Reads the product name of the sensor: 32 bytes, whose meaning as
    /// text is for the caller to say.
    pub fn product_name<E, F>(&mut self, transfer: F) -> (name: Result<[u8; 32], Error<E>>)
        where F: FnOnce(Vec<Step>) -> Result<[u8; 48], E>,
        requires
            forall|steps: Vec<Step>|
                steps@ == exchange_steps(old(self).address(), Command::ReadProductName)
                    ==> call_requires(transfer, (steps,)),
        ensures
            *final(self) == *old(self),
            (exists|steps: Vec<Step>, response: Result<[u8; 48], E>|
                {
                    &&& steps@ == exchange_steps(old(self).address(), Command::ReadProductName)
                    &&& call_ensures(transfer, (steps,), response)
                    &&& product_name_outcome(response, name)
                }),
    {
        product_name_reply(transfer(self.exchange(Command::ReadProductName)))
    }

    /// Reads the firmware version of the sensor.
    pub fn read_firmware_version<E, F>(&mut self, transfer: F) -> (version: Result<u8, Error<E>>)
        where F: FnOnce(Vec<Step>) -> Result<[u8; 3], E>,
        requires
            forall|steps: Vec<Step>|
                steps@ == exchange_steps(old(self).address(), Command::ReadFirmwareVersion)
                    ==> call_requires(transfer, (steps,)),
        ensures
            *final(self) == *old(self),
            (exists|steps: Vec<Step>, response: Result<[u8; 3], E>|
                {
                    &&& steps@ == exchange_steps(old(self).address(), Command::ReadFirmwareVersion)
                    &&& call_ensures(transfer, (steps,), response)
                    &&& version == firmware_version_outcome(response)
                }),
    {
        firmware_version_reply(transfer(self.exchange(Command::ReadFirmwareVersion)))
    }

    /// Reads the measured values as the sensor sends them, each still
    /// multiplied by the scale of its kind.
    pub fn measurement_raw<E, F>(&mut self, transfer: F) -> (values: Result<Sen5xDataRaw, Error<E>>)
        where F: FnOnce(Vec<Step>) -> Result<[u8; 24], E>,
        requires
            forall|steps: Vec<Step>|
                steps@ == exchange_steps(old(self).address(), Command::ReadMeasurement)
                    ==> call_requires(transfer, (steps,)),
        ensures
            *final(self) == *old(self),
            (exists|steps: Vec<Step>, response: Result<[u8; 24], E>|
                {
                    &&& steps@ == exchange_steps(old(self).address(), Command::ReadMeasurement)
                    &&& call_ensures(transfer, (steps,), response)
                    &&& values == measurement_outcome(response)
                }),
    {
        measurement_reply(transfer(self.exchange(Command::ReadMeasurement)))
    }

    /// Asks the sensor whether new measured values wait to be read.
    pub fn data_ready_status<E, F>(&mut self, transfer: F) -> (ready: Result<bool, Error<E>>)
        where F: FnOnce(Vec<Step>) -> Result<[u8; 3], E>,
        requires
            forall|steps: Vec<Step>|
                steps@ == exchange_steps(old(self).address(), Command::GetReadDataReadyStatus)
                    ==> call_requires(transfer, (steps,)),
        ensures
            *final(self) == *old(self),
            (exists|steps: Vec<Step>, response: Result<[u8; 3], E>|
                {
                    &&& steps@ == exchange_steps(old(self).address(), Command::GetReadDataReadyStatus)
                    &&& call_ensures(transfer, (steps,), response)
                    &&& ready == data_ready_outcome(response)
                }),
    {
        data_ready_reply(transfer(self.exchange(Command::GetReadDataReadyStatus)))
    }
}

} // verus!
