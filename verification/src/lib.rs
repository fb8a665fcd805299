//! Protocol core of a driver for the Sensirion SEN5x particulate-matter and gas sensor.
//!
//! The sensor is spoken to over a two-wire bus: a 16-bit command goes out, the
//! sensor is given a command-specific time to settle, and a frame of
//! checksummed 16-bit words comes back. This crate holds everything about that
//! exchange that can be decided without touching the bus:
//!
//! - [`crc`]: the checksum of a word;
//! - [`commands`]: the command table;
//! - [`frame`]: checking and decoding a frame of words;
//! - [`reply`]: what the outcome of an exchange means for each operation;
//! - [`sen5x`]: the session, which says which steps an operation takes on the
//!   bus and hands them to a `transfer` of the caller's;
//! - [`types`]: the measured values and their scales.
//!
//! Moving bytes over a real bus is left to the caller: a `transfer` takes the
//! steps of one exchange, carries them out in order up to the first failure,
//! and returns the frame it read or the failure of the bus.

pub mod commands;
pub mod crc;
pub mod error;
pub mod frame;
pub mod reply;
pub mod sen5x;
pub mod types;

pub use crate::commands::Command;
pub use crate::error::{ChecksumError, Error};
pub use crate::sen5x::{Sen5x, Step};
pub use crate::types::Sen5xDataRaw;
