//! The values the sensor measures.

use vstd::prelude::*;

verus! {

/// The factor by which a raw mass concentration exceeds its value in µg/m³.
pub const PM_SCALE: u16 = 10;

/// The factor by which a raw relative humidity exceeds its value in %RH.
pub const HUMIDITY_SCALE: u16 = 100;

/// The factor by which a raw temperature exceeds its value in °C.
pub const TEMPERATURE_SCALE: u16 = 200;

/// The factor by which a raw VOC or NOx index exceeds the index.
pub const INDEX_SCALE: u16 = 10;

/// One set of measured values as the sensor sends them: each field is the
/// physical quantity multiplied by the scale of its kind.
#[derive(Clone, Copy, Debug, PartialEq, Eq)]
pub struct Sen5xDataRaw {
    /// Mass concentration PM1.0 in µg/m³, times 10.
    pub pm1_0: u16,
    /// Mass concentration PM2.5 in µg/m³, times 10.
    pub pm2_5: u16,
    /// Mass concentration PM4.0 in µg/m³, times 10.
    pub pm4_0: u16,
    /// Mass concentration PM10 in µg/m³, times 10.
    pub pm10_0: u16,
    /// Compensated ambient temperature in °C, times 200.
    pub temperature: u16,
    /// Compensated ambient humidity in %RH, times 100.
    pub humidity: u16,
    /// VOC index, times 10.
    pub voc_index: u16,
    /// NOx index, times 10.
    pub nox_index: u16,
}

} // verus!
