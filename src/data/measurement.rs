//! Measurements read from the sensor, in the sensor's fixed-point units.
use crate::codec::{decode, decoded};
use crate::error::DataError;
use vstd::prelude::*;

verus! {

/// One measurement, as the fixed-point values the sensor sends. Where no
/// measurement is available yet the sensor sends the largest value of each
/// field's type.
#[derive(Debug, PartialEq, Eq, Clone, Copy)]
pub struct Measurement {
    /// Mass concentration of PM1.0 in units of 0.1 µg/m³.
    pub pm1_0: u16,
    /// Mass concentration of PM2.5 in units of 0.1 µg/m³.
    pub pm2_5: u16,
    /// Mass concentration of PM4.0 in units of 0.1 µg/m³.
    pub pm4_0: u16,
    /// Mass concentration of PM10.0 in units of 0.1 µg/m³.
    pub pm10_0: u16,
    /// Relative humidity in units of 0.01 %.
    pub relative_humidity: i16,
    /// Temperature in units of 0.005 °C.
    pub temperature: i16,
    /// VOC index in units of 0.1.
    pub voc_index: i16,
    /// NOx index in units of 0.1.
    pub nox_index: i16,
    /// CO2 concentration in ppm; 0xFFFF during the first seconds after a reset.
    pub co2: u16,
}

/// The measurement carried by a reply of nine words, or why it is rejected.
pub open spec fn parse_measurement(data: Seq<u8>) -> Result<Measurement, DataError> {
    match decoded(data, 27) {
        Ok(w) => Ok(
            Measurement {
                pm1_0: w[0],
                pm2_5: w[1],
                pm4_0: w[2],
                pm10_0: w[3],
                relative_humidity: w[4] as i16,
                temperature: w[5] as i16,
                voc_index: w[6] as i16,
                nox_index: w[7] as i16,
                co2: w[8],
            },
        ),
        Err(e) => Err(e),
    }
}

impl TryFrom<&[u8]> for Measurement {
    type Error = DataError;

    /// Reads a measurement from a reply of nine words.
    fn try_from(data: &[u8]) -> (r: Result<Measurement, DataError>) {
        match decode(data, 27) {
            Ok(w) => Ok(
                Measurement {
                    pm1_0: w[0],
                    pm2_5: w[1],
                    pm4_0: w[2],
                    pm10_0: w[3],
                    relative_humidity: w[4] as i16,
                    temperature: w[5] as i16,
                    voc_index: w[6] as i16,
                    nox_index: w[7] as i16,
                    co2: w[8],
                },
            ),
            Err(e) => Err(e),
        }
    }
}

impl vstd::std_specs::convert::TryFromSpecImpl<&[u8]> for Measurement {
    open spec fn obeys_try_from_spec() -> bool {
        true
    }

    open spec fn try_from_spec(data: &[u8]) -> Result<Measurement, DataError> {
        parse_measurement(data@)
    }
}

/// One raw measurement, as the values the sensor sends.
#[derive(Debug, PartialEq, Eq, Clone, Copy)]
pub struct RawMeasurement {
    /// Relative humidity in units of 0.01 %.
    pub relative_humidity: i16,
    /// Temperature in units of 0.005 °C.
    pub temperature: i16,
    /// VOC ticks.
    pub voc: u16,
    /// NOx ticks.
    pub nox: u16,
    /// Uninterpolated CO2 concentration in ppm, updated every 5 seconds.
    pub co2: u16,
}

/// The raw measurement carried by a reply of five words, or why it is
/// rejected.
pub open spec fn parse_raw_measurement(data: Seq<u8>) -> Result<RawMeasurement, DataError> {
    match decoded(data, 15) {
        Ok(w) => Ok(
            RawMeasurement {
                relative_humidity: w[0] as i16,
                temperature: w[1] as i16,
                voc: w[2],
                nox: w[3],
                co2: w[4],
            },
        ),
        Err(e) => Err(e),
    }
}

impl TryFrom<&[u8]> for RawMeasurement {
    type Error = DataError;

    /// Reads a raw measurement from a reply of five words.
    fn try_from(data: &[u8]) -> (r: Result<RawMeasurement, DataError>) {
        match decode(data, 15) {
            Ok(w) => Ok(
                RawMeasurement {
                    relative_humidity: w[0] as i16,
                    temperature: w[1] as i16,
                    voc: w[2],
                    nox: w[3],
                    co2: w[4],
                },
            ),
            Err(e) => Err(e),
        }
    }
}

impl vstd::std_specs::convert::TryFromSpecImpl<&[u8]> for RawMeasurement {
    open spec fn obeys_try_from_spec() -> bool {
        true
    }

    open spec fn try_from_spec(data: &[u8]) -> Result<RawMeasurement, DataError> {
        parse_raw_measurement(data@)
    }
}

/// Particle number concentrations, as the values the sensor sends.
#[derive(Debug, PartialEq, Eq, Clone, Copy)]
pub struct Concentrations {
    /// PM0.5 concentration in units of 0.1 particles/cm³.
    pub pm0_5: u16,
    /// PM1.0 concentration in units of 0.1 particles/cm³.
    pub pm1_0: u16,
    /// PM2.5 concentration in units of 0.1 particles/cm³.
    pub pm2_5: u16,
    /// PM4.0 concentration in units of 0.1 particles/cm³.
    pub pm4_0: u16,
    /// PM10.0 concentration in units of 0.1 particles/cm³.
    pub pm10_0: u16,
}

/// The number concentrations carried by a reply of five words, or why it is
/// rejected.
pub open spec fn parse_concentrations(data: Seq<u8>) -> Result<Concentrations, DataError> {
    match decoded(data, 15) {
        Ok(w) => Ok(
            Concentrations { pm0_5: w[0], pm1_0: w[1], pm2_5: w[2], pm4_0: w[3], pm10_0: w[4] },
        ),
        Err(e) => Err(e),
    }
}

impl TryFrom<&[u8]> for Concentrations {
    type Error = DataError;

    /// Reads the number concentrations from a reply of five words.
    fn try_from(data: &[u8]) -> (r: Result<Concentrations, DataError>) {
        match decode(data, 15) {
            Ok(w) => Ok(
                Concentrations { pm0_5: w[0], pm1_0: w[1], pm2_5: w[2], pm4_0: w[3], pm10_0: w[4] },
            ),
            Err(e) => Err(e),
        }
    }
}

impl vstd::std_specs::convert::TryFromSpecImpl<&[u8]> for Concentrations {
    open spec fn obeys_try_from_spec() -> bool {
        true
    }

    open spec fn try_from_spec(data: &[u8]) -> Result<Concentrations, DataError> {
        parse_concentrations(data@)
    }
}

} // verus!
