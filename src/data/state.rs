//! The sensor's operating state, status register and calibration states.
use crate::codec::{be_word, check_deserialization, decode, decoded, reply_check};
use crate::error::{DataError, DeviceError};
use crate::util::{bit_set, is_set};
use vstd::prelude::*;

verus! {

/// The operating state of the sensor.
#[derive(Debug, PartialEq, Eq, Structural, Clone, Copy)]
pub enum SensorState {
    /// Idle: after power-on, after a reset, or after measurement was stopped.
    Idle,
    /// Measuring continuously, after measurement was started.
    Measuring,
}

/// The error flags of a status register value: PM (bit 11), CO2 (bit 9), gas
/// (bit 7), RH/T (bit 6) and fan (bit 4).
pub open spec fn device_errors(value: u32) -> DeviceError {
    DeviceError {
        pm: bit_set(value, 11),
        co2: bit_set(value, 9),
        gas: bit_set(value, 7),
        rht: bit_set(value, 6),
        fan: bit_set(value, 4),
    }
}

/// Whether any error flag of a status register value is set.
pub open spec fn any_error(value: u32) -> bool {
    let e = device_errors(value);
    e.pm || e.co2 || e.gas || e.rht || e.fan
}

/// The device status register.
#[derive(Debug, PartialEq, Eq, Clone, Copy)]
pub struct DeviceStatusRegister(pub u32);

impl DeviceStatusRegister {
    /// Whether the fan speed has been off by more than 10 % over several
    /// measurement intervals (bit 21). A warning only: it clears itself.
    pub fn fan_speed_warning(&self) -> (r: bool)
        ensures
            r == bit_set(self.0, 21),
    {
        is_set(self.0, 21)
    }

    /// Whether the PM sensor reports an error (bit 11). It persists until the
    /// status is cleared or the device is reset.
    pub fn pm_sensor_error(&self) -> (r: bool)
        ensures
            r == bit_set(self.0, 11),
    {
        is_set(self.0, 11)
    }

    /// Whether the CO2 sensor reports an error (bit 9). It persists until the
    /// status is cleared or the device is reset.
    pub fn co2_sensor_error(&self) -> (r: bool)
        ensures
            r == bit_set(self.0, 9),
    {
        is_set(self.0, 9)
    }

    /// Whether the gas sensor reports an error (bit 7). It persists until the
    /// status is cleared or the device is reset.
    pub fn gas_sensor_error(&self) -> (r: bool)
        ensures
            r == bit_set(self.0, 7),
    {
        is_set(self.0, 7)
    }

    /// Whether the RH/T sensor reports an error (bit 6). It persists until the
    /// status is cleared or the device is reset.
    pub fn rht_sensor_error(&self) -> (r: bool)
        ensures
            r == bit_set(self.0, 6),
    {
        is_set(self.0, 6)
    }

    /// Whether the fan is on but reports 0 RPM over several measurement
    /// intervals (bit 4). It persists until the status is cleared or the
    /// device is reset.
    pub fn fan_error(&self) -> (r: bool)
        ensures
            r == bit_set(self.0, 4),
    {
        is_set(self.0, 4)
    }

    /// Fails with the set error flags where any is set. The fan speed warning
    /// is not an error.
    pub fn has_error(&self) -> (r: Result<(), DeviceError>)
        ensures
            r == (if any_error(self.0) {
                Err(device_errors(self.0))
            } else {
                Ok(())
            }),
    {
        let pm = self.pm_sensor_error();
        let co2 = self.co2_sensor_error();
        let gas = self.gas_sensor_error();
        let rht = self.rht_sensor_error();
        let fan = self.fan_error();
        if pm || co2 || gas || rht || fan {
            Err(DeviceError { pm, co2, gas, rht, fan })
        } else {
            Ok(())
        }
    }
}

/// The status register carried by a reply of two words, high half first.
pub open spec fn parse_device_status(data: Seq<u8>) -> Result<DeviceStatusRegister, DataError> {
    match decoded(data, 6) {
        Ok(w) => Ok(DeviceStatusRegister((w[0] * 65536 + w[1]) as u32)),
        Err(e) => Err(e),
    }
}

impl TryFrom<&[u8]> for DeviceStatusRegister {
    type Error = DataError;

    /// Reads the status register from a reply of two words.
    fn try_from(data: &[u8]) -> (r: Result<DeviceStatusRegister, DataError>) {
        match decode(data, 6) {
            Ok(w) => Ok(DeviceStatusRegister((w[0] as u32) * 65536 + w[1] as u32)),
            Err(e) => Err(e),
        }
    }
}

impl vstd::std_specs::convert::TryFromSpecImpl<&[u8]> for DeviceStatusRegister {
    open spec fn obeys_try_from_spec() -> bool {
        true
    }

    open spec fn try_from_spec(data: &[u8]) -> Result<DeviceStatusRegister, DataError> {
        parse_device_status(data@)
    }
}

/// Whether automatic self-calibration (ASC) of the CO2 channel is enabled.
#[derive(Debug, PartialEq, Eq, Clone, Copy)]
pub enum AscState {
    /// ASC is enabled.
    Enabled,
    /// ASC is disabled.
    Disabled,
}

/// The ASC state carried by a reply: the word must be 0 (disabled) or 1
/// (enabled).
pub open spec fn parse_asc_state(data: Seq<u8>) -> Result<AscState, DataError> {
    match decoded(data, 3) {
        Ok(w) => if w[0] == 0 {
            Ok(AscState::Disabled)
        } else if w[0] == 1 {
            Ok(AscState::Enabled)
        } else {
            Err(
                DataError::UnexpectedValueReceived {
                    parameter: "ASC State",
                    expected: "0 or 1",
                    actual: w[0],
                },
            )
        },
        Err(e) => Err(e),
    }
}

impl TryFrom<&[u8]> for AscState {
    type Error = DataError;

    /// Reads the ASC state from a reply of one word.
    fn try_from(data: &[u8]) -> (r: Result<AscState, DataError>) {
        match decode(data, 3) {
            Ok(w) => {
                if w[0] == 0 {
                    Ok(AscState::Disabled)
                } else if w[0] == 1 {
                    Ok(AscState::Enabled)
                } else {
                    Err(
                        DataError::UnexpectedValueReceived {
                            parameter: "ASC State",
                            expected: "0 or 1",
                            actual: w[0],
                        },
                    )
                }
            },
            Err(e) => Err(e),
        }
    }
}

impl vstd::std_specs::convert::TryFromSpecImpl<&[u8]> for AscState {
    open spec fn obeys_try_from_spec() -> bool {
        true
    }

    open spec fn try_from_spec(data: &[u8]) -> Result<AscState, DataError> {
        parse_asc_state(data@)
    }
}

/// The word that carries an ASC state: 1 when enabled, 0 when disabled.
pub open spec fn asc_word(state: AscState) -> u16 {
    match state {
        AscState::Enabled => 1,
        AscState::Disabled => 0,
    }
}

impl From<AscState> for u16 {
    fn from(value: AscState) -> (r: u16) {
        match value {
            AscState::Enabled => 0x0001,
            AscState::Disabled => 0x0000,
        }
    }
}

impl vstd::std_specs::convert::FromSpecImpl<AscState> for u16 {
    open spec fn obeys_from_spec() -> bool {
        true
    }

    open spec fn from_spec(value: AscState) -> u16 {
        asc_word(value)
    }
}

/// The state of the VOC index algorithm; writing it back after a power cycle
/// skips the learning phase.
#[derive(Debug, PartialEq, Eq, Clone, Copy)]
pub struct VocAlgorithmState(pub [u8; 8]);

/// The algorithm state carried by a reply of four words: their bytes in order.
pub open spec fn parse_voc_algorithm_state(data: Seq<u8>) -> Result<VocAlgorithmState, DataError> {
    match reply_check(data, 12) {
        Ok(()) => Ok(
            VocAlgorithmState(
                [data[0], data[1], data[3], data[4], data[6], data[7], data[9], data[10]],
            ),
        ),
        Err(e) => Err(e),
    }
}

impl TryFrom<&[u8]> for VocAlgorithmState {
    type Error = DataError;

    /// Reads the algorithm state from a reply of four words.
    fn try_from(data: &[u8]) -> (r: Result<VocAlgorithmState, DataError>) {
        match check_deserialization(data, 12) {
            Ok(()) => Ok(
                VocAlgorithmState(
                    [data[0], data[1], data[3], data[4], data[6], data[7], data[9], data[10]],
                ),
            ),
            Err(e) => Err(e),
        }
    }
}

impl vstd::std_specs::convert::TryFromSpecImpl<&[u8]> for VocAlgorithmState {
    open spec fn obeys_try_from_spec() -> bool {
        true
    }

    open spec fn try_from_spec(data: &[u8]) -> Result<VocAlgorithmState, DataError> {
        parse_voc_algorithm_state(data@)
    }
}

/// The four words that carry an algorithm state, two bytes each, big-endian.
pub open spec fn voc_state_words(s: VocAlgorithmState) -> [u16; 4] {
    [
        be_word(s.0[0], s.0[1]),
        be_word(s.0[2], s.0[3]),
        be_word(s.0[4], s.0[5]),
        be_word(s.0[6], s.0[7]),
    ]
}

impl From<VocAlgorithmState> for [u16; 4] {
    fn from(value: VocAlgorithmState) -> (r: [u16; 4]) {
        let b = value.0;
        [
            (b[0] as u16) * 256 + b[1] as u16,
            (b[2] as u16) * 256 + b[3] as u16,
            (b[4] as u16) * 256 + b[5] as u16,
            (b[6] as u16) * 256 + b[7] as u16,
        ]
    }
}

impl vstd::std_specs::convert::FromSpecImpl<VocAlgorithmState> for [u16; 4] {
    open spec fn obeys_from_spec() -> bool {
        true
    }

    open spec fn from_spec(value: VocAlgorithmState) -> [u16; 4] {
        voc_state_words(value)
    }
}

} // verus!
