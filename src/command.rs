//! The commands of the SEN66 and their opcodes and execution times.
use crate::codec::{hi_byte, lo_byte};
use vstd::prelude::*;

verus! {

/// The commands the SEN66 understands over its two-wire interface.
#[derive(Clone, Copy, Debug, PartialEq, Eq)]
pub enum Command {
    /// Starts continuous measurement and moves the sensor to the measuring state.
    /// Only available in the idle state.
    /// Execution time: 50 ms.
    StartContinuousMeasurement,
    /// Stops measurement and returns the sensor to the idle state. Wait at least
    /// 1000 ms before starting a new measurement. Only available in the measuring state.
    /// Execution time: 1000 ms.
    StopMeasurement,
    /// Queries whether a measurement can be read. Only available in the measuring
    /// state.
    /// Execution time: 20 ms.
    GetDataReady,
    /// Reads the mass concentrations, humidity, temperature, VOC and NOx indices
    /// and CO2 concentration. Only available in the measuring state.
    /// Execution time: 20 ms.
    ReadMeasurement,
    /// Reads the raw humidity, temperature, VOC and NOx ticks and CO2
    /// concentration. Only available in the measuring state.
    /// Execution time: 20 ms.
    ReadRawMeasurement,
    /// Reads the particle number concentrations. Only available in the measuring
    /// state.
    /// Execution time: 20 ms.
    ReadNumberConcentrationValues,
    /// Sets the temperature offset parameters of one slot.
    /// Execution time: 20 ms.
    SetTemperatureOffsetParameters,
    /// Sets the temperature acceleration parameters. Only available in the idle
    /// state.
    /// Execution time: 20 ms.
    SetTemperatureAccelerationParameters,
    /// Reads the product name as a null-terminated ASCII string.
    /// Execution time: 20 ms.
    GetProductName,
    /// Reads the serial number as a null-terminated ASCII string.
    /// Execution time: 20 ms.
    GetSerialNumber,
    /// Reads the device status register.
    /// Execution time: 20 ms.
    GetDeviceStatus,
    /// Reads the device status register and clears it.
    /// Execution time: 20 ms.
    ReadAndClearDeviceStatus,
    /// Resets the device, the same as a power cycle. Only available in the idle
    /// state.
    /// Execution time: 1200 ms.
    ResetDevice,
    /// Runs the fan at maximum speed for cleaning. Only available in the idle
    /// state.
    /// Execution time: 1 ms.
    StartFanCleaning,
    /// Switches on the heater of the humidity and temperature sensor. Only
    /// available in the idle state.
    /// Execution time: 1300 ms.
    ActivateShtHeater,
    /// Sets or reads the tuning parameters of the VOC index algorithm. Only
    /// available in the idle state.
    /// Execution time: 20 ms.
    SetReadVocTuningParameters,
    /// Sets or reads the state of the VOC index algorithm.
    /// Execution time: 20 ms.
    SetReadVocAlgorithmState,
    /// Sets or reads the tuning parameters of the NOx index algorithm. Only
    /// available in the idle state.
    /// Execution time: 20 ms.
    SetReadNoxTuningParameters,
    /// Recalibrates the CO2 channel against a reference concentration. Only
    /// available in the idle state.
    /// Execution time: 500 ms.
    ForcedRecalibration,
    /// Sets or reads whether CO2 automatic self-calibration is enabled. Only
    /// available in the idle state.
    /// Execution time: 20 ms.
    SetReadCo2AutomaticSelfCalibration,
    /// Sets or reads the ambient pressure used for CO2 compensation.
    /// Execution time: 20 ms.
    SetReadAmbientPreassure,
    /// Sets or reads the sensor altitude used for CO2 compensation. Only
    /// available in the idle state.
    /// Execution time: 20 ms.
    SetReadSensorAltitude,
}

impl Command {
    /// The 16-bit opcode of the command.
    pub open spec fn opcode(self) -> u16 {
        match self {
            Command::StartContinuousMeasurement => 0x0021,
            Command::StopMeasurement => 0x0104,
            Command::GetDataReady => 0x0202,
            Command::ReadMeasurement => 0x0300,
            Command::ReadRawMeasurement => 0x0405,
            Command::ReadNumberConcentrationValues => 0x0316,
            Command::SetTemperatureOffsetParameters => 0x60B2,
            Command::SetTemperatureAccelerationParameters => 0x6100,
            Command::GetProductName => 0xD014,
            Command::GetSerialNumber => 0xD033,
            Command::GetDeviceStatus => 0xD206,
            Command::ReadAndClearDeviceStatus => 0xD210,
            Command::ResetDevice => 0xD304,
            Command::StartFanCleaning => 0x5607,
            Command::ActivateShtHeater => 0x3730,
            Command::SetReadVocTuningParameters => 0x60D0,
            Command::SetReadVocAlgorithmState => 0x6181,
            Command::SetReadNoxTuningParameters => 0x60E1,
            Command::ForcedRecalibration => 0x6707,
            Command::SetReadCo2AutomaticSelfCalibration => 0x6711,
            Command::SetReadAmbientPreassure => 0x6720,
            Command::SetReadSensorAltitude => 0x6736,
        }
    }

    /// The worst-case execution time of the command in milliseconds.
    pub open spec fn execution_time(self) -> u32 {
        match self {
            Command::StartContinuousMeasurement => 50,
            Command::StopMeasurement => 1000,
            Command::GetDataReady => 20,
            Command::ReadMeasurement => 20,
            Command::ReadRawMeasurement => 20,
            Command::ReadNumberConcentrationValues => 20,
            Command::SetTemperatureOffsetParameters => 20,
            Command::SetTemperatureAccelerationParameters => 20,
            Command::GetProductName => 20,
            Command::GetSerialNumber => 20,
            Command::GetDeviceStatus => 20,
            Command::ReadAndClearDeviceStatus => 20,
            Command::ResetDevice => 1200,
            Command::StartFanCleaning => 1,
            Command::ActivateShtHeater => 1300,
            Command::SetReadVocTuningParameters => 20,
            Command::SetReadVocAlgorithmState => 20,
            Command::SetReadNoxTuningParameters => 20,
            Command::ForcedRecalibration => 500,
            Command::SetReadCo2AutomaticSelfCalibration => 20,
            Command::SetReadAmbientPreassure => 20,
            Command::SetReadSensorAltitude => 20,
        }
    }

    /// The opcode of the command.
    pub fn to_u16(&self) -> (r: u16)
        ensures
            r == self.opcode(),
    {
        match self {
            Command::StartContinuousMeasurement => 0x0021,
            Command::StopMeasurement => 0x0104,
            Command::GetDataReady => 0x0202,
            Command::ReadMeasurement => 0x0300,
            Command::ReadRawMeasurement => 0x0405,
            Command::ReadNumberConcentrationValues => 0x0316,
            Command::SetTemperatureOffsetParameters => 0x60B2,
            Command::SetTemperatureAccelerationParameters => 0x6100,
            Command::GetProductName => 0xD014,
            Command::GetSerialNumber => 0xD033,
            Command::GetDeviceStatus => 0xD206,
            Command::ReadAndClearDeviceStatus => 0xD210,
            Command::ResetDevice => 0xD304,
            Command::StartFanCleaning => 0x5607,
            Command::ActivateShtHeater => 0x3730,
            Command::SetReadVocTuningParameters => 0x60D0,
            Command::SetReadVocAlgorithmState => 0x6181,
            Command::SetReadNoxTuningParameters => 0x60E1,
            Command::ForcedRecalibration => 0x6707,
            Command::SetReadCo2AutomaticSelfCalibration => 0x6711,
            Command::SetReadAmbientPreassure => 0x6720,
            Command::SetReadSensorAltitude => 0x6736,
        }
    }

    /// The opcode of the command as big-endian bytes.
    pub fn to_be_bytes(&self) -> (r: [u8; 2])
        ensures
            r@ == seq![hi_byte(self.opcode()), lo_byte(self.opcode())],
    {
        let op = self.to_u16();
        let r: [u8; 2] = [(op / 256) as u8, (op % 256) as u8];
        proof {
            assert(r@ =~= seq![hi_byte(self.opcode()), lo_byte(self.opcode())]);
        }
        r
    }

    /// The worst-case execution time of the command in milliseconds.
    pub fn execution_time_ms(&self) -> (r: u32)
        ensures
            r == self.execution_time(),
    {
        match self {
            Command::StartContinuousMeasurement => 50,
            Command::StopMeasurement => 1000,
            Command::GetDataReady => 20,
            Command::ReadMeasurement => 20,
            Command::ReadRawMeasurement => 20,
            Command::ReadNumberConcentrationValues => 20,
            Command::SetTemperatureOffsetParameters => 20,
            Command::SetTemperatureAccelerationParameters => 20,
            Command::GetProductName => 20,
            Command::GetSerialNumber => 20,
            Command::GetDeviceStatus => 20,
            Command::ReadAndClearDeviceStatus => 20,
            Command::ResetDevice => 1200,
            Command::StartFanCleaning => 1,
            Command::ActivateShtHeater => 1300,
            Command::SetReadVocTuningParameters => 20,
            Command::SetReadVocAlgorithmState => 20,
            Command::SetReadNoxTuningParameters => 20,
            Command::ForcedRecalibration => 500,
            Command::SetReadCo2AutomaticSelfCalibration => 20,
            Command::SetReadAmbientPreassure => 20,
            Command::SetReadSensorAltitude => 20,
        }
    }
}

} // verus!
