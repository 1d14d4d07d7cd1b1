//! Errors reported by this library.
use vstd::prelude::*;

verus! {

/// Errors reported while driving the sensor. `E` is the error type of the
/// two-wire bus that carries the transactions.
#[derive(Debug, PartialEq)]
pub enum Sen66Error<E> {
    /// Received data was corrupted or malformed, or a value was out of range.
    DataError(DataError),
    /// The sensor reported that a forced CO2 recalibration failed.
    FailedCo2Recalibration,
    /// The bus reported an error.
    I2cError(E),
    /// The sensor's status register has error flags set.
    DeviceError(DeviceError),
    /// The command is not available in the current operating state; holds the
    /// name of the state the sensor has to be brought to first.
    WrongState(&'static str),
}

/// Errors in handling data sent to or received from the sensor.
#[derive(Debug, PartialEq)]
pub enum DataError {
    /// The checksum of a received word does not match.
    CrcFailed,
    /// A received string holds a byte that is not ASCII.
    NotASCIIString,
    /// The received buffer does not have the size that the reply calls for.
    ReceivedBufferWrongSize,
    /// A received value is none of the values the parameter can take.
    UnexpectedValueReceived {
        /// Name of the parameter.
        parameter: &'static str,
        /// Description of the values that were expected.
        expected: &'static str,
        /// The value that was received.
        actual: u16,
    },
    /// A value given to build a configuration lies outside its bounds.
    ValueOutOfRange {
        /// Name of the parameter.
        parameter: &'static str,
        /// Lower limit of the value.
        min: i32,
        /// Upper limit of the value.
        max: i32,
        /// Unit of the value.
        unit: &'static str,
    },
}

/// The error flags that are set in a
/// [`DeviceStatusRegister`](crate::data::DeviceStatusRegister).
#[derive(Debug, PartialEq, Eq, Clone, Copy)]
pub struct DeviceError {
    /// The PM sensor reports an error.
    pub pm: bool,
    /// The CO2 sensor reports an error.
    pub co2: bool,
    /// The gas sensor reports an error.
    pub gas: bool,
    /// The RH/T sensor reports an error.
    pub rht: bool,
    /// The fan reports an error.
    pub fan: bool,
}

} // verus!
