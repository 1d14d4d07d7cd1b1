//! Values read from the sensor.
pub mod data_status;
pub mod measurement;
pub mod product_data;
pub mod state;

pub use data_status::DataStatus;
pub use measurement::{Concentrations, Measurement, RawMeasurement};
pub use product_data::{ProductName, SerialNumber};
pub use state::{AscState, DeviceStatusRegister, SensorState, VocAlgorithmState};
