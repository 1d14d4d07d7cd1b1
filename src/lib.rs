//! Driver logic for the SEN66 multi-sensor air-quality module: wire framing with
//! CRC-8 checksums, the catalog of commands, typed configuration and measurement
//! values, and the idle/measuring session state machine that gates commands.
pub mod codec;
pub mod command;
pub mod configuration;
pub mod data;
pub mod error;
pub mod interface;
pub mod util;
