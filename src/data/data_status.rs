//! Whether a new measurement is ready.
use crate::codec::{decode, decoded};
use crate::error::DataError;
use vstd::prelude::*;

verus! {

/// Whether a new measurement can be read from the sensor.
#[derive(Debug, PartialEq, Eq, Clone, Copy)]
pub enum DataStatus {
    /// A new measurement is ready.
    Ready,
    /// No new measurement is available.
    NotReady,
}

/// The data-ready status carried by a reply: the word must be 0 (not ready)
/// or 1 (ready).
pub open spec fn parse_data_status(data: Seq<u8>) -> Result<DataStatus, DataError> {
    match decoded(data, 3) {
        Ok(w) => if w[0] == 0 {
            Ok(DataStatus::NotReady)
        } else if w[0] == 1 {
            Ok(DataStatus::Ready)
        } else {
            Err(
                DataError::UnexpectedValueReceived {
                    parameter: "Data ready status",
                    expected: "0 or 1",
                    actual: w[0],
                },
            )
        },
        Err(e) => Err(e),
    }
}

impl TryFrom<&[u8]> for DataStatus {
    type Error = DataError;

    /// Reads the data-ready status from a reply of one word.
    fn try_from(data: &[u8]) -> (r: Result<DataStatus, DataError>) {
        match decode(data, 3) {
            Ok(w) => {
                if w[0] == 0 {
                    Ok(DataStatus::NotReady)
                } else if w[0] == 1 {
                    Ok(DataStatus::Ready)
                } else {
                    Err(
                        DataError::UnexpectedValueReceived {
                            parameter: "Data ready status",
                            expected: "0 or 1",
                            actual: w[0],
                        },
                    )
                }
            },
            Err(e) => Err(e),
        }
    }
}

impl vstd::std_specs::convert::TryFromSpecImpl<&[u8]> for DataStatus {
    open spec fn obeys_try_from_spec() -> bool {
        true
    }

    open spec fn try_from_spec(data: &[u8]) -> Result<DataStatus, DataError> {
        parse_data_status(data@)
    }
}

} // verus!
