use sen66::data::{AscState, DeviceStatusRegister, VocAlgorithmState};
use sen66::error::{DataError, DeviceError};

#[test]
fn no_flags_set_nothing_reported() {
    let state = DeviceStatusRegister(0b0000_0000_0000_0000_0000_0000_0000_0000);
    assert!(!state.fan_speed_warning());
    assert!(state.has_error().is_ok());
}

#[test]
fn set_fan_speed_warning_reported() {
    let state = DeviceStatusRegister(0b0000_0000_0010_0000_0000_0000_0000_0000);
    assert!(state.fan_speed_warning());
}

#[test]
fn set_fan_speed_error_reported() {
    let state = DeviceStatusRegister(0b0000_0000_0000_0000_0000_0000_0001_0000);
    assert!(state.fan_error());
}

#[test]
fn set_rht_error_reported() {
    let state = DeviceStatusRegister(0b0000_0000_0000_0000_0000_0000_0100_0000);
    assert!(state.rht_sensor_error());
}

#[test]
fn set_gas_error_reported() {
    let state = DeviceStatusRegister(0b0000_0000_0000_0000_0000_0000_1000_0000);
    assert!(state.gas_sensor_error());
}

#[test]
fn set_co2_error_reported() {
    let state = DeviceStatusRegister(0b0000_0000_0000_0000_0000_0010_0000_0000);
    assert!(state.co2_sensor_error());
}

#[test]
fn set_pm_error_reported() {
    let state = DeviceStatusRegister(0b0000_0000_0000_0000_0000_1000_0000_0000);
    assert!(state.pm_sensor_error());
}

#[test]
fn set_warning_flag_does_not_emit_error() {
    let state = DeviceStatusRegister(0b0000_0000_0010_0000_0000_0000_0000_0000);
    assert!(state.has_error().is_ok());
}

#[test]
fn set_error_flag_does_emit_device_error() {
    let state = DeviceStatusRegister(0b0000_0000_0000_0000_0000_1000_0000_0000);
    assert_eq!(
        state.has_error().unwrap_err(),
        DeviceError {
            pm: true,
            co2: false,
            gas: false,
            rht: false,
            fan: false
        }
    );
}

#[test]
fn all_error_flags_are_reported_together() {
    let state = DeviceStatusRegister(0b0000_0000_0010_0000_0000_1010_1101_0000);
    assert_eq!(
        state.has_error().unwrap_err(),
        DeviceError {
            pm: true,
            co2: true,
            gas: true,
            rht: true,
            fan: true
        }
    );
}

#[test]
fn deserialize_device_status_register_with_all_flags_set_yields_u32_with_flag_bits_one() {
    let data = [0x00, 0x20, 0x07, 0x0E, 0xD0, 0xE8];
    assert_eq!(
        DeviceStatusRegister::try_from(&data[..]).unwrap(),
        DeviceStatusRegister(0b0000_0000_0010_0000_0000_1110_1101_0000)
    );
}

#[test]
fn device_status_with_bad_checksum_fails() {
    let data = [0x00, 0x20, 0x07, 0x0E, 0xD0, 0xE9];
    assert_eq!(
        DeviceStatusRegister::try_from(&data[..]),
        Err(DataError::CrcFailed)
    );
}

#[test]
fn deserialize_asc_status_enabled_yields_enabled() {
    let data = [0x00, 0x01, 0xB0];
    assert_eq!(AscState::try_from(&data[..]).unwrap(), AscState::Enabled);
}

#[test]
fn deserialize_asc_status_disabled_yields_enabled() {
    let data = [0x00, 0x00, 0x81];
    assert_eq!(AscState::try_from(&data[..]).unwrap(), AscState::Disabled);
}

#[test]
fn deserialize_asc_status_unknown_emit_error() {
    let data = [0x00, 0x03, 0xd2];
    assert!(AscState::try_from(&data[..]).is_err());
}

#[test]
fn serialize_asc_status_enabled_yields_one() {
    assert_eq!(u16::from(AscState::Enabled), 0x0001);
}

#[test]
fn serialize_asc_status_disabled_yields_zero() {
    assert_eq!(u16::from(AscState::Disabled), 0x0000);
}

#[test]
fn deserialize_voc_algorithm_state_yields_same_state() {
    let data = [
        0x01, 0x02, 0x17, 0x03, 0x04, 0x68, 0x05, 0x06, 0x50, 0x07, 0x08, 0x96,
    ];
    assert_eq!(
        VocAlgorithmState::try_from(&data[..]).unwrap(),
        VocAlgorithmState([0x01, 0x02, 0x03, 0x04, 0x05, 0x06, 0x07, 0x08])
    );
}

#[test]
fn serialize_voc_algorithm_state_yields_same_state() {
    assert_eq!(
        <[u16; 4]>::from(VocAlgorithmState([
            0x01, 0x02, 0x03, 0x04, 0x05, 0x06, 0x07, 0x08
        ])),
        [0x0102, 0x0304, 0x0506, 0x0708]
    );
}
