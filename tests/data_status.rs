use sen66::data::DataStatus;
use sen66::error::DataError;

#[test]
fn data_status_is_enabled_if_one_is_send() {
    let data = [0x00, 0x01, 0xB0];
    assert_eq!(DataStatus::try_from(&data[..]).unwrap(), DataStatus::Ready);
}

#[test]
fn data_status_is_disabled_if_zero_is_send() {
    let data = [0x00, 0x00, 0x81];
    assert_eq!(
        DataStatus::try_from(&data[..]).unwrap(),
        DataStatus::NotReady
    );
}

#[test]
fn receiving_invalid_value_for_data_status_emits_error() {
    let data = [0x00, 0x03, 0xD2];
    assert!(DataStatus::try_from(&data[..]).is_err());
}

#[test]
fn data_status_unexpected_value_names_parameter() {
    let data = [0x00, 0x03, 0xD2];
    assert_eq!(
        DataStatus::try_from(&data[..]),
        Err(DataError::UnexpectedValueReceived {
            parameter: "Data ready status",
            expected: "0 or 1",
            actual: 3,
        })
    );
}

#[test]
fn data_status_with_bad_checksum_fails() {
    let data = [0x00, 0x01, 0xB1];
    assert_eq!(DataStatus::try_from(&data[..]), Err(DataError::CrcFailed));
}

#[test]
fn data_status_with_wrong_length_fails() {
    let data = [0x00, 0x01, 0xB0, 0x00];
    assert_eq!(
        DataStatus::try_from(&data[..]),
        Err(DataError::ReceivedBufferWrongSize)
    );
}
