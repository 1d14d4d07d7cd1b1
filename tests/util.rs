use sen66::util::{
    check_range, check_scaling, check_scaling_unsigned, compute_crc8, crc8_matches, is_set,
    word_checksum,
};
use sen66::error::DataError;

#[test]
fn sample_crc_computes_properly() {
    let data = 0xBEEF_u16.to_be_bytes();
    let result = compute_crc8(&data);
    assert_eq!(result, 0x92);
}

#[test]
fn crc_of_empty_input_is_initial_value() {
    assert_eq!(compute_crc8(&[]), 0xFF);
}

#[test]
fn crc_of_known_words() {
    assert_eq!(word_checksum(0x00, 0x01), 0xB0);
    assert_eq!(word_checksum(0x00, 0x00), 0x81);
    assert_eq!(word_checksum(0x00, 0x03), 0xD2);
    assert_eq!(word_checksum(0xBE, 0xEF), 0x92);
    assert!(crc8_matches(&[0xBE, 0xEF], 0x92));
    assert!(!crc8_matches(&[0xBE, 0xEF], 0x93));
}

#[test]
fn bits_are_tested_by_position() {
    assert!(is_set(0b1000, 3));
    assert!(!is_set(0b1000, 2));
    assert!(is_set(0x8000_0000, 31));
}

#[test]
fn range_check_reports_bounds() {
    assert_eq!(check_range(5, 1, 10, "P", "u"), Ok(()));
    assert_eq!(check_range(1, 1, 10, "P", "u"), Ok(()));
    assert_eq!(check_range(10, 1, 10, "P", "u"), Ok(()));
    assert_eq!(
        check_range(11, 1, 10, "P", "u"),
        Err(DataError::ValueOutOfRange { parameter: "P", min: 1, max: 10, unit: "u" })
    );
}

#[test]
fn scaling_fails_on_overflow() {
    assert_eq!(check_scaling(163, 200, "T", "°C"), Ok(32600));
    assert_eq!(check_scaling(-163, 200, "T", "°C"), Ok(-32600));
    assert_eq!(
        check_scaling(164, 200, "T", "°C"),
        Err(DataError::ValueOutOfRange { parameter: "T", min: -163, max: 163, unit: "°C" })
    );
    assert_eq!(check_scaling_unsigned(6553, 10, "K", ""), Ok(65530));
    assert_eq!(
        check_scaling_unsigned(6554, 10, "K", ""),
        Err(DataError::ValueOutOfRange { parameter: "K", min: 0, max: 6553, unit: "" })
    );
}
