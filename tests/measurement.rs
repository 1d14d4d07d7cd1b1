use sen66::codec::encode_words;
use sen66::data::{Concentrations, Measurement, ProductName, RawMeasurement, SerialNumber};
use sen66::error::DataError;

#[test]
fn measurement_fields_in_order() {
    let data = encode_words(&[10, 25, 40, 100, 4550, 0xFF38, 1000, 10, 0xFFFF]);
    let m = Measurement::try_from(&data[..]).unwrap();
    assert_eq!(
        m,
        Measurement {
            pm1_0: 10,
            pm2_5: 25,
            pm4_0: 40,
            pm10_0: 100,
            relative_humidity: 4550,
            temperature: -200,
            voc_index: 1000,
            nox_index: 10,
            co2: 0xFFFF,
        }
    );
    assert_eq!(
        Measurement::try_from(&data[..24]),
        Err(DataError::ReceivedBufferWrongSize)
    );
}

#[test]
fn raw_measurement_and_concentrations() {
    let data = encode_words(&[0x7FFF, 0x8000, 1, 2, 3]);
    assert_eq!(
        RawMeasurement::try_from(&data[..]).unwrap(),
        RawMeasurement { relative_humidity: 0x7FFF, temperature: -32768, voc: 1, nox: 2, co2: 3 }
    );
    assert_eq!(
        Concentrations::try_from(&data[..]).unwrap(),
        Concentrations { pm0_5: 0x7FFF, pm1_0: 0x8000, pm2_5: 1, pm4_0: 2, pm10_0: 3 }
    );
}

fn text_reply(text: &[u8]) -> Vec<u8> {
    let mut bytes = [0u8; 32];
    bytes[..text.len()].copy_from_slice(text);
    let words: Vec<u16> = bytes
        .chunks(2)
        .map(|c| u16::from_be_bytes([c[0], c[1]]))
        .collect();
    encode_words(&words)
}

#[test]
fn product_name_stops_after_null() {
    let data = text_reply(b"SEN66\0");
    let name = ProductName::try_from(&data[..]).unwrap();
    assert_eq!(name.get_name_buffer(), b"SEN66\0");
}

#[test]
fn serial_number_without_null_takes_all_bytes() {
    let text = [b'A'; 32];
    let data = text_reply(&text);
    let serial = SerialNumber::try_from(&data[..]).unwrap();
    assert_eq!(serial.get_serial_buffer(), &text[..]);
}

#[test]
fn non_ascii_text_is_rejected() {
    let data = text_reply(b"SEN\x806\0");
    assert!(matches!(
        ProductName::try_from(&data[..]),
        Err(DataError::NotASCIIString)
    ));
    let after_null = text_reply(b"SEN\0\x80");
    assert_eq!(
        ProductName::try_from(&after_null[..]).unwrap().get_name_buffer(),
        b"SEN\0"
    );
}
