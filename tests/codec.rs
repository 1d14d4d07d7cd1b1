use sen66::codec::{check_deserialization, decode, decode_request, encode_request, encode_words};
use sen66::command::Command;
use sen66::error::DataError;

#[test]
fn words_are_framed_with_checksums() {
    assert_eq!(encode_words(&[0xBEEF, 0x0001]), vec![0xBE, 0xEF, 0x92, 0x00, 0x01, 0xB0]);
    assert_eq!(encode_words(&[]), Vec::<u8>::new());
}

#[test]
fn request_starts_with_bare_opcode() {
    assert_eq!(encode_request(Command::StartContinuousMeasurement, &[]), vec![0x00, 0x21]);
    assert_eq!(
        encode_request(Command::SetReadAmbientPreassure, &[0xBEEF]),
        vec![0x67, 0x20, 0xBE, 0xEF, 0x92]
    );
}

#[test]
fn decode_inverts_encode() {
    let words = [0x0000, 0xFFFF, 0x1234, 0x8000, 0x00FF];
    let data = encode_words(&words);
    assert_eq!(decode(&data, 15), Ok(words.to_vec()));
    let request = encode_request(Command::SetReadVocTuningParameters, &words);
    assert_eq!(decode_request(&request), Ok((0x60D0, words.to_vec())));
}

#[test]
fn every_checksum_bit_flip_is_detected() {
    let words = [0x0102, 0xA0B0, 0xFFFF];
    let data = encode_words(&words);
    for k in 0..words.len() {
        for bit in 0..8 {
            let mut bad = data.clone();
            bad[3 * k + 2] ^= 1 << bit;
            assert_eq!(decode(&bad, 9), Err(DataError::CrcFailed));
            assert_eq!(check_deserialization(&bad, 9), Err(DataError::CrcFailed));
        }
    }
    let request = encode_request(Command::SetReadNoxTuningParameters, &words);
    for k in 0..words.len() {
        for bit in 0..8 {
            let mut bad = request.clone();
            bad[3 * k + 4] ^= 1 << bit;
            assert_eq!(decode_request(&bad), Err(DataError::CrcFailed));
        }
    }
}

#[test]
fn lengths_off_the_grid_are_rejected() {
    let data = encode_words(&[1, 2]);
    for len in [1usize, 2, 4, 5] {
        assert_eq!(decode(&data[..len], len), Err(DataError::ReceivedBufferWrongSize));
    }
    assert_eq!(decode(&data, 3), Err(DataError::ReceivedBufferWrongSize));
    assert_eq!(decode(&[], 0), Ok(vec![]));
    let request = encode_request(Command::ForcedRecalibration, &[1, 2]);
    for len in [0usize, 1, 3, 4, 6, 7] {
        assert_eq!(decode_request(&request[..len]), Err(DataError::ReceivedBufferWrongSize));
    }
    assert_eq!(decode_request(&request[..2]), Ok((0x6707, vec![])));
}
