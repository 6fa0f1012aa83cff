use transaction_pool::error::LoadError;
use transaction_pool::payload::{decode_payload, payload_from_decoded};

#[test]
fn empty_text_is_the_empty_payload() {
    assert_eq!(decode_payload(""), Ok(vec![]));
}

#[test]
fn decodes_padded_and_unpadded_groups() {
    assert_eq!(decode_payload("AQID"), Ok(vec![1, 2, 3]));
    assert_eq!(decode_payload("AQI="), Ok(vec![1, 2]));
    assert_eq!(decode_payload("AQ=="), Ok(vec![1]));
    assert_eq!(decode_payload("aGVsbG8="), Ok(b"hello".to_vec()));
    assert_eq!(decode_payload("aGVsbG8gd29ybGR+Cg=="), Ok(b"hello world~\n".to_vec()));
    assert_eq!(decode_payload("+/+/"), Ok(vec![0xfb, 0xff, 0xbf]));
    assert_eq!(decode_payload("AAAA"), Ok(vec![0, 0, 0]));
}

#[test]
fn decodes_what_the_standard_engine_encodes() {
    let engine = base64::engine::general_purpose::STANDARD;
    for length in 0..=64usize {
        let bytes: Vec<u8> = (0..length).map(|i| (i * 37 + length * 11) as u8).collect();
        let text = base64::Engine::encode(&engine, &bytes);
        assert_eq!(decode_payload(&text), Ok(bytes));
    }
    let bytes: Vec<u8> = (0..=255u8).collect();
    let text = base64::Engine::encode(&engine, &bytes);
    assert_eq!(decode_payload(&text), Ok(bytes));
}

#[test]
fn payload_text_outside_the_alphabet_is_an_encoding_error() {
    assert_eq!(decode_payload("AQ!D"), Err(LoadError::Encoding));
    assert_eq!(decode_payload("AQ D"), Err(LoadError::Encoding));
    assert_eq!(decode_payload("AQID\n"), Err(LoadError::Encoding));
    assert_eq!(decode_payload("AQ-_"), Err(LoadError::Encoding));
    assert_eq!(decode_payload("AQé="), Err(LoadError::Encoding));
}

#[test]
fn text_with_wrong_padding_is_an_encoding_error() {
    assert_eq!(decode_payload("A"), Err(LoadError::Encoding));
    assert_eq!(decode_payload("AQ"), Err(LoadError::Encoding));
    assert_eq!(decode_payload("AQI"), Err(LoadError::Encoding));
    assert_eq!(decode_payload("AQ="), Err(LoadError::Encoding));
    assert_eq!(decode_payload("AQID="), Err(LoadError::Encoding));
    assert_eq!(decode_payload("A==="), Err(LoadError::Encoding));
    assert_eq!(decode_payload("===="), Err(LoadError::Encoding));
    assert_eq!(decode_payload("AQ==AQID"), Err(LoadError::Encoding));
    assert_eq!(decode_payload("=AQI"), Err(LoadError::Encoding));
}

#[test]
fn text_with_bits_left_over_is_an_encoding_error() {
    assert_eq!(decode_payload("AR=="), Err(LoadError::Encoding));
    assert_eq!(decode_payload("AQJ="), Err(LoadError::Encoding));
}

#[test]
fn payload_from_decoded_takes_the_bytes_or_gives_an_encoding_error() {
    assert_eq!(payload_from_decoded(Ok(vec![1, 2, 3])), Ok(vec![1, 2, 3]));
    assert_eq!(payload_from_decoded(Ok(vec![])), Ok(vec![]));
    assert_eq!(
        payload_from_decoded(Err(base64::DecodeError::InvalidPadding)),
        Err(LoadError::Encoding)
    );
    assert_eq!(
        payload_from_decoded(Err(base64::DecodeError::InvalidByte(0, b'!'))),
        Err(LoadError::Encoding)
    );
    assert_eq!(
        payload_from_decoded(Err(base64::DecodeError::InvalidLength(1))),
        Err(LoadError::Encoding)
    );
}
