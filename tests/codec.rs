use band_oracle::codec::{from_base64_to_bytes, from_str, Price};
use band_oracle::error::{DecodeKind, FetchError};

#[test]
fn from_str_reads_decimal() {
    assert_eq!(from_str("42"), Ok(42));
    assert_eq!(from_str("0"), Ok(0));
    assert_eq!(from_str("007"), Ok(7));
    assert_eq!(from_str("+15"), Ok(15));
    assert_eq!(from_str("18446744073709551615"), Ok(u64::MAX));
}

#[test]
fn from_str_rejects_non_numeric() {
    let err = Err(FetchError::Decode(DecodeKind::Integer));
    assert_eq!(from_str(""), err);
    assert_eq!(from_str("+"), err);
    assert_eq!(from_str("abc"), err);
    assert_eq!(from_str("12a"), err);
    assert_eq!(from_str("-1"), err);
    assert_eq!(from_str(" 1"), err);
    assert_eq!(from_str("1.5"), err);
    assert_eq!(from_str("18446744073709551616"), err);
    assert_eq!(from_str("99999999999999999999x"), err);
}

#[test]
fn from_str_reads_rendered_numbers() {
    for n in [0u64, 1, 9, 10, 4242, 1_000_000, u64::MAX - 1, u64::MAX] {
        assert_eq!(from_str(&n.to_string()), Ok(n));
    }
}

#[test]
fn base64_field_decodes() {
    assert_eq!(from_base64_to_bytes("aGVsbG8=").unwrap(), b"hello".to_vec());
    assert_eq!(from_base64_to_bytes("").unwrap(), Vec::<u8>::new());
    assert_eq!(
        from_base64_to_bytes("AAAABEJBTkQAAAAAAA9CQA==").unwrap(),
        vec![0, 0, 0, 4, 0x42, 0x41, 0x4e, 0x44, 0, 0, 0, 0, 0, 0x0f, 0x42, 0x40]
    );
}

#[test]
fn base64_field_rejects_invalid() {
    let err = Err(FetchError::Decode(DecodeKind::Base64));
    assert_eq!(from_base64_to_bytes("!!!!"), err);
    assert_eq!(from_base64_to_bytes("aGVsbG8=x"), err);
    assert_eq!(from_base64_to_bytes("a"), err);
}

#[test]
fn base64_decode_then_encode_round_trips() {
    for s in ["", "aGVsbG8=", "AAAAAAAPQkA=", "AAAABEJBTkQAAAAAAA9CQA==", "Zm9vYmFy", "Zg=="] {
        let bytes = from_base64_to_bytes(s).unwrap();
        assert_eq!(base64::encode(&bytes), s);
    }
}

#[test]
fn price_decodes_canonical_encoding() {
    let bytes = [0u8, 0, 0, 0, 0, 0x0f, 0x42, 0x40];
    assert_eq!(Price::try_from_slice(&bytes), Ok(Price { px: 1000000 }));
    assert_eq!(Price::try_from_slice(&[0xff; 8]), Ok(Price { px: u64::MAX }));
    assert_eq!(Price::try_from_slice(&[0, 0, 0, 0, 0, 0, 1, 0]), Ok(Price { px: 256 }));
}

#[test]
fn price_rejects_wrong_length() {
    assert_eq!(Price::try_from_slice(&[0, 0, 0, 0, 0, 0x0f, 0x42]), Err(FetchError::BinaryDecode));
    assert_eq!(Price::try_from_slice(&[]), Err(FetchError::BinaryDecode));
    assert_eq!(
        Price::try_from_slice(&[0, 0, 0, 0, 0, 0x0f, 0x42, 0x40, 0]),
        Err(FetchError::BinaryDecode)
    );
}
