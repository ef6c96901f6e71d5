use geoviewer::transport::decode_binary_rows;
use geoviewer::transport::decode_hex;
use geoviewer::transport::RowsError;
use geoviewer::transport::HexError;

#[test]
fn hex_pairs_become_bytes() {
    assert_eq!(decode_hex("0103ff"), Ok(vec![1u8, 3, 255]));
    assert_eq!(decode_hex("AbCd"), Ok(vec![0xabu8, 0xcd]));
    assert_eq!(decode_hex(""), Ok(vec![]));
}

#[test]
fn hex_errors() {
    assert_eq!(decode_hex("abc"), Err(HexError::OddLength));
    assert_eq!(decode_hex("zz"), Err(HexError::InvalidDigit));
    assert_eq!(decode_hex("-1"), Err(HexError::InvalidDigit));
}

#[test]
fn hex_pair_may_carry_a_plus_sign() {
    assert_eq!(decode_hex("+f"), Ok(vec![15u8]));
    assert_eq!(decode_hex("0a+1"), Ok(vec![10u8, 1]));
}

#[test]
fn base64_rows_decode_in_order() {
    let rows = vec![Some("AQID".to_owned()), Some("/w==".to_owned())];
    assert_eq!(decode_binary_rows(&rows), Ok(vec![vec![1u8, 2, 3], vec![255u8]]));
}

#[test]
fn base64_row_errors() {
    let missing = vec![Some("AQID".to_owned()), None];
    assert_eq!(decode_binary_rows(&missing), Err(RowsError::Missing));
    let broken = vec![Some("not base64!".to_owned()), None];
    match decode_binary_rows(&broken) {
        Err(RowsError::NotBase64(error)) => assert!(!error.to_string().is_empty()),
        other => panic!("expected a base64 error, got {other:?}"),
    }
    assert_eq!(decode_binary_rows(&vec![]), Ok(vec![]));
}
