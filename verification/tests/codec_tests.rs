use escrow_core::codec::{decode_fixed32, parse_amount};
use escrow_core::errors::EscrowError;

#[test]
fn decode_fixed32_accepts_64_hex_digits() {
    let s = "00".repeat(32);
    let bytes = decode_fixed32(&s).expect("all zeros must decode");
    assert_eq!(bytes, vec![0u8; 32]);
}

#[test]
fn decode_fixed32_decodes_values_not_identity() {
    let s = "0102030f10FF".to_string() + &"ab".repeat(26);
    let bytes = decode_fixed32(&s).expect("valid hex must decode");
    let mut expected = vec![0x01u8, 0x02, 0x03, 0x0f, 0x10, 0xff];
    expected.extend(vec![0xabu8; 26]);
    assert_eq!(bytes, expected);
}

#[test]
fn decode_fixed32_accepts_mixed_case() {
    let s = "Aa".repeat(32);
    let bytes = decode_fixed32(&s).expect("mixed case is valid hex");
    assert_eq!(bytes, vec![0xaau8; 32]);
}

#[test]
fn decode_fixed32_rejects_wrong_length() {
    assert_eq!(decode_fixed32(""), Err(EscrowError::InvalidInput));
    assert_eq!(decode_fixed32(&"00".repeat(31)), Err(EscrowError::InvalidInput));
    assert_eq!(decode_fixed32(&"00".repeat(33)), Err(EscrowError::InvalidInput));
    let odd = "0".repeat(63);
    assert_eq!(decode_fixed32(&odd), Err(EscrowError::InvalidInput));
}

#[test]
fn decode_fixed32_rejects_non_hex() {
    let s = "zz".repeat(32);
    assert_eq!(decode_fixed32(&s), Err(EscrowError::InvalidInput));
    let t = "0".repeat(63) + "g";
    assert_eq!(decode_fixed32(&t), Err(EscrowError::InvalidInput));
}

#[test]
fn parse_amount_reads_decimal_strings() {
    assert_eq!(parse_amount("0"), Ok(0));
    assert_eq!(parse_amount("7"), Ok(7));
    assert_eq!(parse_amount("2000000000"), Ok(2_000_000_000));
    assert_eq!(parse_amount("007"), Ok(7));
    assert_eq!(parse_amount("18446744073709551615"), Ok(u64::MAX));
}

#[test]
fn parse_amount_rejects_bad_strings() {
    assert_eq!(parse_amount(""), Err(EscrowError::InvalidInput));
    assert_eq!(parse_amount("12a"), Err(EscrowError::InvalidInput));
    assert_eq!(parse_amount("-5"), Err(EscrowError::InvalidInput));
    assert_eq!(parse_amount("1 2"), Err(EscrowError::InvalidInput));
    assert_eq!(parse_amount("äß"), Err(EscrowError::InvalidInput));
}

#[test]
fn parse_amount_rejects_overflow() {
    assert_eq!(parse_amount("18446744073709551616"), Err(EscrowError::InvalidInput));
    assert_eq!(parse_amount(&"9".repeat(30)), Err(EscrowError::InvalidInput));
}
