use bigdecimal::BigDecimal;
use bytes::BytesMut;
use kingbase_types::codec::{FromSql, ToSql};
use kingbase_types::decimal::DecimalParts;
use kingbase_types::error::{NumericError, SqlError};
use kingbase_types::numeric::{numeric_to_i64, numeric_to_string, parse_group, Numeric};
use kingbase_types::types::Type;
use std::str::FromStr;

fn decimal(value: &str) -> BigDecimal {
    BigDecimal::from_str(value).unwrap()
}

fn encode(value: &str) -> Vec<u8> {
    let mut out = BytesMut::new();
    decimal(value).to_sql(&Type::NUMERIC(), &mut out).unwrap();
    out.to_vec()
}

#[test]
fn accepts_numeric_types() {
    assert!(<BigDecimal as ToSql>::accepts(&Type::NUMERIC()));
    assert!(<BigDecimal as FromSql<'_>>::accepts(&Type::NUMERIC()));
}

#[test]
fn encodes_known_values() {
    assert_eq!(encode("12345.6789"), [0, 3, 0, 1, 0, 0, 0, 4, 0, 1, 9, 41, 26, 133]);
    assert_eq!(encode("-0.0012"), [0, 1, 255, 255, 64, 0, 0, 4, 0, 12]);
    assert_eq!(encode("0.00"), [0, 0, 0, 0, 0, 0, 0, 2]);
}

#[test]
fn decodes_known_values() {
    assert_eq!(
        BigDecimal::from_sql(&Type::NUMERIC(), &[0, 3, 0, 1, 0, 0, 0, 4, 0, 1, 9, 41, 26, 133])
            .unwrap()
            .to_string(),
        "12345.6789"
    );
    assert_eq!(
        BigDecimal::from_sql(&Type::NUMERIC(), &[0, 1, 255, 255, 64, 0, 0, 4, 0, 12])
            .unwrap()
            .to_string(),
        "-0.0012"
    );
}

#[test]
fn round_trips_basic_values() {
    for value in [
        "0",
        "0.00",
        "1",
        "-1",
        "12345.6789",
        "-12345.6789",
        "0.00000123",
        "-0.0012",
        "100000000000000000000.0000000001",
    ] {
        let value = decimal(value);
        let mut out = BytesMut::new();
        value.to_sql(&Type::NUMERIC(), &mut out).unwrap();
        let decoded = BigDecimal::from_sql(&Type::NUMERIC(), &out).unwrap();
        assert_eq!(decoded, value);
    }
}

#[test]
fn nan_is_not_supported() {
    let err = BigDecimal::from_sql(&Type::NUMERIC(), &[0, 0, 0, 0, 192, 0, 0, 0]).unwrap_err();
    assert!(err.message().contains("NaN"));
}

#[test]
fn numeric_text_pads_groups_and_scale() {
    assert_eq!(numeric_to_string(&[0, 2, 0, 1, 0, 0, 0, 3, 0, 12, 0, 5]).unwrap(), "120005.000");
    assert_eq!(numeric_to_string(&[0, 0, 0, 0, 0, 0, 0, 3]).unwrap(), "0.000");
    assert_eq!(numeric_to_string(&[0, 1, 255, 254, 0, 0, 0, 6, 0, 7]).unwrap(), "0.000000");
    assert_eq!(numeric_to_string(&[0, 1, 0, 0, 64, 0, 0, 0, 0, 7]).unwrap(), "-7");
}

#[test]
fn numeric_errors_name_the_fault() {
    assert_eq!(numeric_to_i64(&[0, 0, 0]), Err(NumericError::InvalidValue));
    assert_eq!(numeric_to_i64(&[0, 0, 0, 0, 0x12, 0, 0, 0]), Err(NumericError::InvalidSign));
    assert_eq!(numeric_to_i64(&[0, 1, 0, 0, 0, 0, 0, 0, 0x27, 0x10]), Err(NumericError::InvalidDigit));
    assert_eq!(numeric_to_i64(&[0, 0, 0, 0, 0xC0, 0, 0, 0]), Err(NumericError::NanAsInteger));
    assert_eq!(numeric_to_string(&[0, 0, 0, 0, 0xC0, 0, 0, 0]), Err(NumericError::NanAsDecimal));
    assert_eq!(numeric_to_i64(&[0, 1, 0, 2, 0, 0, 0, 0, 0, 3]).unwrap(), 300_000_000);
    assert_eq!(
        SqlError::Numeric(NumericError::NotAnInteger).message(),
        "NUMERIC value is not an integer"
    );
}

#[test]
fn numeric_from_parts_groups_digits_around_the_point() {
    let mut out = BytesMut::new();
    Numeric::from_parts("123456789", 4).unwrap().write(&mut out).unwrap();
    assert_eq!(out.as_ref(), &[0, 3, 0, 1, 0, 0, 0, 4, 0, 1, 9, 41, 26, 133]);

    let mut out = BytesMut::new();
    Numeric::from_parts("-12", -4).unwrap().write(&mut out).unwrap();
    assert_eq!(out.as_ref(), &[0, 1, 0, 1, 64, 0, 0, 0, 0, 12]);

    assert_eq!(Numeric::from_parts("1", 40000).unwrap_err(), NumericError::ScaleOutOfRange);
    assert_eq!(Numeric::from_parts("1", i64::MIN).unwrap_err(), NumericError::ScaleOutOfRange);
}

#[test]
fn parse_group_reads_like_i16_parse() {
    assert_eq!(parse_group(&['0', '0', '1', '2']), Ok(12));
    assert_eq!(parse_group(&['-', '9', '9']), Ok(-99));
    assert_eq!(parse_group(&['+', '7']), Ok(7));
    assert_eq!(parse_group(&['1', 'x']), Err(NumericError::InvalidDigit));
    assert_eq!(parse_group(&[]), Err(NumericError::InvalidDigit));
    assert_eq!(parse_group(&['4', '0', '0', '0', '0']), Err(NumericError::InvalidDigit));
}

#[test]
fn decimal_parts_write_as_their_decimal_does() {
    for value in ["0", "1", "-12345.6789", "0.00000123", "100000000000000000000.0000000001"] {
        let d = decimal(value);
        let parts = DecimalParts::of_decimal(&d);
        let mut out = BytesMut::new();
        parts.to_sql(&Type::NUMERIC(), &mut out).unwrap();
        assert_eq!(out.to_vec(), encode(value));
        let back = <DecimalParts as FromSql>::from_sql(&Type::NUMERIC(), &out).unwrap();
        let rebuilt = BigDecimal::from_str(&format!("{}e-{}", back.coefficient(), back.exponent())).unwrap();
        assert_eq!(rebuilt, d);
    }
    let parts = DecimalParts::new("-1234".to_string(), 2).unwrap();
    let mut out = BytesMut::new();
    Numeric::try_from(&parts).unwrap().write(&mut out).unwrap();
    assert_eq!(out.to_vec(), encode("-12.34"));
    assert!(DecimalParts::new("12a".to_string(), 0).is_none());
    assert!(DecimalParts::new("-".to_string(), 0).is_none());
}

#[test]
fn decimals_read_back_with_their_digits_and_scale() {
    for value in ["0", "0.00", "1", "-1", "12345.6789", "-12345.6789", "0.00000123", "-0.0012", "100000000000000000000.0000000001"] {
        let d = decimal(value);
        let mut out = BytesMut::new();
        d.to_sql(&Type::NUMERIC(), &mut out).unwrap();
        assert_eq!(numeric_to_string(&out).unwrap(), value);
        let back = <BigDecimal as FromSql>::from_sql(&Type::NUMERIC(), &out).unwrap();
        assert_eq!(back.as_bigint_and_exponent(), d.as_bigint_and_exponent());
    }
}
