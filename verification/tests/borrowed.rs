use bytes::BytesMut;
use kingbase_types::codec::{FromSql, IsNull, ToSql};
use kingbase_types::types::Type;
use std::borrow::Cow;

#[test]
fn cow_str_reads_text_without_copying() {
    let raw = b"hello";
    let value = <Cow<str> as FromSql>::from_sql(&Type::TEXT(), raw).unwrap();
    assert!(matches!(value, Cow::Borrowed(_)));
    assert_eq!(value, "hello");
    assert!(<Cow<str> as FromSql>::accepts(&Type::VARCHAR()));
    assert!(!<Cow<str> as FromSql>::accepts(&Type::INT4()));
}

#[test]
fn cow_str_writes_borrowed_and_owned_alike() {
    let borrowed: Cow<str> = Cow::Borrowed("abc");
    let owned: Cow<str> = Cow::Owned(String::from("abc"));
    let mut first = BytesMut::new();
    let mut second = BytesMut::new();
    assert!(matches!(borrowed.to_sql(&Type::TEXT(), &mut first), Ok(IsNull::No)));
    assert!(matches!(owned.to_sql(&Type::TEXT(), &mut second), Ok(IsNull::No)));
    assert_eq!(&first[..], b"abc");
    assert_eq!(first, second);
}

#[test]
fn cow_bytes_write_their_contents() {
    let value: Cow<[u8]> = Cow::Owned(vec![1, 2, 3]);
    let mut out = BytesMut::new();
    out.extend_from_slice(&[9]);
    assert!(matches!(value.to_sql(&Type::BYTEA(), &mut out), Ok(IsNull::No)));
    assert_eq!(&out[..], &[9, 1, 2, 3]);
    assert!(<Cow<[u8]> as ToSql>::accepts(&Type::BYTEA()));
    assert!(!<Cow<[u8]> as ToSql>::accepts(&Type::TEXT()));
}

#[test]
fn boxed_str_round_trips_text() {
    let value: Box<str> = Box::from("zoë");
    let mut out = BytesMut::new();
    assert!(matches!(value.to_sql(&Type::TEXT(), &mut out), Ok(IsNull::No)));
    assert_eq!(&out[..], "zoë".as_bytes());
    let back = <Box<str> as FromSql>::from_sql(&Type::TEXT(), &out).unwrap();
    assert_eq!(&*back, "zoë");
    assert!(<Box<str> as FromSql>::from_sql(&Type::TEXT(), &[0xff]).is_err());
}

#[test]
fn byte_arrays_write_their_bytes() {
    let value = [1u8, 2, 3, 4];
    let mut out = BytesMut::new();
    assert!(matches!(value.to_sql(&Type::BYTEA(), &mut out), Ok(IsNull::No)));
    assert_eq!(&out[..], &[1, 2, 3, 4]);
    assert!(<[u8; 4] as ToSql>::accepts(&Type::BYTEA()));
    assert!(!<[u8; 4] as ToSql>::accepts(&Type::INT4()));
}
