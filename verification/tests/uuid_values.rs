use bytes::BytesMut;
use kingbase_types::codec::{FromSql, IsNull, ToSql};
use kingbase_types::error::SqlError;
use kingbase_types::types::Type;
use kingbase_types::uuid_codec::read_uuid;
use uuid::Uuid;

#[test]
fn uuid_reuses_sqlserver_uniqueidentifier_wire_format() {
    let value = Uuid::from_bytes([
        0x00, 0x11, 0x22, 0x33, 0x44, 0x55, 0x66, 0x77, 0x88, 0x99, 0xaa, 0xbb, 0xcc, 0xdd, 0xee, 0xff,
    ]);

    assert!(<Uuid as FromSql>::accepts(&Type::SQLSERVER_UNIQUEIDENTIFIER()));
    assert!(<Uuid as ToSql>::accepts(&Type::SQLSERVER_UNIQUEIDENTIFIER()));
    assert!(<Vec<Uuid> as FromSql<'_>>::accepts(&Type::SQLSERVER_UNIQUEIDENTIFIER_ARRAY()));
    assert!(<Vec<Uuid> as ToSql>::accepts(&Type::SQLSERVER_UNIQUEIDENTIFIER_ARRAY()));
    assert!(!<Uuid as FromSql>::accepts(&Type::SQLSERVER_NVARCHAR()));

    let decoded = <Uuid as FromSql>::from_sql(&Type::SQLSERVER_UNIQUEIDENTIFIER(), value.as_bytes()).unwrap();
    assert_eq!(decoded, value);
}

#[test]
fn uuids_write_their_bytes_and_reject_other_lengths() {
    let value = Uuid::from_bytes([7; 16]);
    let mut out = BytesMut::new();
    assert!(matches!(value.to_sql(&Type::UUID(), &mut out), Ok(IsNull::No)));
    assert_eq!(&out[..], &[7u8; 16]);
    assert!(matches!(<Uuid as FromSql>::from_sql(&Type::UUID(), &[1, 2, 3]), Err(SqlError::Protocol(_))));
    assert_eq!(read_uuid(&[9; 16]).unwrap(), [9; 16]);
    assert!(read_uuid(&[9; 17]).is_err());
}
