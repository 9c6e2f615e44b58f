use bytes::BytesMut;
use kingbase_types::codec::{FromSql, IsNull, ToSql};
use kingbase_types::error::SqlError;
use kingbase_types::system_time::{micros_since_epoch_2000, read_timestamp, unix_offset, write_timestamp, TimeOffset};
use kingbase_types::types::Type;
use std::time::{Duration, SystemTime, UNIX_EPOCH};

const EPOCH_2000: u64 = 946_684_800;

#[test]
fn timestamps_count_microseconds_from_2000() {
    let raw = 1_500_000i64.to_be_bytes();
    let t = <SystemTime as FromSql>::from_sql(&Type::TIMESTAMP(), &raw).unwrap();
    assert_eq!(t, UNIX_EPOCH + Duration::new(EPOCH_2000 + 1, 500_000_000));
    let raw = (-1i64).to_be_bytes();
    let t = <SystemTime as FromSql>::from_sql(&Type::TIMESTAMP(), &raw).unwrap();
    assert_eq!(t, UNIX_EPOCH + Duration::from_secs(EPOCH_2000) - Duration::from_micros(1));
    assert!(matches!(
        <SystemTime as FromSql>::from_sql(&Type::TIMESTAMP(), &[0, 1, 2]),
        Err(SqlError::Protocol(_))
    ));
}

#[test]
fn system_times_round_trip_through_timestamps() {
    for micros in [0i64, 1, -1, 86_400_000_000, -946_684_800_000_001, 123_456_789_012] {
        let raw = micros.to_be_bytes();
        let t = <SystemTime as FromSql>::from_sql(&Type::TIMESTAMPTZ(), &raw).unwrap();
        let mut out = BytesMut::new();
        assert!(matches!(t.to_sql(&Type::TIMESTAMPTZ(), &mut out), Ok(IsNull::No)));
        assert_eq!(&out[..], &raw[..]);
    }
}

#[test]
fn written_times_truncate_toward_2000() {
    let before_2000 = UNIX_EPOCH + Duration::from_secs(EPOCH_2000) - Duration::from_nanos(1_500);
    let mut out = BytesMut::new();
    assert!(before_2000.to_sql(&Type::TIMESTAMP(), &mut out).is_ok());
    assert_eq!(&out[..], &(-1i64).to_be_bytes());
    let after_2000 = UNIX_EPOCH + Duration::from_secs(EPOCH_2000) + Duration::from_nanos(2_999);
    let mut out = BytesMut::new();
    assert!(after_2000.to_sql(&Type::TIMESTAMP(), &mut out).is_ok());
    assert_eq!(&out[..], &2i64.to_be_bytes());
}

#[test]
fn offsets_from_the_unix_epoch() {
    assert_eq!(unix_offset(0), TimeOffset { before: false, secs: EPOCH_2000, nanos: 0 });
    assert_eq!(
        unix_offset(-946_684_800_000_001),
        TimeOffset { before: true, secs: 0, nanos: 1_000 }
    );
    assert_eq!(micros_since_epoch_2000(TimeOffset { before: true, secs: 0, nanos: 1_000 }), Some(-946_684_800_000_001));
    assert_eq!(micros_since_epoch_2000(TimeOffset { before: false, secs: u64::MAX, nanos: 0 }), None);
    let mut out = BytesMut::new();
    out.extend_from_slice(&[7]);
    assert!(matches!(
        write_timestamp(TimeOffset { before: false, secs: u64::MAX, nanos: 0 }, &mut out),
        Err(SqlError::TimestampOutOfRange)
    ));
    assert_eq!(&out[..], &[7]);
    assert_eq!(read_timestamp(&5i64.to_be_bytes()).unwrap(), unix_offset(5));
    assert_eq!(SqlError::TimestampOutOfRange.message(), "timestamp out of range");
}

#[test]
fn system_time_accepts_the_timestamp_types() {
    for ty in [Type::TIMESTAMP(), Type::TIMESTAMPTZ(), Type::MYSQL_DATETIME(), Type::ORACLE_SYS_DATE()] {
        assert!(<SystemTime as FromSql>::accepts(&ty));
        assert!(<SystemTime as ToSql>::accepts(&ty));
    }
    assert!(!<SystemTime as ToSql>::accepts(&Type::DATE()));
}
