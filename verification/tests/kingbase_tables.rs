use kingbase_types::codec::{FromSql, ToSql};
use kingbase_types::kingbase::{MySqlBit, SqlServerTinyInt};
use kingbase_types::types::{Kind, Type, TypeSystem};
use std::time::SystemTime;

#[test]
fn sqlserver_text_types_reuse_text_codec_and_keep_other_special_types_strict() {
    assert!(<&str as FromSql<'_>>::accepts(&Type::SQLSERVER_NVARCHAR()));
    assert!(<&str as ToSql>::accepts(&Type::SQLSERVER_NVARCHAR()));
    assert!(<String as FromSql<'_>>::accepts(&Type::SQLSERVER_NVARCHAR()));
    assert!(<String as ToSql>::accepts(&Type::SQLSERVER_NVARCHAR()));
    assert!(<&str as FromSql<'_>>::accepts(&Type::SQLSERVER_NCHAR()));
    assert!(<&str as ToSql>::accepts(&Type::SQLSERVER_NCHAR()));
    assert!(<String as FromSql<'_>>::accepts(&Type::SQLSERVER_NCHAR()));
    assert!(<String as ToSql>::accepts(&Type::SQLSERVER_NCHAR()));
    assert!(<&str as FromSql<'_>>::accepts(&Type::SQLSERVER_SYSNAME()));
    assert!(<&str as ToSql>::accepts(&Type::SQLSERVER_SYSNAME()));
    assert!(<String as FromSql<'_>>::accepts(&Type::SQLSERVER_SYSNAME()));
    assert!(<String as ToSql>::accepts(&Type::SQLSERVER_SYSNAME()));
    assert!(<Vec<String> as FromSql<'_>>::accepts(
        &Type::SQLSERVER_NVARCHAR_ARRAY()
    ));
    assert!(<Vec<String> as ToSql>::accepts(
        &Type::SQLSERVER_NVARCHAR_ARRAY()
    ));
    assert!(<Vec<String> as FromSql<'_>>::accepts(
        &Type::SQLSERVER_NCHAR_ARRAY()
    ));
    assert!(<Vec<String> as ToSql>::accepts(
        &Type::SQLSERVER_NCHAR_ARRAY()
    ));
    assert!(<&str as FromSql<'_>>::accepts(&Type::SQLSERVER_BPCHARBYTE()));
    assert!(<&str as ToSql>::accepts(&Type::SQLSERVER_VARCHARBYTE()));

    assert!(!<&str as FromSql<'_>>::accepts(&Type::SQLSERVER_SYS_BIT()));
    assert!(!<&str as ToSql>::accepts(&Type::SQLSERVER_DATETIME2()));
}

#[test]
fn sqlserver_jdbc_fixed_binary_and_tinyint_types_keep_verified_boundaries() {
    assert!(<Vec<u8> as FromSql<'_>>::accepts(&Type::SQLSERVER_BINARY()));
    assert!(<Vec<u8> as ToSql>::accepts(&Type::SQLSERVER_BINARY()));
    assert!(<Vec<u8> as FromSql<'_>>::accepts(
        &Type::SQLSERVER_VARBINARY()
    ));
    assert!(<Vec<u8> as ToSql>::accepts(&Type::SQLSERVER_VARBINARY()));
    assert!(<Vec<Vec<u8>> as FromSql<'_>>::accepts(
        &Type::SQLSERVER_BINARY_ARRAY()
    ));
    assert!(<Vec<Vec<u8>> as ToSql>::accepts(
        &Type::SQLSERVER_VARBINARY_ARRAY()
    ));

    assert!(<SqlServerTinyInt as FromSql<'_>>::accepts(
        &Type::SQLSERVER_TINYINT()
    ));
    assert!(<SqlServerTinyInt as ToSql>::accepts(
        &Type::SQLSERVER_TINYINT()
    ));
    assert!(<Vec<SqlServerTinyInt> as FromSql<'_>>::accepts(
        &Type::SQLSERVER_TINYINT_ARRAY()
    ));
    assert!(<Vec<SqlServerTinyInt> as ToSql>::accepts(
        &Type::SQLSERVER_TINYINT_ARRAY()
    ));

    assert!(!<i8 as ToSql>::accepts(&Type::SQLSERVER_TINYINT()));
    assert!(!<SqlServerTinyInt as ToSql>::accepts(&Type::MYSQL_TINYINT()));
    assert!(!<Vec<u8> as ToSql>::accepts(&Type::SQLSERVER_ROWVERSION()));
}

#[test]
fn sqlserver_bit_reuses_bool_codec_with_exact_type_identity() {
    assert!(<bool as FromSql<'_>>::accepts(&Type::SQLSERVER_SYS_BIT()));
    assert!(<bool as ToSql>::accepts(&Type::SQLSERVER_SYS_BIT()));
    assert!(<Vec<bool> as FromSql<'_>>::accepts(
        &Type::SQLSERVER_SYS_BIT_ARRAY()
    ));
    assert!(<Vec<bool> as ToSql>::accepts(
        &Type::SQLSERVER_SYS_BIT_ARRAY()
    ));

    assert!(!<bool as FromSql<'_>>::accepts(&Type::BIT()));
    assert!(!<bool as ToSql>::accepts(&Type::MYSQL_SYS_BIT()));
}

#[test]
fn mysql_mode_arrays_use_mysql_member_types() {
    let mysql_int4_array = Type::from_oid_in(TypeSystem::Mysql, 1007).unwrap();
    assert_eq!(mysql_int4_array, Type::INT4_ARRAY());
    match mysql_int4_array.kind() {
        Kind::Array(member) => assert_eq!(member, &Type::INT4()),
        kind => panic!("expected array type, got {kind:?}"),
    }
    assert!(<Vec<i32> as FromSql<'_>>::accepts(&mysql_int4_array));
    assert!(<Vec<i32> as ToSql>::accepts(&mysql_int4_array));

    let mysql_binary_array = Type::from_mysql_oid(3385).unwrap();
    assert_eq!(mysql_binary_array, Type::MYSQL_BINARY_ARRAY());
    match mysql_binary_array.kind() {
        Kind::Array(member) => assert_eq!(member, &Type::MYSQL_BINARY()),
        kind => panic!("expected array type, got {kind:?}"),
    }
    assert!(<Vec<Vec<u8>> as FromSql<'_>>::accepts(&mysql_binary_array));
    assert!(<Vec<Vec<u8>> as ToSql>::accepts(&mysql_binary_array));

    let mysql_bit_array = Type::from_mysql_oid(4656).unwrap();
    assert_eq!(mysql_bit_array, Type::MYSQL_SYS_BIT_ARRAY());
    match mysql_bit_array.kind() {
        Kind::Array(member) => assert_eq!(member, &Type::MYSQL_SYS_BIT()),
        kind => panic!("expected array type, got {kind:?}"),
    }
    assert!(<Vec<MySqlBit> as FromSql<'_>>::accepts(&mysql_bit_array));
    assert!(<Vec<MySqlBit> as ToSql>::accepts(&mysql_bit_array));

    let mysql_tinyint_array = Type::from_mysql_oid(8101).unwrap();
    assert_eq!(mysql_tinyint_array, Type::MYSQL_TINYINT_ARRAY());
    assert!(<Vec<i8> as FromSql<'_>>::accepts(&mysql_tinyint_array));
    assert!(<Vec<i8> as ToSql>::accepts(&mysql_tinyint_array));

    let mysql_uint4_array = Type::from_mysql_oid(7083).unwrap();
    assert_eq!(mysql_uint4_array, Type::MYSQL_UINT4_ARRAY());
    assert!(<Vec<u32> as FromSql<'_>>::accepts(&mysql_uint4_array));
    assert!(<Vec<u32> as ToSql>::accepts(&mysql_uint4_array));

    let mysql_uint8_array = Type::from_mysql_oid(7085).unwrap();
    assert_eq!(mysql_uint8_array, Type::MYSQL_UINT8_ARRAY());
    assert!(<Vec<u64> as FromSql<'_>>::accepts(&mysql_uint8_array));
    assert!(<Vec<u64> as ToSql>::accepts(&mysql_uint8_array));
}

#[test]
fn mysql_sql_aliases_use_postgresql_canonical_types() {
    for (oid, expected) in [
        (21, Type::INT2()),
        (23, Type::INT4()),
        (20, Type::INT8()),
        (701, Type::FLOAT8()),
        (16, Type::BOOL()),
    ] {
        assert_eq!(Type::from_oid_in(TypeSystem::Mysql, oid), Some(expected));
    }
}

#[test]
fn sqlserver_datetime_types_reuse_pg_timestamp_codecs() {
    assert!(<SystemTime as FromSql<'_>>::accepts(&Type::SQLSERVER_DATETIME()));
    assert!(<SystemTime as ToSql>::accepts(&Type::SQLSERVER_DATETIME()));
    assert!(<Vec<SystemTime> as FromSql<'_>>::accepts(&Type::SQLSERVER_DATETIME_ARRAY()));
    assert!(<Vec<SystemTime> as ToSql>::accepts(&Type::SQLSERVER_DATETIME_ARRAY()));

    assert!(<SystemTime as FromSql<'_>>::accepts(&Type::SQLSERVER_SMALLDATETIME()));
    assert!(<SystemTime as ToSql>::accepts(&Type::SQLSERVER_SMALLDATETIME()));
    assert!(<Vec<SystemTime> as FromSql<'_>>::accepts(&Type::SQLSERVER_SMALLDATETIME_ARRAY()));
    assert!(<Vec<SystemTime> as ToSql>::accepts(&Type::SQLSERVER_SMALLDATETIME_ARRAY()));

    assert!(!<SystemTime as FromSql<'_>>::accepts(&Type::SQLSERVER_DATETIME2()));
    assert!(!<SystemTime as ToSql>::accepts(&Type::SQLSERVER_DATETIME2()));
}
