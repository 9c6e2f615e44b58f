//! The built-in types of the four type tables.

use vstd::prelude::*;
use crate::types::{Type, TypeSystem, TypeView, KindView};

verus! {

/// A built-in type of one of the type tables.
#[derive(Debug, Copy, Clone, PartialEq, Eq, Hash, Structural)]
pub enum Builtin {
    /// `pg_catalog.bool`.
    Bool,
    /// `pg_catalog.bytea`.
    Bytea,
    /// `pg_catalog.char`.
    Char,
    /// `pg_catalog.name`.
    Name,
    /// `pg_catalog.int8`.
    Int8,
    /// `pg_catalog.int2`.
    Int2,
    /// `pg_catalog.int4`.
    Int4,
    /// `pg_catalog.text`.
    Text,
    /// `pg_catalog.oid`.
    Oid,
    /// `pg_catalog.json`.
    Json,
    /// `pg_catalog.xml`.
    Xml,
    /// `pg_catalog.float4`.
    Float4,
    /// `pg_catalog.float8`.
    Float8,
    /// `pg_catalog.unknown`.
    Unknown,
    /// `pg_catalog.money`.
    Money,
    /// `pg_catalog.inet`.
    Inet,
    /// `pg_catalog.bpchar`.
    Bpchar,
    /// `pg_catalog.varchar`.
    Varchar,
    /// `pg_catalog.date`.
    Date,
    /// `pg_catalog.time`.
    Time,
    /// `pg_catalog.timestamp`.
    Timestamp,
    /// `pg_catalog.timestamptz`.
    Timestamptz,
    /// `pg_catalog.interval`.
    Interval,
    /// `pg_catalog.bit`.
    Bit,
    /// `pg_catalog.varbit`.
    Varbit,
    /// `pg_catalog.numeric`.
    Numeric,
    /// `pg_catalog.uuid`.
    Uuid,
    /// `pg_catalog.pg_lsn`.
    PgLsn,
    /// `pg_catalog.jsonb`.
    Jsonb,
    /// `pg_catalog.jsonpath`.
    Jsonpath,
    /// `pg_catalog.xid8`.
    Xid8,
    /// `pg_catalog.int2vector`.
    Int2Vector,
    /// `pg_catalog.oidvector`.
    OidVector,
    /// `pg_catalog._bool`.
    BoolArray,
    /// `pg_catalog._bytea`.
    ByteaArray,
    /// `pg_catalog._char`.
    CharArray,
    /// `pg_catalog._int2`.
    Int2Array,
    /// `pg_catalog._int4`.
    Int4Array,
    /// `pg_catalog._text`.
    TextArray,
    /// `pg_catalog._varchar`.
    VarcharArray,
    /// `pg_catalog._int8`.
    Int8Array,
    /// `pg_catalog._oid`.
    OidArray,
    /// `pg_catalog._interval`.
    IntervalArray,
    /// `pg_catalog._numeric`.
    NumericArray,
    /// `pg_catalog._jsonpath`.
    JsonpathArray,
    /// `sys.binary`.
    MysqlBinary,
    /// `sys.varbinary`.
    MysqlVarbinary,
    /// `sys._binary`.
    MysqlBinaryArray,
    /// `sys.bit`.
    MysqlSysBit,
    /// `sys._bit`.
    MysqlSysBitArray,
    /// `sys.bpcharbyte`.
    MysqlBpcharbyte,
    /// `sys._bpcharbyte`.
    MysqlBpcharbyteArray,
    /// `sys.varcharbyte`.
    MysqlVarcharbyte,
    /// `sys._varcharbyte`.
    MysqlVarcharbyteArray,
    /// `sys.int1`.
    MysqlInt1,
    /// `sys.int3`.
    MysqlInt3,
    /// `sys.middleint`.
    MysqlMiddleint,
    /// `sys.mediumint`.
    MysqlMediumint,
    /// `sys.clob`.
    MysqlClob,
    /// `sys.longtext`.
    MysqlLongtext,
    /// `sys.mediumtext`.
    MysqlMediumtext,
    /// `sys.tinytext`.
    MysqlTinytext,
    /// `sys.longblob`.
    MysqlLongblob,
    /// `sys.mediumblob`.
    MysqlMediumblob,
    /// `sys.tinyblob`.
    MysqlTinyblob,
    /// `sys.json`.
    MysqlSysJson,
    /// `sys.year`.
    MysqlYear,
    /// `sys.nclob`.
    MysqlNclob,
    /// `sys.rowid`.
    MysqlRowid,
    /// `sys.uint4`.
    MysqlUint4,
    /// `sys._uint4`.
    MysqlUint4Array,
    /// `sys.uint8`.
    MysqlUint8,
    /// `sys._uint8`.
    MysqlUint8Array,
    /// `sys.date`.
    MysqlSysDate,
    /// `sys.time`.
    MysqlSysTime,
    /// `sys.datetime`.
    MysqlDatetime,
    /// `sys.timestamp`.
    MysqlSysTimestamp,
    /// `sys.blob`.
    MysqlBlob,
    /// `sys.tinyint`.
    MysqlTinyint,
    /// `sys._tinyint`.
    MysqlTinyintArray,
    /// `pg_catalog.rowid`.
    OracleRowid,
    /// `sys.urowid`.
    OracleUrowid,
    /// `sys.yminterval`.
    OracleYminterval,
    /// `sys.dsinterval`.
    OracleDsinterval,
    /// `sys.date`.
    OracleSysDate,
    /// `sys.bfile`.
    OracleBfile,
    /// `sys.blob`.
    OracleBlob,
    /// `sys.clob`.
    OracleClob,
    /// `sys.nclob`.
    OracleNclob,
    /// `sys.bpcharbyte`.
    OracleBpcharbyte,
    /// `sys.varcharbyte`.
    OracleVarcharbyte,
    /// `sys.tinyint`.
    OracleTinyint,
    /// `sys._tinyint`.
    OracleTinyintArray,
    /// `sys.nchar`.
    SqlserverNchar,
    /// `sys._nchar`.
    SqlserverNcharArray,
    /// `sys.nvarchar`.
    SqlserverNvarchar,
    /// `sys._nvarchar`.
    SqlserverNvarcharArray,
    /// `sys.sysname`.
    SqlserverSysname,
    /// `sys.bpcharbyte`.
    SqlserverBpcharbyte,
    /// `sys.varcharbyte`.
    SqlserverVarcharbyte,
    /// `sys.lsn`.
    SqlserverSysLsn,
    /// `sys.money`.
    SqlserverSysMoney,
    /// `sys._money`.
    SqlserverSysMoneyArray,
    /// `sys.binary`.
    SqlserverBinary,
    /// `sys._binary`.
    SqlserverBinaryArray,
    /// `sys.varbinary`.
    SqlserverVarbinary,
    /// `sys._varbinary`.
    SqlserverVarbinaryArray,
    /// `sys.tinyint`.
    SqlserverTinyint,
    /// `sys._tinyint`.
    SqlserverTinyintArray,
    /// `sys.bit`.
    SqlserverSysBit,
    /// `sys._bit`.
    SqlserverSysBitArray,
    /// `sys.datetime`.
    SqlserverDatetime,
    /// `sys._datetime`.
    SqlserverDatetimeArray,
    /// `sys.smalldatetime`.
    SqlserverSmalldatetime,
    /// `sys._smalldatetime`.
    SqlserverSmalldatetimeArray,
    /// `sys.datetime2`.
    SqlserverDatetime2,
    /// `sys._datetime2`.
    SqlserverDatetime2Array,
    /// `sys.time`.
    SqlserverSysTime,
    /// `sys._time`.
    SqlserverSysTimeArray,
    /// `sys.rowversion`.
    SqlserverRowversion,
    /// `sys._rowversion`.
    SqlserverRowversionArray,
    /// `sys.sql_variant`.
    SqlserverSqlVariant,
    /// `sys._sql_variant`.
    SqlserverSqlVariantArray,
    /// `sys.uniqueidentifier`.
    SqlserverUniqueidentifier,
    /// `sys._uniqueidentifier`.
    SqlserverUniqueidentifierArray,
}

/// The type table of a built-in type.
pub open spec fn builtin_system(b: Builtin) -> TypeSystem {
    match b {
        Builtin::Bool => TypeSystem::Pg,
        Builtin::Bytea => TypeSystem::Pg,
        Builtin::Char => TypeSystem::Pg,
        Builtin::Name => TypeSystem::Pg,
        Builtin::Int8 => TypeSystem::Pg,
        Builtin::Int2 => TypeSystem::Pg,
        Builtin::Int4 => TypeSystem::Pg,
        Builtin::Text => TypeSystem::Pg,
        Builtin::Oid => TypeSystem::Pg,
        Builtin::Json => TypeSystem::Pg,
        Builtin::Xml => TypeSystem::Pg,
        Builtin::Float4 => TypeSystem::Pg,
        Builtin::Float8 => TypeSystem::Pg,
        Builtin::Unknown => TypeSystem::Pg,
        Builtin::Money => TypeSystem::Pg,
        Builtin::Inet => TypeSystem::Pg,
        Builtin::Bpchar => TypeSystem::Pg,
        Builtin::Varchar => TypeSystem::Pg,
        Builtin::Date => TypeSystem::Pg,
        Builtin::Time => TypeSystem::Pg,
        Builtin::Timestamp => TypeSystem::Pg,
        Builtin::Timestamptz => TypeSystem::Pg,
        Builtin::Interval => TypeSystem::Pg,
        Builtin::Bit => TypeSystem::Pg,
        Builtin::Varbit => TypeSystem::Pg,
        Builtin::Numeric => TypeSystem::Pg,
        Builtin::Uuid => TypeSystem::Pg,
        Builtin::PgLsn => TypeSystem::Pg,
        Builtin::Jsonb => TypeSystem::Pg,
        Builtin::Jsonpath => TypeSystem::Pg,
        Builtin::Xid8 => TypeSystem::Pg,
        Builtin::Int2Vector => TypeSystem::Pg,
        Builtin::OidVector => TypeSystem::Pg,
        Builtin::BoolArray => TypeSystem::Pg,
        Builtin::ByteaArray => TypeSystem::Pg,
        Builtin::CharArray => TypeSystem::Pg,
        Builtin::Int2Array => TypeSystem::Pg,
        Builtin::Int4Array => TypeSystem::Pg,
        Builtin::TextArray => TypeSystem::Pg,
        Builtin::VarcharArray => TypeSystem::Pg,
        Builtin::Int8Array => TypeSystem::Pg,
        Builtin::OidArray => TypeSystem::Pg,
        Builtin::IntervalArray => TypeSystem::Pg,
        Builtin::NumericArray => TypeSystem::Pg,
        Builtin::JsonpathArray => TypeSystem::Pg,
        Builtin::MysqlBinary => TypeSystem::Mysql,
        Builtin::MysqlVarbinary => TypeSystem::Mysql,
        Builtin::MysqlBinaryArray => TypeSystem::Mysql,
        Builtin::MysqlSysBit => TypeSystem::Mysql,
        Builtin::MysqlSysBitArray => TypeSystem::Mysql,
        Builtin::MysqlBpcharbyte => TypeSystem::Mysql,
        Builtin::MysqlBpcharbyteArray => TypeSystem::Mysql,
        Builtin::MysqlVarcharbyte => TypeSystem::Mysql,
        Builtin::MysqlVarcharbyteArray => TypeSystem::Mysql,
        Builtin::MysqlInt1 => TypeSystem::Mysql,
        Builtin::MysqlInt3 => TypeSystem::Mysql,
        Builtin::MysqlMiddleint => TypeSystem::Mysql,
        Builtin::MysqlMediumint => TypeSystem::Mysql,
        Builtin::MysqlClob => TypeSystem::Mysql,
        Builtin::MysqlLongtext => TypeSystem::Mysql,
        Builtin::MysqlMediumtext => TypeSystem::Mysql,
        Builtin::MysqlTinytext => TypeSystem::Mysql,
        Builtin::MysqlLongblob => TypeSystem::Mysql,
        Builtin::MysqlMediumblob => TypeSystem::Mysql,
        Builtin::MysqlTinyblob => TypeSystem::Mysql,
        Builtin::MysqlSysJson => TypeSystem::Mysql,
        Builtin::MysqlYear => TypeSystem::Mysql,
        Builtin::MysqlNclob => TypeSystem::Mysql,
        Builtin::MysqlRowid => TypeSystem::Mysql,
        Builtin::MysqlUint4 => TypeSystem::Mysql,
        Builtin::MysqlUint4Array => TypeSystem::Mysql,
        Builtin::MysqlUint8 => TypeSystem::Mysql,
        Builtin::MysqlUint8Array => TypeSystem::Mysql,
        Builtin::MysqlSysDate => TypeSystem::Mysql,
        Builtin::MysqlSysTime => TypeSystem::Mysql,
        Builtin::MysqlDatetime => TypeSystem::Mysql,
        Builtin::MysqlSysTimestamp => TypeSystem::Mysql,
        Builtin::MysqlBlob => TypeSystem::Mysql,
        Builtin::MysqlTinyint => TypeSystem::Mysql,
        Builtin::MysqlTinyintArray => TypeSystem::Mysql,
        Builtin::OracleRowid => TypeSystem::Oracle,
        Builtin::OracleUrowid => TypeSystem::Oracle,
        Builtin::OracleYminterval => TypeSystem::Oracle,
        Builtin::OracleDsinterval => TypeSystem::Oracle,
        Builtin::OracleSysDate => TypeSystem::Oracle,
        Builtin::OracleBfile => TypeSystem::Oracle,
        Builtin::OracleBlob => TypeSystem::Oracle,
        Builtin::OracleClob => TypeSystem::Oracle,
        Builtin::OracleNclob => TypeSystem::Oracle,
        Builtin::OracleBpcharbyte => TypeSystem::Oracle,
        Builtin::OracleVarcharbyte => TypeSystem::Oracle,
        Builtin::OracleTinyint => TypeSystem::Oracle,
        Builtin::OracleTinyintArray => TypeSystem::Oracle,
        Builtin::SqlserverNchar => TypeSystem::SqlServer,
        Builtin::SqlserverNcharArray => TypeSystem::SqlServer,
        Builtin::SqlserverNvarchar => TypeSystem::SqlServer,
        Builtin::SqlserverNvarcharArray => TypeSystem::SqlServer,
        Builtin::SqlserverSysname => TypeSystem::SqlServer,
        Builtin::SqlserverBpcharbyte => TypeSystem::SqlServer,
        Builtin::SqlserverVarcharbyte => TypeSystem::SqlServer,
        Builtin::SqlserverSysLsn => TypeSystem::SqlServer,
        Builtin::SqlserverSysMoney => TypeSystem::SqlServer,
        Builtin::SqlserverSysMoneyArray => TypeSystem::SqlServer,
        Builtin::SqlserverBinary => TypeSystem::SqlServer,
        Builtin::SqlserverBinaryArray => TypeSystem::SqlServer,
        Builtin::SqlserverVarbinary => TypeSystem::SqlServer,
        Builtin::SqlserverVarbinaryArray => TypeSystem::SqlServer,
        Builtin::SqlserverTinyint => TypeSystem::SqlServer,
        Builtin::SqlserverTinyintArray => TypeSystem::SqlServer,
        Builtin::SqlserverSysBit => TypeSystem::SqlServer,
        Builtin::SqlserverSysBitArray => TypeSystem::SqlServer,
        Builtin::SqlserverDatetime => TypeSystem::SqlServer,
        Builtin::SqlserverDatetimeArray => TypeSystem::SqlServer,
        Builtin::SqlserverSmalldatetime => TypeSystem::SqlServer,
        Builtin::SqlserverSmalldatetimeArray => TypeSystem::SqlServer,
        Builtin::SqlserverDatetime2 => TypeSystem::SqlServer,
        Builtin::SqlserverDatetime2Array => TypeSystem::SqlServer,
        Builtin::SqlserverSysTime => TypeSystem::SqlServer,
        Builtin::SqlserverSysTimeArray => TypeSystem::SqlServer,
        Builtin::SqlserverRowversion => TypeSystem::SqlServer,
        Builtin::SqlserverRowversionArray => TypeSystem::SqlServer,
        Builtin::SqlserverSqlVariant => TypeSystem::SqlServer,
        Builtin::SqlserverSqlVariantArray => TypeSystem::SqlServer,
        Builtin::SqlserverUniqueidentifier => TypeSystem::SqlServer,
        Builtin::SqlserverUniqueidentifierArray => TypeSystem::SqlServer,
    }
}

/// The OID of a built-in type.
pub open spec fn builtin_oid(b: Builtin) -> u32 {
    match b {
        Builtin::Bool => 16,
        Builtin::Bytea => 17,
        Builtin::Char => 18,
        Builtin::Name => 19,
        Builtin::Int8 => 20,
        Builtin::Int2 => 21,
        Builtin::Int4 => 23,
        Builtin::Text => 25,
        Builtin::Oid => 26,
        Builtin::Json => 114,
        Builtin::Xml => 142,
        Builtin::Float4 => 700,
        Builtin::Float8 => 701,
        Builtin::Unknown => 705,
        Builtin::Money => 790,
        Builtin::Inet => 869,
        Builtin::Bpchar => 1042,
        Builtin::Varchar => 1043,
        Builtin::Date => 1082,
        Builtin::Time => 1083,
        Builtin::Timestamp => 1114,
        Builtin::Timestamptz => 1184,
        Builtin::Interval => 1186,
        Builtin::Bit => 1560,
        Builtin::Varbit => 1562,
        Builtin::Numeric => 1700,
        Builtin::Uuid => 2950,
        Builtin::PgLsn => 3220,
        Builtin::Jsonb => 3802,
        Builtin::Jsonpath => 4072,
        Builtin::Xid8 => 5069,
        Builtin::Int2Vector => 22,
        Builtin::OidVector => 30,
        Builtin::BoolArray => 1000,
        Builtin::ByteaArray => 1001,
        Builtin::CharArray => 1002,
        Builtin::Int2Array => 1005,
        Builtin::Int4Array => 1007,
        Builtin::TextArray => 1009,
        Builtin::VarcharArray => 1015,
        Builtin::Int8Array => 1016,
        Builtin::OidArray => 1028,
        Builtin::IntervalArray => 1187,
        Builtin::NumericArray => 1231,
        Builtin::JsonpathArray => 4073,
        Builtin::MysqlBinary => 3383,
        Builtin::MysqlVarbinary => 3384,
        Builtin::MysqlBinaryArray => 3385,
        Builtin::MysqlSysBit => 4655,
        Builtin::MysqlSysBitArray => 4656,
        Builtin::MysqlBpcharbyte => 7011,
        Builtin::MysqlBpcharbyteArray => 7031,
        Builtin::MysqlVarcharbyte => 7012,
        Builtin::MysqlVarcharbyteArray => 7032,
        Builtin::MysqlInt1 => 7013,
        Builtin::MysqlInt3 => 7014,
        Builtin::MysqlMiddleint => 7015,
        Builtin::MysqlMediumint => 7016,
        Builtin::MysqlClob => 7017,
        Builtin::MysqlLongtext => 7018,
        Builtin::MysqlMediumtext => 7019,
        Builtin::MysqlTinytext => 7020,
        Builtin::MysqlLongblob => 7021,
        Builtin::MysqlMediumblob => 7022,
        Builtin::MysqlTinyblob => 7023,
        Builtin::MysqlSysJson => 7024,
        Builtin::MysqlYear => 7025,
        Builtin::MysqlNclob => 7026,
        Builtin::MysqlRowid => 7027,
        Builtin::MysqlUint4 => 7082,
        Builtin::MysqlUint4Array => 7083,
        Builtin::MysqlUint8 => 7084,
        Builtin::MysqlUint8Array => 7085,
        Builtin::MysqlSysDate => 7944,
        Builtin::MysqlSysTime => 7950,
        Builtin::MysqlDatetime => 7952,
        Builtin::MysqlSysTimestamp => 7954,
        Builtin::MysqlBlob => 8013,
        Builtin::MysqlTinyint => 8100,
        Builtin::MysqlTinyintArray => 8101,
        Builtin::OracleRowid => 7000,
        Builtin::OracleUrowid => 7001,
        Builtin::OracleYminterval => 7002,
        Builtin::OracleDsinterval => 7003,
        Builtin::OracleSysDate => 6123,
        Builtin::OracleBfile => 6124,
        Builtin::OracleBlob => 8013,
        Builtin::OracleClob => 8014,
        Builtin::OracleNclob => 8015,
        Builtin::OracleBpcharbyte => 8016,
        Builtin::OracleVarcharbyte => 8017,
        Builtin::OracleTinyint => 8100,
        Builtin::OracleTinyintArray => 8101,
        Builtin::SqlserverNchar => 5039,
        Builtin::SqlserverNcharArray => 5040,
        Builtin::SqlserverNvarchar => 5041,
        Builtin::SqlserverNvarcharArray => 5042,
        Builtin::SqlserverSysname => 5043,
        Builtin::SqlserverBpcharbyte => 5044,
        Builtin::SqlserverVarcharbyte => 5045,
        Builtin::SqlserverSysLsn => 5046,
        Builtin::SqlserverSysMoney => 5069,
        Builtin::SqlserverSysMoneyArray => 5070,
        Builtin::SqlserverBinary => 5022,
        Builtin::SqlserverBinaryArray => 5023,
        Builtin::SqlserverVarbinary => 5024,
        Builtin::SqlserverVarbinaryArray => 5025,
        Builtin::SqlserverTinyint => 5026,
        Builtin::SqlserverTinyintArray => 5027,
        Builtin::SqlserverSysBit => 6661,
        Builtin::SqlserverSysBitArray => 6662,
        Builtin::SqlserverDatetime => 7754,
        Builtin::SqlserverDatetimeArray => 7764,
        Builtin::SqlserverSmalldatetime => 7755,
        Builtin::SqlserverSmalldatetimeArray => 7765,
        Builtin::SqlserverDatetime2 => 7881,
        Builtin::SqlserverDatetime2Array => 7891,
        Builtin::SqlserverSysTime => 7680,
        Builtin::SqlserverSysTimeArray => 7690,
        Builtin::SqlserverRowversion => 7915,
        Builtin::SqlserverRowversionArray => 7916,
        Builtin::SqlserverSqlVariant => 12464,
        Builtin::SqlserverSqlVariantArray => 12465,
        Builtin::SqlserverUniqueidentifier => 8016,
        Builtin::SqlserverUniqueidentifierArray => 8017,
    }
}

/// The name of a built-in type.
pub open spec fn builtin_name(b: Builtin) -> Seq<char> {
    match b {
        Builtin::Bool => "bool"@,
        Builtin::Bytea => "bytea"@,
        Builtin::Char => "char"@,
        Builtin::Name => "name"@,
        Builtin::Int8 => "int8"@,
        Builtin::Int2 => "int2"@,
        Builtin::Int4 => "int4"@,
        Builtin::Text => "text"@,
        Builtin::Oid => "oid"@,
        Builtin::Json => "json"@,
        Builtin::Xml => "xml"@,
        Builtin::Float4 => "float4"@,
        Builtin::Float8 => "float8"@,
        Builtin::Unknown => "unknown"@,
        Builtin::Money => "money"@,
        Builtin::Inet => "inet"@,
        Builtin::Bpchar => "bpchar"@,
        Builtin::Varchar => "varchar"@,
        Builtin::Date => "date"@,
        Builtin::Time => "time"@,
        Builtin::Timestamp => "timestamp"@,
        Builtin::Timestamptz => "timestamptz"@,
        Builtin::Interval => "interval"@,
        Builtin::Bit => "bit"@,
        Builtin::Varbit => "varbit"@,
        Builtin::Numeric => "numeric"@,
        Builtin::Uuid => "uuid"@,
        Builtin::PgLsn => "pg_lsn"@,
        Builtin::Jsonb => "jsonb"@,
        Builtin::Jsonpath => "jsonpath"@,
        Builtin::Xid8 => "xid8"@,
        Builtin::Int2Vector => "int2vector"@,
        Builtin::OidVector => "oidvector"@,
        Builtin::BoolArray => "_bool"@,
        Builtin::ByteaArray => "_bytea"@,
        Builtin::CharArray => "_char"@,
        Builtin::Int2Array => "_int2"@,
        Builtin::Int4Array => "_int4"@,
        Builtin::TextArray => "_text"@,
        Builtin::VarcharArray => "_varchar"@,
        Builtin::Int8Array => "_int8"@,
        Builtin::OidArray => "_oid"@,
        Builtin::IntervalArray => "_interval"@,
        Builtin::NumericArray => "_numeric"@,
        Builtin::JsonpathArray => "_jsonpath"@,
        Builtin::MysqlBinary => "binary"@,
        Builtin::MysqlVarbinary => "varbinary"@,
        Builtin::MysqlBinaryArray => "_binary"@,
        Builtin::MysqlSysBit => "bit"@,
        Builtin::MysqlSysBitArray => "_bit"@,
        Builtin::MysqlBpcharbyte => "bpcharbyte"@,
        Builtin::MysqlBpcharbyteArray => "_bpcharbyte"@,
        Builtin::MysqlVarcharbyte => "varcharbyte"@,
        Builtin::MysqlVarcharbyteArray => "_varcharbyte"@,
        Builtin::MysqlInt1 => "int1"@,
        Builtin::MysqlInt3 => "int3"@,
        Builtin::MysqlMiddleint => "middleint"@,
        Builtin::MysqlMediumint => "mediumint"@,
        Builtin::MysqlClob => "clob"@,
        Builtin::MysqlLongtext => "longtext"@,
        Builtin::MysqlMediumtext => "mediumtext"@,
        Builtin::MysqlTinytext => "tinytext"@,
        Builtin::MysqlLongblob => "longblob"@,
        Builtin::MysqlMediumblob => "mediumblob"@,
        Builtin::MysqlTinyblob => "tinyblob"@,
        Builtin::MysqlSysJson => "json"@,
        Builtin::MysqlYear => "year"@,
        Builtin::MysqlNclob => "nclob"@,
        Builtin::MysqlRowid => "rowid"@,
        Builtin::MysqlUint4 => "uint4"@,
        Builtin::MysqlUint4Array => "_uint4"@,
        Builtin::MysqlUint8 => "uint8"@,
        Builtin::MysqlUint8Array => "_uint8"@,
        Builtin::MysqlSysDate => "date"@,
        Builtin::MysqlSysTime => "time"@,
        Builtin::MysqlDatetime => "datetime"@,
        Builtin::MysqlSysTimestamp => "timestamp"@,
        Builtin::MysqlBlob => "blob"@,
        Builtin::MysqlTinyint => "tinyint"@,
        Builtin::MysqlTinyintArray => "_tinyint"@,
        Builtin::OracleRowid => "rowid"@,
        Builtin::OracleUrowid => "urowid"@,
        Builtin::OracleYminterval => "yminterval"@,
        Builtin::OracleDsinterval => "dsinterval"@,
        Builtin::OracleSysDate => "date"@,
        Builtin::OracleBfile => "bfile"@,
        Builtin::OracleBlob => "blob"@,
        Builtin::OracleClob => "clob"@,
        Builtin::OracleNclob => "nclob"@,
        Builtin::OracleBpcharbyte => "bpcharbyte"@,
        Builtin::OracleVarcharbyte => "varcharbyte"@,
        Builtin::OracleTinyint => "tinyint"@,
        Builtin::OracleTinyintArray => "_tinyint"@,
        Builtin::SqlserverNchar => "nchar"@,
        Builtin::SqlserverNcharArray => "_nchar"@,
        Builtin::SqlserverNvarchar => "nvarchar"@,
        Builtin::SqlserverNvarcharArray => "_nvarchar"@,
        Builtin::SqlserverSysname => "sysname"@,
        Builtin::SqlserverBpcharbyte => "bpcharbyte"@,
        Builtin::SqlserverVarcharbyte => "varcharbyte"@,
        Builtin::SqlserverSysLsn => "lsn"@,
        Builtin::SqlserverSysMoney => "money"@,
        Builtin::SqlserverSysMoneyArray => "_money"@,
        Builtin::SqlserverBinary => "binary"@,
        Builtin::SqlserverBinaryArray => "_binary"@,
        Builtin::SqlserverVarbinary => "varbinary"@,
        Builtin::SqlserverVarbinaryArray => "_varbinary"@,
        Builtin::SqlserverTinyint => "tinyint"@,
        Builtin::SqlserverTinyintArray => "_tinyint"@,
        Builtin::SqlserverSysBit => "bit"@,
        Builtin::SqlserverSysBitArray => "_bit"@,
        Builtin::SqlserverDatetime => "datetime"@,
        Builtin::SqlserverDatetimeArray => "_datetime"@,
        Builtin::SqlserverSmalldatetime => "smalldatetime"@,
        Builtin::SqlserverSmalldatetimeArray => "_smalldatetime"@,
        Builtin::SqlserverDatetime2 => "datetime2"@,
        Builtin::SqlserverDatetime2Array => "_datetime2"@,
        Builtin::SqlserverSysTime => "time"@,
        Builtin::SqlserverSysTimeArray => "_time"@,
        Builtin::SqlserverRowversion => "rowversion"@,
        Builtin::SqlserverRowversionArray => "_rowversion"@,
        Builtin::SqlserverSqlVariant => "sql_variant"@,
        Builtin::SqlserverSqlVariantArray => "_sql_variant"@,
        Builtin::SqlserverUniqueidentifier => "uniqueidentifier"@,
        Builtin::SqlserverUniqueidentifierArray => "_uniqueidentifier"@,
    }
}

/// The schema of a built-in type.
pub open spec fn builtin_schema(b: Builtin) -> Seq<char> {
    match b {
        Builtin::Bool => "pg_catalog"@,
        Builtin::Bytea => "pg_catalog"@,
        Builtin::Char => "pg_catalog"@,
        Builtin::Name => "pg_catalog"@,
        Builtin::Int8 => "pg_catalog"@,
        Builtin::Int2 => "pg_catalog"@,
        Builtin::Int4 => "pg_catalog"@,
        Builtin::Text => "pg_catalog"@,
        Builtin::Oid => "pg_catalog"@,
        Builtin::Json => "pg_catalog"@,
        Builtin::Xml => "pg_catalog"@,
        Builtin::Float4 => "pg_catalog"@,
        Builtin::Float8 => "pg_catalog"@,
        Builtin::Unknown => "pg_catalog"@,
        Builtin::Money => "pg_catalog"@,
        Builtin::Inet => "pg_catalog"@,
        Builtin::Bpchar => "pg_catalog"@,
        Builtin::Varchar => "pg_catalog"@,
        Builtin::Date => "pg_catalog"@,
        Builtin::Time => "pg_catalog"@,
        Builtin::Timestamp => "pg_catalog"@,
        Builtin::Timestamptz => "pg_catalog"@,
        Builtin::Interval => "pg_catalog"@,
        Builtin::Bit => "pg_catalog"@,
        Builtin::Varbit => "pg_catalog"@,
        Builtin::Numeric => "pg_catalog"@,
        Builtin::Uuid => "pg_catalog"@,
        Builtin::PgLsn => "pg_catalog"@,
        Builtin::Jsonb => "pg_catalog"@,
        Builtin::Jsonpath => "pg_catalog"@,
        Builtin::Xid8 => "pg_catalog"@,
        Builtin::Int2Vector => "pg_catalog"@,
        Builtin::OidVector => "pg_catalog"@,
        Builtin::BoolArray => "pg_catalog"@,
        Builtin::ByteaArray => "pg_catalog"@,
        Builtin::CharArray => "pg_catalog"@,
        Builtin::Int2Array => "pg_catalog"@,
        Builtin::Int4Array => "pg_catalog"@,
        Builtin::TextArray => "pg_catalog"@,
        Builtin::VarcharArray => "pg_catalog"@,
        Builtin::Int8Array => "pg_catalog"@,
        Builtin::OidArray => "pg_catalog"@,
        Builtin::IntervalArray => "pg_catalog"@,
        Builtin::NumericArray => "pg_catalog"@,
        Builtin::JsonpathArray => "pg_catalog"@,
        Builtin::MysqlBinary => "sys"@,
        Builtin::MysqlVarbinary => "sys"@,
        Builtin::MysqlBinaryArray => "sys"@,
        Builtin::MysqlSysBit => "sys"@,
        Builtin::MysqlSysBitArray => "sys"@,
        Builtin::MysqlBpcharbyte => "sys"@,
        Builtin::MysqlBpcharbyteArray => "sys"@,
        Builtin::MysqlVarcharbyte => "sys"@,
        Builtin::MysqlVarcharbyteArray => "sys"@,
        Builtin::MysqlInt1 => "sys"@,
        Builtin::MysqlInt3 => "sys"@,
        Builtin::MysqlMiddleint => "sys"@,
        Builtin::MysqlMediumint => "sys"@,
        Builtin::MysqlClob => "sys"@,
        Builtin::MysqlLongtext => "sys"@,
        Builtin::MysqlMediumtext => "sys"@,
        Builtin::MysqlTinytext => "sys"@,
        Builtin::MysqlLongblob => "sys"@,
        Builtin::MysqlMediumblob => "sys"@,
        Builtin::MysqlTinyblob => "sys"@,
        Builtin::MysqlSysJson => "sys"@,
        Builtin::MysqlYear => "sys"@,
        Builtin::MysqlNclob => "sys"@,
        Builtin::MysqlRowid => "sys"@,
        Builtin::MysqlUint4 => "sys"@,
        Builtin::MysqlUint4Array => "sys"@,
        Builtin::MysqlUint8 => "sys"@,
        Builtin::MysqlUint8Array => "sys"@,
        Builtin::MysqlSysDate => "sys"@,
        Builtin::MysqlSysTime => "sys"@,
        Builtin::MysqlDatetime => "sys"@,
        Builtin::MysqlSysTimestamp => "sys"@,
        Builtin::MysqlBlob => "sys"@,
        Builtin::MysqlTinyint => "sys"@,
        Builtin::MysqlTinyintArray => "sys"@,
        Builtin::OracleRowid => "pg_catalog"@,
        Builtin::OracleUrowid => "sys"@,
        Builtin::OracleYminterval => "sys"@,
        Builtin::OracleDsinterval => "sys"@,
        Builtin::OracleSysDate => "sys"@,
        Builtin::OracleBfile => "sys"@,
        Builtin::OracleBlob => "sys"@,
        Builtin::OracleClob => "sys"@,
        Builtin::OracleNclob => "sys"@,
        Builtin::OracleBpcharbyte => "sys"@,
        Builtin::OracleVarcharbyte => "sys"@,
        Builtin::OracleTinyint => "sys"@,
        Builtin::OracleTinyintArray => "sys"@,
        Builtin::SqlserverNchar => "sys"@,
        Builtin::SqlserverNcharArray => "sys"@,
        Builtin::SqlserverNvarchar => "sys"@,
        Builtin::SqlserverNvarcharArray => "sys"@,
        Builtin::SqlserverSysname => "sys"@,
        Builtin::SqlserverBpcharbyte => "sys"@,
        Builtin::SqlserverVarcharbyte => "sys"@,
        Builtin::SqlserverSysLsn => "sys"@,
        Builtin::SqlserverSysMoney => "sys"@,
        Builtin::SqlserverSysMoneyArray => "sys"@,
        Builtin::SqlserverBinary => "sys"@,
        Builtin::SqlserverBinaryArray => "sys"@,
        Builtin::SqlserverVarbinary => "sys"@,
        Builtin::SqlserverVarbinaryArray => "sys"@,
        Builtin::SqlserverTinyint => "sys"@,
        Builtin::SqlserverTinyintArray => "sys"@,
        Builtin::SqlserverSysBit => "sys"@,
        Builtin::SqlserverSysBitArray => "sys"@,
        Builtin::SqlserverDatetime => "sys"@,
        Builtin::SqlserverDatetimeArray => "sys"@,
        Builtin::SqlserverSmalldatetime => "sys"@,
        Builtin::SqlserverSmalldatetimeArray => "sys"@,
        Builtin::SqlserverDatetime2 => "sys"@,
        Builtin::SqlserverDatetime2Array => "sys"@,
        Builtin::SqlserverSysTime => "sys"@,
        Builtin::SqlserverSysTimeArray => "sys"@,
        Builtin::SqlserverRowversion => "sys"@,
        Builtin::SqlserverRowversionArray => "sys"@,
        Builtin::SqlserverSqlVariant => "sys"@,
        Builtin::SqlserverSqlVariantArray => "sys"@,
        Builtin::SqlserverUniqueidentifier => "sys"@,
        Builtin::SqlserverUniqueidentifierArray => "sys"@,
    }
}

/// The element type (`true`) of a built-in array type or the base type
/// (`false`) of a built-in domain.
pub open spec fn builtin_member(b: Builtin) -> Option<(bool, Builtin)> {
    match b {
        Builtin::Bool => None,
        Builtin::Bytea => None,
        Builtin::Char => None,
        Builtin::Name => None,
        Builtin::Int8 => None,
        Builtin::Int2 => None,
        Builtin::Int4 => None,
        Builtin::Text => None,
        Builtin::Oid => None,
        Builtin::Json => None,
        Builtin::Xml => None,
        Builtin::Float4 => None,
        Builtin::Float8 => None,
        Builtin::Unknown => None,
        Builtin::Money => None,
        Builtin::Inet => None,
        Builtin::Bpchar => None,
        Builtin::Varchar => None,
        Builtin::Date => None,
        Builtin::Time => None,
        Builtin::Timestamp => None,
        Builtin::Timestamptz => None,
        Builtin::Interval => None,
        Builtin::Bit => None,
        Builtin::Varbit => None,
        Builtin::Numeric => None,
        Builtin::Uuid => None,
        Builtin::PgLsn => None,
        Builtin::Jsonb => None,
        Builtin::Jsonpath => None,
        Builtin::Xid8 => None,
        Builtin::Int2Vector => Some((true, Builtin::Int2)),
        Builtin::OidVector => Some((true, Builtin::Oid)),
        Builtin::BoolArray => Some((true, Builtin::Bool)),
        Builtin::ByteaArray => Some((true, Builtin::Bytea)),
        Builtin::CharArray => Some((true, Builtin::Char)),
        Builtin::Int2Array => Some((true, Builtin::Int2)),
        Builtin::Int4Array => Some((true, Builtin::Int4)),
        Builtin::TextArray => Some((true, Builtin::Text)),
        Builtin::VarcharArray => Some((true, Builtin::Varchar)),
        Builtin::Int8Array => Some((true, Builtin::Int8)),
        Builtin::OidArray => Some((true, Builtin::Oid)),
        Builtin::IntervalArray => Some((true, Builtin::Interval)),
        Builtin::NumericArray => Some((true, Builtin::Numeric)),
        Builtin::JsonpathArray => Some((true, Builtin::Jsonpath)),
        Builtin::MysqlBinary => None,
        Builtin::MysqlVarbinary => None,
        Builtin::MysqlBinaryArray => Some((true, Builtin::MysqlBinary)),
        Builtin::MysqlSysBit => None,
        Builtin::MysqlSysBitArray => Some((true, Builtin::MysqlSysBit)),
        Builtin::MysqlBpcharbyte => None,
        Builtin::MysqlBpcharbyteArray => Some((true, Builtin::MysqlBpcharbyte)),
        Builtin::MysqlVarcharbyte => None,
        Builtin::MysqlVarcharbyteArray => Some((true, Builtin::MysqlVarcharbyte)),
        Builtin::MysqlInt1 => Some((false, Builtin::Int4)),
        Builtin::MysqlInt3 => Some((false, Builtin::Int4)),
        Builtin::MysqlMiddleint => Some((false, Builtin::Int4)),
        Builtin::MysqlMediumint => Some((false, Builtin::Int4)),
        Builtin::MysqlClob => Some((false, Builtin::Text)),
        Builtin::MysqlLongtext => Some((false, Builtin::Text)),
        Builtin::MysqlMediumtext => Some((false, Builtin::Text)),
        Builtin::MysqlTinytext => Some((false, Builtin::Text)),
        Builtin::MysqlLongblob => Some((false, Builtin::MysqlBlob)),
        Builtin::MysqlMediumblob => Some((false, Builtin::MysqlBlob)),
        Builtin::MysqlTinyblob => Some((false, Builtin::MysqlBlob)),
        Builtin::MysqlSysJson => Some((false, Builtin::Jsonb)),
        Builtin::MysqlYear => Some((false, Builtin::Int4)),
        Builtin::MysqlNclob => Some((false, Builtin::Text)),
        Builtin::MysqlRowid => None,
        Builtin::MysqlUint4 => None,
        Builtin::MysqlUint4Array => Some((true, Builtin::MysqlUint4)),
        Builtin::MysqlUint8 => None,
        Builtin::MysqlUint8Array => Some((true, Builtin::MysqlUint8)),
        Builtin::MysqlSysDate => None,
        Builtin::MysqlSysTime => None,
        Builtin::MysqlDatetime => None,
        Builtin::MysqlSysTimestamp => None,
        Builtin::MysqlBlob => Some((false, Builtin::Bytea)),
        Builtin::MysqlTinyint => None,
        Builtin::MysqlTinyintArray => Some((true, Builtin::MysqlTinyint)),
        Builtin::OracleRowid => None,
        Builtin::OracleUrowid => None,
        Builtin::OracleYminterval => None,
        Builtin::OracleDsinterval => None,
        Builtin::OracleSysDate => None,
        Builtin::OracleBfile => None,
        Builtin::OracleBlob => Some((false, Builtin::Bytea)),
        Builtin::OracleClob => Some((false, Builtin::Text)),
        Builtin::OracleNclob => Some((false, Builtin::Text)),
        Builtin::OracleBpcharbyte => None,
        Builtin::OracleVarcharbyte => None,
        Builtin::OracleTinyint => None,
        Builtin::OracleTinyintArray => Some((true, Builtin::OracleTinyint)),
        Builtin::SqlserverNchar => None,
        Builtin::SqlserverNcharArray => Some((true, Builtin::SqlserverNchar)),
        Builtin::SqlserverNvarchar => None,
        Builtin::SqlserverNvarcharArray => Some((true, Builtin::SqlserverNvarchar)),
        Builtin::SqlserverSysname => Some((false, Builtin::SqlserverNvarchar)),
        Builtin::SqlserverBpcharbyte => None,
        Builtin::SqlserverVarcharbyte => None,
        Builtin::SqlserverSysLsn => Some((false, Builtin::PgLsn)),
        Builtin::SqlserverSysMoney => None,
        Builtin::SqlserverSysMoneyArray => Some((true, Builtin::SqlserverSysMoney)),
        Builtin::SqlserverBinary => None,
        Builtin::SqlserverBinaryArray => Some((true, Builtin::SqlserverBinary)),
        Builtin::SqlserverVarbinary => None,
        Builtin::SqlserverVarbinaryArray => Some((true, Builtin::SqlserverVarbinary)),
        Builtin::SqlserverTinyint => None,
        Builtin::SqlserverTinyintArray => Some((true, Builtin::SqlserverTinyint)),
        Builtin::SqlserverSysBit => None,
        Builtin::SqlserverSysBitArray => Some((true, Builtin::SqlserverSysBit)),
        Builtin::SqlserverDatetime => None,
        Builtin::SqlserverDatetimeArray => Some((true, Builtin::SqlserverDatetime)),
        Builtin::SqlserverSmalldatetime => None,
        Builtin::SqlserverSmalldatetimeArray => Some((true, Builtin::SqlserverSmalldatetime)),
        Builtin::SqlserverDatetime2 => None,
        Builtin::SqlserverDatetime2Array => Some((true, Builtin::SqlserverDatetime2)),
        Builtin::SqlserverSysTime => None,
        Builtin::SqlserverSysTimeArray => Some((true, Builtin::SqlserverSysTime)),
        Builtin::SqlserverRowversion => None,
        Builtin::SqlserverRowversionArray => Some((true, Builtin::SqlserverRowversion)),
        Builtin::SqlserverSqlVariant => None,
        Builtin::SqlserverSqlVariantArray => Some((true, Builtin::SqlserverSqlVariant)),
        Builtin::SqlserverUniqueidentifier => None,
        Builtin::SqlserverUniqueidentifierArray => Some((true, Builtin::SqlserverUniqueidentifier)),
    }
}

/// The depth of the element and base types below a built-in type.
pub open spec fn builtin_rank(b: Builtin) -> nat {
    match b {
        Builtin::Bool => 0,
        Builtin::Bytea => 0,
        Builtin::Char => 0,
        Builtin::Name => 0,
        Builtin::Int8 => 0,
        Builtin::Int2 => 0,
        Builtin::Int4 => 0,
        Builtin::Text => 0,
        Builtin::Oid => 0,
        Builtin::Json => 0,
        Builtin::Xml => 0,
        Builtin::Float4 => 0,
        Builtin::Float8 => 0,
        Builtin::Unknown => 0,
        Builtin::Money => 0,
        Builtin::Inet => 0,
        Builtin::Bpchar => 0,
        Builtin::Varchar => 0,
        Builtin::Date => 0,
        Builtin::Time => 0,
        Builtin::Timestamp => 0,
        Builtin::Timestamptz => 0,
        Builtin::Interval => 0,
        Builtin::Bit => 0,
        Builtin::Varbit => 0,
        Builtin::Numeric => 0,
        Builtin::Uuid => 0,
        Builtin::PgLsn => 0,
        Builtin::Jsonb => 0,
        Builtin::Jsonpath => 0,
        Builtin::Xid8 => 0,
        Builtin::Int2Vector => 1,
        Builtin::OidVector => 1,
        Builtin::BoolArray => 1,
        Builtin::ByteaArray => 1,
        Builtin::CharArray => 1,
        Builtin::Int2Array => 1,
        Builtin::Int4Array => 1,
        Builtin::TextArray => 1,
        Builtin::VarcharArray => 1,
        Builtin::Int8Array => 1,
        Builtin::OidArray => 1,
        Builtin::IntervalArray => 1,
        Builtin::NumericArray => 1,
        Builtin::JsonpathArray => 1,
        Builtin::MysqlBinary => 0,
        Builtin::MysqlVarbinary => 0,
        Builtin::MysqlBinaryArray => 1,
        Builtin::MysqlSysBit => 0,
        Builtin::MysqlSysBitArray => 1,
        Builtin::MysqlBpcharbyte => 0,
        Builtin::MysqlBpcharbyteArray => 1,
        Builtin::MysqlVarcharbyte => 0,
        Builtin::MysqlVarcharbyteArray => 1,
        Builtin::MysqlInt1 => 1,
        Builtin::MysqlInt3 => 1,
        Builtin::MysqlMiddleint => 1,
        Builtin::MysqlMediumint => 1,
        Builtin::MysqlClob => 1,
        Builtin::MysqlLongtext => 1,
        Builtin::MysqlMediumtext => 1,
        Builtin::MysqlTinytext => 1,
        Builtin::MysqlLongblob => 2,
        Builtin::MysqlMediumblob => 2,
        Builtin::MysqlTinyblob => 2,
        Builtin::MysqlSysJson => 1,
        Builtin::MysqlYear => 1,
        Builtin::MysqlNclob => 1,
        Builtin::MysqlRowid => 0,
        Builtin::MysqlUint4 => 0,
        Builtin::MysqlUint4Array => 1,
        Builtin::MysqlUint8 => 0,
        Builtin::MysqlUint8Array => 1,
        Builtin::MysqlSysDate => 0,
        Builtin::MysqlSysTime => 0,
        Builtin::MysqlDatetime => 0,
        Builtin::MysqlSysTimestamp => 0,
        Builtin::MysqlBlob => 1,
        Builtin::MysqlTinyint => 0,
        Builtin::MysqlTinyintArray => 1,
        Builtin::OracleRowid => 0,
        Builtin::OracleUrowid => 0,
        Builtin::OracleYminterval => 0,
        Builtin::OracleDsinterval => 0,
        Builtin::OracleSysDate => 0,
        Builtin::OracleBfile => 0,
        Builtin::OracleBlob => 1,
        Builtin::OracleClob => 1,
        Builtin::OracleNclob => 1,
        Builtin::OracleBpcharbyte => 0,
        Builtin::OracleVarcharbyte => 0,
        Builtin::OracleTinyint => 0,
        Builtin::OracleTinyintArray => 1,
        Builtin::SqlserverNchar => 0,
        Builtin::SqlserverNcharArray => 1,
        Builtin::SqlserverNvarchar => 0,
        Builtin::SqlserverNvarcharArray => 1,
        Builtin::SqlserverSysname => 1,
        Builtin::SqlserverBpcharbyte => 0,
        Builtin::SqlserverVarcharbyte => 0,
        Builtin::SqlserverSysLsn => 1,
        Builtin::SqlserverSysMoney => 0,
        Builtin::SqlserverSysMoneyArray => 1,
        Builtin::SqlserverBinary => 0,
        Builtin::SqlserverBinaryArray => 1,
        Builtin::SqlserverVarbinary => 0,
        Builtin::SqlserverVarbinaryArray => 1,
        Builtin::SqlserverTinyint => 0,
        Builtin::SqlserverTinyintArray => 1,
        Builtin::SqlserverSysBit => 0,
        Builtin::SqlserverSysBitArray => 1,
        Builtin::SqlserverDatetime => 0,
        Builtin::SqlserverDatetimeArray => 1,
        Builtin::SqlserverSmalldatetime => 0,
        Builtin::SqlserverSmalldatetimeArray => 1,
        Builtin::SqlserverDatetime2 => 0,
        Builtin::SqlserverDatetime2Array => 1,
        Builtin::SqlserverSysTime => 0,
        Builtin::SqlserverSysTimeArray => 1,
        Builtin::SqlserverRowversion => 0,
        Builtin::SqlserverRowversionArray => 1,
        Builtin::SqlserverSqlVariant => 0,
        Builtin::SqlserverSqlVariantArray => 1,
        Builtin::SqlserverUniqueidentifier => 0,
        Builtin::SqlserverUniqueidentifierArray => 1,
    }
}

/// The value of a built-in type.
pub open spec fn builtin_view(b: Builtin) -> TypeView
    decreases builtin_rank(b),
{
    TypeView {
        builtin: Some(b),
        oid: builtin_oid(b),
        name: builtin_name(b),
        schema: builtin_schema(b),
        kind: match builtin_member(b) {
            None => KindView::Simple,
            Some((is_array, m)) => if builtin_rank(m) < builtin_rank(b) {
                if is_array {
                    KindView::Array(Box::new(builtin_view(m)))
                } else {
                    KindView::Domain(Box::new(builtin_view(m)))
                }
            } else {
                KindView::Simple
            },
        },
    }
}

/// The built-in type of a table with an OID, if there is one.
pub open spec fn builtin_lookup(system: TypeSystem, oid: u32) -> Option<Builtin> {
    match (system, oid) {
        (TypeSystem::Pg, 16) => Some(Builtin::Bool),
        (TypeSystem::Pg, 17) => Some(Builtin::Bytea),
        (TypeSystem::Pg, 18) => Some(Builtin::Char),
        (TypeSystem::Pg, 19) => Some(Builtin::Name),
        (TypeSystem::Pg, 20) => Some(Builtin::Int8),
        (TypeSystem::Pg, 21) => Some(Builtin::Int2),
        (TypeSystem::Pg, 23) => Some(Builtin::Int4),
        (TypeSystem::Pg, 25) => Some(Builtin::Text),
        (TypeSystem::Pg, 26) => Some(Builtin::Oid),
        (TypeSystem::Pg, 114) => Some(Builtin::Json),
        (TypeSystem::Pg, 142) => Some(Builtin::Xml),
        (TypeSystem::Pg, 700) => Some(Builtin::Float4),
        (TypeSystem::Pg, 701) => Some(Builtin::Float8),
        (TypeSystem::Pg, 705) => Some(Builtin::Unknown),
        (TypeSystem::Pg, 790) => Some(Builtin::Money),
        (TypeSystem::Pg, 869) => Some(Builtin::Inet),
        (TypeSystem::Pg, 1042) => Some(Builtin::Bpchar),
        (TypeSystem::Pg, 1043) => Some(Builtin::Varchar),
        (TypeSystem::Pg, 1082) => Some(Builtin::Date),
        (TypeSystem::Pg, 1083) => Some(Builtin::Time),
        (TypeSystem::Pg, 1114) => Some(Builtin::Timestamp),
        (TypeSystem::Pg, 1184) => Some(Builtin::Timestamptz),
        (TypeSystem::Pg, 1186) => Some(Builtin::Interval),
        (TypeSystem::Pg, 1560) => Some(Builtin::Bit),
        (TypeSystem::Pg, 1562) => Some(Builtin::Varbit),
        (TypeSystem::Pg, 1700) => Some(Builtin::Numeric),
        (TypeSystem::Pg, 2950) => Some(Builtin::Uuid),
        (TypeSystem::Pg, 3220) => Some(Builtin::PgLsn),
        (TypeSystem::Pg, 3802) => Some(Builtin::Jsonb),
        (TypeSystem::Pg, 4072) => Some(Builtin::Jsonpath),
        (TypeSystem::Pg, 5069) => Some(Builtin::Xid8),
        (TypeSystem::Pg, 22) => Some(Builtin::Int2Vector),
        (TypeSystem::Pg, 30) => Some(Builtin::OidVector),
        (TypeSystem::Pg, 1000) => Some(Builtin::BoolArray),
        (TypeSystem::Pg, 1001) => Some(Builtin::ByteaArray),
        (TypeSystem::Pg, 1002) => Some(Builtin::CharArray),
        (TypeSystem::Pg, 1005) => Some(Builtin::Int2Array),
        (TypeSystem::Pg, 1007) => Some(Builtin::Int4Array),
        (TypeSystem::Pg, 1009) => Some(Builtin::TextArray),
        (TypeSystem::Pg, 1015) => Some(Builtin::VarcharArray),
        (TypeSystem::Pg, 1016) => Some(Builtin::Int8Array),
        (TypeSystem::Pg, 1028) => Some(Builtin::OidArray),
        (TypeSystem::Pg, 1187) => Some(Builtin::IntervalArray),
        (TypeSystem::Pg, 1231) => Some(Builtin::NumericArray),
        (TypeSystem::Pg, 4073) => Some(Builtin::JsonpathArray),
        (TypeSystem::Mysql, 3383) => Some(Builtin::MysqlBinary),
        (TypeSystem::Mysql, 3384) => Some(Builtin::MysqlVarbinary),
        (TypeSystem::Mysql, 3385) => Some(Builtin::MysqlBinaryArray),
        (TypeSystem::Mysql, 4655) => Some(Builtin::MysqlSysBit),
        (TypeSystem::Mysql, 4656) => Some(Builtin::MysqlSysBitArray),
        (TypeSystem::Mysql, 7011) => Some(Builtin::MysqlBpcharbyte),
        (TypeSystem::Mysql, 7031) => Some(Builtin::MysqlBpcharbyteArray),
        (TypeSystem::Mysql, 7012) => Some(Builtin::MysqlVarcharbyte),
        (TypeSystem::Mysql, 7032) => Some(Builtin::MysqlVarcharbyteArray),
        (TypeSystem::Mysql, 7013) => Some(Builtin::MysqlInt1),
        (TypeSystem::Mysql, 7014) => Some(Builtin::MysqlInt3),
        (TypeSystem::Mysql, 7015) => Some(Builtin::MysqlMiddleint),
        (TypeSystem::Mysql, 7016) => Some(Builtin::MysqlMediumint),
        (TypeSystem::Mysql, 7017) => Some(Builtin::MysqlClob),
        (TypeSystem::Mysql, 7018) => Some(Builtin::MysqlLongtext),
        (TypeSystem::Mysql, 7019) => Some(Builtin::MysqlMediumtext),
        (TypeSystem::Mysql, 7020) => Some(Builtin::MysqlTinytext),
        (TypeSystem::Mysql, 7021) => Some(Builtin::MysqlLongblob),
        (TypeSystem::Mysql, 7022) => Some(Builtin::MysqlMediumblob),
        (TypeSystem::Mysql, 7023) => Some(Builtin::MysqlTinyblob),
        (TypeSystem::Mysql, 7024) => Some(Builtin::MysqlSysJson),
        (TypeSystem::Mysql, 7025) => Some(Builtin::MysqlYear),
        (TypeSystem::Mysql, 7026) => Some(Builtin::MysqlNclob),
        (TypeSystem::Mysql, 7027) => Some(Builtin::MysqlRowid),
        (TypeSystem::Mysql, 7082) => Some(Builtin::MysqlUint4),
        (TypeSystem::Mysql, 7083) => Some(Builtin::MysqlUint4Array),
        (TypeSystem::Mysql, 7084) => Some(Builtin::MysqlUint8),
        (TypeSystem::Mysql, 7085) => Some(Builtin::MysqlUint8Array),
        (TypeSystem::Mysql, 7944) => Some(Builtin::MysqlSysDate),
        (TypeSystem::Mysql, 7950) => Some(Builtin::MysqlSysTime),
        (TypeSystem::Mysql, 7952) => Some(Builtin::MysqlDatetime),
        (TypeSystem::Mysql, 7954) => Some(Builtin::MysqlSysTimestamp),
        (TypeSystem::Mysql, 8013) => Some(Builtin::MysqlBlob),
        (TypeSystem::Mysql, 8100) => Some(Builtin::MysqlTinyint),
        (TypeSystem::Mysql, 8101) => Some(Builtin::MysqlTinyintArray),
        (TypeSystem::Oracle, 7000) => Some(Builtin::OracleRowid),
        (TypeSystem::Oracle, 7001) => Some(Builtin::OracleUrowid),
        (TypeSystem::Oracle, 7002) => Some(Builtin::OracleYminterval),
        (TypeSystem::Oracle, 7003) => Some(Builtin::OracleDsinterval),
        (TypeSystem::Oracle, 6123) => Some(Builtin::OracleSysDate),
        (TypeSystem::Oracle, 6124) => Some(Builtin::OracleBfile),
        (TypeSystem::Oracle, 8013) => Some(Builtin::OracleBlob),
        (TypeSystem::Oracle, 8014) => Some(Builtin::OracleClob),
        (TypeSystem::Oracle, 8015) => Some(Builtin::OracleNclob),
        (TypeSystem::Oracle, 8016) => Some(Builtin::OracleBpcharbyte),
        (TypeSystem::Oracle, 8017) => Some(Builtin::OracleVarcharbyte),
        (TypeSystem::Oracle, 8100) => Some(Builtin::OracleTinyint),
        (TypeSystem::Oracle, 8101) => Some(Builtin::OracleTinyintArray),
        (TypeSystem::SqlServer, 5039) => Some(Builtin::SqlserverNchar),
        (TypeSystem::SqlServer, 5040) => Some(Builtin::SqlserverNcharArray),
        (TypeSystem::SqlServer, 5041) => Some(Builtin::SqlserverNvarchar),
        (TypeSystem::SqlServer, 5042) => Some(Builtin::SqlserverNvarcharArray),
        (TypeSystem::SqlServer, 5043) => Some(Builtin::SqlserverSysname),
        (TypeSystem::SqlServer, 5044) => Some(Builtin::SqlserverBpcharbyte),
        (TypeSystem::SqlServer, 5045) => Some(Builtin::SqlserverVarcharbyte),
        (TypeSystem::SqlServer, 5046) => Some(Builtin::SqlserverSysLsn),
        (TypeSystem::SqlServer, 5069) => Some(Builtin::SqlserverSysMoney),
        (TypeSystem::SqlServer, 5070) => Some(Builtin::SqlserverSysMoneyArray),
        (TypeSystem::SqlServer, 5022) => Some(Builtin::SqlserverBinary),
        (TypeSystem::SqlServer, 5023) => Some(Builtin::SqlserverBinaryArray),
        (TypeSystem::SqlServer, 5024) => Some(Builtin::SqlserverVarbinary),
        (TypeSystem::SqlServer, 5025) => Some(Builtin::SqlserverVarbinaryArray),
        (TypeSystem::SqlServer, 5026) => Some(Builtin::SqlserverTinyint),
        (TypeSystem::SqlServer, 5027) => Some(Builtin::SqlserverTinyintArray),
        (TypeSystem::SqlServer, 6661) => Some(Builtin::SqlserverSysBit),
        (TypeSystem::SqlServer, 6662) => Some(Builtin::SqlserverSysBitArray),
        (TypeSystem::SqlServer, 7754) => Some(Builtin::SqlserverDatetime),
        (TypeSystem::SqlServer, 7764) => Some(Builtin::SqlserverDatetimeArray),
        (TypeSystem::SqlServer, 7755) => Some(Builtin::SqlserverSmalldatetime),
        (TypeSystem::SqlServer, 7765) => Some(Builtin::SqlserverSmalldatetimeArray),
        (TypeSystem::SqlServer, 7881) => Some(Builtin::SqlserverDatetime2),
        (TypeSystem::SqlServer, 7891) => Some(Builtin::SqlserverDatetime2Array),
        (TypeSystem::SqlServer, 7680) => Some(Builtin::SqlserverSysTime),
        (TypeSystem::SqlServer, 7690) => Some(Builtin::SqlserverSysTimeArray),
        (TypeSystem::SqlServer, 7915) => Some(Builtin::SqlserverRowversion),
        (TypeSystem::SqlServer, 7916) => Some(Builtin::SqlserverRowversionArray),
        (TypeSystem::SqlServer, 12464) => Some(Builtin::SqlserverSqlVariant),
        (TypeSystem::SqlServer, 12465) => Some(Builtin::SqlserverSqlVariantArray),
        (TypeSystem::SqlServer, 8016) => Some(Builtin::SqlserverUniqueidentifier),
        (TypeSystem::SqlServer, 8017) => Some(Builtin::SqlserverUniqueidentifierArray),
        _ => None,
    }
}

impl Builtin {
    /// The type table of this type.
    pub fn system(self) -> (r: TypeSystem)
        ensures
            r == builtin_system(self),
    {
        match self {
            Builtin::Bool => TypeSystem::Pg,
            Builtin::Bytea => TypeSystem::Pg,
            Builtin::Char => TypeSystem::Pg,
            Builtin::Name => TypeSystem::Pg,
            Builtin::Int8 => TypeSystem::Pg,
            Builtin::Int2 => TypeSystem::Pg,
            Builtin::Int4 => TypeSystem::Pg,
            Builtin::Text => TypeSystem::Pg,
            Builtin::Oid => TypeSystem::Pg,
            Builtin::Json => TypeSystem::Pg,
            Builtin::Xml => TypeSystem::Pg,
            Builtin::Float4 => TypeSystem::Pg,
            Builtin::Float8 => TypeSystem::Pg,
            Builtin::Unknown => TypeSystem::Pg,
            Builtin::Money => TypeSystem::Pg,
            Builtin::Inet => TypeSystem::Pg,
            Builtin::Bpchar => TypeSystem::Pg,
            Builtin::Varchar => TypeSystem::Pg,
            Builtin::Date => TypeSystem::Pg,
            Builtin::Time => TypeSystem::Pg,
            Builtin::Timestamp => TypeSystem::Pg,
            Builtin::Timestamptz => TypeSystem::Pg,
            Builtin::Interval => TypeSystem::Pg,
            Builtin::Bit => TypeSystem::Pg,
            Builtin::Varbit => TypeSystem::Pg,
            Builtin::Numeric => TypeSystem::Pg,
            Builtin::Uuid => TypeSystem::Pg,
            Builtin::PgLsn => TypeSystem::Pg,
            Builtin::Jsonb => TypeSystem::Pg,
            Builtin::Jsonpath => TypeSystem::Pg,
            Builtin::Xid8 => TypeSystem::Pg,
            Builtin::Int2Vector => TypeSystem::Pg,
            Builtin::OidVector => TypeSystem::Pg,
            Builtin::BoolArray => TypeSystem::Pg,
            Builtin::ByteaArray => TypeSystem::Pg,
            Builtin::CharArray => TypeSystem::Pg,
            Builtin::Int2Array => TypeSystem::Pg,
            Builtin::Int4Array => TypeSystem::Pg,
            Builtin::TextArray => TypeSystem::Pg,
            Builtin::VarcharArray => TypeSystem::Pg,
            Builtin::Int8Array => TypeSystem::Pg,
            Builtin::OidArray => TypeSystem::Pg,
            Builtin::IntervalArray => TypeSystem::Pg,
            Builtin::NumericArray => TypeSystem::Pg,
            Builtin::JsonpathArray => TypeSystem::Pg,
            Builtin::MysqlBinary => TypeSystem::Mysql,
            Builtin::MysqlVarbinary => TypeSystem::Mysql,
            Builtin::MysqlBinaryArray => TypeSystem::Mysql,
            Builtin::MysqlSysBit => TypeSystem::Mysql,
            Builtin::MysqlSysBitArray => TypeSystem::Mysql,
            Builtin::MysqlBpcharbyte => TypeSystem::Mysql,
            Builtin::MysqlBpcharbyteArray => TypeSystem::Mysql,
            Builtin::MysqlVarcharbyte => TypeSystem::Mysql,
            Builtin::MysqlVarcharbyteArray => TypeSystem::Mysql,
            Builtin::MysqlInt1 => TypeSystem::Mysql,
            Builtin::MysqlInt3 => TypeSystem::Mysql,
            Builtin::MysqlMiddleint => TypeSystem::Mysql,
            Builtin::MysqlMediumint => TypeSystem::Mysql,
            Builtin::MysqlClob => TypeSystem::Mysql,
            Builtin::MysqlLongtext => TypeSystem::Mysql,
            Builtin::MysqlMediumtext => TypeSystem::Mysql,
            Builtin::MysqlTinytext => TypeSystem::Mysql,
            Builtin::MysqlLongblob => TypeSystem::Mysql,
            Builtin::MysqlMediumblob => TypeSystem::Mysql,
            Builtin::MysqlTinyblob => TypeSystem::Mysql,
            Builtin::MysqlSysJson => TypeSystem::Mysql,
            Builtin::MysqlYear => TypeSystem::Mysql,
            Builtin::MysqlNclob => TypeSystem::Mysql,
            Builtin::MysqlRowid => TypeSystem::Mysql,
            Builtin::MysqlUint4 => TypeSystem::Mysql,
            Builtin::MysqlUint4Array => TypeSystem::Mysql,
            Builtin::MysqlUint8 => TypeSystem::Mysql,
            Builtin::MysqlUint8Array => TypeSystem::Mysql,
            Builtin::MysqlSysDate => TypeSystem::Mysql,
            Builtin::MysqlSysTime => TypeSystem::Mysql,
            Builtin::MysqlDatetime => TypeSystem::Mysql,
            Builtin::MysqlSysTimestamp => TypeSystem::Mysql,
            Builtin::MysqlBlob => TypeSystem::Mysql,
            Builtin::MysqlTinyint => TypeSystem::Mysql,
            Builtin::MysqlTinyintArray => TypeSystem::Mysql,
            Builtin::OracleRowid => TypeSystem::Oracle,
            Builtin::OracleUrowid => TypeSystem::Oracle,
            Builtin::OracleYminterval => TypeSystem::Oracle,
            Builtin::OracleDsinterval => TypeSystem::Oracle,
            Builtin::OracleSysDate => TypeSystem::Oracle,
            Builtin::OracleBfile => TypeSystem::Oracle,
            Builtin::OracleBlob => TypeSystem::Oracle,
            Builtin::OracleClob => TypeSystem::Oracle,
            Builtin::OracleNclob => TypeSystem::Oracle,
            Builtin::OracleBpcharbyte => TypeSystem::Oracle,
            Builtin::OracleVarcharbyte => TypeSystem::Oracle,
            Builtin::OracleTinyint => TypeSystem::Oracle,
            Builtin::OracleTinyintArray => TypeSystem::Oracle,
            Builtin::SqlserverNchar => TypeSystem::SqlServer,
            Builtin::SqlserverNcharArray => TypeSystem::SqlServer,
            Builtin::SqlserverNvarchar => TypeSystem::SqlServer,
            Builtin::SqlserverNvarcharArray => TypeSystem::SqlServer,
            Builtin::SqlserverSysname => TypeSystem::SqlServer,
            Builtin::SqlserverBpcharbyte => TypeSystem::SqlServer,
            Builtin::SqlserverVarcharbyte => TypeSystem::SqlServer,
            Builtin::SqlserverSysLsn => TypeSystem::SqlServer,
            Builtin::SqlserverSysMoney => TypeSystem::SqlServer,
            Builtin::SqlserverSysMoneyArray => TypeSystem::SqlServer,
            Builtin::SqlserverBinary => TypeSystem::SqlServer,
            Builtin::SqlserverBinaryArray => TypeSystem::SqlServer,
            Builtin::SqlserverVarbinary => TypeSystem::SqlServer,
            Builtin::SqlserverVarbinaryArray => TypeSystem::SqlServer,
            Builtin::SqlserverTinyint => TypeSystem::SqlServer,
            Builtin::SqlserverTinyintArray => TypeSystem::SqlServer,
            Builtin::SqlserverSysBit => TypeSystem::SqlServer,
            Builtin::SqlserverSysBitArray => TypeSystem::SqlServer,
            Builtin::SqlserverDatetime => TypeSystem::SqlServer,
            Builtin::SqlserverDatetimeArray => TypeSystem::SqlServer,
            Builtin::SqlserverSmalldatetime => TypeSystem::SqlServer,
            Builtin::SqlserverSmalldatetimeArray => TypeSystem::SqlServer,
            Builtin::SqlserverDatetime2 => TypeSystem::SqlServer,
            Builtin::SqlserverDatetime2Array => TypeSystem::SqlServer,
            Builtin::SqlserverSysTime => TypeSystem::SqlServer,
            Builtin::SqlserverSysTimeArray => TypeSystem::SqlServer,
            Builtin::SqlserverRowversion => TypeSystem::SqlServer,
            Builtin::SqlserverRowversionArray => TypeSystem::SqlServer,
            Builtin::SqlserverSqlVariant => TypeSystem::SqlServer,
            Builtin::SqlserverSqlVariantArray => TypeSystem::SqlServer,
            Builtin::SqlserverUniqueidentifier => TypeSystem::SqlServer,
            Builtin::SqlserverUniqueidentifierArray => TypeSystem::SqlServer,
        }
    }

    /// The OID of this type.
    pub fn oid(self) -> (r: u32)
        ensures
            r == builtin_oid(self),
    {
        match self {
            Builtin::Bool => 16,
            Builtin::Bytea => 17,
            Builtin::Char => 18,
            Builtin::Name => 19,
            Builtin::Int8 => 20,
            Builtin::Int2 => 21,
            Builtin::Int4 => 23,
            Builtin::Text => 25,
            Builtin::Oid => 26,
            Builtin::Json => 114,
            Builtin::Xml => 142,
            Builtin::Float4 => 700,
            Builtin::Float8 => 701,
            Builtin::Unknown => 705,
            Builtin::Money => 790,
            Builtin::Inet => 869,
            Builtin::Bpchar => 1042,
            Builtin::Varchar => 1043,
            Builtin::Date => 1082,
            Builtin::Time => 1083,
            Builtin::Timestamp => 1114,
            Builtin::Timestamptz => 1184,
            Builtin::Interval => 1186,
            Builtin::Bit => 1560,
            Builtin::Varbit => 1562,
            Builtin::Numeric => 1700,
            Builtin::Uuid => 2950,
            Builtin::PgLsn => 3220,
            Builtin::Jsonb => 3802,
            Builtin::Jsonpath => 4072,
            Builtin::Xid8 => 5069,
            Builtin::Int2Vector => 22,
            Builtin::OidVector => 30,
            Builtin::BoolArray => 1000,
            Builtin::ByteaArray => 1001,
            Builtin::CharArray => 1002,
            Builtin::Int2Array => 1005,
            Builtin::Int4Array => 1007,
            Builtin::TextArray => 1009,
            Builtin::VarcharArray => 1015,
            Builtin::Int8Array => 1016,
            Builtin::OidArray => 1028,
            Builtin::IntervalArray => 1187,
            Builtin::NumericArray => 1231,
            Builtin::JsonpathArray => 4073,
            Builtin::MysqlBinary => 3383,
            Builtin::MysqlVarbinary => 3384,
            Builtin::MysqlBinaryArray => 3385,
            Builtin::MysqlSysBit => 4655,
            Builtin::MysqlSysBitArray => 4656,
            Builtin::MysqlBpcharbyte => 7011,
            Builtin::MysqlBpcharbyteArray => 7031,
            Builtin::MysqlVarcharbyte => 7012,
            Builtin::MysqlVarcharbyteArray => 7032,
            Builtin::MysqlInt1 => 7013,
            Builtin::MysqlInt3 => 7014,
            Builtin::MysqlMiddleint => 7015,
            Builtin::MysqlMediumint => 7016,
            Builtin::MysqlClob => 7017,
            Builtin::MysqlLongtext => 7018,
            Builtin::MysqlMediumtext => 7019,
            Builtin::MysqlTinytext => 7020,
            Builtin::MysqlLongblob => 7021,
            Builtin::MysqlMediumblob => 7022,
            Builtin::MysqlTinyblob => 7023,
            Builtin::MysqlSysJson => 7024,
            Builtin::MysqlYear => 7025,
            Builtin::MysqlNclob => 7026,
            Builtin::MysqlRowid => 7027,
            Builtin::MysqlUint4 => 7082,
            Builtin::MysqlUint4Array => 7083,
            Builtin::MysqlUint8 => 7084,
            Builtin::MysqlUint8Array => 7085,
            Builtin::MysqlSysDate => 7944,
            Builtin::MysqlSysTime => 7950,
            Builtin::MysqlDatetime => 7952,
            Builtin::MysqlSysTimestamp => 7954,
            Builtin::MysqlBlob => 8013,
            Builtin::MysqlTinyint => 8100,
            Builtin::MysqlTinyintArray => 8101,
            Builtin::OracleRowid => 7000,
            Builtin::OracleUrowid => 7001,
            Builtin::OracleYminterval => 7002,
            Builtin::OracleDsinterval => 7003,
            Builtin::OracleSysDate => 6123,
            Builtin::OracleBfile => 6124,
            Builtin::OracleBlob => 8013,
            Builtin::OracleClob => 8014,
            Builtin::OracleNclob => 8015,
            Builtin::OracleBpcharbyte => 8016,
            Builtin::OracleVarcharbyte => 8017,
            Builtin::OracleTinyint => 8100,
            Builtin::OracleTinyintArray => 8101,
            Builtin::SqlserverNchar => 5039,
            Builtin::SqlserverNcharArray => 5040,
            Builtin::SqlserverNvarchar => 5041,
            Builtin::SqlserverNvarcharArray => 5042,
            Builtin::SqlserverSysname => 5043,
            Builtin::SqlserverBpcharbyte => 5044,
            Builtin::SqlserverVarcharbyte => 5045,
            Builtin::SqlserverSysLsn => 5046,
            Builtin::SqlserverSysMoney => 5069,
            Builtin::SqlserverSysMoneyArray => 5070,
            Builtin::SqlserverBinary => 5022,
            Builtin::SqlserverBinaryArray => 5023,
            Builtin::SqlserverVarbinary => 5024,
            Builtin::SqlserverVarbinaryArray => 5025,
            Builtin::SqlserverTinyint => 5026,
            Builtin::SqlserverTinyintArray => 5027,
            Builtin::SqlserverSysBit => 6661,
            Builtin::SqlserverSysBitArray => 6662,
            Builtin::SqlserverDatetime => 7754,
            Builtin::SqlserverDatetimeArray => 7764,
            Builtin::SqlserverSmalldatetime => 7755,
            Builtin::SqlserverSmalldatetimeArray => 7765,
            Builtin::SqlserverDatetime2 => 7881,
            Builtin::SqlserverDatetime2Array => 7891,
            Builtin::SqlserverSysTime => 7680,
            Builtin::SqlserverSysTimeArray => 7690,
            Builtin::SqlserverRowversion => 7915,
            Builtin::SqlserverRowversionArray => 7916,
            Builtin::SqlserverSqlVariant => 12464,
            Builtin::SqlserverSqlVariantArray => 12465,
            Builtin::SqlserverUniqueidentifier => 8016,
            Builtin::SqlserverUniqueidentifierArray => 8017,
        }
    }

    /// The name of this type.
    pub fn name(self) -> (r: &'static str)
        ensures
            r@ == builtin_name(self),
    {
        match self {
            Builtin::Bool => "bool",
            Builtin::Bytea => "bytea",
            Builtin::Char => "char",
            Builtin::Name => "name",
            Builtin::Int8 => "int8",
            Builtin::Int2 => "int2",
            Builtin::Int4 => "int4",
            Builtin::Text => "text",
            Builtin::Oid => "oid",
            Builtin::Json => "json",
            Builtin::Xml => "xml",
            Builtin::Float4 => "float4",
            Builtin::Float8 => "float8",
            Builtin::Unknown => "unknown",
            Builtin::Money => "money",
            Builtin::Inet => "inet",
            Builtin::Bpchar => "bpchar",
            Builtin::Varchar => "varchar",
            Builtin::Date => "date",
            Builtin::Time => "time",
            Builtin::Timestamp => "timestamp",
            Builtin::Timestamptz => "timestamptz",
            Builtin::Interval => "interval",
            Builtin::Bit => "bit",
            Builtin::Varbit => "varbit",
            Builtin::Numeric => "numeric",
            Builtin::Uuid => "uuid",
            Builtin::PgLsn => "pg_lsn",
            Builtin::Jsonb => "jsonb",
            Builtin::Jsonpath => "jsonpath",
            Builtin::Xid8 => "xid8",
            Builtin::Int2Vector => "int2vector",
            Builtin::OidVector => "oidvector",
            Builtin::BoolArray => "_bool",
            Builtin::ByteaArray => "_bytea",
            Builtin::CharArray => "_char",
            Builtin::Int2Array => "_int2",
            Builtin::Int4Array => "_int4",
            Builtin::TextArray => "_text",
            Builtin::VarcharArray => "_varchar",
            Builtin::Int8Array => "_int8",
            Builtin::OidArray => "_oid",
            Builtin::IntervalArray => "_interval",
            Builtin::NumericArray => "_numeric",
            Builtin::JsonpathArray => "_jsonpath",
            Builtin::MysqlBinary => "binary",
            Builtin::MysqlVarbinary => "varbinary",
            Builtin::MysqlBinaryArray => "_binary",
            Builtin::MysqlSysBit => "bit",
            Builtin::MysqlSysBitArray => "_bit",
            Builtin::MysqlBpcharbyte => "bpcharbyte",
            Builtin::MysqlBpcharbyteArray => "_bpcharbyte",
            Builtin::MysqlVarcharbyte => "varcharbyte",
            Builtin::MysqlVarcharbyteArray => "_varcharbyte",
            Builtin::MysqlInt1 => "int1",
            Builtin::MysqlInt3 => "int3",
            Builtin::MysqlMiddleint => "middleint",
            Builtin::MysqlMediumint => "mediumint",
            Builtin::MysqlClob => "clob",
            Builtin::MysqlLongtext => "longtext",
            Builtin::MysqlMediumtext => "mediumtext",
            Builtin::MysqlTinytext => "tinytext",
            Builtin::MysqlLongblob => "longblob",
            Builtin::MysqlMediumblob => "mediumblob",
            Builtin::MysqlTinyblob => "tinyblob",
            Builtin::MysqlSysJson => "json",
            Builtin::MysqlYear => "year",
            Builtin::MysqlNclob => "nclob",
            Builtin::MysqlRowid => "rowid",
            Builtin::MysqlUint4 => "uint4",
            Builtin::MysqlUint4Array => "_uint4",
            Builtin::MysqlUint8 => "uint8",
            Builtin::MysqlUint8Array => "_uint8",
            Builtin::MysqlSysDate => "date",
            Builtin::MysqlSysTime => "time",
            Builtin::MysqlDatetime => "datetime",
            Builtin::MysqlSysTimestamp => "timestamp",
            Builtin::MysqlBlob => "blob",
            Builtin::MysqlTinyint => "tinyint",
            Builtin::MysqlTinyintArray => "_tinyint",
            Builtin::OracleRowid => "rowid",
            Builtin::OracleUrowid => "urowid",
            Builtin::OracleYminterval => "yminterval",
            Builtin::OracleDsinterval => "dsinterval",
            Builtin::OracleSysDate => "date",
            Builtin::OracleBfile => "bfile",
            Builtin::OracleBlob => "blob",
            Builtin::OracleClob => "clob",
            Builtin::OracleNclob => "nclob",
            Builtin::OracleBpcharbyte => "bpcharbyte",
            Builtin::OracleVarcharbyte => "varcharbyte",
            Builtin::OracleTinyint => "tinyint",
            Builtin::OracleTinyintArray => "_tinyint",
            Builtin::SqlserverNchar => "nchar",
            Builtin::SqlserverNcharArray => "_nchar",
            Builtin::SqlserverNvarchar => "nvarchar",
            Builtin::SqlserverNvarcharArray => "_nvarchar",
            Builtin::SqlserverSysname => "sysname",
            Builtin::SqlserverBpcharbyte => "bpcharbyte",
            Builtin::SqlserverVarcharbyte => "varcharbyte",
            Builtin::SqlserverSysLsn => "lsn",
            Builtin::SqlserverSysMoney => "money",
            Builtin::SqlserverSysMoneyArray => "_money",
            Builtin::SqlserverBinary => "binary",
            Builtin::SqlserverBinaryArray => "_binary",
            Builtin::SqlserverVarbinary => "varbinary",
            Builtin::SqlserverVarbinaryArray => "_varbinary",
            Builtin::SqlserverTinyint => "tinyint",
            Builtin::SqlserverTinyintArray => "_tinyint",
            Builtin::SqlserverSysBit => "bit",
            Builtin::SqlserverSysBitArray => "_bit",
            Builtin::SqlserverDatetime => "datetime",
            Builtin::SqlserverDatetimeArray => "_datetime",
            Builtin::SqlserverSmalldatetime => "smalldatetime",
            Builtin::SqlserverSmalldatetimeArray => "_smalldatetime",
            Builtin::SqlserverDatetime2 => "datetime2",
            Builtin::SqlserverDatetime2Array => "_datetime2",
            Builtin::SqlserverSysTime => "time",
            Builtin::SqlserverSysTimeArray => "_time",
            Builtin::SqlserverRowversion => "rowversion",
            Builtin::SqlserverRowversionArray => "_rowversion",
            Builtin::SqlserverSqlVariant => "sql_variant",
            Builtin::SqlserverSqlVariantArray => "_sql_variant",
            Builtin::SqlserverUniqueidentifier => "uniqueidentifier",
            Builtin::SqlserverUniqueidentifierArray => "_uniqueidentifier",
        }
    }

    /// The schema of this type.
    pub fn schema(self) -> (r: &'static str)
        ensures
            r@ == builtin_schema(self),
    {
        match self {
            Builtin::Bool => "pg_catalog",
            Builtin::Bytea => "pg_catalog",
            Builtin::Char => "pg_catalog",
            Builtin::Name => "pg_catalog",
            Builtin::Int8 => "pg_catalog",
            Builtin::Int2 => "pg_catalog",
            Builtin::Int4 => "pg_catalog",
            Builtin::Text => "pg_catalog",
            Builtin::Oid => "pg_catalog",
            Builtin::Json => "pg_catalog",
            Builtin::Xml => "pg_catalog",
            Builtin::Float4 => "pg_catalog",
            Builtin::Float8 => "pg_catalog",
            Builtin::Unknown => "pg_catalog",
            Builtin::Money => "pg_catalog",
            Builtin::Inet => "pg_catalog",
            Builtin::Bpchar => "pg_catalog",
            Builtin::Varchar => "pg_catalog",
            Builtin::Date => "pg_catalog",
            Builtin::Time => "pg_catalog",
            Builtin::Timestamp => "pg_catalog",
            Builtin::Timestamptz => "pg_catalog",
            Builtin::Interval => "pg_catalog",
            Builtin::Bit => "pg_catalog",
            Builtin::Varbit => "pg_catalog",
            Builtin::Numeric => "pg_catalog",
            Builtin::Uuid => "pg_catalog",
            Builtin::PgLsn => "pg_catalog",
            Builtin::Jsonb => "pg_catalog",
            Builtin::Jsonpath => "pg_catalog",
            Builtin::Xid8 => "pg_catalog",
            Builtin::Int2Vector => "pg_catalog",
            Builtin::OidVector => "pg_catalog",
            Builtin::BoolArray => "pg_catalog",
            Builtin::ByteaArray => "pg_catalog",
            Builtin::CharArray => "pg_catalog",
            Builtin::Int2Array => "pg_catalog",
            Builtin::Int4Array => "pg_catalog",
            Builtin::TextArray => "pg_catalog",
            Builtin::VarcharArray => "pg_catalog",
            Builtin::Int8Array => "pg_catalog",
            Builtin::OidArray => "pg_catalog",
            Builtin::IntervalArray => "pg_catalog",
            Builtin::NumericArray => "pg_catalog",
            Builtin::JsonpathArray => "pg_catalog",
            Builtin::MysqlBinary => "sys",
            Builtin::MysqlVarbinary => "sys",
            Builtin::MysqlBinaryArray => "sys",
            Builtin::MysqlSysBit => "sys",
            Builtin::MysqlSysBitArray => "sys",
            Builtin::MysqlBpcharbyte => "sys",
            Builtin::MysqlBpcharbyteArray => "sys",
            Builtin::MysqlVarcharbyte => "sys",
            Builtin::MysqlVarcharbyteArray => "sys",
            Builtin::MysqlInt1 => "sys",
            Builtin::MysqlInt3 => "sys",
            Builtin::MysqlMiddleint => "sys",
            Builtin::MysqlMediumint => "sys",
            Builtin::MysqlClob => "sys",
            Builtin::MysqlLongtext => "sys",
            Builtin::MysqlMediumtext => "sys",
            Builtin::MysqlTinytext => "sys",
            Builtin::MysqlLongblob => "sys",
            Builtin::MysqlMediumblob => "sys",
            Builtin::MysqlTinyblob => "sys",
            Builtin::MysqlSysJson => "sys",
            Builtin::MysqlYear => "sys",
            Builtin::MysqlNclob => "sys",
            Builtin::MysqlRowid => "sys",
            Builtin::MysqlUint4 => "sys",
            Builtin::MysqlUint4Array => "sys",
            Builtin::MysqlUint8 => "sys",
            Builtin::MysqlUint8Array => "sys",
            Builtin::MysqlSysDate => "sys",
            Builtin::MysqlSysTime => "sys",
            Builtin::MysqlDatetime => "sys",
            Builtin::MysqlSysTimestamp => "sys",
            Builtin::MysqlBlob => "sys",
            Builtin::MysqlTinyint => "sys",
            Builtin::MysqlTinyintArray => "sys",
            Builtin::OracleRowid => "pg_catalog",
            Builtin::OracleUrowid => "sys",
            Builtin::OracleYminterval => "sys",
            Builtin::OracleDsinterval => "sys",
            Builtin::OracleSysDate => "sys",
            Builtin::OracleBfile => "sys",
            Builtin::OracleBlob => "sys",
            Builtin::OracleClob => "sys",
            Builtin::OracleNclob => "sys",
            Builtin::OracleBpcharbyte => "sys",
            Builtin::OracleVarcharbyte => "sys",
            Builtin::OracleTinyint => "sys",
            Builtin::OracleTinyintArray => "sys",
            Builtin::SqlserverNchar => "sys",
            Builtin::SqlserverNcharArray => "sys",
            Builtin::SqlserverNvarchar => "sys",
            Builtin::SqlserverNvarcharArray => "sys",
            Builtin::SqlserverSysname => "sys",
            Builtin::SqlserverBpcharbyte => "sys",
            Builtin::SqlserverVarcharbyte => "sys",
            Builtin::SqlserverSysLsn => "sys",
            Builtin::SqlserverSysMoney => "sys",
            Builtin::SqlserverSysMoneyArray => "sys",
            Builtin::SqlserverBinary => "sys",
            Builtin::SqlserverBinaryArray => "sys",
            Builtin::SqlserverVarbinary => "sys",
            Builtin::SqlserverVarbinaryArray => "sys",
            Builtin::SqlserverTinyint => "sys",
            Builtin::SqlserverTinyintArray => "sys",
            Builtin::SqlserverSysBit => "sys",
            Builtin::SqlserverSysBitArray => "sys",
            Builtin::SqlserverDatetime => "sys",
            Builtin::SqlserverDatetimeArray => "sys",
            Builtin::SqlserverSmalldatetime => "sys",
            Builtin::SqlserverSmalldatetimeArray => "sys",
            Builtin::SqlserverDatetime2 => "sys",
            Builtin::SqlserverDatetime2Array => "sys",
            Builtin::SqlserverSysTime => "sys",
            Builtin::SqlserverSysTimeArray => "sys",
            Builtin::SqlserverRowversion => "sys",
            Builtin::SqlserverRowversionArray => "sys",
            Builtin::SqlserverSqlVariant => "sys",
            Builtin::SqlserverSqlVariantArray => "sys",
            Builtin::SqlserverUniqueidentifier => "sys",
            Builtin::SqlserverUniqueidentifierArray => "sys",
        }
    }

    /// The element type of an array type (`true`) or the base type of a
    /// domain (`false`).
    pub fn member(self) -> (r: Option<(bool, Builtin)>)
        ensures
            r == builtin_member(self),
            r matches Some((_, m)) ==> builtin_rank(m) < builtin_rank(self),
    {
        match self {
            Builtin::Bool => None,
            Builtin::Bytea => None,
            Builtin::Char => None,
            Builtin::Name => None,
            Builtin::Int8 => None,
            Builtin::Int2 => None,
            Builtin::Int4 => None,
            Builtin::Text => None,
            Builtin::Oid => None,
            Builtin::Json => None,
            Builtin::Xml => None,
            Builtin::Float4 => None,
            Builtin::Float8 => None,
            Builtin::Unknown => None,
            Builtin::Money => None,
            Builtin::Inet => None,
            Builtin::Bpchar => None,
            Builtin::Varchar => None,
            Builtin::Date => None,
            Builtin::Time => None,
            Builtin::Timestamp => None,
            Builtin::Timestamptz => None,
            Builtin::Interval => None,
            Builtin::Bit => None,
            Builtin::Varbit => None,
            Builtin::Numeric => None,
            Builtin::Uuid => None,
            Builtin::PgLsn => None,
            Builtin::Jsonb => None,
            Builtin::Jsonpath => None,
            Builtin::Xid8 => None,
            Builtin::Int2Vector => Some((true, Builtin::Int2)),
            Builtin::OidVector => Some((true, Builtin::Oid)),
            Builtin::BoolArray => Some((true, Builtin::Bool)),
            Builtin::ByteaArray => Some((true, Builtin::Bytea)),
            Builtin::CharArray => Some((true, Builtin::Char)),
            Builtin::Int2Array => Some((true, Builtin::Int2)),
            Builtin::Int4Array => Some((true, Builtin::Int4)),
            Builtin::TextArray => Some((true, Builtin::Text)),
            Builtin::VarcharArray => Some((true, Builtin::Varchar)),
            Builtin::Int8Array => Some((true, Builtin::Int8)),
            Builtin::OidArray => Some((true, Builtin::Oid)),
            Builtin::IntervalArray => Some((true, Builtin::Interval)),
            Builtin::NumericArray => Some((true, Builtin::Numeric)),
            Builtin::JsonpathArray => Some((true, Builtin::Jsonpath)),
            Builtin::MysqlBinary => None,
            Builtin::MysqlVarbinary => None,
            Builtin::MysqlBinaryArray => Some((true, Builtin::MysqlBinary)),
            Builtin::MysqlSysBit => None,
            Builtin::MysqlSysBitArray => Some((true, Builtin::MysqlSysBit)),
            Builtin::MysqlBpcharbyte => None,
            Builtin::MysqlBpcharbyteArray => Some((true, Builtin::MysqlBpcharbyte)),
            Builtin::MysqlVarcharbyte => None,
            Builtin::MysqlVarcharbyteArray => Some((true, Builtin::MysqlVarcharbyte)),
            Builtin::MysqlInt1 => Some((false, Builtin::Int4)),
            Builtin::MysqlInt3 => Some((false, Builtin::Int4)),
            Builtin::MysqlMiddleint => Some((false, Builtin::Int4)),
            Builtin::MysqlMediumint => Some((false, Builtin::Int4)),
            Builtin::MysqlClob => Some((false, Builtin::Text)),
            Builtin::MysqlLongtext => Some((false, Builtin::Text)),
            Builtin::MysqlMediumtext => Some((false, Builtin::Text)),
            Builtin::MysqlTinytext => Some((false, Builtin::Text)),
            Builtin::MysqlLongblob => Some((false, Builtin::MysqlBlob)),
            Builtin::MysqlMediumblob => Some((false, Builtin::MysqlBlob)),
            Builtin::MysqlTinyblob => Some((false, Builtin::MysqlBlob)),
            Builtin::MysqlSysJson => Some((false, Builtin::Jsonb)),
            Builtin::MysqlYear => Some((false, Builtin::Int4)),
            Builtin::MysqlNclob => Some((false, Builtin::Text)),
            Builtin::MysqlRowid => None,
            Builtin::MysqlUint4 => None,
            Builtin::MysqlUint4Array => Some((true, Builtin::MysqlUint4)),
            Builtin::MysqlUint8 => None,
            Builtin::MysqlUint8Array => Some((true, Builtin::MysqlUint8)),
            Builtin::MysqlSysDate => None,
            Builtin::MysqlSysTime => None,
            Builtin::MysqlDatetime => None,
            Builtin::MysqlSysTimestamp => None,
            Builtin::MysqlBlob => Some((false, Builtin::Bytea)),
            Builtin::MysqlTinyint => None,
            Builtin::MysqlTinyintArray => Some((true, Builtin::MysqlTinyint)),
            Builtin::OracleRowid => None,
            Builtin::OracleUrowid => None,
            Builtin::OracleYminterval => None,
            Builtin::OracleDsinterval => None,
            Builtin::OracleSysDate => None,
            Builtin::OracleBfile => None,
            Builtin::OracleBlob => Some((false, Builtin::Bytea)),
            Builtin::OracleClob => Some((false, Builtin::Text)),
            Builtin::OracleNclob => Some((false, Builtin::Text)),
            Builtin::OracleBpcharbyte => None,
            Builtin::OracleVarcharbyte => None,
            Builtin::OracleTinyint => None,
            Builtin::OracleTinyintArray => Some((true, Builtin::OracleTinyint)),
            Builtin::SqlserverNchar => None,
            Builtin::SqlserverNcharArray => Some((true, Builtin::SqlserverNchar)),
            Builtin::SqlserverNvarchar => None,
            Builtin::SqlserverNvarcharArray => Some((true, Builtin::SqlserverNvarchar)),
            Builtin::SqlserverSysname => Some((false, Builtin::SqlserverNvarchar)),
            Builtin::SqlserverBpcharbyte => None,
            Builtin::SqlserverVarcharbyte => None,
            Builtin::SqlserverSysLsn => Some((false, Builtin::PgLsn)),
            Builtin::SqlserverSysMoney => None,
            Builtin::SqlserverSysMoneyArray => Some((true, Builtin::SqlserverSysMoney)),
            Builtin::SqlserverBinary => None,
            Builtin::SqlserverBinaryArray => Some((true, Builtin::SqlserverBinary)),
            Builtin::SqlserverVarbinary => None,
            Builtin::SqlserverVarbinaryArray => Some((true, Builtin::SqlserverVarbinary)),
            Builtin::SqlserverTinyint => None,
            Builtin::SqlserverTinyintArray => Some((true, Builtin::SqlserverTinyint)),
            Builtin::SqlserverSysBit => None,
            Builtin::SqlserverSysBitArray => Some((true, Builtin::SqlserverSysBit)),
            Builtin::SqlserverDatetime => None,
            Builtin::SqlserverDatetimeArray => Some((true, Builtin::SqlserverDatetime)),
            Builtin::SqlserverSmalldatetime => None,
            Builtin::SqlserverSmalldatetimeArray => Some((true, Builtin::SqlserverSmalldatetime)),
            Builtin::SqlserverDatetime2 => None,
            Builtin::SqlserverDatetime2Array => Some((true, Builtin::SqlserverDatetime2)),
            Builtin::SqlserverSysTime => None,
            Builtin::SqlserverSysTimeArray => Some((true, Builtin::SqlserverSysTime)),
            Builtin::SqlserverRowversion => None,
            Builtin::SqlserverRowversionArray => Some((true, Builtin::SqlserverRowversion)),
            Builtin::SqlserverSqlVariant => None,
            Builtin::SqlserverSqlVariantArray => Some((true, Builtin::SqlserverSqlVariant)),
            Builtin::SqlserverUniqueidentifier => None,
            Builtin::SqlserverUniqueidentifierArray => Some((true, Builtin::SqlserverUniqueidentifier)),
        }
    }

    /// The built-in type of a table with an OID, if there is one.
    pub fn lookup(system: TypeSystem, oid: u32) -> (r: Option<Builtin>)
        ensures
            r == builtin_lookup(system, oid),
    {
        match system {
            TypeSystem::Pg => match oid {
                16 => Some(Builtin::Bool),
                17 => Some(Builtin::Bytea),
                18 => Some(Builtin::Char),
                19 => Some(Builtin::Name),
                20 => Some(Builtin::Int8),
                21 => Some(Builtin::Int2),
                23 => Some(Builtin::Int4),
                25 => Some(Builtin::Text),
                26 => Some(Builtin::Oid),
                114 => Some(Builtin::Json),
                142 => Some(Builtin::Xml),
                700 => Some(Builtin::Float4),
                701 => Some(Builtin::Float8),
                705 => Some(Builtin::Unknown),
                790 => Some(Builtin::Money),
                869 => Some(Builtin::Inet),
                1042 => Some(Builtin::Bpchar),
                1043 => Some(Builtin::Varchar),
                1082 => Some(Builtin::Date),
                1083 => Some(Builtin::Time),
                1114 => Some(Builtin::Timestamp),
                1184 => Some(Builtin::Timestamptz),
                1186 => Some(Builtin::Interval),
                1560 => Some(Builtin::Bit),
                1562 => Some(Builtin::Varbit),
                1700 => Some(Builtin::Numeric),
                2950 => Some(Builtin::Uuid),
                3220 => Some(Builtin::PgLsn),
                3802 => Some(Builtin::Jsonb),
                4072 => Some(Builtin::Jsonpath),
                5069 => Some(Builtin::Xid8),
                22 => Some(Builtin::Int2Vector),
                30 => Some(Builtin::OidVector),
                1000 => Some(Builtin::BoolArray),
                1001 => Some(Builtin::ByteaArray),
                1002 => Some(Builtin::CharArray),
                1005 => Some(Builtin::Int2Array),
                1007 => Some(Builtin::Int4Array),
                1009 => Some(Builtin::TextArray),
                1015 => Some(Builtin::VarcharArray),
                1016 => Some(Builtin::Int8Array),
                1028 => Some(Builtin::OidArray),
                1187 => Some(Builtin::IntervalArray),
                1231 => Some(Builtin::NumericArray),
                4073 => Some(Builtin::JsonpathArray),
                _ => None,
            },
            TypeSystem::Mysql => match oid {
                3383 => Some(Builtin::MysqlBinary),
                3384 => Some(Builtin::MysqlVarbinary),
                3385 => Some(Builtin::MysqlBinaryArray),
                4655 => Some(Builtin::MysqlSysBit),
                4656 => Some(Builtin::MysqlSysBitArray),
                7011 => Some(Builtin::MysqlBpcharbyte),
                7031 => Some(Builtin::MysqlBpcharbyteArray),
                7012 => Some(Builtin::MysqlVarcharbyte),
                7032 => Some(Builtin::MysqlVarcharbyteArray),
                7013 => Some(Builtin::MysqlInt1),
                7014 => Some(Builtin::MysqlInt3),
                7015 => Some(Builtin::MysqlMiddleint),
                7016 => Some(Builtin::MysqlMediumint),
                7017 => Some(Builtin::MysqlClob),
                7018 => Some(Builtin::MysqlLongtext),
                7019 => Some(Builtin::MysqlMediumtext),
                7020 => Some(Builtin::MysqlTinytext),
                7021 => Some(Builtin::MysqlLongblob),
                7022 => Some(Builtin::MysqlMediumblob),
                7023 => Some(Builtin::MysqlTinyblob),
                7024 => Some(Builtin::MysqlSysJson),
                7025 => Some(Builtin::MysqlYear),
                7026 => Some(Builtin::MysqlNclob),
                7027 => Some(Builtin::MysqlRowid),
                7082 => Some(Builtin::MysqlUint4),
                7083 => Some(Builtin::MysqlUint4Array),
                7084 => Some(Builtin::MysqlUint8),
                7085 => Some(Builtin::MysqlUint8Array),
                7944 => Some(Builtin::MysqlSysDate),
                7950 => Some(Builtin::MysqlSysTime),
                7952 => Some(Builtin::MysqlDatetime),
                7954 => Some(Builtin::MysqlSysTimestamp),
                8013 => Some(Builtin::MysqlBlob),
                8100 => Some(Builtin::MysqlTinyint),
                8101 => Some(Builtin::MysqlTinyintArray),
                _ => None,
            },
            TypeSystem::Oracle => match oid {
                7000 => Some(Builtin::OracleRowid),
                7001 => Some(Builtin::OracleUrowid),
                7002 => Some(Builtin::OracleYminterval),
                7003 => Some(Builtin::OracleDsinterval),
                6123 => Some(Builtin::OracleSysDate),
                6124 => Some(Builtin::OracleBfile),
                8013 => Some(Builtin::OracleBlob),
                8014 => Some(Builtin::OracleClob),
                8015 => Some(Builtin::OracleNclob),
                8016 => Some(Builtin::OracleBpcharbyte),
                8017 => Some(Builtin::OracleVarcharbyte),
                8100 => Some(Builtin::OracleTinyint),
                8101 => Some(Builtin::OracleTinyintArray),
                _ => None,
            },
            TypeSystem::SqlServer => match oid {
                5039 => Some(Builtin::SqlserverNchar),
                5040 => Some(Builtin::SqlserverNcharArray),
                5041 => Some(Builtin::SqlserverNvarchar),
                5042 => Some(Builtin::SqlserverNvarcharArray),
                5043 => Some(Builtin::SqlserverSysname),
                5044 => Some(Builtin::SqlserverBpcharbyte),
                5045 => Some(Builtin::SqlserverVarcharbyte),
                5046 => Some(Builtin::SqlserverSysLsn),
                5069 => Some(Builtin::SqlserverSysMoney),
                5070 => Some(Builtin::SqlserverSysMoneyArray),
                5022 => Some(Builtin::SqlserverBinary),
                5023 => Some(Builtin::SqlserverBinaryArray),
                5024 => Some(Builtin::SqlserverVarbinary),
                5025 => Some(Builtin::SqlserverVarbinaryArray),
                5026 => Some(Builtin::SqlserverTinyint),
                5027 => Some(Builtin::SqlserverTinyintArray),
                6661 => Some(Builtin::SqlserverSysBit),
                6662 => Some(Builtin::SqlserverSysBitArray),
                7754 => Some(Builtin::SqlserverDatetime),
                7764 => Some(Builtin::SqlserverDatetimeArray),
                7755 => Some(Builtin::SqlserverSmalldatetime),
                7765 => Some(Builtin::SqlserverSmalldatetimeArray),
                7881 => Some(Builtin::SqlserverDatetime2),
                7891 => Some(Builtin::SqlserverDatetime2Array),
                7680 => Some(Builtin::SqlserverSysTime),
                7690 => Some(Builtin::SqlserverSysTimeArray),
                7915 => Some(Builtin::SqlserverRowversion),
                7916 => Some(Builtin::SqlserverRowversionArray),
                12464 => Some(Builtin::SqlserverSqlVariant),
                12465 => Some(Builtin::SqlserverSqlVariantArray),
                8016 => Some(Builtin::SqlserverUniqueidentifier),
                8017 => Some(Builtin::SqlserverUniqueidentifierArray),
                _ => None,
            },
        }
    }
}

impl Type {
    /// `pg_catalog.bool`.
    #[allow(non_snake_case)]
    pub fn BOOL() -> (t: Type)
        ensures
            t@ == builtin_view(Builtin::Bool),
    {
        Type::from_builtin(Builtin::Bool)
    }

    /// `pg_catalog.bytea`.
    #[allow(non_snake_case)]
    pub fn BYTEA() -> (t: Type)
        ensures
            t@ == builtin_view(Builtin::Bytea),
    {
        Type::from_builtin(Builtin::Bytea)
    }

    /// `pg_catalog.char`.
    #[allow(non_snake_case)]
    pub fn CHAR() -> (t: Type)
        ensures
            t@ == builtin_view(Builtin::Char),
    {
        Type::from_builtin(Builtin::Char)
    }

    /// `pg_catalog.name`.
    #[allow(non_snake_case)]
    pub fn NAME() -> (t: Type)
        ensures
            t@ == builtin_view(Builtin::Name),
    {
        Type::from_builtin(Builtin::Name)
    }

    /// `pg_catalog.int8`.
    #[allow(non_snake_case)]
    pub fn INT8() -> (t: Type)
        ensures
            t@ == builtin_view(Builtin::Int8),
    {
        Type::from_builtin(Builtin::Int8)
    }

    /// `pg_catalog.int2`.
    #[allow(non_snake_case)]
    pub fn INT2() -> (t: Type)
        ensures
            t@ == builtin_view(Builtin::Int2),
    {
        Type::from_builtin(Builtin::Int2)
    }

    /// `pg_catalog.int4`.
    #[allow(non_snake_case)]
    pub fn INT4() -> (t: Type)
        ensures
            t@ == builtin_view(Builtin::Int4),
    {
        Type::from_builtin(Builtin::Int4)
    }

    /// `pg_catalog.text`.
    #[allow(non_snake_case)]
    pub fn TEXT() -> (t: Type)
        ensures
            t@ == builtin_view(Builtin::Text),
    {
        Type::from_builtin(Builtin::Text)
    }

    /// `pg_catalog.oid`.
    #[allow(non_snake_case)]
    pub fn OID() -> (t: Type)
        ensures
            t@ == builtin_view(Builtin::Oid),
    {
        Type::from_builtin(Builtin::Oid)
    }

    /// `pg_catalog.json`.
    #[allow(non_snake_case)]
    pub fn JSON() -> (t: Type)
        ensures
            t@ == builtin_view(Builtin::Json),
    {
        Type::from_builtin(Builtin::Json)
    }

    /// `pg_catalog.xml`.
    #[allow(non_snake_case)]
    pub fn XML() -> (t: Type)
        ensures
            t@ == builtin_view(Builtin::Xml),
    {
        Type::from_builtin(Builtin::Xml)
    }

    /// `pg_catalog.float4`.
    #[allow(non_snake_case)]
    pub fn FLOAT4() -> (t: Type)
        ensures
            t@ == builtin_view(Builtin::Float4),
    {
        Type::from_builtin(Builtin::Float4)
    }

    /// `pg_catalog.float8`.
    #[allow(non_snake_case)]
    pub fn FLOAT8() -> (t: Type)
        ensures
            t@ == builtin_view(Builtin::Float8),
    {
        Type::from_builtin(Builtin::Float8)
    }

    /// `pg_catalog.unknown`.
    #[allow(non_snake_case)]
    pub fn UNKNOWN() -> (t: Type)
        ensures
            t@ == builtin_view(Builtin::Unknown),
    {
        Type::from_builtin(Builtin::Unknown)
    }

    /// `pg_catalog.money`.
    #[allow(non_snake_case)]
    pub fn MONEY() -> (t: Type)
        ensures
            t@ == builtin_view(Builtin::Money),
    {
        Type::from_builtin(Builtin::Money)
    }

    /// `pg_catalog.inet`.
    #[allow(non_snake_case)]
    pub fn INET() -> (t: Type)
        ensures
            t@ == builtin_view(Builtin::Inet),
    {
        Type::from_builtin(Builtin::Inet)
    }

    /// `pg_catalog.bpchar`.
    #[allow(non_snake_case)]
    pub fn BPCHAR() -> (t: Type)
        ensures
            t@ == builtin_view(Builtin::Bpchar),
    {
        Type::from_builtin(Builtin::Bpchar)
    }

    /// `pg_catalog.varchar`.
    #[allow(non_snake_case)]
    pub fn VARCHAR() -> (t: Type)
        ensures
            t@ == builtin_view(Builtin::Varchar),
    {
        Type::from_builtin(Builtin::Varchar)
    }

    /// `pg_catalog.date`.
    #[allow(non_snake_case)]
    pub fn DATE() -> (t: Type)
        ensures
            t@ == builtin_view(Builtin::Date),
    {
        Type::from_builtin(Builtin::Date)
    }

    /// `pg_catalog.time`.
    #[allow(non_snake_case)]
    pub fn TIME() -> (t: Type)
        ensures
            t@ == builtin_view(Builtin::Time),
    {
        Type::from_builtin(Builtin::Time)
    }

    /// `pg_catalog.timestamp`.
    #[allow(non_snake_case)]
    pub fn TIMESTAMP() -> (t: Type)
        ensures
            t@ == builtin_view(Builtin::Timestamp),
    {
        Type::from_builtin(Builtin::Timestamp)
    }

    /// `pg_catalog.timestamptz`.
    #[allow(non_snake_case)]
    pub fn TIMESTAMPTZ() -> (t: Type)
        ensures
            t@ == builtin_view(Builtin::Timestamptz),
    {
        Type::from_builtin(Builtin::Timestamptz)
    }

    /// `pg_catalog.interval`.
    #[allow(non_snake_case)]
    pub fn INTERVAL() -> (t: Type)
        ensures
            t@ == builtin_view(Builtin::Interval),
    {
        Type::from_builtin(Builtin::Interval)
    }

    /// `pg_catalog.bit`.
    #[allow(non_snake_case)]
    pub fn BIT() -> (t: Type)
        ensures
            t@ == builtin_view(Builtin::Bit),
    {
        Type::from_builtin(Builtin::Bit)
    }

    /// `pg_catalog.varbit`.
    #[allow(non_snake_case)]
    pub fn VARBIT() -> (t: Type)
        ensures
            t@ == builtin_view(Builtin::Varbit),
    {
        Type::from_builtin(Builtin::Varbit)
    }

    /// `pg_catalog.numeric`.
    #[allow(non_snake_case)]
    pub fn NUMERIC() -> (t: Type)
        ensures
            t@ == builtin_view(Builtin::Numeric),
    {
        Type::from_builtin(Builtin::Numeric)
    }

    /// `pg_catalog.uuid`.
    #[allow(non_snake_case)]
    pub fn UUID() -> (t: Type)
        ensures
            t@ == builtin_view(Builtin::Uuid),
    {
        Type::from_builtin(Builtin::Uuid)
    }

    /// `pg_catalog.pg_lsn`.
    #[allow(non_snake_case)]
    pub fn PG_LSN() -> (t: Type)
        ensures
            t@ == builtin_view(Builtin::PgLsn),
    {
        Type::from_builtin(Builtin::PgLsn)
    }

    /// `pg_catalog.jsonb`.
    #[allow(non_snake_case)]
    pub fn JSONB() -> (t: Type)
        ensures
            t@ == builtin_view(Builtin::Jsonb),
    {
        Type::from_builtin(Builtin::Jsonb)
    }

    /// `pg_catalog.jsonpath`.
    #[allow(non_snake_case)]
    pub fn JSONPATH() -> (t: Type)
        ensures
            t@ == builtin_view(Builtin::Jsonpath),
    {
        Type::from_builtin(Builtin::Jsonpath)
    }

    /// `pg_catalog.xid8`.
    #[allow(non_snake_case)]
    pub fn XID8() -> (t: Type)
        ensures
            t@ == builtin_view(Builtin::Xid8),
    {
        Type::from_builtin(Builtin::Xid8)
    }

    /// `pg_catalog.int2vector`.
    #[allow(non_snake_case)]
    pub fn INT2_VECTOR() -> (t: Type)
        ensures
            t@ == builtin_view(Builtin::Int2Vector),
    {
        Type::from_builtin(Builtin::Int2Vector)
    }

    /// `pg_catalog.oidvector`.
    #[allow(non_snake_case)]
    pub fn OID_VECTOR() -> (t: Type)
        ensures
            t@ == builtin_view(Builtin::OidVector),
    {
        Type::from_builtin(Builtin::OidVector)
    }

    /// `pg_catalog._bool`.
    #[allow(non_snake_case)]
    pub fn BOOL_ARRAY() -> (t: Type)
        ensures
            t@ == builtin_view(Builtin::BoolArray),
    {
        Type::from_builtin(Builtin::BoolArray)
    }

    /// `pg_catalog._bytea`.
    #[allow(non_snake_case)]
    pub fn BYTEA_ARRAY() -> (t: Type)
        ensures
            t@ == builtin_view(Builtin::ByteaArray),
    {
        Type::from_builtin(Builtin::ByteaArray)
    }

    /// `pg_catalog._char`.
    #[allow(non_snake_case)]
    pub fn CHAR_ARRAY() -> (t: Type)
        ensures
            t@ == builtin_view(Builtin::CharArray),
    {
        Type::from_builtin(Builtin::CharArray)
    }

    /// `pg_catalog._int2`.
    #[allow(non_snake_case)]
    pub fn INT2_ARRAY() -> (t: Type)
        ensures
            t@ == builtin_view(Builtin::Int2Array),
    {
        Type::from_builtin(Builtin::Int2Array)
    }

    /// `pg_catalog._int4`.
    #[allow(non_snake_case)]
    pub fn INT4_ARRAY() -> (t: Type)
        ensures
            t@ == builtin_view(Builtin::Int4Array),
    {
        Type::from_builtin(Builtin::Int4Array)
    }

    /// `pg_catalog._text`.
    #[allow(non_snake_case)]
    pub fn TEXT_ARRAY() -> (t: Type)
        ensures
            t@ == builtin_view(Builtin::TextArray),
    {
        Type::from_builtin(Builtin::TextArray)
    }

    /// `pg_catalog._varchar`.
    #[allow(non_snake_case)]
    pub fn VARCHAR_ARRAY() -> (t: Type)
        ensures
            t@ == builtin_view(Builtin::VarcharArray),
    {
        Type::from_builtin(Builtin::VarcharArray)
    }

    /// `pg_catalog._int8`.
    #[allow(non_snake_case)]
    pub fn INT8_ARRAY() -> (t: Type)
        ensures
            t@ == builtin_view(Builtin::Int8Array),
    {
        Type::from_builtin(Builtin::Int8Array)
    }

    /// `pg_catalog._oid`.
    #[allow(non_snake_case)]
    pub fn OID_ARRAY() -> (t: Type)
        ensures
            t@ == builtin_view(Builtin::OidArray),
    {
        Type::from_builtin(Builtin::OidArray)
    }

    /// `pg_catalog._interval`.
    #[allow(non_snake_case)]
    pub fn INTERVAL_ARRAY() -> (t: Type)
        ensures
            t@ == builtin_view(Builtin::IntervalArray),
    {
        Type::from_builtin(Builtin::IntervalArray)
    }

    /// `pg_catalog._numeric`.
    #[allow(non_snake_case)]
    pub fn NUMERIC_ARRAY() -> (t: Type)
        ensures
            t@ == builtin_view(Builtin::NumericArray),
    {
        Type::from_builtin(Builtin::NumericArray)
    }

    /// `pg_catalog._jsonpath`.
    #[allow(non_snake_case)]
    pub fn JSONPATH_ARRAY() -> (t: Type)
        ensures
            t@ == builtin_view(Builtin::JsonpathArray),
    {
        Type::from_builtin(Builtin::JsonpathArray)
    }

    /// `sys.binary`.
    #[allow(non_snake_case)]
    pub fn MYSQL_BINARY() -> (t: Type)
        ensures
            t@ == builtin_view(Builtin::MysqlBinary),
    {
        Type::from_builtin(Builtin::MysqlBinary)
    }

    /// `sys.varbinary`.
    #[allow(non_snake_case)]
    pub fn MYSQL_VARBINARY() -> (t: Type)
        ensures
            t@ == builtin_view(Builtin::MysqlVarbinary),
    {
        Type::from_builtin(Builtin::MysqlVarbinary)
    }

    /// `sys._binary`.
    #[allow(non_snake_case)]
    pub fn MYSQL_BINARY_ARRAY() -> (t: Type)
        ensures
            t@ == builtin_view(Builtin::MysqlBinaryArray),
    {
        Type::from_builtin(Builtin::MysqlBinaryArray)
    }

    /// `sys.bit`.
    #[allow(non_snake_case)]
    pub fn MYSQL_SYS_BIT() -> (t: Type)
        ensures
            t@ == builtin_view(Builtin::MysqlSysBit),
    {
        Type::from_builtin(Builtin::MysqlSysBit)
    }

    /// `sys._bit`.
    #[allow(non_snake_case)]
    pub fn MYSQL_SYS_BIT_ARRAY() -> (t: Type)
        ensures
            t@ == builtin_view(Builtin::MysqlSysBitArray),
    {
        Type::from_builtin(Builtin::MysqlSysBitArray)
    }

    /// `sys.bpcharbyte`.
    #[allow(non_snake_case)]
    pub fn MYSQL_BPCHARBYTE() -> (t: Type)
        ensures
            t@ == builtin_view(Builtin::MysqlBpcharbyte),
    {
        Type::from_builtin(Builtin::MysqlBpcharbyte)
    }

    /// `sys._bpcharbyte`.
    #[allow(non_snake_case)]
    pub fn MYSQL_BPCHARBYTE_ARRAY() -> (t: Type)
        ensures
            t@ == builtin_view(Builtin::MysqlBpcharbyteArray),
    {
        Type::from_builtin(Builtin::MysqlBpcharbyteArray)
    }

    /// `sys.varcharbyte`.
    #[allow(non_snake_case)]
    pub fn MYSQL_VARCHARBYTE() -> (t: Type)
        ensures
            t@ == builtin_view(Builtin::MysqlVarcharbyte),
    {
        Type::from_builtin(Builtin::MysqlVarcharbyte)
    }

    /// `sys._varcharbyte`.
    #[allow(non_snake_case)]
    pub fn MYSQL_VARCHARBYTE_ARRAY() -> (t: Type)
        ensures
            t@ == builtin_view(Builtin::MysqlVarcharbyteArray),
    {
        Type::from_builtin(Builtin::MysqlVarcharbyteArray)
    }

    /// `sys.int1`.
    #[allow(non_snake_case)]
    pub fn MYSQL_INT1() -> (t: Type)
        ensures
            t@ == builtin_view(Builtin::MysqlInt1),
    {
        Type::from_builtin(Builtin::MysqlInt1)
    }

    /// `sys.int3`.
    #[allow(non_snake_case)]
    pub fn MYSQL_INT3() -> (t: Type)
        ensures
            t@ == builtin_view(Builtin::MysqlInt3),
    {
        Type::from_builtin(Builtin::MysqlInt3)
    }

    /// `sys.middleint`.
    #[allow(non_snake_case)]
    pub fn MYSQL_MIDDLEINT() -> (t: Type)
        ensures
            t@ == builtin_view(Builtin::MysqlMiddleint),
    {
        Type::from_builtin(Builtin::MysqlMiddleint)
    }

    /// `sys.mediumint`.
    #[allow(non_snake_case)]
    pub fn MYSQL_MEDIUMINT() -> (t: Type)
        ensures
            t@ == builtin_view(Builtin::MysqlMediumint),
    {
        Type::from_builtin(Builtin::MysqlMediumint)
    }

    /// `sys.clob`.
    #[allow(non_snake_case)]
    pub fn MYSQL_CLOB() -> (t: Type)
        ensures
            t@ == builtin_view(Builtin::MysqlClob),
    {
        Type::from_builtin(Builtin::MysqlClob)
    }

    /// `sys.longtext`.
    #[allow(non_snake_case)]
    pub fn MYSQL_LONGTEXT() -> (t: Type)
        ensures
            t@ == builtin_view(Builtin::MysqlLongtext),
    {
        Type::from_builtin(Builtin::MysqlLongtext)
    }

    /// `sys.mediumtext`.
    #[allow(non_snake_case)]
    pub fn MYSQL_MEDIUMTEXT() -> (t: Type)
        ensures
            t@ == builtin_view(Builtin::MysqlMediumtext),
    {
        Type::from_builtin(Builtin::MysqlMediumtext)
    }

    /// `sys.tinytext`.
    #[allow(non_snake_case)]
    pub fn MYSQL_TINYTEXT() -> (t: Type)
        ensures
            t@ == builtin_view(Builtin::MysqlTinytext),
    {
        Type::from_builtin(Builtin::MysqlTinytext)
    }

    /// `sys.longblob`.
    #[allow(non_snake_case)]
    pub fn MYSQL_LONGBLOB() -> (t: Type)
        ensures
            t@ == builtin_view(Builtin::MysqlLongblob),
    {
        Type::from_builtin(Builtin::MysqlLongblob)
    }

    /// `sys.mediumblob`.
    #[allow(non_snake_case)]
    pub fn MYSQL_MEDIUMBLOB() -> (t: Type)
        ensures
            t@ == builtin_view(Builtin::MysqlMediumblob),
    {
        Type::from_builtin(Builtin::MysqlMediumblob)
    }

    /// `sys.tinyblob`.
    #[allow(non_snake_case)]
    pub fn MYSQL_TINYBLOB() -> (t: Type)
        ensures
            t@ == builtin_view(Builtin::MysqlTinyblob),
    {
        Type::from_builtin(Builtin::MysqlTinyblob)
    }

    /// `sys.json`.
    #[allow(non_snake_case)]
    pub fn MYSQL_SYS_JSON() -> (t: Type)
        ensures
            t@ == builtin_view(Builtin::MysqlSysJson),
    {
        Type::from_builtin(Builtin::MysqlSysJson)
    }

    /// `sys.year`.
    #[allow(non_snake_case)]
    pub fn MYSQL_YEAR() -> (t: Type)
        ensures
            t@ == builtin_view(Builtin::MysqlYear),
    {
        Type::from_builtin(Builtin::MysqlYear)
    }

    /// `sys.nclob`.
    #[allow(non_snake_case)]
    pub fn MYSQL_NCLOB() -> (t: Type)
        ensures
            t@ == builtin_view(Builtin::MysqlNclob),
    {
        Type::from_builtin(Builtin::MysqlNclob)
    }

    /// `sys.rowid`.
    #[allow(non_snake_case)]
    pub fn MYSQL_ROWID() -> (t: Type)
        ensures
            t@ == builtin_view(Builtin::MysqlRowid),
    {
        Type::from_builtin(Builtin::MysqlRowid)
    }

    /// `sys.uint4`.
    #[allow(non_snake_case)]
    pub fn MYSQL_UINT4() -> (t: Type)
        ensures
            t@ == builtin_view(Builtin::MysqlUint4),
    {
        Type::from_builtin(Builtin::MysqlUint4)
    }

    /// `sys._uint4`.
    #[allow(non_snake_case)]
    pub fn MYSQL_UINT4_ARRAY() -> (t: Type)
        ensures
            t@ == builtin_view(Builtin::MysqlUint4Array),
    {
        Type::from_builtin(Builtin::MysqlUint4Array)
    }

    /// `sys.uint8`.
    #[allow(non_snake_case)]
    pub fn MYSQL_UINT8() -> (t: Type)
        ensures
            t@ == builtin_view(Builtin::MysqlUint8),
    {
        Type::from_builtin(Builtin::MysqlUint8)
    }

    /// `sys._uint8`.
    #[allow(non_snake_case)]
    pub fn MYSQL_UINT8_ARRAY() -> (t: Type)
        ensures
            t@ == builtin_view(Builtin::MysqlUint8Array),
    {
        Type::from_builtin(Builtin::MysqlUint8Array)
    }

    /// `sys.date`.
    #[allow(non_snake_case)]
    pub fn MYSQL_SYS_DATE() -> (t: Type)
        ensures
            t@ == builtin_view(Builtin::MysqlSysDate),
    {
        Type::from_builtin(Builtin::MysqlSysDate)
    }

    /// `sys.time`.
    #[allow(non_snake_case)]
    pub fn MYSQL_SYS_TIME() -> (t: Type)
        ensures
            t@ == builtin_view(Builtin::MysqlSysTime),
    {
        Type::from_builtin(Builtin::MysqlSysTime)
    }

    /// `sys.datetime`.
    #[allow(non_snake_case)]
    pub fn MYSQL_DATETIME() -> (t: Type)
        ensures
            t@ == builtin_view(Builtin::MysqlDatetime),
    {
        Type::from_builtin(Builtin::MysqlDatetime)
    }

    /// `sys.timestamp`.
    #[allow(non_snake_case)]
    pub fn MYSQL_SYS_TIMESTAMP() -> (t: Type)
        ensures
            t@ == builtin_view(Builtin::MysqlSysTimestamp),
    {
        Type::from_builtin(Builtin::MysqlSysTimestamp)
    }

    /// `sys.blob`.
    #[allow(non_snake_case)]
    pub fn MYSQL_BLOB() -> (t: Type)
        ensures
            t@ == builtin_view(Builtin::MysqlBlob),
    {
        Type::from_builtin(Builtin::MysqlBlob)
    }

    /// `sys.tinyint`.
    #[allow(non_snake_case)]
    pub fn MYSQL_TINYINT() -> (t: Type)
        ensures
            t@ == builtin_view(Builtin::MysqlTinyint),
    {
        Type::from_builtin(Builtin::MysqlTinyint)
    }

    /// `sys._tinyint`.
    #[allow(non_snake_case)]
    pub fn MYSQL_TINYINT_ARRAY() -> (t: Type)
        ensures
            t@ == builtin_view(Builtin::MysqlTinyintArray),
    {
        Type::from_builtin(Builtin::MysqlTinyintArray)
    }

    /// `pg_catalog.rowid`.
    #[allow(non_snake_case)]
    pub fn ORACLE_ROWID() -> (t: Type)
        ensures
            t@ == builtin_view(Builtin::OracleRowid),
    {
        Type::from_builtin(Builtin::OracleRowid)
    }

    /// `sys.urowid`.
    #[allow(non_snake_case)]
    pub fn ORACLE_UROWID() -> (t: Type)
        ensures
            t@ == builtin_view(Builtin::OracleUrowid),
    {
        Type::from_builtin(Builtin::OracleUrowid)
    }

    /// `sys.yminterval`.
    #[allow(non_snake_case)]
    pub fn ORACLE_YMINTERVAL() -> (t: Type)
        ensures
            t@ == builtin_view(Builtin::OracleYminterval),
    {
        Type::from_builtin(Builtin::OracleYminterval)
    }

    /// `sys.dsinterval`.
    #[allow(non_snake_case)]
    pub fn ORACLE_DSINTERVAL() -> (t: Type)
        ensures
            t@ == builtin_view(Builtin::OracleDsinterval),
    {
        Type::from_builtin(Builtin::OracleDsinterval)
    }

    /// `sys.date`.
    #[allow(non_snake_case)]
    pub fn ORACLE_SYS_DATE() -> (t: Type)
        ensures
            t@ == builtin_view(Builtin::OracleSysDate),
    {
        Type::from_builtin(Builtin::OracleSysDate)
    }

    /// `sys.bfile`.
    #[allow(non_snake_case)]
    pub fn ORACLE_BFILE() -> (t: Type)
        ensures
            t@ == builtin_view(Builtin::OracleBfile),
    {
        Type::from_builtin(Builtin::OracleBfile)
    }

    /// `sys.blob`.
    #[allow(non_snake_case)]
    pub fn ORACLE_BLOB() -> (t: Type)
        ensures
            t@ == builtin_view(Builtin::OracleBlob),
    {
        Type::from_builtin(Builtin::OracleBlob)
    }

    /// `sys.clob`.
    #[allow(non_snake_case)]
    pub fn ORACLE_CLOB() -> (t: Type)
        ensures
            t@ == builtin_view(Builtin::OracleClob),
    {
        Type::from_builtin(Builtin::OracleClob)
    }

    /// `sys.nclob`.
    #[allow(non_snake_case)]
    pub fn ORACLE_NCLOB() -> (t: Type)
        ensures
            t@ == builtin_view(Builtin::OracleNclob),
    {
        Type::from_builtin(Builtin::OracleNclob)
    }

    /// `sys.bpcharbyte`.
    #[allow(non_snake_case)]
    pub fn ORACLE_BPCHARBYTE() -> (t: Type)
        ensures
            t@ == builtin_view(Builtin::OracleBpcharbyte),
    {
        Type::from_builtin(Builtin::OracleBpcharbyte)
    }

    /// `sys.varcharbyte`.
    #[allow(non_snake_case)]
    pub fn ORACLE_VARCHARBYTE() -> (t: Type)
        ensures
            t@ == builtin_view(Builtin::OracleVarcharbyte),
    {
        Type::from_builtin(Builtin::OracleVarcharbyte)
    }

    /// `sys.tinyint`.
    #[allow(non_snake_case)]
    pub fn ORACLE_TINYINT() -> (t: Type)
        ensures
            t@ == builtin_view(Builtin::OracleTinyint),
    {
        Type::from_builtin(Builtin::OracleTinyint)
    }

    /// `sys._tinyint`.
    #[allow(non_snake_case)]
    pub fn ORACLE_TINYINT_ARRAY() -> (t: Type)
        ensures
            t@ == builtin_view(Builtin::OracleTinyintArray),
    {
        Type::from_builtin(Builtin::OracleTinyintArray)
    }

    /// `sys.nchar`.
    #[allow(non_snake_case)]
    pub fn SQLSERVER_NCHAR() -> (t: Type)
        ensures
            t@ == builtin_view(Builtin::SqlserverNchar),
    {
        Type::from_builtin(Builtin::SqlserverNchar)
    }

    /// `sys._nchar`.
    #[allow(non_snake_case)]
    pub fn SQLSERVER_NCHAR_ARRAY() -> (t: Type)
        ensures
            t@ == builtin_view(Builtin::SqlserverNcharArray),
    {
        Type::from_builtin(Builtin::SqlserverNcharArray)
    }

    /// `sys.nvarchar`.
    #[allow(non_snake_case)]
    pub fn SQLSERVER_NVARCHAR() -> (t: Type)
        ensures
            t@ == builtin_view(Builtin::SqlserverNvarchar),
    {
        Type::from_builtin(Builtin::SqlserverNvarchar)
    }

    /// `sys._nvarchar`.
    #[allow(non_snake_case)]
    pub fn SQLSERVER_NVARCHAR_ARRAY() -> (t: Type)
        ensures
            t@ == builtin_view(Builtin::SqlserverNvarcharArray),
    {
        Type::from_builtin(Builtin::SqlserverNvarcharArray)
    }

    /// `sys.sysname`.
    #[allow(non_snake_case)]
    pub fn SQLSERVER_SYSNAME() -> (t: Type)
        ensures
            t@ == builtin_view(Builtin::SqlserverSysname),
    {
        Type::from_builtin(Builtin::SqlserverSysname)
    }

    /// `sys.bpcharbyte`.
    #[allow(non_snake_case)]
    pub fn SQLSERVER_BPCHARBYTE() -> (t: Type)
        ensures
            t@ == builtin_view(Builtin::SqlserverBpcharbyte),
    {
        Type::from_builtin(Builtin::SqlserverBpcharbyte)
    }

    /// `sys.varcharbyte`.
    #[allow(non_snake_case)]
    pub fn SQLSERVER_VARCHARBYTE() -> (t: Type)
        ensures
            t@ == builtin_view(Builtin::SqlserverVarcharbyte),
    {
        Type::from_builtin(Builtin::SqlserverVarcharbyte)
    }

    /// `sys.lsn`.
    #[allow(non_snake_case)]
    pub fn SQLSERVER_SYS_LSN() -> (t: Type)
        ensures
            t@ == builtin_view(Builtin::SqlserverSysLsn),
    {
        Type::from_builtin(Builtin::SqlserverSysLsn)
    }

    /// `sys.money`.
    #[allow(non_snake_case)]
    pub fn SQLSERVER_SYS_MONEY() -> (t: Type)
        ensures
            t@ == builtin_view(Builtin::SqlserverSysMoney),
    {
        Type::from_builtin(Builtin::SqlserverSysMoney)
    }

    /// `sys._money`.
    #[allow(non_snake_case)]
    pub fn SQLSERVER_SYS_MONEY_ARRAY() -> (t: Type)
        ensures
            t@ == builtin_view(Builtin::SqlserverSysMoneyArray),
    {
        Type::from_builtin(Builtin::SqlserverSysMoneyArray)
    }

    /// `sys.binary`.
    #[allow(non_snake_case)]
    pub fn SQLSERVER_BINARY() -> (t: Type)
        ensures
            t@ == builtin_view(Builtin::SqlserverBinary),
    {
        Type::from_builtin(Builtin::SqlserverBinary)
    }

    /// `sys._binary`.
    #[allow(non_snake_case)]
    pub fn SQLSERVER_BINARY_ARRAY() -> (t: Type)
        ensures
            t@ == builtin_view(Builtin::SqlserverBinaryArray),
    {
        Type::from_builtin(Builtin::SqlserverBinaryArray)
    }

    /// `sys.varbinary`.
    #[allow(non_snake_case)]
    pub fn SQLSERVER_VARBINARY() -> (t: Type)
        ensures
            t@ == builtin_view(Builtin::SqlserverVarbinary),
    {
        Type::from_builtin(Builtin::SqlserverVarbinary)
    }

    /// `sys._varbinary`.
    #[allow(non_snake_case)]
    pub fn SQLSERVER_VARBINARY_ARRAY() -> (t: Type)
        ensures
            t@ == builtin_view(Builtin::SqlserverVarbinaryArray),
    {
        Type::from_builtin(Builtin::SqlserverVarbinaryArray)
    }

    /// `sys.tinyint`.
    #[allow(non_snake_case)]
    pub fn SQLSERVER_TINYINT() -> (t: Type)
        ensures
            t@ == builtin_view(Builtin::SqlserverTinyint),
    {
        Type::from_builtin(Builtin::SqlserverTinyint)
    }

    /// `sys._tinyint`.
    #[allow(non_snake_case)]
    pub fn SQLSERVER_TINYINT_ARRAY() -> (t: Type)
        ensures
            t@ == builtin_view(Builtin::SqlserverTinyintArray),
    {
        Type::from_builtin(Builtin::SqlserverTinyintArray)
    }

    /// `sys.bit`.
    #[allow(non_snake_case)]
    pub fn SQLSERVER_SYS_BIT() -> (t: Type)
        ensures
            t@ == builtin_view(Builtin::SqlserverSysBit),
    {
        Type::from_builtin(Builtin::SqlserverSysBit)
    }

    /// `sys._bit`.
    #[allow(non_snake_case)]
    pub fn SQLSERVER_SYS_BIT_ARRAY() -> (t: Type)
        ensures
            t@ == builtin_view(Builtin::SqlserverSysBitArray),
    {
        Type::from_builtin(Builtin::SqlserverSysBitArray)
    }

    /// `sys.datetime`.
    #[allow(non_snake_case)]
    pub fn SQLSERVER_DATETIME() -> (t: Type)
        ensures
            t@ == builtin_view(Builtin::SqlserverDatetime),
    {
        Type::from_builtin(Builtin::SqlserverDatetime)
    }

    /// `sys._datetime`.
    #[allow(non_snake_case)]
    pub fn SQLSERVER_DATETIME_ARRAY() -> (t: Type)
        ensures
            t@ == builtin_view(Builtin::SqlserverDatetimeArray),
    {
        Type::from_builtin(Builtin::SqlserverDatetimeArray)
    }

    /// `sys.smalldatetime`.
    #[allow(non_snake_case)]
    pub fn SQLSERVER_SMALLDATETIME() -> (t: Type)
        ensures
            t@ == builtin_view(Builtin::SqlserverSmalldatetime),
    {
        Type::from_builtin(Builtin::SqlserverSmalldatetime)
    }

    /// `sys._smalldatetime`.
    #[allow(non_snake_case)]
    pub fn SQLSERVER_SMALLDATETIME_ARRAY() -> (t: Type)
        ensures
            t@ == builtin_view(Builtin::SqlserverSmalldatetimeArray),
    {
        Type::from_builtin(Builtin::SqlserverSmalldatetimeArray)
    }

    /// `sys.datetime2`.
    #[allow(non_snake_case)]
    pub fn SQLSERVER_DATETIME2() -> (t: Type)
        ensures
            t@ == builtin_view(Builtin::SqlserverDatetime2),
    {
        Type::from_builtin(Builtin::SqlserverDatetime2)
    }

    /// `sys._datetime2`.
    #[allow(non_snake_case)]
    pub fn SQLSERVER_DATETIME2_ARRAY() -> (t: Type)
        ensures
            t@ == builtin_view(Builtin::SqlserverDatetime2Array),
    {
        Type::from_builtin(Builtin::SqlserverDatetime2Array)
    }

    /// `sys.time`.
    #[allow(non_snake_case)]
    pub fn SQLSERVER_SYS_TIME() -> (t: Type)
        ensures
            t@ == builtin_view(Builtin::SqlserverSysTime),
    {
        Type::from_builtin(Builtin::SqlserverSysTime)
    }

    /// `sys._time`.
    #[allow(non_snake_case)]
    pub fn SQLSERVER_SYS_TIME_ARRAY() -> (t: Type)
        ensures
            t@ == builtin_view(Builtin::SqlserverSysTimeArray),
    {
        Type::from_builtin(Builtin::SqlserverSysTimeArray)
    }

    /// `sys.rowversion`.
    #[allow(non_snake_case)]
    pub fn SQLSERVER_ROWVERSION() -> (t: Type)
        ensures
            t@ == builtin_view(Builtin::SqlserverRowversion),
    {
        Type::from_builtin(Builtin::SqlserverRowversion)
    }

    /// `sys._rowversion`.
    #[allow(non_snake_case)]
    pub fn SQLSERVER_ROWVERSION_ARRAY() -> (t: Type)
        ensures
            t@ == builtin_view(Builtin::SqlserverRowversionArray),
    {
        Type::from_builtin(Builtin::SqlserverRowversionArray)
    }

    /// `sys.sql_variant`.
    #[allow(non_snake_case)]
    pub fn SQLSERVER_SQL_VARIANT() -> (t: Type)
        ensures
            t@ == builtin_view(Builtin::SqlserverSqlVariant),
    {
        Type::from_builtin(Builtin::SqlserverSqlVariant)
    }

    /// `sys._sql_variant`.
    #[allow(non_snake_case)]
    pub fn SQLSERVER_SQL_VARIANT_ARRAY() -> (t: Type)
        ensures
            t@ == builtin_view(Builtin::SqlserverSqlVariantArray),
    {
        Type::from_builtin(Builtin::SqlserverSqlVariantArray)
    }

    /// `sys.uniqueidentifier`.
    #[allow(non_snake_case)]
    pub fn SQLSERVER_UNIQUEIDENTIFIER() -> (t: Type)
        ensures
            t@ == builtin_view(Builtin::SqlserverUniqueidentifier),
    {
        Type::from_builtin(Builtin::SqlserverUniqueidentifier)
    }

    /// `sys._uniqueidentifier`.
    #[allow(non_snake_case)]
    pub fn SQLSERVER_UNIQUEIDENTIFIER_ARRAY() -> (t: Type)
        ensures
            t@ == builtin_view(Builtin::SqlserverUniqueidentifierArray),
    {
        Type::from_builtin(Builtin::SqlserverUniqueidentifierArray)
    }

}

} // verus!
