//! KingbaseES-specific Rust value types and their binary codecs.

use vstd::prelude::*;
use bytes::BytesMut;
use crate::builtin::{Builtin, builtin_oid, builtin_name, builtin_schema};
use crate::codec::{Format, FromSql, ToSql, IsNull};
use crate::error::{SqlError, OracleIntervalError, SqlServerTimeError, MySqlTimeError, FixedWidth};
use crate::protocol::{time_from_sql, time_to_sql};
use crate::types::{Type, TypeView, KindView, Kind, str_equal};
use crate::wire::{
    buffer_bytes, be_signed, signed_bytes, extend_from_slice, put_i32, put_i64, put_u8,
    read_be_i64, read_be_i32, lemma_i64_round_trip, lemma_i32_round_trip, bytes_to_vec,
};

pub use crate::mysql_bit::MySqlBit;
pub use crate::error::MySqlBitError;

verus! {

/// A KingbaseES SQL Server-compatible unsigned `sys.tinyint` value.
#[derive(Debug, Copy, Clone, PartialEq, Eq, PartialOrd, Ord, Hash, Structural)]
pub struct SqlServerTinyInt(pub u8);

/// A KingbaseES MySQL-compatible `pg_catalog.jsonpath` value.
///
/// The protocol represents JSONPATH in a server-defined binary format.
/// Obtain this payload from KingbaseES, for example by selecting a
/// `CAST(... AS JSONPATH)` expression, before binding it again.
#[derive(Debug, PartialEq, Eq, Hash)]
pub struct MySqlJsonPath(Vec<u8>);

impl Clone for MySqlJsonPath {
    /// A copy with the same bytes.
    fn clone(&self) -> (r: Self)
        ensures
            r@ == self@,
    {
        MySqlJsonPath(crate::wire::bytes_to_vec(self.0.as_slice()))
    }
}

impl View for MySqlJsonPath {
    type V = Seq<u8>;

    closed spec fn view(&self) -> Seq<u8> {
        self.0@
    }
}

impl MySqlJsonPath {
    /// Creates a JSONPATH value from its binary payload.
    pub fn new(bytes: Vec<u8>) -> (r: MySqlJsonPath)
        ensures
            r@ == bytes@,
    {
        MySqlJsonPath(bytes)
    }

    /// Returns the binary payload.
    pub fn as_bytes(&self) -> (r: &[u8])
        ensures
            r@ == self@,
    {
        self.0.as_slice()
    }

    /// Consumes this JSONPATH value and returns its binary payload.
    pub fn into_bytes(self) -> (r: Vec<u8>)
        ensures
            r@ == self@,
    {
        self.0
    }
}

/// A KingbaseES Oracle-compatible `pg_catalog.rowid` value.
///
/// The protocol represents this value in binary form; [`OracleRowId::as_bytes`]
/// inspects the opaque server-generated value.
#[derive(Debug, PartialEq, Eq, Hash)]
pub struct OracleRowId(Vec<u8>);

impl Clone for OracleRowId {
    /// A copy with the same bytes.
    fn clone(&self) -> (r: Self)
        ensures
            r@ == self@,
    {
        OracleRowId(crate::wire::bytes_to_vec(self.0.as_slice()))
    }
}

impl View for OracleRowId {
    type V = Seq<u8>;

    closed spec fn view(&self) -> Seq<u8> {
        self.0@
    }
}

impl OracleRowId {
    /// Creates an Oracle ROWID from its binary payload.
    pub fn new(bytes: Vec<u8>) -> (r: OracleRowId)
        ensures
            r@ == bytes@,
    {
        OracleRowId(bytes)
    }

    /// Returns the binary payload.
    pub fn as_bytes(&self) -> (r: &[u8])
        ensures
            r@ == self@,
    {
        self.0.as_slice()
    }

    /// Consumes this ROWID and returns its binary payload.
    pub fn into_bytes(self) -> (r: Vec<u8>)
        ensures
            r@ == self@,
    {
        self.0
    }
}

/// A KingbaseES Oracle-compatible `sys.yminterval` value.
#[derive(Debug, Copy, Clone, PartialEq, Eq, PartialOrd, Ord, Hash, Structural)]
pub struct OracleYmInterval {
    months: i32,
}

impl OracleYmInterval {
    /// Creates a YEAR TO MONTH interval from its total number of months.
    pub fn new(months: i32) -> (r: OracleYmInterval)
        ensures
            r.months() == months,
    {
        OracleYmInterval { months }
    }

    /// The interval's total number of months.
    pub closed spec fn spec_months(self) -> i32 {
        self.months
    }

    /// Returns the interval's total number of months.
    #[verifier::when_used_as_spec(spec_months)]
    pub fn months(self) -> (r: i32)
        ensures
            r == self.spec_months(),
    {
        self.months
    }
}

/// A KingbaseES Oracle-compatible `sys.dsinterval` value.
#[derive(Debug, Copy, Clone, PartialEq, Eq, PartialOrd, Ord, Hash, Structural)]
pub struct OracleDsInterval {
    days: i32,
    nanoseconds: i64,
}

impl OracleDsInterval {
    /// Creates a DAY TO SECOND interval from whole days and sub-day nanoseconds.
    pub fn new(days: i32, nanoseconds: i64) -> (r: OracleDsInterval)
        ensures
            r.days() == days,
            r.nanoseconds() == nanoseconds,
    {
        OracleDsInterval { days, nanoseconds }
    }

    /// The interval's whole-day component.
    pub closed spec fn spec_days(self) -> i32 {
        self.days
    }

    /// The interval's sub-day component in nanoseconds.
    pub closed spec fn spec_nanoseconds(self) -> i64 {
        self.nanoseconds
    }

    /// Returns the interval's whole-day component.
    #[verifier::when_used_as_spec(spec_days)]
    pub fn days(self) -> (r: i32)
        ensures
            r == self.spec_days(),
    {
        self.days
    }

    /// Returns the interval's sub-day component in nanoseconds.
    #[verifier::when_used_as_spec(spec_nanoseconds)]
    pub fn nanoseconds(self) -> (r: i64)
        ensures
            r == self.spec_nanoseconds(),
    {
        self.nanoseconds
    }
}

/// An `INTERVAL` value.
///
/// Intervals retain independent microsecond, day, and month components. This
/// representation preserves those components without converting calendar
/// units into a fixed duration.
#[derive(Debug, Copy, Clone, PartialEq, Eq, PartialOrd, Ord, Hash, Structural)]
pub struct Interval {
    microseconds: i64,
    days: i32,
    months: i32,
}

impl Interval {
    /// Creates an interval from its microsecond, day, and month components.
    pub fn new(microseconds: i64, days: i32, months: i32) -> (r: Interval)
        ensures
            r.microseconds() == microseconds,
            r.days() == days,
            r.months() == months,
    {
        Interval { microseconds, days, months }
    }

    /// The microsecond component.
    pub closed spec fn spec_microseconds(self) -> i64 {
        self.microseconds
    }

    /// The day component.
    pub closed spec fn spec_days(self) -> i32 {
        self.days
    }

    /// The month component.
    pub closed spec fn spec_months(self) -> i32 {
        self.months
    }

    /// Returns the microsecond component.
    #[verifier::when_used_as_spec(spec_microseconds)]
    pub fn microseconds(self) -> (r: i64)
        ensures
            r == self.spec_microseconds(),
    {
        self.microseconds
    }

    /// Returns the day component.
    #[verifier::when_used_as_spec(spec_days)]
    pub fn days(self) -> (r: i32)
        ensures
            r == self.spec_days(),
    {
        self.days
    }

    /// Returns the month component.
    #[verifier::when_used_as_spec(spec_months)]
    pub fn months(self) -> (r: i32)
        ensures
            r == self.spec_months(),
    {
        self.months
    }
}

/// A KingbaseES SQL Server-compatible `sys.datetime2` value.
///
/// The wire protocol stores the value as signed 100-nanosecond ticks relative
/// to `2000-01-01 00:00:00`.
#[derive(Debug, Copy, Clone, PartialEq, Eq, PartialOrd, Ord, Hash, Structural)]
pub struct SqlServerDateTime2 {
    ticks: i64,
}

impl SqlServerDateTime2 {
    /// The number of DATETIME2 ticks in one second.
    pub const TICKS_PER_SECOND: i64 = 10_000_000;

    /// Creates a DATETIME2 value from signed 100-nanosecond ticks relative to
    /// `2000-01-01 00:00:00`.
    pub fn new(ticks: i64) -> (r: SqlServerDateTime2)
        ensures
            r.ticks() == ticks,
    {
        SqlServerDateTime2 { ticks }
    }

    /// The signed 100-nanosecond ticks relative to `2000-01-01 00:00:00`.
    pub closed spec fn spec_ticks(self) -> i64 {
        self.ticks
    }

    /// Returns the signed 100-nanosecond ticks relative to `2000-01-01 00:00:00`.
    #[verifier::when_used_as_spec(spec_ticks)]
    pub fn ticks(self) -> (r: i64)
        ensures
            r == self.spec_ticks(),
    {
        self.ticks
    }
}

/// The number of TIME ticks in one day.
pub open spec fn ticks_per_day() -> int {
    864_000_000_000int
}

/// A KingbaseES SQL Server-compatible `sys.time` value.
///
/// The wire protocol stores the value as 100-nanosecond ticks since midnight.
#[derive(Debug, Copy, Clone, PartialEq, Eq, PartialOrd, Ord, Hash, Structural)]
pub struct SqlServerTime {
    ticks: i64,
}

impl SqlServerTime {
    /// The number of TIME ticks in one second.
    pub const TICKS_PER_SECOND: i64 = 10_000_000;

    const TICKS_PER_DAY: i64 = 864_000_000_000;

    /// The tick count lies within one day.
    #[verifier::type_invariant]
    closed spec fn within_day(self) -> bool {
        0 <= self.ticks < ticks_per_day()
    }

    /// Creates a TIME value from 100-nanosecond ticks since midnight; ticks
    /// outside one day are rejected.
    pub fn new(ticks: i64) -> (r: Result<SqlServerTime, SqlServerTimeError>)
        ensures
            r is Ok <==> 0 <= ticks < ticks_per_day(),
            r matches Ok(v) ==> v.ticks() == ticks,
            r matches Err(e) ==> e.ticks() == ticks,
    {
        if !(0 <= ticks && ticks < Self::TICKS_PER_DAY) {
            return Err(SqlServerTimeError::of(ticks));
        }
        Ok(SqlServerTime { ticks })
    }

    /// The 100-nanosecond ticks since midnight.
    pub closed spec fn spec_ticks(self) -> i64 {
        self.ticks
    }

    /// Returns the 100-nanosecond ticks since midnight, which lie within one day.
    #[verifier::when_used_as_spec(spec_ticks)]
    pub fn ticks(self) -> (r: i64)
        ensures
            r == self.spec_ticks(),
            0 <= r < ticks_per_day(),
    {
        proof {
            use_type_invariant(self);
        }
        self.ticks
    }

}

/// A KingbaseES SQL Server-compatible `sys.money` value.
///
/// The wire protocol stores the value as a signed integer scaled by 10,000.
/// This type preserves that exact scaled representation.
#[derive(Debug, Copy, Clone, PartialEq, Eq, PartialOrd, Ord, Hash, Structural)]
pub struct SqlServerMoney {
    scaled_value: i64,
}

impl SqlServerMoney {
    /// The number of stored units in one monetary unit.
    pub const SCALE: i64 = 10_000;

    /// Creates a MONEY value from its exact scaled integer representation.
    pub fn new(scaled_value: i64) -> (r: SqlServerMoney)
        ensures
            r.scaled_value() == scaled_value,
    {
        SqlServerMoney { scaled_value }
    }

    /// The exact integer scaled by [`SqlServerMoney::SCALE`].
    pub closed spec fn spec_scaled_value(self) -> i64 {
        self.scaled_value
    }

    /// Returns the exact integer scaled by [`SqlServerMoney::SCALE`].
    #[verifier::when_used_as_spec(spec_scaled_value)]
    pub fn scaled_value(self) -> (r: i64)
        ensures
            r == self.spec_scaled_value(),
    {
        self.scaled_value
    }
}

/// A KingbaseES SQL Server-compatible `sys.rowversion` value.
///
/// ROWVERSION is a server-generated, opaque eight-byte version token. It can
/// be supplied in comparison parameters but is not generated by this driver.
#[derive(Debug, Copy, Clone, PartialEq, Eq, PartialOrd, Ord, Hash)]
pub struct SqlServerRowVersion([u8; 8]);

impl View for SqlServerRowVersion {
    type V = Seq<u8>;

    closed spec fn view(&self) -> Seq<u8> {
        self.0@
    }
}

impl SqlServerRowVersion {
    /// Creates a ROWVERSION value from its exact payload.
    pub fn new(bytes: [u8; 8]) -> (r: SqlServerRowVersion)
        ensures
            r@ == bytes@,
    {
        SqlServerRowVersion(bytes)
    }

    /// Returns the exact server-generated version bytes.
    pub fn as_bytes(&self) -> (r: &[u8; 8])
        ensures
            r@ == self@,
    {
        &self.0
    }

    /// Consumes this value and returns the exact server-generated version bytes.
    pub fn into_bytes(self) -> (r: [u8; 8])
        ensures
            r@ == self@,
    {
        self.0
    }
}

/// A KingbaseES SQL Server-compatible `sys.sql_variant` value.
///
/// SQL_VARIANT includes server-defined type metadata in its binary payload.
/// Obtain this opaque payload from KingbaseES before binding it again; this
/// type does not convert Rust strings or numbers into SQL_VARIANT.
#[derive(Debug, PartialEq, Eq, Hash)]
pub struct SqlServerVariant(Vec<u8>);

impl Clone for SqlServerVariant {
    /// A copy with the same bytes.
    fn clone(&self) -> (r: Self)
        ensures
            r@ == self@,
    {
        SqlServerVariant(crate::wire::bytes_to_vec(self.0.as_slice()))
    }
}

impl View for SqlServerVariant {
    type V = Seq<u8>;

    closed spec fn view(&self) -> Seq<u8> {
        self.0@
    }
}

impl SqlServerVariant {
    /// Creates a SQL_VARIANT value from its binary payload.
    pub fn new(bytes: Vec<u8>) -> (r: SqlServerVariant)
        ensures
            r@ == bytes@,
    {
        SqlServerVariant(bytes)
    }

    /// Returns the server-defined binary payload.
    pub fn as_bytes(&self) -> (r: &[u8])
        ensures
            r@ == self@,
    {
        self.0.as_slice()
    }

    /// Consumes this value and returns its binary payload.
    pub fn into_bytes(self) -> (r: Vec<u8>)
        ensures
            r@ == self@,
    {
        self.0
    }
}

/// The largest magnitude MySQL TIME duration, in microseconds.
pub open spec fn mysql_time_max_micros() -> int {
    3_020_399_999_999
}

/// A KingbaseES MySQL-compatible `sys.time` duration.
///
/// MySQL TIME is a signed duration rather than a time of day. Its valid range
/// is `-838:59:59.999999` through `838:59:59.999999`.
#[derive(Debug, Copy, Clone, PartialEq, Eq, PartialOrd, Ord, Hash, Structural)]
pub struct MySqlTime {
    micros: i64,
}

impl MySqlTime {
    /// The largest magnitude MySQL TIME duration, in microseconds.
    pub const MAX_MICROS: i64 = 3_020_399_999_999;

    /// The duration lies within the supported range.
    #[verifier::type_invariant]
    closed spec fn in_range(self) -> bool {
        -mysql_time_max_micros() <= self.micros <= mysql_time_max_micros()
    }

    /// Creates a MySQL TIME duration from signed microseconds; durations
    /// outside the supported range are rejected.
    pub fn new(micros: i64) -> (r: Result<MySqlTime, MySqlTimeError>)
        ensures
            r is Ok <==> -mysql_time_max_micros() <= micros <= mysql_time_max_micros(),
            r matches Ok(v) ==> v.micros() == micros,
            r matches Err(e) ==> e.micros() == micros,
    {
        if !(-Self::MAX_MICROS <= micros && micros <= Self::MAX_MICROS) {
            return Err(MySqlTimeError::of(micros));
        }
        Ok(MySqlTime { micros })
    }

    /// The signed duration in microseconds.
    pub closed spec fn spec_micros(self) -> i64 {
        self.micros
    }

    /// Returns the signed duration in microseconds, which lies within the
    /// supported range.
    #[verifier::when_used_as_spec(spec_micros)]
    pub fn micros(self) -> (r: i64)
        ensures
            r == self.spec_micros(),
            -mysql_time_max_micros() <= r <= mysql_time_max_micros(),
    {
        proof {
            use_type_invariant(self);
        }
        self.micros
    }

}

/// Whether `ty` has the OID, name and schema of the built-in type `b` and a
/// simple kind.
pub open spec fn has_identity_of(ty: TypeView, b: Builtin) -> bool {
    &&& ty.oid == builtin_oid(b)
    &&& ty.name == builtin_name(b)
    &&& ty.schema == builtin_schema(b)
    &&& ty.kind is Simple
}

/// Whether `ty` has the OID, name and schema of the built-in type `b` and a
/// simple kind.
pub fn has_identity(ty: &Type, b: Builtin) -> (r: bool)
    ensures
        r == has_identity_of(ty@, b),
{
    ty.oid() == b.oid() && str_equal(ty.name(), b.name()) && str_equal(ty.schema(), b.schema())
        && matches!(ty.kind(), Kind::Simple)
}

/// Whether `ty` is the built-in type `b`.
pub open spec fn is_builtin(ty: TypeView, b: Builtin) -> bool {
    ty.builtin == Some(b)
}

fn accepts_mysql_jsonpath(ty: &Type) -> (r: bool)
    ensures
        r == is_builtin(ty@, Builtin::Jsonpath),
{
    ty.is(Builtin::Jsonpath)
}

fn accepts_oracle_rowid(ty: &Type) -> (r: bool)
    ensures
        r == has_identity_of(ty@, Builtin::OracleRowid),
{
    has_identity(ty, Builtin::OracleRowid)
}

fn accepts_oracle_yminterval(ty: &Type) -> (r: bool)
    ensures
        r == has_identity_of(ty@, Builtin::OracleYminterval),
{
    has_identity(ty, Builtin::OracleYminterval)
}

fn accepts_oracle_dsinterval(ty: &Type) -> (r: bool)
    ensures
        r == has_identity_of(ty@, Builtin::OracleDsinterval),
{
    has_identity(ty, Builtin::OracleDsinterval)
}

fn accepts_sqlserver_datetime2(ty: &Type) -> (r: bool)
    ensures
        r == is_builtin(ty@, Builtin::SqlserverDatetime2),
{
    ty.is(Builtin::SqlserverDatetime2)
}

fn accepts_sqlserver_time(ty: &Type) -> (r: bool)
    ensures
        r == is_builtin(ty@, Builtin::SqlserverSysTime),
{
    ty.is(Builtin::SqlserverSysTime)
}

fn accepts_sqlserver_money(ty: &Type) -> (r: bool)
    ensures
        r == is_builtin(ty@, Builtin::SqlserverSysMoney),
{
    ty.is(Builtin::SqlserverSysMoney)
}

fn accepts_sqlserver_rowversion(ty: &Type) -> (r: bool)
    ensures
        r == is_builtin(ty@, Builtin::SqlserverRowversion),
{
    ty.is(Builtin::SqlserverRowversion)
}

fn accepts_sqlserver_variant(ty: &Type) -> (r: bool)
    ensures
        r == is_builtin(ty@, Builtin::SqlserverSqlVariant),
{
    ty.is(Builtin::SqlserverSqlVariant)
}

fn accepts_sqlserver_tinyint(ty: &Type) -> (r: bool)
    ensures
        r == is_builtin(ty@, Builtin::SqlserverTinyint),
{
    ty.is(Builtin::SqlserverTinyint)
}

/// The signed integer that an eight-byte payload holds, or `None` for a
/// payload of another length.
pub open spec fn fixed_i64(s: Seq<u8>) -> Option<int> {
    if s.len() == 8 {
        Some(be_signed(s))
    } else {
        None
    }
}

/// Decodes the eight-byte big-endian payload of a fixed-width type.
pub fn decode_sqlserver_i64(raw: &[u8], width: FixedWidth) -> (r: Result<i64, SqlError>)
    ensures
        match r {
            Ok(v) => fixed_i64(raw@) == Some(v as int),
            Err(e) => fixed_i64(raw@) is None && e == (SqlError::InvalidLength { width, actual: raw@.len() as usize }),
        },
{
    if raw.len() != 8 {
        return Err(SqlError::InvalidLength { width, actual: raw.len() });
    }
    proof {
        assert(raw@.subrange(0, 8) =~= raw@);
    }
    Ok(read_be_i64(raw, 0))
}

/// Appends the eight-byte big-endian encoding of `value`.
pub fn encode_sqlserver_i64(value: i64, out: &mut BytesMut)
    requires
        buffer_bytes(*old(out)).len() + 8 <= isize::MAX,
    ensures
        buffer_bytes(*final(out)) == buffer_bytes(*old(out)) + signed_bytes(value as int, 8),
{
    put_i64(out, value);
}

/// The microsecond or nanosecond, day and month parts of a sixteen-byte
/// interval payload, or `None` for a payload of another length.
pub open spec fn interval_parts(s: Seq<u8>) -> Option<(int, int, int)> {
    if s.len() == 16 {
        Some((be_signed(s.subrange(0, 8)), be_signed(s.subrange(8, 12)), be_signed(s.subrange(12, 16))))
    } else {
        None
    }
}

/// The sixteen-byte payload of an interval with the given parts.
pub open spec fn interval_bytes(time: int, days: int, months: int) -> Seq<u8> {
    signed_bytes(time, 8) + signed_bytes(days, 4) + signed_bytes(months, 4)
}

/// Decodes the three parts of a sixteen-byte interval payload.
pub fn decode_interval(raw: &[u8]) -> (r: Result<(i64, i32, i32), OracleIntervalError>)
    ensures
        match r {
            Ok((t, d, m)) => interval_parts(raw@) == Some((t as int, d as int, m as int)),
            Err(e) => interval_parts(raw@) is None
                && e == (OracleIntervalError::InvalidWireLength { actual: raw@.len() as usize }),
        },
{
    if raw.len() != 16 {
        return Err(OracleIntervalError::InvalidWireLength { actual: raw.len() });
    }
    let time = read_be_i64(raw, 0);
    let days = read_be_i32(raw, 8);
    let months = read_be_i32(raw, 12);
    Ok((time, days, months))
}

/// Appends the sixteen-byte payload of an interval.
pub fn encode_interval(time: i64, days: i32, months: i32, out: &mut BytesMut)
    requires
        buffer_bytes(*old(out)).len() + 16 <= isize::MAX,
    ensures
        buffer_bytes(*final(out)) == buffer_bytes(*old(out)) + interval_bytes(time as int, days as int, months as int),
{
    proof {
        lemma_i64_round_trip(time);
        lemma_i32_round_trip(days);
    }
    put_i64(out, time);
    put_i32(out, days);
    put_i32(out, months);
    proof {
        assert(buffer_bytes(*out) =~= buffer_bytes(*old(out)) + interval_bytes(time as int, days as int, months as int));
    }
}

/// Decoding the payload of an interval gives its parts back.
pub proof fn law_interval_round_trip(time: i64, days: i32, months: i32)
    ensures
        interval_parts(interval_bytes(time as int, days as int, months as int))
            == Some((time as int, days as int, months as int)),
{
    lemma_i64_round_trip(time);
    lemma_i32_round_trip(days);
    lemma_i32_round_trip(months);
    let s = interval_bytes(time as int, days as int, months as int);
    assert(s.subrange(0, 8) =~= signed_bytes(time as int, 8));
    assert(s.subrange(8, 12) =~= signed_bytes(days as int, 4));
    assert(s.subrange(12, 16) =~= signed_bytes(months as int, 4));
}

/// The value that a YEAR TO MONTH payload decodes to: its months, or the
/// error that rejects it.
pub open spec fn ym_interval_decoding(s: Seq<u8>) -> Result<int, OracleIntervalError> {
    match interval_parts(s) {
        None => Err(OracleIntervalError::InvalidWireLength { actual: s.len() as usize }),
        Some((t, d, m)) => if t != 0 || d != 0 {
            Err(OracleIntervalError::YearMonthContainsDayOrTime { nanoseconds: t as i64, days: d as i32 })
        } else {
            Ok(m)
        },
    }
}

/// The value that a DAY TO SECOND payload decodes to: its days and
/// nanoseconds, or the error that rejects it.
pub open spec fn ds_interval_decoding(s: Seq<u8>) -> Result<(int, int), OracleIntervalError> {
    match interval_parts(s) {
        None => Err(OracleIntervalError::InvalidWireLength { actual: s.len() as usize }),
        Some((t, d, m)) => if m != 0 {
            Err(OracleIntervalError::DaySecondContainsMonths { months: m as i32 })
        } else {
            Ok((d, t))
        },
    }
}

impl<'a> FromSql<'a> for OracleRowId {
    open spec fn accepted(ty: TypeView) -> bool {
        has_identity_of(ty, Builtin::OracleRowid)
    }

    open spec fn decodes(ty: TypeView, raw: Option<Seq<u8>>, v: Self) -> bool {
        raw matches Some(b) && v@ == b
    }

    open spec fn decodes_ok(ty: TypeView, raw: Seq<u8>) -> bool {
        true
    }

    fn from_sql(ty: &Type, raw: &'a [u8]) -> (r: Result<OracleRowId, SqlError>)
        ensures
            r matches Ok(v) && v@ == raw@,
    {
        Ok(OracleRowId(bytes_to_vec(raw)))
    }

    fn accepts(ty: &Type) -> (r: bool) {
        accepts_oracle_rowid(ty)
    }
}

impl ToSql for OracleRowId {
    open spec fn accepted(ty: TypeView) -> bool {
        has_identity_of(ty, Builtin::OracleRowid)
    }

    open spec fn encoded_len(&self) -> nat {
        self@.len()
    }

    open spec fn format_for(&self, ty: TypeView) -> Format {
        Format::Binary
    }

    open spec fn encodes(&self, ty: TypeView, w: Seq<u8>, null: IsNull) -> bool {
        null == IsNull::No && w == self@
    }

    fn to_sql(&self, ty: &Type, out: &mut BytesMut) -> (r: Result<IsNull, SqlError>)
        ensures
            r matches Ok(rv) && rv == IsNull::No,
            buffer_bytes(*final(out)) == buffer_bytes(*old(out)) + self@,
    {
        extend_from_slice(out, self.0.as_slice());
        Ok(IsNull::No)
    }

    fn accepts(ty: &Type) -> (r: bool) {
        accepts_oracle_rowid(ty)
    }

    fn rust_name() -> &'static str {
        "kingbase_types::kingbase::OracleRowId"
    }

    fn encode_format(&self, ty: &Type) -> (r: Format) {
        Format::Binary
    }
}

impl<'a> FromSql<'a> for MySqlJsonPath {
    open spec fn accepted(ty: TypeView) -> bool {
        is_builtin(ty, Builtin::Jsonpath)
    }

    open spec fn decodes(ty: TypeView, raw: Option<Seq<u8>>, v: Self) -> bool {
        raw matches Some(b) && v@ == b
    }

    open spec fn decodes_ok(ty: TypeView, raw: Seq<u8>) -> bool {
        true
    }

    fn from_sql(ty: &Type, raw: &'a [u8]) -> (r: Result<MySqlJsonPath, SqlError>)
        ensures
            r matches Ok(v) && v@ == raw@,
    {
        Ok(MySqlJsonPath::new(bytes_to_vec(raw)))
    }

    fn accepts(ty: &Type) -> (r: bool) {
        accepts_mysql_jsonpath(ty)
    }
}

impl ToSql for MySqlJsonPath {
    open spec fn accepted(ty: TypeView) -> bool {
        is_builtin(ty, Builtin::Jsonpath)
    }

    open spec fn encoded_len(&self) -> nat {
        self@.len()
    }

    open spec fn format_for(&self, ty: TypeView) -> Format {
        Format::Binary
    }

    open spec fn encodes(&self, ty: TypeView, w: Seq<u8>, null: IsNull) -> bool {
        null == IsNull::No && w == self@
    }

    fn to_sql(&self, ty: &Type, out: &mut BytesMut) -> (r: Result<IsNull, SqlError>)
        ensures
            r matches Ok(rv) && rv == IsNull::No,
            buffer_bytes(*final(out)) == buffer_bytes(*old(out)) + self@,
    {
        extend_from_slice(out, self.0.as_slice());
        Ok(IsNull::No)
    }

    fn accepts(ty: &Type) -> (r: bool) {
        accepts_mysql_jsonpath(ty)
    }

    fn rust_name() -> &'static str {
        "kingbase_types::kingbase::MySqlJsonPath"
    }

    fn encode_format(&self, ty: &Type) -> (r: Format) {
        Format::Binary
    }
}

impl<'a> FromSql<'a> for OracleYmInterval {
    open spec fn accepted(ty: TypeView) -> bool {
        has_identity_of(ty, Builtin::OracleYminterval)
    }

    open spec fn decodes(ty: TypeView, raw: Option<Seq<u8>>, v: Self) -> bool {
        raw matches Some(b) && ym_interval_decoding(b) matches Ok(m) && v.months() == m
    }

    open spec fn decodes_ok(ty: TypeView, raw: Seq<u8>) -> bool {
        ym_interval_decoding(raw) is Ok
    }

    fn from_sql(ty: &Type, raw: &'a [u8]) -> (r: Result<OracleYmInterval, SqlError>)
        ensures
            match ym_interval_decoding(raw@) {
                Ok(m) => r matches Ok(v) && v.months() == m,
                Err(e) => r matches Err(re) && re == SqlError::OracleInterval(e),
            },
    {
        let (nanoseconds, days, months) = match decode_interval(raw) {
            Ok(parts) => parts,
            Err(e) => return Err(SqlError::OracleInterval(e)),
        };
        if nanoseconds != 0 || days != 0 {
            return Err(SqlError::OracleInterval(
                OracleIntervalError::YearMonthContainsDayOrTime { nanoseconds, days },
            ));
        }
        Ok(OracleYmInterval::new(months))
    }

    fn accepts(ty: &Type) -> (r: bool) {
        accepts_oracle_yminterval(ty)
    }
}

impl ToSql for OracleYmInterval {
    open spec fn accepted(ty: TypeView) -> bool {
        has_identity_of(ty, Builtin::OracleYminterval)
    }

    open spec fn encoded_len(&self) -> nat {
        16
    }

    open spec fn format_for(&self, ty: TypeView) -> Format {
        Format::Binary
    }

    open spec fn encodes(&self, ty: TypeView, w: Seq<u8>, null: IsNull) -> bool {
        null == IsNull::No && w == interval_bytes(0, 0, self.months() as int)
    }

    fn to_sql(&self, ty: &Type, out: &mut BytesMut) -> (r: Result<IsNull, SqlError>)
        ensures
            r matches Ok(rv) && rv == IsNull::No,
            buffer_bytes(*final(out)) == buffer_bytes(*old(out)) + interval_bytes(0, 0, self.months() as int),
    {
        encode_interval(0, 0, self.months, out);
        Ok(IsNull::No)
    }

    fn accepts(ty: &Type) -> (r: bool) {
        accepts_oracle_yminterval(ty)
    }

    fn rust_name() -> &'static str {
        "kingbase_types::kingbase::OracleYmInterval"
    }

    fn encode_format(&self, ty: &Type) -> (r: Format) {
        Format::Binary
    }
}

impl<'a> FromSql<'a> for OracleDsInterval {
    open spec fn accepted(ty: TypeView) -> bool {
        has_identity_of(ty, Builtin::OracleDsinterval)
    }

    open spec fn decodes(ty: TypeView, raw: Option<Seq<u8>>, v: Self) -> bool {
        raw matches Some(b) && ds_interval_decoding(b) matches Ok((d, t)) && v.days() == d
            && v.nanoseconds() == t
    }

    open spec fn decodes_ok(ty: TypeView, raw: Seq<u8>) -> bool {
        ds_interval_decoding(raw) is Ok
    }

    fn from_sql(ty: &Type, raw: &'a [u8]) -> (r: Result<OracleDsInterval, SqlError>)
        ensures
            match ds_interval_decoding(raw@) {
                Ok((d, t)) => r matches Ok(v) && v.days() == d && v.nanoseconds() == t,
                Err(e) => r matches Err(re) && re == SqlError::OracleInterval(e),
            },
    {
        let (nanoseconds, days, months) = match decode_interval(raw) {
            Ok(parts) => parts,
            Err(e) => return Err(SqlError::OracleInterval(e)),
        };
        if months != 0 {
            return Err(SqlError::OracleInterval(
                OracleIntervalError::DaySecondContainsMonths { months },
            ));
        }
        Ok(OracleDsInterval::new(days, nanoseconds))
    }

    fn accepts(ty: &Type) -> (r: bool) {
        accepts_oracle_dsinterval(ty)
    }
}

impl ToSql for OracleDsInterval {
    open spec fn accepted(ty: TypeView) -> bool {
        has_identity_of(ty, Builtin::OracleDsinterval)
    }

    open spec fn encoded_len(&self) -> nat {
        16
    }

    open spec fn format_for(&self, ty: TypeView) -> Format {
        Format::Binary
    }

    open spec fn encodes(&self, ty: TypeView, w: Seq<u8>, null: IsNull) -> bool {
        null == IsNull::No && w == interval_bytes(self.nanoseconds() as int, self.days() as int, 0)
    }

    fn to_sql(&self, ty: &Type, out: &mut BytesMut) -> (r: Result<IsNull, SqlError>)
        ensures
            r matches Ok(rv) && rv == IsNull::No,
            buffer_bytes(*final(out)) == buffer_bytes(*old(out)) + interval_bytes(
                self.nanoseconds() as int,
                self.days() as int,
                0,
            ),
    {
        encode_interval(self.nanoseconds, self.days, 0, out);
        Ok(IsNull::No)
    }

    fn accepts(ty: &Type) -> (r: bool) {
        accepts_oracle_dsinterval(ty)
    }

    fn rust_name() -> &'static str {
        "kingbase_types::kingbase::OracleDsInterval"
    }

    fn encode_format(&self, ty: &Type) -> (r: Format) {
        Format::Binary
    }
}

impl<'a> FromSql<'a> for Interval {
    open spec fn accepted(ty: TypeView) -> bool {
        is_builtin(ty, Builtin::Interval)
    }

    open spec fn decodes(ty: TypeView, raw: Option<Seq<u8>>, v: Self) -> bool {
        raw matches Some(b) && interval_parts(b) matches Some((t, d, m)) && v.microseconds() == t
            && v.days() == d && v.months() == m
    }

    open spec fn decodes_ok(ty: TypeView, raw: Seq<u8>) -> bool {
        interval_parts(raw) is Some
    }

    fn from_sql(ty: &Type, raw: &'a [u8]) -> (r: Result<Interval, SqlError>)
        ensures
            match interval_parts(raw@) {
                Some((t, d, m)) => r matches Ok(v) && v.microseconds() == t && v.days() == d
                    && v.months() == m,
                None => r matches Err(re) && re == SqlError::OracleInterval(
                    OracleIntervalError::InvalidWireLength { actual: raw@.len() as usize },
                ),
            },
    {
        let (microseconds, days, months) = match decode_interval(raw) {
            Ok(parts) => parts,
            Err(e) => return Err(SqlError::OracleInterval(e)),
        };
        Ok(Interval::new(microseconds, days, months))
    }

    fn accepts(ty: &Type) -> (r: bool) {
        ty.is(Builtin::Interval)
    }
}

impl ToSql for Interval {
    open spec fn accepted(ty: TypeView) -> bool {
        is_builtin(ty, Builtin::Interval)
    }

    open spec fn encoded_len(&self) -> nat {
        16
    }

    open spec fn format_for(&self, ty: TypeView) -> Format {
        Format::Binary
    }

    open spec fn encodes(&self, ty: TypeView, w: Seq<u8>, null: IsNull) -> bool {
        null == IsNull::No && w == interval_bytes(
            self.microseconds() as int,
            self.days() as int,
            self.months() as int,
        )
    }

    fn to_sql(&self, ty: &Type, out: &mut BytesMut) -> (r: Result<IsNull, SqlError>)
        ensures
            r matches Ok(rv) && rv == IsNull::No,
            buffer_bytes(*final(out)) == buffer_bytes(*old(out)) + interval_bytes(
                self.microseconds() as int,
                self.days() as int,
                self.months() as int,
            ),
    {
        encode_interval(self.microseconds, self.days, self.months, out);
        Ok(IsNull::No)
    }

    fn accepts(ty: &Type) -> (r: bool) {
        ty.is(Builtin::Interval)
    }

    fn rust_name() -> &'static str {
        "kingbase_types::kingbase::Interval"
    }

    fn encode_format(&self, ty: &Type) -> (r: Format) {
        Format::Binary
    }
}

impl<'a> FromSql<'a> for SqlServerDateTime2 {
    open spec fn accepted(ty: TypeView) -> bool {
        is_builtin(ty, Builtin::SqlserverDatetime2)
    }

    open spec fn decodes(ty: TypeView, raw: Option<Seq<u8>>, v: Self) -> bool {
        raw matches Some(b) && fixed_i64(b) matches Some(t) && v.ticks() == t
    }

    open spec fn decodes_ok(ty: TypeView, raw: Seq<u8>) -> bool {
        fixed_i64(raw) is Some
    }

    fn from_sql(ty: &Type, raw: &'a [u8]) -> (r: Result<SqlServerDateTime2, SqlError>)
        ensures
            match fixed_i64(raw@) {
                Some(t) => r matches Ok(v) && v.ticks() == t,
                None => r matches Err(re) && re == (SqlError::InvalidLength {
                    width: FixedWidth::SqlServerDateTime2,
                    actual: raw@.len() as usize,
                }),
            },
    {
        match decode_sqlserver_i64(raw, FixedWidth::SqlServerDateTime2) {
            Ok(ticks) => Ok(SqlServerDateTime2::new(ticks)),
            Err(e) => Err(e),
        }
    }

    fn accepts(ty: &Type) -> (r: bool) {
        accepts_sqlserver_datetime2(ty)
    }
}

impl ToSql for SqlServerDateTime2 {
    open spec fn accepted(ty: TypeView) -> bool {
        is_builtin(ty, Builtin::SqlserverDatetime2)
    }

    open spec fn encoded_len(&self) -> nat {
        8
    }

    open spec fn format_for(&self, ty: TypeView) -> Format {
        Format::Binary
    }

    open spec fn encodes(&self, ty: TypeView, w: Seq<u8>, null: IsNull) -> bool {
        null == IsNull::No && w == signed_bytes(self.ticks() as int, 8)
    }

    fn to_sql(&self, ty: &Type, out: &mut BytesMut) -> (r: Result<IsNull, SqlError>)
        ensures
            r matches Ok(rv) && rv == IsNull::No,
            buffer_bytes(*final(out)) == buffer_bytes(*old(out)) + signed_bytes(self.ticks() as int, 8),
    {
        encode_sqlserver_i64(self.ticks, out);
        Ok(IsNull::No)
    }

    fn accepts(ty: &Type) -> (r: bool) {
        accepts_sqlserver_datetime2(ty)
    }

    fn rust_name() -> &'static str {
        "kingbase_types::kingbase::SqlServerDateTime2"
    }

    fn encode_format(&self, ty: &Type) -> (r: Format) {
        Format::Binary
    }
}

impl<'a> FromSql<'a> for SqlServerTime {
    open spec fn accepted(ty: TypeView) -> bool {
        is_builtin(ty, Builtin::SqlserverSysTime)
    }

    open spec fn decodes(ty: TypeView, raw: Option<Seq<u8>>, v: Self) -> bool {
        raw matches Some(b) && fixed_i64(b) matches Some(t) && v.ticks() == t
    }

    open spec fn decodes_ok(ty: TypeView, raw: Seq<u8>) -> bool {
        fixed_i64(raw) matches Some(t) && 0 <= t < ticks_per_day()
    }

    fn from_sql(ty: &Type, raw: &'a [u8]) -> (r: Result<SqlServerTime, SqlError>)
        ensures
            match fixed_i64(raw@) {
                Some(t) => if 0 <= t < ticks_per_day() {
                    r matches Ok(v) && v.ticks() == t
                } else {
                    r matches Err(SqlError::SqlServerTime(e)) && e.ticks() == t
                },
                None => r matches Err(re) && re == (SqlError::InvalidLength {
                    width: FixedWidth::SqlServerTime,
                    actual: raw@.len() as usize,
                }),
            },
    {
        match decode_sqlserver_i64(raw, FixedWidth::SqlServerTime) {
            Ok(ticks) => match SqlServerTime::new(ticks) {
                Ok(v) => Ok(v),
                Err(e) => Err(SqlError::SqlServerTime(e)),
            },
            Err(e) => Err(e),
        }
    }

    fn accepts(ty: &Type) -> (r: bool) {
        accepts_sqlserver_time(ty)
    }
}

impl ToSql for SqlServerTime {
    open spec fn accepted(ty: TypeView) -> bool {
        is_builtin(ty, Builtin::SqlserverSysTime)
    }

    open spec fn encoded_len(&self) -> nat {
        8
    }

    open spec fn format_for(&self, ty: TypeView) -> Format {
        Format::Binary
    }

    open spec fn encodes(&self, ty: TypeView, w: Seq<u8>, null: IsNull) -> bool {
        null == IsNull::No && w == signed_bytes(self.ticks() as int, 8)
    }

    fn to_sql(&self, ty: &Type, out: &mut BytesMut) -> (r: Result<IsNull, SqlError>)
        ensures
            r matches Ok(rv) && rv == IsNull::No,
            buffer_bytes(*final(out)) == buffer_bytes(*old(out)) + signed_bytes(self.ticks() as int, 8),
    {
        encode_sqlserver_i64(self.ticks, out);
        Ok(IsNull::No)
    }

    fn accepts(ty: &Type) -> (r: bool) {
        accepts_sqlserver_time(ty)
    }

    fn rust_name() -> &'static str {
        "kingbase_types::kingbase::SqlServerTime"
    }

    fn encode_format(&self, ty: &Type) -> (r: Format) {
        Format::Binary
    }
}

impl<'a> FromSql<'a> for SqlServerMoney {
    open spec fn accepted(ty: TypeView) -> bool {
        is_builtin(ty, Builtin::SqlserverSysMoney)
    }

    open spec fn decodes(ty: TypeView, raw: Option<Seq<u8>>, v: Self) -> bool {
        raw matches Some(b) && fixed_i64(b) matches Some(t) && v.scaled_value() == t
    }

    open spec fn decodes_ok(ty: TypeView, raw: Seq<u8>) -> bool {
        fixed_i64(raw) is Some
    }

    fn from_sql(ty: &Type, raw: &'a [u8]) -> (r: Result<SqlServerMoney, SqlError>)
        ensures
            match fixed_i64(raw@) {
                Some(t) => r matches Ok(v) && v.scaled_value() == t,
                None => r matches Err(re) && re == (SqlError::InvalidLength {
                    width: FixedWidth::SqlServerMoney,
                    actual: raw@.len() as usize,
                }),
            },
    {
        match decode_sqlserver_i64(raw, FixedWidth::SqlServerMoney) {
            Ok(v) => Ok(SqlServerMoney::new(v)),
            Err(e) => Err(e),
        }
    }

    fn accepts(ty: &Type) -> (r: bool) {
        accepts_sqlserver_money(ty)
    }
}

impl ToSql for SqlServerMoney {
    open spec fn accepted(ty: TypeView) -> bool {
        is_builtin(ty, Builtin::SqlserverSysMoney)
    }

    open spec fn encoded_len(&self) -> nat {
        8
    }

    open spec fn format_for(&self, ty: TypeView) -> Format {
        Format::Binary
    }

    open spec fn encodes(&self, ty: TypeView, w: Seq<u8>, null: IsNull) -> bool {
        null == IsNull::No && w == signed_bytes(self.scaled_value() as int, 8)
    }

    fn to_sql(&self, ty: &Type, out: &mut BytesMut) -> (r: Result<IsNull, SqlError>)
        ensures
            r matches Ok(rv) && rv == IsNull::No,
            buffer_bytes(*final(out)) == buffer_bytes(*old(out)) + signed_bytes(
                self.scaled_value() as int,
                8,
            ),
    {
        encode_sqlserver_i64(self.scaled_value, out);
        Ok(IsNull::No)
    }

    fn accepts(ty: &Type) -> (r: bool) {
        accepts_sqlserver_money(ty)
    }

    fn rust_name() -> &'static str {
        "kingbase_types::kingbase::SqlServerMoney"
    }

    fn encode_format(&self, ty: &Type) -> (r: Format) {
        Format::Binary
    }
}

impl<'a> FromSql<'a> for SqlServerRowVersion {
    open spec fn accepted(ty: TypeView) -> bool {
        is_builtin(ty, Builtin::SqlserverRowversion)
    }

    open spec fn decodes(ty: TypeView, raw: Option<Seq<u8>>, v: Self) -> bool {
        raw matches Some(b) && b.len() == 8 && v@ == b
    }

    open spec fn decodes_ok(ty: TypeView, raw: Seq<u8>) -> bool {
        raw.len() == 8
    }

    fn from_sql(ty: &Type, raw: &'a [u8]) -> (r: Result<SqlServerRowVersion, SqlError>)
        ensures
            raw@.len() == 8 ==> (r matches Ok(v) && v@ == raw@),
            raw@.len() != 8 ==> (r matches Err(re) && re == (SqlError::InvalidLength {
                width: FixedWidth::SqlServerRowVersion,
                actual: raw@.len() as usize,
            })),
    {
        if raw.len() != 8 {
            return Err(SqlError::InvalidLength { width: FixedWidth::SqlServerRowVersion, actual: raw.len() });
        }
        let bytes: [u8; 8] = [raw[0], raw[1], raw[2], raw[3], raw[4], raw[5], raw[6], raw[7]];
        proof {
            assert(bytes@ =~= raw@);
        }
        Ok(SqlServerRowVersion::new(bytes))
    }

    fn accepts(ty: &Type) -> (r: bool) {
        accepts_sqlserver_rowversion(ty)
    }
}

impl ToSql for SqlServerRowVersion {
    open spec fn accepted(ty: TypeView) -> bool {
        is_builtin(ty, Builtin::SqlserverRowversion)
    }

    open spec fn encoded_len(&self) -> nat {
        8
    }

    open spec fn format_for(&self, ty: TypeView) -> Format {
        Format::Binary
    }

    open spec fn encodes(&self, ty: TypeView, w: Seq<u8>, null: IsNull) -> bool {
        null == IsNull::No && w == self@
    }

    fn to_sql(&self, ty: &Type, out: &mut BytesMut) -> (r: Result<IsNull, SqlError>)
        ensures
            r matches Ok(rv) && rv == IsNull::No,
            buffer_bytes(*final(out)) == buffer_bytes(*old(out)) + self@,
    {
        extend_from_slice(out, self.0.as_slice());
        Ok(IsNull::No)
    }

    fn accepts(ty: &Type) -> (r: bool) {
        accepts_sqlserver_rowversion(ty)
    }

    fn rust_name() -> &'static str {
        "kingbase_types::kingbase::SqlServerRowVersion"
    }

    fn encode_format(&self, ty: &Type) -> (r: Format) {
        Format::Binary
    }
}

impl<'a> FromSql<'a> for SqlServerVariant {
    open spec fn accepted(ty: TypeView) -> bool {
        is_builtin(ty, Builtin::SqlserverSqlVariant)
    }

    open spec fn decodes(ty: TypeView, raw: Option<Seq<u8>>, v: Self) -> bool {
        raw matches Some(b) && v@ == b
    }

    open spec fn decodes_ok(ty: TypeView, raw: Seq<u8>) -> bool {
        true
    }

    fn from_sql(ty: &Type, raw: &'a [u8]) -> (r: Result<SqlServerVariant, SqlError>)
        ensures
            r matches Ok(v) && v@ == raw@,
    {
        Ok(SqlServerVariant::new(bytes_to_vec(raw)))
    }

    fn accepts(ty: &Type) -> (r: bool) {
        accepts_sqlserver_variant(ty)
    }
}

impl ToSql for SqlServerVariant {
    open spec fn accepted(ty: TypeView) -> bool {
        is_builtin(ty, Builtin::SqlserverSqlVariant)
    }

    open spec fn encoded_len(&self) -> nat {
        self@.len()
    }

    open spec fn format_for(&self, ty: TypeView) -> Format {
        Format::Binary
    }

    open spec fn encodes(&self, ty: TypeView, w: Seq<u8>, null: IsNull) -> bool {
        null == IsNull::No && w == self@
    }

    fn to_sql(&self, ty: &Type, out: &mut BytesMut) -> (r: Result<IsNull, SqlError>)
        ensures
            r matches Ok(rv) && rv == IsNull::No,
            buffer_bytes(*final(out)) == buffer_bytes(*old(out)) + self@,
    {
        extend_from_slice(out, self.0.as_slice());
        Ok(IsNull::No)
    }

    fn accepts(ty: &Type) -> (r: bool) {
        accepts_sqlserver_variant(ty)
    }

    fn rust_name() -> &'static str {
        "kingbase_types::kingbase::SqlServerVariant"
    }

    fn encode_format(&self, ty: &Type) -> (r: Format) {
        Format::Binary
    }
}

impl<'a> FromSql<'a> for SqlServerTinyInt {
    open spec fn accepted(ty: TypeView) -> bool {
        is_builtin(ty, Builtin::SqlserverTinyint)
    }

    open spec fn decodes(ty: TypeView, raw: Option<Seq<u8>>, v: Self) -> bool {
        raw matches Some(b) && b.len() == 1 && v == SqlServerTinyInt(b[0])
    }

    open spec fn decodes_ok(ty: TypeView, raw: Seq<u8>) -> bool {
        raw.len() == 1
    }

    fn from_sql(ty: &Type, raw: &'a [u8]) -> (r: Result<SqlServerTinyInt, SqlError>)
        ensures
            raw@.len() == 1 ==> (r matches Ok(rv) && rv == SqlServerTinyInt(raw@[0])),
            raw@.len() != 1 ==> (r matches Err(re) && re == (SqlError::InvalidLength {
                width: FixedWidth::SqlServerTinyInt,
                actual: raw@.len() as usize,
            })),
    {
        if raw.len() != 1 {
            return Err(SqlError::InvalidLength { width: FixedWidth::SqlServerTinyInt, actual: raw.len() });
        }
        Ok(SqlServerTinyInt(raw[0]))
    }

    fn accepts(ty: &Type) -> (r: bool) {
        accepts_sqlserver_tinyint(ty)
    }
}

impl ToSql for SqlServerTinyInt {
    open spec fn accepted(ty: TypeView) -> bool {
        is_builtin(ty, Builtin::SqlserverTinyint)
    }

    open spec fn encoded_len(&self) -> nat {
        1
    }

    open spec fn format_for(&self, ty: TypeView) -> Format {
        Format::Binary
    }

    open spec fn encodes(&self, ty: TypeView, w: Seq<u8>, null: IsNull) -> bool {
        null == IsNull::No && w == seq![self.0]
    }

    fn to_sql(&self, ty: &Type, out: &mut BytesMut) -> (r: Result<IsNull, SqlError>)
        ensures
            r matches Ok(rv) && rv == IsNull::No,
            buffer_bytes(*final(out)) == buffer_bytes(*old(out)).push(self.0),
    {
        put_u8(out, self.0);
        proof {
            assert(buffer_bytes(*out) =~= buffer_bytes(*old(out)) + seq![self.0]);
        }
        Ok(IsNull::No)
    }

    fn accepts(ty: &Type) -> (r: bool) {
        accepts_sqlserver_tinyint(ty)
    }

    fn rust_name() -> &'static str {
        "kingbase_types::kingbase::SqlServerTinyInt"
    }

    fn encode_format(&self, ty: &Type) -> (r: Format) {
        Format::Binary
    }
}

impl<'a> FromSql<'a> for MySqlTime {
    open spec fn accepted(ty: TypeView) -> bool {
        is_builtin(ty, Builtin::MysqlSysTime)
    }

    open spec fn decodes(ty: TypeView, raw: Option<Seq<u8>>, v: Self) -> bool {
        raw matches Some(b) && fixed_i64(b) matches Some(t) && v.micros() == t
    }

    open spec fn decodes_ok(ty: TypeView, raw: Seq<u8>) -> bool {
        fixed_i64(raw) matches Some(t) && -mysql_time_max_micros() <= t <= mysql_time_max_micros()
    }

    fn from_sql(ty: &Type, raw: &'a [u8]) -> (r: Result<MySqlTime, SqlError>)
        ensures
            match fixed_i64(raw@) {
                Some(t) => if -mysql_time_max_micros() <= t <= mysql_time_max_micros() {
                    r matches Ok(v) && v.micros() == t
                } else {
                    r matches Err(SqlError::MySqlTime(e)) && e.micros() == t
                },
                None => r matches Err(SqlError::Protocol(_)),
            },
    {
        let micros = match time_from_sql(raw) {
            Ok(v) => v,
            Err(m) => return Err(SqlError::Protocol(m)),
        };
        match MySqlTime::new(micros) {
            Ok(v) => Ok(v),
            Err(e) => Err(SqlError::MySqlTime(e)),
        }
    }

    fn accepts(ty: &Type) -> (r: bool) {
        ty.is(Builtin::MysqlSysTime)
    }
}

impl ToSql for MySqlTime {
    open spec fn accepted(ty: TypeView) -> bool {
        is_builtin(ty, Builtin::MysqlSysTime)
    }

    open spec fn encoded_len(&self) -> nat {
        8
    }

    open spec fn format_for(&self, ty: TypeView) -> Format {
        Format::Binary
    }

    open spec fn encodes(&self, ty: TypeView, w: Seq<u8>, null: IsNull) -> bool {
        null == IsNull::No && w == signed_bytes(self.micros() as int, 8)
    }

    fn to_sql(&self, ty: &Type, out: &mut BytesMut) -> (r: Result<IsNull, SqlError>)
        ensures
            r matches Ok(rv) && rv == IsNull::No,
            buffer_bytes(*final(out)) == buffer_bytes(*old(out)) + signed_bytes(self.micros() as int, 8),
    {
        time_to_sql(self.micros, out);
        Ok(IsNull::No)
    }

    fn accepts(ty: &Type) -> (r: bool) {
        ty.is(Builtin::MysqlSysTime)
    }

    fn rust_name() -> &'static str {
        "kingbase_types::kingbase::MySqlTime"
    }

    fn encode_format(&self, ty: &Type) -> (r: Format) {
        Format::Binary
    }
}

/// Decoding the payload that a fixed-width eight-byte value is written as
/// gives the value back.
pub proof fn law_fixed_i64_round_trip(v: i64)
    ensures
        fixed_i64(signed_bytes(v as int, 8)) == Some(v as int),
{
    lemma_i64_round_trip(v);
}

/// A YEAR TO MONTH interval's payload decodes to its months.
pub proof fn law_ym_interval_round_trip(months: i32)
    ensures
        ym_interval_decoding(interval_bytes(0, 0, months as int)) == Ok::<int, OracleIntervalError>(months as int),
{
    law_interval_round_trip(0, 0, months);
}

/// A DAY TO SECOND interval's payload decodes to its days and nanoseconds.
pub proof fn law_ds_interval_round_trip(days: i32, nanoseconds: i64)
    ensures
        ds_interval_decoding(interval_bytes(nanoseconds as int, days as int, 0))
            == Ok::<(int, int), OracleIntervalError>((days as int, nanoseconds as int)),
{
    law_interval_round_trip(nanoseconds, days, 0);
}

} // verus!
