//! The codec of `std::time::SystemTime`. A timestamp value is the signed
//! number of microseconds since midnight, January 1st, 2000; a
//! `SystemTime` is reached from the Unix epoch by a whole number of
//! nanoseconds in one direction.

use vstd::prelude::*;
use bytes::BytesMut;
use std::time::{Duration, SystemTime, SystemTimeError, UNIX_EPOCH};
use crate::builtin::Builtin;
use crate::codec::{Format, FromSql, IsNull, ToSql};
use crate::error::SqlError;
use crate::kingbase::is_builtin;
use crate::protocol::{exact_signed, timestamp_from_sql, timestamp_to_sql};
use crate::types::{Type, TypeView};
use crate::wire::{buffer_bytes, signed_bytes};

verus! {

#[verifier::external_type_specification]
#[verifier::external_body]
pub struct ExSystemTime(std::time::SystemTime);

#[verifier::external_type_specification]
#[verifier::external_body]
pub struct ExSystemTimeError(std::time::SystemTimeError);

/// A point in time as an offset from the Unix epoch: its direction, the
/// whole seconds and the nanoseconds beyond them.
#[derive(Debug, Copy, Clone, PartialEq, Eq, Structural)]
pub struct TimeOffset {
    /// Whether the point lies before the epoch.
    pub before: bool,
    /// The whole seconds between the epoch and the point.
    pub secs: u64,
    /// The nanoseconds beyond `secs`.
    pub nanos: u32,
}

/// Nanoseconds from the Unix epoch to midnight, January 1st, 2000.
pub open spec fn epoch_2000_nanos() -> int {
    946_684_800_000_000_000int
}

/// The signed number of nanoseconds from the Unix epoch to the point `o`.
pub open spec fn offset_nanos(o: TimeOffset) -> int {
    let n = o.secs * 1_000_000_000 + o.nanos;
    if o.before {
        -n
    } else {
        n
    }
}

/// The offset from the Unix epoch of the point `micros` microseconds after
/// midnight, January 1st, 2000.
pub open spec fn offset_of_micros(micros: int) -> TimeOffset {
    let total = micros * 1000 + epoch_2000_nanos();
    let size = if total < 0 {
        -total
    } else {
        total
    };
    TimeOffset { before: total < 0, secs: (size / 1_000_000_000) as u64, nanos: (size % 1_000_000_000) as u32 }
}

/// The microseconds from midnight, January 1st, 2000 to the point `o`,
/// truncated toward that midnight.
pub open spec fn micros_since_2000(o: TimeOffset) -> int {
    let d = offset_nanos(o) - epoch_2000_nanos();
    if d < 0 {
        -((-d) / 1000)
    } else {
        d / 1000
    }
}

/// Whether `v` fits in an `i64`.
pub open spec fn fits_i64(v: int) -> bool {
    i64::MIN <= v <= i64::MAX
}

/// The types whose values are timestamps that a `SystemTime` converts.
pub open spec fn timestamp_accepted(ty: TypeView) -> bool {
    ||| is_builtin(ty, Builtin::Timestamp)
    ||| is_builtin(ty, Builtin::Timestamptz)
    ||| is_builtin(ty, Builtin::MysqlDatetime)
    ||| is_builtin(ty, Builtin::MysqlSysTimestamp)
    ||| is_builtin(ty, Builtin::OracleSysDate)
    ||| is_builtin(ty, Builtin::SqlserverDatetime)
    ||| is_builtin(ty, Builtin::SqlserverSmalldatetime)
}

fn accepts_timestamp(ty: &Type) -> (r: bool)
    ensures
        r == timestamp_accepted(ty@),
{
    ty.is(Builtin::Timestamp) || ty.is(Builtin::Timestamptz) || ty.is(Builtin::MysqlDatetime) || ty.is(
        Builtin::MysqlSysTimestamp,
    ) || ty.is(Builtin::OracleSysDate) || ty.is(Builtin::SqlserverDatetime) || ty.is(
        Builtin::SqlserverSmalldatetime,
    )
}

/// The offset from the Unix epoch of the point `micros` microseconds after
/// midnight, January 1st, 2000.
pub fn unix_offset(micros: i64) -> (r: TimeOffset)
    ensures
        r == offset_of_micros(micros as int),
        r.nanos < 1_000_000_000,
{
    let total: i128 = micros as i128 * 1000 + 946_684_800_000_000_000;
    let before = total < 0;
    let size: u128 = if before {
        (-total) as u128
    } else {
        total as u128
    };
    assert(size <= 10_000_000_000_000_000_000_000u128);
    let secs = (size / 1_000_000_000) as u64;
    let nanos = (size % 1_000_000_000) as u32;
    TimeOffset { before, secs, nanos }
}

/// The microseconds from midnight, January 1st, 2000 to the point `o`,
/// truncated toward that midnight, where they fit in an `i64`.
pub fn micros_since_epoch_2000(o: TimeOffset) -> (r: Option<i64>)
    ensures
        r == (if fits_i64(micros_since_2000(o)) {
            Some(micros_since_2000(o) as i64)
        } else {
            None
        }),
{
    let n: i128 = o.secs as i128 * 1_000_000_000 + o.nanos as i128;
    let signed: i128 = if o.before {
        -n
    } else {
        n
    };
    let d: i128 = signed - 946_684_800_000_000_000;
    let m: i128 = if d < 0 {
        -((-d) / 1000)
    } else {
        d / 1000
    };
    if m < i64::MIN as i128 || m > i64::MAX as i128 {
        None
    } else {
        Some(m as i64)
    }
}

/// Reads a timestamp payload as the offset from the Unix epoch of the point
/// it names.
pub fn read_timestamp(raw: &[u8]) -> (r: Result<TimeOffset, SqlError>)
    ensures
        match exact_signed(raw@, 8) {
            Some(m) => r == Ok::<TimeOffset, SqlError>(offset_of_micros(m)),
            None => r matches Err(SqlError::Protocol(_)),
        },
        r matches Ok(o) ==> o.nanos < 1_000_000_000,
{
    match timestamp_from_sql(raw) {
        Ok(m) => Ok(unix_offset(m)),
        Err(e) => Err(SqlError::Protocol(e)),
    }
}

/// Appends the timestamp payload of the point `o`: its microseconds since
/// midnight, January 1st, 2000, truncated toward that midnight. A point
/// whose count does not fit in an `i64` gives `TimestampOutOfRange` and
/// writes nothing.
pub fn write_timestamp(o: TimeOffset, out: &mut BytesMut) -> (r: Result<(), SqlError>)
    requires
        buffer_bytes(*old(out)).len() + 8 <= isize::MAX,
    ensures
        fits_i64(micros_since_2000(o)) ==> r is Ok && buffer_bytes(*final(out)) == buffer_bytes(*old(out))
            + signed_bytes(micros_since_2000(o), 8),
        !fits_i64(micros_since_2000(o)) ==> (r matches Err(SqlError::TimestampOutOfRange) && buffer_bytes(
            *final(out),
        ) == buffer_bytes(*old(out))),
{
    match micros_since_epoch_2000(o) {
        Some(m) => {
            timestamp_to_sql(m, out);
            Ok(())
        },
        None => Err(SqlError::TimestampOutOfRange),
    }
}

/// A timestamp is written back as it was read: for every count of
/// microseconds, the offset from the Unix epoch that `read_timestamp` gives
/// for it is one that `write_timestamp` writes as that same count.
pub proof fn law_timestamp_offset_round_trip(micros: i64)
    ensures
        micros_since_2000(offset_of_micros(micros as int)) == micros,
        fits_i64(micros_since_2000(offset_of_micros(micros as int))),
{
    let o = offset_of_micros(micros as int);
    let total = micros * 1000 + epoch_2000_nanos();
    let size = if total < 0 {
        -total
    } else {
        total
    };
    assert(size == (size / 1_000_000_000) * 1_000_000_000 + size % 1_000_000_000) by (nonlinear_arith);
    assert(0 <= size / 1_000_000_000 <= u64::MAX) by (nonlinear_arith)
        requires
            0 <= size <= 10_000_000_000_000_000_000_000int,
    ;
    assert(offset_nanos(o) == total);
    assert(micros >= 0 ==> (micros * 1000) / 1000 == micros) by (nonlinear_arith);
    assert(micros < 0 ==> (-(micros * 1000)) / 1000 == -micros) by (nonlinear_arith);
}

/// The Unix epoch: `std::time::UNIX_EPOCH`.
#[verifier::external_body]
fn unix_epoch() -> (r: SystemTime) {
    UNIX_EPOCH
}

/// `Duration::new`: a span of `secs` seconds and `nanos` nanoseconds, which
/// panics only when nanoseconds of a billion or more carry past the
/// largest count of seconds.
#[verifier::external_body]
fn duration_new(secs: u64, nanos: u32) -> (r: Duration)
    requires
        nanos < 1_000_000_000,
{
    Duration::new(secs, nanos)
}

/// `SystemTime::checked_add`: the time `d` after `t`, or `None` where the
/// platform cannot represent it.
#[verifier::external_body]
fn time_after(t: &SystemTime, d: Duration) -> (r: Option<SystemTime>) {
    t.checked_add(d)
}

/// `SystemTime::checked_sub`: the time `d` before `t`, or `None` where the
/// platform cannot represent it.
#[verifier::external_body]
fn time_before(t: &SystemTime, d: Duration) -> (r: Option<SystemTime>) {
    t.checked_sub(d)
}

/// `SystemTime::duration_since`: the span from `earlier` to `t`, or an
/// error that holds the span from `t` to `earlier` where `earlier` is the
/// later of the two.
#[verifier::external_body]
fn duration_since(t: &SystemTime, earlier: SystemTime) -> (r: Result<Duration, SystemTimeError>) {
    t.duration_since(earlier)
}

/// `SystemTimeError::duration`: the span that the error holds.
#[verifier::external_body]
fn error_duration(e: &SystemTimeError) -> (r: Duration) {
    e.duration()
}

/// `Duration::as_secs`: the whole seconds of `d`.
#[verifier::external_body]
fn duration_secs(d: &Duration) -> (r: u64) {
    d.as_secs()
}

/// `Duration::subsec_nanos`: the nanoseconds of `d` beyond its whole
/// seconds, which are fewer than a billion.
#[verifier::external_body]
fn duration_subsec_nanos(d: &Duration) -> (r: u32)
    ensures
        r < 1_000_000_000,
{
    d.subsec_nanos()
}

/// The offset of `t` from the Unix epoch.
fn offset_of_time(t: &SystemTime) -> (r: TimeOffset)
    ensures
        r.nanos < 1_000_000_000,
{
    match duration_since(t, unix_epoch()) {
        Ok(d) => TimeOffset { before: false, secs: duration_secs(&d), nanos: duration_subsec_nanos(&d) },
        Err(e) => {
            let d = error_duration(&e);
            TimeOffset { before: true, secs: duration_secs(&d), nanos: duration_subsec_nanos(&d) }
        },
    }
}

/// The time at offset `o` from the Unix epoch, or `None` where the platform
/// cannot represent it.
fn time_of_offset(o: TimeOffset) -> (r: Option<SystemTime>)
    requires
        o.nanos < 1_000_000_000,
{
    let span = duration_new(o.secs, o.nanos);
    if o.before {
        time_before(&unix_epoch(), span)
    } else {
        time_after(&unix_epoch(), span)
    }
}

impl<'a> FromSql<'a> for SystemTime {
    open spec fn accepted(ty: TypeView) -> bool {
        timestamp_accepted(ty)
    }

    open spec fn decodes(ty: TypeView, raw: Option<Seq<u8>>, v: Self) -> bool {
        raw matches Some(b) && exact_signed(b, 8) is Some
    }

    open spec fn decodes_ok(ty: TypeView, raw: Seq<u8>) -> bool {
        false
    }

    /// Reads the time that the payload names; a time that the platform
    /// cannot represent gives `TimestampOutOfRange`.
    fn from_sql(ty: &Type, raw: &'a [u8]) -> (r: Result<SystemTime, SqlError>)
        ensures
            exact_signed(raw@, 8) is None ==> r matches Err(SqlError::Protocol(_)),
            exact_signed(raw@, 8) is Some ==> (r is Ok || r matches Err(SqlError::TimestampOutOfRange)),
    {
        let o = match read_timestamp(raw) {
            Ok(o) => o,
            Err(e) => {
                return Err(e);
            },
        };
        match time_of_offset(o) {
            Some(t) => Ok(t),
            None => Err(SqlError::TimestampOutOfRange),
        }
    }

    fn accepts(ty: &Type) -> (r: bool) {
        accepts_timestamp(ty)
    }
}

impl ToSql for SystemTime {
    open spec fn accepted(ty: TypeView) -> bool {
        timestamp_accepted(ty)
    }

    open spec fn encoded_len(&self) -> nat {
        8
    }

    open spec fn format_for(&self, ty: TypeView) -> Format {
        Format::Binary
    }

    open spec fn encodes(&self, ty: TypeView, w: Seq<u8>, null: IsNull) -> bool {
        null == IsNull::No && exists|o: TimeOffset|
            o.nanos < 1_000_000_000 && fits_i64(#[trigger] micros_since_2000(o)) && w == signed_bytes(
            micros_since_2000(o),
            8,
        )
    }

    /// Writes the microseconds from midnight, January 1st, 2000 to the
    /// time, truncated toward that midnight.
    fn to_sql(&self, ty: &Type, out: &mut BytesMut) -> (r: Result<IsNull, SqlError>)
        ensures
            r is Ok ==> r == Ok::<IsNull, SqlError>(IsNull::No) && exists|o: TimeOffset|
                o.nanos < 1_000_000_000 && fits_i64(#[trigger] micros_since_2000(o)) && buffer_bytes(
                    *final(out),
                ) == buffer_bytes(*old(out)) + signed_bytes(micros_since_2000(o), 8),
            r is Err ==> (r matches Err(SqlError::TimestampOutOfRange) && buffer_bytes(*final(out))
                == buffer_bytes(*old(out))),
    {
        let o = offset_of_time(self);
        match write_timestamp(o, out) {
            Ok(()) => Ok(IsNull::No),
            Err(e) => Err(e),
        }
    }

    fn accepts(ty: &Type) -> (r: bool) {
        accepts_timestamp(ty)
    }

    fn rust_name() -> &'static str {
        "std::time::SystemTime"
    }

    fn encode_format(&self, ty: &Type) -> (r: Format) {
        Format::Binary
    }
}

} // verus!
