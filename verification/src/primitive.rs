//! The codecs of Rust's primitive types, strings and byte strings.

use vstd::prelude::*;
use std::borrow::Cow;
use bytes::BytesMut;
use crate::builtin::Builtin;
use crate::codec::{Format, FromSql, ToSql, IsNull, lemma_split_appended};
use crate::error::{SqlError, FixedWidth};
use crate::kingbase::{is_builtin, fixed_i64};
use crate::numeric::{numeric_to_i64, numeric_i64_decoding};
use crate::protocol::{
    exact_signed, exact_unsigned, utf8_decoding, versioned_text, bool_from_sql, bool_to_sql,
    char_from_sql, char_to_sql, int2_from_sql, int2_to_sql, int4_from_sql, int4_to_sql,
    int8_from_sql, int8_to_sql, oid_from_sql, oid_to_sql, text_from_sql, text_to_sql,
    ltree_from_sql, ltree_to_sql, lquery_from_sql, lquery_to_sql, ltxtquery_from_sql,
    ltxtquery_to_sql, bytea_to_sql,
};
use crate::types::{Type, TypeView, Kind, str_equal};
use vstd::utf8::encode_utf8;
use crate::wire::{buffer_bytes, be_value, be_bytes, signed_bytes, put_u64, read_be_unsigned, bytes_to_vec};

verus! {

/// The types whose values are booleans.
pub open spec fn bool_accepted(ty: TypeView) -> bool {
    is_builtin(ty, Builtin::Bool) || is_builtin(ty, Builtin::SqlserverSysBit)
}

/// The types whose values are one-byte integers.
pub open spec fn i8_accepted(ty: TypeView) -> bool {
    is_builtin(ty, Builtin::Char) || is_builtin(ty, Builtin::MysqlTinyint) || is_builtin(
        ty,
        Builtin::OracleTinyint,
    )
}

/// The types whose values are four-byte integers.
pub open spec fn i32_accepted(ty: TypeView) -> bool {
    ||| is_builtin(ty, Builtin::Int4)
    ||| is_builtin(ty, Builtin::MysqlInt1)
    ||| is_builtin(ty, Builtin::MysqlInt3)
    ||| is_builtin(ty, Builtin::MysqlMediumint)
    ||| is_builtin(ty, Builtin::MysqlMiddleint)
    ||| is_builtin(ty, Builtin::MysqlYear)
}

/// The types whose values are four-byte unsigned integers.
pub open spec fn u32_accepted(ty: TypeView) -> bool {
    is_builtin(ty, Builtin::Oid) || is_builtin(ty, Builtin::MysqlUint4)
}

/// The types whose values are byte strings.
pub open spec fn bytes_accepted(ty: TypeView) -> bool {
    ||| is_builtin(ty, Builtin::Bytea)
    ||| is_builtin(ty, Builtin::MysqlBinary)
    ||| is_builtin(ty, Builtin::MysqlVarbinary)
    ||| is_builtin(ty, Builtin::MysqlBlob)
    ||| is_builtin(ty, Builtin::MysqlLongblob)
    ||| is_builtin(ty, Builtin::MysqlMediumblob)
    ||| is_builtin(ty, Builtin::MysqlTinyblob)
    ||| is_builtin(ty, Builtin::OracleBlob)
    ||| is_builtin(ty, Builtin::SqlserverBinary)
    ||| is_builtin(ty, Builtin::SqlserverVarbinary)
}

/// The built-in types whose values are text.
pub open spec fn text_builtin(ty: TypeView) -> bool {
    ||| is_builtin(ty, Builtin::Varchar)
    ||| is_builtin(ty, Builtin::Text)
    ||| is_builtin(ty, Builtin::Bpchar)
    ||| is_builtin(ty, Builtin::Name)
    ||| is_builtin(ty, Builtin::Unknown)
    ||| is_builtin(ty, Builtin::MysqlBpcharbyte)
    ||| is_builtin(ty, Builtin::MysqlVarcharbyte)
    ||| is_builtin(ty, Builtin::MysqlLongtext)
    ||| is_builtin(ty, Builtin::MysqlMediumtext)
    ||| is_builtin(ty, Builtin::MysqlTinytext)
    ||| is_builtin(ty, Builtin::MysqlClob)
    ||| is_builtin(ty, Builtin::MysqlNclob)
    ||| is_builtin(ty, Builtin::OracleUrowid)
    ||| is_builtin(ty, Builtin::OracleClob)
    ||| is_builtin(ty, Builtin::OracleNclob)
    ||| is_builtin(ty, Builtin::OracleBpcharbyte)
    ||| is_builtin(ty, Builtin::OracleVarcharbyte)
    ||| is_builtin(ty, Builtin::SqlserverNvarchar)
    ||| is_builtin(ty, Builtin::SqlserverNchar)
    ||| is_builtin(ty, Builtin::SqlserverBpcharbyte)
    ||| is_builtin(ty, Builtin::SqlserverVarcharbyte)
    ||| is_builtin(ty, Builtin::SqlserverSysname)
    ||| is_builtin(ty, Builtin::OracleBfile)
    ||| is_builtin(ty, Builtin::Xml)
}

/// The types whose values are text: the text built-ins, the MySQL dynamic
/// ENUM and SET types, and the types named `citext`, `ltree`, `lquery` and
/// `ltxtquery`.
pub open spec fn str_accepted(ty: TypeView) -> bool {
    ||| text_builtin(ty)
    ||| ty.kind is MySqlEnum
    ||| ty.kind is MySqlSet
    ||| ty.name == "citext"@
    ||| ty.name == "ltree"@
    ||| ty.name == "lquery"@
    ||| ty.name == "ltxtquery"@
}

fn accepts_text_builtin(ty: &Type) -> (r: bool)
    ensures
        r == text_builtin(ty@),
{
    ty.is(Builtin::Varchar) || ty.is(Builtin::Text) || ty.is(Builtin::Bpchar) || ty.is(Builtin::Name)
        || ty.is(Builtin::Unknown) || ty.is(Builtin::MysqlBpcharbyte) || ty.is(
        Builtin::MysqlVarcharbyte,
    ) || ty.is(Builtin::MysqlLongtext) || ty.is(Builtin::MysqlMediumtext) || ty.is(
        Builtin::MysqlTinytext,
    ) || ty.is(Builtin::MysqlClob) || ty.is(Builtin::MysqlNclob) || ty.is(Builtin::OracleUrowid)
        || ty.is(Builtin::OracleClob) || ty.is(Builtin::OracleNclob) || ty.is(
        Builtin::OracleBpcharbyte,
    ) || ty.is(Builtin::OracleVarcharbyte) || ty.is(Builtin::SqlserverNvarchar) || ty.is(
        Builtin::SqlserverNchar,
    ) || ty.is(Builtin::SqlserverBpcharbyte) || ty.is(Builtin::SqlserverVarcharbyte) || ty.is(
        Builtin::SqlserverSysname,
    ) || ty.is(Builtin::OracleBfile) || ty.is(Builtin::Xml)
}

/// Whether values of `ty` are text.
pub fn accepts_str(ty: &Type) -> (r: bool)
    ensures
        r == str_accepted(ty@),
{
    accepts_text_builtin(ty) || matches!(ty.kind(), Kind::MySqlEnum(_)) || matches!(ty.kind(), Kind::MySqlSet)
        || str_equal(ty.name(), "citext") || str_equal(ty.name(), "ltree") || str_equal(
        ty.name(),
        "lquery",
    ) || str_equal(ty.name(), "ltxtquery")
}

fn accepts_bytes(ty: &Type) -> (r: bool)
    ensures
        r == bytes_accepted(ty@),
{
    ty.is(Builtin::Bytea) || ty.is(Builtin::MysqlBinary) || ty.is(Builtin::MysqlVarbinary) || ty.is(
        Builtin::MysqlBlob,
    ) || ty.is(Builtin::MysqlLongblob) || ty.is(Builtin::MysqlMediumblob) || ty.is(
        Builtin::MysqlTinyblob,
    ) || ty.is(Builtin::OracleBlob) || ty.is(Builtin::SqlserverBinary) || ty.is(
        Builtin::SqlserverVarbinary,
    )
}

/// The text that a payload of the type named `name` decodes to: after a
/// version byte for `ltree`, `lquery` and `ltxtquery`, and as plain UTF-8
/// otherwise.
pub open spec fn text_decoding(name: Seq<char>, raw: Seq<u8>) -> Option<Seq<char>> {
    if name == "ltree"@ || name == "lquery"@ || name == "ltxtquery"@ {
        versioned_text(raw)
    } else {
        utf8_decoding(raw)
    }
}

/// Whether `enc` is the payload of the text `t` for the type named `name`:
/// the UTF-8 bytes of `t`, after the version byte 1 for `ltree`, `lquery`
/// and `ltxtquery`.
pub open spec fn text_encoded(name: Seq<char>, t: Seq<char>, enc: Seq<u8>) -> bool {
    if name == "ltree"@ || name == "lquery"@ || name == "ltxtquery"@ {
        enc == seq![1u8] + encode_utf8(t)
    } else {
        enc == encode_utf8(t)
    }
}

/// A text is read back as it was written: the payload that the text
/// conversions write for `t` as a value of the type named `name` decodes,
/// for that type, to `t`.
pub proof fn law_text_round_trip(name: Seq<char>, t: Seq<char>, enc: Seq<u8>)
    requires
        text_encoded(name, t, enc),
    ensures
        text_decoding(name, enc) == Some(t),
{
    broadcast use vstd::utf8::group_utf8_lib;

    if name == "ltree"@ || name == "lquery"@ || name == "ltxtquery"@ {
        assert(enc.subrange(1, enc.len() as int) =~= encode_utf8(t));
    }
}

/// Decodes the text payload of a value of `ty`.
fn decode_text<'a>(ty: &Type, raw: &'a [u8]) -> (r: Result<&'a str, SqlError>)
    ensures
        match r {
            Ok(s) => text_decoding(ty@.name, raw@) == Some(s@),
            Err(e) => text_decoding(ty@.name, raw@) is None && e is Protocol,
        },
{
    let decoded = if str_equal(ty.name(), "ltree") {
        ltree_from_sql(raw)
    } else if str_equal(ty.name(), "lquery") {
        lquery_from_sql(raw)
    } else if str_equal(ty.name(), "ltxtquery") {
        ltxtquery_from_sql(raw)
    } else {
        text_from_sql(raw)
    };
    match decoded {
        Ok(s) => Ok(s),
        Err(m) => Err(SqlError::Protocol(m)),
    }
}

/// Appends the text payload of `v` for a value of `ty`.
fn encode_text(v: &str, ty: &Type, out: &mut BytesMut)
    requires
        buffer_bytes(*old(out)).len() + 1 + 4 * v@.len() <= isize::MAX,
    ensures
        buffer_bytes(*final(out)).len() >= buffer_bytes(*old(out)).len(),
        buffer_bytes(*final(out)).subrange(0, buffer_bytes(*old(out)).len() as int) == buffer_bytes(*old(out)),
        text_encoded(ty@.name, v@, buffer_bytes(*final(out)).subrange(buffer_bytes(*old(out)).len() as int, buffer_bytes(*final(out)).len() as int)),
{
    let ghost before = buffer_bytes(*out);
    if str_equal(ty.name(), "ltree") {
        ltree_to_sql(v, out);
    } else if str_equal(ty.name(), "lquery") {
        lquery_to_sql(v, out);
    } else if str_equal(ty.name(), "ltxtquery") {
        ltxtquery_to_sql(v, out);
    } else {
        text_to_sql(v, out);
    }
    proof {
        let after = buffer_bytes(*out);
        assert(after.subrange(0, before.len() as int) =~= before);
        if ty@.name == "ltree"@ || ty@.name == "lquery"@ || ty@.name == "ltxtquery"@ {
            assert(after.subrange(before.len() as int, after.len() as int) =~= seq![1u8] + encode_utf8(v@));
        } else {
            assert(after.subrange(before.len() as int, after.len() as int) =~= encode_utf8(v@));
        }
    }
}

impl<'a> FromSql<'a> for bool {
    open spec fn accepted(ty: TypeView) -> bool {
        bool_accepted(ty)
    }

    open spec fn decodes(ty: TypeView, raw: Option<Seq<u8>>, v: Self) -> bool {
        raw matches Some(b) && exact_unsigned(b, 1) matches Some(x) && v == (x != 0)
    }

    open spec fn decodes_ok(ty: TypeView, raw: Seq<u8>) -> bool {
        exact_unsigned(raw, 1) is Some
    }

    fn from_sql(ty: &Type, raw: &'a [u8]) -> (r: Result<bool, SqlError>)
        ensures
            match r {
                Ok(v) => exact_unsigned(raw@, 1) matches Some(b) && v == (b != 0),
                Err(e) => exact_unsigned(raw@, 1) is None && e is Protocol,
            },
    {
        match bool_from_sql(raw) {
            Ok(v) => Ok(v),
            Err(m) => Err(SqlError::Protocol(m)),
        }
    }

    fn accepts(ty: &Type) -> (r: bool) {
        ty.is(Builtin::Bool) || ty.is(Builtin::SqlserverSysBit)
    }
}

impl ToSql for bool {
    open spec fn accepted(ty: TypeView) -> bool {
        bool_accepted(ty)
    }

    open spec fn encoded_len(&self) -> nat {
        1
    }

    open spec fn format_for(&self, ty: TypeView) -> Format {
        Format::Binary
    }

    open spec fn encodes(&self, ty: TypeView, w: Seq<u8>, null: IsNull) -> bool {
        null == IsNull::No && w == seq![if *self { 1u8 } else { 0u8 }]
    }

    fn to_sql(&self, ty: &Type, out: &mut BytesMut) -> (r: Result<IsNull, SqlError>)
        ensures
            r matches Ok(v) && v == IsNull::No,
            buffer_bytes(*final(out)) == buffer_bytes(*old(out)).push(if *self { 1u8 } else { 0u8 }),
    {
        bool_to_sql(*self, out);
        proof {
            assert(buffer_bytes(*out) =~= buffer_bytes(*old(out)) + seq![if *self { 1u8 } else { 0u8 }]);
        }
        Ok(IsNull::No)
    }

    fn accepts(ty: &Type) -> (r: bool) {
        ty.is(Builtin::Bool) || ty.is(Builtin::SqlserverSysBit)
    }

    fn rust_name() -> &'static str {
        "bool"
    }

    fn encode_format(&self, ty: &Type) -> (r: Format) {
        Format::Binary
    }
}

impl<'a> FromSql<'a> for i8 {
    open spec fn accepted(ty: TypeView) -> bool {
        i8_accepted(ty)
    }

    open spec fn decodes(ty: TypeView, raw: Option<Seq<u8>>, v: Self) -> bool {
        raw matches Some(b) && exact_signed(b, 1) == Some(v as int)
    }

    open spec fn decodes_ok(ty: TypeView, raw: Seq<u8>) -> bool {
        exact_signed(raw, 1) is Some
    }

    fn from_sql(ty: &Type, raw: &'a [u8]) -> (r: Result<i8, SqlError>)
        ensures
            match r {
                Ok(v) => exact_signed(raw@, 1) == Some(v as int),
                Err(e) => exact_signed(raw@, 1) is None && e is Protocol,
            },
    {
        match char_from_sql(raw) {
            Ok(v) => Ok(v),
            Err(m) => Err(SqlError::Protocol(m)),
        }
    }

    fn accepts(ty: &Type) -> (r: bool) {
        ty.is(Builtin::Char) || ty.is(Builtin::MysqlTinyint) || ty.is(Builtin::OracleTinyint)
    }
}

impl ToSql for i8 {
    open spec fn accepted(ty: TypeView) -> bool {
        i8_accepted(ty)
    }

    open spec fn encoded_len(&self) -> nat {
        1
    }

    open spec fn format_for(&self, ty: TypeView) -> Format {
        Format::Binary
    }

    open spec fn encodes(&self, ty: TypeView, w: Seq<u8>, null: IsNull) -> bool {
        null == IsNull::No && w == signed_bytes(*self as int, 1)
    }

    fn to_sql(&self, ty: &Type, out: &mut BytesMut) -> (r: Result<IsNull, SqlError>)
        ensures
            r matches Ok(v) && v == IsNull::No,
            buffer_bytes(*final(out)) == buffer_bytes(*old(out)) + signed_bytes(*self as int, 1),
    {
        char_to_sql(*self, out);
        Ok(IsNull::No)
    }

    fn accepts(ty: &Type) -> (r: bool) {
        ty.is(Builtin::Char) || ty.is(Builtin::MysqlTinyint) || ty.is(Builtin::OracleTinyint)
    }

    fn rust_name() -> &'static str {
        "i8"
    }

    fn encode_format(&self, ty: &Type) -> (r: Format) {
        Format::Binary
    }
}

impl<'a> FromSql<'a> for i16 {
    open spec fn accepted(ty: TypeView) -> bool {
        is_builtin(ty, Builtin::Int2)
    }

    open spec fn decodes(ty: TypeView, raw: Option<Seq<u8>>, v: Self) -> bool {
        raw matches Some(b) && exact_signed(b, 2) == Some(v as int)
    }

    open spec fn decodes_ok(ty: TypeView, raw: Seq<u8>) -> bool {
        exact_signed(raw, 2) is Some
    }

    fn from_sql(ty: &Type, raw: &'a [u8]) -> (r: Result<i16, SqlError>)
        ensures
            match r {
                Ok(v) => exact_signed(raw@, 2) == Some(v as int),
                Err(e) => exact_signed(raw@, 2) is None && e is Protocol,
            },
    {
        match int2_from_sql(raw) {
            Ok(v) => Ok(v),
            Err(m) => Err(SqlError::Protocol(m)),
        }
    }

    fn accepts(ty: &Type) -> (r: bool) {
        ty.is(Builtin::Int2)
    }
}

impl ToSql for i16 {
    open spec fn accepted(ty: TypeView) -> bool {
        is_builtin(ty, Builtin::Int2)
    }

    open spec fn encoded_len(&self) -> nat {
        2
    }

    open spec fn format_for(&self, ty: TypeView) -> Format {
        Format::Binary
    }

    open spec fn encodes(&self, ty: TypeView, w: Seq<u8>, null: IsNull) -> bool {
        null == IsNull::No && w == signed_bytes(*self as int, 2)
    }

    fn to_sql(&self, ty: &Type, out: &mut BytesMut) -> (r: Result<IsNull, SqlError>)
        ensures
            r matches Ok(v) && v == IsNull::No,
            buffer_bytes(*final(out)) == buffer_bytes(*old(out)) + signed_bytes(*self as int, 2),
    {
        int2_to_sql(*self, out);
        Ok(IsNull::No)
    }

    fn accepts(ty: &Type) -> (r: bool) {
        ty.is(Builtin::Int2)
    }

    fn rust_name() -> &'static str {
        "i16"
    }

    fn encode_format(&self, ty: &Type) -> (r: Format) {
        Format::Binary
    }
}

fn accepts_i32(ty: &Type) -> (r: bool)
    ensures
        r == i32_accepted(ty@),
{
    ty.is(Builtin::Int4) || ty.is(Builtin::MysqlInt1) || ty.is(Builtin::MysqlInt3) || ty.is(
        Builtin::MysqlMediumint,
    ) || ty.is(Builtin::MysqlMiddleint) || ty.is(Builtin::MysqlYear)
}

impl<'a> FromSql<'a> for i32 {
    open spec fn accepted(ty: TypeView) -> bool {
        i32_accepted(ty)
    }

    open spec fn decodes(ty: TypeView, raw: Option<Seq<u8>>, v: Self) -> bool {
        raw matches Some(b) && exact_signed(b, 4) == Some(v as int)
    }

    open spec fn decodes_ok(ty: TypeView, raw: Seq<u8>) -> bool {
        exact_signed(raw, 4) is Some
    }

    fn from_sql(ty: &Type, raw: &'a [u8]) -> (r: Result<i32, SqlError>)
        ensures
            match r {
                Ok(v) => exact_signed(raw@, 4) == Some(v as int),
                Err(e) => exact_signed(raw@, 4) is None && e is Protocol,
            },
    {
        match int4_from_sql(raw) {
            Ok(v) => Ok(v),
            Err(m) => Err(SqlError::Protocol(m)),
        }
    }

    fn accepts(ty: &Type) -> (r: bool) {
        accepts_i32(ty)
    }
}

impl ToSql for i32 {
    open spec fn accepted(ty: TypeView) -> bool {
        i32_accepted(ty)
    }

    open spec fn encoded_len(&self) -> nat {
        4
    }

    open spec fn format_for(&self, ty: TypeView) -> Format {
        Format::Binary
    }

    open spec fn encodes(&self, ty: TypeView, w: Seq<u8>, null: IsNull) -> bool {
        null == IsNull::No && w == signed_bytes(*self as int, 4)
    }

    fn to_sql(&self, ty: &Type, out: &mut BytesMut) -> (r: Result<IsNull, SqlError>)
        ensures
            r matches Ok(v) && v == IsNull::No,
            buffer_bytes(*final(out)) == buffer_bytes(*old(out)) + signed_bytes(*self as int, 4),
    {
        int4_to_sql(*self, out);
        Ok(IsNull::No)
    }

    fn accepts(ty: &Type) -> (r: bool) {
        accepts_i32(ty)
    }

    fn rust_name() -> &'static str {
        "i32"
    }

    fn encode_format(&self, ty: &Type) -> (r: Format) {
        Format::Binary
    }
}

impl<'a> FromSql<'a> for u32 {
    open spec fn accepted(ty: TypeView) -> bool {
        u32_accepted(ty)
    }

    open spec fn decodes(ty: TypeView, raw: Option<Seq<u8>>, v: Self) -> bool {
        raw matches Some(b) && exact_unsigned(b, 4) == Some(v as nat)
    }

    open spec fn decodes_ok(ty: TypeView, raw: Seq<u8>) -> bool {
        exact_unsigned(raw, 4) is Some
    }

    fn from_sql(ty: &Type, raw: &'a [u8]) -> (r: Result<u32, SqlError>)
        ensures
            match r {
                Ok(v) => exact_unsigned(raw@, 4) == Some(v as nat),
                Err(e) => exact_unsigned(raw@, 4) is None && e is Protocol,
            },
    {
        match oid_from_sql(raw) {
            Ok(v) => Ok(v),
            Err(m) => Err(SqlError::Protocol(m)),
        }
    }

    fn accepts(ty: &Type) -> (r: bool) {
        ty.is(Builtin::Oid) || ty.is(Builtin::MysqlUint4)
    }
}

impl ToSql for u32 {
    open spec fn accepted(ty: TypeView) -> bool {
        u32_accepted(ty)
    }

    open spec fn encoded_len(&self) -> nat {
        4
    }

    open spec fn format_for(&self, ty: TypeView) -> Format {
        Format::Binary
    }

    open spec fn encodes(&self, ty: TypeView, w: Seq<u8>, null: IsNull) -> bool {
        null == IsNull::No && w == be_bytes(*self as nat, 4)
    }

    fn to_sql(&self, ty: &Type, out: &mut BytesMut) -> (r: Result<IsNull, SqlError>)
        ensures
            r matches Ok(v) && v == IsNull::No,
            buffer_bytes(*final(out)) == buffer_bytes(*old(out)) + be_bytes(*self as nat, 4),
    {
        oid_to_sql(*self, out);
        Ok(IsNull::No)
    }

    fn accepts(ty: &Type) -> (r: bool) {
        ty.is(Builtin::Oid) || ty.is(Builtin::MysqlUint4)
    }

    fn rust_name() -> &'static str {
        "u32"
    }

    fn encode_format(&self, ty: &Type) -> (r: Format) {
        Format::Binary
    }
}

impl<'a> FromSql<'a> for u64 {
    open spec fn accepted(ty: TypeView) -> bool {
        is_builtin(ty, Builtin::MysqlUint8)
    }

    open spec fn decodes(ty: TypeView, raw: Option<Seq<u8>>, v: Self) -> bool {
        raw matches Some(b) && exact_unsigned(b, 8) == Some(v as nat)
    }

    open spec fn decodes_ok(ty: TypeView, raw: Seq<u8>) -> bool {
        exact_unsigned(raw, 8) is Some
    }

    fn from_sql(ty: &Type, raw: &'a [u8]) -> (r: Result<u64, SqlError>)
        ensures
            match r {
                Ok(v) => exact_unsigned(raw@, 8) == Some(v as nat),
                Err(e) => exact_unsigned(raw@, 8) is None && e == (SqlError::InvalidLength {
                    width: FixedWidth::MySqlUint8,
                    actual: raw@.len() as usize,
                }),
            },
    {
        if raw.len() != 8 {
            return Err(SqlError::InvalidLength { width: FixedWidth::MySqlUint8, actual: raw.len() });
        }
        proof {
            assert(raw@.subrange(0, 8) =~= raw@);
        }
        Ok(read_be_unsigned(raw, 0, 8))
    }

    fn accepts(ty: &Type) -> (r: bool) {
        ty.is(Builtin::MysqlUint8)
    }
}

impl ToSql for u64 {
    open spec fn accepted(ty: TypeView) -> bool {
        is_builtin(ty, Builtin::MysqlUint8)
    }

    open spec fn encoded_len(&self) -> nat {
        8
    }

    open spec fn format_for(&self, ty: TypeView) -> Format {
        Format::Binary
    }

    open spec fn encodes(&self, ty: TypeView, w: Seq<u8>, null: IsNull) -> bool {
        null == IsNull::No && w == be_bytes(*self as nat, 8)
    }

    fn to_sql(&self, ty: &Type, out: &mut BytesMut) -> (r: Result<IsNull, SqlError>)
        ensures
            r matches Ok(v) && v == IsNull::No,
            buffer_bytes(*final(out)) == buffer_bytes(*old(out)) + be_bytes(*self as nat, 8),
    {
        put_u64(out, *self);
        Ok(IsNull::No)
    }

    fn accepts(ty: &Type) -> (r: bool) {
        ty.is(Builtin::MysqlUint8)
    }

    fn rust_name() -> &'static str {
        "u64"
    }

    fn encode_format(&self, ty: &Type) -> (r: Format) {
        Format::Binary
    }
}

impl<'a> FromSql<'a> for i64 {
    open spec fn accepted(ty: TypeView) -> bool {
        is_builtin(ty, Builtin::Int8) || is_builtin(ty, Builtin::Numeric)
    }

    open spec fn decodes(ty: TypeView, raw: Option<Seq<u8>>, v: Self) -> bool {
        raw matches Some(b) && if is_builtin(ty, Builtin::Numeric) {
            numeric_i64_decoding(b) == Ok::<int, crate::error::NumericError>(v as int)
        } else {
            exact_signed(b, 8) == Some(v as int)
        }
    }

    open spec fn decodes_ok(ty: TypeView, raw: Seq<u8>) -> bool {
        if is_builtin(ty, Builtin::Numeric) {
            numeric_i64_decoding(raw) is Ok
        } else {
            exact_signed(raw, 8) is Some
        }
    }

    /// A NUMERIC value is decoded when it holds an integer in range; other
    /// types are read as eight-byte integers.
    fn from_sql(ty: &Type, raw: &'a [u8]) -> (r: Result<i64, SqlError>)
        ensures
            is_builtin(ty@, Builtin::Numeric) ==> match r {
                Ok(v) => numeric_i64_decoding(raw@) == Ok::<int, crate::error::NumericError>(v as int),
                Err(e) => numeric_i64_decoding(raw@) matches Err(ne) && e == SqlError::Numeric(ne),
            },
            !is_builtin(ty@, Builtin::Numeric) ==> match r {
                Ok(v) => exact_signed(raw@, 8) == Some(v as int),
                Err(e) => exact_signed(raw@, 8) is None && e is Protocol,
            },
    {
        if ty.is(Builtin::Numeric) {
            return match numeric_to_i64(raw) {
                Ok(v) => Ok(v),
                Err(e) => Err(SqlError::Numeric(e)),
            };
        }
        match int8_from_sql(raw) {
            Ok(v) => Ok(v),
            Err(m) => Err(SqlError::Protocol(m)),
        }
    }

    fn accepts(ty: &Type) -> (r: bool) {
        ty.is(Builtin::Int8) || ty.is(Builtin::Numeric)
    }
}

impl ToSql for i64 {
    open spec fn accepted(ty: TypeView) -> bool {
        is_builtin(ty, Builtin::Int8)
    }

    open spec fn encoded_len(&self) -> nat {
        8
    }

    open spec fn format_for(&self, ty: TypeView) -> Format {
        Format::Binary
    }

    open spec fn encodes(&self, ty: TypeView, w: Seq<u8>, null: IsNull) -> bool {
        null == IsNull::No && w == signed_bytes(*self as int, 8)
    }

    fn to_sql(&self, ty: &Type, out: &mut BytesMut) -> (r: Result<IsNull, SqlError>)
        ensures
            r matches Ok(v) && v == IsNull::No,
            buffer_bytes(*final(out)) == buffer_bytes(*old(out)) + signed_bytes(*self as int, 8),
    {
        int8_to_sql(*self, out);
        Ok(IsNull::No)
    }

    fn accepts(ty: &Type) -> (r: bool) {
        ty.is(Builtin::Int8)
    }

    fn rust_name() -> &'static str {
        "i64"
    }

    fn encode_format(&self, ty: &Type) -> (r: Format) {
        Format::Binary
    }
}

impl<'a> FromSql<'a> for String {
    open spec fn accepted(ty: TypeView) -> bool {
        str_accepted(ty)
    }

    open spec fn decodes(ty: TypeView, raw: Option<Seq<u8>>, v: Self) -> bool {
        raw matches Some(b) && text_decoding(ty.name, b) == Some(v@)
    }

    open spec fn decodes_ok(ty: TypeView, raw: Seq<u8>) -> bool {
        text_decoding(ty.name, raw) is Some
    }

    fn from_sql(ty: &Type, raw: &'a [u8]) -> (r: Result<String, SqlError>)
        ensures
            match r {
                Ok(s) => text_decoding(ty@.name, raw@) == Some(s@),
                Err(e) => text_decoding(ty@.name, raw@) is None && e is Protocol,
            },
    {
        match decode_text(ty, raw) {
            Ok(s) => Ok(s.to_owned()),
            Err(e) => Err(e),
        }
    }

    fn accepts(ty: &Type) -> (r: bool) {
        accepts_str(ty)
    }
}

impl<'a> FromSql<'a> for &'a str {
    open spec fn accepted(ty: TypeView) -> bool {
        str_accepted(ty)
    }

    open spec fn decodes(ty: TypeView, raw: Option<Seq<u8>>, v: Self) -> bool {
        raw matches Some(b) && text_decoding(ty.name, b) == Some(v@)
    }

    open spec fn decodes_ok(ty: TypeView, raw: Seq<u8>) -> bool {
        text_decoding(ty.name, raw) is Some
    }

    fn from_sql(ty: &Type, raw: &'a [u8]) -> (r: Result<&'a str, SqlError>)
        ensures
            match r {
                Ok(s) => text_decoding(ty@.name, raw@) == Some(s@),
                Err(e) => text_decoding(ty@.name, raw@) is None && e is Protocol,
            },
    {
        decode_text(ty, raw)
    }

    fn accepts(ty: &Type) -> (r: bool) {
        accepts_str(ty)
    }
}

impl ToSql for String {
    open spec fn accepted(ty: TypeView) -> bool {
        str_accepted(ty)
    }

    open spec fn encoded_len(&self) -> nat {
        1 + 4 * self@.len()
    }

    open spec fn format_for(&self, ty: TypeView) -> Format {
        Format::Binary
    }

    open spec fn encodes(&self, ty: TypeView, w: Seq<u8>, null: IsNull) -> bool {
        null == IsNull::No && text_encoded(ty.name, self@, w)
    }

    fn to_sql(&self, ty: &Type, out: &mut BytesMut) -> (r: Result<IsNull, SqlError>)
        ensures
            r matches Ok(v) && v == IsNull::No,
            buffer_bytes(*final(out)).len() >= buffer_bytes(*old(out)).len(),
            buffer_bytes(*final(out)).subrange(0, buffer_bytes(*old(out)).len() as int) == buffer_bytes(*old(out)),
            text_encoded(ty@.name, self@, buffer_bytes(*final(out)).subrange(buffer_bytes(*old(out)).len() as int, buffer_bytes(*final(out)).len() as int)),
    {
        encode_text(self.as_str(), ty, out);
        proof {
            lemma_split_appended(buffer_bytes(*old(out)), buffer_bytes(*out));
        }
        Ok(IsNull::No)
    }

    fn accepts(ty: &Type) -> (r: bool) {
        accepts_str(ty)
    }

    fn rust_name() -> &'static str {
        "alloc::string::String"
    }

    fn encode_format(&self, ty: &Type) -> (r: Format) {
        Format::Binary
    }
}

impl<'s> ToSql for &'s str {
    open spec fn accepted(ty: TypeView) -> bool {
        str_accepted(ty)
    }

    open spec fn encoded_len(&self) -> nat {
        1 + 4 * self@.len()
    }

    open spec fn format_for(&self, ty: TypeView) -> Format {
        Format::Binary
    }

    open spec fn encodes(&self, ty: TypeView, w: Seq<u8>, null: IsNull) -> bool {
        null == IsNull::No && text_encoded(ty.name, self@, w)
    }

    fn to_sql(&self, ty: &Type, out: &mut BytesMut) -> (r: Result<IsNull, SqlError>)
        ensures
            r matches Ok(v) && v == IsNull::No,
            buffer_bytes(*final(out)).len() >= buffer_bytes(*old(out)).len(),
            buffer_bytes(*final(out)).subrange(0, buffer_bytes(*old(out)).len() as int) == buffer_bytes(*old(out)),
            text_encoded(ty@.name, self@, buffer_bytes(*final(out)).subrange(buffer_bytes(*old(out)).len() as int, buffer_bytes(*final(out)).len() as int)),
    {
        encode_text(*self, ty, out);
        proof {
            lemma_split_appended(buffer_bytes(*old(out)), buffer_bytes(*out));
        }
        Ok(IsNull::No)
    }

    fn accepts(ty: &Type) -> (r: bool) {
        accepts_str(ty)
    }

    fn rust_name() -> &'static str {
        "&str"
    }

    fn encode_format(&self, ty: &Type) -> (r: Format) {
        Format::Binary
    }
}

impl<'a> FromSql<'a> for Vec<u8> {
    open spec fn accepted(ty: TypeView) -> bool {
        bytes_accepted(ty)
    }

    open spec fn decodes(ty: TypeView, raw: Option<Seq<u8>>, v: Self) -> bool {
        raw matches Some(b) && v@ == b
    }

    open spec fn decodes_ok(ty: TypeView, raw: Seq<u8>) -> bool {
        true
    }

    fn from_sql(ty: &Type, raw: &'a [u8]) -> (r: Result<Vec<u8>, SqlError>)
        ensures
            r matches Ok(v) && v@ == raw@,
    {
        Ok(bytes_to_vec(raw))
    }

    fn accepts(ty: &Type) -> (r: bool) {
        accepts_bytes(ty)
    }
}

impl<'a> FromSql<'a> for &'a [u8] {
    open spec fn accepted(ty: TypeView) -> bool {
        bytes_accepted(ty)
    }

    open spec fn decodes(ty: TypeView, raw: Option<Seq<u8>>, v: Self) -> bool {
        raw matches Some(b) && v@ == b
    }

    open spec fn decodes_ok(ty: TypeView, raw: Seq<u8>) -> bool {
        true
    }

    fn from_sql(ty: &Type, raw: &'a [u8]) -> (r: Result<&'a [u8], SqlError>)
        ensures
            r matches Ok(v) && v@ == raw@,
    {
        Ok(raw)
    }

    fn accepts(ty: &Type) -> (r: bool) {
        accepts_bytes(ty)
    }
}

impl<'s> ToSql for &'s [u8] {
    open spec fn accepted(ty: TypeView) -> bool {
        bytes_accepted(ty)
    }

    open spec fn encoded_len(&self) -> nat {
        self@.len()
    }

    open spec fn format_for(&self, ty: TypeView) -> Format {
        Format::Binary
    }

    open spec fn encodes(&self, ty: TypeView, w: Seq<u8>, null: IsNull) -> bool {
        null == IsNull::No && w == self@
    }

    fn to_sql(&self, ty: &Type, out: &mut BytesMut) -> (r: Result<IsNull, SqlError>)
        ensures
            r matches Ok(v) && v == IsNull::No,
            buffer_bytes(*final(out)) == buffer_bytes(*old(out)) + self@,
    {
        bytea_to_sql(self, out);
        Ok(IsNull::No)
    }

    fn accepts(ty: &Type) -> (r: bool) {
        accepts_bytes(ty)
    }

    fn rust_name() -> &'static str {
        "&[u8]"
    }

    fn encode_format(&self, ty: &Type) -> (r: Format) {
        Format::Binary
    }
}

impl ToSql for Vec<u8> {
    open spec fn accepted(ty: TypeView) -> bool {
        bytes_accepted(ty)
    }

    open spec fn encoded_len(&self) -> nat {
        self@.len()
    }

    open spec fn format_for(&self, ty: TypeView) -> Format {
        Format::Binary
    }

    open spec fn encodes(&self, ty: TypeView, w: Seq<u8>, null: IsNull) -> bool {
        null == IsNull::No && w == self@
    }

    fn to_sql(&self, ty: &Type, out: &mut BytesMut) -> (r: Result<IsNull, SqlError>)
        ensures
            r matches Ok(v) && v == IsNull::No,
            buffer_bytes(*final(out)) == buffer_bytes(*old(out)) + self@,
    {
        bytea_to_sql(self.as_slice(), out);
        Ok(IsNull::No)
    }

    fn accepts(ty: &Type) -> (r: bool) {
        accepts_bytes(ty)
    }

    fn rust_name() -> &'static str {
        "alloc::vec::Vec<u8>"
    }

    fn encode_format(&self, ty: &Type) -> (r: Format) {
        Format::Binary
    }
}

impl<'a> FromSql<'a> for Cow<'a, str> {
    open spec fn accepted(ty: TypeView) -> bool {
        str_accepted(ty)
    }

    open spec fn decodes(ty: TypeView, raw: Option<Seq<u8>>, v: Self) -> bool {
        raw matches Some(b) && text_decoding(ty.name, b) == Some(v@)
    }

    open spec fn decodes_ok(ty: TypeView, raw: Seq<u8>) -> bool {
        text_decoding(ty.name, raw) is Some
    }

    fn from_sql(ty: &Type, raw: &'a [u8]) -> (r: Result<Cow<'a, str>, SqlError>)
        ensures
            match r {
                Ok(s) => text_decoding(ty@.name, raw@) == Some(s@),
                Err(e) => text_decoding(ty@.name, raw@) is None && e is Protocol,
            },
    {
        match decode_text(ty, raw) {
            Ok(s) => Ok(Cow::Borrowed(s)),
            Err(e) => Err(e),
        }
    }

    fn accepts(ty: &Type) -> (r: bool) {
        accepts_str(ty)
    }
}

impl<'c> ToSql for Cow<'c, str> {
    open spec fn accepted(ty: TypeView) -> bool {
        str_accepted(ty)
    }

    open spec fn encoded_len(&self) -> nat {
        1 + 4 * self@.len()
    }

    open spec fn format_for(&self, ty: TypeView) -> Format {
        Format::Binary
    }

    open spec fn encodes(&self, ty: TypeView, w: Seq<u8>, null: IsNull) -> bool {
        null == IsNull::No && text_encoded(ty.name, self@, w)
    }

    fn to_sql(&self, ty: &Type, out: &mut BytesMut) -> (r: Result<IsNull, SqlError>)
        ensures
            r matches Ok(v) && v == IsNull::No,
            buffer_bytes(*final(out)).len() >= buffer_bytes(*old(out)).len(),
            buffer_bytes(*final(out)).subrange(0, buffer_bytes(*old(out)).len() as int) == buffer_bytes(*old(out)),
            text_encoded(ty@.name, self@, buffer_bytes(*final(out)).subrange(buffer_bytes(*old(out)).len() as int, buffer_bytes(*final(out)).len() as int)),
    {
        let text: &str = match self {
            Cow::Borrowed(b) => b,
            Cow::Owned(o) => o.as_str(),
        };
        encode_text(text, ty, out);
        proof {
            lemma_split_appended(buffer_bytes(*old(out)), buffer_bytes(*out));
        }
        Ok(IsNull::No)
    }

    fn accepts(ty: &Type) -> (r: bool) {
        accepts_str(ty)
    }

    fn rust_name() -> &'static str {
        "alloc::borrow::Cow<str>"
    }

    fn encode_format(&self, ty: &Type) -> (r: Format) {
        Format::Binary
    }
}

impl<'c> ToSql for Cow<'c, [u8]> {
    open spec fn accepted(ty: TypeView) -> bool {
        bytes_accepted(ty)
    }

    open spec fn encoded_len(&self) -> nat {
        self@.len()
    }

    open spec fn format_for(&self, ty: TypeView) -> Format {
        Format::Binary
    }

    open spec fn encodes(&self, ty: TypeView, w: Seq<u8>, null: IsNull) -> bool {
        null == IsNull::No && w == self@
    }

    fn to_sql(&self, ty: &Type, out: &mut BytesMut) -> (r: Result<IsNull, SqlError>)
        ensures
            r matches Ok(v) && v == IsNull::No,
            buffer_bytes(*final(out)) == buffer_bytes(*old(out)) + self@,
    {
        let bytes: &[u8] = match self {
            Cow::Borrowed(b) => b,
            Cow::Owned(o) => o.as_slice(),
        };
        bytea_to_sql(bytes, out);
        Ok(IsNull::No)
    }

    fn accepts(ty: &Type) -> (r: bool) {
        accepts_bytes(ty)
    }

    fn rust_name() -> &'static str {
        "alloc::borrow::Cow<[u8]>"
    }

    fn encode_format(&self, ty: &Type) -> (r: Format) {
        Format::Binary
    }
}

/// A boxed copy of `s`: `Box::<str>::from`.
#[verifier::external_body]
fn boxed_str(s: &str) -> (r: Box<str>)
    ensures
        r@ == s@,
{
    Box::from(s)
}

impl<'a> FromSql<'a> for Box<str> {
    open spec fn accepted(ty: TypeView) -> bool {
        str_accepted(ty)
    }

    open spec fn decodes(ty: TypeView, raw: Option<Seq<u8>>, v: Self) -> bool {
        raw matches Some(b) && text_decoding(ty.name, b) == Some(v@)
    }

    open spec fn decodes_ok(ty: TypeView, raw: Seq<u8>) -> bool {
        text_decoding(ty.name, raw) is Some
    }

    fn from_sql(ty: &Type, raw: &'a [u8]) -> (r: Result<Box<str>, SqlError>)
        ensures
            match r {
                Ok(s) => text_decoding(ty@.name, raw@) == Some(s@),
                Err(e) => text_decoding(ty@.name, raw@) is None && e is Protocol,
            },
    {
        match decode_text(ty, raw) {
            Ok(s) => Ok(boxed_str(s)),
            Err(e) => Err(e),
        }
    }

    fn accepts(ty: &Type) -> (r: bool) {
        accepts_str(ty)
    }
}

impl ToSql for Box<str> {
    open spec fn accepted(ty: TypeView) -> bool {
        str_accepted(ty)
    }

    open spec fn encoded_len(&self) -> nat {
        1 + 4 * self@.len()
    }

    open spec fn format_for(&self, ty: TypeView) -> Format {
        Format::Binary
    }

    open spec fn encodes(&self, ty: TypeView, w: Seq<u8>, null: IsNull) -> bool {
        null == IsNull::No && text_encoded(ty.name, self@, w)
    }

    fn to_sql(&self, ty: &Type, out: &mut BytesMut) -> (r: Result<IsNull, SqlError>)
        ensures
            r matches Ok(v) && v == IsNull::No,
            buffer_bytes(*final(out)).len() >= buffer_bytes(*old(out)).len(),
            buffer_bytes(*final(out)).subrange(0, buffer_bytes(*old(out)).len() as int) == buffer_bytes(*old(out)),
            text_encoded(ty@.name, self@, buffer_bytes(*final(out)).subrange(buffer_bytes(*old(out)).len() as int, buffer_bytes(*final(out)).len() as int)),
    {
        let text: &str = &**self;
        encode_text(text, ty, out);
        proof {
            lemma_split_appended(buffer_bytes(*old(out)), buffer_bytes(*out));
        }
        Ok(IsNull::No)
    }

    fn accepts(ty: &Type) -> (r: bool) {
        accepts_str(ty)
    }

    fn rust_name() -> &'static str {
        "alloc::boxed::Box<str>"
    }

    fn encode_format(&self, ty: &Type) -> (r: Format) {
        Format::Binary
    }
}

impl<const N: usize> ToSql for [u8; N] {
    open spec fn accepted(ty: TypeView) -> bool {
        bytes_accepted(ty)
    }

    open spec fn encoded_len(&self) -> nat {
        self@.len()
    }

    open spec fn format_for(&self, ty: TypeView) -> Format {
        Format::Binary
    }

    open spec fn encodes(&self, ty: TypeView, w: Seq<u8>, null: IsNull) -> bool {
        null == IsNull::No && w == self@
    }

    fn to_sql(&self, ty: &Type, out: &mut BytesMut) -> (r: Result<IsNull, SqlError>)
        ensures
            r matches Ok(v) && v == IsNull::No,
            buffer_bytes(*final(out)) == buffer_bytes(*old(out)) + self@,
    {
        bytea_to_sql(self.as_slice(), out);
        Ok(IsNull::No)
    }

    fn accepts(ty: &Type) -> (r: bool) {
        accepts_bytes(ty)
    }

    fn rust_name() -> &'static str {
        "[u8; N]"
    }

    fn encode_format(&self, ty: &Type) -> (r: Format) {
        Format::Binary
    }
}

} // verus!
