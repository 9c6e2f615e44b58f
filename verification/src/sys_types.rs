//! Value wrappers of the KingbaseES MySQL-compatible `sys.tinyint` and
//! `sys.year` types.

use vstd::prelude::*;
use bytes::BytesMut;
use crate::builtin::Builtin;
use crate::codec::{Format, FromSql, ToSql, IsNull};
use crate::error::{SqlError, YearOutOfRange};
use crate::types::{Type, TypeView, KindView, Kind, str_equal};
use crate::wire::{buffer_bytes, be_signed, signed_bytes, put_i8, put_i32, read_be_i32};

verus! {

/// Whether `ty` is the MySQL-compatible `sys.tinyint` type: OID 8100, that
/// name and schema, and a simple kind.
pub open spec fn sys_tinyint_type(ty: TypeView) -> bool {
    &&& ty.oid == 8100
    &&& ty.name == "tinyint"@
    &&& ty.schema == "sys"@
    &&& ty.kind is Simple
}

/// Whether `ty` is the MySQL-compatible `sys.year` type: OID 7025, that
/// name and schema, and a domain over the built-in `int4`.
pub open spec fn sys_year_type(ty: TypeView) -> bool {
    &&& ty.oid == 7025
    &&& ty.name == "year"@
    &&& ty.schema == "sys"@
    &&& ty.kind matches KindView::Domain(base) && base.builtin == Some(Builtin::Int4)
}

fn is_sys_tinyint(ty: &Type) -> (r: bool)
    ensures
        r == sys_tinyint_type(ty@),
{
    ty.oid() == 8100 && str_equal(ty.name(), "tinyint") && str_equal(ty.schema(), "sys") && matches!(
        ty.kind(),
        Kind::Simple,
    )
}

fn is_sys_year(ty: &Type) -> (r: bool)
    ensures
        r == sys_year_type(ty@),
{
    let base_is_int4 = match ty.kind() {
        Kind::Domain(base) => base.is(Builtin::Int4),
        _ => false,
    };
    ty.oid() == 7025 && str_equal(ty.name(), "year") && str_equal(ty.schema(), "sys") && base_is_int4
}

/// The MySQL-compatible `sys.tinyint` value.
///
/// The wrapper accepts only the exact `sys.tinyint` type; the primitive `i8`
/// codec rules are left as they are.
#[derive(Debug, Copy, Clone, PartialEq, Eq, PartialOrd, Ord, Hash, Structural)]
pub struct TinyInt(pub i8);

impl From<i8> for TinyInt {
    fn from(value: i8) -> (r: TinyInt) {
        TinyInt(value)
    }
}

impl vstd::std_specs::convert::FromSpecImpl<i8> for TinyInt {
    open spec fn obeys_from_spec() -> bool {
        true
    }

    open spec fn from_spec(value: i8) -> TinyInt {
        TinyInt(value)
    }
}

impl From<TinyInt> for i8 {
    fn from(value: TinyInt) -> (r: i8) {
        value.0
    }
}

impl vstd::std_specs::convert::FromSpecImpl<TinyInt> for i8 {
    open spec fn obeys_from_spec() -> bool {
        true
    }

    open spec fn from_spec(value: TinyInt) -> i8 {
        value.0
    }
}

/// Converting an `i8` to a `TinyInt` and back gives it back.
pub proof fn law_tinyint_round_trip(v: i8)
    ensures
        <i8 as vstd::std_specs::convert::FromSpec<TinyInt>>::from_spec(
            <TinyInt as vstd::std_specs::convert::FromSpec<i8>>::from_spec(v),
        ) == v,
{
}

impl<'a> FromSql<'a> for TinyInt {
    open spec fn accepted(ty: TypeView) -> bool {
        sys_tinyint_type(ty)
    }

    open spec fn decodes(ty: TypeView, raw: Option<Seq<u8>>, v: Self) -> bool {
        raw matches Some(b) && b.len() == 1 && v.0 as int == be_signed(b)
    }

    open spec fn decodes_ok(ty: TypeView, raw: Seq<u8>) -> bool {
        raw.len() == 1
    }

    fn from_sql(ty: &Type, raw: &'a [u8]) -> (r: Result<TinyInt, SqlError>)
        ensures
            raw@.len() == 1 ==> (r matches Ok(v) && v.0 as int == be_signed(raw@)),
            raw@.len() != 1 ==> (r matches Err(e) && e is InvalidBufferSize),
    {
        if raw.len() != 1 {
            return Err(SqlError::InvalidBufferSize);
        }
        let b = raw[0];
        let v: i8 = if b < 128 {
            b as i8
        } else {
            (b as i16 - 256) as i8
        };
        proof {
            assert(raw@.drop_last() =~= Seq::<u8>::empty());
            assert(crate::wire::be_value(raw@.drop_last()) == 0);
            assert(crate::wire::be_value(raw@) == b as nat);
            crate::wire::lemma_pow256_small();
            assert(be_signed(raw@) == crate::wire::signed_of(b as nat, 1));
        }
        Ok(TinyInt(v))
    }

    fn accepts(ty: &Type) -> (r: bool) {
        is_sys_tinyint(ty)
    }
}

impl ToSql for TinyInt {
    open spec fn accepted(ty: TypeView) -> bool {
        sys_tinyint_type(ty)
    }

    open spec fn encoded_len(&self) -> nat {
        1
    }

    open spec fn format_for(&self, ty: TypeView) -> Format {
        Format::Binary
    }

    open spec fn encodes(&self, ty: TypeView, w: Seq<u8>, null: IsNull) -> bool {
        null == IsNull::No && w == signed_bytes(self.0 as int, 1)
    }

    fn to_sql(&self, ty: &Type, out: &mut BytesMut) -> (r: Result<IsNull, SqlError>)
        ensures
            r matches Ok(v) && v == IsNull::No,
            buffer_bytes(*final(out)) == buffer_bytes(*old(out)) + signed_bytes(self.0 as int, 1),
    {
        put_i8(out, self.0);
        Ok(IsNull::No)
    }

    fn accepts(ty: &Type) -> (r: bool) {
        is_sys_tinyint(ty)
    }

    fn rust_name() -> &'static str {
        "kingbase_types::sys_types::TinyInt"
    }

    fn encode_format(&self, ty: &Type) -> (r: Format) {
        Format::Binary
    }
}

/// The MySQL-compatible `sys.year` value, in `1901..=2155`.
///
/// The `sys.year` type is a domain over `int4`. This wrapper accepts only the
/// exact `sys.year` domain, not the ordinary `int4`.
#[derive(Debug, Copy, Clone, PartialEq, Eq, PartialOrd, Ord, Hash, Structural)]
pub struct Year(i32);

impl Year {
    /// Minimum supported MySQL `YEAR` value.
    pub const MIN: i32 = 1901;

    /// Maximum supported MySQL `YEAR` value.
    pub const MAX: i32 = 2155;

    /// The year lies in the supported range.
    #[verifier::type_invariant]
    closed spec fn in_range(self) -> bool {
        1901 <= self.0 <= 2155
    }

    /// Creates a `Year` after checking that it lies in `1901..=2155`.
    pub fn new(value: i32) -> (r: Result<Year, YearOutOfRange>)
        ensures
            r is Ok <==> 1901 <= value <= 2155,
            r matches Ok(y) ==> y.get() == value,
            r matches Err(e) ==> e.value() == value,
    {
        if Self::MIN <= value && value <= Self::MAX {
            Ok(Year(value))
        } else {
            Err(YearOutOfRange::of(value))
        }
    }

    /// The four-digit year.
    pub closed spec fn spec_get(self) -> i32 {
        self.0
    }

    /// Returns the underlying four-digit year value, which lies in `1901..=2155`.
    #[verifier::when_used_as_spec(spec_get)]
    pub fn get(self) -> (r: i32)
        ensures
            r == self.spec_get(),
            1901 <= r <= 2155,
    {
        proof {
            use_type_invariant(self);
        }
        self.0
    }
}

impl<'a> FromSql<'a> for Year {
    open spec fn accepted(ty: TypeView) -> bool {
        sys_year_type(ty)
    }

    open spec fn decodes(ty: TypeView, raw: Option<Seq<u8>>, v: Self) -> bool {
        raw matches Some(b) && b.len() == 4 && v.get() == be_signed(b)
    }

    open spec fn decodes_ok(ty: TypeView, raw: Seq<u8>) -> bool {
        raw.len() == 4 && 1901 <= be_signed(raw) <= 2155
    }

    fn from_sql(ty: &Type, raw: &'a [u8]) -> (r: Result<Year, SqlError>)
        ensures
            raw@.len() != 4 ==> (r matches Err(e) && e is InvalidBufferSize),
            raw@.len() == 4 && 1901 <= be_signed(raw@) <= 2155 ==> (r matches Ok(y) && y.get() == be_signed(raw@)),
            raw@.len() == 4 && !(1901 <= be_signed(raw@) <= 2155) ==> (r matches Err(SqlError::YearOutOfRange(e)) && e.value() == be_signed(raw@)),
    {
        if raw.len() != 4 {
            return Err(SqlError::InvalidBufferSize);
        }
        let value = read_be_i32(raw, 0);
        proof {
            assert(raw@.subrange(0, 4) =~= raw@);
        }
        match Year::new(value) {
            Ok(y) => Ok(y),
            Err(e) => Err(SqlError::YearOutOfRange(e)),
        }
    }

    fn accepts(ty: &Type) -> (r: bool) {
        is_sys_year(ty)
    }
}

impl ToSql for Year {
    open spec fn accepted(ty: TypeView) -> bool {
        sys_year_type(ty)
    }

    open spec fn encoded_len(&self) -> nat {
        4
    }

    open spec fn format_for(&self, ty: TypeView) -> Format {
        Format::Binary
    }

    open spec fn encodes(&self, ty: TypeView, w: Seq<u8>, null: IsNull) -> bool {
        null == IsNull::No && w == signed_bytes(self.get() as int, 4)
    }

    fn to_sql(&self, ty: &Type, out: &mut BytesMut) -> (r: Result<IsNull, SqlError>)
        ensures
            r matches Ok(v) && v == IsNull::No,
            buffer_bytes(*final(out)) == buffer_bytes(*old(out)) + signed_bytes(self.get() as int, 4),
    {
        put_i32(out, self.0);
        Ok(IsNull::No)
    }

    fn accepts(ty: &Type) -> (r: bool) {
        is_sys_year(ty)
    }

    fn rust_name() -> &'static str {
        "kingbase_types::sys_types::Year"
    }

    fn encode_format(&self, ty: &Type) -> (r: Format) {
        Format::Binary
    }
}

} // verus!
