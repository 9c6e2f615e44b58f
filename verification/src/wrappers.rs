//! The conversions of optional, boxed and borrowed values, which defer to
//! those of the value inside.

use vstd::prelude::*;
use bytes::BytesMut;
use crate::codec::{Format, FromSql, IsNull, ToSql};
use crate::error::SqlError;
use crate::types::{Type, TypeView};
use crate::wire::buffer_bytes;

verus! {

/// A type that can be created from any database value, whatever the
/// lifetime of the value's bytes.
pub trait FromSqlOwned: for<'a> FromSql<'a> {
}

impl<T> FromSqlOwned for T where T: for<'a> FromSql<'a> {
}

/// The types whose values can be handed to a query as parameters.
pub trait Sealed {
}

impl<T: ToSql> Sealed for T {
}

impl<'a, T: FromSql<'a>> FromSql<'a> for Option<T> {
    open spec fn accepted(ty: TypeView) -> bool {
        T::accepted(ty)
    }

    open spec fn decodes(ty: TypeView, raw: Option<Seq<u8>>, v: Self) -> bool {
        match raw {
            Some(b) => v matches Some(x) && T::decodes(ty, Some(b), x),
            None => v is None,
        }
    }

    open spec fn decodes_ok(ty: TypeView, raw: Seq<u8>) -> bool {
        T::decodes_ok(ty, raw)
    }

    fn from_sql(ty: &Type, raw: &'a [u8]) -> (r: Result<Option<T>, SqlError>)
        ensures
            r is Ok ==> r->Ok_0 is Some,
    {
        match T::from_sql(ty, raw) {
            Ok(v) => Ok(Some(v)),
            Err(e) => Err(e),
        }
    }

    fn from_sql_null(ty: &Type) -> (r: Result<Option<T>, SqlError>)
        ensures
            r matches Ok(None),
    {
        Ok(None)
    }

    fn accepts(ty: &Type) -> (r: bool) {
        T::accepts(ty)
    }
}

impl<'a, T: FromSql<'a>> FromSql<'a> for Box<T> {
    open spec fn accepted(ty: TypeView) -> bool {
        T::accepted(ty)
    }

    open spec fn decodes(ty: TypeView, raw: Option<Seq<u8>>, v: Self) -> bool {
        T::decodes(ty, raw, *v)
    }

    open spec fn decodes_ok(ty: TypeView, raw: Seq<u8>) -> bool {
        T::decodes_ok(ty, raw)
    }

    fn from_sql(ty: &Type, raw: &'a [u8]) -> (r: Result<Box<T>, SqlError>) {
        match T::from_sql(ty, raw) {
            Ok(v) => Ok(Box::new(v)),
            Err(e) => Err(e),
        }
    }

    fn accepts(ty: &Type) -> (r: bool) {
        T::accepts(ty)
    }
}

impl<T: ToSql> ToSql for Option<T> {
    open spec fn accepted(ty: TypeView) -> bool {
        T::accepted(ty)
    }

    open spec fn encoded_len(&self) -> nat {
        match self {
            Some(v) => v.encoded_len(),
            None => 0,
        }
    }

    open spec fn format_for(&self, ty: TypeView) -> Format {
        match self {
            Some(v) => v.format_for(ty),
            None => Format::Binary,
        }
    }

    open spec fn encodes(&self, ty: TypeView, w: Seq<u8>, null: IsNull) -> bool {
        match self {
            Some(x) => x.encodes(ty, w, null),
            None => null == IsNull::Yes && w.len() == 0,
        }
    }

    fn to_sql(&self, ty: &Type, out: &mut BytesMut) -> (r: Result<IsNull, SqlError>)
        ensures
            self is None ==> r == Ok::<IsNull, SqlError>(IsNull::Yes) && buffer_bytes(*final(out))
                == buffer_bytes(*old(out)),
    {
        match self {
            Some(v) => v.to_sql(ty, out),
            None => {
                proof {
                    assert(buffer_bytes(*out) =~= buffer_bytes(*old(out)) + Seq::<u8>::empty());
                }
                Ok(IsNull::Yes)
            },
        }
    }

    fn accepts(ty: &Type) -> (r: bool) {
        T::accepts(ty)
    }

    fn rust_name() -> &'static str {
        T::rust_name()
    }

    fn encode_format(&self, ty: &Type) -> (r: Format) {
        match self {
            Some(v) => v.encode_format(ty),
            None => Format::Binary,
        }
    }
}

impl<T: ToSql> ToSql for Box<T> {
    open spec fn accepted(ty: TypeView) -> bool {
        T::accepted(ty)
    }

    open spec fn encoded_len(&self) -> nat {
        (**self).encoded_len()
    }

    open spec fn format_for(&self, ty: TypeView) -> Format {
        (**self).format_for(ty)
    }

    open spec fn encodes(&self, ty: TypeView, w: Seq<u8>, null: IsNull) -> bool {
        (**self).encodes(ty, w, null)
    }

    fn to_sql(&self, ty: &Type, out: &mut BytesMut) -> (r: Result<IsNull, SqlError>) {
        (**self).to_sql(ty, out)
    }

    fn accepts(ty: &Type) -> (r: bool) {
        T::accepts(ty)
    }

    fn rust_name() -> &'static str {
        T::rust_name()
    }

    fn encode_format(&self, ty: &Type) -> (r: Format) {
        (**self).encode_format(ty)
    }
}

impl<'r, T: ToSql> ToSql for &'r T {
    open spec fn accepted(ty: TypeView) -> bool {
        T::accepted(ty)
    }

    open spec fn encoded_len(&self) -> nat {
        (**self).encoded_len()
    }

    open spec fn format_for(&self, ty: TypeView) -> Format {
        (**self).format_for(ty)
    }

    open spec fn encodes(&self, ty: TypeView, w: Seq<u8>, null: IsNull) -> bool {
        (**self).encodes(ty, w, null)
    }

    fn to_sql(&self, ty: &Type, out: &mut BytesMut) -> (r: Result<IsNull, SqlError>) {
        (**self).to_sql(ty, out)
    }

    fn accepts(ty: &Type) -> (r: bool) {
        T::accepts(ty)
    }

    fn rust_name() -> &'static str {
        T::rust_name()
    }

    fn encode_format(&self, ty: &Type) -> (r: Format) {
        (**self).encode_format(ty)
    }
}

} // verus!
