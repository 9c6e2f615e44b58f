//! The conversions between Rust values and the binary wire form of database
//! values.

use vstd::prelude::*;
use bytes::BytesMut;
use crate::types::{Type, TypeView};
use crate::error::{SqlError, WasNull, WrongType};
use crate::wire::buffer_bytes;

verus! {

/// An enum representing the nullability of a value.
#[derive(Debug, Copy, Clone, PartialEq, Eq, Structural)]
pub enum IsNull {
    /// The value is NULL.
    Yes,
    /// The value is not NULL.
    No,
}

/// Supported message format types.
///
/// Using Text format in a message assumes a `SERVER_ENCODING` of `UTF8`.
#[derive(Debug, Copy, Clone, PartialEq, Eq, Structural)]
pub enum Format {
    /// Text format (UTF-8)
    Text,
    /// Compact, typed binary format
    Binary,
}

/// A buffer that starts with `before` is `before` followed by the rest.
pub proof fn lemma_split_appended(before: Seq<u8>, after: Seq<u8>)
    requires
        before.len() <= after.len(),
        after.subrange(0, before.len() as int) == before,
    ensures
        after == before + after.subrange(before.len() as int, after.len() as int),
{
    assert(after =~= before + after.subrange(before.len() as int, after.len() as int));
}

/// The bytes of an optional payload.
pub open spec fn optional_bytes(raw: Option<&[u8]>) -> Option<Seq<u8>> {
    match raw {
        Some(b) => Some(b@),
        None => None,
    }
}

/// A trait for types that can be created from a database value.
pub trait FromSql<'a>: Sized {
    /// The database types whose values this type can be created from.
    spec fn accepted(ty: TypeView) -> bool;

    /// Whether `v` is a value that this type reads from the payload `raw`
    /// of a value of the type `ty`, `None` standing for `NULL`.
    spec fn decodes(ty: TypeView, raw: Option<Seq<u8>>, v: Self) -> bool;

    /// Whether `from_sql` owes success on the payload `raw` of a value of
    /// the type `ty`: the payload is well formed for this type, and no
    /// outside call has a say in the outcome.
    spec fn decodes_ok(ty: TypeView, raw: Seq<u8>) -> bool;

    /// Creates a new value of this type from a buffer of data of the
    /// specified database type in its binary format.
    ///
    /// The caller of this method is responsible for ensuring that this type
    /// is compatible with the database type.
    fn from_sql(ty: &Type, raw: &'a [u8]) -> (r: Result<Self, SqlError>)
        ensures
            r matches Ok(v) ==> Self::decodes(ty@, Some(raw@), v),
            Self::decodes_ok(ty@, raw@) ==> r is Ok,
    ;

    /// Creates a new value of this type from a `NULL` SQL value.
    ///
    /// The default implementation returns `WasNull`.
    fn from_sql_null(ty: &Type) -> (r: Result<Self, SqlError>)
        ensures
            r matches Ok(v) ==> Self::decodes(ty@, None, v),
        default_ensures
            r matches Err(SqlError::WasNull(_)),
    {
        Err(SqlError::WasNull(WasNull))
    }

    /// Delegates to `from_sql` and `from_sql_null` depending on the value
    /// of `raw`.
    fn from_sql_nullable(ty: &Type, raw: Option<&'a [u8]>) -> (r: Result<Self, SqlError>)
        ensures
            r matches Ok(v) ==> Self::decodes(ty@, optional_bytes(raw), v),
            raw matches Some(b) && Self::decodes_ok(ty@, b@) ==> r is Ok,
    {
        match raw {
            Some(raw) => Self::from_sql(ty, raw),
            None => Self::from_sql_null(ty),
        }
    }

    /// Determines if a value of this type can be created from the specified
    /// database type.
    fn accepts(ty: &Type) -> (r: bool)
        ensures
            r == Self::accepted(ty@),
    ;
}

/// A trait for types that can be converted into database values.
pub trait ToSql {
    /// The database types that values of this type can be converted to.
    spec fn accepted(ty: TypeView) -> bool;

    /// The room that `to_sql` needs left in the buffer: an upper bound of
    /// the number of bytes that it appends, or 0 for a conversion that
    /// checks its room itself.
    spec fn encoded_len(&self) -> nat;

    /// Whether `w` are the bytes that `to_sql` appends for this value as a
    /// value of the type `ty`, where it returns `null`.
    spec fn encodes(&self, ty: TypeView, w: Seq<u8>, null: IsNull) -> bool;

    /// Converts the value of `self` into the binary format of the specified
    /// database type, appending it to `out`.
    ///
    /// The caller of this method is responsible for ensuring that this type
    /// is compatible with the database type. The return value indicates if
    /// this value should be represented as `NULL`; if so, nothing is written
    /// to `out`.
    ///
    /// A type mismatch is reported by `to_sql_checked`, never by `to_sql`.
    fn to_sql(&self, ty: &Type, out: &mut BytesMut) -> (r: Result<IsNull, SqlError>)
        requires
            buffer_bytes(*old(out)).len() + self.encoded_len() <= isize::MAX,
        ensures
            !(r matches Err(SqlError::WrongType(_))),
            r matches Ok(n) ==> exists|w: Seq<u8>|
                #![trigger buffer_bytes(*old(out)) + w]
                buffer_bytes(*final(out)) == buffer_bytes(*old(out)) + w && self.encodes(ty@, w, n),
            r matches Ok(IsNull::Yes) ==> buffer_bytes(*final(out)) == buffer_bytes(*old(out)),
    ;

    /// Determines if a value of this type can be converted to the specified
    /// database type.
    fn accepts(ty: &Type) -> (r: bool)
        ensures
            r == Self::accepted(ty@),
    ;

    /// The name of this Rust type, as errors report it.
    fn rust_name() -> &'static str;

    /// Converts `self` after checking that this type accepts `ty`; a type
    /// that it does not accept gives a `WrongType` error and writes nothing.
    fn to_sql_checked(&self, ty: &Type, out: &mut BytesMut) -> (r: Result<IsNull, SqlError>)
        requires
            buffer_bytes(*old(out)).len() + self.encoded_len() <= isize::MAX,
        ensures
            !Self::accepted(ty@) ==> (r matches Err(SqlError::WrongType(w))
                && w.postgres_type() == ty@ && buffer_bytes(*final(out)) == buffer_bytes(
                *old(out),
            )),
            Self::accepted(ty@) ==> !(r matches Err(SqlError::WrongType(_))),
            r matches Ok(n) ==> exists|w: Seq<u8>|
                #![trigger buffer_bytes(*old(out)) + w]
                buffer_bytes(*final(out)) == buffer_bytes(*old(out)) + w && self.encodes(ty@, w, n),
            r matches Ok(IsNull::Yes) ==> buffer_bytes(*final(out)) == buffer_bytes(*old(out)),
    {
        if !Self::accepts(ty) {
            return Err(SqlError::WrongType(WrongType::new(ty.clone(), Self::rust_name())));
        }
        self.to_sql(ty, out)
    }

    /// The format in which this value is sent as a value of the type `ty`.
    spec fn format_for(&self, ty: TypeView) -> Format;

    /// Specify the encode format.
    fn encode_format(&self, ty: &Type) -> (r: Format)
        ensures
            r == self.format_for(ty@),
    ;
}

} // verus!
