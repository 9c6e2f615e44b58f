//! The codec of `uuid::Uuid`: a UUID value is its sixteen bytes.

use vstd::prelude::*;
use bytes::BytesMut;
use uuid::Uuid;
use crate::builtin::Builtin;
use crate::codec::{Format, FromSql, IsNull, ToSql};
use crate::error::SqlError;
use crate::kingbase::is_builtin;
use crate::protocol::{uuid_from_sql, uuid_to_sql};
use crate::types::{Type, TypeView};
use crate::wire::buffer_bytes;

verus! {

#[verifier::external_type_specification]
#[verifier::external_body]
pub struct ExUuid(uuid::Uuid);

/// The types whose values are UUIDs.
pub open spec fn uuid_accepted(ty: TypeView) -> bool {
    is_builtin(ty, Builtin::Uuid) || is_builtin(ty, Builtin::SqlserverUniqueidentifier)
}

fn accepts_uuid(ty: &Type) -> (r: bool)
    ensures
        r == uuid_accepted(ty@),
{
    ty.is(Builtin::Uuid) || ty.is(Builtin::SqlserverUniqueidentifier)
}

/// The sixteen bytes that `Uuid::as_bytes` gives for `u`.
pub uninterp spec fn uuid_bytes_of(u: Uuid) -> Seq<u8>;

/// `Uuid::from_bytes`: the UUID made of the sixteen bytes `b`; a `Uuid` is
/// those bytes, so `as_bytes` gives them back.
#[verifier::external_body]
fn uuid_from_bytes(b: [u8; 16]) -> (r: Uuid)
    ensures
        uuid_bytes_of(r) == b@,
{
    Uuid::from_bytes(b)
}

/// `Uuid::as_bytes`: the sixteen bytes of `u`, named `uuid_bytes_of`.
#[verifier::external_body]
fn uuid_bytes(u: &Uuid) -> (r: [u8; 16])
    ensures
        r@ == uuid_bytes_of(*u),
{
    *u.as_bytes()
}

/// Reads the sixteen bytes of a UUID payload.
pub fn read_uuid(raw: &[u8]) -> (r: Result<[u8; 16], SqlError>)
    ensures
        raw@.len() == 16 ==> (r matches Ok(b) && b@ == raw@),
        raw@.len() != 16 ==> r matches Err(SqlError::Protocol(_)),
{
    match uuid_from_sql(raw) {
        Ok(b) => Ok(b),
        Err(e) => Err(SqlError::Protocol(e)),
    }
}

impl<'a> FromSql<'a> for Uuid {
    open spec fn accepted(ty: TypeView) -> bool {
        uuid_accepted(ty)
    }

    open spec fn decodes(ty: TypeView, raw: Option<Seq<u8>>, v: Self) -> bool {
        raw matches Some(b) && b.len() == 16 && uuid_bytes_of(v) == b
    }

    open spec fn decodes_ok(ty: TypeView, raw: Seq<u8>) -> bool {
        raw.len() == 16
    }

    /// Reads the UUID of a payload of sixteen bytes.
    fn from_sql(ty: &Type, raw: &'a [u8]) -> (r: Result<Uuid, SqlError>)
        ensures
            r is Ok <==> raw@.len() == 16,
            r matches Ok(u) ==> uuid_bytes_of(u) == raw@,
            r is Err ==> r matches Err(SqlError::Protocol(_)),
    {
        match read_uuid(raw) {
            Ok(b) => Ok(uuid_from_bytes(b)),
            Err(e) => Err(e),
        }
    }

    fn accepts(ty: &Type) -> (r: bool) {
        accepts_uuid(ty)
    }
}

impl ToSql for Uuid {
    open spec fn accepted(ty: TypeView) -> bool {
        uuid_accepted(ty)
    }

    open spec fn encoded_len(&self) -> nat {
        16
    }

    open spec fn format_for(&self, ty: TypeView) -> Format {
        Format::Binary
    }

    open spec fn encodes(&self, ty: TypeView, w: Seq<u8>, null: IsNull) -> bool {
        null == IsNull::No && w == uuid_bytes_of(*self)
    }

    /// Writes the sixteen bytes of the UUID.
    fn to_sql(&self, ty: &Type, out: &mut BytesMut) -> (r: Result<IsNull, SqlError>)
        ensures
            r == Ok::<IsNull, SqlError>(IsNull::No),
            buffer_bytes(*final(out)) == buffer_bytes(*old(out)) + uuid_bytes_of(*self),
    {
        let b = uuid_bytes(self);
        uuid_to_sql(b, out);
        Ok(IsNull::No)
    }

    fn accepts(ty: &Type) -> (r: bool) {
        accepts_uuid(ty)
    }

    fn rust_name() -> &'static str {
        "uuid::Uuid"
    }

    fn encode_format(&self, ty: &Type) -> (r: Format) {
        Format::Binary
    }
}

} // verus!
