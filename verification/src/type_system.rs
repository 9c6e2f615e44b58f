//! The type table that each compatibility mode resolves OIDs in, and the
//! codec types that it substitutes.

use vstd::prelude::*;
use crate::sql_compat::CompatibleMode;
use crate::types::{Type, TypeSystem, resolve_in, is_lookup_result};

verus! {

/// Returns the built-in type of `oid` in the type table of `type_system`.
pub fn type_from_oid(type_system: TypeSystem, oid: u32) -> (r: Option<Type>)
    ensures
        is_lookup_result(r, resolve_in(type_system, oid)),
{
    Type::from_oid_in(type_system, oid)
}

/// The codec type that binds parameters of `type_` in `mode`: the type
/// tables already hold the compatibility types, so no mode substitutes one.
pub fn param_codec_type(mode: CompatibleMode, type_: &Type) -> (r: Option<Type>)
    ensures
        r is None,
{
    None
}

/// The codec type that reads values of `type_` in `mode`: no mode
/// substitutes one.
pub fn read_codec_type(mode: CompatibleMode, type_: &Type) -> (r: Option<Type>)
    ensures
        r is None,
{
    None
}

} // verus!
