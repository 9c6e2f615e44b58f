//! The MySQL compatibility layer's type mapping: which `sys` types the layer
//! owns, and which standard codec reads or binds a `sys` type.

use vstd::prelude::*;
use crate::builtin::{Builtin, builtin_view};
use crate::types::{Type, TypeView, KindView, Kind, str_equal, is_lookup_result};

verus! {

/// How the MySQL layer handles a type that it recognizes.
#[derive(Debug, Copy, Clone, PartialEq, Eq, Structural)]
pub enum MysqlTypeStrategy {
    /// A MySQL built-in type that the mapping layer recognizes but does not
    /// own: callers keep building the type from the catalog, and a wrapper
    /// such as `TinyInt` carries its values.
    CustomPending,
}

/// A MySQL type that the layer recognizes.
#[derive(Debug, Copy, Clone)]
pub struct MysqlTypeMapping {
    oid: u32,
    name: &'static str,
    schema: &'static str,
    strategy: MysqlTypeStrategy,
}

/// The types that the MySQL layer recognizes.
fn mysql_type_mappings() -> (r: Vec<MysqlTypeMapping>)
    ensures
        r@.len() == 1,
        r@[0].strategy == MysqlTypeStrategy::CustomPending,
{
    vec![MysqlTypeMapping { oid: 8100, name: "tinyint", schema: "sys", strategy: MysqlTypeStrategy::CustomPending }]
}

/// Maps the MySQL types that need MySQL-specific client behavior.
///
/// Returns a type only for types that the MySQL layer owns; shared types are
/// left to the ordinary catalog path. The layer owns none today: the one
/// type it recognizes, `sys.tinyint`, is still built from the catalog.
pub fn map_mysql_type(name: &str, oid: u32, kind: &Kind, schema: &str) -> (r: Option<Type>)
    ensures
        r is None,
{
    let mappings = mysql_type_mappings();
    let mut found: Option<MysqlTypeStrategy> = None;
    let mut i: usize = 0;
    while i < mappings.len()
        invariant
            i <= mappings@.len(),
            mappings@.len() == 1,
            mappings@[0].strategy == MysqlTypeStrategy::CustomPending,
            found is None || found == Some(MysqlTypeStrategy::CustomPending),
        decreases mappings@.len() - i,
    {
        let m = mappings[i];
        if m.oid == oid && str_equal(m.name, name) && str_equal(m.schema, schema) && matches!(kind, Kind::Simple) {
            found = Some(m.strategy);
            break;
        }
        i = i + 1;
    }
    match found {
        Some(MysqlTypeStrategy::CustomPending) | None => None,
    }
}

/// The standard type whose codec reads a MySQL `sys` type: `sys.date`,
/// `sys.time` and `sys.datetime` read as `date`, `time` and `timestamp`, and
/// `sys.binary` and `sys.varbinary` as `bytea`. `sys.timestamp` is left out:
/// reading it as `timestamp` shifts it by the session time zone.
pub open spec fn read_codec_alias(t: TypeView) -> Option<Builtin> {
    if t.schema != "sys"@ || !(t.kind is Simple) {
        None
    } else if t.oid == 7944 && t.name == "date"@ {
        Some(Builtin::Date)
    } else if t.oid == 7950 && t.name == "time"@ {
        Some(Builtin::Time)
    } else if t.oid == 7952 && t.name == "datetime"@ {
        Some(Builtin::Timestamp)
    } else if t.oid == 3383 && t.name == "binary"@ {
        Some(Builtin::Bytea)
    } else if t.oid == 3384 && t.name == "varbinary"@ {
        Some(Builtin::Bytea)
    } else {
        None
    }
}

/// Returns the standard type whose codec reads values of `type_`, if any.
pub fn read_codec_alias_for_mysql_type(type_: &Type) -> (r: Option<Type>)
    ensures
        is_lookup_result(r, read_codec_alias(type_@)),
{
    if !str_equal(type_.schema(), "sys") || !matches!(type_.kind(), Kind::Simple) {
        return None;
    }
    let oid = type_.oid();
    let name = type_.name();
    if oid == 7944 && str_equal(name, "date") {
        Some(Type::DATE())
    } else if oid == 7950 && str_equal(name, "time") {
        Some(Type::TIME())
    } else if oid == 7952 && str_equal(name, "datetime") {
        Some(Type::TIMESTAMP())
    } else if oid == 3383 && str_equal(name, "binary") {
        Some(Type::BYTEA())
    } else if oid == 3384 && str_equal(name, "varbinary") {
        Some(Type::BYTEA())
    } else {
        None
    }
}

/// Whether `t` is a domain over the built-in type `base`.
pub open spec fn domain_over(t: TypeView, base: Builtin) -> bool {
    t.kind matches KindView::Domain(b) && b.builtin == Some(base)
}

/// Whether `type_` is a domain over the built-in type `base`.
fn is_domain_over(type_: &Type, base: Builtin) -> (r: bool)
    ensures
        r == domain_over(type_@, base),
{
    match type_.kind() {
        Kind::Domain(b) => b.is(base),
        _ => false,
    }
}

/// Whether `t` is a domain over `sys.blob`, itself a domain over `bytea`.
pub open spec fn sys_blob_domain(t: TypeView) -> bool {
    t.kind matches KindView::Domain(b) && b.schema == "sys"@ && b.oid == 8013 && b.name == "blob"@
        && domain_over(*b, Builtin::Bytea)
}

/// Whether `type_` is a domain over `sys.blob`, itself a domain over `bytea`.
fn is_sys_blob_domain(type_: &Type) -> (r: bool)
    ensures
        r == sys_blob_domain(type_@),
{
    match type_.kind() {
        Kind::Domain(base) => str_equal(base.schema(), "sys") && base.oid() == 8013 && str_equal(
            base.name(),
            "blob",
        ) && is_domain_over(base, Builtin::Bytea),
        _ => false,
    }
}

/// The standard type whose codec binds a parameter of a MySQL `sys` type:
/// the date and time types and `binary`/`varbinary` as for reading, and the
/// `sys` domains `mediumint`, the text domains, the blob domains and `json`
/// as their standard base types. Other `sys` types get none.
pub open spec fn param_codec_alias(t: TypeView) -> Option<Builtin> {
    if t.schema != "sys"@ {
        None
    } else if t.oid == 7944 && t.name == "date"@ && t.kind is Simple {
        Some(Builtin::Date)
    } else if t.oid == 7950 && t.name == "time"@ && t.kind is Simple {
        Some(Builtin::Time)
    } else if t.oid == 7952 && t.name == "datetime"@ && t.kind is Simple {
        Some(Builtin::Timestamp)
    } else if ((t.oid == 3383 && t.name == "binary"@) || (t.oid == 3384 && t.name == "varbinary"@))
        && t.kind is Simple {
        Some(Builtin::Bytea)
    } else if t.oid == 7016 && t.name == "mediumint"@ && domain_over(t, Builtin::Int4) {
        Some(Builtin::Int4)
    } else if ((t.oid == 7020 && t.name == "tinytext"@) || (t.oid == 7019 && t.name
        == "mediumtext"@) || (t.oid == 7018 && t.name == "longtext"@)) && domain_over(
        t,
        Builtin::Text,
    ) {
        Some(Builtin::Text)
    } else if t.oid == 8013 && t.name == "blob"@ && domain_over(t, Builtin::Bytea) {
        Some(Builtin::Bytea)
    } else if ((t.oid == 7023 && t.name == "tinyblob"@) || (t.oid == 7022 && t.name
        == "mediumblob"@) || (t.oid == 7021 && t.name == "longblob"@)) && sys_blob_domain(t) {
        Some(Builtin::Bytea)
    } else if t.oid == 7024 && t.name == "json"@ && domain_over(t, Builtin::Jsonb) {
        Some(Builtin::Jsonb)
    } else {
        None
    }
}

/// Returns the standard type whose codec binds parameters of `type_`, if any.
pub fn param_codec_alias_for_mysql_type(type_: &Type) -> (r: Option<Type>)
    ensures
        is_lookup_result(r, param_codec_alias(type_@)),
{
    if !str_equal(type_.schema(), "sys") {
        return None;
    }
    let oid = type_.oid();
    let name = type_.name();
    let simple = matches!(type_.kind(), Kind::Simple);
    if oid == 7944 && str_equal(name, "date") && simple {
        Some(Type::DATE())
    } else if oid == 7950 && str_equal(name, "time") && simple {
        Some(Type::TIME())
    } else if oid == 7952 && str_equal(name, "datetime") && simple {
        Some(Type::TIMESTAMP())
    } else if ((oid == 3383 && str_equal(name, "binary")) || (oid == 3384 && str_equal(name, "varbinary")))
        && simple {
        Some(Type::BYTEA())
    } else if oid == 7016 && str_equal(name, "mediumint") && is_domain_over(type_, Builtin::Int4) {
        Some(Type::INT4())
    } else if ((oid == 7020 && str_equal(name, "tinytext")) || (oid == 7019 && str_equal(
        name,
        "mediumtext",
    )) || (oid == 7018 && str_equal(name, "longtext"))) && is_domain_over(type_, Builtin::Text) {
        Some(Type::TEXT())
    } else if oid == 8013 && str_equal(name, "blob") && is_domain_over(type_, Builtin::Bytea) {
        Some(Type::BYTEA())
    } else if ((oid == 7023 && str_equal(name, "tinyblob")) || (oid == 7022 && str_equal(
        name,
        "mediumblob",
    )) || (oid == 7021 && str_equal(name, "longblob"))) && is_sys_blob_domain(type_) {
        Some(Type::BYTEA())
    } else if oid == 7024 && str_equal(name, "json") && is_domain_over(type_, Builtin::Jsonb) {
        Some(Type::JSONB())
    } else {
        None
    }
}

/// A codec alias for reading is a standard PostgreSQL type, and only a type
/// of the `sys` schema gets one.
pub proof fn law_read_alias_is_standard(t: TypeView)
    requires
        read_codec_alias(t) is Some,
    ensures
        t.schema == "sys"@,
        crate::builtin::builtin_system(read_codec_alias(t)->0) == crate::types::TypeSystem::Pg,
{
}

/// A codec alias for binding is a standard PostgreSQL type, and only a type
/// of the `sys` schema gets one.
pub proof fn law_param_alias_is_standard(t: TypeView)
    requires
        param_codec_alias(t) is Some,
    ensures
        t.schema == "sys"@,
        crate::builtin::builtin_system(param_codec_alias(t)->0) == crate::types::TypeSystem::Pg,
{
}

/// Every type that is aliased for reading is aliased to the same type for
/// binding.
pub proof fn law_read_alias_binds_alike(t: TypeView)
    requires
        read_codec_alias(t) is Some,
    ensures
        param_codec_alias(t) == read_codec_alias(t),
{
}

} // verus!
