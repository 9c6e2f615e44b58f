//! The decisions of type resolution: which OIDs are built in, how a type
//! from the catalog is built, and whether the catalog agrees with a built-in
//! compatibility type.

use vstd::prelude::*;
use crate::builtin::{Builtin, builtin_view, builtin_system};
use std::borrow::Cow;
use crate::sql_compat::{CompatibleMode, oracle_numbers_fit, rewrite_query, rewritten_query};
use crate::error::SqlError;
use crate::messages::{
    describe_body, describe_message, describe_writable, framed, parse_body, parse_message,
    parse_writable, sync_message, sync_message_into, lemma_oid_list_len,
};
use crate::wire::lemma_be_bytes_len;
use crate::query::TypedResponse;
use crate::statement::Column;
use crate::wire::{buffer_bytes, buffer_to_vec, new_buffer};
use vstd::string::StringSliceAdditionalSpecFns;
use vstd::utf8::encode_utf8;
use crate::text::{decimal, push_str_chars, push_decimal, string_from_chars};
use crate::types::{Type, TypeView, KindView, Kind, TypeSystem, resolve_in, str_equal};

verus! {

/// A row of the type catalog, as the type-information query returns it.
#[derive(Debug)]
pub struct TypeInfo {
    /// The type's name.
    pub name: String,
    /// The `typtype` code: `b` base, `d` domain, `e` enum, `p` pseudo, ...
    pub type_: i8,
    /// The element type of an array type, or 0.
    pub elem_oid: u32,
    /// The subtype of a range type, if it is one.
    pub rngsubtype: Option<u32>,
    /// The base type of a domain, or 0.
    pub basetype: u32,
    /// The type's schema.
    pub schema: String,
    /// The relation of a composite type, or 0.
    pub relid: u32,
}

/// Whether the catalog row `info` has the kind `expected`.
pub open spec fn kind_agrees(expected: KindView, info: TypeInfo) -> bool {
    match expected {
        KindView::Simple => info.basetype == 0 && info.elem_oid == 0 && info.rngsubtype is None
            && info.relid == 0,
        KindView::Pseudo => info.type_ == 112,
        KindView::Domain(base) => info.type_ == 100 && info.basetype == base.oid,
        KindView::Array(member) => info.elem_oid == member.oid,
        KindView::Range(member) => info.rngsubtype == Some(member.oid),
        KindView::Enum(_) => info.type_ == 101,
        KindView::MySqlEnum(_) => info.type_ == 108,
        KindView::MySqlSet => info.type_ == 121,
        KindView::Multirange(_) => false,
        KindView::Composite(_) => info.relid != 0,
    }
}

/// The message of a catalog mismatch for the type `expected`.
pub open spec fn catalog_message(expected: TypeView, detail: Seq<char>) -> Seq<char> {
    "Kingbase type catalog mismatch for "@ + expected.schema + "."@ + expected.name + " (OID "@
        + decimal(expected.oid as nat) + "): "@ + detail
}

/// The detail of a mismatch of kinds.
pub open spec fn kind_detail(info: TypeInfo) -> Seq<char> {
    "catalog kind differs (typtype="@ + seq![(info.type_ as u8) as char] + ", typelem="@
        + decimal(info.elem_oid as nat) + ", typbasetype="@ + decimal(info.basetype as nat)
        + ", typrelid="@ + decimal(info.relid as nat) + ")"@
}

/// Describes a mismatch between a built-in type and the catalog.
pub fn type_catalog_error(expected: &Type, detail: &str) -> (r: String)
    ensures
        r@ == catalog_message(expected@, detail@),
{
    let mut v: Vec<char> = Vec::new();
    push_str_chars(&mut v, "Kingbase type catalog mismatch for ");
    push_str_chars(&mut v, expected.schema());
    push_str_chars(&mut v, ".");
    push_str_chars(&mut v, expected.name());
    push_str_chars(&mut v, " (OID ");
    push_decimal(&mut v, expected.oid() as u64);
    push_str_chars(&mut v, "): ");
    push_str_chars(&mut v, detail);
    string_from_chars(&v)
}

/// Checks that the catalog row of a built-in compatibility type has its
/// name, schema and kind; the error describes the first difference.
pub fn validate_extension_type(expected: &Type, actual: &TypeInfo) -> (r: Result<(), String>)
    ensures
        r is Ok <==> expected@.name == actual.name@ && expected@.schema == actual.schema@
            && kind_agrees(expected@.kind, *actual),
        !(expected@.name == actual.name@ && expected@.schema == actual.schema@) ==> (r matches Err(
            m,
        ) && m@ == catalog_message(
            expected@,
            "catalog contains "@ + actual.schema@ + "."@ + actual.name@ + " instead"@,
        )),
        expected@.name == actual.name@ && expected@.schema == actual.schema@ && !kind_agrees(
            expected@.kind,
            *actual,
        ) ==> (r matches Err(m) && m@ == catalog_message(expected@, kind_detail(*actual))),
{
    if !str_equal(expected.name(), actual.name.as_str()) || !str_equal(expected.schema(), actual.schema.as_str()) {
        let mut v: Vec<char> = Vec::new();
        push_str_chars(&mut v, "catalog contains ");
        push_str_chars(&mut v, actual.schema.as_str());
        push_str_chars(&mut v, ".");
        push_str_chars(&mut v, actual.name.as_str());
        push_str_chars(&mut v, " instead");
        let detail = string_from_chars(&v);
        return Err(type_catalog_error(expected, detail.as_str()));
    }
    let kind_matches = match expected.kind() {
        Kind::Simple => actual.basetype == 0 && actual.elem_oid == 0 && actual.rngsubtype.is_none()
            && actual.relid == 0,
        Kind::Pseudo => actual.type_ == 112,
        Kind::Domain(base) => actual.type_ == 100 && actual.basetype == base.oid(),
        Kind::Array(member) => actual.elem_oid == member.oid(),
        Kind::Range(member) => match actual.rngsubtype {
            Some(o) => o == member.oid(),
            None => false,
        },
        Kind::Enum(_) => actual.type_ == 101,
        Kind::MySqlEnum(_) => actual.type_ == 108,
        Kind::MySqlSet => actual.type_ == 121,
        Kind::Multirange(_) => false,
        Kind::Composite(_) => actual.relid != 0,
    };
    if !kind_matches {
        let mut v: Vec<char> = Vec::new();
        push_str_chars(&mut v, "catalog kind differs (typtype=");
        v.push((actual.type_ as u8) as char);
        push_str_chars(&mut v, ", typelem=");
        push_decimal(&mut v, actual.elem_oid as u64);
        push_str_chars(&mut v, ", typbasetype=");
        push_decimal(&mut v, actual.basetype as u64);
        push_str_chars(&mut v, ", typrelid=");
        push_decimal(&mut v, actual.relid as u64);
        push_str_chars(&mut v, ")");
        let detail = string_from_chars(&v);
        return Err(type_catalog_error(expected, detail.as_str()));
    }
    Ok(())
}

/// How the kind of a type from the catalog is built: from its enum labels,
/// as a MySQL ENUM or SET, as a pseudo-type, or from the type it is a
/// domain, array or range of, or the relation whose fields it has.
#[derive(Debug, Copy, Clone, PartialEq, Eq, Structural)]
pub enum KindPlan {
    /// An enum: its labels are loaded.
    Enum,
    /// A MySQL dynamic ENUM: its labels are loaded.
    MySqlEnum,
    /// A MySQL dynamic SET.
    MySqlSet,
    /// A pseudo-type.
    Pseudo,
    /// A domain over the type with this OID.
    Domain(u32),
    /// An array of the type with this OID.
    Array(u32),
    /// A composite type with the fields of the relation with this OID.
    Composite(u32),
    /// A range of the type with this OID.
    Range(u32),
    /// A simple type.
    Simple,
}

/// Whether `s` starts with `p`.
pub open spec fn has_prefix(s: Seq<char>, p: Seq<char>) -> bool {
    p.len() <= s.len() && s.subrange(0, p.len() as int) == p
}

/// Whether the characters of `s` start with those of `p`.
pub fn starts_with(s: &str, p: &str) -> (r: bool)
    ensures
        r == has_prefix(s@, p@),
{
    let a = crate::text::str_chars(s);
    let b = crate::text::str_chars(p);
    if b.len() > a.len() {
        return false;
    }
    let mut i: usize = 0;
    while i < b.len()
        invariant
            i <= b@.len() <= a@.len(),
            a@ == s@,
            b@ == p@,
            forall|j: int| 0 <= j < i ==> a@[j] == b@[j],
        decreases b@.len() - i,
    {
        if a[i] != b[i] {
            assert(s@.subrange(0, p@.len() as int)[i as int] != p@[i as int]);
            return false;
        }
        i = i + 1;
    }
    assert(s@.subrange(0, p@.len() as int) =~= p@);
    true
}

/// The plan for a catalog row in a compatibility mode.
pub open spec fn kind_plan_of(mode: CompatibleMode, info: TypeInfo) -> KindPlan {
    if info.type_ == 101 {
        KindPlan::Enum
    } else if mode == CompatibleMode::Mysql && info.type_ == 108 && has_prefix(info.name@, "Enum_"@) {
        KindPlan::MySqlEnum
    } else if mode == CompatibleMode::Mysql && info.type_ == 121 && has_prefix(info.name@, "Set_"@) {
        KindPlan::MySqlSet
    } else if info.type_ == 112 {
        KindPlan::Pseudo
    } else if info.basetype != 0 {
        KindPlan::Domain(info.basetype)
    } else if info.elem_oid != 0 {
        KindPlan::Array(info.elem_oid)
    } else if info.relid != 0 {
        KindPlan::Composite(info.relid)
    } else if info.rngsubtype is Some {
        KindPlan::Range(info.rngsubtype->0)
    } else {
        KindPlan::Simple
    }
}

/// Decides how the kind of a type from the catalog is built.
pub fn plan_kind(mode: CompatibleMode, info: &TypeInfo) -> (r: KindPlan)
    ensures
        r == kind_plan_of(mode, *info),
{
    if info.type_ == 101 {
        KindPlan::Enum
    } else if mode == CompatibleMode::Mysql && info.type_ == 108 && starts_with(info.name.as_str(), "Enum_") {
        KindPlan::MySqlEnum
    } else if mode == CompatibleMode::Mysql && info.type_ == 121 && starts_with(info.name.as_str(), "Set_") {
        KindPlan::MySqlSet
    } else if info.type_ == 112 {
        KindPlan::Pseudo
    } else if info.basetype != 0 {
        KindPlan::Domain(info.basetype)
    } else if info.elem_oid != 0 {
        KindPlan::Array(info.elem_oid)
    } else if info.relid != 0 {
        KindPlan::Composite(info.relid)
    } else {
        match info.rngsubtype {
            Some(r) => KindPlan::Range(r),
            None => KindPlan::Simple,
        }
    }
}

/// How a type OID is resolved before the catalog is asked.
#[derive(Debug)]
pub enum TypeResolution {
    /// OID 0: the `unknown` type.
    Unknown,
    /// A built-in type that is used as it is.
    Builtin(Type),
    /// A built-in type of the mode's own table, used once the catalog
    /// confirms it.
    ValidateBuiltin(Type),
    /// No built-in type: the type is built from the catalog.
    Catalog,
}

/// Decides how the OID `oid` is resolved in `type_system`: OID 0 is
/// `unknown`; a built-in type of the mode's own compatibility table is
/// checked against the catalog; another built-in type is used as it is; and
/// any other OID is looked up in the catalog.
pub fn resolve_type(type_system: TypeSystem, oid: u32) -> (r: TypeResolution)
    ensures
        oid == 0 ==> (r matches TypeResolution::Unknown),
        oid != 0 ==> match resolve_in(type_system, oid) {
            Some(b) => if builtin_system(b) == type_system && type_system != TypeSystem::Pg {
                r matches TypeResolution::ValidateBuiltin(t) && t@ == builtin_view(b)
            } else {
                r matches TypeResolution::Builtin(t) && t@ == builtin_view(b)
            },
            None => r matches TypeResolution::Catalog,
        },
{
    if oid == 0 {
        return TypeResolution::Unknown;
    }
    if let Some(type_) = Type::from_oid_in(type_system, oid) {
        if type_.type_system() == Some(type_system) && type_system != TypeSystem::Pg {
            return TypeResolution::ValidateBuiltin(type_);
        }
        return TypeResolution::Builtin(type_);
    }
    TypeResolution::Catalog
}

/// The messages that prepare `query` under `name` in `mode`: `Parse`, with
/// the query's parameters rewritten for the mode, `Describe` of the
/// statement, and `Sync`.
pub open spec fn prepare_messages(mode: CompatibleMode, name: Seq<u8>, query: Seq<char>, oids: Seq<u32>) -> Seq<u8> {
    framed(0x50u8, parse_body(name, encode_utf8(rewritten_query(mode, query)), oids)) + framed(
        0x44u8,
        describe_body(0x53u8, name),
    ) + sync_message()
}

/// Whether the messages that prepare `query` can be written.
pub open spec fn prepare_writable(mode: CompatibleMode, name: Seq<u8>, query: Seq<char>, oids: Seq<u32>) -> bool {
    parse_writable(name, encode_utf8(rewritten_query(mode, query)), oids) && describe_writable(0x53u8, name)
}

/// Encodes the messages that prepare `query` as the statement `name` with
/// the parameter types `param_oids`; the query's parameters are first
/// rewritten for the compatibility mode.
pub fn encode(mode: CompatibleMode, name: &str, query: &str, param_oids: &[u32]) -> (r: Result<Vec<u8>, SqlError>)
    requires
        mode == CompatibleMode::Oracle ==> oracle_numbers_fit(query@),
        21 + 2 * name.spec_bytes().len() + encode_utf8(rewritten_query(mode, query@)).len() + 4
            * param_oids@.len() <= isize::MAX,
    ensures
        prepare_writable(mode, name.spec_bytes(), query@, param_oids@) ==> (r matches Ok(v) && v@
            == prepare_messages(mode, name.spec_bytes(), query@, param_oids@)),
        !prepare_writable(mode, name.spec_bytes(), query@, param_oids@) ==> r matches Err(
            SqlError::Protocol(_),
        ),
{
    let rewritten = rewrite_query(mode, query);
    let mut buf = new_buffer();
    proof {
        lemma_oid_list_len(param_oids@);
        lemma_be_bytes_len(param_oids@.len(), 2);
        lemma_be_bytes_len((parse_body(name.spec_bytes(), encode_utf8(rewritten@), param_oids@).len() + 4) as nat, 4);
        lemma_be_bytes_len((describe_body(0x53u8, name.spec_bytes()).len() + 4) as nat, 4);
    }
    let text: &str = match &rewritten {
        Cow::Borrowed(b) => b,
        Cow::Owned(o) => o.as_str(),
    };
    match parse_message(name, text, param_oids, &mut buf) {
        Err(m) => {
            return Err(SqlError::Protocol(m));
        },
        Ok(()) => {},
    }
    match describe_message(0x53u8, name, &mut buf) {
        Err(m) => {
            return Err(SqlError::Protocol(m));
        },
        Ok(()) => {},
    }
    sync_message_into(&mut buf);
    let bytes = buffer_to_vec(&buf);
    proof {
        assert(bytes@ =~= prepare_messages(mode, name.spec_bytes(), query@, param_oids@));
    }
    Ok(bytes)
}

/// The name of the prepared statement with the sequence number `id`.
pub open spec fn statement_name_text(id: u64) -> Seq<char> {
    seq!['s'] + decimal(id as nat)
}

/// The name of the prepared statement with the sequence number `id`: `s`
/// and the number.
pub fn statement_name(id: u64) -> (r: String)
    ensures
        r@ == statement_name_text(id),
{
    let mut v: Vec<char> = Vec::new();
    v.push('s');
    push_decimal(&mut v, id);
    proof {
        assert(v@ =~= statement_name_text(id));
    }
    string_from_chars(&v)
}

/// How far the answer to a `Parse`, `Describe` and `Sync` has come.
#[derive(Debug, Copy, Clone, PartialEq, Eq, Structural)]
pub enum PrepareStage {
    /// Before `ParseComplete`.
    AwaitingParse,
    /// Before the parameter description.
    AwaitingParameters,
    /// Before the row description or `NoData`.
    AwaitingRows,
}

/// What the client does after a response to a prepare.
#[derive(Debug, Copy, Clone, PartialEq, Eq, Structural)]
pub enum PrepareStep {
    /// Waits for the next message at this stage.
    Next(PrepareStage),
    /// The statement is described; it returns rows or it does not.
    Described { has_rows: bool },
    /// Fails: the message was not expected.
    Unexpected,
}

/// Takes one response to a prepare: `ParseComplete`, then the parameter
/// description, then the row description or `NoData`, each in its turn.
pub fn prepare_step(stage: PrepareStage, response: TypedResponse) -> (r: PrepareStep)
    ensures
        r == (match (stage, response) {
            (PrepareStage::AwaitingParse, TypedResponse::ParseComplete) => PrepareStep::Next(
                PrepareStage::AwaitingParameters,
            ),
            (PrepareStage::AwaitingParameters, TypedResponse::ParameterDescription) => PrepareStep::Next(
                PrepareStage::AwaitingRows,
            ),
            (PrepareStage::AwaitingRows, TypedResponse::RowDescription) => PrepareStep::Described {
                has_rows: true,
            },
            (PrepareStage::AwaitingRows, TypedResponse::NoData) => PrepareStep::Described { has_rows: false },
            _ => PrepareStep::Unexpected,
        }),
{
    match (stage, response) {
        (PrepareStage::AwaitingParse, TypedResponse::ParseComplete) => PrepareStep::Next(
            PrepareStage::AwaitingParameters,
        ),
        (PrepareStage::AwaitingParameters, TypedResponse::ParameterDescription) => PrepareStep::Next(
            PrepareStage::AwaitingRows,
        ),
        (PrepareStage::AwaitingRows, TypedResponse::RowDescription) => PrepareStep::Described { has_rows: true },
        (PrepareStage::AwaitingRows, TypedResponse::NoData) => PrepareStep::Described { has_rows: false },
        _ => PrepareStep::Unexpected,
    }
}

/// A column of a row description: a table oid or column number of 0 means
/// that the column is not a table's.
pub fn described_column(
    name: String,
    table_oid: u32,
    column_id: i16,
    type_modifier: i32,
    type_: Type,
    codec_type: Option<Type>,
) -> (r: Column)
    ensures
        r.spec_name() == name@,
        r.spec_table_oid() == (if table_oid == 0 { None } else { Some(table_oid) }),
        r.spec_column_id() == (if column_id == 0 { None } else { Some(column_id) }),
        r.spec_type_modifier() == type_modifier,
        r.spec_type() == type_@,
        r.spec_codec_type() == codec_type,
{
    let table = if table_oid == 0 {
        None
    } else {
        Some(table_oid)
    };
    let column = if column_id == 0 {
        None
    } else {
        Some(column_id)
    };
    Column::new(name, table, column, type_modifier, type_, codec_type)
}

/// The catalog queries that read a type's metadata.
#[derive(Debug, Copy, Clone, PartialEq, Eq, Structural)]
pub enum TypeinfoQuery {
    /// A type's name, kind, element, range subtype, base type, schema and
    /// relation.
    Type,
    /// The same without the range subtype, for servers without
    /// `pg_range`.
    TypeFallback,
    /// The labels of an enum, in their sort order.
    Enum,
    /// The labels of an enum in the order of their oids, for servers
    /// without `enumsortorder`.
    EnumFallback,
    /// The fields of a composite type, in their order.
    Composite,
}

impl TypeinfoQuery {
    /// The SQL text of the query, which takes the type's oid as `$1`.
    pub open spec fn sql(self) -> Seq<char> {
        match self {
            TypeinfoQuery::Type => "SELECT t.typname, t.typtype, t.typelem, r.rngsubtype, t.typbasetype, n.nspname, t.typrelid
FROM pg_catalog.pg_type t
LEFT OUTER JOIN pg_catalog.pg_range r ON r.rngtypid = t.oid
INNER JOIN pg_catalog.pg_namespace n ON t.typnamespace = n.oid
WHERE t.oid = $1
"@,
            TypeinfoQuery::TypeFallback => "SELECT t.typname, t.typtype, t.typelem, NULL::OID, t.typbasetype, n.nspname, t.typrelid
FROM pg_catalog.pg_type t
INNER JOIN pg_catalog.pg_namespace n ON t.typnamespace = n.oid
WHERE t.oid = $1
"@,
            TypeinfoQuery::Enum => "SELECT enumlabel
FROM pg_catalog.pg_enum
WHERE enumtypid = $1
ORDER BY enumsortorder
"@,
            TypeinfoQuery::EnumFallback => "SELECT enumlabel
FROM pg_catalog.pg_enum
WHERE enumtypid = $1
ORDER BY oid
"@,
            TypeinfoQuery::Composite => "SELECT attname, atttypid
FROM pg_catalog.pg_attribute
WHERE attrelid = $1
AND NOT attisdropped
AND attnum > 0
ORDER BY attnum
"@,
        }
    }

    /// The SQL text of the query, which takes the type's oid as `$1`.
    pub fn text(self) -> (r: &'static str)
        ensures
            r@ == self.sql(),
    {
        match self {
            TypeinfoQuery::Type => "SELECT t.typname, t.typtype, t.typelem, r.rngsubtype, t.typbasetype, n.nspname, t.typrelid
FROM pg_catalog.pg_type t
LEFT OUTER JOIN pg_catalog.pg_range r ON r.rngtypid = t.oid
INNER JOIN pg_catalog.pg_namespace n ON t.typnamespace = n.oid
WHERE t.oid = $1
",
            TypeinfoQuery::TypeFallback => "SELECT t.typname, t.typtype, t.typelem, NULL::OID, t.typbasetype, n.nspname, t.typrelid
FROM pg_catalog.pg_type t
INNER JOIN pg_catalog.pg_namespace n ON t.typnamespace = n.oid
WHERE t.oid = $1
",
            TypeinfoQuery::Enum => "SELECT enumlabel
FROM pg_catalog.pg_enum
WHERE enumtypid = $1
ORDER BY enumsortorder
",
            TypeinfoQuery::EnumFallback => "SELECT enumlabel
FROM pg_catalog.pg_enum
WHERE enumtypid = $1
ORDER BY oid
",
            TypeinfoQuery::Composite => "SELECT attname, atttypid
FROM pg_catalog.pg_attribute
WHERE attrelid = $1
AND NOT attisdropped
AND attnum > 0
ORDER BY attnum
",
        }
    }
}

/// The query to prepare after preparing `query` failed, with the SQLSTATE
/// `code` of the database error if there is one: the type query falls
/// back where the table `pg_range` is undefined, the enum query where the
/// column `enumsortorder` is; any other failure stands.
pub fn typeinfo_fallback(query: TypeinfoQuery, code: Option<&str>) -> (r: Option<TypeinfoQuery>)
    ensures
        r == (match query {
            TypeinfoQuery::Type => if code matches Some(c) && c@ == "42P01"@ {
                Some(TypeinfoQuery::TypeFallback)
            } else {
                None
            },
            TypeinfoQuery::Enum => if code matches Some(c) && c@ == "42703"@ {
                Some(TypeinfoQuery::EnumFallback)
            } else {
                None
            },
            _ => None::<TypeinfoQuery>,
        }),
{
    match query {
        TypeinfoQuery::Type => match code {
            Some(c) => if str_equal(c, "42P01") {
                Some(TypeinfoQuery::TypeFallback)
            } else {
                None
            },
            None => None,
        },
        TypeinfoQuery::Enum => match code {
            Some(c) => if str_equal(c, "42703") {
                Some(TypeinfoQuery::EnumFallback)
            } else {
                None
            },
            None => None,
        },
        _ => None,
    }
}

} // verus!
