//! Type metadata: the type systems of the compatibility modes, types, their
//! kinds and composite fields.

use vstd::prelude::*;
use crate::builtin::{Builtin, builtin_view, builtin_rank, builtin_lookup};
use crate::text::{str_chars, push_str_chars, string_from_chars};

verus! {

/// A KingbaseES wire-protocol type table.
#[derive(Debug, Copy, Clone, PartialEq, Eq, Hash, Structural)]
pub enum TypeSystem {
    /// PostgreSQL-compatible type table.
    Pg,
    /// KingbaseES MySQL-compatible type table.
    Mysql,
    /// KingbaseES Oracle-compatible type table.
    Oracle,
    /// KingbaseES SQL Server-compatible type table.
    SqlServer,
}

/// A KingbaseES type: a built-in type of one of the type tables, or a type
/// described by the server's catalog.
#[derive(Debug, PartialEq, Eq, Hash)]
pub struct Type {
    builtin: Option<Builtin>,
    oid: u32,
    name: String,
    schema: String,
    kind: Box<Kind>,
}

/// Represents the kind of a type.
#[derive(Debug, PartialEq, Eq, Hash)]
#[non_exhaustive]
pub enum Kind {
    /// A simple type like `VARCHAR` or `INTEGER`.
    Simple,
    /// An enumerated type along with its variants.
    Enum(Vec<String>),
    /// A KingbaseES MySQL-compatible dynamic `ENUM` type along with its variants.
    MySqlEnum(Vec<String>),
    /// A KingbaseES MySQL-compatible dynamic `SET` type.
    MySqlSet,
    /// A pseudo-type.
    Pseudo,
    /// An array type along with the type of its elements.
    Array(Type),
    /// A range type along with the type of its elements.
    Range(Type),
    /// A multirange type along with the type of its elements.
    Multirange(Type),
    /// A domain type along with its underlying type.
    Domain(Type),
    /// A composite type along with information about its fields.
    Composite(Vec<Field>),
}

/// Information about a field of a composite type.
#[derive(Debug, PartialEq, Eq, Hash)]
pub struct Field {
    name: String,
    type_: Type,
}

/// The mathematical value of a [`Type`].
pub struct TypeView {
    pub builtin: Option<Builtin>,
    pub oid: u32,
    pub name: Seq<char>,
    pub schema: Seq<char>,
    pub kind: KindView,
}

/// The mathematical value of a [`Kind`].
pub enum KindView {
    Simple,
    Enum(Seq<Seq<char>>),
    MySqlEnum(Seq<Seq<char>>),
    MySqlSet,
    Pseudo,
    Array(Box<TypeView>),
    Range(Box<TypeView>),
    Multirange(Box<TypeView>),
    Domain(Box<TypeView>),
    Composite(Seq<FieldView>),
}

/// The mathematical value of a [`Field`].
pub struct FieldView {
    pub name: Seq<char>,
    pub type_: TypeView,
}

pub open spec fn strings_view(v: Seq<String>) -> Seq<Seq<char>> {
    v.map_values(|s: String| s@)
}

pub closed spec fn type_view(t: Type) -> TypeView
    decreases t,
{
    TypeView {
        builtin: t.builtin,
        oid: t.oid,
        name: t.name@,
        schema: t.schema@,
        kind: kind_view(*t.kind),
    }
}

pub open spec fn kind_view(k: Kind) -> KindView
    decreases k,
{
    match k {
        Kind::Simple => KindView::Simple,
        Kind::Enum(v) => KindView::Enum(strings_view(v@)),
        Kind::MySqlEnum(v) => KindView::MySqlEnum(strings_view(v@)),
        Kind::MySqlSet => KindView::MySqlSet,
        Kind::Pseudo => KindView::Pseudo,
        Kind::Array(t) => KindView::Array(Box::new(type_view(t))),
        Kind::Range(t) => KindView::Range(Box::new(type_view(t))),
        Kind::Multirange(t) => KindView::Multirange(Box::new(type_view(t))),
        Kind::Domain(t) => KindView::Domain(Box::new(type_view(t))),
        Kind::Composite(v) => KindView::Composite(fields_view(v@)),
    }
}

pub closed spec fn fields_view(v: Seq<Field>) -> Seq<FieldView>
    decreases v,
{
    if v.len() == 0 {
        Seq::<FieldView>::empty()
    } else {
        fields_view(v.drop_last()).push(FieldView { name: v.last().name@, type_: type_view(v.last().type_) })
    }
}

impl View for Type {
    type V = TypeView;

    open spec fn view(&self) -> TypeView {
        type_view(*self)
    }
}

impl View for Kind {
    type V = KindView;

    open spec fn view(&self) -> KindView {
        kind_view(*self)
    }
}

impl View for Field {
    type V = FieldView;

    closed spec fn view(&self) -> FieldView {
        FieldView { name: self.name@, type_: type_view(self.type_) }
    }
}

/// Type identity: built-in types are the same when they are the same table
/// entry; types from the catalog are the same when all their parts are.
pub open spec fn same_type(a: TypeView, b: TypeView) -> bool {
    if a.builtin is Some || b.builtin is Some {
        a.builtin == b.builtin
    } else {
        a == b
    }
}

/// The type system of a type's view, if it is built in.
pub open spec fn view_type_system(t: TypeView) -> Option<TypeSystem> {
    match t.builtin {
        Some(b) => Some(crate::builtin::builtin_system(b)),
        None => None,
    }
}

/// The built-in type that a type system resolves an OID to: its own table
/// first, then, for the compatibility modes, the PostgreSQL table.
pub open spec fn resolve_in(system: TypeSystem, oid: u32) -> Option<Builtin> {
    match builtin_lookup(system, oid) {
        Some(b) => Some(b),
        None => if system == TypeSystem::Pg {
            None
        } else {
            builtin_lookup(TypeSystem::Pg, oid)
        },
    }
}

/// Each table lists only types of its own type system.
proof fn lemma_lookup_system(system: TypeSystem, oid: u32)
    ensures
        builtin_lookup(system, oid) matches Some(b) ==> crate::builtin::builtin_system(b) == system,
{
}

/// A mode's lookup gives a type of that mode's own system where its own
/// table has the OID, and a PostgreSQL type otherwise; a type made with
/// `Type::new` belongs to no built-in system.
pub proof fn law_lookup_system(system: TypeSystem, oid: u32)
    ensures
        resolve_in(system, oid) matches Some(b) ==> view_type_system(builtin_view(b)) == Some(
            if builtin_lookup(system, oid) is Some {
                system
            } else {
                TypeSystem::Pg
            },
        ),
        forall|t: TypeView| t.builtin is None ==> view_type_system(t) is None,
{
    lemma_lookup_system(system, oid);
    lemma_lookup_system(TypeSystem::Pg, oid);
}

/// Whether `r` is the built-in type `b`, or nothing when there is none.
pub open spec fn is_lookup_result(r: Option<Type>, b: Option<Builtin>) -> bool {
    match b {
        Some(b) => r matches Some(t) && t@ == builtin_view(b),
        None => r is None,
    }
}

/// How a type is written: its name, preceded by its schema and a dot unless
/// the schema is `public` or `pg_catalog`.
pub open spec fn display_name(t: TypeView) -> Seq<char> {
    if t.schema == "public"@ || t.schema == "pg_catalog"@ {
        t.name
    } else {
        t.schema + seq!['.'] + t.name
    }
}

/// Whether the strings `a` and `b` hold the same characters.
pub fn str_equal(a: &str, b: &str) -> (r: bool)
    ensures
        r == (a@ == b@),
{
    let x = str_chars(a);
    let y = str_chars(b);
    if x.len() != y.len() {
        assert(a@.len() != b@.len());
        return false;
    }
    let n = x.len();
    let mut k: usize = 0;
    while k < n
        invariant
            k <= n == x@.len() == y@.len(),
            x@ == a@,
            y@ == b@,
            forall|j: int| 0 <= j < k ==> x@[j] == y@[j],
        decreases n - k,
    {
        if x[k] != y[k] {
            assert(a@[k as int] != b@[k as int]);
            return false;
        }
        k = k + 1;
    }
    assert(a@ =~= b@);
    true
}

impl Type {
    /// Creates a new `Type` described by the server's catalog.
    pub fn new(name: String, oid: u32, kind: Kind, schema: String) -> (t: Type)
        ensures
            t@ == (TypeView { builtin: None, oid, name: name@, schema: schema@, kind: kind@ }),
    {
        Type { builtin: None, oid, name, schema, kind: Box::new(kind) }
    }

    /// The built-in type `b`.
    pub fn from_builtin(b: Builtin) -> (t: Type)
        ensures
            t@ == builtin_view(b),
        decreases builtin_rank(b),
    {
        let kind = match b.member() {
            None => Kind::Simple,
            Some((is_array, m)) => {
                let member = Type::from_builtin(m);
                if is_array {
                    Kind::Array(member)
                } else {
                    Kind::Domain(member)
                }
            },
        };
        Type {
            builtin: Some(b),
            oid: b.oid(),
            name: b.name().to_owned(),
            schema: b.schema().to_owned(),
            kind: Box::new(kind),
        }
    }

    /// The built-in type `b` of a table, if there is one.
    fn from_lookup(b: Option<Builtin>) -> (r: Option<Type>)
        ensures
            is_lookup_result(r, b),
    {
        match b {
            Some(b) => Some(Type::from_builtin(b)),
            None => None,
        }
    }

    /// Returns the `Type` corresponding to the provided `Oid` if it
    /// corresponds to a built-in PostgreSQL type.
    pub fn from_oid(oid: u32) -> (r: Option<Type>)
        ensures
            is_lookup_result(r, builtin_lookup(TypeSystem::Pg, oid)),
    {
        Type::from_pg_oid(oid)
    }

    /// Returns the PostgreSQL-compatible built-in type for an OID.
    pub fn from_pg_oid(oid: u32) -> (r: Option<Type>)
        ensures
            is_lookup_result(r, builtin_lookup(TypeSystem::Pg, oid)),
    {
        Type::from_lookup(Builtin::lookup(TypeSystem::Pg, oid))
    }

    /// Returns the built-in `Type` for an `Oid` in a specific type system.
    ///
    /// Compatibility extensions are checked first: some modes reuse OIDs that
    /// are assigned to unrelated PostgreSQL catalog types. Shared types then
    /// fall back to the PostgreSQL table.
    pub fn from_oid_in(type_system: TypeSystem, oid: u32) -> (r: Option<Type>)
        ensures
            is_lookup_result(r, resolve_in(type_system, oid)),
    {
        match type_system {
            TypeSystem::Pg => Self::from_pg_oid(oid),
            _ => match Builtin::lookup(type_system, oid) {
                Some(b) => Some(Type::from_builtin(b)),
                None => Self::from_pg_oid(oid),
            },
        }
    }

    /// Returns the KingbaseES MySQL-compatible built-in type for an OID.
    pub fn from_mysql_oid(oid: u32) -> (r: Option<Type>)
        ensures
            is_lookup_result(r, resolve_in(TypeSystem::Mysql, oid)),
    {
        Type::from_oid_in(TypeSystem::Mysql, oid)
    }

    /// Returns the KingbaseES Oracle-compatible built-in type for an OID.
    pub fn from_oracle_oid(oid: u32) -> (r: Option<Type>)
        ensures
            is_lookup_result(r, resolve_in(TypeSystem::Oracle, oid)),
    {
        Type::from_oid_in(TypeSystem::Oracle, oid)
    }

    /// Returns the KingbaseES SQL Server-compatible built-in type for an OID.
    pub fn from_sqlserver_oid(oid: u32) -> (r: Option<Type>)
        ensures
            is_lookup_result(r, resolve_in(TypeSystem::SqlServer, oid)),
    {
        Type::from_oid_in(TypeSystem::SqlServer, oid)
    }

    /// Returns only a KingbaseES MySQL-compatible extension type for an OID;
    /// the PostgreSQL built-ins that every mode shares are not included.
    pub fn from_kingbase_mysql_oid(oid: u32) -> (r: Option<Type>)
        ensures
            is_lookup_result(r, builtin_lookup(TypeSystem::Mysql, oid)),
    {
        Type::from_lookup(Builtin::lookup(TypeSystem::Mysql, oid))
    }

    /// Returns only a KingbaseES Oracle-compatible extension type for an OID.
    pub fn from_kingbase_oracle_oid(oid: u32) -> (r: Option<Type>)
        ensures
            is_lookup_result(r, builtin_lookup(TypeSystem::Oracle, oid)),
    {
        Type::from_lookup(Builtin::lookup(TypeSystem::Oracle, oid))
    }

    /// Returns only a KingbaseES SQL Server-compatible extension type for an OID.
    pub fn from_kingbase_sqlserver_oid(oid: u32) -> (r: Option<Type>)
        ensures
            is_lookup_result(r, builtin_lookup(TypeSystem::SqlServer, oid)),
    {
        Type::from_lookup(Builtin::lookup(TypeSystem::SqlServer, oid))
    }

    /// Returns the built-in type system this type belongs to, if known.
    pub fn type_system(&self) -> (r: Option<TypeSystem>)
        ensures
            r == view_type_system(self@),
    {
        match self.builtin {
            Some(b) => Some(b.system()),
            None => None,
        }
    }

    /// Returns the OID of the `Type`.
    pub fn oid(&self) -> (r: u32)
        ensures
            r == self@.oid,
    {
        self.oid
    }

    /// Returns the kind of this type.
    pub fn kind(&self) -> (r: &Kind)
        ensures
            r@ == self@.kind,
    {
        &self.kind
    }

    /// Returns the schema of this type.
    pub fn schema(&self) -> (r: &str)
        ensures
            r@ == self@.schema,
    {
        self.schema.as_str()
    }

    /// Returns the name of this type.
    pub fn name(&self) -> (r: &str)
        ensures
            r@ == self@.name,
    {
        self.name.as_str()
    }

    /// The type as it is written in messages: `schema.name`, or the bare name
    /// for the `public` and `pg_catalog` schemas.
    pub fn to_text(&self) -> (r: String)
        ensures
            r@ == display_name(self@),
    {
        let mut v: Vec<char> = Vec::new();
        if !str_equal(self.schema(), "public") && !str_equal(self.schema(), "pg_catalog") {
            push_str_chars(&mut v, self.schema());
            v.push('.');
        }
        push_str_chars(&mut v, self.name());
        proof {
            assert(v@ =~= display_name(self@));
        }
        string_from_chars(&v)
    }

    /// Whether this type is the built-in type `b`.
    pub fn is(&self, b: Builtin) -> (r: bool)
        ensures
            r == same_type(self@, builtin_view(b)),
            r == (self@.builtin == Some(b)),
    {
        match self.builtin {
            Some(x) => x == b,
            None => false,
        }
    }
}

/// Two field lists with pointwise equal views have equal views.
proof fn lemma_fields_view_pointwise(a: Seq<Field>, b: Seq<Field>)
    requires
        a.len() == b.len(),
        forall|i: int| 0 <= i < a.len() ==> #[trigger] a[i].name@ == b[i].name@
            && type_view(a[i].type_) == type_view(b[i].type_),
    ensures
        fields_view(a) == fields_view(b),
    decreases a.len(),
{
    if a.len() > 0 {
        lemma_fields_view_pointwise(a.drop_last(), b.drop_last());
        assert(a.last().name@ == b.last().name@);
    }
}

/// A copy of the kind `k`.
fn copy_kind(k: &Kind) -> (r: Kind)
    ensures
        kind_view(r) == kind_view(*k),
    decreases k, 0nat,
{
    match k {
        Kind::Simple => Kind::Simple,
        Kind::Enum(v) => Kind::Enum(copy_strings(v)),
        Kind::MySqlEnum(v) => Kind::MySqlEnum(copy_strings(v)),
        Kind::MySqlSet => Kind::MySqlSet,
        Kind::Pseudo => Kind::Pseudo,
        Kind::Array(t) => Kind::Array(copy_type(t)),
        Kind::Range(t) => Kind::Range(copy_type(t)),
        Kind::Multirange(t) => Kind::Multirange(copy_type(t)),
        Kind::Domain(t) => Kind::Domain(copy_type(t)),
        Kind::Composite(v) => Kind::Composite(copy_fields(v)),
    }
}

/// A copy of the type `t`.
fn copy_type(t: &Type) -> (r: Type)
    ensures
        type_view(r) == type_view(*t),
    decreases t, 1nat,
{
    let kind = copy_kind(&t.kind);
    Type {
        builtin: t.builtin,
        oid: t.oid,
        name: t.name.clone(),
        schema: t.schema.clone(),
        kind: Box::new(kind),
    }
}

/// A copy of the fields `v`.
fn copy_fields(v: &Vec<Field>) -> (r: Vec<Field>)
    ensures
        fields_view(r@) == fields_view(v@),
    decreases v, 2nat,
{
    let mut r: Vec<Field> = Vec::new();
    let n = v.len();
    let mut i: usize = 0;
    while i < n
        invariant
            i <= n == v@.len(),
            r@.len() == i,
            forall|j: int| 0 <= j < i ==> #[trigger] r@[j].name@ == v@[j].name@
                && type_view(r@[j].type_) == type_view(v@[j].type_),
        decreases n - i,
    {
        proof {
            assert(decreases_to!(v => v@[i as int].type_));
        }
        let f = Field { name: v[i].name.clone(), type_: copy_type(&v[i].type_) };
        r.push(f);
        i = i + 1;
    }
    proof {
        lemma_fields_view_pointwise(r@, v@);
    }
    r
}

/// A copy of the strings `v`.
fn copy_strings(v: &Vec<String>) -> (r: Vec<String>)
    ensures
        r@ == v@,
{
    let mut r: Vec<String> = Vec::new();
    let n = v.len();
    let mut i: usize = 0;
    while i < n
        invariant
            i <= n == v@.len(),
            r@ == v@.subrange(0, i as int),
        decreases n - i,
    {
        r.push(v[i].clone());
        i = i + 1;
        assert(r@ =~= v@.subrange(0, i as int));
    }
    assert(v@.subrange(0, n as int) =~= v@);
    r
}

impl Clone for Type {
    fn clone(&self) -> (r: Self)
        ensures
            r@ == self@,
    {
        copy_type(self)
    }
}

impl Clone for Kind {
    fn clone(&self) -> (r: Self)
        ensures
            r@ == self@,
    {
        copy_kind(self)
    }
}

impl Clone for Field {
    fn clone(&self) -> (r: Self)
        ensures
            r@ == self@,
    {
        Field { name: self.name.clone(), type_: copy_type(&self.type_) }
    }
}

impl Field {
    /// Creates a new `Field`.
    pub fn new(name: String, type_: Type) -> (f: Field)
        ensures
            f@ == (FieldView { name: name@, type_: type_@ }),
    {
        Field { name, type_ }
    }

    /// Returns the name of the field.
    pub fn name(&self) -> (r: &str)
        ensures
            r@ == self@.name,
    {
        self.name.as_str()
    }

    /// Returns the type of the field.
    pub fn type_(&self) -> (r: &Type)
        ensures
            r@ == self@.type_,
    {
        &self.type_
    }
}

} // verus!
