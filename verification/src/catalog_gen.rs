//! Writing the type tables: the Rust text of each mode's type enum and its
//! accessors, the type wrapper, and the type constants.

use vstd::prelude::*;
use crate::catalog::{EntryView, TypeEntry, TypeTable, entries_view};
use crate::catalog_build::GenError;
use crate::catalog_text::{ascii_lower, is_text, to_ascii_lower};
use crate::text::{decimal, push_decimal, push_str_chars, str_chars};

verus! {

/// The opening of a mode's type enum.
pub open spec fn enum_head() -> Seq<char> {
    "\n#[derive(PartialEq, Eq, Clone, Debug, Hash)]\npub enum Inner {"@
}

fn push_enum_head(out: &mut Vec<char>)
    ensures
        final(out)@ == old(out)@ + enum_head(),
{
    push_str_chars(out, "\n#[derive(PartialEq, Eq, Clone, Debug, Hash)]\npub enum Inner {");
}

/// The close of a mode's type enum.
pub open spec fn enum_tail() -> Seq<char> {
    "\n}\n\n"@
}

fn push_enum_tail(out: &mut Vec<char>)
    ensures
        final(out)@ == old(out)@ + enum_tail(),
{
    push_str_chars(out, "\n}\n\n");
}

/// The opening of the PostgreSQL table's `from_oid`.
pub open spec fn pg_head() -> Seq<char> {
    "impl Inner {\n    pub fn from_oid(oid: Oid) -> Option<Inner> {\n        match oid {\n"@
}

fn push_pg_head(out: &mut Vec<char>)
    ensures
        final(out)@ == old(out)@ + pg_head(),
{
    push_str_chars(out, "impl Inner {\n    pub fn from_oid(oid: Oid) -> Option<Inner> {\n        match oid {\n");
}

/// The close of the PostgreSQL table's `from_oid` and the opening of `oid`.
pub open spec fn pg_from_tail() -> Seq<char> {
    "            _ => None,\n        }\n    }\n\n    pub fn oid(&self) -> Oid {\n        match *self {\n"@
}

fn push_pg_from_tail(out: &mut Vec<char>)
    ensures
        final(out)@ == old(out)@ + pg_from_tail(),
{
    push_str_chars(out, "            _ => None,\n        }\n    }\n\n    pub fn oid(&self) -> Oid {\n        match *self {\n");
}

/// The opening of a compatibility table's `from_oid`.
pub open spec fn compat_head() -> Seq<char> {
    "impl Inner {\n    pub fn from_oid(oid: Oid) -> Option<Inner> {\n    match oid {\n"@
}

fn push_compat_head(out: &mut Vec<char>)
    ensures
        final(out)@ == old(out)@ + compat_head(),
{
    push_str_chars(out, "impl Inner {\n    pub fn from_oid(oid: Oid) -> Option<Inner> {\n    match oid {\n");
}

/// The close of a compatibility table's `from_oid` and the opening of `oid`.
pub open spec fn compat_from_tail() -> Seq<char> {
    "        _ => None,\n    }\n    }\n\n    pub fn oid(&self) -> Oid {\n        match *self {\n"@
}

fn push_compat_from_tail(out: &mut Vec<char>)
    ensures
        final(out)@ == old(out)@ + compat_from_tail(),
{
    push_str_chars(out, "        _ => None,\n    }\n    }\n\n    pub fn oid(&self) -> Oid {\n        match *self {\n");
}

/// The close of `oid` and the opening of `kind`.
pub open spec fn kind_head() -> Seq<char> {
    "        }\n    }\n\n    pub fn kind(&self) -> &Kind {\n        match *self {\n"@
}

fn push_kind_head(out: &mut Vec<char>)
    ensures
        final(out)@ == old(out)@ + kind_head(),
{
    push_str_chars(out, "        }\n    }\n\n    pub fn kind(&self) -> &Kind {\n        match *self {\n");
}

/// The close of `kind` and the opening of `name`.
pub open spec fn name_head() -> Seq<char> {
    "        }\n    }\n\n    pub fn name(&self) -> &str {\n        match *self {\n"@
}

fn push_name_head(out: &mut Vec<char>)
    ensures
        final(out)@ == old(out)@ + name_head(),
{
    push_str_chars(out, "        }\n    }\n\n    pub fn name(&self) -> &str {\n        match *self {\n");
}

/// The close of `name` and the opening of `schema`.
pub open spec fn schema_head() -> Seq<char> {
    "        }\n    }\n\n    pub fn schema(&self) -> &str {\n        match *self {\n"@
}

fn push_schema_head(out: &mut Vec<char>)
    ensures
        final(out)@ == old(out)@ + schema_head(),
{
    push_str_chars(out, "        }\n    }\n\n    pub fn schema(&self) -> &str {\n        match *self {\n");
}

/// The close of `schema` and of the impl.
pub open spec fn impl_tail() -> Seq<char> {
    "        }\n    }\n}\n"@
}

fn push_impl_tail(out: &mut Vec<char>)
    ensures
        final(out)@ == old(out)@ + impl_tail(),
{
    push_str_chars(out, "        }\n    }\n}\n");
}

/// The imports of a mode's table.
pub open spec fn mode_header() -> Seq<char> {
    "use crate::type_gen::Inner as TypeInner;\nuse crate::{Kind, Oid, Type};\n\n"@
}

fn push_mode_header(out: &mut Vec<char>)
    ensures
        final(out)@ == old(out)@ + mode_header(),
{
    push_str_chars(out, "use crate::type_gen::Inner as TypeInner;\nuse crate::{Kind, Oid, Type};\n\n");
}

/// The imports of the type wrapper and its `Other` type.
pub open spec fn wrapper_header() -> Seq<char> {
    "use std::sync::Arc;\n\nuse crate::{Kind, Oid, Type};\n\n#[derive(PartialEq, Eq, Debug, Hash)]\npub struct Other {\n    pub name: String,\n    pub oid: Oid,\n    pub kind: Kind,\n    pub schema: String,\n}\n"@
}

fn push_wrapper_header(out: &mut Vec<char>)
    ensures
        final(out)@ == old(out)@ + wrapper_header(),
{
    push_str_chars(out, "use std::sync::Arc;\n\nuse crate::{Kind, Oid, Type};\n\n#[derive(PartialEq, Eq, Debug, Hash)]\npub struct Other {\n    pub name: String,\n    pub oid: Oid,\n    pub kind: Kind,\n    pub schema: String,\n}\n");
}

/// The type wrapper's enum over the modes.
pub open spec fn wrapper_enum() -> Seq<char> {
    "\n#[derive(PartialEq, Eq, Clone, Debug, Hash)]\npub enum Inner {\n    Pg(crate::pg_type_gen::Inner),\n    Mysql(crate::mysql_type_gen::Inner),\n    Oracle(crate::oracle_type_gen::Inner),\n    SqlServer(crate::sqlserver_type_gen::Inner),\n    Other(Arc<Other>),\n}\n\n"@
}

fn push_wrapper_enum(out: &mut Vec<char>)
    ensures
        final(out)@ == old(out)@ + wrapper_enum(),
{
    push_str_chars(out, "\n#[derive(PartialEq, Eq, Clone, Debug, Hash)]\npub enum Inner {\n    Pg(crate::pg_type_gen::Inner),\n    Mysql(crate::mysql_type_gen::Inner),\n    Oracle(crate::oracle_type_gen::Inner),\n    SqlServer(crate::sqlserver_type_gen::Inner),\n    Other(Arc<Other>),\n}\n\n");
}

/// The type wrapper's accessors, which defer to the mode tables.
pub open spec fn wrapper_impl() -> Seq<char> {
    "impl Inner {\n    pub fn oid(&self) -> Oid {\n        match *self {\n            Inner::Pg(ref inner) => inner.oid(),\n            Inner::Mysql(ref inner) => inner.oid(),\n            Inner::Oracle(ref inner) => inner.oid(),\n            Inner::SqlServer(ref inner) => inner.oid(),\n            Inner::Other(ref u) => u.oid,\n        }\n    }\n\n    pub fn kind(&self) -> &Kind {\n        match *self {\n            Inner::Pg(ref inner) => inner.kind(),\n            Inner::Mysql(ref inner) => inner.kind(),\n            Inner::Oracle(ref inner) => inner.kind(),\n            Inner::SqlServer(ref inner) => inner.kind(),\n            Inner::Other(ref u) => &u.kind,\n        }\n    }\n\n    pub fn name(&self) -> &str {\n        match *self {\n            Inner::Pg(ref inner) => inner.name(),\n            Inner::Mysql(ref inner) => inner.name(),\n            Inner::Oracle(ref inner) => inner.name(),\n            Inner::SqlServer(ref inner) => inner.name(),\n            Inner::Other(ref u) => &u.name,\n        }\n    }\n\n    pub fn schema(&self) -> &str {\n        match *self {\n            Inner::Pg(ref inner) => inner.schema(),\n            Inner::Mysql(ref inner) => inner.schema(),\n            Inner::Oracle(ref inner) => inner.schema(),\n            Inner::SqlServer(ref inner) => inner.schema(),\n            Inner::Other(ref u) => &u.schema,\n        }\n    }\n}\n"@
}

fn push_wrapper_impl(out: &mut Vec<char>)
    ensures
        final(out)@ == old(out)@ + wrapper_impl(),
{
    push_str_chars(out, "impl Inner {\n    pub fn oid(&self) -> Oid {\n        match *self {\n            Inner::Pg(ref inner) => inner.oid(),\n            Inner::Mysql(ref inner) => inner.oid(),\n            Inner::Oracle(ref inner) => inner.oid(),\n            Inner::SqlServer(ref inner) => inner.oid(),\n            Inner::Other(ref u) => u.oid,\n        }\n    }\n\n    pub fn kind(&self) -> &Kind {\n        match *self {\n            Inner::Pg(ref inner) => inner.kind(),\n            Inner::Mysql(ref inner) => inner.kind(),\n            Inner::Oracle(ref inner) => inner.kind(),\n            Inner::SqlServer(ref inner) => inner.kind(),\n            Inner::Other(ref u) => &u.kind,\n        }\n    }\n\n    pub fn name(&self) -> &str {\n        match *self {\n            Inner::Pg(ref inner) => inner.name(),\n            Inner::Mysql(ref inner) => inner.name(),\n            Inner::Oracle(ref inner) => inner.name(),\n            Inner::SqlServer(ref inner) => inner.name(),\n            Inner::Other(ref u) => &u.name,\n        }\n    }\n\n    pub fn schema(&self) -> &str {\n        match *self {\n            Inner::Pg(ref inner) => inner.schema(),\n            Inner::Mysql(ref inner) => inner.schema(),\n            Inner::Oracle(ref inner) => inner.schema(),\n            Inner::SqlServer(ref inner) => inner.schema(),\n            Inner::Other(ref u) => &u.schema,\n        }\n    }\n}\n");
}

/// A type table's compatibility mode.
#[derive(Debug, Copy, Clone, PartialEq, Eq, Structural)]
pub enum Mode {
    Pg,
    Mysql,
    Oracle,
    SqlServer,
}

/// The name of the type wrapper's variant for `mode`.
pub open spec fn mode_name(mode: Mode) -> Seq<char> {
    match mode {
        Mode::Pg => "Pg"@,
        Mode::Mysql => "Mysql"@,
        Mode::Oracle => "Oracle"@,
        Mode::SqlServer => "SqlServer"@,
    }
}

impl Mode {
    /// The name of the type wrapper's variant for the mode.
    pub fn inner_variant(self) -> (r: &'static str)
        ensures
            r@ == mode_name(self),
    {
        match self {
            Mode::Pg => "Pg",
            Mode::Mysql => "Mysql",
            Mode::Oracle => "Oracle",
            Mode::SqlServer => "SqlServer",
        }
    }
}

/// The form of a line that a table's text holds for each of its entries.
#[derive(Debug, Copy, Clone, PartialEq, Eq, Structural)]
pub enum LineForm {
    /// The entry's enum variant.
    Variant,
    /// The PostgreSQL table's `from_oid` arm.
    PgFromOid,
    /// A compatibility table's `from_oid` arm.
    CompatFromOid,
    /// The `oid` arm.
    Oid,
    /// The `name` arm.
    Name,
    /// The `schema` arm.
    Schema,
    /// The entry's PostgreSQL type constant.
    PgConst,
}

/// The line that `form` gives for the entry `e`.
pub open spec fn line(e: (u32, EntryView), form: LineForm) -> Seq<char> {
    let v = e.1.variant;
    match form {
        LineForm::Variant => "\n    "@ + v + ","@,
        LineForm::PgFromOid => "            "@ + decimal(e.0 as nat) + " => Some(Inner::"@ + v + "),\n"@,
        LineForm::CompatFromOid => "        "@ + decimal(e.0 as nat) + " => Some(Inner::"@ + v + "),\n"@,
        LineForm::Oid => "            Inner::"@ + v + " => "@ + decimal(e.0 as nat) + ",\n"@,
        LineForm::Name => "            Inner::"@ + v + " => \""@ + e.1.name + "\",\n"@,
        LineForm::Schema => "            Inner::"@ + v + " => \""@ + e.1.schema + "\",\n"@,
        LineForm::PgConst => "\n    /// "@ + e.1.doc + "\n    pub const "@ + e.1.ident
            + ": Type = Type(Inner::Pg(crate::pg_type_gen::Inner::"@ + v + "));\n"@,
    }
}

/// The lines that `form` gives for the entries of `s`, in order.
pub open spec fn lines(s: Seq<(u32, EntryView)>, form: LineForm) -> Seq<char>
    decreases s.len(),
{
    if s.len() == 0 {
        Seq::empty()
    } else {
        lines(s.drop_last(), form) + line(s.last(), form)
    }
}

/// Appends the line that `form` gives for the entry `(oid, t)`.
fn push_line(out: &mut Vec<char>, oid: u32, t: &TypeEntry, form: LineForm)
    ensures
        final(out)@ == old(out)@ + line((oid, t@), form),
{
    let ghost start = out@;
    match form {
        LineForm::Variant => {
            push_str_chars(out, "\n    ");
            push_str_chars(out, t.variant.as_str());
            push_str_chars(out, ",");
        },
        LineForm::PgFromOid => {
            push_str_chars(out, "            ");
            push_decimal(out, oid as u64);
            push_str_chars(out, " => Some(Inner::");
            push_str_chars(out, t.variant.as_str());
            push_str_chars(out, "),\n");
        },
        LineForm::CompatFromOid => {
            push_str_chars(out, "        ");
            push_decimal(out, oid as u64);
            push_str_chars(out, " => Some(Inner::");
            push_str_chars(out, t.variant.as_str());
            push_str_chars(out, "),\n");
        },
        LineForm::Oid => {
            push_str_chars(out, "            Inner::");
            push_str_chars(out, t.variant.as_str());
            push_str_chars(out, " => ");
            push_decimal(out, oid as u64);
            push_str_chars(out, ",\n");
        },
        LineForm::Name => {
            push_str_chars(out, "            Inner::");
            push_str_chars(out, t.variant.as_str());
            push_str_chars(out, " => \"");
            push_str_chars(out, t.name.as_str());
            push_str_chars(out, "\",\n");
        },
        LineForm::Schema => {
            push_str_chars(out, "            Inner::");
            push_str_chars(out, t.variant.as_str());
            push_str_chars(out, " => \"");
            push_str_chars(out, t.schema.as_str());
            push_str_chars(out, "\",\n");
        },
        LineForm::PgConst => {
            push_str_chars(out, "\n    /// ");
            push_str_chars(out, t.doc.as_str());
            push_str_chars(out, "\n    pub const ");
            push_str_chars(out, t.ident.as_str());
            push_str_chars(out, ": Type = Type(Inner::Pg(crate::pg_type_gen::Inner::");
            push_str_chars(out, t.variant.as_str());
            push_str_chars(out, "));\n");
        },
    }
    proof {
        assert(out@ =~= start + line((oid, t@), form));
    }
}

proof fn lemma_lines_step(s: Seq<(u32, EntryView)>, form: LineForm, i: int)
    requires
        0 <= i < s.len(),
    ensures
        lines(s.take(i + 1), form) == lines(s.take(i), form) + line(s[i], form),
{
    assert(s.take(i + 1).drop_last() =~= s.take(i));
}

/// Appends the lines that `form` gives for the entries of `types`.
pub fn push_lines(out: &mut Vec<char>, types: &TypeTable, form: LineForm)
    ensures
        final(out)@ == old(out)@ + lines(types@, form),
{
    let v = types.entries();
    let n = v.len();
    let mut i: usize = 0;
    proof {
        assert(types@.take(0) =~= Seq::<(u32, EntryView)>::empty());
        assert(old(out)@ + Seq::<char>::empty() =~= old(out)@);
    }
    while i < n
        invariant
            i <= n == v.len(),
            entries_view(v@) == types@,
            out@ == old(out)@ + lines(types@.take(i as int), form),
        decreases n - i,
    {
        let ghost before = out@;
        push_line(out, v[i].0, &v[i].1, form);
        proof {
            lemma_lines_step(types@, form, i as int);
            assert(types@[i as int] == (v@[i as int].0, v@[i as int].1@));
            assert(out@ =~= old(out)@ + lines(types@.take(i + 1), form));
        }
        i = i + 1;
    }
    proof {
        assert(types@.take(n as int) =~= types@);
    }
}

/// The variant of the entry with oid `oid`, if `m` has one.
pub open spec fn variant_of(m: Map<u32, EntryView>, oid: u32) -> Option<Seq<char>> {
    if m.contains_key(oid) {
        Some(m[oid].variant)
    } else {
        None
    }
}

/// The kind text of a PostgreSQL entry: arrays, domains and ranges name
/// their element type in `m`.
pub open spec fn pg_kind(e: (u32, EntryView), m: Map<u32, EntryView>) -> Result<Seq<char>, GenError> {
    let t = e.1;
    if t.kind == "P"@ {
        Ok("Pseudo"@)
    } else if t.kind == "A"@ {
        match variant_of(m, t.element) {
            Some(v) => Ok("Array(Type(TypeInner::Pg(Inner::"@ + v + ")))"@),
            None => Err(GenError::MissingElement(t.element)),
        }
    } else if t.kind == "M"@ {
        match variant_of(m, t.element) {
            Some(v) => Ok("Domain(Type(TypeInner::Pg(Inner::"@ + v + ")))"@),
            None => Err(GenError::MissingElement(t.element)),
        }
    } else if t.kind == "R"@ {
        match t.typtype {
            None => Err(GenError::MissingTyptype(e.0)),
            Some(tt) => if tt == "r"@ {
                match variant_of(m, t.element) {
                    Some(v) => Ok("Range(Type(TypeInner::Pg(Inner::"@ + v + ")))"@),
                    None => Err(GenError::MissingElement(t.element)),
                }
            } else if tt == "m"@ {
                match variant_of(m, t.element) {
                    Some(v) => Ok("Multirange(Type(TypeInner::Pg(Inner::"@ + v + ")))"@),
                    None => Err(GenError::MissingElement(t.element)),
                }
            } else {
                Err(GenError::BadTyptype(e.0))
            },
        }
    } else {
        Ok("Simple"@)
    }
}

/// The type expression of the type `oid` in a compatibility table: its own
/// mode's entry where `types` has one, else the PostgreSQL entry.
pub open spec fn mode_type_expr(oid: u32, types: Map<u32, EntryView>, pg: Map<u32, EntryView>, mode: Mode) -> Result<Seq<char>, GenError> {
    if types.contains_key(oid) {
        Ok("Type(TypeInner::"@ + mode_name(mode) + "(Inner::"@ + types[oid].variant + "))"@)
    } else if pg.contains_key(oid) {
        Ok("Type(TypeInner::Pg(crate::pg_type_gen::Inner::"@ + pg[oid].variant + "))"@)
    } else {
        Err(GenError::MissingElement(oid))
    }
}

/// `pre`, the text of `r` and `post`, or `r`'s error.
pub open spec fn wrapped(pre: Seq<char>, r: Result<Seq<char>, GenError>, post: Seq<char>) -> Result<Seq<char>, GenError> {
    match r {
        Ok(x) => Ok(pre + x + post),
        Err(e) => Err(e),
    }
}

/// The kind text of an entry of a compatibility table.
pub open spec fn compat_kind(e: (u32, EntryView), types: Map<u32, EntryView>, pg: Map<u32, EntryView>, mode: Mode) -> Result<Seq<char>, GenError> {
    let t = e.1;
    if t.kind == "M"@ {
        wrapped("Domain("@, mode_type_expr(t.element, types, pg, mode), ")"@)
    } else if t.kind == "A"@ {
        wrapped("Array("@, mode_type_expr(t.element, types, pg, mode), ")"@)
    } else if t.kind == "R"@ {
        match t.typtype {
            None => Err(GenError::MissingTyptype(e.0)),
            Some(tt) => if tt == "r"@ {
                wrapped("Range("@, mode_type_expr(t.element, types, pg, mode), ")"@)
            } else if tt == "m"@ {
                wrapped("Multirange("@, mode_type_expr(t.element, types, pg, mode), ")"@)
            } else {
                Err(GenError::BadTyptype(e.0))
            },
        }
    } else if t.kind == "P"@ {
        Ok("Pseudo"@)
    } else {
        Ok("Simple"@)
    }
}

/// The kind text of an entry: of the PostgreSQL table where `mode` is
/// `None`, else of that mode's table.
pub open spec fn entry_kind(e: (u32, EntryView), types: Map<u32, EntryView>, pg: Map<u32, EntryView>, mode: Option<Mode>) -> Result<Seq<char>, GenError> {
    match mode {
        None => pg_kind(e, types),
        Some(md) => compat_kind(e, types, pg, md),
    }
}

/// The `kind` arm of an entry whose kind text is `k`.
pub open spec fn kind_line(e: (u32, EntryView), k: Seq<char>) -> Seq<char> {
    "            Inner::"@ + e.1.variant + " => {\n                &Kind::"@ + k + "\n            }\n"@
}

/// The `kind` arms of the entries of `s`, in order, or the first entry's
/// error.
pub open spec fn kind_lines(s: Seq<(u32, EntryView)>, types: Map<u32, EntryView>, pg: Map<u32, EntryView>, mode: Option<Mode>) -> Result<Seq<char>, GenError>
    decreases s.len(),
{
    if s.len() == 0 {
        Ok(Seq::empty())
    } else {
        match kind_lines(s.drop_last(), types, pg, mode) {
            Err(e) => Err(e),
            Ok(t) => match entry_kind(s.last(), types, pg, mode) {
                Err(e) => Err(e),
                Ok(k) => Ok(t + kind_line(s.last(), k)),
            },
        }
    }
}

/// The type expression of the type `oid` in a compatibility table: its own
/// mode's entry where `types` has one, else the PostgreSQL entry.
pub fn compatible_mode_type_expr(oid: u32, types: &TypeTable, pg_types: &TypeTable, mode: Mode) -> (r: Result<Vec<char>, GenError>)
    requires
        types.wf(),
        pg_types.wf(),
    ensures
        match mode_type_expr(oid, types.map(), pg_types.map(), mode) {
            Ok(x) => r is Ok && r->Ok_0@ == x,
            Err(e) => r == Err::<Vec<char>, GenError>(e),
        },
{
    let mut out: Vec<char> = Vec::new();
    match types.get(oid) {
        Some(t) => {
            push_str_chars(&mut out, "Type(TypeInner::");
            push_str_chars(&mut out, mode.inner_variant());
            push_str_chars(&mut out, "(Inner::");
            push_str_chars(&mut out, t.variant.as_str());
            push_str_chars(&mut out, "))");
            proof {
                assert(out@ =~= "Type(TypeInner::"@ + mode_name(mode) + "(Inner::"@ + t.variant@ + "))"@);
            }
            Ok(out)
        },
        None => match pg_types.get(oid) {
            Some(t) => {
                push_str_chars(&mut out, "Type(TypeInner::Pg(crate::pg_type_gen::Inner::");
                push_str_chars(&mut out, t.variant.as_str());
                push_str_chars(&mut out, "))");
                proof {
                    assert(out@ =~= "Type(TypeInner::Pg(crate::pg_type_gen::Inner::"@ + t.variant@ + "))"@);
                }
                Ok(out)
            },
            None => Err(GenError::MissingElement(oid)),
        },
    }
}

/// `pre`, `x` and `post`.
fn surround(pre: &str, x: Vec<char>, post: &str) -> (r: Vec<char>)
    ensures
        r@ == pre@ + x@ + post@,
{
    let mut out: Vec<char> = Vec::new();
    push_str_chars(&mut out, pre);
    let mut x = x;
    out.append(&mut x);
    push_str_chars(&mut out, post);
    out
}

/// The kind text of the entry `(oid, t)`: of the PostgreSQL table where
/// `mode` is `None`, else of that mode's table.
fn kind_text(oid: u32, t: &TypeEntry, types: &TypeTable, pg_types: &TypeTable, mode: Option<Mode>) -> (r: Result<Vec<char>, GenError>)
    requires
        types.wf(),
        pg_types.wf(),
    ensures
        match entry_kind((oid, t@), types.map(), pg_types.map(), mode) {
            Ok(x) => r is Ok && r->Ok_0@ == x,
            Err(e) => r == Err::<Vec<char>, GenError>(e),
        },
{
    match mode {
        None => {
            if is_text(&t.kind, "P") {
                Ok(str_chars("Pseudo"))
            } else if is_text(&t.kind, "A") || is_text(&t.kind, "M") || is_text(&t.kind, "R") {
                let outer: &str = if is_text(&t.kind, "A") {
                    "Array(Type(TypeInner::Pg(Inner::"
                } else if is_text(&t.kind, "M") {
                    "Domain(Type(TypeInner::Pg(Inner::"
                } else {
                    match &t.typtype {
                        None => {
                            return Err(GenError::MissingTyptype(oid));
                        },
                        Some(tt) => {
                            if is_text(tt, "r") {
                                "Range(Type(TypeInner::Pg(Inner::"
                            } else if is_text(tt, "m") {
                                "Multirange(Type(TypeInner::Pg(Inner::"
                            } else {
                                return Err(GenError::BadTyptype(oid));
                            }
                        },
                    }
                };
                match types.get(t.element) {
                    Some(el) => Ok(surround(outer, str_chars(el.variant.as_str()), ")))")),
                    None => Err(GenError::MissingElement(t.element)),
                }
            } else {
                Ok(str_chars("Simple"))
            }
        },
        Some(md) => {
            if is_text(&t.kind, "M") || is_text(&t.kind, "A") || is_text(&t.kind, "R") {
                let outer: &str = if is_text(&t.kind, "M") {
                    "Domain("
                } else if is_text(&t.kind, "A") {
                    "Array("
                } else {
                    match &t.typtype {
                        None => {
                            return Err(GenError::MissingTyptype(oid));
                        },
                        Some(tt) => {
                            if is_text(tt, "r") {
                                "Range("
                            } else if is_text(tt, "m") {
                                "Multirange("
                            } else {
                                return Err(GenError::BadTyptype(oid));
                            }
                        },
                    }
                };
                match compatible_mode_type_expr(t.element, types, pg_types, md) {
                    Ok(x) => Ok(surround(outer, x, ")")),
                    Err(e) => Err(e),
                }
            } else if is_text(&t.kind, "P") {
                Ok(str_chars("Pseudo"))
            } else {
                Ok(str_chars("Simple"))
            }
        },
    }
}

proof fn lemma_kind_lines_step(s: Seq<(u32, EntryView)>, types: Map<u32, EntryView>, pg: Map<u32, EntryView>, mode: Option<Mode>, i: int)
    requires
        0 <= i < s.len(),
    ensures
        kind_lines(s.take(i + 1), types, pg, mode) == (match kind_lines(s.take(i), types, pg, mode) {
            Err(e) => Err(e),
            Ok(t) => match entry_kind(s[i], types, pg, mode) {
                Err(e) => Err(e),
                Ok(k) => Ok(t + kind_line(s[i], k)),
            },
        }),
{
    assert(s.take(i + 1).drop_last() =~= s.take(i));
}

proof fn lemma_kind_lines_err(s: Seq<(u32, EntryView)>, types: Map<u32, EntryView>, pg: Map<u32, EntryView>, mode: Option<Mode>, k: int)
    requires
        0 <= k <= s.len(),
        kind_lines(s.take(k), types, pg, mode) is Err,
    ensures
        kind_lines(s, types, pg, mode) == kind_lines(s.take(k), types, pg, mode),
    decreases s.len() - k,
{
    if k == s.len() {
        assert(s.take(k) =~= s);
    } else {
        assert(s.take(k + 1).drop_last() =~= s.take(k));
        lemma_kind_lines_err(s, types, pg, mode, k + 1);
    }
}

/// The `kind` arms of the entries of `types`, or the first entry's error.
fn kind_arms(types: &TypeTable, pg_types: &TypeTable, mode: Option<Mode>) -> (r: Result<Vec<char>, GenError>)
    requires
        types.wf(),
        pg_types.wf(),
    ensures
        match kind_lines(types@, types.map(), pg_types.map(), mode) {
            Ok(x) => r is Ok && r->Ok_0@ == x,
            Err(e) => r == Err::<Vec<char>, GenError>(e),
        },
{
    let v = types.entries();
    let n = v.len();
    let mut out: Vec<char> = Vec::new();
    let mut i: usize = 0;
    proof {
        assert(types@.take(0) =~= Seq::<(u32, EntryView)>::empty());
    }
    while i < n
        invariant
            i <= n == v.len(),
            entries_view(v@) == types@,
            types.wf(),
            pg_types.wf(),
            kind_lines(types@.take(i as int), types.map(), pg_types.map(), mode) == Ok::<Seq<char>, GenError>(out@),
        decreases n - i,
    {
        proof {
            lemma_kind_lines_step(types@, types.map(), pg_types.map(), mode, i as int);
            assert(types@[i as int] == (v@[i as int].0, v@[i as int].1@));
        }
        let k = match kind_text(v[i].0, &v[i].1, types, pg_types, mode) {
            Err(e) => {
                proof {
                    lemma_kind_lines_err(types@, types.map(), pg_types.map(), mode, i + 1);
                }
                return Err(e);
            },
            Ok(k) => k,
        };
        let ghost before = out@;
        push_str_chars(&mut out, "            Inner::");
        push_str_chars(&mut out, v[i].1.variant.as_str());
        push_str_chars(&mut out, " => {\n                &Kind::");
        let mut k = k;
        let ghost kv = k@;
        out.append(&mut k);
        push_str_chars(&mut out, "\n            }\n");
        proof {
            assert(out@ =~= before + kind_line(types@[i as int], kv));
        }
        i = i + 1;
    }
    proof {
        assert(types@.take(n as int) =~= types@);
    }
    Ok(out)
}

/// The text of a mode's type enum.
pub open spec fn mode_enum_text(s: Seq<(u32, EntryView)>) -> Seq<char> {
    enum_head() + lines(s, LineForm::Variant) + enum_tail()
}

/// Appends a mode's type enum: one variant per entry, in order of oid.
pub fn make_mode_enum(out: &mut Vec<char>, types: &TypeTable)
    ensures
        final(out)@ == old(out)@ + mode_enum_text(types@),
{
    push_enum_head(out);
    push_lines(out, types, LineForm::Variant);
    push_enum_tail(out);
    assert(out@ =~= old(out)@ + mode_enum_text(types@));
}

/// Appends the imports of a mode's table.
pub fn make_mode_header(out: &mut Vec<char>, mode: Mode)
    ensures
        final(out)@ == old(out)@ + mode_header(),
{
    let _ = mode;
    push_mode_header(out);
}

/// The accessors of the PostgreSQL table: `from_oid`, `oid`, `kind`, `name`
/// and `schema`, with one arm per entry.
pub open spec fn pg_impl_text(s: Seq<(u32, EntryView)>, m: Map<u32, EntryView>) -> Result<Seq<char>, GenError> {
    match kind_lines(s, m, m, None) {
        Err(e) => Err(e),
        Ok(kinds) => Ok(
            pg_head() + lines(s, LineForm::PgFromOid) + pg_from_tail() + lines(s, LineForm::Oid)
                + kind_head() + kinds + name_head() + lines(s, LineForm::Name) + schema_head()
                + lines(s, LineForm::Schema) + impl_tail(),
        ),
    }
}

/// The accessors of a compatibility table, whose arrays, domains and
/// ranges name their element types in the mode's table or else in the
/// PostgreSQL one.
pub open spec fn compatible_impl_text(s: Seq<(u32, EntryView)>, m: Map<u32, EntryView>, pg: Map<u32, EntryView>, mode: Mode) -> Result<Seq<char>, GenError> {
    match kind_lines(s, m, pg, Some(mode)) {
        Err(e) => Err(e),
        Ok(kinds) => Ok(
            compat_head() + lines(s, LineForm::CompatFromOid) + compat_from_tail() + lines(s, LineForm::Oid)
                + kind_head() + kinds + name_head() + lines(s, LineForm::Name) + schema_head()
                + lines(s, LineForm::Schema) + impl_tail(),
        ),
    }
}

/// Appends the accessors of the PostgreSQL table; where an entry's kind
/// cannot be written, appends nothing and gives the first such entry's
/// error.
pub fn make_pg_impl(out: &mut Vec<char>, types: &TypeTable) -> (r: Result<(), GenError>)
    requires
        types.wf(),
    ensures
        match pg_impl_text(types@, types.map()) {
            Ok(t) => r is Ok && final(out)@ == old(out)@ + t,
            Err(e) => r == Err::<(), GenError>(e) && final(out)@ == old(out)@,
        },
{
    let mut kinds = match kind_arms(types, types, None) {
        Err(e) => {
            return Err(e);
        },
        Ok(k) => k,
    };
    let ghost kv = kinds@;
    push_pg_head(out);
    push_lines(out, types, LineForm::PgFromOid);
    push_pg_from_tail(out);
    push_lines(out, types, LineForm::Oid);
    push_kind_head(out);
    out.append(&mut kinds);
    push_name_head(out);
    push_lines(out, types, LineForm::Name);
    push_schema_head(out);
    push_lines(out, types, LineForm::Schema);
    push_impl_tail(out);
    proof {
        assert(out@ =~= old(out)@ + (pg_head() + lines(types@, LineForm::PgFromOid) + pg_from_tail()
            + lines(types@, LineForm::Oid) + kind_head() + kv + name_head() + lines(types@, LineForm::Name)
            + schema_head() + lines(types@, LineForm::Schema) + impl_tail()));
    }
    Ok(())
}

/// Appends the accessors of a compatibility table; where an entry's kind
/// cannot be written, appends nothing and gives the first such entry's
/// error.
pub fn make_compatible_impl(out: &mut Vec<char>, types: &TypeTable, pg_types: &TypeTable, mode: Mode) -> (r: Result<(), GenError>)
    requires
        types.wf(),
        pg_types.wf(),
    ensures
        match compatible_impl_text(types@, types.map(), pg_types.map(), mode) {
            Ok(t) => r is Ok && final(out)@ == old(out)@ + t,
            Err(e) => r == Err::<(), GenError>(e) && final(out)@ == old(out)@,
        },
{
    let mut kinds = match kind_arms(types, pg_types, Some(mode)) {
        Err(e) => {
            return Err(e);
        },
        Ok(k) => k,
    };
    let ghost kv = kinds@;
    push_compat_head(out);
    push_lines(out, types, LineForm::CompatFromOid);
    push_compat_from_tail(out);
    push_lines(out, types, LineForm::Oid);
    push_kind_head(out);
    out.append(&mut kinds);
    push_name_head(out);
    push_lines(out, types, LineForm::Name);
    push_schema_head(out);
    push_lines(out, types, LineForm::Schema);
    push_impl_tail(out);
    proof {
        assert(out@ =~= old(out)@ + (compat_head() + lines(types@, LineForm::CompatFromOid) + compat_from_tail()
            + lines(types@, LineForm::Oid) + kind_head() + kv + name_head() + lines(types@, LineForm::Name)
            + schema_head() + lines(types@, LineForm::Schema) + impl_tail()));
    }
    Ok(())
}

/// Appends the imports of the type wrapper and its `Other` type.
pub fn make_wrapper_header(out: &mut Vec<char>)
    ensures
        final(out)@ == old(out)@ + wrapper_header(),
{
    push_wrapper_header(out);
}

/// Appends the type wrapper's enum over the modes.
pub fn make_wrapper_enum(out: &mut Vec<char>)
    ensures
        final(out)@ == old(out)@ + wrapper_enum(),
{
    push_wrapper_enum(out);
}

/// Appends the type wrapper's accessors.
pub fn make_wrapper_impl(out: &mut Vec<char>)
    ensures
        final(out)@ == old(out)@ + wrapper_impl(),
{
    push_wrapper_impl(out);
}

/// Whether some entry of `pg` has the constant name `ident`.
pub open spec fn has_ident(pg: Seq<(u32, EntryView)>, ident: Seq<char>) -> bool {
    exists|i: int| 0 <= i < pg.len() && #[trigger] pg[i].1.ident == ident
}

/// The constant name of a compatibility entry: prefixed with `SYS_` where
/// it lies outside `pg_catalog` and a PostgreSQL entry has its name.
pub open spec fn const_ident(t: EntryView, pg: Seq<(u32, EntryView)>) -> Seq<char> {
    if t.schema != "pg_catalog"@ && has_ident(pg, t.ident) {
        "SYS_"@ + t.ident
    } else {
        t.ident
    }
}

/// The alias constant of a PostgreSQL entry under `prefix`.
pub open spec fn alias_line(e: (u32, EntryView), prefix: Seq<char>) -> Seq<char> {
    let ident = e.1.ident;
    "\n\n    /// PostgreSQL-compatible "@ + prefix + " alias for "@ + ident + ".\n    pub const "@ + prefix + "_"@
        + ident + ": Type = Type::"@ + ident + ";\n"@
}

/// The alias constants of the entries of `s`, in order.
pub open spec fn alias_lines(s: Seq<(u32, EntryView)>, prefix: Seq<char>) -> Seq<char>
    decreases s.len(),
{
    if s.len() == 0 {
        Seq::empty()
    } else {
        alias_lines(s.drop_last(), prefix) + alias_line(s.last(), prefix)
    }
}

/// The constant of a compatibility entry of `mode` under `prefix`.
pub open spec fn compat_const_line(e: (u32, EntryView), pg: Seq<(u32, EntryView)>, mode: Mode, prefix: Seq<char>) -> Seq<char> {
    "\n\n    /// "@ + e.1.doc + "\n    pub const "@ + prefix + "_"@ + const_ident(e.1, pg) + ": Type = Type(Inner::"@
        + mode_name(mode) + "(\n        crate::"@ + ascii_lower(prefix) + "_type_gen::Inner::"@ + e.1.variant
        + ",\n    ));"@
}

/// The constants of the compatibility entries of `s`, in order.
pub open spec fn compat_const_lines(s: Seq<(u32, EntryView)>, pg: Seq<(u32, EntryView)>, mode: Mode, prefix: Seq<char>) -> Seq<char>
    decreases s.len(),
{
    if s.len() == 0 {
        Seq::empty()
    } else {
        compat_const_lines(s.drop_last(), pg, mode, prefix) + compat_const_line(s.last(), pg, mode, prefix)
    }
}

/// The type constants: one per PostgreSQL entry, its aliases under the
/// MySQL, Oracle and SQL Server prefixes, and one per entry of each
/// compatibility table.
pub open spec fn consts_text(
    pg: Seq<(u32, EntryView)>,
    mysql: Seq<(u32, EntryView)>,
    oracle: Seq<(u32, EntryView)>,
    sqlserver: Seq<(u32, EntryView)>,
) -> Seq<char> {
    "impl Type {"@ + lines(pg, LineForm::PgConst) + alias_lines(pg, "MYSQL"@) + alias_lines(pg, "ORACLE"@)
        + alias_lines(pg, "SQLSERVER"@) + compat_const_lines(mysql, pg, Mode::Mysql, "MYSQL"@)
        + compat_const_lines(oracle, pg, Mode::Oracle, "ORACLE"@) + compat_const_lines(
        sqlserver,
        pg,
        Mode::SqlServer,
        "SQLSERVER"@,
    ) + "}"@
}

/// Appends the alias constants of the PostgreSQL entries under `prefix`.
pub fn make_pg_alias_consts(out: &mut Vec<char>, types: &TypeTable, prefix: &str)
    ensures
        final(out)@ == old(out)@ + alias_lines(types@, prefix@),
{
    let v = types.entries();
    let n = v.len();
    let mut i: usize = 0;
    proof {
        assert(types@.take(0) =~= Seq::<(u32, EntryView)>::empty());
        assert(old(out)@ + Seq::<char>::empty() =~= old(out)@);
    }
    while i < n
        invariant
            i <= n == v.len(),
            entries_view(v@) == types@,
            out@ == old(out)@ + alias_lines(types@.take(i as int), prefix@),
        decreases n - i,
    {
        let ghost before = out@;
        let ident = v[i].1.ident.as_str();
        push_str_chars(out, "\n\n    /// PostgreSQL-compatible ");
        push_str_chars(out, prefix);
        push_str_chars(out, " alias for ");
        push_str_chars(out, ident);
        push_str_chars(out, ".\n    pub const ");
        push_str_chars(out, prefix);
        push_str_chars(out, "_");
        push_str_chars(out, ident);
        push_str_chars(out, ": Type = Type::");
        push_str_chars(out, ident);
        push_str_chars(out, ";\n");
        proof {
            assert(types@.take(i + 1).drop_last() =~= types@.take(i as int));
            assert(types@[i as int] == (v@[i as int].0, v@[i as int].1@));
            assert(out@ =~= before + alias_line(types@[i as int], prefix@));
        }
        i = i + 1;
    }
    proof {
        assert(types@.take(n as int) =~= types@);
    }
}

/// Whether some entry of `pg_types` has the constant name `ident`.
fn any_ident(pg_types: &TypeTable, ident: &String) -> (r: bool)
    ensures
        r == has_ident(pg_types@, ident@),
{
    let v = pg_types.entries();
    let n = v.len();
    let mut i: usize = 0;
    while i < n
        invariant
            i <= n == v.len(),
            entries_view(v@) == pg_types@,
            forall|j: int| 0 <= j < i ==> #[trigger] pg_types@[j].1.ident != ident@,
        decreases n - i,
    {
        proof {
            assert(pg_types@[i as int] == (v@[i as int].0, v@[i as int].1@));
        }
        if v[i].1.ident == *ident {
            proof {
                assert(pg_types@[i as int].1.ident == ident@);
            }
            return true;
        }
        i = i + 1;
    }
    false
}

/// Appends the constants of the entries of a compatibility table of
/// `mode` under `prefix`.
#[verifier::rlimit(40)]
#[verifier::spinoff_prover]
pub fn make_compatible_consts(out: &mut Vec<char>, pg_types: &TypeTable, types: &TypeTable, mode: Mode, prefix: &str)
    ensures
        final(out)@ == old(out)@ + compat_const_lines(types@, pg_types@, mode, prefix@),
{
    let module = to_ascii_lower(prefix);
    let v = types.entries();
    let n = v.len();
    let mut i: usize = 0;
    proof {
        assert(types@.take(0) =~= Seq::<(u32, EntryView)>::empty());
        assert(old(out)@ + Seq::<char>::empty() =~= old(out)@);
    }
    while i < n
        invariant
            i <= n == v.len(),
            entries_view(v@) == types@,
            module@ == ascii_lower(prefix@),
            out@ == old(out)@ + compat_const_lines(types@.take(i as int), pg_types@, mode, prefix@),
        decreases n - i,
    {
        let ghost before = out@;
        let t = &v[i].1;
        let sys = !is_text(&t.schema, "pg_catalog") && any_ident(pg_types, &t.ident);
        push_str_chars(out, "\n\n    /// ");
        push_str_chars(out, t.doc.as_str());
        push_str_chars(out, "\n    pub const ");
        push_str_chars(out, prefix);
        push_str_chars(out, "_");
        if sys {
            push_str_chars(out, "SYS_");
        }
        push_str_chars(out, t.ident.as_str());
        push_str_chars(out, ": Type = Type(Inner::");
        push_str_chars(out, mode.inner_variant());
        push_str_chars(out, "(\n        crate::");
        push_str_chars(out, module.as_str());
        push_str_chars(out, "_type_gen::Inner::");
        push_str_chars(out, t.variant.as_str());
        push_str_chars(out, ",\n    ));");
        proof {
            assert(types@.take(i + 1).drop_last() =~= types@.take(i as int));
            assert(types@[i as int] == (v@[i as int].0, v@[i as int].1@));
            assert(out@ =~= before + compat_const_line(types@[i as int], pg_types@, mode, prefix@));
        }
        i = i + 1;
    }
    proof {
        assert(types@.take(n as int) =~= types@);
    }
}

/// Appends the type constants.
pub fn make_consts(out: &mut Vec<char>, types: &TypeTable, mysql_types: &TypeTable, oracle_types: &TypeTable, sqlserver_types: &TypeTable)
    ensures
        final(out)@ == old(out)@ + consts_text(types@, mysql_types@, oracle_types@, sqlserver_types@),
{
    push_str_chars(out, "impl Type {");
    push_lines(out, types, LineForm::PgConst);
    make_pg_alias_consts(out, types, "MYSQL");
    make_pg_alias_consts(out, types, "ORACLE");
    make_pg_alias_consts(out, types, "SQLSERVER");
    make_compatible_consts(out, types, mysql_types, Mode::Mysql, "MYSQL");
    make_compatible_consts(out, types, oracle_types, Mode::Oracle, "ORACLE");
    make_compatible_consts(out, types, sqlserver_types, Mode::SqlServer, "SQLSERVER");
    push_str_chars(out, "}");
    assert(out@ =~= old(out)@ + consts_text(types@, mysql_types@, oracle_types@, sqlserver_types@));
}

} // verus!
