//! Reading the type catalogs: the PostgreSQL `pg_type` and `pg_range`
//! tables and the KingbaseES overlay tables, each in the `.dat` format, into
//! type tables.

use vstd::prelude::*;
use crate::catalog::{EntryView, TypeEntry, TypeTable, entries_view, oids_increasing};
use crate::catalog_text::{
    ascii_upper, camel_case, escape_html, html_escaped, is_text, join2, regex_compiles,
    regex_replace, regex_replaced, snake_to_camel, to_ascii_upper,
};
use crate::dat::{DatError, dat_objects, field, field_value, objects_view, pairs_view, parse_dat};
use crate::query::{parse_u64, u64_text_value};
use crate::text::{push_str_chars, str_chars, string_from_chars, string_of};

verus! {

/// A field of a catalog entry.
#[derive(Debug, Copy, Clone, PartialEq, Eq, Structural)]
pub enum CatalogField {
    Oid,
    Typname,
    Typcategory,
    Typbasetype,
    Typelem,
    ArrayTypeOid,
    Rngtypid,
    Rngsubtype,
    Rngmultitypid,
}

/// Why a catalog could not be read.
#[derive(Debug, Copy, Clone, PartialEq, Eq, Structural)]
pub enum GenError {
    /// The text is not in the `.dat` format.
    Dat(DatError),
    /// An entry lacks a field that it needs.
    MissingField(CatalogField),
    /// A field that holds an oid is not a 32-bit unsigned number.
    BadNumber(CatalogField),
    /// A field names a type that the catalog does not hold.
    UnknownName(CatalogField),
    /// The range type with this oid has no `typtype`.
    MissingTyptype(u32),
    /// The range type with this oid has a `typtype` other than `r` and `m`.
    BadTyptype(u32),
    /// No range entry gives the subtype of the type with this oid.
    MissingRange(u32),
    /// A pattern of the name rewriting was refused.
    BadPattern,
    /// A type table entry refers to this oid, which the tables lack.
    MissingElement(u32),
}

/// The unsigned 32-bit number that `t` writes, the way `str::parse::<u32>`
/// reads it.
pub open spec fn u32_value(t: Seq<char>) -> Option<u32> {
    match u64_text_value(t) {
        Some(v) => if v <= u32::MAX {
            Some(v as u32)
        } else {
            None
        },
        None => None,
    }
}

/// The value of a field that an entry must have.
pub open spec fn text_field(o: Seq<(Seq<char>, Seq<char>)>, key: Seq<char>, f: CatalogField) -> Result<Seq<char>, GenError> {
    match field_value(o, key) {
        Some(v) => Ok(v),
        None => Err(GenError::MissingField(f)),
    }
}

/// The number in a field that an entry must have.
pub open spec fn number_field(o: Seq<(Seq<char>, Seq<char>)>, key: Seq<char>, f: CatalogField) -> Result<u32, GenError> {
    match text_field(o, key, f) {
        Err(e) => Err(e),
        Ok(t) => match u32_value(t) {
            Some(v) => Ok(v),
            None => Err(GenError::BadNumber(f)),
        },
    }
}

/// The number in a field that an entry may have, or 0.
pub open spec fn optional_number(o: Seq<(Seq<char>, Seq<char>)>, key: Seq<char>, f: CatalogField) -> Result<u32, GenError> {
    match field_value(o, key) {
        None => Ok(0),
        Some(t) => match u32_value(t) {
            Some(v) => Ok(v),
            None => Err(GenError::BadNumber(f)),
        },
    }
}

/// `o`'s text, or `d` where there is none.
pub open spec fn or_text(o: Option<Seq<char>>, d: Seq<char>) -> Seq<char> {
    match o {
        Some(v) => v,
        None => d,
    }
}

/// `base`, followed by ` - ` and the description where there is one.
pub open spec fn described(base: Seq<char>, descr: Option<Seq<char>>) -> Seq<char> {
    match descr {
        Some(d) => base + " - "@ + d,
        None => base,
    }
}

/// The entry that an overlay catalog object gives, with its oid.
pub open spec fn overlay_entry(o: Seq<(Seq<char>, Seq<char>)>) -> Result<(u32, EntryView), GenError> {
    match number_field(o, "oid"@, CatalogField::Oid) {
        Err(e) => Err(e),
        Ok(oid) => match text_field(o, "typname"@, CatalogField::Typname) {
            Err(e) => Err(e),
            Ok(name) => match text_field(o, "typcategory"@, CatalogField::Typcategory) {
                Err(e) => Err(e),
                Ok(kind) => match optional_number(o, "typbasetype"@, CatalogField::Typbasetype) {
                    Err(e) => Err(e),
                    Ok(element) => {
                        let schema = or_text(field_value(o, "schema"@), "sys"@);
                        Ok(
                            (
                                oid,
                                EntryView {
                                    name: name,
                                    variant: or_text(field_value(o, "variant"@), camel_case(name)),
                                    ident: or_text(field_value(o, "ident"@), ascii_upper(name)),
                                    kind: kind,
                                    typtype: None,
                                    element: element,
                                    schema: schema,
                                    doc: html_escaped(
                                        described(schema + "."@ + name, field_value(o, "descr"@)),
                                    ),
                                },
                            ),
                        )
                    },
                },
            },
        },
    }
}

/// The overlay entries by oid: each object in turn, a later one in place
/// of an earlier one with its oid.
pub open spec fn overlay_map(objs: Seq<Seq<(Seq<char>, Seq<char>)>>) -> Result<Map<u32, EntryView>, GenError>
    decreases objs.len(),
{
    if objs.len() == 0 {
        Ok(Map::empty())
    } else {
        match overlay_map(objs.drop_last()) {
            Err(e) => Err(e),
            Ok(m) => match overlay_entry(objs.last()) {
                Err(e) => Err(e),
                Ok((oid, v)) => Ok(m.insert(oid, v)),
            },
        }
    }
}

proof fn lemma_overlay_err(objs: Seq<Seq<(Seq<char>, Seq<char>)>>, k: int)
    requires
        0 <= k <= objs.len(),
        overlay_map(objs.take(k)) is Err,
    ensures
        overlay_map(objs) == overlay_map(objs.take(k)),
    decreases objs.len() - k,
{
    if k == objs.len() {
        assert(objs.take(k) =~= objs);
    } else {
        assert(objs.take(k + 1).drop_last() =~= objs.take(k));
        lemma_overlay_err(objs, k + 1);
    }
}

/// The entries of an overlay catalog text.
pub open spec fn overlay_types(source: Seq<char>) -> Result<Map<u32, EntryView>, GenError> {
    match dat_objects(source) {
        Err(e) => Err(GenError::Dat(e)),
        Ok(objs) => overlay_map(objs),
    }
}

/// Reads `t` the way `str::parse::<u32>` does.
pub fn parse_u32(t: &String) -> (r: Option<u32>)
    ensures
        r == u32_value(t@),
{
    let chars = str_chars(t.as_str());
    match parse_u64(chars.as_slice()) {
        Some(v) => if v <= 0xffff_ffff {
            Some(v as u32)
        } else {
            None
        },
        None => None,
    }
}

/// The value of a field that `object` must have.
pub fn text_of_field(object: &Vec<(String, String)>, key: &str, f: CatalogField) -> (r: Result<String, GenError>)
    ensures
        match text_field(pairs_view(object@), key@, f) {
            Ok(v) => r is Ok && r->Ok_0@ == v,
            Err(e) => r == Err::<String, GenError>(e),
        },
{
    match field(object, key) {
        Some(v) => Ok(v),
        None => Err(GenError::MissingField(f)),
    }
}

/// The number in a field that `object` must have.
pub fn number_of_field(object: &Vec<(String, String)>, key: &str, f: CatalogField) -> (r: Result<u32, GenError>)
    ensures
        r == number_field(pairs_view(object@), key@, f),
{
    match text_of_field(object, key, f) {
        Err(e) => Err(e),
        Ok(t) => match parse_u32(&t) {
            Some(v) => Ok(v),
            None => Err(GenError::BadNumber(f)),
        },
    }
}

/// `base`, followed by ` - ` and the description where there is one.
fn describe(base: &str, descr: &Option<String>) -> (r: String)
    ensures
        r@ == described(
            base@,
            match descr {
                Some(d) => Some(d@),
                None => None,
            },
        ),
{
    match descr {
        Some(d) => {
            let mut v: Vec<char> = Vec::new();
            push_str_chars(&mut v, base);
            push_str_chars(&mut v, " - ");
            push_str_chars(&mut v, d.as_str());
            proof {
                assert(v@ =~= base@ + " - "@ + d@);
            }
            string_from_chars(v.as_slice())
        },
        None => string_of(base),
    }
}

/// The entry that an overlay catalog object gives, with its oid.
pub fn overlay_entry_of(object: &Vec<(String, String)>) -> (r: Result<(u32, TypeEntry), GenError>)
    ensures
        match overlay_entry(pairs_view(object@)) {
            Ok((oid, v)) => r is Ok && r->Ok_0.0 == oid && r->Ok_0.1@ == v,
            Err(e) => r == Err::<(u32, TypeEntry), GenError>(e),
        },
{
    let oid = match number_of_field(object, "oid", CatalogField::Oid) {
        Err(e) => {
            return Err(e);
        },
        Ok(v) => v,
    };
    let name = match text_of_field(object, "typname", CatalogField::Typname) {
        Err(e) => {
            return Err(e);
        },
        Ok(v) => v,
    };
    let variant = match field(object, "variant") {
        Some(v) => v,
        None => snake_to_camel(name.as_str()),
    };
    let ident = match field(object, "ident") {
        Some(v) => v,
        None => to_ascii_upper(name.as_str()),
    };
    let kind = match text_of_field(object, "typcategory", CatalogField::Typcategory) {
        Err(e) => {
            return Err(e);
        },
        Ok(v) => v,
    };
    let element = match field(object, "typbasetype") {
        Some(t) => match parse_u32(&t) {
            Some(v) => v,
            None => {
                return Err(GenError::BadNumber(CatalogField::Typbasetype));
            },
        },
        None => 0,
    };
    let schema = match field(object, "schema") {
        Some(v) => v,
        None => string_of("sys"),
    };
    let prefix = join2(schema.as_str(), ".");
    let qualified = join2(prefix.as_str(), name.as_str());
    let descr = field(object, "descr");
    let doc_text = describe(qualified.as_str(), &descr);
    let doc = escape_html(doc_text.as_str());
    Ok(
        (
            oid,
            TypeEntry {
                name: name,
                variant: variant,
                ident: ident,
                kind: kind,
                typtype: None,
                element: element,
                schema: schema,
                doc: doc,
            },
        ),
    )
}

/// Reads an overlay catalog: the KingbaseES types of one compatibility
/// mode, each with its oid, name, category and, where it has them, variant,
/// constant name, base type, schema and description.
pub fn parse_kingbase_overlay_types(source: &str) -> (r: Result<TypeTable, GenError>)
    ensures
        match overlay_types(source@) {
            Ok(m) => r is Ok && r->Ok_0.wf() && r->Ok_0.map() == m,
            Err(e) => r is Err && r->Err_0 == e,
        },
{
    let raw_types = match parse_dat(source) {
        Err(e) => {
            return Err(GenError::Dat(e));
        },
        Ok(v) => v,
    };
    let ghost objs = objects_view(raw_types@);
    let mut types = TypeTable::new();
    let n = raw_types.len();
    let mut i: usize = 0;
    proof {
        assert(objs.take(0).len() == 0);
        assert(types.map() =~= Map::<u32, EntryView>::empty());
    }
    while i < n
        invariant
            i <= n == raw_types.len(),
            objs == objects_view(raw_types@),
            dat_objects(source@) == Ok::<Seq<Seq<(Seq<char>, Seq<char>)>>, DatError>(objs),
            types.wf(),
            overlay_map(objs.take(i as int)) == Ok::<Map<u32, EntryView>, GenError>(types.map()),
        decreases n - i,
    {
        proof {
            assert(objs.take(i + 1).drop_last() =~= objs.take(i as int));
            assert(objs.take(i + 1).last() == objs[i as int]);
            assert(objs[i as int] == pairs_view(raw_types@[i as int]@));
        }
        let (oid, entry) = match overlay_entry_of(&raw_types[i]) {
            Err(e) => {
                proof {
                    lemma_overlay_err(objs, i + 1);
                }
                return Err(e);
            },
            Ok(p) => p,
        };
        types.insert(oid, entry);
        i = i + 1;
    }
    proof {
        assert(objs.take(n as int) =~= objs);
    }
    Ok(types)
}

/// The oid of each catalog object by its name, in the order of the objects.
pub open spec fn name_oid_list(objs: Seq<Seq<(Seq<char>, Seq<char>)>>) -> Result<Seq<(Seq<char>, u32)>, GenError>
    decreases objs.len(),
{
    if objs.len() == 0 {
        Ok(Seq::empty())
    } else {
        match name_oid_list(objs.drop_last()) {
            Err(e) => Err(e),
            Ok(l) => match text_field(objs.last(), "typname"@, CatalogField::Typname) {
                Err(e) => Err(e),
                Ok(name) => match number_field(objs.last(), "oid"@, CatalogField::Oid) {
                    Err(e) => Err(e),
                    Ok(oid) => Ok(l.push((name, oid))),
                },
            },
        }
    }
}

/// The oid that the last pair named `name` gives.
pub open spec fn oid_of(l: Seq<(Seq<char>, u32)>, name: Seq<char>) -> Option<u32>
    decreases l.len(),
{
    if l.len() == 0 {
        None
    } else if l.last().0 == name {
        Some(l.last().1)
    } else {
        oid_of(l.drop_last(), name)
    }
}

/// The oid of the type that field `key` of `o` names.
pub open spec fn named_oid(o: Seq<(Seq<char>, Seq<char>)>, key: Seq<char>, f: CatalogField, names: Seq<(Seq<char>, u32)>) -> Result<u32, GenError> {
    match text_field(o, key, f) {
        Err(e) => Err(e),
        Ok(t) => match oid_of(names, t) {
            Some(v) => Ok(v),
            None => Err(GenError::UnknownName(f)),
        },
    }
}

/// For each range object in turn, the oid of the type that field `key`
/// names and the oid of its subtype.
pub open spec fn range_list(objs: Seq<Seq<(Seq<char>, Seq<char>)>>, names: Seq<(Seq<char>, u32)>, key: Seq<char>, f: CatalogField) -> Result<Seq<(u32, u32)>, GenError>
    decreases objs.len(),
{
    if objs.len() == 0 {
        Ok(Seq::empty())
    } else {
        match range_list(objs.drop_last(), names, key, f) {
            Err(e) => Err(e),
            Ok(l) => match named_oid(objs.last(), key, f, names) {
                Err(e) => Err(e),
                Ok(t) => match named_oid(objs.last(), "rngsubtype"@, CatalogField::Rngsubtype, names) {
                    Err(e) => Err(e),
                    Ok(sub) => Ok(l.push((t, sub))),
                },
            },
        }
    }
}

/// The subtype that the last pair for `oid` gives.
pub open spec fn subtype_of(l: Seq<(u32, u32)>, oid: u32) -> Option<u32>
    decreases l.len(),
{
    if l.len() == 0 {
        None
    } else if l.last().0 == oid {
        Some(l.last().1)
    } else {
        subtype_of(l.drop_last(), oid)
    }
}

/// The pattern of a range or vector type name's suffix.
pub open spec fn range_vector_pattern() -> Seq<char> {
    "(range|vector)$"@
}

/// The pattern of an array type name.
pub open spec fn array_pattern() -> Seq<char> {
    "^_(.*)"@
}

/// The element oid of a PostgreSQL type: a range's subtype, an array's
/// element type, or 0.
pub open spec fn pg_element(
    o: Seq<(Seq<char>, Seq<char>)>,
    kind: Seq<char>,
    oid: u32,
    names: Seq<(Seq<char>, u32)>,
    ranges: Seq<(u32, u32)>,
    multis: Seq<(u32, u32)>,
) -> Result<u32, GenError> {
    if kind == "R"@ {
        match field_value(o, "typtype"@) {
            None => Err(GenError::MissingTyptype(oid)),
            Some(t) => if t == "r"@ {
                match subtype_of(ranges, oid) {
                    Some(v) => Ok(v),
                    None => Err(GenError::MissingRange(oid)),
                }
            } else if t == "m"@ {
                match subtype_of(multis, oid) {
                    Some(v) => Ok(v),
                    None => Err(GenError::MissingRange(oid)),
                }
            } else {
                Err(GenError::BadTyptype(oid))
            },
        }
    } else if kind == "A"@ {
        named_oid(o, "typelem"@, CatalogField::Typelem, names)
    } else {
        Ok(0)
    }
}

/// The entries that a `pg_type` object gives: none for composite and enum
/// types, else its own and, where it names one, that of its array type.
pub open spec fn pg_entry(
    o: Seq<(Seq<char>, Seq<char>)>,
    names: Seq<(Seq<char>, u32)>,
    ranges: Seq<(u32, u32)>,
    multis: Seq<(u32, u32)>,
) -> Result<Option<((u32, EntryView), Option<(u32, EntryView)>)>, GenError> {
    match number_field(o, "oid"@, CatalogField::Oid) {
        Err(e) => Err(e),
        Ok(oid) => match text_field(o, "typname"@, CatalogField::Typname) {
            Err(e) => Err(e),
            Ok(name) => if !regex_compiles(range_vector_pattern()) || !regex_compiles(array_pattern()) {
                Err(GenError::BadPattern)
            } else {
                let base = regex_replaced(
                    array_pattern(),
                    regex_replaced(range_vector_pattern(), name, "_$1"@),
                    "${1}_array"@,
                );
                let variant = camel_case(base);
                let ident = ascii_upper(base);
                match text_field(o, "typcategory"@, CatalogField::Typcategory) {
                    Err(e) => Err(e),
                    Ok(kind) => if kind == "C"@ || kind == "E"@ {
                        Ok(None)
                    } else {
                        match pg_element(o, kind, oid, names, ranges, multis) {
                            Err(e) => Err(e),
                            Ok(element) => {
                                let doc_name = ascii_upper(regex_replaced(array_pattern(), name, "$1[]"@));
                                let main = (
                                    oid,
                                    EntryView {
                                        name: name,
                                        variant: variant,
                                        ident: ident,
                                        kind: kind,
                                        typtype: field_value(o, "typtype"@),
                                        element: element,
                                        schema: "pg_catalog"@,
                                        doc: html_escaped(described(doc_name, field_value(o, "descr"@))),
                                    },
                                );
                                match field_value(o, "array_type_oid"@) {
                                    None => Ok(Some((main, None))),
                                    Some(t) => match u32_value(t) {
                                        None => Err(GenError::BadNumber(CatalogField::ArrayTypeOid)),
                                        Some(array_oid) => Ok(
                                            Some(
                                                (
                                                    main,
                                                    Some(
                                                        (
                                                            array_oid,
                                                            EntryView {
                                                                name: "_"@ + name,
                                                                variant: variant + "Array"@,
                                                                ident: ident + "_ARRAY"@,
                                                                kind: "A"@,
                                                                typtype: None,
                                                                element: oid,
                                                                schema: "pg_catalog"@,
                                                                doc: doc_name + "&#91;&#93;"@,
                                                            },
                                                        ),
                                                    ),
                                                ),
                                            ),
                                        ),
                                    },
                                }
                            },
                        }
                    },
                }
            },
        },
    }
}

/// `m` with the entries of one `pg_type` object: its array type's first,
/// then its own.
pub open spec fn with_pg_entry(m: Map<u32, EntryView>, r: Option<((u32, EntryView), Option<(u32, EntryView)>)>) -> Map<u32, EntryView> {
    match r {
        None => m,
        Some((main, None)) => m.insert(main.0, main.1),
        Some((main, Some(array))) => m.insert(array.0, array.1).insert(main.0, main.1),
    }
}

/// The PostgreSQL entries by oid: each object in turn.
pub open spec fn pg_map(
    objs: Seq<Seq<(Seq<char>, Seq<char>)>>,
    names: Seq<(Seq<char>, u32)>,
    ranges: Seq<(u32, u32)>,
    multis: Seq<(u32, u32)>,
) -> Result<Map<u32, EntryView>, GenError>
    decreases objs.len(),
{
    if objs.len() == 0 {
        Ok(Map::empty())
    } else {
        match pg_map(objs.drop_last(), names, ranges, multis) {
            Err(e) => Err(e),
            Ok(m) => match pg_entry(objs.last(), names, ranges, multis) {
                Err(e) => Err(e),
                Ok(r) => Ok(with_pg_entry(m, r)),
            },
        }
    }
}

/// The entries of the PostgreSQL catalog texts `pg_type` and `pg_range`.
pub open spec fn pg_types(type_dat: Seq<char>, range_dat: Seq<char>) -> Result<Map<u32, EntryView>, GenError> {
    match dat_objects(type_dat) {
        Err(e) => Err(GenError::Dat(e)),
        Ok(types) => match dat_objects(range_dat) {
            Err(e) => Err(GenError::Dat(e)),
            Ok(ranges) => match name_oid_list(types) {
                Err(e) => Err(e),
                Ok(names) => match range_list(ranges, names, "rngtypid"@, CatalogField::Rngtypid) {
                    Err(e) => Err(e),
                    Ok(rs) => match range_list(ranges, names, "rngmultitypid"@, CatalogField::Rngmultitypid) {
                        Err(e) => Err(e),
                        Ok(ms) => pg_map(types, names, rs, ms),
                    },
                },
            },
        },
    }
}

/// Pairs of names and oids as text.
pub open spec fn names_view(v: Seq<(String, u32)>) -> Seq<(Seq<char>, u32)> {
    v.map_values(|p: (String, u32)| (p.0@, p.1))
}

/// The name and oid of each object, in order.
pub fn name_oids(raw: &Vec<Vec<(String, String)>>) -> (r: Result<Vec<(String, u32)>, GenError>)
    ensures
        match name_oid_list(objects_view(raw@)) {
            Ok(l) => r is Ok && names_view(r->Ok_0@) == l,
            Err(e) => r == Err::<Vec<(String, u32)>, GenError>(e),
        },
{
    let ghost objs = objects_view(raw@);
    let mut out: Vec<(String, u32)> = Vec::new();
    let n = raw.len();
    let mut i: usize = 0;
    proof {
        assert(objs.take(0).len() == 0);
        assert(names_view(out@) =~= Seq::<(Seq<char>, u32)>::empty());
    }
    while i < n
        invariant
            i <= n == raw.len(),
            objs == objects_view(raw@),
            name_oid_list(objs.take(i as int)) == Ok::<Seq<(Seq<char>, u32)>, GenError>(names_view(out@)),
        decreases n - i,
    {
        proof {
            assert(objs.take(i + 1).drop_last() =~= objs.take(i as int));
            assert(objs.take(i + 1).last() == objs[i as int]);
            assert(objs[i as int] == pairs_view(raw@[i as int]@));
        }
        let name = match text_of_field(&raw[i], "typname", CatalogField::Typname) {
            Err(e) => {
                proof {
                    lemma_name_list_err(objs, i + 1);
                }
                return Err(e);
            },
            Ok(v) => v,
        };
        let oid = match number_of_field(&raw[i], "oid", CatalogField::Oid) {
            Err(e) => {
                proof {
                    lemma_name_list_err(objs, i + 1);
                }
                return Err(e);
            },
            Ok(v) => v,
        };
        let ghost before = names_view(out@);
        out.push((name, oid));
        proof {
            assert(names_view(out@) =~= before.push((name@, oid)));
        }
        i = i + 1;
    }
    proof {
        assert(objs.take(n as int) =~= objs);
    }
    Ok(out)
}

proof fn lemma_name_list_err(objs: Seq<Seq<(Seq<char>, Seq<char>)>>, k: int)
    requires
        0 <= k <= objs.len(),
        name_oid_list(objs.take(k)) is Err,
    ensures
        name_oid_list(objs) == name_oid_list(objs.take(k)),
    decreases objs.len() - k,
{
    if k == objs.len() {
        assert(objs.take(k) =~= objs);
    } else {
        assert(objs.take(k + 1).drop_last() =~= objs.take(k));
        lemma_name_list_err(objs, k + 1);
    }
}

/// The oid that the last pair named `name` gives.
pub fn oid_named(names: &Vec<(String, u32)>, name: &String) -> (r: Option<u32>)
    ensures
        r == oid_of(names_view(names@), name@),
{
    let mut i = names.len();
    proof {
        assert(names_view(names@).take(i as int) =~= names_view(names@));
    }
    while i > 0
        invariant
            i <= names.len(),
            oid_of(names_view(names@), name@) == oid_of(names_view(names@).take(i as int), name@),
        decreases i,
    {
        proof {
            assert(names_view(names@).take(i as int).drop_last() =~= names_view(names@).take(i - 1));
        }
        if names[i - 1].0 == *name {
            return Some(names[i - 1].1);
        }
        i = i - 1;
    }
    None
}

/// The oid of the type that field `key` of `object` names.
pub fn named_oid_of(object: &Vec<(String, String)>, key: &str, f: CatalogField, names: &Vec<(String, u32)>) -> (r: Result<u32, GenError>)
    ensures
        r == named_oid(pairs_view(object@), key@, f, names_view(names@)),
{
    match text_of_field(object, key, f) {
        Err(e) => Err(e),
        Ok(t) => match oid_named(names, &t) {
            Some(v) => Ok(v),
            None => Err(GenError::UnknownName(f)),
        },
    }
}

/// For each range object in turn, the oid of the type that field `key`
/// names and the oid of its subtype.
pub fn range_pairs(raw: &Vec<Vec<(String, String)>>, names: &Vec<(String, u32)>, key: &str, f: CatalogField) -> (r: Result<Vec<(u32, u32)>, GenError>)
    ensures
        match range_list(objects_view(raw@), names_view(names@), key@, f) {
            Ok(l) => r is Ok && r->Ok_0@ == l,
            Err(e) => r == Err::<Vec<(u32, u32)>, GenError>(e),
        },
{
    let ghost objs = objects_view(raw@);
    let ghost nv = names_view(names@);
    let mut out: Vec<(u32, u32)> = Vec::new();
    let n = raw.len();
    let mut i: usize = 0;
    proof {
        assert(objs.take(0).len() == 0);
    }
    while i < n
        invariant
            i <= n == raw.len(),
            objs == objects_view(raw@),
            nv == names_view(names@),
            range_list(objs.take(i as int), nv, key@, f) == Ok::<Seq<(u32, u32)>, GenError>(out@),
        decreases n - i,
    {
        proof {
            assert(objs.take(i + 1).drop_last() =~= objs.take(i as int));
            assert(objs.take(i + 1).last() == objs[i as int]);
            assert(objs[i as int] == pairs_view(raw@[i as int]@));
        }
        let t = match named_oid_of(&raw[i], key, f, names) {
            Err(e) => {
                proof {
                    lemma_range_list_err(objs, nv, key@, f, i + 1);
                }
                return Err(e);
            },
            Ok(v) => v,
        };
        let sub = match named_oid_of(&raw[i], "rngsubtype", CatalogField::Rngsubtype, names) {
            Err(e) => {
                proof {
                    lemma_range_list_err(objs, nv, key@, f, i + 1);
                }
                return Err(e);
            },
            Ok(v) => v,
        };
        out.push((t, sub));
        i = i + 1;
    }
    proof {
        assert(objs.take(n as int) =~= objs);
    }
    Ok(out)
}

proof fn lemma_range_list_err(objs: Seq<Seq<(Seq<char>, Seq<char>)>>, names: Seq<(Seq<char>, u32)>, key: Seq<char>, f: CatalogField, k: int)
    requires
        0 <= k <= objs.len(),
        range_list(objs.take(k), names, key, f) is Err,
    ensures
        range_list(objs, names, key, f) == range_list(objs.take(k), names, key, f),
    decreases objs.len() - k,
{
    if k == objs.len() {
        assert(objs.take(k) =~= objs);
    } else {
        assert(objs.take(k + 1).drop_last() =~= objs.take(k));
        lemma_range_list_err(objs, names, key, f, k + 1);
    }
}

/// The subtype that the last pair for `oid` gives.
pub fn subtype_for(l: &Vec<(u32, u32)>, oid: u32) -> (r: Option<u32>)
    ensures
        r == subtype_of(l@, oid),
{
    let mut i = l.len();
    proof {
        assert(l@.take(i as int) =~= l@);
    }
    while i > 0
        invariant
            i <= l.len(),
            subtype_of(l@, oid) == subtype_of(l@.take(i as int), oid),
        decreases i,
    {
        proof {
            assert(l@.take(i as int).drop_last() =~= l@.take(i - 1));
        }
        if l[i - 1].0 == oid {
            return Some(l[i - 1].1);
        }
        i = i - 1;
    }
    None
}

/// The entries of one `pg_type` object as text.
pub open spec fn pg_entries_view(r: Option<((u32, TypeEntry), Option<(u32, TypeEntry)>)>) -> Option<((u32, EntryView), Option<(u32, EntryView)>)> {
    match r {
        None => None,
        Some((main, None)) => Some(((main.0, main.1@), None)),
        Some((main, Some(array))) => Some(((main.0, main.1@), Some((array.0, array.1@)))),
    }
}

/// The entries that a `pg_type` object gives: none for composite and enum
/// types, else its own and, where it names one, that of its array type.
pub fn pg_entry_of(
    object: &Vec<(String, String)>,
    names: &Vec<(String, u32)>,
    ranges: &Vec<(u32, u32)>,
    multis: &Vec<(u32, u32)>,
) -> (r: Result<Option<((u32, TypeEntry), Option<(u32, TypeEntry)>)>, GenError>)
    ensures
        match pg_entry(pairs_view(object@), names_view(names@), ranges@, multis@) {
            Ok(x) => r is Ok && pg_entries_view(r->Ok_0) == x,
            Err(e) => r == Err::<Option<((u32, TypeEntry), Option<(u32, TypeEntry)>)>, GenError>(e),
        },
{
    let oid = match number_of_field(object, "oid", CatalogField::Oid) {
        Err(e) => {
            return Err(e);
        },
        Ok(v) => v,
    };
    let name = match text_of_field(object, "typname", CatalogField::Typname) {
        Err(e) => {
            return Err(e);
        },
        Ok(v) => v,
    };
    let suffixed = match regex_replace("(range|vector)$", name.as_str(), "_$1") {
        None => {
            return Err(GenError::BadPattern);
        },
        Some(v) => v,
    };
    let base = match regex_replace("^_(.*)", suffixed.as_str(), "${1}_array") {
        None => {
            return Err(GenError::BadPattern);
        },
        Some(v) => v,
    };
    let variant = snake_to_camel(base.as_str());
    let ident = to_ascii_upper(base.as_str());
    let kind = match text_of_field(object, "typcategory", CatalogField::Typcategory) {
        Err(e) => {
            return Err(e);
        },
        Ok(v) => v,
    };
    if is_text(&kind, "C") || is_text(&kind, "E") {
        return Ok(None);
    }
    let typtype = field(object, "typtype");
    let element = if is_text(&kind, "R") {
        match &typtype {
            None => {
                return Err(GenError::MissingTyptype(oid));
            },
            Some(t) => {
                if is_text(t, "r") {
                    match subtype_for(ranges, oid) {
                        Some(v) => v,
                        None => {
                            return Err(GenError::MissingRange(oid));
                        },
                    }
                } else if is_text(t, "m") {
                    match subtype_for(multis, oid) {
                        Some(v) => v,
                        None => {
                            return Err(GenError::MissingRange(oid));
                        },
                    }
                } else {
                    return Err(GenError::BadTyptype(oid));
                }
            },
        }
    } else if is_text(&kind, "A") {
        match named_oid_of(object, "typelem", CatalogField::Typelem, names) {
            Err(e) => {
                return Err(e);
            },
            Ok(v) => v,
        }
    } else {
        0
    };
    let doc_base = match regex_replace("^_(.*)", name.as_str(), "$1[]") {
        None => {
            return Err(GenError::BadPattern);
        },
        Some(v) => v,
    };
    let doc_name = to_ascii_upper(doc_base.as_str());
    let descr = field(object, "descr");
    let doc_text = describe(doc_name.as_str(), &descr);
    let doc = escape_html(doc_text.as_str());
    let array = match field(object, "array_type_oid") {
        None => None,
        Some(t) => match parse_u32(&t) {
            None => {
                return Err(GenError::BadNumber(CatalogField::ArrayTypeOid));
            },
            Some(array_oid) => Some(
                (
                    array_oid,
                    TypeEntry {
                        name: join2("_", name.as_str()),
                        variant: join2(variant.as_str(), "Array"),
                        ident: join2(ident.as_str(), "_ARRAY"),
                        kind: string_of("A"),
                        typtype: None,
                        element: oid,
                        schema: string_of("pg_catalog"),
                        doc: join2(doc_name.as_str(), "&#91;&#93;"),
                    },
                ),
            ),
        },
    };
    let main = (
        oid,
        TypeEntry {
            name: name,
            variant: variant,
            ident: ident,
            kind: kind,
            typtype: typtype,
            element: element,
            schema: string_of("pg_catalog"),
            doc: doc,
        },
    );
    Ok(Some((main, array)))
}

proof fn lemma_pg_map_err(
    objs: Seq<Seq<(Seq<char>, Seq<char>)>>,
    names: Seq<(Seq<char>, u32)>,
    ranges: Seq<(u32, u32)>,
    multis: Seq<(u32, u32)>,
    k: int,
)
    requires
        0 <= k <= objs.len(),
        pg_map(objs.take(k), names, ranges, multis) is Err,
    ensures
        pg_map(objs, names, ranges, multis) == pg_map(objs.take(k), names, ranges, multis),
    decreases objs.len() - k,
{
    if k == objs.len() {
        assert(objs.take(k) =~= objs);
    } else {
        assert(objs.take(k + 1).drop_last() =~= objs.take(k));
        lemma_pg_map_err(objs, names, ranges, multis, k + 1);
    }
}

/// Reads the PostgreSQL catalog: the `pg_type` text, whose objects give
/// each type's oid, name, category and where needed its element type, and
/// the `pg_range` text, which gives each range type's subtype. Composite
/// and enum types are left out; a type that names an array type brings an
/// entry for that array type too.
pub fn parse_types(type_dat: &str, range_dat: &str) -> (r: Result<TypeTable, GenError>)
    ensures
        match pg_types(type_dat@, range_dat@) {
            Ok(m) => r is Ok && r->Ok_0.wf() && r->Ok_0.map() == m,
            Err(e) => r is Err && r->Err_0 == e,
        },
{
    let raw_types = match parse_dat(type_dat) {
        Err(e) => {
            return Err(GenError::Dat(e));
        },
        Ok(v) => v,
    };
    let raw_ranges = match parse_dat(range_dat) {
        Err(e) => {
            return Err(GenError::Dat(e));
        },
        Ok(v) => v,
    };
    let names = match name_oids(&raw_types) {
        Err(e) => {
            return Err(e);
        },
        Ok(v) => v,
    };
    let ranges = match range_pairs(&raw_ranges, &names, "rngtypid", CatalogField::Rngtypid) {
        Err(e) => {
            return Err(e);
        },
        Ok(v) => v,
    };
    let multis = match range_pairs(&raw_ranges, &names, "rngmultitypid", CatalogField::Rngmultitypid) {
        Err(e) => {
            return Err(e);
        },
        Ok(v) => v,
    };
    let ghost objs = objects_view(raw_types@);
    let ghost nv = names_view(names@);
    let mut types = TypeTable::new();
    let n = raw_types.len();
    let mut i: usize = 0;
    proof {
        assert(objs.take(0).len() == 0);
        assert(types.map() =~= Map::<u32, EntryView>::empty());
    }
    while i < n
        invariant
            i <= n == raw_types.len(),
            objs == objects_view(raw_types@),
            nv == names_view(names@),
            pg_types(type_dat@, range_dat@) == pg_map(objs, nv, ranges@, multis@),
            types.wf(),
            pg_map(objs.take(i as int), nv, ranges@, multis@) == Ok::<Map<u32, EntryView>, GenError>(types.map()),
        decreases n - i,
    {
        proof {
            assert(objs.take(i + 1).drop_last() =~= objs.take(i as int));
            assert(objs.take(i + 1).last() == objs[i as int]);
            assert(objs[i as int] == pairs_view(raw_types@[i as int]@));
        }
        match pg_entry_of(&raw_types[i], &names, &ranges, &multis) {
            Err(e) => {
                proof {
                    lemma_pg_map_err(objs, nv, ranges@, multis@, i + 1);
                }
                return Err(e);
            },
            Ok(None) => {},
            Ok(Some((main, array))) => {
                match array {
                    Some((array_oid, array_entry)) => {
                        types.insert(array_oid, array_entry);
                    },
                    None => {},
                }
                types.insert(main.0, main.1);
            },
        }
        i = i + 1;
    }
    proof {
        assert(objs.take(n as int) =~= objs);
    }
    Ok(types)
}

/// The overlay table that the MySQL mode uses.
pub fn build_mysql_types(_pg_types: &TypeTable, overlay_types: &TypeTable) -> (r: TypeTable)
    ensures
        r@ == overlay_types@,
{
    overlay_types.duplicate()
}

/// The overlay table that the Oracle mode uses.
pub fn build_oracle_types(_pg_types: &TypeTable, overlay_types: &TypeTable) -> (r: TypeTable)
    ensures
        r@ == overlay_types@,
{
    overlay_types.duplicate()
}

/// The overlay table that the SQL Server mode uses.
pub fn build_sqlserver_types(_pg_types: &TypeTable, overlay_types: &TypeTable) -> (r: TypeTable)
    ensures
        r@ == overlay_types@,
{
    overlay_types.duplicate()
}

} // verus!
