use kingbase_types::catalog::{TypeEntry, TypeTable};
use kingbase_types::catalog_build::{
    build_mysql_types, parse_kingbase_overlay_types, parse_types, CatalogField, GenError,
};
use kingbase_types::catalog_gen::{
    compatible_mode_type_expr, make_compatible_consts, make_compatible_impl, make_consts,
    make_mode_enum, make_mode_header, make_pg_alias_consts, make_pg_impl, Mode,
};
use kingbase_types::catalog_text::{snake_to_camel, to_ascii_lower, to_ascii_upper};
use kingbase_types::dat::{field, parse_dat, DatError, DatParser};

fn text(v: &[char]) -> String {
    v.iter().collect()
}

fn pairs(v: &[(&str, &str)]) -> Vec<(String, String)> {
    v.iter().map(|(k, v)| (k.to_string(), v.to_string())).collect()
}

const PG_TYPE: &str = "
# the types
[
{ oid => '16', array_type_oid => '1000', descr => 'boolean, true/false',
  typname => 'bool', typcategory => 'B' },
{ oid => '23', array_type_oid => '1007', typname => 'int4', typcategory => 'N' },
{ oid => '3904', array_type_oid => '3905', descr => 'range of integers',
  typname => 'int4range', typcategory => 'R', typtype => 'r' },
{ oid => '4451', typname => 'int4multirange', typcategory => 'R', typtype => 'm' },
{ oid => '2249', typname => 'record', typcategory => 'P' },
{ oid => '71', typname => 'pg_type', typcategory => 'C' },
]
";

const PG_RANGE: &str = "[
{ rngtypid => 'int4range', rngsubtype => 'int4', rngmultitypid => 'int4multirange' },
]";

const OVERLAY: &str = "[
{ oid => '8100', typname => 'tinyint', typcategory => 'N', descr => 'tiny integer' },
{ oid => '8101', typname => '_tinyint', variant => 'TinyintArray', ident => 'TINYINT_ARRAY',
  typcategory => 'A', typbasetype => '8100' },
{ oid => '9000', typname => 'int4', schema => 'pg_catalog', typcategory => 'N' },
{ oid => '9001', typname => 'bool', typcategory => 'B' },
]";

#[test]
fn dat_reads_objects_comments_and_escapes() {
    let r = parse_dat("# c\n[ { a => 'x', b_c => 'it\\'s' }, # d\n { a => 'y' }, ]\n# end").unwrap();
    assert_eq!(
        r,
        vec![pairs(&[("a", "x"), ("b_c", "it's")]), pairs(&[("a", "y")])]
    );
    assert_eq!(parse_dat("[]").unwrap(), Vec::<Vec<(String, String)>>::new());
}

#[test]
fn dat_reports_each_error() {
    assert_eq!(parse_dat(""), Err(DatError::ExpectedAtEof('[')));
    assert_eq!(parse_dat("{"), Err(DatError::Expected { wanted: '[', found: '{' }));
    assert_eq!(parse_dat("[] x"), Err(DatError::TrailingText('x')));
    assert_eq!(parse_dat("[ { a => 'x"), Err(DatError::UnexpectedEof));
    assert_eq!(parse_dat("[ { a => 'x' } ]"), Err(DatError::Expected { wanted: ',', found: ']' }));
    assert_eq!(parse_dat("[ { a => 'x', }, ]"), Err(DatError::Expected { wanted: '=', found: '}' }));
}

#[test]
fn dat_parser_steps() {
    let mut p = DatParser::new("  # note\n  key_a => 'v\\\\w' ,x");
    assert_eq!(p.parse_ident(), "key_a");
    assert!(!p.try_eat(','));
    assert_eq!(p.eat('='), Ok(()));
    assert!(p.peek('>'));
    assert!(p.try_eat('>'));
    assert_eq!(p.parse_string(), Ok("v\\w".to_string()));
    assert!(p.try_eat(','));
    assert_eq!(p.eof(), Err(DatError::TrailingText('x')));
    let mut q = DatParser::new("abc\ndef");
    q.skip_to('\n');
    assert_eq!(q.parse_ident(), "def");
}

#[test]
fn dat_field_takes_the_last_pair() {
    let o = pairs(&[("a", "1"), ("b", "2"), ("a", "3")]);
    assert_eq!(field(&o, "a"), Some("3".to_string()));
    assert_eq!(field(&o, "b"), Some("2".to_string()));
    assert_eq!(field(&o, "c"), None);
}

#[test]
fn names_are_rewritten() {
    assert_eq!(snake_to_camel("int4_range"), "Int4Range");
    assert_eq!(snake_to_camel("_tiny__int_"), "TinyInt");
    assert_eq!(to_ascii_upper("int4_range é"), "INT4_RANGE é");
    assert_eq!(to_ascii_lower("SQLSERVER"), "sqlserver");
}

fn entry(t: &TypeTable, oid: u32) -> &TypeEntry {
    t.get(oid).unwrap()
}

#[test]
fn pg_catalog_is_read() {
    let t = parse_types(PG_TYPE, PG_RANGE).unwrap();
    let oids: Vec<u32> = t.entries().iter().map(|e| e.0).collect();
    assert_eq!(oids, vec![16, 23, 1000, 1007, 2249, 3904, 3905, 4451]);

    let b = entry(&t, 16);
    assert_eq!(b.name, "bool");
    assert_eq!(b.variant, "Bool");
    assert_eq!(b.ident, "BOOL");
    assert_eq!(b.kind, "B");
    assert_eq!(b.element, 0);
    assert_eq!(b.schema, "pg_catalog");
    assert_eq!(b.doc, "BOOL - boolean, true/false");

    let ba = entry(&t, 1000);
    assert_eq!(ba.name, "_bool");
    assert_eq!(ba.variant, "BoolArray");
    assert_eq!(ba.ident, "BOOL_ARRAY");
    assert_eq!(ba.kind, "A");
    assert_eq!(ba.element, 16);
    assert_eq!(ba.doc, "BOOL&#91;&#93;");

    let r = entry(&t, 3904);
    assert_eq!(r.variant, "Int4Range");
    assert_eq!(r.ident, "INT4_RANGE");
    assert_eq!(r.element, 23);
    assert_eq!(r.typtype, Some("r".to_string()));
    assert_eq!(entry(&t, 3905).ident, "INT4_RANGE_ARRAY");
    assert_eq!(entry(&t, 4451).element, 23);
    assert_eq!(entry(&t, 4451).variant, "Int4multiRange");
    assert!(t.get(71).is_none());
}

#[test]
fn pg_catalog_errors() {
    assert_eq!(parse_types("[", PG_RANGE).err(), Some(GenError::Dat(DatError::ExpectedAtEof('{'))));
    assert_eq!(
        parse_types("[ { oid => '1' }, ]", "[]").err(),
        Some(GenError::MissingField(CatalogField::Typname))
    );
    assert_eq!(
        parse_types("[ { oid => 'x', typname => 'a' }, ]", "[]").err(),
        Some(GenError::BadNumber(CatalogField::Oid))
    );
    assert_eq!(
        parse_types("[ { oid => '1', typname => 'a' }, ]", "[ { rngtypid => 'b' }, ]").err(),
        Some(GenError::UnknownName(CatalogField::Rngtypid))
    );
    assert_eq!(
        parse_types("[ { oid => '1', typname => 'a', typcategory => 'R' }, ]", "[]").err(),
        Some(GenError::MissingTyptype(1))
    );
    assert_eq!(
        parse_types("[ { oid => '1', typname => 'a', typcategory => 'R', typtype => 'q' }, ]", "[]").err(),
        Some(GenError::BadTyptype(1))
    );
    assert_eq!(
        parse_types("[ { oid => '1', typname => 'a', typcategory => 'R', typtype => 'r' }, ]", "[]").err(),
        Some(GenError::MissingRange(1))
    );
    assert_eq!(
        parse_types("[ { oid => '1', typname => '_a', typcategory => 'A', typelem => 'b' }, ]", "[]").err(),
        Some(GenError::UnknownName(CatalogField::Typelem))
    );
    assert_eq!(
        parse_types("[ { oid => '1', typname => 'a', typcategory => 'N', array_type_oid => '-2' }, ]", "[]").err(),
        Some(GenError::BadNumber(CatalogField::ArrayTypeOid))
    );
}

#[test]
fn overlay_catalog_is_read() {
    let t = parse_kingbase_overlay_types(OVERLAY).unwrap();
    assert_eq!(t.len(), 4);
    let tiny = entry(&t, 8100);
    assert_eq!(tiny.variant, "Tinyint");
    assert_eq!(tiny.ident, "TINYINT");
    assert_eq!(tiny.schema, "sys");
    assert_eq!(tiny.doc, "sys.tinyint - tiny integer");
    assert_eq!(tiny.typtype, None);
    let arr = entry(&t, 8101);
    assert_eq!(arr.variant, "TinyintArray");
    assert_eq!(arr.ident, "TINYINT_ARRAY");
    assert_eq!(arr.element, 8100);
    assert_eq!(entry(&t, 9000).doc, "pg_catalog.int4");
    let copy = build_mysql_types(&t, &t);
    assert_eq!(copy.len(), 4);
    assert_eq!(
        parse_kingbase_overlay_types("[ { oid => '1', typname => 'a' }, ]").err(),
        Some(GenError::MissingField(CatalogField::Typcategory))
    );
    assert_eq!(
        parse_kingbase_overlay_types("[ { oid => '1', typname => 'a', typcategory => 'N', typbasetype => 'z' }, ]").err(),
        Some(GenError::BadNumber(CatalogField::Typbasetype))
    );
}

#[test]
fn doc_lines_are_escaped() {
    let t = parse_kingbase_overlay_types("[ { oid => '1', typname => 'a', typcategory => 'N', descr => '<b> & (c)' }, ]").unwrap();
    assert_eq!(entry(&t, 1).doc, "sys.a - &lt;b&gt; &amp; &#40;c&#41;");
}

/// The text that the original writer gives for the PostgreSQL accessors,
/// written out with the same format strings.
fn expected_pg_impl(t: &TypeTable) -> String {
    let mut w = String::new();
    w.push_str("impl Inner {\n    pub fn from_oid(oid: Oid) -> Option<Inner> {\n        match oid {\n");
    for (oid, e) in t.entries() {
        w.push_str(&format!("            {} => Some(Inner::{}),\n", oid, e.variant));
    }
    w.push_str("            _ => None,\n        }\n    }\n\n    pub fn oid(&self) -> Oid {\n        match *self {\n");
    for (oid, e) in t.entries() {
        w.push_str(&format!("            Inner::{} => {},\n", e.variant, oid));
    }
    w.push_str("        }\n    }\n\n    pub fn kind(&self) -> &Kind {\n        match *self {\n");
    for (_, e) in t.entries() {
        let kind = match e.kind.as_str() {
            "P" => "Pseudo".to_owned(),
            "A" => format!("Array(Type(TypeInner::Pg(Inner::{})))", entry(t, e.element).variant),
            "M" => format!("Domain(Type(TypeInner::Pg(Inner::{})))", entry(t, e.element).variant),
            "R" => match e.typtype.as_deref().unwrap() {
                "r" => format!("Range(Type(TypeInner::Pg(Inner::{})))", entry(t, e.element).variant),
                _ => format!("Multirange(Type(TypeInner::Pg(Inner::{})))", entry(t, e.element).variant),
            },
            _ => "Simple".to_owned(),
        };
        w.push_str(&format!("            Inner::{} => {{\n                &Kind::{}\n            }}\n", e.variant, kind));
    }
    w.push_str("        }\n    }\n\n    pub fn name(&self) -> &str {\n        match *self {\n");
    for (_, e) in t.entries() {
        w.push_str(&format!("            Inner::{} => \"{}\",\n", e.variant, e.name));
    }
    w.push_str("        }\n    }\n\n    pub fn schema(&self) -> &str {\n        match *self {\n");
    for (_, e) in t.entries() {
        w.push_str(&format!("            Inner::{} => \"{}\",\n", e.variant, e.schema));
    }
    w.push_str("        }\n    }\n}\n");
    w
}

#[test]
fn pg_accessors_are_written() {
    let t = parse_types(PG_TYPE, PG_RANGE).unwrap();
    let mut out = Vec::new();
    assert_eq!(make_pg_impl(&mut out, &t), Ok(()));
    assert_eq!(text(&out), expected_pg_impl(&t));
    assert!(text(&out).contains("            3904 => Some(Inner::Int4Range),\n"));
    assert!(text(&out).contains("            Inner::Int4RangeArray => {\n                &Kind::Array(Type(TypeInner::Pg(Inner::Int4Range)))\n            }\n"));
}

#[test]
fn pg_accessors_report_a_missing_element() {
    let t = parse_types("[ { oid => '5', typname => '_x', typcategory => 'A', typelem => 'x' }, { oid => '6', typname => 'x', typcategory => 'N' }, ]", "[]").unwrap();
    let mut bad = TypeTable::new();
    bad.insert(5, entry(&t, 5).duplicate());
    let mut out = vec!['!'];
    assert_eq!(make_pg_impl(&mut out, &bad), Err(GenError::MissingElement(6)));
    assert_eq!(out, vec!['!']);
}

#[test]
fn mode_enum_and_header_are_written() {
    let t = parse_kingbase_overlay_types(OVERLAY).unwrap();
    let mut out = Vec::new();
    make_mode_enum(&mut out, &t);
    let mut w = String::from("\n#[derive(PartialEq, Eq, Clone, Debug, Hash)]\npub enum Inner {");
    for (_, e) in t.entries() {
        w.push_str(&format!("\n    {},", e.variant));
    }
    w.push_str("\n}\n\n");
    assert_eq!(text(&out), w);
    let mut h = Vec::new();
    make_mode_header(&mut h, Mode::Mysql);
    assert_eq!(text(&h), "use crate::type_gen::Inner as TypeInner;\nuse crate::{Kind, Oid, Type};\n\n");
}

#[test]
fn compatible_accessors_name_mode_and_pg_types() {
    let pg = parse_types(PG_TYPE, PG_RANGE).unwrap();
    let t = parse_kingbase_overlay_types(OVERLAY).unwrap();
    assert_eq!(text(&compatible_mode_type_expr(8100, &t, &pg, Mode::Mysql).unwrap()), "Type(TypeInner::Mysql(Inner::Tinyint))");
    assert_eq!(text(&compatible_mode_type_expr(23, &t, &pg, Mode::Oracle).unwrap()), "Type(TypeInner::Pg(crate::pg_type_gen::Inner::Int4))");
    assert_eq!(compatible_mode_type_expr(7, &t, &pg, Mode::Oracle), Err(GenError::MissingElement(7)));
    assert_eq!(Mode::SqlServer.inner_variant(), "SqlServer");
    let mut out = Vec::new();
    assert_eq!(make_compatible_impl(&mut out, &t, &pg, Mode::Mysql), Ok(()));
    let s = text(&out);
    assert!(s.starts_with("impl Inner {\n    pub fn from_oid(oid: Oid) -> Option<Inner> {\n    match oid {\n        8100 => Some(Inner::Tinyint),\n"));
    assert!(s.contains("        _ => None,\n    }\n    }\n\n    pub fn oid(&self) -> Oid {\n        match *self {\n            Inner::Tinyint => 8100,\n"));
    assert!(s.contains("            Inner::TinyintArray => {\n                &Kind::Array(Type(TypeInner::Mysql(Inner::Tinyint)))\n            }\n"));
    assert!(s.contains("            Inner::Tinyint => \"sys\",\n"));
    assert!(s.ends_with("        }\n    }\n}\n"));
}

#[test]
fn constants_are_written() {
    let pg = parse_types(PG_TYPE, PG_RANGE).unwrap();
    let t = parse_kingbase_overlay_types(OVERLAY).unwrap();
    let mut alias = Vec::new();
    make_pg_alias_consts(&mut alias, &pg, "ORACLE");
    assert!(text(&alias).starts_with("\n\n    /// PostgreSQL-compatible ORACLE alias for BOOL.\n    pub const ORACLE_BOOL: Type = Type::BOOL;\n"));
    let mut compat = Vec::new();
    make_compatible_consts(&mut compat, &pg, &t, Mode::Oracle, "ORACLE");
    let s = text(&compat);
    assert!(s.contains("\n\n    /// sys.tinyint - tiny integer\n    pub const ORACLE_TINYINT: Type = Type(Inner::Oracle(\n        crate::oracle_type_gen::Inner::Tinyint,\n    ));"));
    assert!(s.contains("pub const ORACLE_INT4: Type = Type(Inner::Oracle("));
    assert!(s.contains("pub const ORACLE_SYS_BOOL: Type = Type(Inner::Oracle("));
    let mut all = Vec::new();
    make_consts(&mut all, &pg, &t, &t, &t);
    let s = text(&all);
    assert!(s.starts_with("impl Type {\n    /// BOOL - boolean, true/false\n    pub const BOOL: Type = Type(Inner::Pg(crate::pg_type_gen::Inner::Bool));\n"));
    assert!(s.contains("pub const MYSQL_SYS_BOOL: Type = Type(Inner::Mysql(\n        crate::mysql_type_gen::Inner::Bool,\n    ));"));
    assert!(s.ends_with("));}"));
}
