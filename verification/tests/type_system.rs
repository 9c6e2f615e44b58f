use kingbase_types::connect::should_ignore_kingbase_probe_error;
use kingbase_types::mysql_types::{map_mysql_type, param_codec_alias_for_mysql_type, read_codec_alias_for_mysql_type};
use kingbase_types::prepare::{plan_kind, resolve_type, type_catalog_error, validate_extension_type, KindPlan, TypeInfo, TypeResolution};
use kingbase_types::query::{param_codec_alias_for_mode, rows_from_tag};
use kingbase_types::sql_compat::CompatibleMode;
use kingbase_types::type_system::{param_codec_type, read_codec_type, type_from_oid};
use kingbase_types::types::{Kind, Type, TypeSystem};

#[test]
fn pg_mode_does_not_apply_mysql_codec_policy() {
    let pg_int4 = type_from_oid(TypeSystem::Pg, 23).unwrap();
    assert_eq!(pg_int4, Type::INT4());
    assert_eq!(param_codec_type(CompatibleMode::Pg, &pg_int4), None);
    assert_eq!(read_codec_type(CompatibleMode::Pg, &pg_int4), None);
}

#[test]
fn generated_type_modes_dispatch_by_schema() {
    let int4 = Type::from_oid(23).unwrap();
    assert_eq!(int4, Type::INT4());
    assert_eq!(int4.name(), "int4");
    assert_eq!(int4.schema(), "pg_catalog");

    let mysql_binary = Type::from_kingbase_mysql_oid(3383).unwrap();
    assert_eq!(mysql_binary.name(), "binary");
    assert_eq!(mysql_binary.schema(), "sys");

    assert!(Type::from_kingbase_mysql_oid(23).is_none());
    assert_eq!(Type::from_oid_in(TypeSystem::Mysql, 23), Some(Type::INT4()));
    assert_eq!(Type::from_oid_in(TypeSystem::Mysql, 1082), Some(Type::DATE()));

    let mysql_sys_date = Type::from_kingbase_mysql_oid(7944).unwrap();
    assert_eq!(mysql_sys_date.name(), "date");
    assert_eq!(mysql_sys_date.schema(), "sys");

    let sqlserver_nvarchar = Type::from_kingbase_sqlserver_oid(5041).unwrap();
    assert_eq!(sqlserver_nvarchar.name(), "nvarchar");
    assert_eq!(sqlserver_nvarchar.schema(), "sys");

    assert!(Type::from_kingbase_sqlserver_oid(23).is_none());
    assert_eq!(Type::from_oid_in(TypeSystem::SqlServer, 23), Some(Type::INT4()));
}

#[test]
fn type_display_omits_public_and_catalog_schemas() {
    assert_eq!(Type::INT4().to_text(), "int4");
    assert_eq!(Type::MYSQL_SYS_DATE().to_text(), "sys.date");
    let custom = Type::new("label".to_owned(), 90_002, Kind::Simple, "public".to_owned());
    assert_eq!(custom.to_text(), "label");
}

#[test]
fn mysql_aliases_map_sys_types_to_standard_codecs() {
    assert_eq!(read_codec_alias_for_mysql_type(&Type::MYSQL_SYS_DATE()), Some(Type::DATE()));
    assert_eq!(read_codec_alias_for_mysql_type(&Type::MYSQL_BINARY()), Some(Type::BYTEA()));
    assert_eq!(read_codec_alias_for_mysql_type(&Type::MYSQL_SYS_TIMESTAMP()), None);
    assert_eq!(read_codec_alias_for_mysql_type(&Type::INT4()), None);
    assert_eq!(param_codec_alias_for_mysql_type(&Type::MYSQL_SYS_TIME()), Some(Type::TIME()));
    let mediumint = Type::new("mediumint".to_owned(), 7016, Kind::Domain(Type::INT4()), "sys".to_owned());
    assert_eq!(param_codec_alias_for_mysql_type(&mediumint), Some(Type::INT4()));
    let blob = Type::new("blob".to_owned(), 8013, Kind::Domain(Type::BYTEA()), "sys".to_owned());
    let tinyblob = Type::new("tinyblob".to_owned(), 7023, Kind::Domain(blob), "sys".to_owned());
    assert_eq!(param_codec_alias_for_mysql_type(&tinyblob), Some(Type::BYTEA()));
    assert_eq!(param_codec_alias_for_mode(CompatibleMode::Mysql, &Type::MYSQL_SYS_DATE()), Some(Type::DATE()));
    assert_eq!(param_codec_alias_for_mode(CompatibleMode::Oracle, &Type::MYSQL_SYS_DATE()), None);
    assert_eq!(map_mysql_type("tinyint", 8100, &Kind::Simple, "sys"), None);
}

#[test]
fn command_tags_report_row_counts() {
    assert_eq!(rows_from_tag("INSERT 0 5"), 5);
    assert_eq!(rows_from_tag("SELECT 3"), 3);
    assert_eq!(rows_from_tag("CREATE TABLE"), 0);
    assert_eq!(rows_from_tag("UPDATE +7"), 7);
    assert_eq!(rows_from_tag("UPDATE 99999999999999999999"), 0);
    assert_eq!(rows_from_tag(""), 0);
}

#[test]
fn probe_errors_ignore_only_missing_objects() {
    assert!(should_ignore_kingbase_probe_error(Some("42P01")));
    assert!(should_ignore_kingbase_probe_error(Some("0A000")));
    assert!(!should_ignore_kingbase_probe_error(Some("28P01")));
    assert!(!should_ignore_kingbase_probe_error(None));
}

fn info(name: &str, type_: u8, basetype: u32) -> TypeInfo {
    TypeInfo {
        name: name.to_owned(),
        type_: type_ as i8,
        elem_oid: 0,
        rngsubtype: None,
        basetype,
        schema: "sys".to_owned(),
        relid: 0,
    }
}

#[test]
fn catalog_validation_reports_the_first_difference() {
    let expected = Type::MYSQL_SYS_DATE();
    assert!(validate_extension_type(&expected, &info("date", b'b', 0)).is_ok());
    assert_eq!(
        validate_extension_type(&expected, &info("datetime", b'b', 0)).unwrap_err(),
        "Kingbase type catalog mismatch for sys.date (OID 7944): catalog contains sys.datetime instead"
    );
    assert_eq!(
        validate_extension_type(&expected, &info("date", b'd', 23)).unwrap_err(),
        "Kingbase type catalog mismatch for sys.date (OID 7944): catalog kind differs (typtype=d, typelem=0, typbasetype=23, typrelid=0)"
    );
    assert_eq!(
        type_catalog_error(&expected, "OID is absent from pg_type"),
        "Kingbase type catalog mismatch for sys.date (OID 7944): OID is absent from pg_type"
    );
}

#[test]
fn catalog_rows_plan_their_kind() {
    assert_eq!(plan_kind(CompatibleMode::Mysql, &info("Enum_1", b'l', 0)), KindPlan::MySqlEnum);
    assert_eq!(plan_kind(CompatibleMode::Pg, &info("Enum_1", b'l', 0)), KindPlan::Simple);
    assert_eq!(plan_kind(CompatibleMode::Mysql, &info("Set_1", b'y', 0)), KindPlan::MySqlSet);
    assert_eq!(plan_kind(CompatibleMode::Pg, &info("mood", b'e', 0)), KindPlan::Enum);
    assert_eq!(plan_kind(CompatibleMode::Pg, &info("account_id", b'd', 23)), KindPlan::Domain(23));
}

#[test]
fn oids_resolve_by_table() {
    assert!(matches!(resolve_type(TypeSystem::Mysql, 0), TypeResolution::Unknown));
    assert!(matches!(resolve_type(TypeSystem::Mysql, 23), TypeResolution::Builtin(t) if t == Type::INT4()));
    assert!(matches!(resolve_type(TypeSystem::Mysql, 7944), TypeResolution::ValidateBuiltin(t) if t == Type::MYSQL_SYS_DATE()));
    assert!(matches!(resolve_type(TypeSystem::Pg, 7944), TypeResolution::Catalog));
}
