use bytes::BytesMut;
use kingbase_types::codec::{Format, FromSql, IsNull, ToSql};
use kingbase_types::connect::{
    connect_target, host_count, probe_step, session_verdict, ConnectTarget, HostSpec, ProbeEvent, ProbeSettings,
    ProbeStep, SessionVerdict, TargetSessionAttrs,
};
use kingbase_types::connect::{checks_read_only, session_refusal, RefusalKind};
use kingbase_types::error::SqlError;
use kingbase_types::types::Type;

fn row(name: Option<&str>, setting: Option<&str>) -> ProbeEvent {
    ProbeEvent::Row {
        name: name.map(|s| s.to_string()),
        setting: setting.map(|s| s.to_string()),
    }
}

#[test]
fn probe_records_complete_rows_and_replaces_repeated_names() {
    let mut settings = ProbeSettings::new();
    assert_eq!(probe_step(&mut settings, row(Some("database_mode"), Some("pg"))), ProbeStep::Continue);
    assert_eq!(probe_step(&mut settings, row(Some("sql_mode"), None)), ProbeStep::Continue);
    assert_eq!(probe_step(&mut settings, row(None, Some("x"))), ProbeStep::Continue);
    assert_eq!(probe_step(&mut settings, ProbeEvent::Other), ProbeStep::Continue);
    assert_eq!(probe_step(&mut settings, row(Some("database_mode"), Some("oracle"))), ProbeStep::Continue);
    assert_eq!(probe_step(&mut settings, row(Some("enable_unpaired_comment"), Some("on"))), ProbeStep::Continue);
    assert_eq!(probe_step(&mut settings, ProbeEvent::End), ProbeStep::Finished);
    assert_eq!(
        settings.into_pairs(),
        vec![
            ("database_mode".to_string(), "oracle".to_string()),
            ("enable_unpaired_comment".to_string(), "on".to_string()),
        ]
    );
}

#[test]
fn probe_failures_are_ignored_only_for_allowed_codes() {
    let mut settings = ProbeSettings::new();
    for code in ["42P01", "42703", "42501", "0A000"] {
        let e = ProbeEvent::Failed { code: Some(code.to_string()) };
        assert_eq!(probe_step(&mut settings, e), ProbeStep::Ignored);
    }
    let e = ProbeEvent::Failed { code: Some("08006".to_string()) };
    assert_eq!(probe_step(&mut settings, e), ProbeStep::Failed);
    assert_eq!(probe_step(&mut settings, ProbeEvent::Failed { code: None }), ProbeStep::Failed);
    assert!(settings.into_pairs().is_empty());
}

#[test]
fn session_kind_is_checked_against_read_only_setting() {
    assert_eq!(session_verdict(TargetSessionAttrs::ReadWrite, Some("on")), SessionVerdict::DoesNotAllowWrites);
    assert_eq!(session_verdict(TargetSessionAttrs::ReadOnly, Some("off")), SessionVerdict::NotReadOnly);
    assert_eq!(session_verdict(TargetSessionAttrs::ReadWrite, Some("off")), SessionVerdict::Accepted);
    assert_eq!(session_verdict(TargetSessionAttrs::ReadOnly, Some("on")), SessionVerdict::Accepted);
    assert_eq!(session_verdict(TargetSessionAttrs::Any, Some("on")), SessionVerdict::Accepted);
    assert_eq!(session_verdict(TargetSessionAttrs::ReadOnly, None), SessionVerdict::Accepted);
}

#[test]
fn optional_values_defer_to_the_value_inside() {
    let raw = [0u8, 0, 0, 5];
    assert!(matches!(<Option<i32> as FromSql>::from_sql(&Type::INT4(), &raw), Ok(Some(5))));
    assert!(matches!(<Option<i32> as FromSql>::from_sql_null(&Type::INT4()), Ok(None)));
    assert!(matches!(<i32 as FromSql>::from_sql_null(&Type::INT4()), Err(SqlError::WasNull(_))));
    assert!(<Option<i32> as FromSql>::accepts(&Type::INT4()));
    assert!(!<Option<i32> as FromSql>::accepts(&Type::TEXT()));

    let mut out = BytesMut::new();
    assert!(matches!(None::<i32>.to_sql(&Type::INT4(), &mut out), Ok(IsNull::Yes)));
    assert!(out.is_empty());
    assert!(matches!(Some(5i32).to_sql(&Type::INT4(), &mut out), Ok(IsNull::No)));
    assert_eq!(&out[..], &[0, 0, 0, 5]);
    assert!(matches!(None::<i32>.encode_format(&Type::INT4()), Format::Binary));
    assert!(<Option<i32> as ToSql>::accepts(&Type::INT4()));

    let mut out = BytesMut::new();
    assert!(matches!(Box::new(7i32).to_sql(&Type::INT4(), &mut out), Ok(IsNull::No)));
    assert!(matches!((&7i32).to_sql(&Type::INT4(), &mut out), Ok(IsNull::No)));
    assert_eq!(&out[..], &[0, 0, 0, 7, 0, 0, 0, 7]);
    assert!(matches!(<Box<i32> as FromSql>::from_sql(&Type::INT4(), &raw), Ok(b) if *b == 5));
    let mut out = BytesMut::new();
    let r = None::<i32>.to_sql_checked(&Type::TEXT(), &mut out);
    assert!(matches!(r, Err(SqlError::WrongType(_))));
}

#[test]
fn host_counts_are_checked_before_connecting() {
    assert_eq!(host_count(0, 0, 0).unwrap_err(), "both host and hostaddr are missing");
    assert_eq!(
        host_count(2, 3, 0).unwrap_err(),
        "number of hosts (2) is different from number of hostaddrs (3)"
    );
    assert_eq!(host_count(2, 0, 3).unwrap_err(), "invalid number of ports");
    assert_eq!(host_count(2, 0, 1).unwrap(), 2);
    assert_eq!(host_count(0, 3, 3).unwrap(), 3);
    assert_eq!(host_count(2, 2, 0).unwrap(), 2);
}

#[test]
fn each_host_gets_its_address_name_and_port() {
    let hosts = vec![HostSpec::Tcp("db1".to_string()), HostSpec::Unix("/run/kes".to_string())];
    let addrs = vec!["10.0.0.1".to_string(), "10.0.0.2".to_string()];
    assert_eq!(
        connect_target(&hosts, &addrs, &[54321], 1),
        ConnectTarget { addr: HostSpec::Tcp("10.0.0.2".to_string()), hostname: None, port: 54321 }
    );
    assert_eq!(
        connect_target(&hosts, &[], &[], 0),
        ConnectTarget { addr: HostSpec::Tcp("db1".to_string()), hostname: Some("db1".to_string()), port: 5432 }
    );
    assert_eq!(
        connect_target(&hosts, &[], &[1, 2], 1),
        ConnectTarget { addr: HostSpec::Unix("/run/kes".to_string()), hostname: None, port: 2 }
    );
    assert_eq!(
        connect_target(&[], &addrs, &[], 0),
        ConnectTarget { addr: HostSpec::Tcp("10.0.0.1".to_string()), hostname: None, port: 5432 }
    );
}

#[test]
fn startup_queries_read_the_mode_settings_and_read_only_state() {
    let probe = kingbase_types::connect::compatibility_query();
    for name in ["database_mode", "ora_input_emptystr_isnull", "enable_unpaired_comment", "sql_mode", "kdb_flashback.db_recyclebin"] {
        assert!(probe.contains(&format!("name = '{name}'")));
    }
    assert!(probe.starts_with("SELECT name, setting\nFROM pg_settings"));
    assert_eq!(kingbase_types::connect::read_only_query(), "SHOW transaction_read_only");
}

#[test]
fn refused_sessions_name_why() {
    assert!(!checks_read_only(TargetSessionAttrs::Any));
    assert!(checks_read_only(TargetSessionAttrs::ReadWrite));
    assert!(checks_read_only(TargetSessionAttrs::ReadOnly));
    assert!(session_refusal(SessionVerdict::Accepted).is_none());
    let e = session_refusal(session_verdict(TargetSessionAttrs::ReadWrite, Some("on"))).unwrap();
    assert_eq!(e.kind, RefusalKind::PermissionDenied);
    assert_eq!(e.message, "database does not allow writes");
    let e = session_refusal(session_verdict(TargetSessionAttrs::ReadOnly, Some("off"))).unwrap();
    assert_eq!(e.message, "database is not read only");
}
