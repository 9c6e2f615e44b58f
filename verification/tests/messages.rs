use kingbase_types::error::SqlError;
use kingbase_types::prepare;
use kingbase_types::prepare::{typeinfo_fallback, TypeinfoQuery};
use kingbase_types::query::{
    self, execute_step, execute_typed_step, query_typed_step, EncodedParam, ExecuteStep, QueryStep, RowStream,
    RowStreamStep, TypedResponse,
};
use kingbase_types::sql_compat::CompatibleMode;
use kingbase_types::statement::Statement;
use kingbase_types::types::Type;

fn framed(tag: u8, body: &[u8]) -> Vec<u8> {
    let mut v = vec![tag];
    v.extend_from_slice(&((body.len() + 4) as i32).to_be_bytes());
    v.extend_from_slice(body);
    v
}

#[test]
fn prepare_writes_parse_describe_and_sync() {
    let bytes = prepare::encode(CompatibleMode::Mysql, "s1", "select ?", &[23]).unwrap();
    let mut expected = framed(b'P', b"s1\0select $1\0\x00\x01\x00\x00\x00\x17");
    expected.extend(framed(b'D', b"Ss1\0"));
    expected.extend(framed(b'S', b""));
    assert_eq!(bytes, expected);

    let bytes = prepare::encode(CompatibleMode::Pg, "", "select ?", &[]).unwrap();
    let mut expected = framed(b'P', b"\0select ?\0\x00\x00");
    expected.extend(framed(b'D', b"S\0"));
    expected.extend(framed(b'S', b""));
    assert_eq!(bytes, expected);

    assert!(matches!(
        prepare::encode(CompatibleMode::Pg, "a\0b", "select 1", &[]),
        Err(SqlError::Protocol(_))
    ));
    assert!(matches!(
        prepare::encode(CompatibleMode::Pg, "a", "select \0", &[]),
        Err(SqlError::Protocol(_))
    ));
}

#[test]
fn run_writes_bind_execute_and_sync() {
    let statement = Statement::new("s1".to_string(), vec![Type::INT4(), Type::TEXT()], vec![None, None], vec![]);
    let params = [
        EncodedParam { format: 1, value: Some(vec![0, 0, 0, 7]) },
        EncodedParam { format: 0, value: None },
    ];
    let bytes = query::encode(&statement, &params).unwrap();
    let mut expected = framed(
        b'B',
        b"\0s1\0\x00\x02\x00\x01\x00\x00\x00\x02\x00\x00\x00\x04\x00\x00\x00\x07\xff\xff\xff\xff\x00\x01\x00\x01",
    );
    expected.extend(framed(b'E', b"\0\x00\x00\x00\x00"));
    expected.extend(framed(b'S', b""));
    assert_eq!(bytes, expected);

    match query::encode(&statement, &params[..1]) {
        Err(SqlError::Parameters { given, expected }) => {
            assert_eq!((given, expected), (1, 2));
            assert_eq!(
                SqlError::Parameters { given, expected }.message(),
                "expected 2 parameters but got 1"
            );
        }
        other => panic!("expected a parameter count error, got {other:?}"),
    }
    let mut buf = bytes::BytesMut::new();
    assert!(matches!(
        query::encode_bind_raw("x\0", &params, "", &mut buf),
        Err(SqlError::Protocol(_))
    ));
    let mut buf = bytes::BytesMut::new();
    query::encode_bind_raw("s1", &params[..1], "p", &mut buf).unwrap();
    assert_eq!(
        &buf[..],
        &framed(b'B', b"p\0s1\0\x00\x01\x00\x01\x00\x01\x00\x00\x00\x04\x00\x00\x00\x07\x00\x01\x00\x01")[..]
    );
}

#[test]
fn typed_queries_write_all_five_messages() {
    let params = [EncodedParam { format: 1, value: Some(vec![0, 0, 0, 9]) }];
    let bytes = query::encode_typed("select $1", &[Type::INT4()], &params).unwrap();
    let mut expected = framed(b'P', b"\0select $1\0\x00\x01\x00\x00\x00\x17");
    expected.extend(framed(
        b'B',
        b"\0\0\x00\x01\x00\x01\x00\x01\x00\x00\x00\x04\x00\x00\x00\x09\x00\x01\x00\x01",
    ));
    expected.extend(framed(b'D', b"S\0"));
    expected.extend(framed(b'E', b"\0\x00\x00\x00\x00"));
    expected.extend(framed(b'S', b""));
    assert_eq!(bytes, expected);
    assert!(matches!(query::encode_typed("a\0", &[], &[]), Err(SqlError::Protocol(_))));
}

#[test]
fn typed_responses_drive_the_exchange() {
    assert_eq!(execute_typed_step(3, TypedResponse::ParseComplete), ExecuteStep::Continue(3));
    assert_eq!(execute_typed_step(3, TypedResponse::DataRow), ExecuteStep::Continue(3));
    assert_eq!(execute_typed_step(3, TypedResponse::NoData), ExecuteStep::Continue(0));
    assert_eq!(execute_typed_step(0, TypedResponse::CommandComplete { rows: 8 }), ExecuteStep::Continue(8));
    assert_eq!(execute_typed_step(8, TypedResponse::EmptyQueryResponse), ExecuteStep::Continue(0));
    assert_eq!(execute_typed_step(8, TypedResponse::ReadyForQuery), ExecuteStep::Done(8));
    assert_eq!(execute_typed_step(8, TypedResponse::Other), ExecuteStep::Unexpected);
    assert_eq!(query_typed_step(TypedResponse::BindComplete), QueryStep::Continue);
    assert_eq!(query_typed_step(TypedResponse::NoData), QueryStep::NoColumns);
    assert_eq!(query_typed_step(TypedResponse::RowDescription), QueryStep::Columns);
    assert_eq!(query_typed_step(TypedResponse::DataRow), QueryStep::Unexpected);
}

#[test]
fn prepared_executions_count_rows_and_portals_fetch_more() {
    assert_eq!(execute_step(0, TypedResponse::DataRow), ExecuteStep::Continue(0));
    assert_eq!(execute_step(0, TypedResponse::CommandComplete { rows: 4 }), ExecuteStep::Continue(4));
    assert_eq!(execute_step(4, TypedResponse::EmptyQueryResponse), ExecuteStep::Continue(0));
    assert_eq!(execute_step(4, TypedResponse::ReadyForQuery), ExecuteStep::Done(4));
    assert_eq!(execute_step(4, TypedResponse::ParseComplete), ExecuteStep::Unexpected);

    let bytes = query::encode_portal("p1", 10).unwrap();
    let mut expected = framed(b'E', b"p1\0\x00\x00\x00\x0a");
    expected.extend(framed(b'S', b""));
    assert_eq!(bytes, expected);
    assert!(matches!(query::encode_portal("", 1), Ok(_)));
    assert!(matches!(query::encode_portal("p\u{0}", 1), Err(SqlError::Protocol(_))));
}

#[test]
fn prepares_answer_in_three_steps() {
    use_prepare_steps();
}

fn use_prepare_steps() {
    assert_eq!(prepare::statement_name(0), "s0");
    assert_eq!(prepare::statement_name(42), "s42");
    let s = prepare::prepare_step(prepare::PrepareStage::AwaitingParse, TypedResponse::ParseComplete);
    assert_eq!(s, prepare::PrepareStep::Next(prepare::PrepareStage::AwaitingParameters));
    let s = prepare::prepare_step(prepare::PrepareStage::AwaitingParameters, TypedResponse::ParameterDescription);
    assert_eq!(s, prepare::PrepareStep::Next(prepare::PrepareStage::AwaitingRows));
    let s = prepare::prepare_step(prepare::PrepareStage::AwaitingRows, TypedResponse::RowDescription);
    assert_eq!(s, prepare::PrepareStep::Described { has_rows: true });
    let s = prepare::prepare_step(prepare::PrepareStage::AwaitingRows, TypedResponse::NoData);
    assert_eq!(s, prepare::PrepareStep::Described { has_rows: false });
    let s = prepare::prepare_step(prepare::PrepareStage::AwaitingParse, TypedResponse::NoData);
    assert_eq!(s, prepare::PrepareStep::Unexpected);
    let c = prepare::described_column("id".to_string(), 0, 3, -1, Type::INT4(), None);
    assert_eq!(c.table_oid(), None);
    assert_eq!(c.column_id(), Some(3));
    assert_eq!(c.name(), "id");
}

#[test]
fn row_stream_counts_rows_only_from_the_command_tag() {
    let mut stream = RowStream::new(Statement::unnamed(vec![], vec![]));
    assert_eq!(stream.rows_affected(), None);
    assert_eq!(stream.on_response(TypedResponse::DataRow), RowStreamStep::Row);
    assert_eq!(stream.rows_affected(), None);
    assert_eq!(stream.on_response(TypedResponse::PortalSuspended), RowStreamStep::Continue);
    assert_eq!(stream.on_response(TypedResponse::CommandComplete { rows: 4 }), RowStreamStep::Continue);
    assert_eq!(stream.rows_affected(), None);
    assert_eq!(stream.on_response(TypedResponse::EmptyQueryResponse), RowStreamStep::Continue);
    assert_eq!(stream.rows_affected(), None);
    assert_eq!(stream.on_response(TypedResponse::ReadyForQuery), RowStreamStep::End);
    assert_eq!(stream.rows_affected(), Some(4));
    assert_eq!(stream.on_response(TypedResponse::NoData), RowStreamStep::Unexpected);
    assert_eq!(stream.statement().name(), "");
}

#[test]
fn typeinfo_queries_fall_back_only_on_their_missing_catalog_parts() {
    assert_eq!(typeinfo_fallback(TypeinfoQuery::Type, Some("42P01")), Some(TypeinfoQuery::TypeFallback));
    assert_eq!(typeinfo_fallback(TypeinfoQuery::Type, Some("42703")), None);
    assert_eq!(typeinfo_fallback(TypeinfoQuery::Type, None), None);
    assert_eq!(typeinfo_fallback(TypeinfoQuery::Enum, Some("42703")), Some(TypeinfoQuery::EnumFallback));
    assert_eq!(typeinfo_fallback(TypeinfoQuery::Enum, Some("42P01")), None);
    assert_eq!(typeinfo_fallback(TypeinfoQuery::Composite, Some("42P01")), None);
    assert_eq!(typeinfo_fallback(TypeinfoQuery::TypeFallback, Some("42P01")), None);
    assert!(TypeinfoQuery::Type.text().contains("pg_range"));
    assert!(!TypeinfoQuery::TypeFallback.text().contains("pg_range"));
    assert!(TypeinfoQuery::Enum.text().ends_with("ORDER BY enumsortorder\n"));
    assert!(TypeinfoQuery::EnumFallback.text().ends_with("ORDER BY oid\n"));
    assert!(TypeinfoQuery::Composite.text().contains("NOT attisdropped"));
}

#[test]
fn dropped_statements_close_only_when_named() {
    assert_eq!(query::encode_close("").unwrap(), None);
    let bytes = query::encode_close("s7").unwrap().unwrap();
    let mut expected = framed(b'C', b"Ss7\0");
    expected.extend_from_slice(b"S\0\0\0\x04");
    assert_eq!(bytes, expected);
    assert!(matches!(query::encode_close("s\07"), Err(SqlError::Protocol(_))));
}
