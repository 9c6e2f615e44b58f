use bytes::BytesMut;
use kingbase_types::error::{MySqlBitError, SqlError};
use kingbase_types::kingbase::MySqlBit;
use kingbase_types::error::WrongType;
use kingbase_types::query::{alias_outcome, encode_param_with_alias, extract_row_affected, EncodedParam};
use kingbase_types::types::{Type, TypeSystem};
use postgres_protocol::message::backend::Message;

fn command_complete(tag: &[u8]) -> Message {
    let mut raw = BytesMut::new();
    raw.extend_from_slice(b"C");
    raw.extend_from_slice(&((tag.len() + 5) as i32).to_be_bytes());
    raw.extend_from_slice(tag);
    raw.extend_from_slice(b"\0");
    Message::parse(&mut raw).unwrap().unwrap()
}

#[test]
fn row_counts_come_from_the_command_tag() {
    match command_complete(b"INSERT 0 5") {
        Message::CommandComplete(body) => assert_eq!(extract_row_affected(&body).unwrap(), 5),
        _ => panic!("expected a command tag"),
    }
    match command_complete(b"CREATE TABLE") {
        Message::CommandComplete(body) => assert_eq!(extract_row_affected(&body).unwrap(), 0),
        _ => panic!("expected a command tag"),
    }
    match command_complete(&[0xff, 0xfe]) {
        Message::CommandComplete(body) => {
            assert!(matches!(extract_row_affected(&body), Err(SqlError::Protocol(_))))
        }
        _ => panic!("expected a command tag"),
    }
}

#[test]
fn parameters_fall_back_to_the_codec_type() {
    let direct = encode_param_with_alias(&7i32, &Type::INT4(), None).unwrap();
    assert_eq!(direct.format, 1);
    assert_eq!(direct.value, Some(vec![0, 0, 0, 7]));

    let aliased = encode_param_with_alias(&7i32, &Type::TEXT(), Some(&Type::INT4())).unwrap();
    assert_eq!(aliased.value, Some(vec![0, 0, 0, 7]));

    match encode_param_with_alias(&7i32, &Type::TEXT(), Some(&Type::BOOL())) {
        Err(SqlError::WrongType(w)) => assert!(w.message().contains("`text`")),
        other => panic!("expected a type error, got {other:?}"),
    }
    let none = encode_param_with_alias(&None::<i32>, &Type::INT4(), None).unwrap();
    assert_eq!(none.value, None);
}

#[test]
fn bit_values_convert_to_and_from_integers() {
    let b = MySqlBit::from_u64(10, 0b10_0000_0101).unwrap();
    assert_eq!(b.bit_len(), 10);
    assert_eq!(b.to_u64(), 0b10_0000_0101);
    assert_eq!(b.payload(), &[0b1000_0001, 0b0100_0000]);
    assert_eq!(MySqlBit::from_u64(64, u64::MAX).unwrap().to_u64(), u64::MAX);
    assert_eq!(MySqlBit::from_u64(0, 0), Err(MySqlBitError::InvalidBitLength { bit_len: 0 }));
    assert_eq!(MySqlBit::from_u64(65, 0), Err(MySqlBitError::TooLong { bit_len: 65 }));
    assert_eq!(MySqlBit::from_u64(3, 8), Err(MySqlBitError::ValueTooLarge { bit_len: 3, value: 8 }));
}

#[test]
fn mode_lookups_keep_their_type_system() {
    let oracle_rowid = Type::from_oracle_oid(7000).unwrap();
    assert_eq!(oracle_rowid.type_system(), Some(TypeSystem::Oracle));
    assert_eq!(Type::from_kingbase_oracle_oid(7000), Some(oracle_rowid));
    assert_eq!(Type::from_oracle_oid(23), Some(Type::INT4()));
    assert!(Type::from_kingbase_oracle_oid(23).is_none());
    assert_eq!(Type::from_sqlserver_oid(5041), Some(Type::SQLSERVER_NVARCHAR()));
    assert!(Type::from_sqlserver_oid(0).is_none());
}

#[test]
fn mysql_bit_number_builds_the_value_back() {
    for (len, payload) in [(9u64, vec![0xaau8, 0xff]), (1, vec![0x80]), (12, vec![0x12, 0x3f]), (64, vec![0xff; 8])] {
        let y = MySqlBit::new(len, payload).unwrap();
        assert_eq!(MySqlBit::from_u64(y.bit_len(), y.to_u64()), Ok(y.clone()));
    }
    assert_eq!(MySqlBit::new(9, vec![0xaa, 0xff]).unwrap().to_u64(), 341);
}

fn encoded(v: u8) -> EncodedParam {
    EncodedParam { format: 1, value: Some(vec![v]) }
}

fn wrong(ty: Type) -> SqlError {
    SqlError::WrongType(WrongType::new(ty, "i32"))
}

#[test]
fn alias_outcome_keeps_each_outcome_as_it_came() {
    let r = alias_outcome(Ok(encoded(1)), None);
    assert!(matches!(r, Ok(EncodedParam { value: Some(ref v), .. }) if v == &vec![1u8]));
    let r = alias_outcome(Err(SqlError::ValueTooLarge), Some(Ok(encoded(2))));
    assert!(matches!(r, Err(SqlError::ValueTooLarge)));
    let r = alias_outcome(Err(wrong(Type::TEXT())), Some(Ok(encoded(3))));
    assert!(matches!(r, Ok(EncodedParam { value: Some(ref v), .. }) if v == &vec![3u8]));
    let r = alias_outcome(Err(wrong(Type::TEXT())), Some(Err(SqlError::InvalidBufferSize)));
    assert!(matches!(r, Err(SqlError::InvalidBufferSize)));
    match alias_outcome(Err(wrong(Type::TEXT())), Some(Err(wrong(Type::INT4())))) {
        Err(SqlError::WrongType(w)) => assert_eq!(w.message(), WrongType::new(Type::TEXT(), "i32").message()),
        other => panic!("unexpected {:?}", other),
    }
    match alias_outcome(Err(wrong(Type::TEXT())), None) {
        Err(SqlError::WrongType(w)) => assert_eq!(w.message(), WrongType::new(Type::TEXT(), "i32").message()),
        other => panic!("unexpected {:?}", other),
    }
}
