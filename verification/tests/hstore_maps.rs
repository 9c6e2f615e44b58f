use bytes::BytesMut;
use kingbase_types::codec::{FromSql, IsNull, ToSql};
use kingbase_types::error::SqlError;
use kingbase_types::types::{Kind, Type};
use std::collections::HashMap;

fn hstore() -> Type {
    Type::new("hstore".to_string(), 16_400, Kind::Simple, "public".to_string())
}

fn payload(entries: &[(&str, Option<&str>)]) -> Vec<u8> {
    let mut v = (entries.len() as i32).to_be_bytes().to_vec();
    for (k, val) in entries {
        v.extend_from_slice(&(k.len() as i32).to_be_bytes());
        v.extend_from_slice(k.as_bytes());
        match val {
            Some(s) => {
                v.extend_from_slice(&(s.len() as i32).to_be_bytes());
                v.extend_from_slice(s.as_bytes());
            }
            None => v.extend_from_slice(&(-1i32).to_be_bytes()),
        }
    }
    v
}

#[test]
fn hstore_payloads_read_into_maps() {
    let raw = payload(&[("a", Some("1")), ("b", None), ("a", Some("2"))]);
    let m = <HashMap<String, Option<String>> as FromSql>::from_sql(&hstore(), &raw).unwrap();
    assert_eq!(m.len(), 2);
    assert_eq!(m["a"], Some("2".to_string()));
    assert_eq!(m["b"], None);
    let empty = payload(&[]);
    assert!(<HashMap<String, Option<String>> as FromSql>::from_sql(&hstore(), &empty).unwrap().is_empty());
    assert!(matches!(
        <HashMap<String, Option<String>> as FromSql>::from_sql(&hstore(), &[0, 0, 0, 1, 0]),
        Err(SqlError::Protocol(_))
    ));
    let mut trailing = payload(&[("k", None)]);
    trailing.push(9);
    assert!(<HashMap<String, Option<String>> as FromSql>::from_sql(&hstore(), &trailing).is_err());
}

#[test]
fn maps_write_hstore_payloads_that_read_back() {
    let mut m: HashMap<String, Option<String>> = HashMap::new();
    m.insert("x".to_string(), Some("yes".to_string()));
    m.insert("nothing".to_string(), None);
    let mut out = BytesMut::new();
    assert!(matches!(m.to_sql(&hstore(), &mut out), Ok(IsNull::No)));
    assert_eq!(&out[..4], &2i32.to_be_bytes());
    let back = <HashMap<String, Option<String>> as FromSql>::from_sql(&hstore(), &out).unwrap();
    assert_eq!(back, m);
}

#[test]
fn only_hstore_types_take_maps() {
    assert!(<HashMap<String, Option<String>> as ToSql>::accepts(&hstore()));
    assert!(<HashMap<String, Option<String>> as FromSql>::accepts(&hstore()));
    assert!(!<HashMap<String, Option<String>> as ToSql>::accepts(&Type::TEXT()));
}
