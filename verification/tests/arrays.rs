use bytes::BytesMut;
use kingbase_types::array::downcast;
use kingbase_types::codec::{FromSql, IsNull, ToSql};
use kingbase_types::error::SqlError;
use kingbase_types::types::Type;

fn int4_array(values: &[Option<i32>], lower_bound: i32) -> Vec<u8> {
    let mut v = Vec::new();
    v.extend_from_slice(&1i32.to_be_bytes());
    let has_nulls = values.iter().any(|x| x.is_none()) as i32;
    v.extend_from_slice(&has_nulls.to_be_bytes());
    v.extend_from_slice(&23u32.to_be_bytes());
    v.extend_from_slice(&(values.len() as i32).to_be_bytes());
    v.extend_from_slice(&lower_bound.to_be_bytes());
    for x in values {
        match x {
            Some(n) => {
                v.extend_from_slice(&4i32.to_be_bytes());
                v.extend_from_slice(&n.to_be_bytes());
            }
            None => v.extend_from_slice(&(-1i32).to_be_bytes()),
        }
    }
    v
}

#[test]
fn arrays_read_each_element_as_the_member_type() {
    let raw = int4_array(&[Some(1), Some(-2), Some(300)], 1);
    let v = <Vec<i32> as FromSql>::from_sql(&Type::INT4_ARRAY(), &raw).unwrap();
    assert_eq!(v, vec![1, -2, 300]);
    let raw = int4_array(&[Some(1), None], 1);
    let v = <Vec<Option<i32>> as FromSql>::from_sql(&Type::INT4_ARRAY(), &raw).unwrap();
    assert_eq!(v, vec![Some(1), None]);
    assert!(matches!(
        <Vec<i32> as FromSql>::from_sql(&Type::INT4_ARRAY(), &raw),
        Err(SqlError::WasNull(_))
    ));
    let empty = [0u8, 0, 0, 0, 0, 0, 0, 0, 0, 0, 0, 23];
    assert_eq!(<Vec<i32> as FromSql>::from_sql(&Type::INT4_ARRAY(), &empty).unwrap(), Vec::<i32>::new());
}

#[test]
fn arrays_reject_other_types_and_more_dimensions() {
    let raw = int4_array(&[Some(1)], 1);
    assert!(matches!(<Vec<i32> as FromSql>::from_sql(&Type::INT4(), &raw), Err(SqlError::ExpectedArray)));
    let mut two = Vec::new();
    for x in [2i32, 0, 23, 1, 1, 1, 1, 4, 7] {
        two.extend_from_slice(&x.to_be_bytes());
    }
    assert!(matches!(
        <Vec<i32> as FromSql>::from_sql(&Type::INT4_ARRAY(), &two),
        Err(SqlError::TooManyDimensions)
    ));
    assert!(matches!(
        <Vec<i32> as FromSql>::from_sql(&Type::INT4_ARRAY(), &[0u8, 0]),
        Err(SqlError::Protocol(_))
    ));
    let mut trailing = int4_array(&[Some(1)], 1);
    trailing.push(0);
    assert!(matches!(
        <Vec<i32> as FromSql>::from_sql(&Type::INT4_ARRAY(), &trailing),
        Err(SqlError::Protocol(_))
    ));
    assert!(<Vec<i32> as FromSql>::accepts(&Type::INT4_ARRAY()));
    assert!(!<Vec<i32> as FromSql>::accepts(&Type::INT4()));
    assert!(!<Vec<i32> as FromSql>::accepts(&Type::TEXT_ARRAY()));
}

#[test]
fn arrays_write_the_header_and_each_element() {
    let mut out = BytesMut::new();
    let r = vec![1i32, -2, 300].to_sql(&Type::INT4_ARRAY(), &mut out).unwrap();
    assert!(matches!(r, IsNull::No));
    assert_eq!(&out[..], &int4_array(&[Some(1), Some(-2), Some(300)], 1)[..]);

    let mut out = BytesMut::new();
    let items = [Some(4i32), None];
    (&items[..]).to_sql(&Type::INT4_ARRAY(), &mut out).unwrap();
    assert_eq!(&out[..], &int4_array(&[Some(4), None], 1)[..]);

    let mut out = BytesMut::new();
    assert!(matches!(vec![1i32].to_sql(&Type::INT4(), &mut out), Err(SqlError::ExpectedArray)));
    assert!(out.is_empty());
    assert!(<Vec<i32> as ToSql>::accepts(&Type::INT4_ARRAY()));
    assert!(!<&[i32] as ToSql>::accepts(&Type::INT4()));
    let mut out = BytesMut::new();
    assert!(matches!(
        vec![1i32].to_sql_checked(&Type::TEXT_ARRAY(), &mut out),
        Err(SqlError::WrongType(_))
    ));
}

#[test]
fn lengths_must_fit_in_32_bits() {
    assert!(matches!(downcast(5), Ok(5)));
    assert!(matches!(downcast(i32::MAX as usize), Ok(i32::MAX)));
    assert!(matches!(downcast(i32::MAX as usize + 1), Err(SqlError::ValueTooLarge)));
}

#[test]
fn fixed_size_arrays_need_exactly_their_length() {
    let raw = int4_array(&[Some(4), Some(5), Some(6)], 1);
    let a = <[i32; 3] as FromSql>::from_sql(&Type::INT4_ARRAY(), &raw).unwrap();
    assert_eq!(a, [4, 5, 6]);
    let short = <[i32; 4] as FromSql>::from_sql(&Type::INT4_ARRAY(), &raw).err().unwrap();
    assert!(matches!(short, SqlError::TooFewElements { expected: 4, got: 3 }));
    assert_eq!(short.message(), "too few elements in array (expected 4, got 3)");
    let long = <[i32; 2] as FromSql>::from_sql(&Type::INT4_ARRAY(), &raw).err().unwrap();
    assert!(matches!(long, SqlError::ExcessElements { expected: 2 }));
    assert_eq!(long.message(), "excess elements in array (expected 2, got more than that)");
    let with_null = int4_array(&[Some(1), None], 1);
    assert!(matches!(
        <[i32; 3] as FromSql>::from_sql(&Type::INT4_ARRAY(), &with_null),
        Err(SqlError::WasNull(_))
    ));
    assert!(matches!(<[i32; 3] as FromSql>::from_sql(&Type::INT4(), &raw), Err(SqlError::ExpectedArray)));
}

#[test]
fn fixed_size_and_boxed_arrays_write_as_slices_do() {
    let mut from_slice = BytesMut::new();
    let values = [7i32, 8];
    let slice: &[i32] = &values;
    assert!(matches!(slice.to_sql(&Type::INT4_ARRAY(), &mut from_slice), Ok(IsNull::No)));
    let mut from_array = BytesMut::new();
    assert!(matches!(values.to_sql(&Type::INT4_ARRAY(), &mut from_array), Ok(IsNull::No)));
    let boxed: Box<[i32]> = vec![7, 8].into_boxed_slice();
    let mut from_box = BytesMut::new();
    assert!(matches!(boxed.to_sql(&Type::INT4_ARRAY(), &mut from_box), Ok(IsNull::No)));
    assert_eq!(from_slice, from_array);
    assert_eq!(from_slice, from_box);
    assert_eq!(&from_slice[..], &int4_array(&[Some(7), Some(8)], 1)[..]);
    let back = <Box<[i32]> as FromSql>::from_sql(&Type::INT4_ARRAY(), &from_box).unwrap();
    assert_eq!(&back[..], &[7, 8]);
    assert!(<[i32; 2] as ToSql>::accepts(&Type::INT4_ARRAY()));
    assert!(!<Box<[i32]> as FromSql>::accepts(&Type::INT4()));
}
