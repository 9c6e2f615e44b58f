//! The primitive value encodings of the `postgres-protocol` crate, with what
//! its source shows of them.

use vstd::prelude::*;
use bytes::BytesMut;
use postgres_protocol::types;
use crate::wire::{buffer_bytes, be_signed, be_value, be_bytes, signed_bytes};
use vstd::utf8::{decode_utf8, encode_utf8, valid_utf8};

verus! {

/// The integer that a payload of exactly `width` bytes holds in
/// two's complement, or `None` for a payload of another length.
pub open spec fn exact_signed(s: Seq<u8>, width: nat) -> Option<int> {
    if s.len() == width {
        Some(be_signed(s))
    } else {
        None
    }
}

/// The unsigned integer that a payload of exactly `width` bytes holds, or
/// `None` for a payload of another length.
pub open spec fn exact_unsigned(s: Seq<u8>, width: nat) -> Option<nat> {
    if s.len() == width {
        Some(be_value(s))
    } else {
        None
    }
}

/// The characters that the bytes `s` encode in UTF-8, or `None` when they
/// are not valid UTF-8.
pub open spec fn utf8_decoding(s: Seq<u8>) -> Option<Seq<char>> {
    if valid_utf8(s) {
        Some(decode_utf8(s))
    } else {
        None
    }
}

/// The text of a payload that starts with the version byte 1 and continues
/// with valid UTF-8, or `None` for any other payload.
pub open spec fn versioned_text(s: Seq<u8>) -> Option<Seq<char>> {
    if s.len() >= 1 && s[0] == 1 {
        utf8_decoding(s.subrange(1, s.len() as int))
    } else {
        None
    }
}

/// Calls `postgres_protocol::types::int2_from_sql`: a payload of exactly two
/// bytes is read as a big-endian `i16`; any other length is an error.
#[verifier::external_body]
pub(crate) fn int2_from_sql(raw: &[u8]) -> (r: Result<i16, String>)
    ensures
        match r {
            Ok(v) => exact_signed(raw@, 2) == Some(v as int),
            Err(_) => exact_signed(raw@, 2) is None,
        },
{
    types::int2_from_sql(raw).map_err(|e| e.to_string())
}

/// Calls `postgres_protocol::types::int2_to_sql`, which appends the two
/// big-endian bytes of `v`.
#[verifier::external_body]
pub(crate) fn int2_to_sql(v: i16, out: &mut BytesMut)
    requires
        buffer_bytes(*old(out)).len() + 2 <= isize::MAX,
    ensures
        buffer_bytes(*final(out)) == buffer_bytes(*old(out)) + signed_bytes(v as int, 2),
{
    types::int2_to_sql(v, out)
}

/// Calls `postgres_protocol::types::int4_from_sql`: a payload of exactly four
/// bytes is read as a big-endian `i32`; any other length is an error.
#[verifier::external_body]
pub(crate) fn int4_from_sql(raw: &[u8]) -> (r: Result<i32, String>)
    ensures
        match r {
            Ok(v) => exact_signed(raw@, 4) == Some(v as int),
            Err(_) => exact_signed(raw@, 4) is None,
        },
{
    types::int4_from_sql(raw).map_err(|e| e.to_string())
}

/// Calls `postgres_protocol::types::int4_to_sql`, which appends the four
/// big-endian bytes of `v`.
#[verifier::external_body]
pub(crate) fn int4_to_sql(v: i32, out: &mut BytesMut)
    requires
        buffer_bytes(*old(out)).len() + 4 <= isize::MAX,
    ensures
        buffer_bytes(*final(out)) == buffer_bytes(*old(out)) + signed_bytes(v as int, 4),
{
    types::int4_to_sql(v, out)
}

/// Calls `postgres_protocol::types::int8_from_sql`: a payload of exactly
/// eight bytes is read as a big-endian `i64`; any other length is an error.
#[verifier::external_body]
pub(crate) fn int8_from_sql(raw: &[u8]) -> (r: Result<i64, String>)
    ensures
        match r {
            Ok(v) => exact_signed(raw@, 8) == Some(v as int),
            Err(_) => exact_signed(raw@, 8) is None,
        },
{
    types::int8_from_sql(raw).map_err(|e| e.to_string())
}

/// Calls `postgres_protocol::types::int8_to_sql`, which appends the eight
/// big-endian bytes of `v`.
#[verifier::external_body]
pub(crate) fn int8_to_sql(v: i64, out: &mut BytesMut)
    requires
        buffer_bytes(*old(out)).len() + 8 <= isize::MAX,
    ensures
        buffer_bytes(*final(out)) == buffer_bytes(*old(out)) + signed_bytes(v as int, 8),
{
    types::int8_to_sql(v, out)
}

/// Calls `postgres_protocol::types::timestamp_from_sql`: a payload of
/// exactly eight bytes is read as a big-endian `i64` count of microseconds;
/// any other length is an error.
#[verifier::external_body]
pub(crate) fn timestamp_from_sql(raw: &[u8]) -> (r: Result<i64, String>)
    ensures
        match r {
            Ok(v) => exact_signed(raw@, 8) == Some(v as int),
            Err(_) => exact_signed(raw@, 8) is None,
        },
{
    types::timestamp_from_sql(raw).map_err(|e| e.to_string())
}

/// Calls `postgres_protocol::types::timestamp_to_sql`, which appends the
/// eight big-endian bytes of `v`.
#[verifier::external_body]
pub(crate) fn timestamp_to_sql(v: i64, out: &mut BytesMut)
    requires
        buffer_bytes(*old(out)).len() + 8 <= isize::MAX,
    ensures
        buffer_bytes(*final(out)) == buffer_bytes(*old(out)) + signed_bytes(v as int, 8),
{
    types::timestamp_to_sql(v, out)
}

/// Calls `postgres_protocol::types::uuid_from_sql`: a payload of exactly
/// sixteen bytes is copied out; any other length is an error.
#[verifier::external_body]
pub(crate) fn uuid_from_sql(raw: &[u8]) -> (r: Result<[u8; 16], String>)
    ensures
        match r {
            Ok(b) => raw@.len() == 16 && b@ == raw@,
            Err(_) => raw@.len() != 16,
        },
{
    types::uuid_from_sql(raw).map_err(|e| e.to_string())
}

/// Calls `postgres_protocol::types::uuid_to_sql`, which appends the sixteen
/// bytes of `v`.
#[verifier::external_body]
pub(crate) fn uuid_to_sql(v: [u8; 16], out: &mut BytesMut)
    requires
        buffer_bytes(*old(out)).len() + 16 <= isize::MAX,
    ensures
        buffer_bytes(*final(out)) == buffer_bytes(*old(out)) + v@,
{
    types::uuid_to_sql(v, out)
}

/// Calls `postgres_protocol::types::oid_from_sql`: a payload of exactly four
/// bytes is read as a big-endian `u32`; any other length is an error.
#[verifier::external_body]
pub(crate) fn oid_from_sql(raw: &[u8]) -> (r: Result<u32, String>)
    ensures
        match r {
            Ok(v) => exact_unsigned(raw@, 4) == Some(v as nat),
            Err(_) => exact_unsigned(raw@, 4) is None,
        },
{
    types::oid_from_sql(raw).map_err(|e| e.to_string())
}

/// Calls `postgres_protocol::types::oid_to_sql`, which appends the four
/// big-endian bytes of `v`.
#[verifier::external_body]
pub(crate) fn oid_to_sql(v: u32, out: &mut BytesMut)
    requires
        buffer_bytes(*old(out)).len() + 4 <= isize::MAX,
    ensures
        buffer_bytes(*final(out)) == buffer_bytes(*old(out)) + be_bytes(v as nat, 4),
{
    types::oid_to_sql(v, out)
}

/// Calls `postgres_protocol::types::char_from_sql`: a payload of exactly one
/// byte is read as an `i8`; any other length is an error.
#[verifier::external_body]
pub(crate) fn char_from_sql(raw: &[u8]) -> (r: Result<i8, String>)
    ensures
        match r {
            Ok(v) => exact_signed(raw@, 1) == Some(v as int),
            Err(_) => exact_signed(raw@, 1) is None,
        },
{
    types::char_from_sql(raw).map_err(|e| e.to_string())
}

/// Calls `postgres_protocol::types::char_to_sql`, which appends the byte of `v`.
#[verifier::external_body]
pub(crate) fn char_to_sql(v: i8, out: &mut BytesMut)
    requires
        buffer_bytes(*old(out)).len() + 1 <= isize::MAX,
    ensures
        buffer_bytes(*final(out)) == buffer_bytes(*old(out)) + signed_bytes(v as int, 1),
{
    types::char_to_sql(v, out)
}

/// Calls `postgres_protocol::types::bool_from_sql`: a payload of exactly one
/// byte is `true` when that byte is not zero; any other length is an error.
#[verifier::external_body]
pub(crate) fn bool_from_sql(raw: &[u8]) -> (r: Result<bool, String>)
    ensures
        match r {
            Ok(v) => exact_unsigned(raw@, 1) matches Some(b) && v == (b != 0),
            Err(_) => exact_unsigned(raw@, 1) is None,
        },
{
    types::bool_from_sql(raw).map_err(|e| e.to_string())
}

/// Calls `postgres_protocol::types::bool_to_sql`, which appends the byte 1
/// for `true` and 0 for `false`.
#[verifier::external_body]
pub(crate) fn bool_to_sql(v: bool, out: &mut BytesMut)
    requires
        buffer_bytes(*old(out)).len() + 1 <= isize::MAX,
    ensures
        buffer_bytes(*final(out)) == buffer_bytes(*old(out)).push(if v { 1u8 } else { 0u8 }),
{
    types::bool_to_sql(v, out)
}

/// Calls `postgres_protocol::types::time_from_sql`: a payload of exactly
/// eight bytes is read as a big-endian `i64`; any other length is an error.
#[verifier::external_body]
pub(crate) fn time_from_sql(raw: &[u8]) -> (r: Result<i64, String>)
    ensures
        match r {
            Ok(v) => exact_signed(raw@, 8) == Some(v as int),
            Err(_) => exact_signed(raw@, 8) is None,
        },
{
    types::time_from_sql(raw).map_err(|e| e.to_string())
}

/// Calls `postgres_protocol::types::time_to_sql`, which appends the eight
/// big-endian bytes of `v`.
#[verifier::external_body]
pub(crate) fn time_to_sql(v: i64, out: &mut BytesMut)
    requires
        buffer_bytes(*old(out)).len() + 8 <= isize::MAX,
    ensures
        buffer_bytes(*final(out)) == buffer_bytes(*old(out)) + signed_bytes(v as int, 8),
{
    types::time_to_sql(v, out)
}

/// Calls `postgres_protocol::types::text_from_sql`, which reads the payload
/// as UTF-8 text; a payload that is not valid UTF-8 is an error.
#[verifier::external_body]
pub(crate) fn text_from_sql<'a>(raw: &'a [u8]) -> (r: Result<&'a str, String>)
    ensures
        match utf8_decoding(raw@) {
            Some(t) => r matches Ok(s) && s@ == t,
            None => r is Err,
        },
{
    types::text_from_sql(raw).map_err(|e| e.to_string())
}

/// Calls `postgres_protocol::types::text_to_sql`, which appends the UTF-8
/// bytes of `v`.
#[verifier::external_body]
pub(crate) fn text_to_sql(v: &str, out: &mut BytesMut)
    requires
        buffer_bytes(*old(out)).len() + 4 * v@.len() <= isize::MAX,
    ensures
        buffer_bytes(*final(out)) == buffer_bytes(*old(out)) + encode_utf8(v@),
{
    types::text_to_sql(v, out)
}

/// Calls `postgres_protocol::types::ltree_from_sql`: a payload that starts
/// with the version byte 1 is read as UTF-8 text after that byte; any other
/// payload, or text that is not valid UTF-8, is an error.
#[verifier::external_body]
pub(crate) fn ltree_from_sql<'a>(raw: &'a [u8]) -> (r: Result<&'a str, String>)
    ensures
        match r {
            Ok(s) => versioned_text(raw@) == Some(s@),
            Err(_) => versioned_text(raw@) is None,
        },
{
    types::ltree_from_sql(raw).map_err(|e| e.to_string())
}

/// Calls `postgres_protocol::types::ltree_to_sql`, which appends the version
/// byte 1 and then the UTF-8 bytes of `v`.
#[verifier::external_body]
pub(crate) fn ltree_to_sql(v: &str, out: &mut BytesMut)
    requires
        buffer_bytes(*old(out)).len() + 1 + 4 * v@.len() <= isize::MAX,
    ensures
        buffer_bytes(*final(out)) == buffer_bytes(*old(out)) + seq![1u8] + encode_utf8(v@),
{
    types::ltree_to_sql(v, out)
}

/// Calls `postgres_protocol::types::lquery_from_sql`: a payload that starts
/// with the version byte 1 is read as UTF-8 text after that byte; any other
/// payload, or text that is not valid UTF-8, is an error.
#[verifier::external_body]
pub(crate) fn lquery_from_sql<'a>(raw: &'a [u8]) -> (r: Result<&'a str, String>)
    ensures
        match r {
            Ok(s) => versioned_text(raw@) == Some(s@),
            Err(_) => versioned_text(raw@) is None,
        },
{
    types::lquery_from_sql(raw).map_err(|e| e.to_string())
}

/// Calls `postgres_protocol::types::lquery_to_sql`, which appends the version
/// byte 1 and then the UTF-8 bytes of `v`.
#[verifier::external_body]
pub(crate) fn lquery_to_sql(v: &str, out: &mut BytesMut)
    requires
        buffer_bytes(*old(out)).len() + 1 + 4 * v@.len() <= isize::MAX,
    ensures
        buffer_bytes(*final(out)) == buffer_bytes(*old(out)) + seq![1u8] + encode_utf8(v@),
{
    types::lquery_to_sql(v, out)
}

/// Calls `postgres_protocol::types::ltxtquery_from_sql`: a payload that starts
/// with the version byte 1 is read as UTF-8 text after that byte; any other
/// payload, or text that is not valid UTF-8, is an error.
#[verifier::external_body]
pub(crate) fn ltxtquery_from_sql<'a>(raw: &'a [u8]) -> (r: Result<&'a str, String>)
    ensures
        match r {
            Ok(s) => versioned_text(raw@) == Some(s@),
            Err(_) => versioned_text(raw@) is None,
        },
{
    types::ltxtquery_from_sql(raw).map_err(|e| e.to_string())
}

/// Calls `postgres_protocol::types::ltxtquery_to_sql`, which appends the version
/// byte 1 and then the UTF-8 bytes of `v`.
#[verifier::external_body]
pub(crate) fn ltxtquery_to_sql(v: &str, out: &mut BytesMut)
    requires
        buffer_bytes(*old(out)).len() + 1 + 4 * v@.len() <= isize::MAX,
    ensures
        buffer_bytes(*final(out)) == buffer_bytes(*old(out)) + seq![1u8] + encode_utf8(v@),
{
    types::ltxtquery_to_sql(v, out)
}

/// Calls `postgres_protocol::types::bytea_to_sql`, which appends the bytes `v`.
#[verifier::external_body]
pub(crate) fn bytea_to_sql(v: &[u8], out: &mut BytesMut)
    requires
        buffer_bytes(*old(out)).len() + v@.len() <= isize::MAX,
    ensures
        buffer_bytes(*final(out)) == buffer_bytes(*old(out)) + v@,
{
    types::bytea_to_sql(v, out)
}

} // verus!
