//! The frontend messages of the extended query protocol that the client
//! sends: `Parse`, `Describe`, `Bind`, `Execute` and `Sync`.

use vstd::prelude::*;
use bytes::BytesMut;
use postgres_protocol::message::frontend;
use postgres_protocol::message::frontend::BindError;
use crate::codec::IsNull;
use crate::query::EncodedParam;
use crate::wire::{be_bytes, buffer_bytes, extend_from_slice, lemma_be_bytes_len, lemma_signed_bytes_len, signed_bytes};
use vstd::string::StringSliceAdditionalSpecFns;

verus! {

/// `s` followed by a zero byte.
pub open spec fn cstr(s: Seq<u8>) -> Seq<u8> {
    s.push(0u8)
}

/// Whether no byte of `s` is zero.
pub open spec fn nul_free(s: Seq<u8>) -> bool {
    forall|i: int| 0 <= i < s.len() ==> #[trigger] s[i] != 0u8
}

/// A message: its tag byte, the length of the body and the length field
/// together, and the body.
pub open spec fn framed(tag: u8, body: Seq<u8>) -> Seq<u8> {
    seq![tag] + be_bytes((body.len() + 4) as nat, 4) + body
}

/// Whether a body of `n` bytes fits the 32-bit length field.
pub open spec fn body_fits(n: nat) -> bool {
    n + 4 <= i32::MAX
}

/// The oids, each in four big-endian bytes.
pub open spec fn oid_list(oids: Seq<u32>) -> Seq<u8>
    decreases oids.len(),
{
    if oids.len() == 0 {
        Seq::empty()
    } else {
        oid_list(oids.drop_last()) + be_bytes(oids.last() as nat, 4)
    }
}

/// Each oid takes four bytes.
pub proof fn lemma_oid_list_len(oids: Seq<u32>)
    ensures
        oid_list(oids).len() == 4 * oids.len(),
    decreases oids.len(),
{
    if oids.len() > 0 {
        lemma_oid_list_len(oids.drop_last());
        lemma_be_bytes_len(oids.last() as nat, 4);
    }
}

/// The body of a `Parse` message.
pub open spec fn parse_body(name: Seq<u8>, query: Seq<u8>, oids: Seq<u32>) -> Seq<u8> {
    cstr(name) + cstr(query) + be_bytes(oids.len(), 2) + oid_list(oids)
}

/// Whether a `Parse` message can be written: no zero byte in the name or
/// the query, at most 65535 parameter types, and a body that fits.
pub open spec fn parse_writable(name: Seq<u8>, query: Seq<u8>, oids: Seq<u32>) -> bool {
    nul_free(name) && nul_free(query) && oids.len() <= u16::MAX && body_fits(parse_body(name, query, oids).len())
}

/// The body of a `Describe` message.
pub open spec fn describe_body(variant: u8, name: Seq<u8>) -> Seq<u8> {
    seq![variant] + cstr(name)
}

/// Whether a `Describe` message can be written.
pub open spec fn describe_writable(variant: u8, name: Seq<u8>) -> bool {
    nul_free(name) && body_fits(describe_body(variant, name).len())
}

/// The body of an `Execute` message.
pub open spec fn execute_body(portal: Seq<u8>, max_rows: i32) -> Seq<u8> {
    cstr(portal) + signed_bytes(max_rows as int, 4)
}

/// Whether an `Execute` message can be written.
pub open spec fn execute_writable(portal: Seq<u8>, max_rows: i32) -> bool {
    nul_free(portal) && body_fits(execute_body(portal, max_rows).len())
}

/// The `Sync` message.
pub open spec fn sync_message() -> Seq<u8> {
    framed(0x53u8, Seq::empty())
}

/// The format codes, each in two big-endian bytes.
pub open spec fn format_list(params: Seq<EncodedParam>) -> Seq<u8>
    decreases params.len(),
{
    if params.len() == 0 {
        Seq::empty()
    } else {
        format_list(params.drop_last()) + signed_bytes(params.last().format as int, 2)
    }
}

/// A parameter value: its length and bytes, or the length -1 for `NULL`.
pub open spec fn value_field(v: Option<Vec<u8>>) -> Seq<u8> {
    match v {
        Some(b) => signed_bytes(b@.len() as int, 4) + b@,
        None => signed_bytes(-1, 4),
    }
}

/// The parameter values in order.
pub open spec fn value_list(params: Seq<EncodedParam>) -> Seq<u8>
    decreases params.len(),
{
    if params.len() == 0 {
        Seq::empty()
    } else {
        value_list(params.drop_last()) + value_field(params.last().value)
    }
}

/// Whether every parameter value's length fits its 32-bit field.
pub open spec fn values_fit(params: Seq<EncodedParam>) -> bool {
    forall|i: int| 0 <= i < params.len() ==> (#[trigger] params[i].value matches Some(b) ==> b@.len() <= i32::MAX)
}

/// The body of a `Bind` message whose results all come in binary.
pub open spec fn bind_body(portal: Seq<u8>, statement: Seq<u8>, params: Seq<EncodedParam>) -> Seq<u8> {
    cstr(portal) + cstr(statement) + be_bytes(params.len(), 2) + format_list(params) + be_bytes(
        params.len(),
        2,
    ) + value_list(params) + be_bytes(1, 2) + signed_bytes(1, 2)
}

/// Whether a `Bind` message can be written.
pub open spec fn bind_writable(portal: Seq<u8>, statement: Seq<u8>, params: Seq<EncodedParam>) -> bool {
    nul_free(portal) && nul_free(statement) && params.len() <= u16::MAX && values_fit(params) && body_fits(
        bind_body(portal, statement, params).len(),
    )
}

/// An upper bound of the bytes that the parameter values take.
pub open spec fn values_len(params: Seq<EncodedParam>) -> nat
    decreases params.len(),
{
    if params.len() == 0 {
        0
    } else {
        values_len(params.drop_last()) + 6 + match params.last().value {
            Some(b) => b@.len(),
            None => 0,
        }
    }
}

/// The format codes and the values together take `values_len` bytes.
pub proof fn lemma_param_lists_len(params: Seq<EncodedParam>)
    ensures
        format_list(params).len() + value_list(params).len() == values_len(params),
        format_list(params).len() == 2 * params.len(),
    decreases params.len(),
{
    if params.len() > 0 {
        lemma_param_lists_len(params.drop_last());
        lemma_signed_bytes_len(params.last().format as int, 2);
        match params.last().value {
            Some(b) => lemma_signed_bytes_len(b@.len() as int, 4),
            None => lemma_signed_bytes_len(-1, 4),
        }
    }
}

/// The length of a `Bind` message's body.
pub proof fn lemma_bind_body_len(portal: Seq<u8>, statement: Seq<u8>, params: Seq<EncodedParam>)
    ensures
        bind_body(portal, statement, params).len() == portal.len() + statement.len() + 10 + values_len(params),
{
    lemma_param_lists_len(params);
    lemma_be_bytes_len(params.len(), 2);
    lemma_be_bytes_len(1, 2);
    lemma_signed_bytes_len(1, 2);
}

/// Calls `postgres_protocol::message::frontend::parse`, which appends a
/// `Parse` message, or fails when a name holds a zero byte or a count or
/// length does not fit its field; what a failed call leaves in the buffer
/// is not stated.
#[verifier::external_body]
pub(crate) fn parse_message(name: &str, query: &str, oids: &[u32], buf: &mut BytesMut) -> (r: Result<(), String>)
    requires
        buffer_bytes(*old(buf)).len() + 9 + name.spec_bytes().len() + query.spec_bytes().len() + 4
            * oids@.len() <= isize::MAX,
    ensures
        r is Ok <==> parse_writable(name.spec_bytes(), query.spec_bytes(), oids@),
        r is Ok ==> buffer_bytes(*final(buf)) == buffer_bytes(*old(buf)) + framed(
            0x50u8,
            parse_body(name.spec_bytes(), query.spec_bytes(), oids@),
        ),
{
    frontend::parse(name, query, oids.iter().copied(), buf).map_err(|e| e.to_string())
}

/// Calls `postgres_protocol::message::frontend::describe`, which appends a
/// `Describe` message, or fails when the name holds a zero byte or the body
/// does not fit.
#[verifier::external_body]
pub(crate) fn describe_message(variant: u8, name: &str, buf: &mut BytesMut) -> (r: Result<(), String>)
    requires
        buffer_bytes(*old(buf)).len() + 7 + name.spec_bytes().len() <= isize::MAX,
    ensures
        r is Ok <==> describe_writable(variant, name.spec_bytes()),
        r is Ok ==> buffer_bytes(*final(buf)) == buffer_bytes(*old(buf)) + framed(
            0x44u8,
            describe_body(variant, name.spec_bytes()),
        ),
{
    frontend::describe(variant, name, buf).map_err(|e| e.to_string())
}

/// Calls `postgres_protocol::message::frontend::close`, which appends a
/// `Close` message, whose body is laid out as that of `Describe`, or fails
/// when the name holds a zero byte or the body does not fit.
#[verifier::external_body]
pub(crate) fn close_message(variant: u8, name: &str, buf: &mut BytesMut) -> (r: Result<(), String>)
    requires
        buffer_bytes(*old(buf)).len() + 7 + name.spec_bytes().len() <= isize::MAX,
    ensures
        r is Ok <==> describe_writable(variant, name.spec_bytes()),
        r is Ok ==> buffer_bytes(*final(buf)) == buffer_bytes(*old(buf)) + framed(
            0x43u8,
            describe_body(variant, name.spec_bytes()),
        ),
{
    frontend::close(variant, name, buf).map_err(|e| e.to_string())
}

/// Calls `postgres_protocol::message::frontend::execute`, which appends an
/// `Execute` message, or fails when the portal name holds a zero byte or
/// the body does not fit.
#[verifier::external_body]
pub(crate) fn execute_message(portal: &str, max_rows: i32, buf: &mut BytesMut) -> (r: Result<(), String>)
    requires
        buffer_bytes(*old(buf)).len() + 10 + portal.spec_bytes().len() <= isize::MAX,
    ensures
        r is Ok <==> execute_writable(portal.spec_bytes(), max_rows),
        r is Ok ==> buffer_bytes(*final(buf)) == buffer_bytes(*old(buf)) + framed(
            0x45u8,
            execute_body(portal.spec_bytes(), max_rows),
        ),
{
    frontend::execute(portal, max_rows, buf).map_err(|e| e.to_string())
}

/// Calls `postgres_protocol::message::frontend::sync`, which appends a
/// `Sync` message.
#[verifier::external_body]
pub(crate) fn sync_message_into(buf: &mut BytesMut)
    requires
        buffer_bytes(*old(buf)).len() + 5 <= isize::MAX,
    ensures
        buffer_bytes(*final(buf)) == buffer_bytes(*old(buf)) + sync_message(),
{
    frontend::sync(buf)
}

/// Appends the bytes of a parameter value, if it has any; says whether it
/// is `NULL`.
fn write_value(value: Option<&[u8]>, buf: &mut BytesMut) -> (r: IsNull)
    requires
        value matches Some(b) ==> buffer_bytes(*old(buf)).len() + b@.len() <= isize::MAX,
    ensures
        match value {
            Some(b) => r == IsNull::No && buffer_bytes(*final(buf)) == buffer_bytes(*old(buf)) + b@,
            None => r == IsNull::Yes && buffer_bytes(*final(buf)) == buffer_bytes(*old(buf)),
        },
{
    match value {
        Some(b) => {
            extend_from_slice(buf, b);
            IsNull::No
        },
        None => IsNull::Yes,
    }
}

/// Calls `postgres_protocol::message::frontend::bind` with the parameters'
/// format codes and values and one binary result format; it appends a
/// `Bind` message, or fails when a name holds a zero byte or a count or
/// length does not fit its field.
#[verifier::external_body]
pub(crate) fn bind_message(portal: &str, statement: &str, params: &[EncodedParam], buf: &mut BytesMut) -> (r: Result<(), String>)
    requires
        buffer_bytes(*old(buf)).len() + 13 + portal.spec_bytes().len() + statement.spec_bytes().len()
            + values_len(params@) <= isize::MAX,
    ensures
        r is Ok <==> bind_writable(portal.spec_bytes(), statement.spec_bytes(), params@),
        r is Ok ==> buffer_bytes(*final(buf)) == buffer_bytes(*old(buf)) + framed(
            0x42u8,
            bind_body(portal.spec_bytes(), statement.spec_bytes(), params@),
        ),
{
    let values = params.iter().map(|p| p.value.as_deref());
    frontend::bind(portal, statement, params.iter().map(|p| p.format), values, |v, buf| {
        match write_value(v, buf) {
            IsNull::No => Ok(postgres_protocol::IsNull::No),
            IsNull::Yes => Ok(postgres_protocol::IsNull::Yes),
        }
    }, Some(1), buf).map_err(|e| match e {
        BindError::Conversion(e) => e.to_string(),
        BindError::Serialization(e) => e.to_string(),
    })
}

} // verus!
