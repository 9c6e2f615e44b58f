//! Parameter encoding for a query, and the row count of a command tag.

use vstd::prelude::*;
use postgres_protocol::message::backend::CommandCompleteBody;
use crate::codec::{ToSql, IsNull, Format};
use crate::error::SqlError;
use crate::mysql_types::{param_codec_alias_for_mysql_type, param_codec_alias};
use crate::sql_compat::CompatibleMode;
use crate::types::{Type, TypeView, is_lookup_result};
use crate::text::{str_chars, digits_value, all_digits};
use crate::wire::{buffer_bytes, new_buffer, buffer_to_vec, lemma_be_bytes_len, lemma_signed_bytes_len};
use crate::messages::{
    bind_body, bind_message, bind_writable, close_message, describe_body, describe_message, describe_writable,
    execute_body, execute_message,
    framed, lemma_bind_body_len, lemma_oid_list_len, parse_body, parse_message, parse_writable, sync_message,
    sync_message_into, values_len,
};
use crate::statement::Statement;
use bytes::BytesMut;
use vstd::string::StringSliceAdditionalSpecFns;
use vstd::utf8::encode_utf8;

verus! {

/// The body of a `CommandComplete` message of the `postgres-protocol` crate.
#[verifier::external_type_specification]
#[verifier::external_body]
pub struct ExCommandCompleteBody(CommandCompleteBody);

/// The text of the command tag that `CommandCompleteBody::tag` reads from
/// `body`, or `None` where the tag is not valid UTF-8.
pub uninterp spec fn command_tag_text(body: CommandCompleteBody) -> Option<Seq<char>>;

/// Calls `CommandCompleteBody::tag`, which reads the tag as UTF-8 text; a
/// tag that is not valid UTF-8 is an error. The text is a function of the
/// body alone, named `command_tag_text`.
#[verifier::external_body]
fn command_tag(body: &CommandCompleteBody) -> (r: Result<String, String>)
    ensures
        match r {
            Ok(t) => command_tag_text(*body) == Some(t@),
            Err(_) => command_tag_text(*body) is None,
        },
{
    match body.tag() {
        Ok(tag) => Ok(tag.to_owned()),
        Err(e) => Err(e.to_string()),
    }
}

/// The text after the last space of `s`, or all of `s` when it has none.
pub open spec fn last_word(s: Seq<char>) -> Seq<char>
    decreases s.len(),
{
    if s.len() == 0 {
        s
    } else if s.last() == ' ' {
        Seq::<char>::empty()
    } else {
        last_word(s.drop_last()).push(s.last())
    }
}

/// The unsigned integer that `s` spells: an optional `+` and at least one
/// ASCII digit, with a value that fits in 64 bits; `None` otherwise.
pub open spec fn u64_text_value(s: Seq<char>) -> Option<nat> {
    let d = if s.len() > 0 && s[0] == '+' {
        s.subrange(1, s.len() as int)
    } else {
        s
    };
    if d.len() > 0 && all_digits(d) && digits_value(d) <= u64::MAX {
        Some(digits_value(d))
    } else {
        None
    }
}

/// The number of rows that a command tag reports: its last word read as an
/// unsigned integer, or zero when that word is not one.
pub open spec fn tag_rows(tag: Seq<char>) -> nat {
    match u64_text_value(last_word(tag)) {
        Some(n) => n,
        None => 0,
    }
}

proof fn lemma_last_word_suffix(s: Seq<char>, k: int)
    requires
        0 <= k <= s.len(),
        forall|j: int| k <= j < s.len() ==> s[j] != ' ',
        k == 0 || s[k - 1] == ' ',
    ensures
        last_word(s) == s.subrange(k, s.len() as int),
    decreases s.len(),
{
    if s.len() > k {
        lemma_last_word_suffix(s.drop_last(), k);
        assert(s.drop_last().subrange(k, s.len() - 1).push(s.last()) =~= s.subrange(k, s.len() as int));
    } else if s.len() > 0 {
        assert(s.subrange(k, s.len() as int) =~= Seq::<char>::empty());
    } else {
        assert(s.subrange(k, s.len() as int) =~= s);
    }
}

/// Reads `s` as an unsigned 64-bit integer: an optional `+` and then ASCII
/// digits, the way `str::parse::<u64>` reads it.
pub fn parse_u64(s: &[char]) -> (r: Option<u64>)
    ensures
        match r {
            Some(v) => u64_text_value(s@) == Some(v as nat),
            None => u64_text_value(s@) is None,
        },
{
    let n = s.len();
    let start: usize = if n > 0 && s[0] == '+' {
        1
    } else {
        0
    };
    let ghost d = s@.subrange(start as int, n as int);
    proof {
        if start == 0 {
            assert(d =~= s@);
        }
    }
    if start >= n {
        return None;
    }
    let mut value: u64 = 0;
    let mut i = start;
    while i < n
        invariant
            start <= i <= n == s@.len(),
            start < n,
            start <= 1,
            (start == 1) == (s@.len() > 0 && s@[0] == '+'),
            d == s@.subrange(start as int, n as int),
            start == 0 ==> d == s@,
            all_digits(s@.subrange(start as int, i as int)),
            value as nat == digits_value(s@.subrange(start as int, i as int)),
        decreases n - i,
    {
        let c = s[i];
        let prefix = Ghost(s@.subrange(start as int, i as int));
        let next = Ghost(s@.subrange(start as int, i + 1));
        proof {
            assert(next@.drop_last() =~= prefix@);
        }
        if !('0' <= c && c <= '9') {
            assert(!('0' <= d[i - start] <= '9'));
            return None;
        }
        let digit = (c as u32 - 48) as u64;
        if value > (u64::MAX - digit) / 10 {
            proof {
                assert(digits_value(next@) > u64::MAX) by (nonlinear_arith)
                    requires
                        digits_value(next@) == 10 * value + digit,
                        value > (u64::MAX - digit) / 10,
                        digit <= 9,
                ;
                assert(d.subrange(0, i + 1 - start) =~= next@);
                assert(all_digits(next@));
                lemma_digits_value_grows(d, (i + 1 - start) as nat);
                assert(all_digits(d) ==> digits_value(d) > u64::MAX);
            }
            return None;
        }
        value = value * 10 + digit;
        i = i + 1;
        proof {
            assert(all_digits(next@));
        }
    }
    assert(s@.subrange(start as int, n as int) =~= d);
    Some(value)
}

/// A longer digit string is worth no less than its prefix.
proof fn lemma_digits_value_grows(d: Seq<char>, k: nat)
    requires
        k <= d.len(),
        all_digits(d.subrange(0, k as int)),
    ensures
        all_digits(d) ==> digits_value(d) >= digits_value(d.subrange(0, k as int)),
    decreases d.len(),
{
    if d.len() > k {
        let p = d.drop_last();
        assert(p.subrange(0, k as int) =~= d.subrange(0, k as int));
        lemma_digits_value_grows(p, k);
        if all_digits(d) {
            assert(all_digits(p));
            assert('0' <= d[d.len() - 1] <= '9');
        }
    } else {
        assert(d.subrange(0, k as int) =~= d);
    }
}

/// The number of rows that a command tag reports: the tag's last word read
/// as an unsigned integer, or zero when that word is not one.
pub fn rows_from_tag(tag: &str) -> (r: u64)
    ensures
        r as nat == tag_rows(tag@),
{
    let chars = str_chars(tag);
    let n = chars.len();
    let mut k = n;
    while k > 0 && chars[k - 1] != ' '
        invariant
            k <= n == chars@.len(),
            chars@ == tag@,
            forall|j: int| k <= j < n ==> chars@[j] != ' ',
        decreases k,
    {
        k = k - 1;
    }
    proof {
        lemma_last_word_suffix(tag@, k as int);
    }
    let mut word: Vec<char> = Vec::new();
    let mut i = k;
    while i < n
        invariant
            k <= i <= n == chars@.len(),
            word@ == chars@.subrange(k as int, i as int),
        decreases n - i,
    {
        word.push(chars[i]);
        i = i + 1;
        assert(word@ =~= chars@.subrange(k as int, i as int));
    }
    match parse_u64(word.as_slice()) {
        Some(v) => v,
        None => 0,
    }
}

/// Reads the number of affected rows from a `CommandComplete` message; a
/// tag that is not valid UTF-8 is an error.
pub fn extract_row_affected(body: &CommandCompleteBody) -> (r: Result<u64, SqlError>)
    ensures
        match command_tag_text(*body) {
            Some(t) => r matches Ok(n) && n as nat == tag_rows(t),
            None => r matches Err(e) && e is Protocol,
        },
{
    match command_tag(body) {
        Ok(tag) => Ok(rows_from_tag(tag.as_str())),
        Err(m) => Err(SqlError::Protocol(m)),
    }
}

/// Returns the standard type whose codec binds parameters of `type_` in
/// `mode`: the MySQL mode aliases some `sys` types, the other modes none.
pub fn param_codec_alias_for_mode(mode: CompatibleMode, type_: &Type) -> (r: Option<Type>)
    ensures
        mode == CompatibleMode::Mysql ==> is_lookup_result(r, param_codec_alias(type_@)),
        mode != CompatibleMode::Mysql ==> r is None,
{
    match mode {
        CompatibleMode::Mysql => param_codec_alias_for_mysql_type(type_),
        CompatibleMode::Pg | CompatibleMode::Oracle | CompatibleMode::SqlServer => None,
    }
}

/// A parameter encoded for a `Bind` message: its format code and its bytes,
/// or `None` for NULL.
#[derive(Debug)]
pub struct EncodedParam {
    /// The format code: 0 for text, 1 for binary.
    pub format: i16,
    /// The encoded bytes, or `None` for NULL.
    pub value: Option<Vec<u8>>,
}

/// The format code of a format.
pub fn format_code(format: Format) -> (r: i16)
    ensures
        r == (if format == Format::Text { 0i16 } else { 1i16 }),
{
    match format {
        Format::Text => 0,
        Format::Binary => 1,
    }
}

/// The bytes of an encoded value, or `None` when it is NULL.
pub fn value_bytes(is_null: IsNull, buf: bytes::BytesMut) -> (r: Option<Vec<u8>>)
    ensures
        is_null == IsNull::No ==> (r matches Some(v) && v@ == buffer_bytes(buf)),
        is_null == IsNull::Yes ==> r is None,
{
    match is_null {
        IsNull::No => Some(buffer_to_vec(&buf)),
        IsNull::Yes => None,
    }
}

/// Whether `p` is `param` encoded as a value of the type `ty`: the format
/// code of the format that `param` is sent in, and the bytes that `to_sql`
/// writes for it, or none for `NULL`.
pub open spec fn param_encoded<T: ToSql>(param: T, ty: TypeView, p: EncodedParam) -> bool {
    &&& p.format == format_code_of(param.format_for(ty))
    &&& match p.value {
        Some(w) => param.encodes(ty, w@, IsNull::No),
        None => param.encodes(ty, Seq::empty(), IsNull::Yes),
    }
}

/// The format code of a format.
pub open spec fn format_code_of(format: Format) -> i16 {
    if format == Format::Text {
        0
    } else {
        1
    }
}

/// Encodes `param` as a value of `type_`; a type that `T` does not accept is
/// a `WrongType` error.
pub fn encode_param_with_type<T: ToSql>(param: &T, type_: &Type) -> (r: Result<EncodedParam, SqlError>)
    requires
        param.encoded_len() <= isize::MAX,
    ensures
        !T::accepted(type_@) ==> (r matches Err(SqlError::WrongType(w)) && w.postgres_type() == type_@),
        T::accepted(type_@) ==> !(r matches Err(SqlError::WrongType(_))),
        r matches Ok(p) ==> param_encoded(*param, type_@, p),
{
    let mut value = new_buffer();
    let is_null = match param.to_sql_checked(type_, &mut value) {
        Ok(n) => n,
        Err(e) => return Err(e),
    };
    proof {
        let w = choose|w: Seq<u8>| buffer_bytes(value) == Seq::<u8>::empty() + w && param.encodes(type_@, w, is_null);
        assert(buffer_bytes(value) =~= w);
        if is_null == IsNull::Yes {
            assert(w =~= Seq::<u8>::empty());
        }
    }
    let format = format_code(param.encode_format(type_));
    Ok(EncodedParam { format, value: value_bytes(is_null, value) })
}

/// The outcome of encoding a parameter given the outcome under its declared
/// type (`first`) and, where there was a second try, the outcome under the
/// codec type (`second`): a success or an error other than a wrong type
/// from the first try stands; after a wrong type, a success or another error
/// from the second try stands, and a second wrong type, or no second try,
/// gives back the first wrong-type error.
pub open spec fn alias_result(
    first: Result<EncodedParam, SqlError>,
    second: Option<Result<EncodedParam, SqlError>>,
) -> Result<EncodedParam, SqlError> {
    match first {
        Err(SqlError::WrongType(w)) => match second {
            Some(Ok(p)) => Ok(p),
            Some(Err(e)) => if e is WrongType {
                Err(SqlError::WrongType(w))
            } else {
                Err(e)
            },
            None => Err(SqlError::WrongType(w)),
        },
        _ => first,
    }
}

/// Chooses the outcome of encoding a parameter from the outcome under its
/// declared type and, where there was one, the outcome under the codec type.
pub fn alias_outcome(
    first: Result<EncodedParam, SqlError>,
    second: Option<Result<EncodedParam, SqlError>>,
) -> (r: Result<EncodedParam, SqlError>)
    ensures
        r == alias_result(first, second),
{
    match first {
        Err(SqlError::WrongType(original_error)) => match second {
            Some(Ok(encoded)) => Ok(encoded),
            Some(Err(SqlError::WrongType(_))) => Err(SqlError::WrongType(original_error)),
            Some(Err(codec_error)) => Err(codec_error),
            None => Err(SqlError::WrongType(original_error)),
        },
        _ => first,
    }
}

/// Encodes `param` as a value of its declared type, or, when `T` does not
/// accept that type, of the codec type that the compatibility mode gives it.
/// When neither is accepted the error names the declared type. The codec
/// type is tried only after a wrong-type error, and `alias_outcome` decides
/// what comes back from the two tries.
pub fn encode_param_with_alias<T: ToSql>(param: &T, original_type: &Type, codec_type: Option<&Type>) -> (r: Result<EncodedParam, SqlError>)
    requires
        param.encoded_len() <= isize::MAX,
    ensures
        T::accepted(original_type@) ==> !(r matches Err(SqlError::WrongType(_))),
        !T::accepted(original_type@) && (codec_type matches Some(c) && T::accepted(c@)) ==> !(r matches Err(SqlError::WrongType(_))),
        !T::accepted(original_type@) && !(codec_type matches Some(c) && T::accepted(c@)) ==> (r matches Err(SqlError::WrongType(w)) && w.postgres_type() == original_type@),
        r matches Ok(p) ==> if T::accepted(original_type@) {
            param_encoded(*param, original_type@, p)
        } else {
            codec_type matches Some(c) && T::accepted(c@) && param_encoded(*param, c@, p)
        },
{
    let first = encode_param_with_type(param, original_type);
    let wrong_type = match &first {
        Err(SqlError::WrongType(_)) => true,
        _ => false,
    };
    let second = if wrong_type {
        match codec_type {
            Some(codec_type) => Some(encode_param_with_type(param, codec_type)),
            None => None,
        }
    } else {
        None
    };
    alias_outcome(first, second)
}

/// Appends the `Bind` message that binds the encoded `params` to the
/// statement `statement_name` in the portal `portal`, with all results in
/// binary; fails where a name holds a zero byte or a count or length does
/// not fit its field.
pub fn encode_bind_raw(statement_name: &str, params: &[EncodedParam], portal: &str, buf: &mut BytesMut) -> (r: Result<(), SqlError>)
    requires
        buffer_bytes(*old(buf)).len() + 13 + portal.spec_bytes().len() + statement_name.spec_bytes().len()
            + values_len(params@) <= isize::MAX,
    ensures
        r is Ok <==> bind_writable(portal.spec_bytes(), statement_name.spec_bytes(), params@),
        r is Ok ==> buffer_bytes(*final(buf)) == buffer_bytes(*old(buf)) + framed(
            0x42u8,
            bind_body(portal.spec_bytes(), statement_name.spec_bytes(), params@),
        ),
        r matches Err(e) ==> e is Protocol,
{
    match bind_message(portal, statement_name, params, buf) {
        Ok(()) => Ok(()),
        Err(m) => Err(SqlError::Protocol(m)),
    }
}

/// Appends the `Bind` message for `statement`, after checking that it is
/// given as many parameters as it takes.
pub fn encode_bind(statement: &Statement, params: &[EncodedParam], portal: &str, buf: &mut BytesMut) -> (r: Result<(), SqlError>)
    requires
        buffer_bytes(*old(buf)).len() + 13 + portal.spec_bytes().len() + encode_utf8(statement.spec_name()).len()
            + values_len(params@) <= isize::MAX,
    ensures
        params@.len() != statement.spec_params().len() ==> (r matches Err(SqlError::Parameters { given, expected })
            && given == params@.len() && expected == statement.spec_params().len() && buffer_bytes(*final(buf))
            == buffer_bytes(*old(buf))),
        params@.len() == statement.spec_params().len() ==> (r is Ok <==> bind_writable(
            portal.spec_bytes(),
            encode_utf8(statement.spec_name()),
            params@,
        )),
        params@.len() == statement.spec_params().len() && r is Err ==> r->Err_0 is Protocol,
        r is Ok ==> buffer_bytes(*final(buf)) == buffer_bytes(*old(buf)) + framed(
            0x42u8,
            bind_body(portal.spec_bytes(), encode_utf8(statement.spec_name()), params@),
        ),
{
    let expected = statement.params().len();
    if params.len() != expected {
        return Err(SqlError::Parameters { given: params.len(), expected });
    }
    encode_bind_raw(statement.name(), params, portal, buf)
}

/// The messages that run `statement` once with the encoded `params`:
/// `Bind` into the unnamed portal, `Execute` with no row limit, and `Sync`.
pub open spec fn run_messages(name: Seq<u8>, params: Seq<EncodedParam>) -> Seq<u8> {
    framed(0x42u8, bind_body(Seq::empty(), name, params)) + framed(0x45u8, execute_body(Seq::empty(), 0))
        + sync_message()
}

/// Encodes the messages that run `statement` once with the encoded
/// `params`.
pub fn encode(statement: &Statement, params: &[EncodedParam]) -> (r: Result<Vec<u8>, SqlError>)
    requires
        30 + encode_utf8(statement.spec_name()).len() + values_len(params@) <= isize::MAX,
    ensures
        params@.len() != statement.spec_params().len() ==> (r matches Err(SqlError::Parameters { given, expected })
            && given == params@.len() && expected == statement.spec_params().len()),
        params@.len() == statement.spec_params().len() && bind_writable(
            Seq::empty(),
            encode_utf8(statement.spec_name()),
            params@,
        ) ==> (r matches Ok(v) && v@ == run_messages(encode_utf8(statement.spec_name()), params@)),
        params@.len() == statement.spec_params().len() && !bind_writable(
            Seq::empty(),
            encode_utf8(statement.spec_name()),
            params@,
        ) ==> r matches Err(SqlError::Protocol(_)),
{
    let mut buf = new_buffer();
    proof {
        reveal_strlit("");
        assert(""@ =~= Seq::<char>::empty());
        assert(encode_utf8(Seq::<char>::empty()) =~= Seq::<u8>::empty());
    }
    match encode_bind(statement, params, "", &mut buf) {
        Err(e) => {
            return Err(e);
        },
        Ok(()) => {},
    }
    proof {
        lemma_bind_body_len(Seq::empty(), encode_utf8(statement.spec_name()), params@);
        lemma_be_bytes_len((bind_body(Seq::empty(), encode_utf8(statement.spec_name()), params@).len() + 4) as nat, 4);
        lemma_signed_bytes_len(0, 4);
        lemma_be_bytes_len((execute_body(Seq::empty(), 0).len() + 4) as nat, 4);
    }
    match execute_message("", 0, &mut buf) {
        Err(m) => {
            return Err(SqlError::Protocol(m));
        },
        Ok(()) => {},
    }
    sync_message_into(&mut buf);
    let bytes = buffer_to_vec(&buf);
    proof {
        assert(bytes@ =~= run_messages(encode_utf8(statement.spec_name()), params@));
    }
    Ok(bytes)
}

/// The oids of `types`, in order.
pub open spec fn type_oids(types: Seq<Type>) -> Seq<u32> {
    types.map_values(|t: Type| t@.oid)
}

/// The messages that run `query` once with parameters of the given types:
/// `Parse` of the unnamed statement, `Bind` of the encoded parameters,
/// `Describe` of the statement, `Execute` with no row limit, and `Sync`.
pub open spec fn typed_messages(query: Seq<u8>, oids: Seq<u32>, params: Seq<EncodedParam>) -> Seq<u8> {
    framed(0x50u8, parse_body(Seq::empty(), query, oids)) + framed(
        0x42u8,
        bind_body(Seq::empty(), Seq::empty(), params),
    ) + framed(0x44u8, describe_body(0x53u8, Seq::empty())) + framed(0x45u8, execute_body(Seq::empty(), 0))
        + sync_message()
}

/// Encodes the messages that run `query` once, unprepared, with the
/// parameter types `types` and the encoded `params`.
pub fn encode_typed(query: &str, types: &[Type], params: &[EncodedParam]) -> (r: Result<Vec<u8>, SqlError>)
    requires
        60 + query.spec_bytes().len() + 4 * types@.len() + values_len(params@) <= isize::MAX,
    ensures
        parse_writable(Seq::empty(), query.spec_bytes(), type_oids(types@)) && bind_writable(
            Seq::empty(),
            Seq::empty(),
            params@,
        ) ==> (r matches Ok(v) && v@ == typed_messages(query.spec_bytes(), type_oids(types@), params@)),
        !(parse_writable(Seq::empty(), query.spec_bytes(), type_oids(types@)) && bind_writable(
            Seq::empty(),
            Seq::empty(),
            params@,
        )) ==> r matches Err(SqlError::Protocol(_)),
{
    let mut oids: Vec<u32> = Vec::new();
    let mut i: usize = 0;
    while i < types.len()
        invariant
            i <= types@.len(),
            oids@ == type_oids(types@).take(i as int),
        decreases types.len() - i,
    {
        oids.push(types[i].oid());
        i = i + 1;
        proof {
            assert(oids@ =~= type_oids(types@).take(i as int));
        }
    }
    proof {
        assert(oids@ =~= type_oids(types@));
        reveal_strlit("");
        assert(encode_utf8(""@) =~= Seq::<u8>::empty());
        lemma_oid_list_len(oids@);
        lemma_be_bytes_len(oids@.len(), 2);
        lemma_be_bytes_len((parse_body(Seq::empty(), query.spec_bytes(), oids@).len() + 4) as nat, 4);
    }
    let mut buf = new_buffer();
    match parse_message("", query, oids.as_slice(), &mut buf) {
        Err(m) => {
            return Err(SqlError::Protocol(m));
        },
        Ok(()) => {},
    }
    match encode_bind_raw("", params, "", &mut buf) {
        Err(e) => {
            return Err(e);
        },
        Ok(()) => {},
    }
    proof {
        lemma_bind_body_len(Seq::empty(), Seq::empty(), params@);
        lemma_be_bytes_len((bind_body(Seq::empty(), Seq::empty(), params@).len() + 4) as nat, 4);
        lemma_be_bytes_len((describe_body(0x53u8, Seq::empty()).len() + 4) as nat, 4);
        lemma_signed_bytes_len(0, 4);
        lemma_be_bytes_len((execute_body(Seq::empty(), 0).len() + 4) as nat, 4);
    }
    match describe_message(0x53u8, "", &mut buf) {
        Err(m) => {
            return Err(SqlError::Protocol(m));
        },
        Ok(()) => {},
    }
    match execute_message("", 0, &mut buf) {
        Err(m) => {
            return Err(SqlError::Protocol(m));
        },
        Ok(()) => {},
    }
    sync_message_into(&mut buf);
    let bytes = buffer_to_vec(&buf);
    proof {
        assert(bytes@ =~= typed_messages(query.spec_bytes(), type_oids(types@), params@));
    }
    Ok(bytes)
}

/// A backend message that answers a typed query, with the row count of a
/// command tag already read.
#[derive(Debug, Copy, Clone, PartialEq, Eq, Structural)]
pub enum TypedResponse {
    ParseComplete,
    BindComplete,
    ParameterDescription,
    RowDescription,
    NoData,
    DataRow,
    CommandComplete { rows: u64 },
    EmptyQueryResponse,
    PortalSuspended,
    ReadyForQuery,
    /// Any other message.
    Other,
}

/// What the client does after a response to a typed statement.
#[derive(Debug, Copy, Clone, PartialEq, Eq, Structural)]
pub enum ExecuteStep {
    /// Waits for the next message, with the row count so far.
    Continue(u64),
    /// Returns the row count.
    Done(u64),
    /// Fails: the message was not expected.
    Unexpected,
}

/// Takes one response of a typed execution: a command tag sets the row
/// count, no data or an empty query resets it, and the server's readiness
/// ends the exchange with the count.
pub fn execute_typed_step(rows: u64, response: TypedResponse) -> (r: ExecuteStep)
    ensures
        r == (match response {
            TypedResponse::ParseComplete | TypedResponse::BindComplete | TypedResponse::ParameterDescription
            | TypedResponse::RowDescription | TypedResponse::DataRow => ExecuteStep::Continue(rows),
            TypedResponse::NoData | TypedResponse::EmptyQueryResponse => ExecuteStep::Continue(0),
            TypedResponse::CommandComplete { rows: n } => ExecuteStep::Continue(n),
            TypedResponse::ReadyForQuery => ExecuteStep::Done(rows),
            TypedResponse::PortalSuspended | TypedResponse::Other => ExecuteStep::Unexpected,
        }),
{
    match response {
        TypedResponse::ParseComplete | TypedResponse::BindComplete | TypedResponse::ParameterDescription
        | TypedResponse::RowDescription | TypedResponse::DataRow => ExecuteStep::Continue(rows),
        TypedResponse::NoData | TypedResponse::EmptyQueryResponse => ExecuteStep::Continue(0),
        TypedResponse::CommandComplete { rows: n } => ExecuteStep::Continue(n),
        TypedResponse::ReadyForQuery => ExecuteStep::Done(rows),
        TypedResponse::PortalSuspended | TypedResponse::Other => ExecuteStep::Unexpected,
    }
}

/// What the client does after a response to a typed query.
#[derive(Debug, Copy, Clone, PartialEq, Eq, Structural)]
pub enum QueryStep {
    /// Waits for the next message.
    Continue,
    /// Returns a stream of no columns: the query gives no data.
    NoColumns,
    /// Reads the columns of the row description and returns a stream.
    Columns,
    /// Fails: the message was not expected.
    Unexpected,
}

/// Takes one response of a typed query, up to its row description.
pub fn query_typed_step(response: TypedResponse) -> (r: QueryStep)
    ensures
        r == (match response {
            TypedResponse::ParseComplete | TypedResponse::BindComplete
            | TypedResponse::ParameterDescription => QueryStep::Continue,
            TypedResponse::NoData => QueryStep::NoColumns,
            TypedResponse::RowDescription => QueryStep::Columns,
            _ => QueryStep::Unexpected,
        }),
{
    match response {
        TypedResponse::ParseComplete | TypedResponse::BindComplete
        | TypedResponse::ParameterDescription => QueryStep::Continue,
        TypedResponse::NoData => QueryStep::NoColumns,
        TypedResponse::RowDescription => QueryStep::Columns,
        _ => QueryStep::Unexpected,
    }
}

/// Takes one response of a prepared statement's execution, after its
/// `BindComplete`: a command tag sets the row count, an empty query resets
/// it, and the server's readiness ends the exchange with the count.
pub fn execute_step(rows: u64, response: TypedResponse) -> (r: ExecuteStep)
    ensures
        r == (match response {
            TypedResponse::DataRow => ExecuteStep::Continue(rows),
            TypedResponse::CommandComplete { rows: n } => ExecuteStep::Continue(n),
            TypedResponse::EmptyQueryResponse => ExecuteStep::Continue(0),
            TypedResponse::ReadyForQuery => ExecuteStep::Done(rows),
            _ => ExecuteStep::Unexpected,
        }),
{
    match response {
        TypedResponse::DataRow => ExecuteStep::Continue(rows),
        TypedResponse::CommandComplete { rows: n } => ExecuteStep::Continue(n),
        TypedResponse::EmptyQueryResponse => ExecuteStep::Continue(0),
        TypedResponse::ReadyForQuery => ExecuteStep::Done(rows),
        _ => ExecuteStep::Unexpected,
    }
}

/// The messages that fetch up to `max_rows` more rows from a portal:
/// `Execute` and `Sync`.
pub open spec fn portal_messages(portal: Seq<u8>, max_rows: i32) -> Seq<u8> {
    framed(0x45u8, execute_body(portal, max_rows)) + sync_message()
}

/// Encodes the messages that fetch up to `max_rows` more rows from the
/// portal `portal_name`.
pub fn encode_portal(portal_name: &str, max_rows: i32) -> (r: Result<Vec<u8>, SqlError>)
    requires
        20 + portal_name.spec_bytes().len() <= isize::MAX,
    ensures
        crate::messages::execute_writable(portal_name.spec_bytes(), max_rows) ==> (r matches Ok(v) && v@
            == portal_messages(portal_name.spec_bytes(), max_rows)),
        !crate::messages::execute_writable(portal_name.spec_bytes(), max_rows) ==> r matches Err(
            SqlError::Protocol(_),
        ),
{
    let mut buf = new_buffer();
    match execute_message(portal_name, max_rows, &mut buf) {
        Err(m) => {
            return Err(SqlError::Protocol(m));
        },
        Ok(()) => {},
    }
    proof {
        lemma_signed_bytes_len(max_rows as int, 4);
        lemma_be_bytes_len((execute_body(portal_name.spec_bytes(), max_rows).len() + 4) as nat, 4);
    }
    sync_message_into(&mut buf);
    let bytes = buffer_to_vec(&buf);
    proof {
        assert(bytes@ =~= portal_messages(portal_name.spec_bytes(), max_rows));
    }
    Ok(bytes)
}

/// The messages that close the prepared statement `name` on the server:
/// `Close` for the statement, then `Sync`.
pub open spec fn close_messages(name: Seq<u8>) -> Seq<u8> {
    framed(0x43u8, describe_body(0x53u8, name)) + sync_message()
}

/// Encodes what a prepared statement sends when it is dropped: nothing for
/// the unnamed statement, which needs no closing, and the messages that
/// close it for a named one.
pub fn encode_close(name: &str) -> (r: Result<Option<Vec<u8>>, SqlError>)
    requires
        20 + name.spec_bytes().len() <= isize::MAX,
    ensures
        name@.len() == 0 ==> r == Ok::<Option<Vec<u8>>, SqlError>(None),
        name@.len() > 0 && describe_writable(0x53u8, name.spec_bytes()) ==> (r matches Ok(Some(v)) && v@
            == close_messages(name.spec_bytes())),
        name@.len() > 0 && !describe_writable(0x53u8, name.spec_bytes()) ==> r matches Err(
            SqlError::Protocol(_),
        ),
{
    if name.unicode_len() == 0 {
        return Ok(None);
    }
    let mut buf = new_buffer();
    match close_message(0x53u8, name, &mut buf) {
        Err(m) => {
            return Err(SqlError::Protocol(m));
        },
        Ok(()) => {},
    }
    proof {
        lemma_be_bytes_len((describe_body(0x53u8, name.spec_bytes()).len() + 4) as nat, 4);
    }
    sync_message_into(&mut buf);
    let bytes = buffer_to_vec(&buf);
    proof {
        assert(bytes@ =~= close_messages(name.spec_bytes()));
    }
    Ok(Some(bytes))
}

/// What a stream of table rows does with one backend message.
#[derive(Debug, Copy, Clone, PartialEq, Eq, Structural)]
pub enum RowStreamStep {
    /// Hands out the row that the message carries.
    Row,
    /// Reads the next message.
    Continue,
    /// Ends the stream: the server is ready for the next query.
    End,
    /// Fails: the message was not expected.
    Unexpected,
}

/// A stream of table rows: the statement that describes its columns, and
/// the row count of the command tag once the stream has read it.
pub struct RowStream {
    statement: Statement,
    pending: Option<u64>,
    ended: bool,
}

impl RowStream {
    /// The statement whose rows the stream reads.
    pub closed spec fn spec_statement(&self) -> Statement {
        self.statement
    }

    /// The row count of the last command tag that the stream has read, if
    /// any.
    pub closed spec fn spec_pending(&self) -> Option<u64> {
        self.pending
    }

    /// Whether the stream has been exhausted: the server said it is ready.
    pub closed spec fn spec_ended(&self) -> bool {
        self.ended
    }

    /// The number of rows affected that the stream reports: none until it
    /// has been exhausted, then the count of the last command tag.
    pub open spec fn spec_rows_affected(&self) -> Option<u64> {
        if self.spec_ended() {
            self.spec_pending()
        } else {
            None
        }
    }

    /// A stream of the rows of `statement` that has read no message yet.
    pub fn new(statement: Statement) -> (r: RowStream)
        ensures
            r.spec_statement() == statement,
            r.spec_pending() is None,
            !r.spec_ended(),
    {
        RowStream { statement, pending: None, ended: false }
    }

    /// The statement that describes the rows.
    pub fn statement(&self) -> (r: &Statement)
        ensures
            *r == self.spec_statement(),
    {
        &self.statement
    }

    /// Takes one backend message: a data row is handed out, a command tag
    /// records the row count, an empty query or a suspended portal is
    /// passed over, and the server's readiness ends the stream.
    pub fn on_response(&mut self, response: TypedResponse) -> (r: RowStreamStep)
        ensures
            final(self).spec_statement() == old(self).spec_statement(),
            r == (match response {
                TypedResponse::DataRow => RowStreamStep::Row,
                TypedResponse::CommandComplete { .. } | TypedResponse::EmptyQueryResponse
                | TypedResponse::PortalSuspended => RowStreamStep::Continue,
                TypedResponse::ReadyForQuery => RowStreamStep::End,
                _ => RowStreamStep::Unexpected,
            }),
            final(self).spec_pending() == (match response {
                TypedResponse::CommandComplete { rows } => Some(rows),
                _ => old(self).spec_pending(),
            }),
            final(self).spec_ended() == (old(self).spec_ended() || response == TypedResponse::ReadyForQuery),
    {
        match response {
            TypedResponse::DataRow => RowStreamStep::Row,
            TypedResponse::CommandComplete { rows } => {
                self.pending = Some(rows);
                RowStreamStep::Continue
            },
            TypedResponse::EmptyQueryResponse | TypedResponse::PortalSuspended => RowStreamStep::Continue,
            TypedResponse::ReadyForQuery => {
                self.ended = true;
                RowStreamStep::End
            },
            _ => RowStreamStep::Unexpected,
        }
    }

    /// Returns the number of rows affected by the query.
    ///
    /// This function returns `None` until the stream has been exhausted.
    pub fn rows_affected(&self) -> (r: Option<u64>)
        ensures
            r == self.spec_rows_affected(),
    {
        if self.ended {
            self.pending
        } else {
            None
        }
    }
}

} // verus!
