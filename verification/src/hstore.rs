//! The codec of `HSTORE` values as maps from text keys to optional text
//! values.

use vstd::prelude::*;
use vstd::std_specs::hash::{builds_valid_hashers, obeys_key_model};
use vstd::string::StringSliceAdditionalSpecFns;
use bytes::BytesMut;
use fallible_iterator::FallibleIterator;
use postgres_protocol::types;
use std::collections::HashMap;
use std::hash::BuildHasher;
use crate::codec::{Format, FromSql, IsNull, ToSql};
use crate::error::SqlError;
use crate::types::{Type, TypeView, str_equal};
use crate::wire::{be_signed, buffer_bytes, buffer_len, signed_bytes, lemma_signed_bytes_len};
use crate::protocol::utf8_decoding;
use vstd::utf8::encode_utf8;

verus! {

/// The `remaining` entries that `HstoreEntries` reads from `buf`: each a
/// 32-bit key length that is not negative, the key as UTF-8, then a 32-bit
/// value length, negative for `NULL`, and the value as UTF-8; after the
/// last entry nothing may be left. `None` where a read fails.
pub open spec fn hstore_entries_from(buf: Seq<u8>, remaining: nat) -> Option<Seq<(Seq<char>, Option<Seq<char>>)>>
    decreases remaining,
{
    if remaining == 0 {
        if buf.len() == 0 {
            Some(Seq::empty())
        } else {
            None
        }
    } else if buf.len() < 4 {
        None
    } else {
        let klen = be_signed(buf.subrange(0, 4));
        if klen < 0 || buf.len() - 4 < klen {
            None
        } else {
            let after_key = buf.subrange(4 + klen, buf.len() as int);
            match utf8_decoding(buf.subrange(4, 4 + klen)) {
                None => None,
                Some(key) => if after_key.len() < 4 {
                    None
                } else {
                    let vlen = be_signed(after_key.subrange(0, 4));
                    let (value, rest): (Option<Option<Seq<char>>>, Seq<u8>) = if vlen < 0 {
                        (Some(None), after_key.subrange(4, after_key.len() as int))
                    } else if after_key.len() - 4 < vlen {
                        (None, Seq::empty())
                    } else {
                        (
                            match utf8_decoding(after_key.subrange(4, 4 + vlen)) {
                                Some(v) => Some(Some(v)),
                                None => None,
                            },
                            after_key.subrange(4 + vlen, after_key.len() as int),
                        )
                    };
                    match value {
                        None => None,
                        Some(v) => match hstore_entries_from(rest, (remaining - 1) as nat) {
                            None => None,
                            Some(tail) => Some(seq![(key, v)] + tail),
                        },
                    }
                },
            }
        }
    }
}

/// What `postgres_protocol::types::hstore_from_sql` and the entries that it
/// hands out read from `raw`: a 32-bit entry count that is not negative,
/// then that many entries, each key with its value (`None` for `NULL`), in
/// the order of the payload; `None` where the payload is not well formed.
pub open spec fn hstore_layout(raw: Seq<u8>) -> Option<Seq<(Seq<char>, Option<Seq<char>>)>> {
    if raw.len() < 4 {
        None
    } else {
        let count = be_signed(raw.subrange(0, 4));
        if count < 0 {
            None
        } else {
            hstore_entries_from(raw.subrange(4, raw.len() as int), count as nat)
        }
    }
}

/// The text values of a sequence of entries.
pub open spec fn entries_view(v: Seq<(&str, Option<&str>)>) -> Seq<(Seq<char>, Option<Seq<char>>)> {
    v.map_values(
        |e: (&str, Option<&str>)|
            (
                e.0@,
                match e.1 {
                    Some(s) => Some(s@),
                    None => None,
                },
            ),
    )
}

/// The text of an optional value.
pub open spec fn value_view(v: Option<String>) -> Option<Seq<char>> {
    match v {
        Some(s) => Some(s@),
        None => None,
    }
}

/// Calls `postgres_protocol::types::hstore_from_sql` and reads out every
/// entry; the first error, of the header or of an entry, is returned.
#[verifier::external_body]
fn hstore_entries<'a>(raw: &'a [u8]) -> (r: Result<Vec<(&'a str, Option<&'a str>)>, String>)
    ensures
        match r {
            Ok(v) => hstore_layout(raw@) == Some(entries_view(v@)),
            Err(_) => hstore_layout(raw@) is None,
        },
{
    match types::hstore_from_sql(raw) {
        Ok(entries) => entries.collect().map_err(|e| e.to_string()),
        Err(e) => Err(e.to_string()),
    }
}

/// Whether the map `m` holds the entries `e`: every key of `e` is a key of
/// `m`, and each key of `m` is one of `e`, whose value it holds.
pub open spec fn holds_entries(
    m: Map<String, Option<String>>,
    e: Seq<(Seq<char>, Option<Seq<char>>)>,
) -> bool {
    &&& forall|i: int|
        #![trigger e[i]]
        0 <= i < e.len() ==> exists|k: String| #[trigger] m.contains_key(k) && k@ == e[i].0
    &&& forall|k: String|
        #[trigger] m.contains_key(k) ==> exists|i: int|
            0 <= i < e.len() && e[i].0 == k@ && #[trigger] e[i].1 == value_view(m[k])
}

/// Inserting the `i`th entry keeps a map holding the entries before it
/// holding the entries up to it.
proof fn lemma_holds_one_more(
    before: Map<String, Option<String>>,
    e: Seq<(Seq<char>, Option<Seq<char>>)>,
    i: int,
    key: String,
    value: Option<String>,
)
    requires
        0 <= i < e.len(),
        holds_entries(before, e.take(i)),
        key@ == e[i].0,
        value_view(value) == e[i].1,
    ensures
        holds_entries(before.insert(key, value), e.take(i + 1)),
{
    let m = before.insert(key, value);
    let t = e.take(i + 1);
    let p = e.take(i);
    assert(t[i] == e[i]);
    assert forall|j: int| #![trigger t[j]] 0 <= j < t.len() implies exists|kk: String|
        #[trigger] m.contains_key(kk) && kk@ == t[j].0 by {
        if j == i {
            assert(m.contains_key(key));
        } else {
            assert(p[j] == t[j]);
            let kk = choose|kk: String| #[trigger] before.contains_key(kk) && kk@ == p[j].0;
            assert(m.contains_key(kk));
        }
    }
    assert forall|kk: String| #[trigger] m.contains_key(kk) implies exists|j: int|
        0 <= j < t.len() && t[j].0 == kk@ && #[trigger] t[j].1 == value_view(m[kk]) by {
        if kk == key {
            assert(t[i].0 == kk@ && t[i].1 == value_view(m[kk]));
        } else {
            assert(before.contains_key(kk));
            let j = choose|j: int| 0 <= j < p.len() && p[j].0 == kk@ && #[trigger] p[j].1 == value_view(before[kk]);
            assert(t[j] == p[j]);
        }
    }
}

/// The types whose values are `HSTORE` maps.
pub open spec fn hstore_accepted(ty: TypeView) -> bool {
    ty.name == "hstore"@
}

impl<'a, S: Default + BuildHasher> FromSql<'a> for HashMap<String, Option<String>, S> {
    open spec fn accepted(ty: TypeView) -> bool {
        hstore_accepted(ty)
    }

    open spec fn decodes(ty: TypeView, raw: Option<Seq<u8>>, v: Self) -> bool {
        raw matches Some(b) && hstore_layout(b) is Some && (obeys_key_model::<String>()
            && builds_valid_hashers::<S>() ==> holds_entries(v@, hstore_layout(b)->0))
    }

    open spec fn decodes_ok(ty: TypeView, raw: Seq<u8>) -> bool {
        hstore_layout(raw) is Some
    }

    /// Reads the entries of the payload into a map; where a key occurs
    /// more than once, the later entry replaces the earlier.
    fn from_sql(ty: &Type, raw: &'a [u8]) -> (r: Result<HashMap<String, Option<String>, S>, SqlError>)
        ensures
            r is Ok <==> hstore_layout(raw@) is Some,
            r is Err ==> r matches Err(SqlError::Protocol(_)),
            r matches Ok(m) ==> (obeys_key_model::<String>() && builds_valid_hashers::<S>() ==> holds_entries(
                m@,
                hstore_layout(raw@)->0,
            )),
    {
        let entries = match hstore_entries(raw) {
            Ok(v) => v,
            Err(m) => {
                return Err(SqlError::Protocol(m));
            },
        };
        let ghost e = entries_view(entries@);
        let mut map: HashMap<String, Option<String>, S> = HashMap::default();
        let n = entries.len();
        let mut i: usize = 0;
        while i < n
            invariant
                i <= n == entries.len(),
                e == entries_view(entries@),
                hstore_layout(raw@) == Some(e),
                obeys_key_model::<String>() && builds_valid_hashers::<S>() ==> holds_entries(
                    map@,
                    e.take(i as int),
                ),
            decreases n - i,
        {
            let (k, v) = entries[i];
            let value: Option<String> = match v {
                Some(s) => Some(s.to_owned()),
                None => None,
            };
            let key = k.to_owned();
            let ghost before = map@;
            map.insert(key, value);
            proof {
                if obeys_key_model::<String>() && builds_valid_hashers::<S>() {
                    lemma_holds_one_more(before, e, i as int, key, value);
                }
            }
            i = i + 1;
        }
        proof {
            assert(e.take(n as int) =~= e);
        }
        Ok(map)
    }

    fn accepts(ty: &Type) -> (r: bool) {
        str_equal(ty.name(), "hstore")
    }
}

/// The bytes of the text of each entry.
pub open spec fn entries_bytes(v: Seq<(&str, Option<&str>)>) -> Seq<(Seq<u8>, Option<Seq<u8>>)> {
    v.map_values(
        |e: (&str, Option<&str>)|
            (
                e.0.spec_bytes(),
                match e.1 {
                    Some(s) => Some(s.spec_bytes()),
                    None => None,
                },
            ),
    )
}

/// The payload of one entry: the key, then the value or -1 for `NULL`,
/// each text after its length in bytes.
pub open spec fn entry_payload(k: Seq<u8>, v: Option<Seq<u8>>) -> Seq<u8> {
    signed_bytes(k.len() as int, 4) + k + match v {
        Some(b) => signed_bytes(b.len() as int, 4) + b,
        None => signed_bytes(-1, 4),
    }
}

/// The payloads of the entries `e`, one after the other.
pub open spec fn entries_payload(e: Seq<(Seq<u8>, Option<Seq<u8>>)>) -> Seq<u8>
    decreases e.len(),
{
    if e.len() == 0 {
        Seq::empty()
    } else {
        entries_payload(e.drop_last()) + entry_payload(e.last().0, e.last().1)
    }
}

/// The `HSTORE` payload of the entries `e`: their count, then the entries.
pub open spec fn hstore_payload(e: Seq<(Seq<u8>, Option<Seq<u8>>)>) -> Seq<u8> {
    signed_bytes(e.len() as int, 4) + entries_payload(e)
}

/// Text entries as the UTF-8 bytes that are written for them.
pub open spec fn text_entries_bytes(e: Seq<(Seq<char>, Option<Seq<char>>)>) -> Seq<(Seq<u8>, Option<Seq<u8>>)> {
    e.map_values(
        |x: (Seq<char>, Option<Seq<char>>)|
            (
                encode_utf8(x.0),
                match x.1 {
                    Some(v) => Some(encode_utf8(v)),
                    None => None,
                },
            ),
    )
}

/// The payloads of entries are the first entry's payload, then the rest's.
proof fn lemma_entries_payload_front(b: Seq<(Seq<u8>, Option<Seq<u8>>)>)
    requires
        b.len() > 0,
    ensures
        entries_payload(b) == entry_payload(b[0].0, b[0].1) + entries_payload(b.skip(1)),
    decreases b.len(),
{
    if b.len() == 1 {
        assert(b.drop_last() =~= Seq::<(Seq<u8>, Option<Seq<u8>>)>::empty());
        assert(b.skip(1) =~= Seq::<(Seq<u8>, Option<Seq<u8>>)>::empty());
        assert(entries_payload(b.skip(1)) =~= Seq::<u8>::empty());
        assert(entries_payload(b.drop_last()) =~= Seq::<u8>::empty());
        assert(entries_payload(b) =~= entry_payload(b[0].0, b[0].1) + entries_payload(b.skip(1)));
    } else {
        lemma_entries_payload_front(b.drop_last());
        assert(b.drop_last().skip(1) =~= b.skip(1).drop_last());
        assert(b.skip(1).last() == b.last());
        assert(entries_payload(b) =~= entry_payload(b[0].0, b[0].1) + entries_payload(b.skip(1)));
    }
}

/// The entries written for text entries read back as those entries.
proof fn lemma_entries_read_back(e: Seq<(Seq<char>, Option<Seq<char>>)>)
    requires
        hstore_writable(text_entries_bytes(e)),
    ensures
        hstore_entries_from(entries_payload(text_entries_bytes(e)), e.len()) == Some(e),
    decreases e.len(),
{
    broadcast use vstd::utf8::group_utf8_lib;

    let b = text_entries_bytes(e);
    if e.len() == 0 {
        assert(entries_payload(b) =~= Seq::<u8>::empty());
        assert(e =~= Seq::<(Seq<char>, Option<Seq<char>>)>::empty());
    } else {
        let r = e.skip(1);
        assert(text_entries_bytes(r) =~= b.skip(1));
        assert(hstore_writable(text_entries_bytes(r))) by {
            assert forall|i: int| 0 <= i < text_entries_bytes(r).len() implies #[trigger] text_entries_bytes(r)[i].0.len() <= i32::MAX
                && (text_entries_bytes(r)[i].1 matches Some(x) ==> x.len() <= i32::MAX) by {
                assert(text_entries_bytes(r)[i] == b[i + 1]);
            }
        }
        lemma_entries_read_back(r);
        lemma_entries_payload_front(b);
        let k = b[0].0;
        let v = b[0].1;
        assert(b[0].0.len() <= i32::MAX);
        crate::wire::lemma_pow256_small();
        crate::wire::lemma_signed_round_trip(k.len() as int, 4);
        let tail = entries_payload(b.skip(1));
        let buf = entries_payload(b);
        let after_key = buf.subrange(4 + k.len() as int, buf.len() as int);
        assert(buf.subrange(0, 4) =~= signed_bytes(k.len() as int, 4));
        assert(buf.subrange(4, 4 + k.len() as int) =~= k);
        assert(k == encode_utf8(e[0].0));
        match v {
            Some(x) => {
                crate::wire::lemma_signed_round_trip(x.len() as int, 4);
                assert(after_key =~= signed_bytes(x.len() as int, 4) + x + tail);
                assert(after_key.subrange(0, 4) =~= signed_bytes(x.len() as int, 4));
                assert(after_key.subrange(4, 4 + x.len() as int) =~= x);
                assert(after_key.subrange(4 + x.len() as int, after_key.len() as int) =~= tail);
                assert(e[0].1 matches Some(vt) && x == encode_utf8(vt));
            },
            None => {
                crate::wire::lemma_signed_round_trip(-1, 4);
                assert(after_key =~= signed_bytes(-1, 4) + tail);
                assert(after_key.subrange(0, 4) =~= signed_bytes(-1, 4));
                assert(after_key.subrange(4, after_key.len() as int) =~= tail);
            },
        }
        assert(seq![e[0]] + r =~= e);
    }
}

/// An `HSTORE` value is read back as it was written: the payload written
/// for text entries whose count and lengths fit in an `i32` reads as those
/// entries, in order.
pub proof fn law_hstore_round_trip(e: Seq<(Seq<char>, Option<Seq<char>>)>)
    requires
        hstore_writable(text_entries_bytes(e)),
    ensures
        hstore_layout(hstore_payload(text_entries_bytes(e))) == Some(e),
{
    let b = text_entries_bytes(e);
    lemma_entries_read_back(e);
    crate::wire::lemma_pow256_small();
    crate::wire::lemma_signed_round_trip(b.len() as int, 4);
    let raw = hstore_payload(b);
    assert(raw.subrange(0, 4) =~= signed_bytes(b.len() as int, 4));
    assert(raw.subrange(4, raw.len() as int) =~= entries_payload(b));
}

/// Whether the count of `e` and each length in it fit in an `i32`.
pub open spec fn hstore_writable(e: Seq<(Seq<u8>, Option<Seq<u8>>)>) -> bool {
    &&& e.len() <= i32::MAX
    &&& forall|i: int|
        0 <= i < e.len() ==> #[trigger] e[i].0.len() <= i32::MAX && (e[i].1 matches Some(b) ==> b.len()
            <= i32::MAX)
}

/// The length of the payload of one entry.
pub open spec fn entry_len(k: Seq<u8>, v: Option<Seq<u8>>) -> nat {
    8 + k.len() + match v {
        Some(b) => b.len(),
        None => 0,
    }
}

/// The length of the payloads of the entries `e`.
pub open spec fn entries_len(e: Seq<(Seq<u8>, Option<Seq<u8>>)>) -> nat
    decreases e.len(),
{
    if e.len() == 0 {
        0
    } else {
        entries_len(e.drop_last()) + entry_len(e.last().0, e.last().1)
    }
}

proof fn lemma_entries_payload_len(e: Seq<(Seq<u8>, Option<Seq<u8>>)>)
    ensures
        entries_payload(e).len() == entries_len(e),
    decreases e.len(),
{
    if e.len() > 0 {
        lemma_entries_payload_len(e.drop_last());
        lemma_signed_bytes_len(e.last().0.len() as int, 4);
        lemma_signed_bytes_len(-1, 4);
        if let Some(b) = e.last().1 {
            lemma_signed_bytes_len(b.len() as int, 4);
        }
    }
}

/// Calls `postgres_protocol::types::hstore_to_sql` on the entries, in
/// order, which appends their `HSTORE` payload, or fails when their count
/// or a length does not fit in an `i32`; what a failed call leaves in the
/// buffer is not stated.
#[verifier::external_body]
fn hstore_write(entries: &[(&str, Option<&str>)], out: &mut BytesMut) -> (r: Result<(), String>)
    requires
        buffer_bytes(*old(out)).len() + 4 + entries_len(entries_bytes(entries@)) <= isize::MAX,
    ensures
        r is Ok <==> hstore_writable(entries_bytes(entries@)),
        r is Ok ==> buffer_bytes(*final(out)) == buffer_bytes(*old(out)) + hstore_payload(
            entries_bytes(entries@),
        ),
{
    types::hstore_to_sql(entries.iter().copied(), out).map_err(|e| e.to_string())
}

/// Whether the `HSTORE` payload of the entries `e` can be written after
/// `used` bytes: its count and lengths fit in an `i32`, and the buffer stays
/// within `isize::MAX`.
pub open spec fn hstore_fits(e: Seq<(Seq<u8>, Option<Seq<u8>>)>, used: nat) -> bool {
    hstore_writable(e) && used + 4 + entries_len(e) <= isize::MAX
}

/// Whether `v` lists the entries of the map `m`, each once: every entry
/// of `v` is a key of `m` with its value, every key of `m` has an entry.
pub open spec fn lists_entries(m: Map<String, Option<String>>, v: Seq<(&str, Option<&str>)>) -> bool {
    &&& v.len() == m.dom().len()
    &&& holds_entries(m, entries_view(v))
}

/// Calls `HashMap::iter` and collects each key and value as texts, in the
/// order in which the map hands them out, which is not stated. Where the
/// key type and hasher follow vstd's model of hashing, that walk visits
/// each entry once, as vstd's specification of `HashMap::iter` states.
#[verifier::external_body]
fn map_entries<'m, H: BuildHasher>(m: &'m HashMap<String, Option<String>, H>) -> (r: Vec<(&'m str, Option<&'m str>)>)
    ensures
        obeys_key_model::<String>() && builds_valid_hashers::<H>() ==> lists_entries(m@, r@),
{
    m.iter().map(|(k, v)| (k.as_str(), v.as_deref())).collect()
}

/// The payloads of a prefix of entries are no longer than those of all.
proof fn lemma_entries_len_prefix(e: Seq<(Seq<u8>, Option<Seq<u8>>)>, k: int)
    requires
        0 <= k <= e.len(),
    ensures
        entries_len(e.take(k)) <= entries_len(e),
    decreases e.len(),
{
    if k == e.len() {
        assert(e.take(k) =~= e);
    } else {
        lemma_entries_len_prefix(e.drop_last(), k);
        assert(e.drop_last().take(k) =~= e.take(k));
    }
}

/// The length of the `HSTORE` payload of `entries`, or `None` where it
/// does not fit in a `usize`.
fn payload_len(entries: &[(&str, Option<&str>)]) -> (r: Option<usize>)
    ensures
        match r {
            Some(n) => n == 4 + entries_len(entries_bytes(entries@)),
            None => 4 + entries_len(entries_bytes(entries@)) > usize::MAX,
        },
{
    let ghost e = entries_bytes(entries@);
    let mut total: usize = 4;
    let mut i: usize = 0;
    while i < entries.len()
        invariant
            i <= entries.len(),
            e == entries_bytes(entries@),
            total == 4 + entries_len(e.take(i as int)),
        decreases entries.len() - i,
    {
        let (k, v) = entries[i];
        let vlen: usize = match v {
            Some(s) => s.as_bytes().len(),
            None => 0,
        };
        proof {
            assert(entries@[i as int] == (k, v));
            assert(e[i as int].0 == k.spec_bytes());
            match v {
                Some(t) => {
                    assert(e[i as int].1 == Some(t.spec_bytes()));
                    assert(vlen == t.spec_bytes().len());
                },
                None => {
                    assert(e[i as int].1 is None);
                    assert(vlen == 0);
                },
            }
            assert(entry_len(e[i as int].0, e[i as int].1) == k.spec_bytes().len() + vlen + 8);
            assert(e.take(i as int + 1).drop_last() =~= e.take(i as int));
            assert(e.take(i as int + 1).last() == e[i as int]);
            assert(entries_len(e.take(i as int + 1)) == total - 4 + k.spec_bytes().len() + vlen + 8);
            lemma_entries_len_prefix(e, i as int + 1);
        }
        let step = match k.as_bytes().len().checked_add(vlen) {
            Some(x) => x,
            None => {
                return None;
            },
        };
        let step = match step.checked_add(8) {
            Some(x) => x,
            None => {
                return None;
            },
        };
        total = match total.checked_add(step) {
            Some(x) => x,
            None => {
                return None;
            },
        };
        i = i + 1;
    }
    proof {
        assert(e.take(entries@.len() as int) =~= e);
    }
    Some(total)
}

impl<H: BuildHasher> ToSql for HashMap<String, Option<String>, H> {
    open spec fn accepted(ty: TypeView) -> bool {
        hstore_accepted(ty)
    }

    open spec fn encoded_len(&self) -> nat {
        0
    }

    open spec fn format_for(&self, ty: TypeView) -> Format {
        Format::Binary
    }

    open spec fn encodes(&self, ty: TypeView, w: Seq<u8>, null: IsNull) -> bool {
        null == IsNull::No && exists|v: Seq<(&str, Option<&str>)>|
            hstore_writable(entries_bytes(v)) && w == #[trigger] hstore_payload(entries_bytes(v)) && (obeys_key_model::<
            String,
        >() && builds_valid_hashers::<H>() ==> lists_entries(self@, v))
    }

    /// Writes the entries of the map, in the order in which it hands them
    /// out, as an `HSTORE` payload; exactly when the count or a length does
    /// not fit in an `i32`, or the payload does not fit in the buffer's
    /// room up to `isize::MAX`, the result is `ValueTooLarge`.
    fn to_sql(&self, ty: &Type, out: &mut BytesMut) -> (r: Result<IsNull, SqlError>)
        ensures
            exists|v: Seq<(&str, Option<&str>)>|
                (obeys_key_model::<String>() && builds_valid_hashers::<H>() ==> lists_entries(self@, v))
                && (r is Ok <==> hstore_fits(#[trigger] entries_bytes(v), buffer_bytes(*old(out)).len()))
                && (r is Ok ==> r == Ok::<IsNull, SqlError>(IsNull::No) && buffer_bytes(*final(out))
                    == buffer_bytes(*old(out)) + hstore_payload(entries_bytes(v)))
                && (r is Err ==> r matches Err(SqlError::ValueTooLarge)),
    {
        let entries = map_entries(self);
        let ghost e = entries_bytes(entries@);
        let ghost n0 = buffer_bytes(*out).len();
        let total = match payload_len(entries.as_slice()) {
            Some(n) => n,
            None => {
                assert(!hstore_fits(e, n0));
                return Err(SqlError::ValueTooLarge);
            },
        };
        let used = buffer_len(out);
        if total > (isize::MAX as usize) - used {
            assert(!hstore_fits(e, n0));
            return Err(SqlError::ValueTooLarge);
        }
        match hstore_write(entries.as_slice(), out) {
            Ok(()) => {
                assert(hstore_fits(e, n0));
                Ok(IsNull::No)
            },
            Err(_) => {
                assert(!hstore_fits(e, n0));
                Err(SqlError::ValueTooLarge)
            },
        }
    }

    fn accepts(ty: &Type) -> (r: bool) {
        str_equal(ty.name(), "hstore")
    }

    fn rust_name() -> &'static str {
        "std::collections::hash::map::HashMap<alloc::string::String, core::option::Option<alloc::string::String>>"
    }

    fn encode_format(&self, ty: &Type) -> (r: Format) {
        Format::Binary
    }
}

} // verus!
