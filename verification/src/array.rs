//! The conversions of one-dimensional arrays, whose elements convert as
//! the array type's member type.

use vstd::prelude::*;
use bytes::BytesMut;
use fallible_iterator::FallibleIterator;
use postgres_protocol::types::{array_from_sql, array_to_sql, ArrayDimension};
use crate::builtin::Builtin;
use crate::codec::{Format, FromSql, IsNull, ToSql, optional_bytes};
use crate::error::SqlError;
use crate::types::{Kind, KindView, Type, TypeView};
use crate::wire::{be_bytes, be_signed, buffer_bytes, signed_bytes};

verus! {

/// The number of elements that `k` more dimensions of `r` make with the
/// `acc` elements so far: each dimension a 32-bit length that is not
/// negative and a 32-bit lower bound, the product within an `i32`; `None`
/// where a read fails or the product does not fit.
pub open spec fn dims_elements(r: Seq<u8>, k: nat, acc: int) -> Option<int>
    decreases k,
{
    if k == 0 {
        Some(acc)
    } else if r.len() < 8 {
        None
    } else {
        let len = be_signed(r.subrange(0, 4));
        if len < 0 || acc * len > i32::MAX {
            None
        } else {
            dims_elements(r.subrange(8, r.len() as int), (k - 1) as nat, acc * len)
        }
    }
}

/// The `remaining` element payloads that `ArrayValues` reads from `buf`:
/// each a 32-bit length, negative for `NULL`, then that many bytes; after
/// the last nothing may be left. `None` where a read fails.
pub open spec fn values_from(buf: Seq<u8>, remaining: nat) -> Option<Seq<Option<Seq<u8>>>>
    decreases remaining,
{
    if remaining == 0 {
        if buf.len() == 0 {
            Some(Seq::empty())
        } else {
            None
        }
    } else if buf.len() < 4 {
        None
    } else {
        let len = be_signed(buf.subrange(0, 4));
        if len < 0 {
            match values_from(buf.subrange(4, buf.len() as int), (remaining - 1) as nat) {
                Some(rest) => Some(seq![None] + rest),
                None => None,
            }
        } else if buf.len() - 4 < len {
            None
        } else {
            match values_from(buf.subrange(4 + len, buf.len() as int), (remaining - 1) as nat) {
                Some(rest) => Some(seq![Some(buf.subrange(4, 4 + len))] + rest),
                None => None,
            }
        }
    }
}

/// What `postgres_protocol::types::array_from_sql` reads from `raw`, with
/// the dimensions counted and the values collected: a 32-bit dimension
/// count that is not negative, the null flag and the element type, then
/// the dimensions (`None` where they cannot be read); the count of
/// dimensions, and the element payloads in order (`None` for a `NULL`
/// element), themselves `None` where the element section is not well
/// formed. An array without dimensions has no elements.
pub open spec fn array_layout(raw: Seq<u8>) -> Option<(nat, Option<Seq<Option<Seq<u8>>>>)> {
    if raw.len() < 12 {
        None
    } else {
        let dims = be_signed(raw.subrange(0, 4));
        let r = raw.subrange(12, raw.len() as int);
        if dims < 0 {
            None
        } else {
            match dims_elements(r, dims as nat, 1) {
                None => None,
                Some(count) => Some((
                    dims as nat,
                    values_from(r.subrange(8 * dims, r.len() as int), if dims == 0 {
                        0
                    } else {
                        count as nat
                    }),
                )),
            }
        }
    }
}

/// Element payloads as byte sequences.
pub open spec fn elements_view(v: Seq<Option<&[u8]>>) -> Seq<Option<Seq<u8>>> {
    v.map_values(|e: Option<&[u8]>| optional_bytes(e))
}

/// Whether `v` holds, in order, the values that `T` reads from the elements
/// of the one-dimensional array payload `raw` of the array type `ty`, each
/// as the member type.
pub open spec fn elements_decoded<'a, T: FromSql<'a>>(ty: TypeView, raw: Seq<u8>, v: Seq<T>) -> bool {
    &&& ty.kind is Array
    &&& array_layout(raw) matches Some((n, Some(vals)))
    &&& n <= 1
    &&& v.len() == vals.len()
    &&& forall|i: int| 0 <= i < v.len() ==> #[trigger] T::decodes(*ty.kind->Array_0, vals[i], v[i])
}

/// Whether reading the array payload `raw` of the array type `ty` is owed
/// success: the payload is a well-formed array of at most one dimension,
/// with `len` elements where a length is asked for, and each element is a
/// non-`NULL` payload that the member type owes success on.
pub open spec fn elements_ok<'a, T: FromSql<'a>>(ty: TypeView, raw: Seq<u8>, len: Option<nat>) -> bool {
    &&& ty.kind is Array
    &&& array_layout(raw) matches Some((n, Some(vals)))
    &&& n <= 1
    &&& (len matches Some(l) ==> vals.len() == l)
    &&& forall|i: int|
        #![trigger vals[i]]
        0 <= i < vals.len() ==> (vals[i] matches Some(b) && T::decodes_ok(*ty.kind->Array_0, b))
}

/// Calls `postgres_protocol::types::array_from_sql` and reads the number of
/// dimensions and the element payloads of the array it returns. The
/// contract names what is read; the array wire format is the protocol
/// crate's matter.
#[verifier::external_body]
fn array_parts<'a>(raw: &'a [u8]) -> (r: Result<(usize, Result<Vec<Option<&'a [u8]>>, String>), String>)
    ensures
        match array_layout(raw@) {
            None => r is Err,
            Some((n, vals)) => r matches Ok((d, rest)) && d == n && match vals {
                None => rest is Err,
                Some(v) => rest matches Ok(items) && elements_view(items@) == v,
            },
        },
{
    let array = array_from_sql(raw).map_err(|e| e.to_string())?;
    let dims = array.dimensions().count().map_err(|e| e.to_string())?;
    let values = array.values().collect::<Vec<_>>().map_err(|e| e.to_string());
    Ok((dims, values))
}

/// The bytes that `postgres_protocol::types::array_to_sql` puts before the
/// elements of a one-dimensional array: the dimension count 1, the null
/// flag, the member oid, the length and the lower bound.
pub open spec fn array_header(has_nulls: bool, member_oid: u32, len: i32, lower_bound: i32) -> Seq<u8> {
    be_bytes(1, 4) + be_bytes(if has_nulls { 1 } else { 0 }, 4) + be_bytes(member_oid as nat, 4)
        + signed_bytes(len as int, 4) + signed_bytes(lower_bound as int, 4)
}

/// The element payloads that frames written for `nulls` and `ps` stand
/// for: `None` for a `NULL` element, else its payload.
pub open spec fn framed_values(nulls: Seq<IsNull>, ps: Seq<Seq<u8>>) -> Seq<Option<Seq<u8>>> {
    Seq::new(nulls.len(), |i: int| if nulls[i] == IsNull::Yes { None } else { Some(ps[i]) })
}

/// The frames of elements are the first element's frame, then the rest's.
proof fn lemma_element_frames_front(nulls: Seq<IsNull>, ps: Seq<Seq<u8>>)
    requires
        nulls.len() == ps.len(),
        nulls.len() > 0,
    ensures
        element_frames(nulls, ps) == element_frame(nulls[0], ps[0]) + element_frames(nulls.skip(1), ps.skip(1)),
    decreases nulls.len(),
{
    if nulls.len() == 1 {
        assert(nulls.skip(1).len() == 0);
        assert(element_frames(nulls.drop_last(), ps.drop_last()) =~= Seq::<u8>::empty());
        assert(element_frames(nulls.skip(1), ps.skip(1)) =~= Seq::<u8>::empty());
        assert(element_frames(nulls, ps) =~= element_frame(nulls[0], ps[0]) + element_frames(nulls.skip(1), ps.skip(1)));
    } else {
        lemma_element_frames_front(nulls.drop_last(), ps.drop_last());
        assert(nulls.drop_last().skip(1) =~= nulls.skip(1).drop_last());
        assert(ps.drop_last().skip(1) =~= ps.skip(1).drop_last());
        assert(element_frames(nulls, ps) =~= element_frame(nulls[0], ps[0]) + element_frames(nulls.skip(1), ps.skip(1)));
    }
}

/// The frames written for elements read back as their payloads.
proof fn lemma_values_read_back(nulls: Seq<IsNull>, ps: Seq<Seq<u8>>)
    requires
        nulls.len() == ps.len(),
        forall|i: int| 0 <= i < ps.len() ==> #[trigger] ps[i].len() <= i32::MAX,
    ensures
        values_from(element_frames(nulls, ps), nulls.len()) == Some(framed_values(nulls, ps)),
    decreases nulls.len(),
{
    if nulls.len() == 0 {
        assert(element_frames(nulls, ps) =~= Seq::<u8>::empty());
        assert(framed_values(nulls, ps) =~= Seq::<Option<Seq<u8>>>::empty());
    } else {
        let (n1, p1) = (nulls.skip(1), ps.skip(1));
        assert forall|i: int| 0 <= i < p1.len() implies #[trigger] p1[i].len() <= i32::MAX by {
            assert(p1[i] == ps[i + 1]);
        }
        lemma_values_read_back(n1, p1);
        lemma_element_frames_front(nulls, ps);
        let tail = element_frames(n1, p1);
        let buf = element_frames(nulls, ps);
        crate::wire::lemma_pow256_small();
        assert(ps[0].len() <= i32::MAX);
        if nulls[0] == IsNull::Yes {
            crate::wire::lemma_signed_round_trip(-1, 4);
            assert(buf.subrange(0, 4) =~= signed_bytes(-1, 4));
            assert(buf.subrange(4, buf.len() as int) =~= tail);
        } else {
            let p0 = ps[0];
            crate::wire::lemma_signed_round_trip(p0.len() as int, 4);
            assert(buf.subrange(0, 4) =~= signed_bytes(p0.len() as int, 4));
            assert(buf.subrange(4, 4 + p0.len() as int) =~= p0);
            assert(buf.subrange(4 + p0.len() as int, buf.len() as int) =~= tail);
        }
        assert(framed_values(nulls, ps) =~= seq![framed_values(nulls, ps)[0]] + framed_values(n1, p1));
    }
}

/// An array is read back as it was written: the payload of a
/// one-dimensional array whose element payloads fit in an `i32` reads as
/// one dimension and the elements' payloads, `None` for the `NULL` ones.
pub proof fn law_array_round_trip(has_nulls: bool, member_oid: u32, lower_bound: i32, nulls: Seq<IsNull>, ps: Seq<Seq<u8>>)
    requires
        nulls.len() == ps.len(),
        ps.len() <= i32::MAX,
        forall|i: int| 0 <= i < ps.len() ==> #[trigger] ps[i].len() <= i32::MAX,
    ensures
        array_layout(array_header(has_nulls, member_oid, ps.len() as i32, lower_bound) + element_frames(nulls, ps))
            == Some((1nat, Some(framed_values(nulls, ps)))),
{
    lemma_values_read_back(nulls, ps);
    crate::wire::lemma_pow256_small();
    crate::wire::lemma_signed_round_trip(1, 4);
    crate::wire::lemma_signed_round_trip(ps.len() as int, 4);
    crate::wire::lemma_signed_bytes_len(lower_bound as int, 4);
    crate::wire::lemma_be_bytes_len(if has_nulls { 1 } else { 0 }, 4);
    crate::wire::lemma_be_bytes_len(member_oid as nat, 4);
    let frames = element_frames(nulls, ps);
    let raw = array_header(has_nulls, member_oid, ps.len() as i32, lower_bound) + frames;
    assert(be_bytes(1, 4) == signed_bytes(1, 4));
    assert(raw.subrange(0, 4) =~= signed_bytes(1, 4));
    let r = raw.subrange(12, raw.len() as int);
    assert(r.subrange(0, 4) =~= signed_bytes(ps.len() as int, 4));
    assert(r.subrange(8, r.len() as int).len() >= 0);
    assert(r.subrange(8, r.len() as int) =~= frames);
    assert(dims_elements(r.subrange(8, r.len() as int), 0, ps.len() as int) == Some(ps.len() as int));
    assert(dims_elements(r, 1, 1) == Some(ps.len() as int));
}

/// An upper bound of the bytes that the elements of `s` take, each with its
/// length.
pub open spec fn elements_encoded_len<T: ToSql>(s: Seq<T>) -> nat
    decreases s.len(),
{
    if s.len() == 0 {
        0
    } else {
        elements_encoded_len(s.drop_last()) + 4 + s.last().encoded_len()
    }
}

/// The bytes of one element of an array: the length of its payload, then
/// the payload, or -1 for `NULL`.
pub open spec fn element_frame(null: IsNull, p: Seq<u8>) -> Seq<u8> {
    match null {
        IsNull::No => signed_bytes(p.len() as int, 4) + p,
        IsNull::Yes => signed_bytes(-1, 4),
    }
}

/// The frames of the elements, one after the other.
pub open spec fn element_frames(nulls: Seq<IsNull>, ps: Seq<Seq<u8>>) -> Seq<u8>
    decreases nulls.len(),
{
    if nulls.len() == 0 || ps.len() == 0 {
        Seq::empty()
    } else {
        element_frames(nulls.drop_last(), ps.drop_last()) + element_frame(nulls.last(), ps.last())
    }
}

/// Whether `w` is the payload of a one-dimensional array of `elems` with
/// the member type `member`, the length `len` and the lower bound
/// `lower_bound`: the header, whose null flag says whether an element was
/// `NULL`, then each element as the member type writes it, framed.
pub open spec fn array_written<T: ToSql>(member: TypeView, len: i32, lower_bound: i32, elems: Seq<T>, w: Seq<u8>) -> bool {
    exists|nulls: Seq<IsNull>, ps: Seq<Seq<u8>>|
        nulls.len() == elems.len() && ps.len() == elems.len() && (forall|i: int|
            0 <= i < elems.len() ==> #[trigger] elems[i].encodes(member, ps[i], nulls[i])) && w == array_header(
            nulls.contains(IsNull::Yes),
            member.oid,
            len,
            lower_bound,
        ) + #[trigger] element_frames(nulls, ps)
}

/// Whether `w` is the payload of the elements `elems` as a value of the
/// array type `ty`.
pub open spec fn array_encoded<T: ToSql>(ty: TypeView, elems: Seq<T>, w: Seq<u8>) -> bool {
    &&& ty.kind is Array
    &&& elems.len() <= i32::MAX
    &&& array_written(*ty.kind->Array_0, elems.len() as i32, lower_bound_of(ty), elems, w)
}

/// Converts one element as `member` for `array_to_sql`: its conversion's
/// outcome, with an error kept in `failure` and reported as `Err(())`.
fn convert_element<T: ToSql>(e: &T, member: &Type, w: &mut BytesMut, failure: &mut Option<SqlError>) -> (r: Result<IsNull, ()>)
    requires
        buffer_bytes(*old(w)).len() + e.encoded_len() <= isize::MAX,
    ensures
        r matches Ok(n) ==> *final(failure) == *old(failure) && exists|b: Seq<u8>|
            #![trigger buffer_bytes(*old(w)) + b]
            buffer_bytes(*final(w)) == buffer_bytes(*old(w)) + b && e.encodes(member@, b, n),
        r is Err ==> (*final(failure) matches Some(err) && !(err is WrongType)),
{
    match e.to_sql(member, w) {
        Ok(n) => Ok(n),
        Err(err) => {
            *failure = Some(err);
            Err(())
        },
    }
}

/// Calls `postgres_protocol::types::array_to_sql` with one dimension and
/// each element converted by `convert_element`, and hands back the call's
/// outcome, its error as a message, and the element error that
/// `convert_element` kept, if one was. On success the buffer is extended by
/// the array header, whose null flag says whether an element was `NULL`,
/// then each element's length and the bytes that its conversion appended,
/// or -1 for a `NULL` one; what a failed call leaves in the buffer is not
/// stated.
#[verifier::external_body]
fn write_array<T: ToSql>(len: i32, lower_bound: i32, member: &Type, elements: &[T], out: &mut BytesMut) -> (r: (Result<(), String>, Option<SqlError>))
    requires
        buffer_bytes(*old(out)).len() + 20 + elements_encoded_len(elements@) <= isize::MAX,
    ensures
        !(r.1 matches Some(SqlError::WrongType(_))),
        r.0 is Ok ==> exists|w: Seq<u8>|
            #![trigger buffer_bytes(*old(out)) + w]
            buffer_bytes(*final(out)) == buffer_bytes(*old(out)) + w && array_written(
                member@,
                len,
                lower_bound,
                elements@,
                w,
            ),
{
    let mut failure: Option<SqlError> = None;
    let dimension = ArrayDimension { len, lower_bound };
    let written = array_to_sql(Some(dimension), member.oid(), elements.iter(), |e, w| match convert_element(e, member, w, &mut failure) {
        Ok(IsNull::No) => Ok(postgres_protocol::IsNull::No),
        Ok(IsNull::Yes) => Ok(postgres_protocol::IsNull::Yes),
        Err(()) => Err("element conversion failed".into()),
    }, out);
    (written.map_err(|e| e.to_string()), failure)
}

/// The outcome of writing an array: success, else the element error where
/// an element's conversion failed, else the protocol crate's error.
pub open spec fn array_outcome_spec(written: Result<(), String>, failure: Option<SqlError>) -> Result<(), SqlError> {
    match written {
        Ok(()) => Ok(()),
        Err(m) => match failure {
            Some(e) => Err(e),
            None => Err(SqlError::Protocol(m)),
        },
    }
}

/// Decides the outcome of writing an array from the protocol crate's
/// outcome and the element error that was kept, if any.
pub fn array_outcome(written: Result<(), String>, failure: Option<SqlError>) -> (r: Result<(), SqlError>)
    ensures
        r == array_outcome_spec(written, failure),
{
    match written {
        Ok(()) => Ok(()),
        Err(m) => match failure {
            Some(e) => Err(e),
            None => Err(SqlError::Protocol(m)),
        },
    }
}

/// A length as the 32-bit signed integer that the protocol gives it.
pub fn downcast(len: usize) -> (r: Result<i32, SqlError>)
    ensures
        len <= i32::MAX ==> r == Ok::<i32, SqlError>(len as i32),
        len > i32::MAX ==> r matches Err(SqlError::ValueTooLarge),
{
    if len > 0x7fff_ffff {
        Err(SqlError::ValueTooLarge)
    } else {
        Ok(len as i32)
    }
}

/// Whether `ty` is an array type whose member type `accepted` takes.
pub open spec fn member_accepted(ty: TypeView, accepted: spec_fn(TypeView) -> bool) -> bool {
    match ty.kind {
        KindView::Array(m) => accepted(*m),
        _ => false,
    }
}

impl<'a, T: FromSql<'a>> FromSql<'a> for Vec<T> {
    open spec fn accepted(ty: TypeView) -> bool {
        member_accepted(ty, |m: TypeView| T::accepted(m))
    }

    open spec fn decodes(ty: TypeView, raw: Option<Seq<u8>>, v: Self) -> bool {
        raw matches Some(b) && elements_decoded::<T>(ty, b, v@)
    }

    open spec fn decodes_ok(ty: TypeView, raw: Seq<u8>) -> bool {
        elements_ok::<T>(ty, raw, None)
    }

    /// Reads a one-dimensional array, each element as the member type; the
    /// first element that fails gives its error.
    fn from_sql(ty: &Type, raw: &'a [u8]) -> (r: Result<Vec<T>, SqlError>)
        ensures
            !(ty@.kind is Array) ==> r matches Err(SqlError::ExpectedArray),
            ty@.kind is Array ==> match array_layout(raw@) {
                None => r matches Err(SqlError::Protocol(_)),
                Some((n, vals)) => if n > 1 {
                    r matches Err(SqlError::TooManyDimensions)
                } else {
                    match vals {
                        None => r matches Err(SqlError::Protocol(_)),
                        Some(v) => r is Ok ==> r->Ok_0.len() == v.len(),
                    }
                },
            },
    {
        let member = match ty.kind() {
            Kind::Array(m) => m,
            _ => {
                return Err(SqlError::ExpectedArray);
            },
        };
        let (dims, values) = match array_parts(raw) {
            Err(m) => {
                return Err(SqlError::Protocol(m));
            },
            Ok(p) => p,
        };
        if dims > 1 {
            return Err(SqlError::TooManyDimensions);
        }
        let values = match values {
            Err(m) => {
                return Err(SqlError::Protocol(m));
            },
            Ok(v) => v,
        };
        let mut out: Vec<T> = Vec::new();
        let n = values.len();
        let mut i: usize = 0;
        while i < n
            invariant
                i <= n == values.len(),
                out.len() == i,
                ty@.kind is Array,
                *ty@.kind->Array_0 == member@,
                dims <= 1,
                array_layout(raw@) == Some((dims as nat, Some(elements_view(values@)))),
                forall|j: int| 0 <= j < i ==> #[trigger] T::decodes(member@, elements_view(values@)[j], out@[j]),
            decreases n - i,
        {
            match T::from_sql_nullable(member, values[i]) {
                Ok(x) => out.push(x),
                Err(e) => {
                    proof {
                        assert(elements_view(values@)[i as int] == optional_bytes(values@[i as int]));
                    }
                    return Err(e);
                },
            }
            i = i + 1;
        }
        Ok(out)
    }

    fn accepts(ty: &Type) -> (r: bool) {
        match ty.kind() {
            Kind::Array(inner) => T::accepts(inner),
            _ => false,
        }
    }
}

/// The lower bound that an array of type `ty` is written with: 0 for
/// `oidvector` and `int2vector`, 1 for any other.
pub open spec fn lower_bound_of(ty: TypeView) -> i32 {
    if ty.builtin == Some(Builtin::OidVector) || ty.builtin == Some(Builtin::Int2Vector) {
        0
    } else {
        1
    }
}

impl<'s, T: ToSql> ToSql for &'s [T] {
    open spec fn accepted(ty: TypeView) -> bool {
        member_accepted(ty, |m: TypeView| T::accepted(m))
    }

    open spec fn encoded_len(&self) -> nat {
        20 + elements_encoded_len(self@)
    }

    open spec fn format_for(&self, ty: TypeView) -> Format {
        Format::Binary
    }

    open spec fn encodes(&self, ty: TypeView, w: Seq<u8>, null: IsNull) -> bool {
        null == IsNull::No && array_encoded(ty, self@, w)
    }

    /// Writes a one-dimensional array of the elements, each converted as
    /// the member type.
    fn to_sql(&self, ty: &Type, out: &mut BytesMut) -> (r: Result<IsNull, SqlError>)
        ensures
            !(ty@.kind is Array) ==> (r matches Err(SqlError::ExpectedArray) && buffer_bytes(*final(out))
                == buffer_bytes(*old(out))),
            ty@.kind is Array && self@.len() > i32::MAX ==> (r matches Err(SqlError::ValueTooLarge)
                && buffer_bytes(*final(out)) == buffer_bytes(*old(out))),
            r is Ok ==> r == Ok::<IsNull, SqlError>(IsNull::No),
    {
        let member = match ty.kind() {
            Kind::Array(m) => m,
            _ => {
                return Err(SqlError::ExpectedArray);
            },
        };
        let lower_bound: i32 = if ty.is(Builtin::OidVector) || ty.is(Builtin::Int2Vector) {
            0
        } else {
            1
        };
        let len = match downcast(self.len()) {
            Err(e) => {
                return Err(e);
            },
            Ok(l) => l,
        };
        proof {
            assert(ty@.kind->Array_0.oid == member@.oid);
            assert(lower_bound == lower_bound_of(ty@));
            assert(len == self@.len() as i32);
        }
        let (written, failure) = write_array(len, lower_bound, member, self, out);
        match array_outcome(written, failure) {
            Err(e) => Err(e),
            Ok(()) => Ok(IsNull::No),
        }
    }

    fn accepts(ty: &Type) -> (r: bool) {
        match ty.kind() {
            Kind::Array(member) => T::accepts(member),
            _ => false,
        }
    }

    fn rust_name() -> &'static str {
        T::rust_name()
    }

    fn encode_format(&self, ty: &Type) -> (r: Format) {
        Format::Binary
    }
}

impl<T: ToSql> ToSql for Vec<T> {
    open spec fn accepted(ty: TypeView) -> bool {
        member_accepted(ty, |m: TypeView| T::accepted(m))
    }

    open spec fn encoded_len(&self) -> nat {
        20 + elements_encoded_len(self@)
    }

    open spec fn format_for(&self, ty: TypeView) -> Format {
        Format::Binary
    }

    open spec fn encodes(&self, ty: TypeView, w: Seq<u8>, null: IsNull) -> bool {
        null == IsNull::No && array_encoded(ty, self@, w)
    }

    /// Writes a one-dimensional array of the elements, as the slice of them
    /// does.
    fn to_sql(&self, ty: &Type, out: &mut BytesMut) -> (r: Result<IsNull, SqlError>)
        ensures
            !(ty@.kind is Array) ==> (r matches Err(SqlError::ExpectedArray) && buffer_bytes(*final(out))
                == buffer_bytes(*old(out))),
            ty@.kind is Array && self@.len() > i32::MAX ==> (r matches Err(SqlError::ValueTooLarge)
                && buffer_bytes(*final(out)) == buffer_bytes(*old(out))),
            r is Ok ==> r == Ok::<IsNull, SqlError>(IsNull::No),
    {
        let s: &[T] = self.as_slice();
        s.to_sql(ty, out)
    }

    fn accepts(ty: &Type) -> (r: bool) {
        <&[T] as ToSql>::accepts(ty)
    }

    fn rust_name() -> &'static str {
        T::rust_name()
    }

    fn encode_format(&self, ty: &Type) -> (r: Format) {
        Format::Binary
    }
}

impl<T: ToSql, const N: usize> ToSql for [T; N] {
    open spec fn accepted(ty: TypeView) -> bool {
        member_accepted(ty, |m: TypeView| T::accepted(m))
    }

    open spec fn encoded_len(&self) -> nat {
        20 + elements_encoded_len(self@)
    }

    open spec fn format_for(&self, ty: TypeView) -> Format {
        Format::Binary
    }

    open spec fn encodes(&self, ty: TypeView, w: Seq<u8>, null: IsNull) -> bool {
        null == IsNull::No && array_encoded(ty, self@, w)
    }

    /// Writes a one-dimensional array of the elements, as the slice of them
    /// does.
    fn to_sql(&self, ty: &Type, out: &mut BytesMut) -> (r: Result<IsNull, SqlError>)
        ensures
            !(ty@.kind is Array) ==> (r matches Err(SqlError::ExpectedArray) && buffer_bytes(*final(out))
                == buffer_bytes(*old(out))),
            ty@.kind is Array && self@.len() > i32::MAX ==> (r matches Err(SqlError::ValueTooLarge)
                && buffer_bytes(*final(out)) == buffer_bytes(*old(out))),
            r is Ok ==> r == Ok::<IsNull, SqlError>(IsNull::No),
    {
        let s: &[T] = self.as_slice();
        s.to_sql(ty, out)
    }

    fn accepts(ty: &Type) -> (r: bool) {
        <&[T] as ToSql>::accepts(ty)
    }

    fn rust_name() -> &'static str {
        T::rust_name()
    }

    fn encode_format(&self, ty: &Type) -> (r: Format) {
        Format::Binary
    }
}

impl<T: ToSql> ToSql for Box<[T]> {
    open spec fn accepted(ty: TypeView) -> bool {
        member_accepted(ty, |m: TypeView| T::accepted(m))
    }

    open spec fn encoded_len(&self) -> nat {
        20 + elements_encoded_len(self@)
    }

    open spec fn format_for(&self, ty: TypeView) -> Format {
        Format::Binary
    }

    open spec fn encodes(&self, ty: TypeView, w: Seq<u8>, null: IsNull) -> bool {
        null == IsNull::No && array_encoded(ty, self@, w)
    }

    /// Writes a one-dimensional array of the elements, as the slice of them
    /// does.
    fn to_sql(&self, ty: &Type, out: &mut BytesMut) -> (r: Result<IsNull, SqlError>)
        ensures
            !(ty@.kind is Array) ==> (r matches Err(SqlError::ExpectedArray) && buffer_bytes(*final(out))
                == buffer_bytes(*old(out))),
            ty@.kind is Array && self@.len() > i32::MAX ==> (r matches Err(SqlError::ValueTooLarge)
                && buffer_bytes(*final(out)) == buffer_bytes(*old(out))),
            r is Ok ==> r == Ok::<IsNull, SqlError>(IsNull::No),
    {
        let s: &[T] = &**self;
        s.to_sql(ty, out)
    }

    fn accepts(ty: &Type) -> (r: bool) {
        <&[T] as ToSql>::accepts(ty)
    }

    fn rust_name() -> &'static str {
        T::rust_name()
    }

    fn encode_format(&self, ty: &Type) -> (r: Format) {
        Format::Binary
    }
}

/// The elements of `v` in a boxed slice: `Vec::into_boxed_slice`.
#[verifier::external_body]
fn boxed_slice<T>(v: Vec<T>) -> (r: Box<[T]>)
    ensures
        r@ == v@,
{
    v.into_boxed_slice()
}

impl<'a, T: FromSql<'a>> FromSql<'a> for Box<[T]> {
    open spec fn accepted(ty: TypeView) -> bool {
        member_accepted(ty, |m: TypeView| T::accepted(m))
    }

    open spec fn decodes(ty: TypeView, raw: Option<Seq<u8>>, v: Self) -> bool {
        raw matches Some(b) && elements_decoded::<T>(ty, b, v@)
    }

    open spec fn decodes_ok(ty: TypeView, raw: Seq<u8>) -> bool {
        elements_ok::<T>(ty, raw, None)
    }

    /// Reads the elements as a vector of them does.
    fn from_sql(ty: &Type, raw: &'a [u8]) -> (r: Result<Box<[T]>, SqlError>)
        ensures
            !(ty@.kind is Array) ==> r matches Err(SqlError::ExpectedArray),
            ty@.kind is Array ==> match array_layout(raw@) {
                None => r matches Err(SqlError::Protocol(_)),
                Some((n, vals)) => if n > 1 {
                    r matches Err(SqlError::TooManyDimensions)
                } else {
                    match vals {
                        None => r matches Err(SqlError::Protocol(_)),
                        Some(v) => r is Ok ==> r->Ok_0@.len() == v.len(),
                    }
                },
            },
    {
        match <Vec<T> as FromSql>::from_sql(ty, raw) {
            Ok(v) => Ok(boxed_slice(v)),
            Err(e) => Err(e),
        }
    }

    fn accepts(ty: &Type) -> (r: bool) {
        <Vec<T> as FromSql>::accepts(ty)
    }
}

/// The elements of `v` as an array of `N`, where `v` holds exactly `N` of
/// them: `<[T; N]>::try_from` on a vector, which hands the vector back
/// otherwise.
#[verifier::external_body]
fn vec_into_array<T, const N: usize>(v: Vec<T>) -> (r: Result<[T; N], Vec<T>>)
    ensures
        r is Ok <==> v@.len() == N,
        r matches Ok(a) ==> a@ == v@,
{
    v.try_into()
}

impl<'a, T: FromSql<'a>, const N: usize> FromSql<'a> for [T; N] {
    open spec fn accepted(ty: TypeView) -> bool {
        member_accepted(ty, |m: TypeView| T::accepted(m))
    }

    open spec fn decodes(ty: TypeView, raw: Option<Seq<u8>>, v: Self) -> bool {
        raw matches Some(b) && elements_decoded::<T>(ty, b, v@)
    }

    open spec fn decodes_ok(ty: TypeView, raw: Seq<u8>) -> bool {
        elements_ok::<T>(ty, raw, Some(N as nat))
    }

    /// Reads a one-dimensional array of exactly `N` elements, each as the
    /// member type: the first element that fails gives its error, then a
    /// shorter array gives `TooFewElements` and a longer one
    /// `ExcessElements`.
    fn from_sql(ty: &Type, raw: &'a [u8]) -> (r: Result<[T; N], SqlError>)
        ensures
            !(ty@.kind is Array) ==> r matches Err(SqlError::ExpectedArray),
            ty@.kind is Array ==> match array_layout(raw@) {
                None => r matches Err(SqlError::Protocol(_)),
                Some((n, vals)) => if n > 1 {
                    r matches Err(SqlError::TooManyDimensions)
                } else {
                    match vals {
                        None => r matches Err(SqlError::Protocol(_)),
                        Some(v) => r is Ok ==> v.len() == N,
                    }
                },
            },
    {
        let member = match ty.kind() {
            Kind::Array(m) => m,
            _ => {
                return Err(SqlError::ExpectedArray);
            },
        };
        let (dims, values) = match array_parts(raw) {
            Err(m) => {
                return Err(SqlError::Protocol(m));
            },
            Ok(p) => p,
        };
        if dims > 1 {
            return Err(SqlError::TooManyDimensions);
        }
        let values = match values {
            Err(m) => {
                return Err(SqlError::Protocol(m));
            },
            Ok(v) => v,
        };
        let n = values.len();
        let take: usize = if n < N { n } else { N };
        let mut out: Vec<T> = Vec::new();
        let mut i: usize = 0;
        while i < take
            invariant
                i <= take <= n == values.len(),
                take <= N,
                out.len() == i,
                ty@.kind is Array,
                *ty@.kind->Array_0 == member@,
                dims <= 1,
                array_layout(raw@) == Some((dims as nat, Some(elements_view(values@)))),
                forall|j: int| 0 <= j < i ==> #[trigger] T::decodes(member@, elements_view(values@)[j], out@[j]),
            decreases take - i,
        {
            match T::from_sql_nullable(member, values[i]) {
                Ok(x) => out.push(x),
                Err(e) => {
                    proof {
                        assert(elements_view(values@)[i as int] == optional_bytes(values@[i as int]));
                    }
                    return Err(e);
                },
            }
            i = i + 1;
        }
        if n > N {
            return Err(SqlError::ExcessElements { expected: N });
        }
        match vec_into_array::<T, N>(out) {
            Ok(a) => Ok(a),
            Err(_) => Err(SqlError::TooFewElements { expected: N, got: n }),
        }
    }

    fn accepts(ty: &Type) -> (r: bool) {
        match ty.kind() {
            Kind::Array(inner) => T::accepts(inner),
            _ => false,
        }
    }
}

} // verus!
