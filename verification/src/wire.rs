//! The output buffer that codecs append to, and the big-endian integer
//! encodings that the wire protocol uses.

use vstd::prelude::*;
use bytes::BufMut;

verus! {

/// The growable byte buffer of the `bytes` crate that encoders append to.
#[verifier::external_type_specification]
#[verifier::external_body]
pub struct ExBytesMut(bytes::BytesMut);

/// The bytes that a buffer holds, in order.
pub uninterp spec fn buffer_bytes(b: bytes::BytesMut) -> Seq<u8>;

/// `256` raised to `k`.
pub open spec fn pow256(k: nat) -> nat
    decreases k,
{
    if k == 0 {
        1
    } else {
        256 * pow256((k - 1) as nat)
    }
}

/// The unsigned integer that the bytes `s` denote, most significant first.
pub open spec fn be_value(s: Seq<u8>) -> nat
    decreases s.len(),
{
    if s.len() == 0 {
        0
    } else {
        be_value(s.drop_last()) * 256 + (s.last() as nat)
    }
}

/// The `len` bytes, most significant first, of `n` modulo `256^len`.
pub open spec fn be_bytes(n: nat, len: nat) -> Seq<u8>
    decreases len,
{
    if len == 0 {
        Seq::<u8>::empty()
    } else {
        be_bytes(n / 256, (len - 1) as nat).push((n % 256) as u8)
    }
}

/// The two's-complement reading of an unsigned value `u` of `width` bytes.
pub open spec fn signed_of(u: nat, width: nat) -> int {
    if u * 2 >= pow256(width) {
        u - pow256(width)
    } else {
        u as int
    }
}

/// The unsigned value of `width` bytes whose two's-complement reading is `v`.
pub open spec fn unsigned_of(v: int, width: nat) -> nat {
    if v < 0 {
        (v + pow256(width)) as nat
    } else {
        v as nat
    }
}

/// The signed integer that the bytes `s` denote in two's complement.
pub open spec fn be_signed(s: Seq<u8>) -> int {
    signed_of(be_value(s), s.len())
}

/// The `width` bytes that encode the signed integer `v` in two's complement.
pub open spec fn signed_bytes(v: int, width: nat) -> Seq<u8> {
    be_bytes(unsigned_of(v, width), width)
}

pub proof fn lemma_pow256_small()
    ensures
        pow256(1) == 0x100,
        pow256(2) == 0x1_0000,
        pow256(4) == 0x1_0000_0000,
        pow256(8) == 0x1_0000_0000_0000_0000,
{
    reveal_with_fuel(pow256, 9);
}

pub proof fn lemma_pow256_positive(k: nat)
    ensures
        pow256(k) >= 1,
    decreases k,
{
    if k > 0 {
        lemma_pow256_positive((k - 1) as nat);
    }
}

/// The bytes `s` denote a value below `256^len(s)`.
pub proof fn lemma_be_value_bound(s: Seq<u8>)
    ensures
        be_value(s) < pow256(s.len()),
    decreases s.len(),
{
    if s.len() > 0 {
        let p = s.drop_last();
        lemma_be_value_bound(p);
        let a = be_value(p);
        let b = pow256(p.len());
        let c = s.last();
        assert(a * 256 + c < b * 256) by (nonlinear_arith)
            requires
                a < b,
                c < 256,
        ;
    }
}

/// The encoding has exactly `len` bytes.
pub proof fn lemma_be_bytes_len(n: nat, len: nat)
    ensures
        be_bytes(n, len).len() == len,
    decreases len,
{
    if len > 0 {
        lemma_be_bytes_len(n / 256, (len - 1) as nat);
    }
}

/// Decoding the `len`-byte encoding of a value below `256^len` gives it back.
pub proof fn lemma_be_value_of_bytes(n: nat, len: nat)
    requires
        n < pow256(len),
    ensures
        be_value(be_bytes(n, len)) == n,
        be_bytes(n, len).len() == len,
    decreases len,
{
    lemma_be_bytes_len(n, len);
    if len > 0 {
        let q = n / 256;
        let r = n % 256;
        let p = pow256((len - 1) as nat);
        assert(q < p && n == q * 256 + r) by (nonlinear_arith)
            requires
                n < 256 * p,
                q == n / 256,
                r == n % 256,
        ;
        lemma_be_value_of_bytes(q, (len - 1) as nat);
        let s = be_bytes(n, len);
        assert(s.drop_last() =~= be_bytes(q, (len - 1) as nat));
    } else {
        assert(n == 0);
    }
}

/// Encoding the value of `s` in `len(s)` bytes gives `s` back.
pub proof fn lemma_be_bytes_of_value(s: Seq<u8>)
    ensures
        be_bytes(be_value(s), s.len()) == s,
    decreases s.len(),
{
    if s.len() > 0 {
        let p = s.drop_last();
        lemma_be_bytes_of_value(p);
        let v = be_value(s);
        let a = be_value(p);
        let c = s.last() as int;
        assert(v / 256 == a && v % 256 == c) by (nonlinear_arith)
            requires
                v == a * 256 + c,
                0 <= c < 256,
                a >= 0,
        ;
        assert(be_bytes(v, s.len()) =~= s);
    } else {
        assert(be_bytes(be_value(s), 0) =~= s);
    }
}

/// The two's-complement encoding of `v` decodes to `v`.
pub proof fn lemma_signed_round_trip(v: int, width: nat)
    requires
        width >= 1,
        -(pow256(width) as int) <= 2 * v < pow256(width),
    ensures
        be_signed(signed_bytes(v, width)) == v,
        signed_bytes(v, width).len() == width,
{
    let u = unsigned_of(v, width);
    lemma_be_value_of_bytes(u, width);
}


/// A two's-complement encoding has exactly `width` bytes.
pub proof fn lemma_signed_bytes_len(v: int, width: nat)
    ensures
        signed_bytes(v, width).len() == width,
{
    lemma_be_bytes_len(unsigned_of(v, width), width);
}

/// The eight-byte two's-complement encoding of an `i64` decodes to it.
pub proof fn lemma_i64_round_trip(v: i64)
    ensures
        be_signed(signed_bytes(v as int, 8)) == v,
        signed_bytes(v as int, 8).len() == 8,
{
    lemma_pow256_small();
    lemma_signed_round_trip(v as int, 8);
}

/// The four-byte two's-complement encoding of an `i32` decodes to it.
pub proof fn lemma_i32_round_trip(v: i32)
    ensures
        be_signed(signed_bytes(v as int, 4)) == v,
        signed_bytes(v as int, 4).len() == 4,
{
    lemma_pow256_small();
    lemma_signed_round_trip(v as int, 4);
}

/// The four-byte encoding of a `u32` decodes to it.
pub proof fn lemma_u32_round_trip(v: u32)
    ensures
        be_value(be_bytes(v as nat, 4)) == v,
        be_bytes(v as nat, 4).len() == 4,
{
    lemma_pow256_small();
    lemma_be_value_of_bytes(v as nat, 4);
}


/// Reads `n` bytes of `s` starting at `start` as an unsigned big-endian integer.
pub fn read_be_unsigned(s: &[u8], start: usize, n: usize) -> (r: u64)
    requires
        n <= 8,
        start + n <= s@.len(),
    ensures
        r == be_value(s@.subrange(start as int, start + n)),
{
    let mut v: u64 = 0;
    let mut k: usize = 0;
    let len = s.len();
    proof {
        lemma_pow256_small();
        assert(s@.subrange(start as int, start as int) =~= Seq::<u8>::empty());
    }
    while k < n
        invariant
            k <= n <= 8,
            start + n <= s@.len(),
            len == s@.len(),
            v == be_value(s@.subrange(start as int, start + k)),
            pow256(8) == 0x1_0000_0000_0000_0000,
        decreases n - k,
    {
        let ghost prefix = s@.subrange(start as int, start + k);
        let ghost next = s@.subrange(start as int, start + k + 1);
        proof {
            assert(next.drop_last() =~= prefix);
            lemma_be_value_bound(prefix);
            lemma_pow256_monotone(k as nat, 7);
            assert(be_value(next) == v * 256 + s@[start + k]);
            assert(v * 256 + s@[start + k] < 0x1_0000_0000_0000_0000) by (nonlinear_arith)
                requires
                    v < pow256(k as nat),
                    pow256(k as nat) <= pow256(7),
                    pow256(8) == 256 * pow256(7),
                    pow256(8) == 0x1_0000_0000_0000_0000,
                    s@[start + k] < 256,
            ;
        }
        v = v * 256 + s[start + k] as u64;
        k = k + 1;
    }
    v
}

/// `256^i <= 256^j` when `i <= j`.
pub proof fn lemma_pow256_monotone(i: nat, j: nat)
    requires
        i <= j,
    ensures
        pow256(i) <= pow256(j),
    decreases j,
{
    if i < j {
        lemma_pow256_monotone(i, (j - 1) as nat);
        lemma_pow256_positive((j - 1) as nat);
    }
}

/// The two's-complement reading of an eight-byte unsigned value.
pub fn signed_of_u64(u: u64) -> (r: i64)
    ensures
        r == signed_of(u as nat, 8),
{
    proof {
        lemma_pow256_small();
    }
    if u < 0x8000_0000_0000_0000 {
        u as i64
    } else {
        let low = (u - 0x8000_0000_0000_0000) as i64;
        low - 0x7fff_ffff_ffff_ffff - 1
    }
}

/// Reads the eight bytes of `s` at `start` as a big-endian two's-complement `i64`.
pub fn read_be_i64(s: &[u8], start: usize) -> (r: i64)
    requires
        start + 8 <= s@.len(),
    ensures
        r == be_signed(s@.subrange(start as int, start + 8)),
{
    let u = read_be_unsigned(s, start, 8);
    signed_of_u64(u)
}

/// Reads the four bytes of `s` at `start` as a big-endian two's-complement `i32`.
pub fn read_be_i32(s: &[u8], start: usize) -> (r: i32)
    requires
        start + 4 <= s@.len(),
    ensures
        r == be_signed(s@.subrange(start as int, start + 4)),
{
    let u = read_be_unsigned(s, start, 4);
    proof {
        lemma_pow256_small();
        lemma_be_value_bound(s@.subrange(start as int, start + 4));
    }
    if u < 0x8000_0000 {
        u as i32
    } else {
        let low = (u - 0x8000_0000) as i32;
        low - 0x7fff_ffff - 1
    }
}

/// Reads the two bytes of `s` at `start` as a big-endian two's-complement `i16`.
pub fn read_be_i16(s: &[u8], start: usize) -> (r: i16)
    requires
        start + 2 <= s@.len(),
    ensures
        r == be_signed(s@.subrange(start as int, start + 2)),
{
    let u = read_be_unsigned(s, start, 2);
    proof {
        lemma_pow256_small();
        lemma_be_value_bound(s@.subrange(start as int, start + 2));
    }
    if u < 0x8000 {
        u as i16
    } else {
        let low = (u - 0x8000) as i16;
        low - 0x7fff - 1
    }
}

/// Reads the two bytes of `s` at `start` as a big-endian `u16`.
pub fn read_be_u16(s: &[u8], start: usize) -> (r: u16)
    requires
        start + 2 <= s@.len(),
    ensures
        r == be_value(s@.subrange(start as int, start + 2)),
{
    let u = read_be_unsigned(s, start, 2);
    proof {
        lemma_pow256_small();
        lemma_be_value_bound(s@.subrange(start as int, start + 2));
    }
    u as u16
}

/// Reads the four bytes of `s` at `start` as a big-endian `u32`.
pub fn read_be_u32(s: &[u8], start: usize) -> (r: u32)
    requires
        start + 4 <= s@.len(),
    ensures
        r == be_value(s@.subrange(start as int, start + 4)),
{
    let u = read_be_unsigned(s, start, 4);
    proof {
        lemma_pow256_small();
        lemma_be_value_bound(s@.subrange(start as int, start + 4));
    }
    u as u32
}

/// A vector holding the bytes of `s`.
pub fn bytes_to_vec(s: &[u8]) -> (r: Vec<u8>)
    ensures
        r@ == s@,
{
    let mut r: Vec<u8> = Vec::new();
    let n = s.len();
    let mut i: usize = 0;
    while i < n
        invariant
            i <= n == s@.len(),
            r@ == s@.subrange(0, i as int),
        decreases n - i,
    {
        r.push(s[i]);
        i = i + 1;
        assert(r@ =~= s@.subrange(0, i as int));
    }
    assert(s@.subrange(0, n as int) =~= s@);
    r
}

/// Calls `bytes::BytesMut::new`: the new buffer holds no bytes.
#[verifier::external_body]
pub(crate) fn new_buffer() -> (b: bytes::BytesMut)
    ensures
        buffer_bytes(b) == Seq::<u8>::empty(),
{
    bytes::BytesMut::new()
}

/// Calls `bytes::BytesMut::len`: the number of bytes the buffer holds.
#[verifier::external_body]
pub(crate) fn buffer_len(b: &bytes::BytesMut) -> (r: usize)
    ensures
        r == buffer_bytes(*b).len(),
{
    b.len()
}

/// Copies the bytes that a buffer holds into a vector, through the buffer's
/// `Deref` to a byte slice and `to_vec`.
#[verifier::external_body]
pub(crate) fn buffer_to_vec(b: &bytes::BytesMut) -> (r: Vec<u8>)
    ensures
        r@ == buffer_bytes(*b),
{
    b.to_vec()
}

/// Calls `bytes::BytesMut::extend_from_slice`, which appends `src` to the
/// buffer; it panics only when the length would exceed `isize::MAX`.
#[verifier::external_body]
pub(crate) fn extend_from_slice(out: &mut bytes::BytesMut, src: &[u8])
    requires
        buffer_bytes(*old(out)).len() + src@.len() <= isize::MAX,
    ensures
        buffer_bytes(*final(out)) == buffer_bytes(*old(out)) + src@,
{
    out.extend_from_slice(src)
}

/// Calls `BufMut::put_u8` on a `BytesMut`, which appends the byte `n`.
#[verifier::external_body]
pub(crate) fn put_u8(out: &mut bytes::BytesMut, n: u8)
    requires
        buffer_bytes(*old(out)).len() + 1 <= isize::MAX,
    ensures
        buffer_bytes(*final(out)) == buffer_bytes(*old(out)).push(n),
{
    out.put_u8(n)
}

/// Calls `BufMut::put_i8` on a `BytesMut`, which appends the two's-complement
/// byte of `n`.
#[verifier::external_body]
pub(crate) fn put_i8(out: &mut bytes::BytesMut, n: i8)
    requires
        buffer_bytes(*old(out)).len() + 1 <= isize::MAX,
    ensures
        buffer_bytes(*final(out)) == buffer_bytes(*old(out)) + signed_bytes(n as int, 1),
{
    out.put_i8(n)
}

/// Calls `BufMut::put_i16` on a `BytesMut`, which appends the two big-endian
/// two's-complement bytes of `n`.
#[verifier::external_body]
pub(crate) fn put_i16(out: &mut bytes::BytesMut, n: i16)
    requires
        buffer_bytes(*old(out)).len() + 2 <= isize::MAX,
    ensures
        buffer_bytes(*final(out)) == buffer_bytes(*old(out)) + signed_bytes(n as int, 2),
{
    out.put_i16(n)
}

/// Calls `BufMut::put_u16` on a `BytesMut`, which appends the two big-endian
/// bytes of `n`.
#[verifier::external_body]
pub(crate) fn put_u16(out: &mut bytes::BytesMut, n: u16)
    requires
        buffer_bytes(*old(out)).len() + 2 <= isize::MAX,
    ensures
        buffer_bytes(*final(out)) == buffer_bytes(*old(out)) + be_bytes(n as nat, 2),
{
    out.put_u16(n)
}

/// Calls `BufMut::put_i32` on a `BytesMut`, which appends the four big-endian
/// two's-complement bytes of `n`.
#[verifier::external_body]
pub(crate) fn put_i32(out: &mut bytes::BytesMut, n: i32)
    requires
        buffer_bytes(*old(out)).len() + 4 <= isize::MAX,
    ensures
        buffer_bytes(*final(out)) == buffer_bytes(*old(out)) + signed_bytes(n as int, 4),
{
    out.put_i32(n)
}

/// Calls `BufMut::put_u32` on a `BytesMut`, which appends the four big-endian
/// bytes of `n`.
#[verifier::external_body]
pub(crate) fn put_u32(out: &mut bytes::BytesMut, n: u32)
    requires
        buffer_bytes(*old(out)).len() + 4 <= isize::MAX,
    ensures
        buffer_bytes(*final(out)) == buffer_bytes(*old(out)) + be_bytes(n as nat, 4),
{
    out.put_u32(n)
}

/// Calls `BufMut::put_i64` on a `BytesMut`, which appends the eight big-endian
/// two's-complement bytes of `n`.
#[verifier::external_body]
pub(crate) fn put_i64(out: &mut bytes::BytesMut, n: i64)
    requires
        buffer_bytes(*old(out)).len() + 8 <= isize::MAX,
    ensures
        buffer_bytes(*final(out)) == buffer_bytes(*old(out)) + signed_bytes(n as int, 8),
{
    out.put_i64(n)
}

/// Calls `BufMut::put_u64` on a `BytesMut`, which appends the eight big-endian
/// bytes of `n`.
#[verifier::external_body]
pub(crate) fn put_u64(out: &mut bytes::BytesMut, n: u64)
    requires
        buffer_bytes(*old(out)).len() + 8 <= isize::MAX,
    ensures
        buffer_bytes(*final(out)) == buffer_bytes(*old(out)) + be_bytes(n as nat, 8),
{
    out.put_u64(n)
}

} // verus!
