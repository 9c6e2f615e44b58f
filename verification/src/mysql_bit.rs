//! The KingbaseES MySQL-compatible `sys.bit` value: a string of 1 to 64 bits
//! stored most significant first.

use vstd::prelude::*;
use vstd::arithmetic::power2::{pow2, lemma2_to64, lemma_pow2_unfold, lemma_pow2_pos};
use vstd::arithmetic::div_mod::lemma_div_denominator;
use vstd::bits::{lemma_u64_shr_is_div, lemma_u64_shl_is_mul};
use bytes::BytesMut;
use crate::builtin::Builtin;
use crate::codec::{Format, FromSql, ToSql, IsNull};
use crate::error::{MySqlBitError, SqlError};
use crate::kingbase::{has_identity, has_identity_of};
use crate::types::{Type, TypeView};
use crate::wire::{buffer_bytes, be_value, be_bytes, read_be_u32, put_u32, extend_from_slice, lemma_u32_round_trip};

verus! {

/// The number of payload bytes that hold `bit_len` bits.
pub open spec fn payload_len(bit_len: nat) -> nat {
    (bit_len + 7) / 8
}

/// Bit `i` of an MSB-first payload: bit 0 is the most significant bit of
/// the first byte.
pub open spec fn bit_at(p: Seq<u8>, i: int) -> bool {
    p[i / 8] & (0x80u8 >> ((i % 8) as u8)) != 0u8
}

/// The first `n` bits of the payload `p`.
pub open spec fn bits_of(p: Seq<u8>, n: nat) -> Seq<bool> {
    Seq::new(n, |i: int| bit_at(p, i))
}

/// The unsigned integer that a bit string denotes, most significant bit first.
pub open spec fn seq_value(s: Seq<bool>) -> nat
    decreases s.len(),
{
    if s.len() == 0 {
        0
    } else {
        2 * seq_value(s.drop_last()) + if s.last() { 1nat } else { 0nat }
    }
}

/// Bit `i` of the `n`-bit binary numeral of `v`, most significant first.
pub open spec fn value_bit(n: nat, v: nat, i: int) -> bool {
    (v / pow2((n - 1 - i) as nat)) % 2 == 1
}

/// The `n`-bit binary numeral of `v`, most significant bit first.
pub open spec fn value_bits(n: nat, v: nat) -> Seq<bool> {
    Seq::new(n, |i: int| value_bit(n, v, i))
}

/// The mask that keeps the first `r` bits of a byte.
pub open spec fn keep_mask(r: nat) -> u8 {
    0xffu8 << ((8 - r) as u8)
}

/// The payload `p` of an `n`-bit value with the bits past the `n`-th cleared
/// in its last byte.
pub open spec fn normalized(p: Seq<u8>, n: nat) -> Seq<u8> {
    if n % 8 != 0 && p.len() > 0 {
        p.update(p.len() - 1, p.last() & keep_mask(n % 8))
    } else {
        p
    }
}

/// A value read as a number is built back from that number: the `n` bits
/// of a value are worth less than `2^n`, and the `n`-bit numeral of their
/// worth is those bits again.
pub proof fn law_bits_value_round_trip(s: Seq<bool>)
    ensures
        seq_value(s) < pow2(s.len()),
        value_bits(s.len(), seq_value(s)) == s,
    decreases s.len(),
{
    let n = s.len();
    if n == 0 {
        lemma2_to64();
        assert(value_bits(0, seq_value(s)) =~= s);
    } else {
        let t = s.drop_last();
        law_bits_value_round_trip(t);
        let v = seq_value(s);
        let vt = seq_value(t);
        let b: nat = if s.last() {
            1
        } else {
            0
        };
        assert(v == 2 * vt + b);
        lemma_pow2_unfold(n);
        assert(v < pow2(n));
        assert(v / 2 == vt);
        assert(v % 2 == b);
        assert forall|i: int| 0 <= i < n implies #[trigger] value_bits(n, v)[i] == s[i] by {
            if i == n - 1 {
                lemma2_to64();
                assert(pow2(0) == 1);
                assert(v / 1 == v);
            } else {
                let e = (n - 1 - i) as nat;
                lemma_pow2_unfold(e);
                lemma_pow2_pos((e - 1) as nat);
                lemma_div_denominator(v as int, 2, pow2((e - 1) as nat) as int);
                assert(v / pow2(e) == vt / pow2((e - 1) as nat));
                assert(value_bits((n - 1) as nat, vt)[i] == t[i]);
                assert(t[i] == s[i]);
            }
        }
        assert(value_bits(n, v) =~= s);
    }
}

/// Setting bit `k` of a byte sets that bit and keeps the others.
proof fn lemma_or_bit(b: u8, k: u8, m: u8)
    by (bit_vector)
    requires
        k < 8,
        m < 8,
    ensures
        ((b | (0x80u8 >> k)) & (0x80u8 >> m) != 0u8) == ((b & (0x80u8 >> m) != 0u8) || k == m),
{
}

/// No bit of the zero byte is set.
proof fn lemma_zero_bit(m: u8)
    by (bit_vector)
    requires
        m < 8,
    ensures
        (0u8 & (0x80u8 >> m)) == 0u8,
{
}

/// Masking a byte keeps its first `r` bits and clears the others.
proof fn lemma_mask_bit(b: u8, r: u8, m: u8)
    by (bit_vector)
    requires
        1 <= r < 8,
        m < 8,
    ensures
        ((b & (0xffu8 << ((8 - r) as u8))) & (0x80u8 >> m) != 0u8) == (m < r && (b & (0x80u8
            >> m) != 0u8)),
{
}

/// The bit `0x80` of a byte is its first bit.
proof fn lemma_first_bit(b: u8)
    by (bit_vector)
    ensures
        (b & (0x80u8 >> 0u8) != 0u8) == (b & 0x80u8 != 0u8),
{
}

/// The bits `0x80` and `0` of a one-bit payload.
proof fn lemma_bool_bytes()
    by (bit_vector)
    ensures
        (0x80u8 & (0x80u8 >> 0u8)) != 0u8,
        (0x00u8 & (0x80u8 >> 0u8)) == 0u8,
{
}

/// Bits `i` of a payload whose bytes agree with another's but one, at a
/// position outside that byte, agree.
proof fn lemma_bit_at_update(p: Seq<u8>, k: int, b: u8, i: int)
    requires
        0 <= k < p.len(),
        0 <= i < 8 * p.len(),
        i / 8 != k,
    ensures
        bit_at(p.update(k, b), i) == bit_at(p, i),
{
}

/// The value of an `n`-bit numeral read bit by bit: the first `k` bits
/// denote `v / 2^(n - k)`.
proof fn lemma_value_prefix(n: nat, v: nat, k: nat)
    requires
        k <= n,
        v < pow2(n),
    ensures
        seq_value(value_bits(n, v).subrange(0, k as int)) == v / pow2((n - k) as nat),
    decreases k,
{
    lemma_pow2_pos((n - k) as nat);
    if k == 0 {
        assert(value_bits(n, v).subrange(0, 0) =~= Seq::<bool>::empty());
        assert(v / pow2(n) == 0) by (nonlinear_arith)
            requires
                v < pow2(n),
                pow2(n) > 0,
        ;
    } else {
        lemma_value_prefix(n, v, (k - 1) as nat);
        let s = value_bits(n, v).subrange(0, k as int);
        assert(s.drop_last() =~= value_bits(n, v).subrange(0, k - 1));
        let e = (n - k) as nat;
        lemma_pow2_unfold(e + 1);
        lemma_pow2_pos(e);
        let q = v / pow2(e);
        lemma_div_denominator(v as int, pow2(e) as int, 2);
        assert(v / pow2((e + 1) as nat) == q / 2);
        assert(s.last() == (q % 2 == 1));
        assert(2 * (q / 2) + (q % 2) == q) by (nonlinear_arith);
    }
}

/// An `n`-bit numeral of a value below `2^n` denotes that value.
pub proof fn law_value_round_trip(n: nat, v: nat)
    requires
        v < pow2(n),
    ensures
        seq_value(value_bits(n, v)) == v,
        value_bits(n, v).len() == n,
{
    assert(pow2(0) == 1) by {
        lemma2_to64();
    }
    lemma_value_prefix(n, v, n);
    assert((n - n) as nat == 0);
    assert(v / 1 == v);
    assert(value_bits(n, v).subrange(0, n as int) =~= value_bits(n, v));
}

/// A byte is fixed by its eight bits.
proof fn lemma_byte_from_bits(a: u8, b: u8)
    by (bit_vector)
    requires
        (a & (0x80u8 >> 0u8) != 0u8) == (b & (0x80u8 >> 0u8) != 0u8),
        (a & (0x80u8 >> 1u8) != 0u8) == (b & (0x80u8 >> 1u8) != 0u8),
        (a & (0x80u8 >> 2u8) != 0u8) == (b & (0x80u8 >> 2u8) != 0u8),
        (a & (0x80u8 >> 3u8) != 0u8) == (b & (0x80u8 >> 3u8) != 0u8),
        (a & (0x80u8 >> 4u8) != 0u8) == (b & (0x80u8 >> 4u8) != 0u8),
        (a & (0x80u8 >> 5u8) != 0u8) == (b & (0x80u8 >> 5u8) != 0u8),
        (a & (0x80u8 >> 6u8) != 0u8) == (b & (0x80u8 >> 6u8) != 0u8),
        (a & (0x80u8 >> 7u8) != 0u8) == (b & (0x80u8 >> 7u8) != 0u8),
    ensures
        a == b,
{
}

/// Bit `k` of byte `j` is bit `8 * j + k` of the payload.
proof fn lemma_bit_index(p: Seq<u8>, j: int, k: int)
    requires
        0 <= j,
        0 <= k < 8,
    ensures
        bit_at(p, 8 * j + k) == (p[j] & (0x80u8 >> (k as u8)) != 0u8),
{
    assert((8 * j + k) / 8 == j && (8 * j + k) % 8 == k) by (nonlinear_arith)
        requires
            0 <= j,
            0 <= k < 8,
    ;
}

/// The bits of a value fix its payload: two payloads of the bytes that hold
/// `n` bits, each with the bits past the `n`-th clear, that hold the same
/// `n` bits are the same bytes.
pub proof fn law_bits_fix_payload(p: Seq<u8>, q: Seq<u8>, n: nat)
    requires
        p.len() == payload_len(n),
        q.len() == payload_len(n),
        forall|i: int| n <= i < 8 * p.len() ==> !bit_at(p, i),
        forall|i: int| n <= i < 8 * q.len() ==> !bit_at(q, i),
        bits_of(p, n) == bits_of(q, n),
    ensures
        p == q,
{
    assert forall|j: int| 0 <= j < p.len() implies p[j] == q[j] by {
        assert forall|k: int| 0 <= k < 8 implies #[trigger] bit_at(p, 8 * j + k) == bit_at(q, 8 * j + k) by {
            let i = 8 * j + k;
            if i < n {
                assert(bits_of(p, n)[i] == bits_of(q, n)[i]);
                assert(bits_of(p, n)[i] == bit_at(p, i));
                assert(bits_of(q, n)[i] == bit_at(q, i));
            } else {
                assert(i < 8 * p.len());
                assert(!bit_at(p, i));
                assert(!bit_at(q, i));
            }
        }
        lemma_bit_index(p, j, 0);
        lemma_bit_index(q, j, 0);
        lemma_bit_index(p, j, 1);
        lemma_bit_index(q, j, 1);
        lemma_bit_index(p, j, 2);
        lemma_bit_index(q, j, 2);
        lemma_bit_index(p, j, 3);
        lemma_bit_index(q, j, 3);
        lemma_bit_index(p, j, 4);
        lemma_bit_index(q, j, 4);
        lemma_bit_index(p, j, 5);
        lemma_bit_index(q, j, 5);
        lemma_bit_index(p, j, 6);
        lemma_bit_index(q, j, 6);
        lemma_bit_index(p, j, 7);
        lemma_bit_index(q, j, 7);
        lemma_byte_from_bits(p[j], q[j]);
    }
    assert(p =~= q);
}

/// Whether `p` is a payload of the bits `s`: the bytes that hold them, with
/// the bits past the last one clear.
pub open spec fn holds_bits(p: Seq<u8>, s: Seq<bool>) -> bool {
    &&& p.len() == payload_len(s.len())
    &&& forall|i: int| s.len() <= i < 8 * p.len() ==> !bit_at(p, i)
    &&& bits_of(p, s.len()) == s
}

/// The payload of the bits `s`; by `law_bits_fix_payload` there is at most
/// one.
pub open spec fn canonical_payload(s: Seq<bool>) -> Seq<u8> {
    choose|p: Seq<u8>| holds_bits(p, s)
}

/// A payload of some bits is the payload of those bits.
proof fn lemma_canonical_payload(p: Seq<u8>, s: Seq<bool>)
    requires
        holds_bits(p, s),
    ensures
        canonical_payload(s) == p,
{
    let q = canonical_payload(s);
    assert(holds_bits(q, s));
    law_bits_fix_payload(p, q, s.len());
}

/// Bit values with the same bits are the same value: the same length and
/// the same payload bytes. (`bit_len` and `payload` give the premises for
/// every value.)
pub proof fn law_equal_bits_equal_values(x: MySqlBit, y: MySqlBit)
    requires
        x@ == y@,
        x.spec_bit_len() == x@.len(),
        y.spec_bit_len() == y@.len(),
        x.payload_bytes() == canonical_payload(x@),
        y.payload_bytes() == canonical_payload(y@),
    ensures
        x.spec_bit_len() == y.spec_bit_len(),
        x.payload_bytes() == y.payload_bytes(),
{
}

/// A string of zero bytes.
fn zero_bytes(n: usize) -> (r: Vec<u8>)
    ensures
        r@.len() == n,
        forall|i: int| 0 <= i < n ==> r@[i] == 0u8,
{
    let mut r: Vec<u8> = Vec::new();
    let mut k: usize = 0;
    while k < n
        invariant
            k <= n,
            r@.len() == k,
            forall|i: int| 0 <= i < k ==> r@[i] == 0u8,
        decreases n - k,
    {
        r.push(0u8);
        k = k + 1;
    }
    r
}

/// No bit of a string of zero bytes is set.
proof fn lemma_zero_bits(p: Seq<u8>, i: int)
    requires
        0 <= i < 8 * p.len(),
        forall|j: int| 0 <= j < p.len() ==> p[j] == 0u8,
    ensures
        !bit_at(p, i),
{
    lemma_zero_bit((i % 8) as u8);
}

/// Sets bit `i` of the payload `p`.
fn set_bit(p: &mut Vec<u8>, i: usize)
    requires
        i < 8 * old(p)@.len(),
    ensures
        final(p)@.len() == old(p)@.len(),
        bit_at(final(p)@, i as int),
        forall|j: int| 0 <= j < 8 * old(p)@.len() && j != i ==> bit_at(final(p)@, j) == bit_at(old(p)@, j),
{
    let k = i / 8;
    let m = (i % 8) as u8;
    let b = p[k];
    p.set(k, b | (0x80u8 >> m));
    proof {
        lemma_or_bit(b, m, m);
        assert forall|j: int| 0 <= j < 8 * old(p)@.len() && j != i implies bit_at(p@, j) == bit_at(old(p)@, j) by {
            if j / 8 == k {
                lemma_or_bit(b, m, (j % 8) as u8);
            } else {
                lemma_bit_at_update(old(p)@, k as int, b | (0x80u8 >> m), j);
            }
        }
    }
}

/// Whether bit `i` of the payload `p` is set.
fn get_bit(p: &[u8], i: usize) -> (r: bool)
    requires
        i < 8 * p@.len(),
    ensures
        r == bit_at(p@, i as int),
{
    p[i / 8] & (0x80u8 >> ((i % 8) as u8)) != 0
}

/// A KingbaseES MySQL-compatible `sys.bit` value.
#[derive(Debug, PartialEq, Eq, Hash)]
pub struct MySqlBit {
    bit_len: u64,
    payload: Vec<u8>,
}

/// Returns the payload length for a bit length, or the error for a length
/// outside 1 to 64.
pub fn bit_payload_len(bit_len: u64) -> (r: Result<usize, MySqlBitError>)
    ensures
        bit_len == 0 ==> (r matches Err(re) && re == (MySqlBitError::InvalidBitLength { bit_len })),
        bit_len > 64 ==> (r matches Err(re) && re == (MySqlBitError::TooLong { bit_len })),
        1 <= bit_len <= 64 ==> (r matches Ok(rv) && rv == payload_len(bit_len as nat) as usize),
{
    if bit_len == 0 {
        return Err(MySqlBitError::InvalidBitLength { bit_len });
    }
    if bit_len > 64 {
        return Err(MySqlBitError::TooLong { bit_len });
    }
    Ok(((bit_len + 7) / 8) as usize)
}

/// Clears the bits of the last payload byte past the `bit_len`-th bit.
pub fn normalize_bit_payload(bit_len: u64, payload: Vec<u8>) -> (r: Vec<u8>)
    ensures
        r@ == normalized(payload@, bit_len as nat),
{
    let mut payload = payload;
    let remainder = bit_len % 8;
    if remainder != 0 {
        let n = payload.len();
        if n > 0 {
            let last = payload[n - 1];
            payload.set(n - 1, last & (0xffu8 << ((8 - remainder) as u8)));
        }
    }
    payload
}

/// The first `n` bits of a normalized payload are those of the payload, and
/// the bits past them are clear.
proof fn lemma_normalized_bits(p: Seq<u8>, n: nat, i: int)
    requires
        1 <= n <= 64,
        p.len() == payload_len(n),
        0 <= i < 8 * p.len(),
    ensures
        i < n ==> bit_at(normalized(p, n), i) == bit_at(p, i),
        i >= n ==> !bit_at(normalized(p, n), i),
{
    let q = normalized(p, n);
    let last = p.len() - 1;
    if n % 8 != 0 {
        if i / 8 == last {
            lemma_mask_bit(p[last], (n % 8) as u8, (i % 8) as u8);
        } else {
            lemma_bit_at_update(p, last, p.last() & keep_mask(n % 8), i);
        }
    }
}

impl Clone for MySqlBit {
    fn clone(&self) -> (r: Self)
        ensures
            r@ == self@,
            r.bit_len() == self.bit_len(),
            r.payload_bytes() == self.payload_bytes(),
    {
        proof {
            use_type_invariant(self);
        }
        let payload = crate::wire::bytes_to_vec(self.payload.as_slice());
        MySqlBit { bit_len: self.bit_len, payload }
    }
}

impl View for MySqlBit {
    type V = Seq<bool>;

    /// The bits of the value, most significant first.
    closed spec fn view(&self) -> Seq<bool> {
        bits_of(self.payload@, self.bit_len as nat)
    }
}

impl MySqlBit {
    /// The bit length lies in 1 to 64, the payload has the bytes that hold
    /// it, and the bits past the last one are clear.
    #[verifier::type_invariant]
    closed spec fn well_formed(self) -> bool {
        &&& 1 <= self.bit_len <= 64
        &&& self.payload@.len() == payload_len(self.bit_len as nat)
        &&& forall|i: int| self.bit_len <= i < 8 * self.payload@.len() ==> !bit_at(self.payload@, i)
    }

    /// The logical bit length.
    pub closed spec fn spec_bit_len(&self) -> u64 {
        self.bit_len
    }

    /// The normalized MSB-first payload bytes.
    pub closed spec fn payload_bytes(self) -> Seq<u8> {
        self.payload@
    }

    /// Creates a bit value from a logical bit length and MSB-first payload
    /// bytes; the bits past the `bit_len`-th are cleared.
    pub fn new(bit_len: u64, payload: Vec<u8>) -> (r: Result<MySqlBit, MySqlBitError>)
        ensures
            bit_len == 0 ==> (r matches Err(re) && re == (MySqlBitError::InvalidBitLength { bit_len })),
            bit_len > 64 ==> (r matches Err(re) && re == (MySqlBitError::TooLong { bit_len })),
            1 <= bit_len <= 64 && payload@.len() != payload_len(bit_len as nat)
                ==> (r matches Err(re) && re == (MySqlBitError::InvalidPayloadLength {
                    bit_len,
                    expected: payload_len(bit_len as nat) as usize,
                    actual: payload@.len() as usize,
                })),
            1 <= bit_len <= 64 && payload@.len() == payload_len(bit_len as nat) ==> (r matches Ok(
                b,
            ) && b.bit_len() == bit_len && b.payload_bytes() == normalized(payload@, bit_len as nat)
                && b@ == bits_of(payload@, bit_len as nat)),
    {
        let expected = match bit_payload_len(bit_len) {
            Ok(n) => n,
            Err(e) => return Err(e),
        };
        if payload.len() != expected {
            return Err(MySqlBitError::InvalidPayloadLength { bit_len, expected, actual: payload.len() });
        }
        let ghost p = payload@;
        let normalized_payload = normalize_bit_payload(bit_len, payload);
        proof {
            assert(payload_len(bit_len as nat) <= 8);
            assert(normalized_payload@.len() == p.len());
            assert forall|i: int| bit_len <= i < 8 * normalized_payload@.len() implies !bit_at(
                normalized_payload@,
                i,
            ) by {
                lemma_normalized_bits(p, bit_len as nat, i);
            }
            assert forall|i: int| 0 <= i < bit_len implies bit_at(normalized_payload@, i) == bit_at(
                p,
                i,
            ) by {
                lemma_normalized_bits(p, bit_len as nat, i);
            }
            assert(bits_of(normalized_payload@, bit_len as nat) =~= bits_of(p, bit_len as nat));
        }
        Ok(MySqlBit { bit_len, payload: normalized_payload })
    }

    /// Creates a bit value from an unsigned integer, written as a logical
    /// MSB-first bit string of exactly `bit_len` bits; a value that needs
    /// more bits is rejected.
    pub fn from_u64(bit_len: u64, value: u64) -> (r: Result<MySqlBit, MySqlBitError>)
        ensures
            bit_len == 0 ==> (r matches Err(re) && re == (MySqlBitError::InvalidBitLength { bit_len })),
            bit_len > 64 ==> (r matches Err(re) && re == (MySqlBitError::TooLong { bit_len })),
            1 <= bit_len <= 64 && value >= pow2(bit_len as nat)
                ==> (r matches Err(re) && re == (MySqlBitError::ValueTooLarge { bit_len, value })),
            1 <= bit_len <= 64 && value < pow2(bit_len as nat) ==> (r matches Ok(b) && b@
                == value_bits(bit_len as nat, value as nat)),
    {
        let byte_len = match bit_payload_len(bit_len) {
            Ok(n) => n,
            Err(e) => return Err(e),
        };
        proof {
            lemma2_to64();
        }
        if bit_len < 64 {
            proof {
                vstd::arithmetic::power2::lemma_pow2_strictly_increases(bit_len as nat, 64);
                lemma_u64_shl_is_mul(1, bit_len);
            }
            if value >= (1u64 << bit_len) {
                return Err(MySqlBitError::ValueTooLarge { bit_len, value });
            }
        }
        let mut payload = zero_bytes(byte_len);
        proof {
            assert forall|j: int| 0 <= j < 8 * payload@.len() implies !bit_at(payload@, j) by {
                lemma_zero_bits(payload@, j);
            }
        }
        let n = bit_len as usize;
        let mut index: usize = 0;
        while index < n
            invariant
                1 <= n <= 64,
                n == bit_len,
                payload@.len() == byte_len == payload_len(bit_len as nat),
                index <= n,
                forall|j: int| 0 <= j < index ==> bit_at(payload@, j) == value_bit(bit_len as nat, value as nat, j),
                forall|j: int| index <= j < 8 * payload@.len() ==> !bit_at(payload@, j),
            decreases n - index,
        {
            let shift = (n - 1 - index) as u64;
            proof {
                lemma_u64_shr_is_div(value, shift);
            }
            if (value >> shift) % 2 == 1 {
                let ghost before = payload@;
                set_bit(&mut payload, index);
                assert forall|j: int| 0 <= j < index + 1 implies bit_at(payload@, j) == value_bit(bit_len as nat, value as nat, j) by {
                    if j < index {
                        assert(bit_at(before, j) == value_bit(bit_len as nat, value as nat, j));
                    }
                }
            }
            index = index + 1;
        }
        proof {
            assert(bits_of(payload@, bit_len as nat) =~= value_bits(bit_len as nat, value as nat));
        }
        Ok(MySqlBit { bit_len, payload })
    }

    /// Creates a one-bit value from a boolean.
    pub fn from_bool(value: bool) -> (r: MySqlBit)
        ensures
            r@ == seq![value],
            r.bit_len() == 1,
    {
        let payload: Vec<u8> = if value {
            vec![0x80u8]
        } else {
            vec![0x00u8]
        };
        proof {
            lemma_bool_bytes();
            assert forall|i: int| 1 <= i < 8 implies !bit_at(payload@, i) by {
                if value {
                    assert(bit_at(seq![0x80u8], i) == bit_at(seq![0x80u8], i));
                    lemma_mask_bit(0x80u8, 1, (i % 8) as u8);
                    assert((0x80u8 & (0xffu8 << ((8 - 1u8) as u8))) == 0x80u8) by (bit_vector);
                } else {
                    lemma_zero_bit((i % 8) as u8);
                }
            }
            assert(bits_of(payload@, 1) =~= seq![value]);
        }
        MySqlBit { bit_len: 1, payload }
    }

    /// Returns the logical bit length, which lies in 1 to 64.
    #[verifier::when_used_as_spec(spec_bit_len)]
    pub fn bit_len(&self) -> (r: u64)
        ensures
            r == self.spec_bit_len(),
            1 <= r <= 64,
            self@.len() == r,
    {
        proof {
            use_type_invariant(self);
        }
        self.bit_len
    }

    /// Returns the normalized MSB-first payload bytes: they hold the bits of
    /// the value, and the bits past the last one are clear.
    pub fn payload(&self) -> (r: &[u8])
        ensures
            r@ == self.payload_bytes(),
            r@ == canonical_payload(self@),
            r@.len() == payload_len(self.bit_len() as nat),
            self@ == bits_of(r@, self.bit_len() as nat),
            forall|i: int| self.bit_len() <= i < 8 * r@.len() ==> !bit_at(r@, i),
    {
        proof {
            use_type_invariant(self);
            lemma_canonical_payload(self.payload@, self@);
        }
        self.payload.as_slice()
    }

    /// Returns the logical bit string as an unsigned integer.
    pub fn to_u64(&self) -> (r: u64)
        ensures
            r == seq_value(self@),
    {
        proof {
            use_type_invariant(self);
            lemma2_to64();
        }
        let n = self.bit_len as usize;
        let mut value: u64 = 0;
        let mut index: usize = 0;
        while index < n
            invariant
                1 <= n <= 64,
                n == self.bit_len,
                self.payload@.len() == payload_len(self.bit_len as nat),
                index <= n,
                value == seq_value(self@.subrange(0, index as int)),
                value < pow2(index as nat),
            decreases n - index,
        {
            let ghost s = self@.subrange(0, index + 1);
            assert(s.drop_last() =~= self@.subrange(0, index as int));
            proof {
                lemma2_to64();
                lemma_pow2_unfold((index + 1) as nat);
                if index + 1 < 64 {
                    vstd::arithmetic::power2::lemma_pow2_strictly_increases((index + 1) as nat, 64);
                }
                assert(pow2((index + 1) as nat) <= 0x1_0000_0000_0000_0000);
            }
            let bit = get_bit(self.payload.as_slice(), index);
            value = if bit {
                value * 2 + 1
            } else {
                value * 2
            };
            index = index + 1;
        }
        assert(self@.subrange(0, n as int) =~= self@);
        value
    }

    /// Returns this value as a boolean when its logical bit length is exactly 1.
    pub fn as_bool(&self) -> (r: Option<bool>)
        ensures
            self.bit_len() == 1 ==> r == Some(self@[0]),
            self.bit_len() != 1 ==> r is None,
    {
        proof {
            use_type_invariant(self);
        }
        if self.bit_len == 1 {
            let first: u8 = match self.payload.first() {
                Some(b) => *b,
                None => 0,
            };
            proof {
                lemma_first_bit(first);
            }
            Some(first & 0x80 != 0)
        } else {
            None
        }
    }
}

/// Whether bit `i` of the payload that starts at `start` in `p` is set.
fn get_bit_from(p: &[u8], start: usize, i: usize) -> (r: bool)
    requires
        start <= p@.len(),
        i < 8 * (p@.len() - start),
    ensures
        r == bit_at(p@.subrange(start as int, p@.len() as int), i as int),
{
    let len = p.len();
    let k = i / 8;
    assert(k < len - start) by (nonlinear_arith)
        requires
            i < 8 * (len - start),
            k == i / 8,
    ;
    p[start + k] & (0x80u8 >> ((i % 8) as u8)) != 0
}

/// The bits of a wire value: `leading` clear bits followed by the first
/// `significant` bits of the payload `p`.
pub open spec fn wire_bits(leading: nat, significant: nat, p: Seq<u8>) -> Seq<bool> {
    Seq::new(leading + significant, |i: int| i >= leading && bit_at(p, i - leading))
}

/// Whether a bit past the first `significant` ones of the payload `p` is set.
pub open spec fn has_unused_bit(p: Seq<u8>, significant: nat) -> bool {
    exists|i: int| significant <= i < 8 * p.len() && #[trigger] bit_at(p, i)
}

/// What the wire value `raw` decodes to: the bits of the value, or the
/// error that rejects it. The value starts with two big-endian 32-bit
/// counts, of leading clear bits and of significant bits, followed by the
/// significant bits, sized for the whole bit length.
pub open spec fn bit_wire_decoding(raw: Seq<u8>) -> Result<Seq<bool>, SqlError> {
    if raw.len() < 8 {
        Err(SqlError::MySqlBit(MySqlBitError::MissingLengthHeader { actual: raw.len() as usize }))
    } else {
        let leading = be_value(raw.subrange(0, 4));
        let significant = be_value(raw.subrange(4, 8));
        let n = leading + significant;
        let body = raw.subrange(8, raw.len() as int);
        if n == 0 {
            Err(SqlError::MySqlBit(MySqlBitError::InvalidBitLength { bit_len: 0 }))
        } else if n > 64 {
            Err(SqlError::MySqlBit(MySqlBitError::TooLong { bit_len: n as u64 }))
        } else if raw.len() != 8 + payload_len(n) {
            Err(SqlError::MySqlBit(MySqlBitError::InvalidPayloadLength {
                bit_len: n as u64,
                expected: payload_len(n) as usize,
                actual: (raw.len() - 8) as usize,
            }))
        } else if has_unused_bit(body, significant) {
            Err(SqlError::NonZeroUnusedBits)
        } else {
            Ok(wire_bits(leading, significant, body))
        }
    }
}

/// The index of the first set bit at or after `i`, or the length when
/// there is none.
pub open spec fn first_set_from(bits: Seq<bool>, i: nat) -> nat
    decreases bits.len() - i,
{
    if i >= bits.len() {
        bits.len()
    } else if bits[i as int] {
        i
    } else {
        first_set_from(bits, i + 1)
    }
}

/// The count of leading clear bits that the wire form gives a value: those
/// before its first set bit, or none for a value with no set bit.
pub open spec fn wire_leading(bits: Seq<bool>) -> nat {
    let f = first_set_from(bits, 0);
    if f == bits.len() {
        0
    } else {
        f
    }
}

/// Whether `enc` is the wire form of the bits `bits`: the count of leading
/// clear bits and of the rest, then the rest of the bits in as few bytes as
/// hold them.
pub open spec fn bit_wire_encoded(bits: Seq<bool>, enc: Seq<u8>) -> bool {
    let leading = wire_leading(bits);
    let significant = (bits.len() - leading) as nat;
    &&& enc.len() == 8 + payload_len(significant)
    &&& enc.subrange(0, 4) == be_bytes(leading, 4)
    &&& enc.subrange(4, 8) == be_bytes(significant, 4)
    &&& forall|i: int| 0 <= i < 8 * payload_len(significant) ==> #[trigger] bit_at(enc.subrange(8, enc.len() as int), i)
        == (i < significant && bits[leading + i])
}

/// Properties of the first set bit at or after `i`.
proof fn lemma_first_set_from(bits: Seq<bool>, i: nat)
    requires
        i <= bits.len(),
    ensures
        i <= first_set_from(bits, i) <= bits.len(),
        first_set_from(bits, i) < bits.len() ==> bits[first_set_from(bits, i) as int],
        forall|j: int| i <= j < first_set_from(bits, i) ==> !bits[j],
    decreases bits.len() - i,
{
    if i < bits.len() && !bits[i as int] {
        lemma_first_set_from(bits, i + 1);
    }
}

/// Decoding the wire form of a value gives its bits back, whenever the
/// bytes that hold its significant bits are as many as the bytes of its
/// whole width (the decoder sizes the payload by the whole width).
pub proof fn law_bit_wire_round_trip(bits: Seq<bool>, enc: Seq<u8>)
    requires
        1 <= bits.len() <= 64,
        bit_wire_encoded(bits, enc),
        payload_len((bits.len() - wire_leading(bits)) as nat) == payload_len(bits.len()),
    ensures
        bit_wire_decoding(enc) == Ok::<Seq<bool>, SqlError>(bits),
{
    lemma_first_set_from(bits, 0);
    let n = bits.len();
    let leading = wire_leading(bits);
    let significant = (n - leading) as nat;
    lemma_u32_round_trip(leading as u32);
    lemma_u32_round_trip(significant as u32);
    assert(enc.subrange(0, 4) == be_bytes(leading, 4));
    assert(enc.subrange(4, 8) == be_bytes(significant, 4));
    let body = enc.subrange(8, enc.len() as int);
    assert(!has_unused_bit(body, significant)) by {
        assert forall|i: int| significant <= i < 8 * body.len() implies !#[trigger] bit_at(body, i) by {
            assert(bit_at(body, i) == (i < significant && bits[leading + i]));
        }
    }
    assert(wire_bits(leading, significant, body) =~= bits) by {
        assert forall|i: int| 0 <= i < n implies #[trigger] wire_bits(leading, significant, body)[i] == bits[i] by {
            if i >= leading {
                assert(bit_at(body, i - leading) == (i - leading < significant && bits[i]));
            }
        }
    }
}

impl<'a> FromSql<'a> for MySqlBit {
    open spec fn accepted(ty: TypeView) -> bool {
        has_identity_of(ty, Builtin::MysqlSysBit)
    }

    open spec fn decodes(ty: TypeView, raw: Option<Seq<u8>>, v: Self) -> bool {
        raw matches Some(b) && bit_wire_decoding(b) matches Ok(bits) && v@ == bits
    }

    open spec fn decodes_ok(ty: TypeView, raw: Seq<u8>) -> bool {
        bit_wire_decoding(raw) is Ok
    }

    fn from_sql(ty: &Type, raw: &'a [u8]) -> (r: Result<MySqlBit, SqlError>)
        ensures
            match bit_wire_decoding(raw@) {
                Ok(bits) => r matches Ok(b) && b@ == bits,
                Err(e) => r matches Err(re) && re == e,
            },
    {
        if raw.len() < 8 {
            return Err(SqlError::MySqlBit(MySqlBitError::MissingLengthHeader { actual: raw.len() }));
        }
        let leading_zero_bits = read_be_u32(raw, 0) as u64;
        let significant_bits = read_be_u32(raw, 4) as u64;
        let bit_len = match leading_zero_bits.checked_add(significant_bits) {
            Some(n) => n,
            None => return Err(SqlError::MySqlBit(MySqlBitError::TooLong { bit_len: u64::MAX })),
        };
        let expected = match bit_payload_len(bit_len) {
            Ok(n) => n,
            Err(e) => return Err(SqlError::MySqlBit(e)),
        };
        if raw.len() != 8 + expected {
            return Err(SqlError::MySqlBit(MySqlBitError::InvalidPayloadLength {
                bit_len,
                expected,
                actual: raw.len() - 8,
            }));
        }
        let ghost body = raw@.subrange(8, raw@.len() as int);
        let body_bits = 8 * (raw.len() - 8);
        let mut index = significant_bits as usize;
        while index < body_bits
            invariant
                raw@.len() == 8 + expected,
                expected == payload_len(bit_len as nat),
                leading_zero_bits == be_value(raw@.subrange(0, 4)),
                significant_bits == be_value(raw@.subrange(4, 8)),
                bit_len == leading_zero_bits + significant_bits,
                1 <= bit_len,
                expected <= 8,
                body == raw@.subrange(8, raw@.len() as int),
                body_bits == 8 * body.len(),
                significant_bits <= bit_len <= 64,
                significant_bits <= index <= body_bits,
                forall|j: int| significant_bits <= j < index ==> !bit_at(body, j),
            decreases body_bits - index,
        {
            if get_bit_from(raw, 8, index) {
                return Err(SqlError::NonZeroUnusedBits);
            }
            index = index + 1;
        }
        let mut payload = zero_bytes(expected);
        proof {
            assert forall|j: int| 0 <= j < 8 * payload@.len() implies !bit_at(payload@, j) by {
                lemma_zero_bits(payload@, j);
            }
        }
        let sig = significant_bits as usize;
        let lead = leading_zero_bits as usize;
        let mut index: usize = 0;
        while index < sig
            invariant
                raw@.len() == 8 + expected,
                body == raw@.subrange(8, raw@.len() as int),
                payload@.len() == expected == payload_len(bit_len as nat),
                lead + sig == bit_len <= 64,
                index <= sig,
                forall|j: int| 0 <= j < lead + index ==> bit_at(payload@, j) == (j >= lead && bit_at(body, j - lead)),
                forall|j: int| lead + index <= j < 8 * payload@.len() ==> !bit_at(payload@, j),
            decreases sig - index,
        {
            if get_bit_from(raw, 8, index) {
                let position = lead + index;
                let ghost before = payload@;
                set_bit(&mut payload, position);
                assert forall|j: int| 0 <= j < lead + index + 1 implies bit_at(payload@, j) == (j >= lead && bit_at(body, j - lead)) by {
                    if j < lead + index {
                        assert(bit_at(before, j) == (j >= lead && bit_at(body, j - lead)));
                    }
                }
            }
            index = index + 1;
        }
        proof {
            assert(bits_of(payload@, bit_len as nat) =~= wire_bits(leading_zero_bits as nat, significant_bits as nat, body));
        }
        match MySqlBit::new(bit_len, payload) {
            Ok(b) => Ok(b),
            Err(e) => Err(SqlError::MySqlBit(e)),
        }
    }

    fn accepts(ty: &Type) -> (r: bool) {
        accepts_mysql_bit(ty)
    }
}

impl ToSql for MySqlBit {
    open spec fn accepted(ty: TypeView) -> bool {
        has_identity_of(ty, Builtin::MysqlSysBit)
    }

    open spec fn encoded_len(&self) -> nat {
        16
    }

    open spec fn format_for(&self, ty: TypeView) -> Format {
        Format::Binary
    }

    open spec fn encodes(&self, ty: TypeView, w: Seq<u8>, null: IsNull) -> bool {
        null == IsNull::No && bit_wire_encoded(self@, w)
    }

    fn to_sql(&self, ty: &Type, out: &mut BytesMut) -> (r: Result<IsNull, SqlError>)
        ensures
            r matches Ok(v) && v == IsNull::No,
            buffer_bytes(*final(out)).len() >= buffer_bytes(*old(out)).len(),
            buffer_bytes(*final(out)).subrange(0, buffer_bytes(*old(out)).len() as int) == buffer_bytes(*old(out)),
            bit_wire_encoded(self@, buffer_bytes(*final(out)).subrange(buffer_bytes(*old(out)).len() as int, buffer_bytes(*final(out)).len() as int)),
    {
        proof {
            use_type_invariant(self);
            lemma_first_set_from(self@, 0);
        }
        let n = self.bit_len as usize;
        let mut leading_zero_bits = self.bit_len;
        let mut index: usize = 0;
        while index < n
            invariant_except_break
                n == self.bit_len <= 64,
                self.payload@.len() == payload_len(self.bit_len as nat),
                leading_zero_bits == self.bit_len,
                index <= n,
                first_set_from(self@, 0) == first_set_from(self@, index as nat),
            ensures
                leading_zero_bits == first_set_from(self@, 0),
            decreases n - index,
        {
            if get_bit(self.payload.as_slice(), index) {
                leading_zero_bits = index as u64;
                break;
            }
            index = index + 1;
        }
        if leading_zero_bits == self.bit_len {
            leading_zero_bits = 0;
        }
        let significant_bits = self.bit_len - leading_zero_bits;
        let ghost o = buffer_bytes(*out);
        proof {
            assert(leading_zero_bits == wire_leading(self@));
            lemma_u32_round_trip(leading_zero_bits as u32);
            lemma_u32_round_trip(significant_bits as u32);
        }
        put_u32(out, leading_zero_bits as u32);
        put_u32(out, significant_bits as u32);
        let sig_len = match bit_payload_len(significant_bits) {
            Ok(n) => n,
            Err(e) => return Err(SqlError::MySqlBit(e)),
        };
        let mut significant = zero_bytes(sig_len);
        proof {
            assert forall|j: int| 0 <= j < 8 * significant@.len() implies !bit_at(significant@, j) by {
                lemma_zero_bits(significant@, j);
            }
        }
        let sig = significant_bits as usize;
        let lead = leading_zero_bits as usize;
        let mut index: usize = 0;
        while index < sig
            invariant
                n == self.bit_len <= 64,
                self.payload@.len() == payload_len(self.bit_len as nat),
                lead + sig == n,
                significant@.len() == sig_len == payload_len(sig as nat),
                index <= sig,
                forall|j: int| 0 <= j < index ==> bit_at(significant@, j) == self@[lead + j],
                forall|j: int| index <= j < 8 * significant@.len() ==> !bit_at(significant@, j),
            decreases sig - index,
        {
            let source = lead + index;
            if get_bit(self.payload.as_slice(), source) {
                let ghost before = significant@;
                set_bit(&mut significant, index);
                assert forall|j: int| 0 <= j < index + 1 implies bit_at(significant@, j) == self@[lead + j] by {
                    if j < index {
                        assert(bit_at(before, j) == self@[lead + j]);
                    }
                }
            }
            index = index + 1;
        }
        extend_from_slice(out, significant.as_slice());
        proof {
            let f = buffer_bytes(*out);
            let enc = f.subrange(o.len() as int, f.len() as int);
            assert(enc.subrange(0, 4) =~= be_bytes(leading_zero_bits as nat, 4));
            assert(enc.subrange(4, 8) =~= be_bytes(significant_bits as nat, 4));
            assert(enc.subrange(8, enc.len() as int) =~= significant@);
            assert(f.subrange(0, o.len() as int) =~= o);
            assert(f =~= o + enc);
        }
        Ok(IsNull::No)
    }

    fn accepts(ty: &Type) -> (r: bool) {
        accepts_mysql_bit(ty)
    }

    fn rust_name() -> &'static str {
        "kingbase_types::kingbase::MySqlBit"
    }

    fn encode_format(&self, ty: &Type) -> (r: Format) {
        Format::Binary
    }
}

/// Whether `ty` is `sys.bit` of the MySQL mode, with its oid, name, schema
/// and simple kind.
fn accepts_mysql_bit(ty: &Type) -> (r: bool)
    ensures
        r == has_identity_of(ty@, Builtin::MysqlSysBit),
{
    has_identity(ty, Builtin::MysqlSysBit)
}

} // verus!
