//! The binary NUMERIC format: base-10000 digits with a weight, a sign and a
//! display scale, decoded as integers and as decimal text.

use vstd::prelude::*;
use crate::error::NumericError;
use bytes::BytesMut;
use crate::text::{decimal, zero_padded, zeros, push_decimal, push_padded4, push_zeros, string_from_chars, digits_value, all_digits};
use crate::wire::{be_signed, be_value, be_bytes, signed_bytes, read_be_i16, read_be_u16, buffer_bytes, put_i16, put_u16};

verus! {

/// The two-byte signed field of `raw` at `at`.
pub open spec fn field_i16(raw: Seq<u8>, at: int) -> int {
    be_signed(raw.subrange(at, at + 2))
}

/// The `nd` base-10000 digits that follow the eight-byte header.
pub open spec fn numeric_digits(raw: Seq<u8>, nd: nat) -> Seq<int> {
    Seq::new(nd, |k: int| field_i16(raw, 8 + 2 * k))
}

/// The weight, sign, display scale and digits of a binary NUMERIC value, or
/// the error that rejects it; `nan` is the error for a NaN.
pub open spec fn numeric_parts(raw: Seq<u8>, nan: NumericError) -> Result<(int, int, int, Seq<int>), NumericError> {
    if raw.len() < 8 {
        Err(NumericError::InvalidValue)
    } else {
        let nd = field_i16(raw, 0);
        let weight = field_i16(raw, 2);
        let sign = be_value(raw.subrange(4, 6));
        let dscale = field_i16(raw, 6);
        if nd < 0 || dscale < 0 || raw.len() - 8 != nd * 2 {
            Err(NumericError::InvalidValue)
        } else if sign == 0xC000 {
            Err(nan)
        } else if sign != 0 && sign != 0x4000 {
            Err(NumericError::InvalidSign)
        } else {
            let d = numeric_digits(raw, nd as nat);
            if exists|k: int| 0 <= k < nd && !(0 <= #[trigger] d[k] < 10000) {
                Err(NumericError::InvalidDigit)
            } else {
                Ok((weight, sign as int, dscale, d))
            }
        }
    }
}

/// The header and digits of a binary NUMERIC value.
pub struct NumericParts {
    /// The power of 10000 of the first digit.
    pub weight: i16,
    /// The sign word: `0x0000` for positive, `0x4000` for negative.
    pub sign: u16,
    /// The number of decimal digits after the point to display.
    pub dscale: i16,
    /// The base-10000 digits, most significant first.
    pub digits: Vec<i16>,
}

/// The digits as integers.
pub open spec fn digit_values(v: Seq<i16>) -> Seq<int> {
    v.map_values(|x: i16| x as int)
}

/// Reads the header and digits of a binary NUMERIC value; `nan` is the
/// error to give for a NaN.
pub fn decode_numeric(raw: &[u8], nan: NumericError) -> (r: Result<NumericParts, NumericError>)
    ensures
        match r {
            Ok(p) => numeric_parts(raw@, nan) == Ok::<(int, int, int, Seq<int>), NumericError>(
                (p.weight as int, p.sign as int, p.dscale as int, digit_values(p.digits@)),
            ),
            Err(e) => numeric_parts(raw@, nan) == Err::<(int, int, int, Seq<int>), NumericError>(e),
        },
{
    if raw.len() < 8 {
        return Err(NumericError::InvalidValue);
    }
    let ndigits = read_be_i16(raw, 0);
    let weight = read_be_i16(raw, 2);
    let sign = read_be_u16(raw, 4);
    let dscale = read_be_i16(raw, 6);
    if ndigits < 0 || dscale < 0 || raw.len() - 8 != (ndigits as usize) * 2 {
        return Err(NumericError::InvalidValue);
    }
    if sign == 0xC000 {
        return Err(nan);
    }
    if sign != 0x0000 && sign != 0x4000 {
        return Err(NumericError::InvalidSign);
    }
    let n = ndigits as usize;
    let len = raw.len();
    let ghost d = numeric_digits(raw@, n as nat);
    let mut digits: Vec<i16> = Vec::new();
    let mut k: usize = 0;
    while k < n
        invariant
            k <= n,
            len == raw@.len() == 8 + 2 * n,
            raw@.len() >= 8,
            n as int == field_i16(raw@, 0),
            field_i16(raw@, 6) >= 0,
            be_value(raw@.subrange(4, 6)) == 0 || be_value(raw@.subrange(4, 6)) == 0x4000,
            d == numeric_digits(raw@, n as nat),
            digits@.len() == k,
            forall|j: int| 0 <= j < k ==> #[trigger] digits@[j] as int == d[j] && 0 <= d[j] < 10000,
        decreases n - k,
    {
        let digit = read_be_i16(raw, 8 + 2 * k);
        if !(0 <= digit && digit < 10000) {
            assert(!(0 <= d[k as int] < 10000));
            return Err(NumericError::InvalidDigit);
        }
        digits.push(digit);
        k = k + 1;
    }
    proof {
        assert(digit_values(digits@) =~= d);
    }
    Ok(NumericParts { weight, sign, dscale, digits })
}

/// The value of the first `groups` base-10000 digits, counting digits past
/// the last as zero.
pub open spec fn group_value(d: Seq<int>, groups: nat) -> int
    decreases groups,
{
    if groups == 0 {
        0
    } else {
        group_value(d, (groups - 1) as nat) * 10000 + if groups - 1 < d.len() {
            d[groups - 1]
        } else {
            0
        }
    }
}

/// The number of base-10000 digits before the point.
pub open spec fn integer_groups(weight: int) -> nat {
    if weight + 1 > 0 {
        (weight + 1) as nat
    } else {
        0
    }
}

/// The integer that a binary NUMERIC value holds, or the error that rejects
/// it: a fraction, a value outside `i64`, a NaN or a malformed value.
pub open spec fn numeric_i64_decoding(raw: Seq<u8>) -> Result<int, NumericError> {
    match numeric_parts(raw, NumericError::NanAsInteger) {
        Err(e) => Err(e),
        Ok((weight, sign, dscale, d)) => if d.len() == 0 {
            Ok(0)
        } else {
            let groups = integer_groups(weight);
            if exists|k: int| groups <= k < d.len() && #[trigger] d[k] != 0 {
                Err(NumericError::NotAnInteger)
            } else {
                let m = group_value(d, groups);
                let limit = if sign == 0x4000 {
                    0x8000_0000_0000_0000int
                } else {
                    0x7fff_ffff_ffff_ffffint
                };
                if m > limit {
                    Err(NumericError::OutOfRangeForI64)
                } else if sign == 0x4000 {
                    Ok(-m)
                } else {
                    Ok(m)
                }
            }
        },
    }
}

/// A longer prefix of non-negative digits is worth no less.
proof fn lemma_group_value_monotone(d: Seq<int>, j: nat, k: nat)
    requires
        j <= k,
        forall|i: int| 0 <= i < d.len() ==> 0 <= #[trigger] d[i] < 10000,
    ensures
        0 <= group_value(d, j) <= group_value(d, k),
    decreases k,
{
    if k > 0 {
        if j < k {
            lemma_group_value_monotone(d, j, (k - 1) as nat);
        }
        lemma_group_value_monotone(d, 0, (k - 1) as nat);
    }
}

/// Decodes a binary NUMERIC value that holds an integer as an `i64`.
pub fn numeric_to_i64(raw: &[u8]) -> (r: Result<i64, NumericError>)
    ensures
        match r {
            Ok(v) => numeric_i64_decoding(raw@) == Ok::<int, NumericError>(v as int),
            Err(e) => numeric_i64_decoding(raw@) == Err::<int, NumericError>(e),
        },
{
    let parts = match decode_numeric(raw, NumericError::NanAsInteger) {
        Ok(p) => p,
        Err(e) => return Err(e),
    };
    let ghost d = digit_values(parts.digits@);
    let n = parts.digits.len();
    if n == 0 {
        return Ok(0);
    }
    let next: i32 = parts.weight as i32 + 1;
    let groups: usize = if next > 0 {
        next as usize
    } else {
        0
    };
    let ghost whole = numeric_parts(raw@, NumericError::NanAsInteger);
    let mut k = if groups < n {
        groups
    } else {
        n
    };
    while k < n
        invariant
            k <= n == parts.digits@.len(),
            groups <= k || k == n,
            n > 0,
            groups == integer_groups(parts.weight as int),
            d == digit_values(parts.digits@),
            whole == numeric_parts(raw@, NumericError::NanAsInteger),
            whole == Ok::<(int, int, int, Seq<int>), NumericError>((parts.weight as int, parts.sign as int, parts.dscale as int, d)),
            forall|j: int| groups <= j < k ==> d[j] == 0,
        decreases n - k,
    {
        if parts.digits[k] != 0 {
            assert(d[k as int] != 0);
            return Err(NumericError::NotAnInteger);
        }
        k = k + 1;
    }
    let negative = parts.sign == 0x4000;
    let limit: u64 = if negative {
        0x8000_0000_0000_0000
    } else {
        0x7fff_ffff_ffff_ffff
    };
    let mut magnitude: u64 = 0;
    let mut index: usize = 0;
    while index < groups
        invariant
            index <= groups,
            n == parts.digits@.len(),
            n > 0,
            groups == integer_groups(parts.weight as int),
            d == digit_values(parts.digits@),
            whole == numeric_parts(raw@, NumericError::NanAsInteger),
            whole == Ok::<(int, int, int, Seq<int>), NumericError>((parts.weight as int, parts.sign as int, parts.dscale as int, d)),
            forall|j: int| groups <= j < n ==> d[j] == 0,
            negative == (parts.sign == 0x4000),
            limit == (if negative { 0x8000_0000_0000_0000u64 } else { 0x7fff_ffff_ffff_ffffu64 }),
            forall|i: int| 0 <= i < d.len() ==> 0 <= #[trigger] d[i] < 10000,
            magnitude == group_value(d, index as nat),
            magnitude <= limit,
        decreases groups - index,
    {
        let digit: u64 = if index < n {
            assert(d[index as int] == parts.digits@[index as int] as int);
            parts.digits[index] as u64
        } else {
            0
        };
        proof {
            lemma_group_value_monotone(d, (index + 1) as nat, groups as nat);
        }
        let scaled = match magnitude.checked_mul(10_000) {
            Some(v) => v,
            None => return Err(NumericError::OutOfRangeForI64),
        };
        let next_value = match scaled.checked_add(digit) {
            Some(v) => v,
            None => return Err(NumericError::OutOfRangeForI64),
        };
        if next_value > limit {
            return Err(NumericError::OutOfRangeForI64);
        }
        magnitude = next_value;
        index = index + 1;
    }
    if negative {
        if magnitude == 0x8000_0000_0000_0000 {
            Ok(i64::MIN)
        } else {
            Ok(-(magnitude as i64))
        }
    } else {
        Ok(magnitude as i64)
    }
}

/// The text of base-10000 digit `i` of the integer part: the first without
/// padding, the others padded to four digits, and missing ones as `0000`.
pub open spec fn group_text(d: Seq<int>, i: int) -> Seq<char> {
    if i < d.len() {
        if i == 0 {
            decimal(d[0] as nat)
        } else {
            zero_padded(d[i] as nat, 4)
        }
    } else {
        "0000"@
    }
}

/// The text of the first `groups` base-10000 digits of the integer part.
pub open spec fn int_text(d: Seq<int>, groups: nat) -> Seq<char>
    decreases groups,
{
    if groups == 0 {
        Seq::<char>::empty()
    } else {
        int_text(d, (groups - 1) as nat) + group_text(d, groups - 1)
    }
}

/// The four-digit texts of digits `start` up to `end`.
pub open spec fn frac_text(d: Seq<int>, start: nat, end: nat) -> Seq<char>
    decreases end,
{
    if end <= start {
        Seq::<char>::empty()
    } else {
        frac_text(d, start, (end - 1) as nat) + zero_padded(d[end - 1] as nat, 4)
    }
}

/// `s` cut or padded with zeros to exactly `n` characters.
pub open spec fn fit_to(s: Seq<char>, n: nat) -> Seq<char> {
    if s.len() > n {
        s.take(n as int)
    } else {
        s + zeros((n - s.len()) as nat)
    }
}

/// The decimal text of a binary NUMERIC value, with as many fractional
/// digits as its display scale, or the error that rejects it.
pub open spec fn numeric_text_decoding(raw: Seq<u8>) -> Result<Seq<char>, NumericError> {
    match numeric_parts(raw, NumericError::NanAsDecimal) {
        Err(e) => Err(e),
        Ok((weight, sign, dscale, d)) => if d.len() == 0 {
            Ok(seq!['0'] + if dscale > 0 {
                seq!['.'] + zeros(dscale as nat)
            } else {
                Seq::<char>::empty()
            })
        } else {
            let dg = weight + 1;
            let head = (if sign == 0x4000 {
                seq!['-']
            } else {
                Seq::<char>::empty()
            }) + (if dg <= 0 {
                seq!['0']
            } else {
                int_text(d, dg as nat)
            });
            let start: nat = if dg > 0 {
                dg as nat
            } else {
                0
            };
            let frac = (if dg < 0 {
                zeros((4 * (-dg)) as nat)
            } else {
                Seq::<char>::empty()
            }) + frac_text(d, start, d.len());
            if dscale > 0 {
                Ok(head + seq!['.'] + fit_to(frac, dscale as nat))
            } else {
                Ok(head)
            }
        },
    }
}

/// Appends a point and `scale` zeros when `scale` is positive.
pub fn append_fractional_scale(text: &mut Vec<char>, scale: usize)
    ensures
        final(text)@ == old(text)@ + if scale > 0 {
            seq!['.'] + zeros(scale as nat)
        } else {
            Seq::<char>::empty()
        },
{
    if scale > 0 {
        text.push('.');
        push_zeros(text, scale);
        assert(text@ =~= old(text)@ + (seq!['.'] + zeros(scale as nat)));
    } else {
        assert(text@ =~= old(text)@ + Seq::<char>::empty());
    }
}

/// Decodes a binary NUMERIC value as decimal text, with as many fractional
/// digits as its display scale.
pub fn numeric_to_string(raw: &[u8]) -> (r: Result<String, NumericError>)
    ensures
        match r {
            Ok(s) => numeric_text_decoding(raw@) == Ok::<Seq<char>, NumericError>(s@),
            Err(e) => numeric_text_decoding(raw@) == Err::<Seq<char>, NumericError>(e),
        },
{
    let parts = match decode_numeric(raw, NumericError::NanAsDecimal) {
        Ok(p) => p,
        Err(e) => return Err(e),
    };
    let ghost d = digit_values(parts.digits@);
    let dscale = parts.dscale as usize;
    let n = parts.digits.len();
    if n == 0 {
        let mut text: Vec<char> = Vec::new();
        text.push('0');
        append_fractional_scale(&mut text, dscale);
        return Ok(string_from_chars(&text));
    }
    let decimal_groups: i32 = parts.weight as i32 + 1;
    let mut text: Vec<char> = Vec::new();
    if parts.sign == 0x4000 {
        text.push('-');
    }
    let ghost sign_text = text@;
    if decimal_groups <= 0 {
        text.push('0');
    } else {
        let groups = decimal_groups as usize;
        let mut i: usize = 0;
        while i < groups
            invariant
                i <= groups,
                n == parts.digits@.len(),
                d == digit_values(parts.digits@),
                forall|j: int| 0 <= j < d.len() ==> 0 <= #[trigger] d[j] < 10000,
                text@ == sign_text + int_text(d, i as nat),
            decreases groups - i,
        {
            if i < n {
                assert(d[i as int] == parts.digits@[i as int] as int);
                let digit = parts.digits[i] as u64;
                if i == 0 {
                    push_decimal(&mut text, digit);
                } else {
                    push_padded4(&mut text, digit);
                }
            } else {
                push_zeros(&mut text, 4);
                assert(zeros(4) =~= "0000"@) by {
                    reveal_strlit("0000");
                }
            }
            i = i + 1;
            assert(text@ =~= sign_text + int_text(d, i as nat));
        }
    }
    let ghost head = text@;
    assert(head =~= (if parts.sign == 0x4000 {
        seq!['-']
    } else {
        Seq::<char>::empty()
    }) + (if decimal_groups <= 0 {
        seq!['0']
    } else {
        int_text(d, decimal_groups as nat)
    }));
    let mut fractional: Vec<char> = Vec::new();
    if decimal_groups < 0 {
        let count = (-decimal_groups) as usize;
        let mut i: usize = 0;
        while i < count
            invariant
                i <= count,
                fractional@ == zeros((4 * i) as nat),
            decreases count - i,
        {
            push_zeros(&mut fractional, 4);
            i = i + 1;
            assert(fractional@ =~= zeros((4 * i) as nat));
        }
    }
    let ghost lead = fractional@;
    let start: usize = if decimal_groups > 0 {
        decimal_groups as usize
    } else {
        0
    };
    let mut k = start;
    if k > n {
        k = n;
    }
    let ghost from = k;
    assert(frac_text(d, start as nat, k as nat) =~= Seq::<char>::empty());
    while k < n
        invariant
            start <= k <= n || (start >= n && k == n),
            from == k || start <= k,
            n == parts.digits@.len(),
            d == digit_values(parts.digits@),
            forall|j: int| 0 <= j < d.len() ==> 0 <= #[trigger] d[j] < 10000,
            fractional@ == lead + frac_text(d, start as nat, k as nat),
        decreases n - k,
    {
        assert(d[k as int] == parts.digits@[k as int] as int);
        push_padded4(&mut fractional, parts.digits[k] as u64);
        k = k + 1;
        assert(fractional@ =~= lead + frac_text(d, start as nat, k as nat));
    }
    proof {
        if start >= n {
            assert(frac_text(d, start as nat, n as nat) =~= Seq::<char>::empty());
        }
    }
    let ghost frac = fractional@;
    assert(frac =~= (if decimal_groups < 0 {
        zeros((4 * (-decimal_groups)) as nat)
    } else {
        Seq::<char>::empty()
    }) + frac_text(d, start as nat, n as nat));
    if fractional.len() > dscale {
        fractional.truncate(dscale);
    }
    while fractional.len() < dscale
        invariant
            frac.len() > dscale ==> fractional@ == frac.take(dscale as int),
            frac.len() <= dscale ==> fractional@ == frac + zeros((fractional@.len() - frac.len()) as nat),
            frac.len() <= dscale ==> fractional@.len() >= frac.len(),
            fractional@.len() <= dscale || frac.len() > dscale,
        decreases dscale - fractional.len(),
    {
        fractional.push('0');
        assert(fractional@ =~= frac + zeros((fractional@.len() - frac.len()) as nat));
    }
    assert(text@ == head);
    if dscale > 0 {
        text.push('.');
        let m = fractional.len();
        let mut i: usize = 0;
        let ghost before = text@;
        while i < m
            invariant
                i <= m == fractional@.len(),
                text@ == before + fractional@.subrange(0, i as int),
            decreases m - i,
        {
            text.push(fractional[i]);
            i = i + 1;
            assert(text@ =~= before + fractional@.subrange(0, i as int));
        }
        assert(fractional@.subrange(0, m as int) =~= fractional@);
    }
    proof {
        assert(fit_to(frac, dscale as nat) =~= fractional@);
        if dscale > 0 {
            assert(text@ =~= head + seq!['.'] + fit_to(frac, dscale as nat));
        }
    }
    Ok(string_from_chars(&text))
}

/// The digits of a coefficient's text after its sign.
pub open spec fn unsigned_part(c: Seq<char>) -> Seq<char> {
    if c.len() > 0 && c[0] == '-' {
        c.subrange(1, c.len() as int)
    } else {
        c
    }
}

/// Whether `c` is the text of an integer: an optional `-` and at least one
/// ASCII digit.
pub open spec fn integer_text(c: Seq<char>) -> bool {
    unsigned_part(c).len() > 0 && all_digits(unsigned_part(c))
}

/// `s` without its leading `0` characters.
pub open spec fn trim_leading_zeros(s: Seq<char>) -> Seq<char>
    decreases s.len(),
{
    if s.len() > 0 && s[0] == '0' {
        trim_leading_zeros(s.subrange(1, s.len() as int))
    } else {
        s
    }
}

/// The number of `0` characters that pad `n` characters to a multiple of four.
pub open spec fn pad4(n: nat) -> nat {
    ((4 - n % 4) % 4) as nat
}

/// The base-10000 digits that the four-character groups of `s` spell.
pub open spec fn chunk4(s: Seq<char>) -> Seq<int> {
    Seq::new(s.len() / 4, |i: int| digits_value(s.subrange(4 * i, 4 * i + 4)) as int)
}

/// The number of zero digits that `g` starts with.
pub open spec fn leading_zero_groups(g: Seq<int>) -> nat
    decreases g.len(),
{
    if g.len() > 0 && g[0] == 0 {
        1 + leading_zero_groups(g.subrange(1, g.len() as int))
    } else {
        0
    }
}

/// The number of zero digits that `g` ends with.
pub open spec fn trailing_zero_groups(g: Seq<int>) -> nat
    decreases g.len(),
{
    if g.len() > 0 && g.last() == 0 {
        1 + trailing_zero_groups(g.drop_last())
    } else {
        0
    }
}

/// The digits of a coefficient with `e` applied, and the resulting scale:
/// a negative `e` appends `-e` zeros and gives scale 0. A scale that does
/// not fit in sixteen bits, or a negation that does not fit, is an error.
pub open spec fn scaled_digits(d: Seq<char>, e: int) -> Result<(Seq<char>, nat), NumericError> {
    if e < 0 {
        if e == i64::MIN || -e > usize::MAX {
            Err(NumericError::ScaleOutOfRange)
        } else {
            Ok((d + zeros((-e) as nat), 0))
        }
    } else if e > 32767 {
        Err(NumericError::ScaleOutOfRange)
    } else {
        Ok((d, e as nat))
    }
}

/// The digit groups of the digit string `t` with `scale` digits after the
/// point, and the number of groups before the point: the digits before the
/// point are grouped in fours from the point leftwards, those after it from
/// the point rightwards and padded with zeros.
pub open spec fn group_split(t: Seq<char>, scale: nat) -> (Seq<int>, nat) {
    let int_len: nat = if t.len() > scale {
        (t.len() - scale) as nat
    } else {
        0
    };
    let int_part = t.take(int_len as int);
    let frac = if scale > t.len() {
        zeros((scale - t.len()) as nat) + t
    } else {
        t.skip(t.len() - scale)
    };
    let int_digits = zeros(pad4(int_len)) + int_part;
    let frac_digits = frac + zeros(pad4(frac.len()));
    (chunk4(int_digits) + chunk4(frac_digits), int_digits.len() / 4)
}

/// The weight and digits that remain when zero groups are dropped from both
/// ends, each one dropped at the front lowering the weight; a weight that
/// does not fit in sixteen bits is an error.
pub open spec fn stripped(groups: Seq<int>, int_groups: nat) -> Result<(int, Seq<int>), NumericError> {
    if int_groups > 32768 {
        Err(NumericError::WeightOutOfRange)
    } else {
        let lead = leading_zero_groups(groups);
        let weight = int_groups - 1 - lead;
        if weight < -32768 {
            Err(NumericError::WeightOutOfRange)
        } else {
            let rest = groups.skip(lead as int);
            let kept = rest.take(rest.len() - trailing_zero_groups(rest));
            Ok((
                if kept.len() == 0 {
                    0
                } else {
                    weight
                },
                kept,
            ))
        }
    }
}

/// The weight, sign, display scale and digits of the NUMERIC form of the
/// decimal `c * 10^(-e)`, where `c` is the text of an integer, or the error
/// for a scale or weight that does not fit in sixteen bits.
pub open spec fn numeric_encoding(c: Seq<char>, e: int) -> Result<(int, int, int, Seq<int>), NumericError> {
    match scaled_digits(unsigned_part(c), e) {
        Err(err) => Err(err),
        Ok((digits, scale)) => {
            let t = trim_leading_zeros(digits);
            if t.len() == 0 {
                Ok((0, 0, scale as int, Seq::<int>::empty()))
            } else {
                let (groups, int_groups) = group_split(t, scale);
                match stripped(groups, int_groups) {
                    Err(err) => Err(err),
                    Ok((weight, kept)) => Ok((
                        weight,
                        if c.len() > 0 && c[0] == '-' {
                            0x4000
                        } else {
                            0
                        },
                        scale as int,
                        kept,
                    )),
                }
            }
        },
    }
}

/// The integer that `s` spells the way `str::parse::<i16>` reads it: an
/// optional sign and at least one ASCII digit, within the range of `i16`.
pub open spec fn i16_text_value(s: Seq<char>) -> Option<int> {
    let negative = s.len() > 0 && s[0] == '-';
    let d = if s.len() > 0 && (s[0] == '-' || s[0] == '+') {
        s.subrange(1, s.len() as int)
    } else {
        s
    };
    let v: int = if negative {
        -(digits_value(d) as int)
    } else {
        digits_value(d) as int
    };
    if d.len() > 0 && all_digits(d) && -32768 <= v <= 32767 {
        Some(v)
    } else {
        None
    }
}

/// A longer digit string is worth no less than its prefix.
proof fn lemma_digits_value_prefix(d: Seq<char>, k: nat)
    requires
        k <= d.len(),
        all_digits(d),
    ensures
        digits_value(d) >= digits_value(d.subrange(0, k as int)),
    decreases d.len(),
{
    if d.len() > k {
        let p = d.drop_last();
        assert(p.subrange(0, k as int) =~= d.subrange(0, k as int));
        assert(all_digits(p));
        lemma_digits_value_prefix(p, k);
    } else {
        assert(d.subrange(0, k as int) =~= d);
    }
}

/// Reads a group of a NUMERIC coefficient as an `i16`, the way
/// `str::parse::<i16>` reads it.
pub fn parse_group(group: &[char]) -> (r: Result<i16, NumericError>)
    ensures
        match r {
            Ok(v) => i16_text_value(group@) == Some(v as int),
            Err(e) => i16_text_value(group@) is None && e == NumericError::InvalidDigit,
        },
{
    let n = group.len();
    let negative = n > 0 && group[0] == '-';
    let start: usize = if n > 0 && (group[0] == '-' || group[0] == '+') {
        1
    } else {
        0
    };
    let ghost d = group@.subrange(start as int, n as int);
    proof {
        if start == 0 {
            assert(d =~= group@);
        }
    }
    if start >= n {
        return Err(NumericError::InvalidDigit);
    }
    let limit: u32 = if negative {
        32768
    } else {
        32767
    };
    let mut value: u32 = 0;
    let mut i = start;
    while i < n
        invariant
            start <= i <= n == group@.len(),
            start < n,
            start <= 1,
            (start == 1) == (group@.len() > 0 && (group@[0] == '-' || group@[0] == '+')),
            negative == (group@.len() > 0 && group@[0] == '-'),
            limit == (if negative { 32768u32 } else { 32767u32 }),
            d == group@.subrange(start as int, n as int),
            start == 0 ==> d == group@,
            all_digits(group@.subrange(start as int, i as int)),
            value as nat == digits_value(group@.subrange(start as int, i as int)),
            value <= limit,
        decreases n - i,
    {
        let c = group[i];
        let prefix = Ghost(group@.subrange(start as int, i as int));
        let next = Ghost(group@.subrange(start as int, i + 1));
        proof {
            assert(next@.drop_last() =~= prefix@);
        }
        if !('0' <= c && c <= '9') {
            assert(!('0' <= d[i - start] <= '9'));
            return Err(NumericError::InvalidDigit);
        }
        let digit = c as u32 - 48;
        let next_value = value * 10 + digit;
        if next_value > limit {
            proof {
                assert(d.subrange(0, i + 1 - start) =~= next@);
                assert(all_digits(next@));
                if all_digits(d) {
                    lemma_digits_value_prefix(d, (i + 1 - start) as nat);
                }
            }
            return Err(NumericError::InvalidDigit);
        }
        value = next_value;
        i = i + 1;
        proof {
            assert(all_digits(next@));
        }
    }
    assert(group@.subrange(start as int, n as int) =~= d);
    if negative {
        Ok((0 - value as i32) as i16)
    } else {
        Ok(value as i16)
    }
}

/// Zeros in front of digits do not change their value.
proof fn lemma_leading_zeros_value(n: nat, s: Seq<char>)
    ensures
        digits_value(zeros(n) + s) == digits_value(s),
    decreases s.len(), n,
{
    if s.len() == 0 {
        assert(zeros(n) + s =~= zeros(n));
        if n > 0 {
            assert(zeros(n).drop_last() =~= zeros((n - 1) as nat));
            lemma_leading_zeros_value((n - 1) as nat, s);
            assert(zeros((n - 1) as nat) + s =~= zeros((n - 1) as nat));
        }
    } else {
        assert((zeros(n) + s).drop_last() =~= zeros(n) + s.drop_last());
        lemma_leading_zeros_value(n, s.drop_last());
    }
}

/// A string of at most four digits is worth less than 10000.
proof fn lemma_small_digits_value(s: Seq<char>)
    requires
        s.len() <= 4,
        all_digits(s),
    ensures
        digits_value(s) < if s.len() == 0 {
            1nat
        } else if s.len() == 1 {
            10nat
        } else if s.len() == 2 {
            100nat
        } else if s.len() == 3 {
            1000nat
        } else {
            10000nat
        },
    decreases s.len(),
{
    if s.len() > 0 {
        assert(all_digits(s.drop_last()));
        lemma_small_digits_value(s.drop_last());
        assert('0' <= s[s.len() - 1] <= '9');
    }
}

/// The digit groups of a four-character-aligned digit string.
fn push_groups(groups: &mut Vec<i16>, s: &Vec<char>)
    requires
        s@.len() % 4 == 0,
        all_digits(s@),
    ensures
        digit_values(final(groups)@) == digit_values(old(groups)@) + chunk4(s@),
        forall|i: int| 0 <= i < final(groups)@.len() - old(groups)@.len() ==> 0 <= #[trigger] final(groups)@[old(groups)@.len() + i] < 10000,
{
    let n = s.len();
    let mut k: usize = 0;
    let ghost base = digit_values(groups@);
    let ghost start = groups@.len();
    while k < n
        invariant
            k <= n == s@.len(),
            n % 4 == 0,
            k % 4 == 0,
            all_digits(s@),
            start == old(groups)@.len(),
            base == digit_values(old(groups)@),
            groups@.len() == start + k / 4,
            digit_values(groups@) == base + chunk4(s@).take((k / 4) as int),
            forall|i: int| 0 <= i < groups@.len() - start ==> 0 <= #[trigger] groups@[start + i] < 10000,
            groups@.subrange(0, start as int) == old(groups)@,
        decreases n - k,
    {
        let ghost j: int = (k / 4) as int;
        proof {
            assert(4 * j == k) by (nonlinear_arith)
                requires
                    k % 4 == 0,
                    j == k / 4,
            ;
            assert(j < n / 4) by (nonlinear_arith)
                requires
                    k < n,
                    n % 4 == 0,
                    j == k / 4,
                    4 * j == k,
            ;
        }
        let chunk: Vec<char> = vec![s[k], s[k + 1], s[k + 2], s[k + 3]];
        proof {
            assert(chunk@ =~= s@.subrange(k as int, k + 4));
            assert(all_digits(chunk@));
            lemma_small_digits_value(chunk@);
            assert(chunk@.subrange(0, 4) =~= chunk@);
            assert(i16_text_value(chunk@) == Some(digits_value(chunk@) as int));
        }
        let g = match parse_group(chunk.as_slice()) {
            Ok(g) => g,
            Err(_) => 0,
        };
        let ghost before = groups@;
        groups.push(g);
        k = k + 4;
        proof {
            assert(groups@.subrange(0, start as int) =~= before.subrange(0, start as int));
            assert(chunk4(s@)[j] == digits_value(s@.subrange(4 * j, 4 * j + 4)) as int);
            assert(digit_values(groups@) =~= digit_values(before).push(g as int));
            assert(k / 4 == j + 1);
            assert(chunk4(s@).take(j + 1) =~= chunk4(s@).take(j).push(chunk4(s@)[j]));
            assert(digit_values(groups@) =~= base + chunk4(s@).take((k / 4) as int));
        }
    }
    proof {
        assert(chunk4(s@).take((n / 4) as int) =~= chunk4(s@));
    }
}

/// The sign of an integer's text and its digits.
fn split_sign(coefficient: &str) -> (r: (bool, Vec<char>))
    requires
        integer_text(coefficient@),
    ensures
        r.0 == (coefficient@.len() > 0 && coefficient@[0] == '-'),
        r.1@ == unsigned_part(coefficient@),
        all_digits(r.1@),
{
    let chars = crate::text::str_chars(coefficient);
    let negative = chars.len() > 0 && chars[0] == '-';
    let first: usize = if negative {
        1
    } else {
        0
    };
    let mut digits: Vec<char> = Vec::new();
    let mut i = first;
    while i < chars.len()
        invariant
            first <= i <= chars@.len(),
            first == (if negative { 1usize } else { 0usize }),
            negative == (chars@.len() > 0 && chars@[0] == '-'),
            digits@ == chars@.subrange(first as int, i as int),
        decreases chars@.len() - i,
    {
        digits.push(chars[i]);
        i = i + 1;
        assert(digits@ =~= chars@.subrange(first as int, i as int));
    }
    proof {
        assert(digits@ =~= unsigned_part(coefficient@));
    }
    (negative, digits)
}

/// Applies the exponent: a negative one appends zeros and gives scale 0.
fn apply_exponent(digits: Vec<char>, exponent: i64) -> (r: Result<(Vec<char>, usize), NumericError>)
    requires
        all_digits(digits@),
    ensures
        match r {
            Ok((d, scale)) => scaled_digits(digits@, exponent as int) == Ok::<(Seq<char>, nat), NumericError>((d@, scale as nat))
                && all_digits(d@) && scale <= 32767,
            Err(e) => scaled_digits(digits@, exponent as int) == Err::<(Seq<char>, nat), NumericError>(e),
        },
{
    let mut digits = digits;
    if exponent < 0 {
        if exponent == i64::MIN {
            return Err(NumericError::ScaleOutOfRange);
        }
        let count = -exponent;
        if count as u64 > usize::MAX as u64 {
            return Err(NumericError::ScaleOutOfRange);
        }
        let ghost d = digits@;
        push_zeros(&mut digits, count as usize);
        proof {
            assert forall|k: int| 0 <= k < digits@.len() implies '0' <= #[trigger] digits@[k] <= '9' by {
                if k < d.len() {
                    assert(digits@[k] == d[k]);
                }
            }
        }
        return Ok((digits, 0));
    }
    if exponent > 32767 {
        return Err(NumericError::ScaleOutOfRange);
    }
    Ok((digits, exponent as usize))
}

/// The digits without their leading zeros.
fn trim_zeros(digits: &Vec<char>) -> (t: Vec<char>)
    requires
        all_digits(digits@),
    ensures
        t@ == trim_leading_zeros(digits@),
        all_digits(t@),
        t@.len() > 0 ==> t@[0] != '0',
{
    let ghost all = digits@;
    let mut start: usize = 0;
    assert(all.subrange(0, all.len() as int) =~= all);
    while start < digits.len() && digits[start] == '0'
        invariant
            start <= digits@.len(),
            digits@ == all,
            trim_leading_zeros(all) == trim_leading_zeros(all.subrange(start as int, all.len() as int)),
        decreases digits@.len() - start,
    {
        proof {
            let rest = all.subrange(start as int, all.len() as int);
            assert(rest.subrange(1, rest.len() as int) =~= all.subrange(start + 1, all.len() as int));
        }
        start = start + 1;
    }
    let mut t: Vec<char> = Vec::new();
    let mut k = start;
    while k < digits.len()
        invariant
            start <= k <= digits@.len(),
            digits@ == all,
            t@ == all.subrange(start as int, k as int),
        decreases digits@.len() - k,
    {
        t.push(digits[k]);
        k = k + 1;
        assert(t@ =~= all.subrange(start as int, k as int));
    }
    proof {
        assert(t@ =~= all.subrange(start as int, all.len() as int));
    }
    t
}

/// Splits digits with `scale` digits after the point into base-10000 groups.
#[verifier::rlimit(50)]
#[verifier::spinoff_prover]
fn split_groups(t: &Vec<char>, scale: usize) -> (r: (Vec<i16>, usize))
    requires
        all_digits(t@),
        t@.len() > 0,
    ensures
        (digit_values(r.0@), r.1 as nat) == group_split(t@, scale as nat),
{
    let tl = t.len();
    let int_len: usize = if tl > scale {
        tl - scale
    } else {
        0
    };
    let mut int_digits: Vec<char> = Vec::new();
    push_zeros(&mut int_digits, (4 - int_len % 4) % 4);
    let ghost pre = int_digits@;
    let mut k: usize = 0;
    while k < int_len
        invariant
            k <= int_len <= tl == t@.len(),
            int_digits@ == pre + t@.subrange(0, k as int),
        decreases int_len - k,
    {
        int_digits.push(t[k]);
        k = k + 1;
        assert(int_digits@ =~= pre + t@.subrange(0, k as int));
    }
    let mut fractional: Vec<char> = Vec::new();
    if scale > tl {
        push_zeros(&mut fractional, scale - tl);
        let ghost z = fractional@;
        let mut k: usize = 0;
        while k < tl
            invariant
                k <= tl == t@.len(),
                fractional@ == z + t@.subrange(0, k as int),
            decreases tl - k,
        {
            fractional.push(t[k]);
            k = k + 1;
            assert(fractional@ =~= z + t@.subrange(0, k as int));
        }
        assert(t@.subrange(0, tl as int) =~= t@);
    } else {
        let mut k: usize = tl - scale;
        while k < tl
            invariant
                scale <= tl,
                tl - scale <= k <= tl == t@.len(),
                fractional@ == t@.subrange(tl - scale, k as int),
            decreases tl - k,
        {
            fractional.push(t[k]);
            k = k + 1;
            assert(fractional@ =~= t@.subrange(tl - scale, k as int));
        }
        assert(t@.subrange(tl - scale, tl as int) =~= t@.skip(tl - scale));
    }
    let ghost frac = fractional@;
    let fl = fractional.len();
    push_zeros(&mut fractional, (4 - fl % 4) % 4);
    proof {
        assert(t@.take(int_len as int) =~= t@.subrange(0, int_len as int));
        assert(all_digits(int_digits@)) by {
            assert forall|j: int| 0 <= j < int_digits@.len() implies '0' <= #[trigger] int_digits@[j] <= '9' by {
                if j >= pre.len() {
                    assert(int_digits@[j] == t@[j - pre.len()]);
                }
            }
        }
        assert(all_digits(fractional@)) by {
            assert forall|j: int| 0 <= j < fractional@.len() implies '0' <= #[trigger] fractional@[j] <= '9' by {
                if j < frac.len() {
                    if scale > tl {
                        if j >= scale - tl {
                            assert(frac[j] == t@[j - (scale - tl)]);
                        }
                    } else {
                        assert(frac[j] == t@[tl - scale + j]);
                    }
                }
            }
        }
        assert(pad4(int_len as nat) == (4 - int_len % 4) % 4);
        assert(pad4(frac.len()) == (4 - fl % 4) % 4);
    }
    let mut groups: Vec<i16> = Vec::new();
    push_groups(&mut groups, &int_digits);
    push_groups(&mut groups, &fractional);
    proof {
        assert(digit_values(Seq::<i16>::empty()) =~= Seq::<int>::empty());
    }
    (groups, int_digits.len() / 4)
}

/// Drops the zero groups at both ends, lowering the weight for each one at
/// the front.
fn strip_groups(groups: Vec<i16>, integer_groups: usize) -> (r: Result<(i16, Vec<i16>), NumericError>)
    ensures
        match r {
            Ok((w, kept)) => stripped(digit_values(groups@), integer_groups as nat) == Ok::<(int, Seq<int>), NumericError>((w as int, digit_values(kept@))),
            Err(e) => stripped(digit_values(groups@), integer_groups as nat) == Err::<(int, Seq<int>), NumericError>(e),
        },
{
    let ghost g = digit_values(groups@);
    if integer_groups > 32768 {
        return Err(NumericError::WeightOutOfRange);
    }
    let n = groups.len();
    let mut lead: usize = 0;
    assert(g.subrange(0, n as int) =~= g);
    while lead < n && groups[lead] == 0
        invariant
            lead <= n == groups@.len(),
            g == digit_values(groups@),
            leading_zero_groups(g) == lead + leading_zero_groups(g.subrange(lead as int, n as int)),
        decreases n - lead,
    {
        proof {
            let rest = g.subrange(lead as int, n as int);
            assert(rest.subrange(1, rest.len() as int) =~= g.subrange(lead + 1, n as int));
        }
        lead = lead + 1;
    }
    proof {
        assert(leading_zero_groups(g) == lead);
    }
    if lead > integer_groups + 32767 {
        return Err(NumericError::WeightOutOfRange);
    }
    let weight = ((integer_groups as i64) - 1 - (lead as i64)) as i16;
    assert(weight as int == integer_groups - 1 - lead);
    let mut end: usize = n;
    assert(g.subrange(lead as int, n as int) =~= g.skip(lead as int));
    while end > lead && groups[end - 1] == 0
        invariant
            lead <= end <= n == groups@.len(),
            g == digit_values(groups@),
            trailing_zero_groups(g.skip(lead as int)) == (n - end) + trailing_zero_groups(g.subrange(lead as int, end as int)),
        decreases end,
    {
        proof {
            let rest = g.subrange(lead as int, end as int);
            assert(rest.drop_last() =~= g.subrange(lead as int, end - 1));
        }
        end = end - 1;
    }
    proof {
        assert(trailing_zero_groups(g.subrange(lead as int, end as int)) == 0);
    }
    let mut kept: Vec<i16> = Vec::new();
    let mut k = lead;
    while k < end
        invariant
            lead <= k <= end <= n == groups@.len(),
            g == digit_values(groups@),
            digit_values(kept@) == g.subrange(lead as int, k as int),
        decreases end - k,
    {
        let ghost before = kept@;
        kept.push(groups[k]);
        proof {
            assert(digit_values(kept@) =~= digit_values(before).push(groups@[k as int] as int));
            assert(g[k as int] == groups@[k as int] as int);
            assert(g.subrange(lead as int, k + 1) =~= g.subrange(lead as int, k as int).push(g[k as int]));
        }
        k = k + 1;
    }
    proof {
        let rest = g.skip(lead as int);
        assert(rest.take(rest.len() - trailing_zero_groups(rest)) =~= g.subrange(lead as int, end as int));
    }
    if kept.len() == 0 {
        return Ok((0, kept));
    }
    Ok((weight, kept))
}

/// A value in the binary NUMERIC layout: base-10000 digits with the power
/// of 10000 of the first, a sign word and a display scale.
#[derive(Debug)]
pub struct Numeric {
    weight: i16,
    sign: u16,
    dscale: i16,
    digits: Vec<i16>,
}

impl Numeric {
    /// The weight, sign, display scale and digits.
    pub closed spec fn parts(&self) -> (int, int, int, Seq<int>) {
        (self.weight as int, self.sign as int, self.dscale as int, digit_values(self.digits@))
    }

    /// Builds the NUMERIC form of `coefficient * 10^(-exponent)`, where
    /// `coefficient` is the text of an integer.
    pub fn from_parts(coefficient: &str, exponent: i64) -> (r: Result<Numeric, NumericError>)
        requires
            integer_text(coefficient@),
        ensures
            match r {
                Ok(n) => numeric_encoding(coefficient@, exponent as int) == Ok::<(int, int, int, Seq<int>), NumericError>(n.parts()),
                Err(e) => numeric_encoding(coefficient@, exponent as int) == Err::<(int, int, int, Seq<int>), NumericError>(e),
            },
    {
        let (negative, digits) = split_sign(coefficient);
        let (digits, scale) = match apply_exponent(digits, exponent) {
            Ok(p) => p,
            Err(e) => return Err(e),
        };
        let dscale = scale as i16;
        let t = trim_zeros(&digits);
        if t.len() == 0 {
            let r = Numeric { weight: 0, sign: 0x0000, dscale, digits: Vec::new() };
            proof {
                assert(digit_values(r.digits@) =~= Seq::<int>::empty());
            }
            return Ok(r);
        }
        let sign: u16 = if negative {
            0x4000
        } else {
            0x0000
        };
        let (groups, integer_groups) = split_groups(&t, scale);
        match strip_groups(groups, integer_groups) {
            Ok((weight, kept)) => Ok(Numeric { weight, sign, dscale, digits: kept }),
            Err(e) => Err(e),
        }
    }

    /// Appends the binary NUMERIC form: the digit count, weight, sign and
    /// display scale, then the digits, each as sixteen big-endian bits. More
    /// digits than sixteen bits can count is an error, and nothing is written.
    pub fn write(&self, out: &mut BytesMut) -> (r: Result<(), NumericError>)
        requires
            buffer_bytes(*old(out)).len() + 8 + 2 * 32767 <= isize::MAX,
        ensures
            self.parts().3.len() > 32767 ==> (r matches Err(e) && e == NumericError::TooManyDigits
                && buffer_bytes(*final(out)) == buffer_bytes(*old(out))),
            self.parts().3.len() <= 32767 ==> (r is Ok && buffer_bytes(*final(out))
                == buffer_bytes(*old(out)) + numeric_bytes(self.parts())),
    {
        if self.digits.len() > 32767 {
            return Err(NumericError::TooManyDigits);
        }
        let ghost o = buffer_bytes(*out);
        proof {
            crate::wire::lemma_signed_bytes_len(self.digits@.len() as int, 2);
            crate::wire::lemma_signed_bytes_len(self.weight as int, 2);
            crate::wire::lemma_be_bytes_len(self.sign as nat, 2);
            crate::wire::lemma_signed_bytes_len(self.dscale as int, 2);
        }
        put_i16(out, self.digits.len() as i16);
        put_i16(out, self.weight);
        put_u16(out, self.sign);
        put_i16(out, self.dscale);
        let ghost header = buffer_bytes(*out);
        let n = self.digits.len();
        let mut i: usize = 0;
        while i < n
            invariant
                i <= n == self.digits@.len() <= 32767,
                header.len() == o.len() + 8,
                buffer_bytes(*out) == header + digits_bytes(digit_values(self.digits@).take(i as int)),
                o.len() + 8 + 2 * 32767 <= isize::MAX,
            decreases n - i,
        {
            proof {
                lemma_digits_bytes_len(digit_values(self.digits@).take(i as int));
                crate::wire::lemma_signed_bytes_len(self.digits@[i as int] as int, 2);
            }
            put_i16(out, self.digits[i]);
            i = i + 1;
            proof {
                let ds = digit_values(self.digits@);
                assert(ds.take(i as int).drop_last() =~= ds.take(i - 1));
            }
        }
        proof {
            assert(digit_values(self.digits@).take(n as int) =~= digit_values(self.digits@));
            crate::wire::lemma_i32_round_trip(0);
        }
        Ok(())
    }
}

/// The bytes of base-10000 digits, each as sixteen big-endian bits.
pub open spec fn digits_bytes(d: Seq<int>) -> Seq<u8>
    decreases d.len(),
{
    if d.len() == 0 {
        Seq::<u8>::empty()
    } else {
        digits_bytes(d.drop_last()) + signed_bytes(d.last(), 2)
    }
}

proof fn lemma_digits_bytes_len(d: Seq<int>)
    ensures
        digits_bytes(d).len() == 2 * d.len(),
    decreases d.len(),
{
    crate::wire::lemma_be_bytes_len(0, 2);
    if d.len() > 0 {
        lemma_digits_bytes_len(d.drop_last());
        crate::wire::lemma_be_bytes_len(crate::wire::unsigned_of(d.last(), 2), 2);
    }
}

/// The binary NUMERIC form of a weight, sign, display scale and digits.
pub open spec fn numeric_bytes(p: (int, int, int, Seq<int>)) -> Seq<u8> {
    signed_bytes(p.3.len() as int, 2) + signed_bytes(p.0, 2) + be_bytes(p.1 as nat, 2) + signed_bytes(p.2, 2)
        + digits_bytes(p.3)
}

/// `10^n`.
pub open spec fn ten_pow(n: nat) -> nat
    decreases n,
{
    if n == 0 {
        1
    } else {
        10 * ten_pow((n - 1) as nat)
    }
}

/// The number that `n` digits spell is below `10^n`.
proof fn lemma_digits_value_bound(s: Seq<char>)
    requires
        all_digits(s),
    ensures
        digits_value(s) < ten_pow(s.len()),
    decreases s.len(),
{
    if s.len() > 0 {
        let t = s.drop_last();
        assert(all_digits(t)) by {
            assert forall|i: int| 0 <= i < t.len() implies '0' <= #[trigger] t[i] <= '9' by {
                assert(t[i] == s[i]);
            }
        }
        lemma_digits_value_bound(t);
        assert('0' <= s[s.len() - 1] <= '9');
    }
}

/// Dropping leading zeros keeps a digit string all digits.
pub proof fn lemma_trim_digits(s: Seq<char>)
    requires
        all_digits(s),
    ensures
        all_digits(trim_leading_zeros(s)),
    decreases s.len(),
{
    if s.len() > 0 && s[0] == '0' {
        let t = s.subrange(1, s.len() as int);
        assert forall|i: int| 0 <= i < t.len() implies '0' <= #[trigger] t[i] <= '9' by {
            assert(t[i] == s[i + 1]);
        }
        lemma_trim_digits(t);
    }
}

/// The groups of four characters of a digit string are base-10000 digits.
pub proof fn lemma_chunk4_digits(s: Seq<char>)
    requires
        all_digits(s),
    ensures
        forall|i: int| 0 <= i < chunk4(s).len() ==> 0 <= #[trigger] chunk4(s)[i] < 10000,
{
    assert forall|i: int| 0 <= i < chunk4(s).len() implies 0 <= #[trigger] chunk4(s)[i] < 10000 by {
        let g = s.subrange(4 * i, 4 * i + 4);
        assert forall|j: int| 0 <= j < g.len() implies '0' <= #[trigger] g[j] <= '9' by {
            assert(g[j] == s[4 * i + j]);
        }
        lemma_digits_value_bound(g);
        reveal_with_fuel(ten_pow, 5);
    }
}

/// Every base-10000 digit that the NUMERIC form of a decimal holds lies in
/// `0..10000`, and its weight and scale fit in sixteen bits.
pub proof fn lemma_encoding_ranges(c: Seq<char>, e: int)
    requires
        integer_text(c),
        numeric_encoding(c, e) is Ok,
    ensures
        ({
            let p = numeric_encoding(c, e)->Ok_0;
            &&& -32768 <= p.0 <= 32767
            &&& p.1 == 0 || p.1 == 0x4000
            &&& 0 <= p.2 <= 32767
            &&& forall|i: int| 0 <= i < p.3.len() ==> 0 <= #[trigger] p.3[i] < 10000
        }),
{
    let u = unsigned_part(c);
    let (digits, scale) = scaled_digits(u, e)->Ok_0;
    assert(all_digits(digits)) by {
        if e < 0 {
            assert forall|i: int| 0 <= i < digits.len() implies '0' <= #[trigger] digits[i] <= '9' by {
                if i >= u.len() {
                    assert(digits[i] == zeros((-e) as nat)[i - u.len()]);
                } else {
                    assert(digits[i] == u[i]);
                }
            }
        }
    }
    lemma_trim_digits(digits);
    let t = trim_leading_zeros(digits);
    if t.len() > 0 {
        let int_len: nat = if t.len() > scale {
            (t.len() - scale) as nat
        } else {
            0
        };
        let int_part = t.take(int_len as int);
        let frac = if scale > t.len() {
            zeros((scale - t.len()) as nat) + t
        } else {
            t.skip(t.len() - scale)
        };
        let int_digits = zeros(pad4(int_len)) + int_part;
        let frac_digits = frac + zeros(pad4(frac.len()));
        assert forall|i: int| 0 <= i < int_digits.len() implies '0' <= #[trigger] int_digits[i] <= '9' by {
            if i >= pad4(int_len) {
                assert(int_digits[i] == t[i - pad4(int_len)]);
            }
        }
        assert forall|i: int| 0 <= i < frac.len() implies '0' <= #[trigger] frac[i] <= '9' by {
            if scale > t.len() {
                if i >= scale - t.len() {
                    assert(frac[i] == t[i - (scale - t.len())]);
                }
            } else {
                assert(frac[i] == t[i + t.len() - scale]);
            }
        }
        assert forall|i: int| 0 <= i < frac_digits.len() implies '0' <= #[trigger] frac_digits[i] <= '9' by {
            if i < frac.len() {
                assert(frac_digits[i] == frac[i]);
            }
        }
        lemma_chunk4_digits(int_digits);
        lemma_chunk4_digits(frac_digits);
        let (groups, int_groups) = group_split(t, scale);
        assert(groups == chunk4(int_digits) + chunk4(frac_digits));
        assert forall|i: int| 0 <= i < groups.len() implies 0 <= #[trigger] groups[i] < 10000 by {
            if i < chunk4(int_digits).len() {
                assert(groups[i] == chunk4(int_digits)[i]);
            } else {
                assert(groups[i] == chunk4(frac_digits)[i - chunk4(int_digits).len()]);
            }
        }
        let lead = leading_zero_groups(groups);
        lemma_leading_zero_groups_bound(groups);
        let rest = groups.skip(lead as int);
        lemma_trailing_zero_groups_bound(rest);
        let kept = rest.take(rest.len() - trailing_zero_groups(rest));
        assert forall|i: int| 0 <= i < kept.len() implies 0 <= #[trigger] kept[i] < 10000 by {
            assert(kept[i] == groups[i + lead]);
        }
    }
}

proof fn lemma_leading_zero_groups_bound(g: Seq<int>)
    ensures
        leading_zero_groups(g) <= g.len(),
    decreases g.len(),
{
    if g.len() > 0 && g[0] == 0 {
        lemma_leading_zero_groups_bound(g.subrange(1, g.len() as int));
    }
}

proof fn lemma_trailing_zero_groups_bound(g: Seq<int>)
    ensures
        trailing_zero_groups(g) <= g.len(),
    decreases g.len(),
{
    if g.len() > 0 && g.last() == 0 {
        lemma_trailing_zero_groups_bound(g.drop_last());
    }
}

/// The two bytes of digit `k` in the digits' bytes.
proof fn lemma_digits_bytes_at(d: Seq<int>, k: int)
    requires
        0 <= k < d.len(),
    ensures
        digits_bytes(d).subrange(2 * k, 2 * k + 2) == signed_bytes(d[k], 2),
    decreases d.len(),
{
    lemma_digits_bytes_len(d);
    lemma_digits_bytes_len(d.drop_last());
    crate::wire::lemma_signed_bytes_len(d.last(), 2);
    if k == d.len() - 1 {
        assert(digits_bytes(d).subrange(2 * k, 2 * k + 2) =~= signed_bytes(d[k], 2));
    } else {
        lemma_digits_bytes_at(d.drop_last(), k);
        assert(digits_bytes(d).subrange(2 * k, 2 * k + 2) =~= digits_bytes(d.drop_last()).subrange(
            2 * k,
            2 * k + 2,
        ));
    }
}

/// A NUMERIC value is read back as it was written: the binary form that
/// `Numeric::write` gives for a decimal decodes to the weight, sign, scale
/// and digits that it was written from.
pub proof fn law_numeric_bytes_round_trip(c: Seq<char>, e: int, nan: NumericError)
    requires
        integer_text(c),
        numeric_encoding(c, e) matches Ok(p) && p.3.len() <= 32767,
    ensures
        numeric_parts(numeric_bytes(numeric_encoding(c, e)->Ok_0), nan) == numeric_encoding(c, e),
{
    let p = numeric_encoding(c, e)->Ok_0;
    lemma_encoding_ranges(c, e);
    let raw = numeric_bytes(p);
    crate::wire::lemma_pow256_small();
    crate::wire::lemma_signed_round_trip(p.3.len() as int, 2);
    crate::wire::lemma_signed_round_trip(p.0, 2);
    crate::wire::lemma_signed_round_trip(p.2, 2);
    crate::wire::lemma_be_value_of_bytes(p.1 as nat, 2);
    lemma_digits_bytes_len(p.3);
    assert(raw.subrange(0, 2) =~= signed_bytes(p.3.len() as int, 2));
    assert(raw.subrange(2, 4) =~= signed_bytes(p.0, 2));
    assert(raw.subrange(4, 6) =~= be_bytes(p.1 as nat, 2));
    assert(raw.subrange(6, 8) =~= signed_bytes(p.2, 2));
    let nd = p.3.len() as nat;
    let d = numeric_digits(raw, nd);
    assert forall|k: int| 0 <= k < nd implies #[trigger] d[k] == p.3[k] by {
        lemma_digits_bytes_at(p.3, k);
        assert(raw.subrange(8 + 2 * k, 8 + 2 * k + 2) =~= digits_bytes(p.3).subrange(2 * k, 2 * k + 2));
        crate::wire::lemma_signed_round_trip(p.3[k], 2);
    }
    assert(d =~= p.3);
}

} // verus!
