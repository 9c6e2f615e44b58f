//! The NUMERIC codec of the `bigdecimal` crate's `BigDecimal`.

use vstd::prelude::*;
use bigdecimal::BigDecimal;
use bytes::BytesMut;
use crate::builtin::Builtin;
use crate::codec::{Format, FromSql, ToSql, IsNull};
use crate::error::{SqlError, NumericError};
use crate::kingbase::is_builtin;
use crate::numeric::{Numeric, numeric_to_string, numeric_text_decoding, numeric_parts, integer_text, numeric_encoding, numeric_bytes, unsigned_part, int_text, frac_text, fit_to, group_text};
use crate::text::{all_digits, digits_value, signed_decimal, str_chars, string_from_chars, zero_padded, zeros};
use crate::wire::signed_bytes;
use crate::types::{Type, TypeView};
use crate::numeric_text::{decimal_text, law_numeric_text_round_trip, lemma_zeros_prefix_value};
use crate::numeric::{scaled_digits, trim_leading_zeros, lemma_trim_digits};
use crate::wire::buffer_bytes;

verus! {

/// The arbitrary-precision decimal of the `bigdecimal` crate.
#[verifier::external_type_specification]
#[verifier::external_body]
pub struct ExBigDecimal(BigDecimal);

/// The decimal that `BigDecimal::parse_bytes` reads from the UTF-8 bytes of
/// `text` with radix 10, or `None` where it rejects them.
pub uninterp spec fn parsed_decimal(text: Seq<char>) -> Option<BigDecimal>;

/// The text that `BigInt`'s `Display` writes for the integer of the digits
/// of `value`, and the scale, as `BigDecimal::as_bigint_and_exponent`
/// returns them.
pub uninterp spec fn decimal_parts_of(value: BigDecimal) -> (Seq<char>, i64);

/// The integer that the integer text `s` spells.
pub open spec fn integer_value(s: Seq<char>) -> int {
    if s.len() > 0 && s[0] == '-' {
        -(digits_value(unsigned_part(s)) as int)
    } else {
        digits_value(unsigned_part(s)) as int
    }
}

/// Whether `t` is a plain decimal text: the text of an integer, and
/// optionally a point followed by at least one ASCII digit.
pub open spec fn plain_decimal(t: Seq<char>) -> bool {
    match first_point(t) {
        None => integer_text(t),
        Some(k) => integer_text(t.take(k)) && k + 1 < t.len() && all_digits(t.skip(k + 1)),
    }
}

/// Calls `BigDecimal::parse_bytes` with radix 10 on the UTF-8 bytes of
/// `text`; the result is named `parsed_decimal`. `from_str_radix` splits a
/// text without an exponent at its first point, reads the digits around it
/// as one `BigInt` (an optional `-`, then digits) and takes the count of
/// digits after the point as the scale; so a plain decimal text gives a
/// decimal whose integer, as `BigInt` writes it, is the value of the text
/// without its point, and whose scale is that count.
#[verifier::external_body]
fn parse_decimal(text: &str) -> (r: Option<BigDecimal>)
    ensures
        r == parsed_decimal(text@),
        plain_decimal(text@) ==> r is Some,
        plain_decimal(text@) ==> decimal_parts_of(r->Some_0) == (signed_decimal(integer_value(text_parts(text@).0)), text_parts(text@).1 as i64),
{
    BigDecimal::parse_bytes(text.as_bytes(), 10)
}

/// Calls `BigDecimal::as_bigint_and_exponent` and writes the returned
/// integer with its `Display`; the result is named `decimal_parts_of`. The
/// text is that of an integer as `Display` writes it: `0`, or an optional
/// `-` and digits without leading zeros.
#[verifier::external_body]
fn decimal_parts(value: &BigDecimal) -> (r: (String, i64))
    ensures
        (r.0@, r.1) == decimal_parts_of(*value),
        integer_text(r.0@),
        r.0@ == signed_decimal(integer_value(r.0@)),
{
    let (bigint, exponent) = value.as_bigint_and_exponent();
    (bigint.to_string(), exponent)
}

/// A decimal as the text of the integer of its digits and the number of
/// those digits that lie after the point: the value
/// `coefficient * 10^(-exponent)`.
#[derive(Debug)]
pub struct DecimalParts {
    coefficient: String,
    exponent: i64,
}

/// Whether `s` is the text of an integer: an optional `-` and at least one
/// ASCII digit.
pub fn is_integer_text(s: &str) -> (r: bool)
    ensures
        r == integer_text(s@),
{
    let c = str_chars(s);
    let start: usize = if c.len() > 0 && c[0] == '-' {
        1
    } else {
        0
    };
    if start >= c.len() {
        proof {
            assert(unsigned_part(s@).len() == 0);
        }
        return false;
    }
    let mut i = start;
    while i < c.len()
        invariant
            start <= i <= c@.len(),
            c@ == s@,
            start == (if c@.len() > 0 && c@[0] == '-' {
                1int
            } else {
                0int
            }),
            forall|j: int| start <= j < i ==> '0' <= #[trigger] c@[j] <= '9',
        decreases c.len() - i,
    {
        if !('0' <= c[i] && c[i] <= '9') {
            proof {
                assert(unsigned_part(s@)[i - start] == c@[i as int]);
            }
            return false;
        }
        i = i + 1;
    }
    proof {
        assert forall|j: int| 0 <= j < unsigned_part(s@).len() implies '0' <= #[trigger] unsigned_part(s@)[j]
            <= '9' by {
            assert(unsigned_part(s@)[j] == c@[j + start]);
        }
    }
    true
}

impl DecimalParts {
    #[verifier::type_invariant]
    spec fn well_formed(self) -> bool {
        integer_text(self.coefficient@)
    }

    /// The text of the integer of the digits.
    pub closed spec fn spec_coefficient(&self) -> Seq<char> {
        self.coefficient@
    }

    /// The number of digits after the point.
    pub closed spec fn spec_exponent(&self) -> i64 {
        self.exponent
    }

    /// The decimal `coefficient * 10^(-exponent)`; `None` where
    /// `coefficient` is not the text of an integer.
    pub fn new(coefficient: String, exponent: i64) -> (r: Option<DecimalParts>)
        ensures
            integer_text(coefficient@) ==> (r matches Some(p) && p.spec_coefficient() == coefficient@
                && p.spec_exponent() == exponent),
            !integer_text(coefficient@) ==> r is None,
    {
        if is_integer_text(coefficient.as_str()) {
            Some(DecimalParts { coefficient, exponent })
        } else {
            None
        }
    }

    /// The parts of a `BigDecimal`: its digits as an integer and its
    /// exponent.
    pub fn of_decimal(value: &BigDecimal) -> (r: DecimalParts)
        ensures
            (r.spec_coefficient(), r.spec_exponent()) == decimal_parts_of(*value),
            integer_text(r.spec_coefficient()),
            r.spec_coefficient() == signed_decimal(integer_value(r.spec_coefficient())),
    {
        let (coefficient, exponent) = decimal_parts(value);
        DecimalParts { coefficient, exponent }
    }

    /// The text of the integer of the digits.
    pub fn coefficient(&self) -> (r: &str)
        ensures
            r@ == self.spec_coefficient(),
            integer_text(r@),
    {
        proof {
            use_type_invariant(self);
        }
        self.coefficient.as_str()
    }

    /// The number of digits after the point.
    pub fn exponent(&self) -> (r: i64)
        ensures
            r == self.spec_exponent(),
    {
        self.exponent
    }
}

impl Numeric {
    /// Builds the NUMERIC form of a decimal from its digits and exponent.
    pub fn try_from(value: &DecimalParts) -> (r: Result<Numeric, NumericError>)
        ensures
            match r {
                Ok(n) => numeric_encoding(value.spec_coefficient(), value.spec_exponent() as int) == Ok::<
                    (int, int, int, Seq<int>),
                    NumericError,
                >(n.parts()),
                Err(e) => numeric_encoding(value.spec_coefficient(), value.spec_exponent() as int) == Err::<
                    (int, int, int, Seq<int>),
                    NumericError,
                >(e),
            },
    {
        Numeric::from_parts(value.coefficient(), value.exponent())
    }
}

impl<'a> FromSql<'a> for BigDecimal {
    open spec fn accepted(ty: TypeView) -> bool {
        is_builtin(ty, Builtin::Numeric)
    }

    open spec fn decodes(ty: TypeView, raw: Option<Seq<u8>>, v: Self) -> bool {
        raw matches Some(b) && numeric_text_decoding(b) matches Ok(t) && parsed_decimal(t) == Some(v)
    }

    open spec fn decodes_ok(ty: TypeView, raw: Seq<u8>) -> bool {
        numeric_text_decoding(raw) is Ok
    }

    /// Decodes the NUMERIC value as decimal text and parses that text.
    fn from_sql(ty: &Type, raw: &'a [u8]) -> (r: Result<BigDecimal, SqlError>)
        ensures
            match numeric_text_decoding(raw@) {
                Ok(t) => parsed_decimal(t) matches Some(d) && r == Ok::<BigDecimal, SqlError>(d)
                    && decimal_parts_of(d) == (signed_decimal(integer_value(text_parts(t).0)), text_parts(t).1 as i64),
                Err(e) => r == Err::<BigDecimal, SqlError>(SqlError::Numeric(e)),
            },
    {
        let text = match numeric_to_string(raw) {
            Ok(t) => t,
            Err(e) => return Err(SqlError::Numeric(e)),
        };
        proof {
            lemma_decoded_text_plain(raw@);
        }
        match parse_decimal(text.as_str()) {
            Some(d) => Ok(d),
            None => Err(SqlError::Numeric(NumericError::InvalidValue)),
        }
    }

    fn accepts(ty: &Type) -> (r: bool) {
        ty.is(Builtin::Numeric)
    }
}

impl ToSql for BigDecimal {
    open spec fn accepted(ty: TypeView) -> bool {
        is_builtin(ty, Builtin::Numeric)
    }

    /// At most 32767 digits are written, after the eight-byte header.
    open spec fn encoded_len(&self) -> nat {
        8 + 2 * 32767
    }

    open spec fn format_for(&self, ty: TypeView) -> Format {
        Format::Binary
    }

    open spec fn encodes(&self, ty: TypeView, w: Seq<u8>, null: IsNull) -> bool {
        &&& null == IsNull::No
        &&& numeric_encoding(decimal_parts_of(*self).0, decimal_parts_of(*self).1 as int) matches Ok(p)
        &&& p.3.len() <= 32767
        &&& w == numeric_bytes(p)
    }

    /// Writes the NUMERIC form of the decimal's digits and scale.
    fn to_sql(&self, ty: &Type, out: &mut BytesMut) -> (r: Result<IsNull, SqlError>)
        ensures
            integer_text(decimal_parts_of(*self).0),
            decimal_parts_of(*self).0 == signed_decimal(integer_value(decimal_parts_of(*self).0)),
            match numeric_encoding(decimal_parts_of(*self).0, decimal_parts_of(*self).1 as int) {
                Ok(p) => if p.3.len() <= 32767 {
                    r == Ok::<IsNull, SqlError>(IsNull::No)
                } else {
                    r == Err::<IsNull, SqlError>(SqlError::Numeric(NumericError::TooManyDigits))
                },
                Err(e) => r == Err::<IsNull, SqlError>(SqlError::Numeric(e)),
            },
    {
        let parts = DecimalParts::of_decimal(self);
        let numeric = match Numeric::try_from(&parts) {
            Ok(n) => n,
            Err(e) => return Err(SqlError::Numeric(e)),
        };
        match numeric.write(out) {
            Ok(()) => Ok(IsNull::No),
            Err(e) => Err(SqlError::Numeric(e)),
        }
    }

    fn accepts(ty: &Type) -> (r: bool) {
        ty.is(Builtin::Numeric)
    }

    fn rust_name() -> &'static str {
        "bigdecimal::BigDecimal"
    }

    fn encode_format(&self, ty: &Type) -> (r: Format) {
        Format::Binary
    }
}

/// Where the first point of `t` is, if it has one.
pub open spec fn first_point(t: Seq<char>) -> Option<int>
    decreases t.len(),
{
    if t.len() == 0 {
        None
    } else {
        match first_point(t.drop_last()) {
            Some(k) => Some(k),
            None => if t.last() == '.' {
                Some(t.len() - 1)
            } else {
                None
            },
        }
    }
}

/// The coefficient and exponent that a decimal text spells: the text
/// without its point, and the number of characters after the point.
pub open spec fn text_parts(t: Seq<char>) -> (Seq<char>, int) {
    match first_point(t) {
        Some(k) => (t.take(k) + t.skip(k + 1), t.len() - k - 1),
        None => (t, 0),
    }
}

proof fn lemma_first_point_bounds(t: Seq<char>)
    ensures
        first_point(t) matches Some(k) ==> 0 <= k < t.len() && t[k] == '.',
    decreases t.len(),
{
    if t.len() > 0 {
        lemma_first_point_bounds(t.drop_last());
    }
}

/// A text has no point exactly when `first_point` finds none, and the
/// point it finds is the first.
proof fn lemma_first_point_first(t: Seq<char>)
    ensures
        first_point(t) is None <==> (forall|i: int| 0 <= i < t.len() ==> t[i] != '.'),
        first_point(t) matches Some(k) ==> 0 <= k < t.len() && t[k] == '.' && (forall|i: int|
            0 <= i < k ==> t[i] != '.'),
    decreases t.len(),
{
    if t.len() > 0 {
        lemma_first_point_first(t.drop_last());
        let u = t.drop_last();
        assert forall|i: int| 0 <= i < u.len() implies u[i] == t[i] by {}
        if first_point(u) is None {
            assert((forall|i: int| 0 <= i < t.len() ==> t[i] != '.') <==> ((forall|i: int|
                0 <= i < u.len() ==> u[i] != '.') && t.last() != '.'));
        }
    }
}

/// The first point of a text made of a pointless head, a point and a tail
/// is the one after the head.
proof fn lemma_first_point_after(a: Seq<char>, b: Seq<char>)
    requires
        forall|i: int| 0 <= i < a.len() ==> a[i] != '.',
    ensures
        first_point(a + seq!['.'] + b) == Some(a.len() as int),
{
    let x = a + seq!['.'] + b;
    lemma_first_point_first(x);
    assert(x[a.len() as int] == '.');
    if let Some(k) = first_point(x) {
        if k < a.len() {
            assert(x[k] == a[k]);
        }
    }
}

/// The numeral of a number is made of digits, at least one.
proof fn lemma_decimal_digits(n: nat)
    ensures
        crate::text::decimal(n).len() > 0,
        all_digits(crate::text::decimal(n)),
    decreases n,
{
    if n >= 10 {
        lemma_decimal_digits(n / 10);
        assert(crate::text::decimal(n) == crate::text::decimal(n / 10).push(crate::text::digit_char(n % 10)));
    }
}

/// A padded numeral is made of digits.
proof fn lemma_zero_padded_digits(n: nat, w: nat)
    ensures
        zero_padded(n, w).len() > 0,
        all_digits(zero_padded(n, w)),
{
    lemma_decimal_digits(n);
    let d = crate::text::decimal(n);
    if d.len() < w {
        let z = Seq::new((w - d.len()) as nat, |i: int| '0');
        assert forall|i: int| 0 <= i < (z + d).len() implies '0' <= #[trigger] (z + d)[i] <= '9' by {
            if i >= z.len() {
                assert((z + d)[i] == d[i - z.len()]);
            }
        }
    }
}

/// The integer part of a NUMERIC text is made of digits.
proof fn lemma_int_text_digits(d: Seq<int>, g: nat)
    requires
        forall|k: int| 0 <= k < d.len() ==> 0 <= #[trigger] d[k] < 10000,
    ensures
        g > 0 ==> int_text(d, g).len() > 0,
        all_digits(int_text(d, g)),
    decreases g,
{
    if g > 0 {
        lemma_int_text_digits(d, (g - 1) as nat);
        let i = g - 1;
        let gt = group_text(d, i);
        if i < d.len() {
            if i == 0 {
                lemma_decimal_digits(d[0] as nat);
            } else {
                lemma_zero_padded_digits(d[i] as nat, 4);
            }
        } else {
            reveal_strlit("0000");
        }
        let a = int_text(d, (g - 1) as nat);
        assert forall|j: int| 0 <= j < (a + gt).len() implies '0' <= #[trigger] (a + gt)[j] <= '9' by {
            if j >= a.len() {
                assert((a + gt)[j] == gt[j - a.len()]);
            } else {
                assert((a + gt)[j] == a[j]);
            }
        }
    }
}

/// The fractional groups of a NUMERIC text are made of digits.
proof fn lemma_frac_text_digits(d: Seq<int>, start: nat, end: nat)
    requires
        end <= d.len(),
        forall|k: int| 0 <= k < d.len() ==> 0 <= #[trigger] d[k] < 10000,
    ensures
        all_digits(frac_text(d, start, end)),
    decreases end,
{
    if end > start {
        lemma_frac_text_digits(d, start, (end - 1) as nat);
        lemma_zero_padded_digits(d[end - 1] as nat, 4);
        let a = frac_text(d, start, (end - 1) as nat);
        let z = zero_padded(d[end - 1] as nat, 4);
        assert forall|j: int| 0 <= j < (a + z).len() implies '0' <= #[trigger] (a + z)[j] <= '9' by {
            if j >= a.len() {
                assert((a + z)[j] == z[j - a.len()]);
            } else {
                assert((a + z)[j] == a[j]);
            }
        }
    }
}

/// Digits cut or padded with zeros stay digits.
proof fn lemma_fit_to_digits(s: Seq<char>, n: nat)
    requires
        all_digits(s),
    ensures
        all_digits(fit_to(s, n)),
        fit_to(s, n).len() == n,
{
    if s.len() <= n {
        let z = zeros((n - s.len()) as nat);
        assert forall|j: int| 0 <= j < (s + z).len() implies '0' <= #[trigger] (s + z)[j] <= '9' by {
            if j >= s.len() {
                assert((s + z)[j] == z[j - s.len()]);
            } else {
                assert((s + z)[j] == s[j]);
            }
        }
    }
}

/// Every text that a NUMERIC value decodes to is a plain decimal text, so
/// `BigDecimal` reads it.
proof fn lemma_decoded_text_plain(raw: Seq<u8>)
    ensures
        numeric_text_decoding(raw) matches Ok(t) ==> plain_decimal(t),
{
    if let Ok((weight, sign, dscale, d)) = numeric_parts(raw, NumericError::NanAsDecimal) {
        assert forall|k: int| 0 <= k < d.len() implies 0 <= #[trigger] d[k] < 10000 by {}
        let t = numeric_text_decoding(raw)->Ok_0;
        let (head, f): (Seq<char>, Seq<char>) = if d.len() == 0 {
            (seq!['0'], zeros(dscale as nat))
        } else {
            let dg = weight + 1;
            let digits = if dg <= 0 {
                seq!['0']
            } else {
                int_text(d, dg as nat)
            };
            if dg > 0 {
                lemma_int_text_digits(d, dg as nat);
            }
            let sgn = if sign == 0x4000 {
                seq!['-']
            } else {
                Seq::<char>::empty()
            };
            assert(unsigned_part(sgn + digits) =~= digits);
            let start: nat = if dg > 0 {
                dg as nat
            } else {
                0
            };
            let pre = if dg < 0 {
                zeros((4 * (-dg)) as nat)
            } else {
                Seq::<char>::empty()
            };
            lemma_frac_text_digits(d, start, d.len());
            let fr = frac_text(d, start, d.len());
            assert forall|j: int| 0 <= j < (pre + fr).len() implies '0' <= #[trigger] (pre + fr)[j] <= '9' by {
                if j >= pre.len() {
                    assert((pre + fr)[j] == fr[j - pre.len()]);
                } else {
                    assert((pre + fr)[j] == pre[j]);
                }
            }
            lemma_fit_to_digits(pre + fr, dscale as nat);
            (sgn + digits, fit_to(pre + fr, dscale as nat))
        };
        assert(integer_text(head));
        assert forall|i: int| 0 <= i < head.len() implies head[i] != '.' by {
            if head[0] == '-' {
                if i > 0 {
                    assert(head[i] == unsigned_part(head)[i - 1]);
                }
            } else {
                assert(head[i] == unsigned_part(head)[i]);
            }
        }
        if dscale > 0 {
            assert(t == head + seq!['.'] + f);
            lemma_first_point_after(head, f);
            assert((head + seq!['.'] + f).take(head.len() as int) =~= head);
            assert((head + seq!['.'] + f).skip(head.len() as int + 1) =~= f);
        } else {
            assert(t == head);
            lemma_first_point_first(head);
        }
    }
}

/// A digit string is its leading zeros and then the rest.
proof fn lemma_trim_split(s: Seq<char>)
    ensures
        trim_leading_zeros(s).len() <= s.len(),
        s == zeros((s.len() - trim_leading_zeros(s).len()) as nat) + trim_leading_zeros(s),
    decreases s.len(),
{
    if s.len() > 0 && s[0] == '0' {
        let r = s.subrange(1, s.len() as int);
        lemma_trim_split(r);
        let k = (s.len() - trim_leading_zeros(s).len()) as nat;
        let kr = (r.len() - trim_leading_zeros(r).len()) as nat;
        assert(zeros(k) =~= seq!['0'] + zeros(kr));
        assert(s =~= seq!['0'] + r);
        assert(s =~= zeros(k) + trim_leading_zeros(s));
    } else {
        assert(s =~= zeros(0) + s);
    }
}

/// A decimal is read back as it was written: for the digits `c`, as
/// `BigInt` writes them, and a scale `e` that is not negative, the NUMERIC
/// bytes written for them decode to a plain decimal text whose digits
/// without the point, as `BigInt` writes them, are `c` again and whose
/// count of digits after the point is `e`.
#[verifier::rlimit(80)]
#[verifier::spinoff_prover]
pub proof fn law_decimal_round_trip(c: Seq<char>, e: int)
    requires
        integer_text(c),
        c == signed_decimal(integer_value(c)),
        0 <= e,
        numeric_encoding(c, e) matches Ok(p) && p.3.len() <= 32767,
    ensures
        numeric_text_decoding(numeric_bytes(numeric_encoding(c, e)->Ok_0)) == Ok::<Seq<char>, NumericError>(
            decimal_text(c, e),
        ),
        plain_decimal(decimal_text(c, e)),
        signed_decimal(integer_value(text_parts(decimal_text(c, e)).0)) == c,
        text_parts(decimal_text(c, e)).1 == e,
{
    law_numeric_text_round_trip(c, e);
    lemma_decoded_text_plain(numeric_bytes(numeric_encoding(c, e)->Ok_0));
    let u = unsigned_part(c);
    let (digits, scale) = scaled_digits(u, e)->Ok_0;
    assert(digits == u && scale == e);
    lemma_trim_digits(u);
    lemma_trim_split(u);
    let t = trim_leading_zeros(u);
    let k = (u.len() - t.len()) as nat;
    lemma_zeros_prefix_value(k, t);
    let tt = decimal_text(c, e);
    let neg = t.len() > 0 && c.len() > 0 && c[0] == '-';
    let sign = if neg {
        seq!['-']
    } else {
        Seq::<char>::empty()
    };
    let int_len: int = if t.len() > scale {
        t.len() - scale
    } else {
        0
    };
    let frac = if scale > t.len() {
        zeros((scale - t.len()) as nat) + t
    } else {
        t.skip(t.len() - scale)
    };
    let digs = if int_len > 0 {
        t.take(int_len)
    } else {
        seq!['0']
    };
    let head = sign + digs;
    assert(forall|i: int| 0 <= i < head.len() ==> head[i] != '.') by {
        assert forall|i: int| 0 <= i < head.len() implies head[i] != '.' by {
            if i >= sign.len() {
                if int_len > 0 {
                    assert(head[i] == t[i - sign.len()]);
                }
            }
        }
    }
    // The digits without the point spell the value of `t`.
    let whole = if int_len > 0 {
        t
    } else {
        zeros((1 + scale - t.len()) as nat) + t
    };
    if int_len > 0 {
        assert(digs + frac =~= t);
    } else {
        assert(digs + frac =~= whole);
        lemma_zeros_prefix_value((1 + scale - t.len()) as nat, t);
    }
    if scale > 0 {
        assert(tt == head + seq!['.'] + frac);
        lemma_first_point_after(head, frac);
        assert((head + seq!['.'] + frac).take(head.len() as int) =~= head);
        assert((head + seq!['.'] + frac).skip(head.len() as int + 1) =~= frac);
        assert(text_parts(tt).0 =~= sign + (digs + frac));
        assert(unsigned_part(sign + (digs + frac)) =~= digs + frac);
    } else {
        assert(tt == head);
        lemma_first_point_first(head);
        assert(frac =~= Seq::<char>::empty());
        assert(text_parts(tt).0 == sign + digs);
        assert(unsigned_part(sign + digs) =~= digs + frac);
    }
    if t.len() == 0 {
        assert(digits_value(t) == 0);
    }
}

/// Splits a decimal text at its first point.
fn split_point(t: &Vec<char>) -> (r: Option<usize>)
    ensures
        match r {
            Some(k) => first_point(t@) == Some(k as int),
            None => first_point(t@) is None,
        },
{
    let mut i: usize = 0;
    while i < t.len()
        invariant
            i <= t@.len(),
            first_point(t@.take(i as int)) is None,
        decreases t.len() - i,
    {
        proof {
            assert(t@.take(i + 1).drop_last() =~= t@.take(i as int));
        }
        if t[i] == '.' {
            proof {
                assert(first_point(t@.take(i + 1)) == Some(i as int));
                lemma_first_point_prefix(t@, i + 1);
            }
            return Some(i);
        }
        i = i + 1;
    }
    proof {
        assert(t@.take(t@.len() as int) =~= t@);
    }
    None
}

/// The first point of a prefix that has one is the first point of the
/// whole text.
proof fn lemma_first_point_prefix(t: Seq<char>, n: int)
    requires
        0 <= n <= t.len(),
        first_point(t.take(n)) is Some,
    ensures
        first_point(t) == first_point(t.take(n)),
    decreases t.len(),
{
    if n < t.len() {
        assert(t.drop_last().take(n) =~= t.take(n));
        lemma_first_point_prefix(t.drop_last(), n);
    } else {
        assert(t.take(n) =~= t);
    }
}

impl ToSql for DecimalParts {
    open spec fn accepted(ty: TypeView) -> bool {
        is_builtin(ty, Builtin::Numeric)
    }

    /// At most 32767 digits are written, after the eight-byte header.
    open spec fn encoded_len(&self) -> nat {
        8 + 2 * 32767
    }

    open spec fn format_for(&self, ty: TypeView) -> Format {
        Format::Binary
    }

    open spec fn encodes(&self, ty: TypeView, w: Seq<u8>, null: IsNull) -> bool {
        &&& null == IsNull::No
        &&& numeric_encoding(self.spec_coefficient(), self.spec_exponent() as int) matches Ok(p)
        &&& p.3.len() <= 32767
        &&& w == numeric_bytes(p)
    }

    /// Writes the NUMERIC form of the decimal; a decimal that the form
    /// cannot hold gives the error that says why.
    fn to_sql(&self, ty: &Type, out: &mut BytesMut) -> (r: Result<IsNull, SqlError>)
        ensures
            match numeric_encoding(self.spec_coefficient(), self.spec_exponent() as int) {
                Ok(p) => if p.3.len() <= 32767 {
                    r == Ok::<IsNull, SqlError>(IsNull::No)
                } else {
                    r == Err::<IsNull, SqlError>(SqlError::Numeric(NumericError::TooManyDigits))
                },
                Err(e) => r == Err::<IsNull, SqlError>(SqlError::Numeric(e)),
            },
    {
        let numeric = match Numeric::try_from(self) {
            Ok(n) => n,
            Err(e) => return Err(SqlError::Numeric(e)),
        };
        match numeric.write(out) {
            Ok(()) => Ok(IsNull::No),
            Err(e) => Err(SqlError::Numeric(e)),
        }
    }

    fn accepts(ty: &Type) -> (r: bool) {
        ty.is(Builtin::Numeric)
    }

    fn rust_name() -> &'static str {
        "kingbase_types::decimal::DecimalParts"
    }

    fn encode_format(&self, ty: &Type) -> (r: Format) {
        Format::Binary
    }
}

impl<'a> FromSql<'a> for DecimalParts {
    open spec fn accepted(ty: TypeView) -> bool {
        is_builtin(ty, Builtin::Numeric)
    }

    open spec fn decodes(ty: TypeView, raw: Option<Seq<u8>>, v: Self) -> bool {
        &&& raw matches Some(b)
        &&& numeric_text_decoding(b) matches Ok(t)
        &&& v.spec_coefficient() == text_parts(t).0
        &&& v.spec_exponent() == text_parts(t).1
    }

    open spec fn decodes_ok(ty: TypeView, raw: Seq<u8>) -> bool {
        numeric_text_decoding(raw) matches Ok(t) && integer_text(text_parts(t).0) && text_parts(t).1 <= i64::MAX
    }

    /// Decodes the NUMERIC value as decimal text, and reads the digits of
    /// that text as an integer and the count of digits after its point as
    /// the exponent.
    fn from_sql(ty: &Type, raw: &'a [u8]) -> (r: Result<DecimalParts, SqlError>)
        ensures
            r matches Err(e) ==> e is Numeric,
            numeric_text_decoding(raw@) matches Err(e) ==> r == Err::<DecimalParts, SqlError>(SqlError::Numeric(e)),
    {
        let text = match numeric_to_string(raw) {
            Ok(t) => t,
            Err(e) => return Err(SqlError::Numeric(e)),
        };
        let chars = str_chars(text.as_str());
        let n = chars.len();
        let (coefficient, exponent): (Vec<char>, usize) = match split_point(&chars) {
            None => (chars, 0),
            Some(k) => {
                proof {
                    lemma_first_point_bounds(chars@);
                }
                let mut c: Vec<char> = Vec::new();
                let mut i: usize = 0;
                while i < n
                    invariant
                        k < n == chars@.len(),
                        i <= n,
                        c@ == (if i <= k {
                            chars@.take(i as int)
                        } else {
                            chars@.take(k as int) + chars@.subrange(k + 1, i as int)
                        }),
                    decreases n - i,
                {
                    if i != k {
                        c.push(chars[i]);
                    }
                    proof {
                        if i < k {
                            assert(c@ =~= chars@.take(i + 1));
                        } else if i == k {
                            assert(chars@.take(k as int) + chars@.subrange(k + 1, i + 1) =~= chars@.take(k as int));
                        } else {
                            assert(c@ =~= chars@.take(k as int) + chars@.subrange(k + 1, i + 1));
                        }
                    }
                    i = i + 1;
                }
                proof {
                    assert(chars@.subrange(k + 1, n as int) =~= chars@.skip(k + 1));
                }
                (c, n - k - 1)
            },
        };
        if exponent as u64 > 0x7fff_ffff_ffff_ffffu64 {
            return Err(SqlError::Numeric(NumericError::InvalidValue));
        }
        match DecimalParts::new(string_from_chars(&coefficient), exponent as i64) {
            Some(p) => Ok(p),
            None => Err(SqlError::Numeric(NumericError::InvalidValue)),
        }
    }

    fn accepts(ty: &Type) -> (r: bool) {
        ty.is(Builtin::Numeric)
    }
}

} // verus!
