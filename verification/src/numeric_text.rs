//! The decimal text that a NUMERIC value written from a decimal's digits and
//! scale is read back as.

use vstd::prelude::*;
use crate::text::{all_digits, decimal, digit_char, digits_value, zero_padded, zeros};
use crate::numeric::{
    chunk4, frac_text, int_text, group_text, leading_zero_groups, trailing_zero_groups, fit_to,
    numeric_encoding, numeric_bytes, numeric_parts, numeric_text_decoding, scaled_digits, group_split,
    stripped, trim_leading_zeros, unsigned_part, integer_text, pad4, lemma_trim_digits,
    lemma_encoding_ranges, law_numeric_bytes_round_trip,
};
use crate::error::NumericError;

verus! {

/// Leading zeros do not change the number that digits spell.
pub proof fn lemma_zeros_prefix_value(k: nat, r: Seq<char>)
    ensures
        digits_value(zeros(k) + r) == digits_value(r),
    decreases r.len() + k,
{
    if r.len() > 0 {
        lemma_zeros_prefix_value(k, r.drop_last());
        assert((zeros(k) + r).drop_last() =~= zeros(k) + r.drop_last());
    } else if k > 0 {
        lemma_zeros_prefix_value((k - 1) as nat, r);
        assert((zeros(k) + r).drop_last() =~= zeros((k - 1) as nat) + r);
        assert(zeros(k) + r =~= zeros(k));
    } else {
        assert(zeros(k) + r =~= Seq::<char>::empty());
    }
}

/// The numeral of the number that digits without a leading zero spell is
/// those digits.
pub proof fn lemma_decimal_of_digits(q: Seq<char>)
    requires
        q.len() > 0,
        all_digits(q),
        q[0] != '0',
    ensures
        decimal(digits_value(q)) == q,
        digits_value(q) >= 1,
    decreases q.len(),
{
    let c = q.last();
    let b = ((c as u32) - 48) as nat;
    assert('0' <= q[q.len() - 1] <= '9');
    assert(digit_char(b) == c);
    if q.len() == 1 {
        assert(q.drop_last() =~= Seq::<char>::empty());
        assert(digits_value(q.drop_last()) == 0);
        assert(digits_value(q) == b);
        assert(q =~= seq![c]);
    } else {
        let p = q.drop_last();
        assert(all_digits(p)) by {
            assert forall|i: int| 0 <= i < p.len() implies '0' <= #[trigger] p[i] <= '9' by {
                assert(p[i] == q[i]);
            }
        }
        lemma_decimal_of_digits(p);
        let a = digits_value(p);
        let n = digits_value(q);
        assert(n == 10 * a + b);
        assert(n / 10 == a && n % 10 == b) by (nonlinear_arith)
            requires
                n == 10 * a + b,
                b < 10,
        ;
        assert(decimal(n) == decimal(n / 10).push(digit_char(n % 10)));
        assert(q =~= p.push(c));
    }
}

/// Zeros spell zero.
pub proof fn lemma_zeros_value(k: nat)
    ensures
        digits_value(zeros(k)) == 0,
{
    lemma_zeros_prefix_value(k, Seq::<char>::empty());
    assert(zeros(k) + Seq::<char>::empty() =~= zeros(k));
}

/// Four digits are the padded numeral of the number they spell.
pub proof fn lemma_group4(q: Seq<char>)
    requires
        q.len() == 4,
        all_digits(q),
    ensures
        zero_padded(digits_value(q), 4) == q,
{
    let k = if q[0] != '0' {
        0
    } else if q[1] != '0' {
        1
    } else if q[2] != '0' {
        2
    } else if q[3] != '0' {
        3
    } else {
        4int
    };
    let r = q.subrange(k, 4);
    assert(q =~= zeros(k as nat) + r);
    lemma_zeros_prefix_value(k as nat, r);
    if k == 4 {
        assert(r =~= Seq::<char>::empty());
        assert(digits_value(q) == 0);
        assert(decimal(0) =~= seq!['0']);
        assert(zero_padded(0, 4) =~= q);
    } else {
        assert(all_digits(r)) by {
            assert forall|i: int| 0 <= i < r.len() implies '0' <= #[trigger] r[i] <= '9' by {
                assert(r[i] == q[i + k]);
            }
        }
        lemma_decimal_of_digits(r);
        assert(zero_padded(digits_value(q), 4) =~= q);
    }
}

/// The base-10000 digits `g`, each written with four characters.
pub open spec fn groups_text(g: Seq<int>) -> Seq<char>
    decreases g.len(),
{
    if g.len() == 0 {
        Seq::<char>::empty()
    } else {
        groups_text(g.drop_last()) + zero_padded(g.last() as nat, 4)
    }
}

/// Digits whose count is a multiple of four are the texts of their groups.
pub proof fn lemma_groups_text_chunk4(s: Seq<char>)
    requires
        all_digits(s),
        s.len() % 4 == 0,
    ensures
        groups_text(chunk4(s)) == s,
    decreases s.len(),
{
    if s.len() > 0 {
        let n = s.len() as int;
        let p = s.take(n - 4);
        let q = s.skip(n - 4);
        assert(all_digits(p)) by {
            assert forall|i: int| 0 <= i < p.len() implies '0' <= #[trigger] p[i] <= '9' by {
                assert(p[i] == s[i]);
            }
        }
        assert(all_digits(q)) by {
            assert forall|i: int| 0 <= i < q.len() implies '0' <= #[trigger] q[i] <= '9' by {
                assert(q[i] == s[i + n - 4]);
            }
        }
        lemma_groups_text_chunk4(p);
        lemma_group4(q);
        assert(chunk4(s).drop_last() =~= chunk4(p)) by {
            assert forall|i: int| 0 <= i < chunk4(p).len() implies chunk4(s).drop_last()[i] == chunk4(p)[i] by {
                assert(s.subrange(4 * i, 4 * i + 4) =~= p.subrange(4 * i, 4 * i + 4));
            }
        }
        assert(s.subrange(4 * (n / 4 - 1), 4 * (n / 4 - 1) + 4) =~= q);
        assert(chunk4(s).last() == digits_value(q) as int);
        assert(s =~= p + q);
    } else {
        assert(chunk4(s) =~= Seq::<int>::empty());
    }
}

/// The fractional groups of a NUMERIC text are the texts of those groups.
pub proof fn lemma_frac_text_groups(d: Seq<int>, start: nat, end: nat)
    requires
        start <= end <= d.len(),
        forall|k: int| 0 <= k < d.len() ==> 0 <= #[trigger] d[k],
    ensures
        frac_text(d, start, end) == groups_text(d.subrange(start as int, end as int)),
    decreases end,
{
    if end > start {
        lemma_frac_text_groups(d, start, (end - 1) as nat);
        assert(d.subrange(start as int, end as int).drop_last() =~= d.subrange(start as int, end - 1));
    } else {
        assert(d.subrange(start as int, end as int) =~= Seq::<int>::empty());
    }
}

/// The integer part of a NUMERIC text over `g <= d.len()` groups: the
/// numeral of the first group, then the other groups with four characters.
pub proof fn lemma_int_text_groups(d: Seq<int>, g: nat)
    requires
        1 <= g <= d.len(),
        forall|k: int| 0 <= k < d.len() ==> 0 <= #[trigger] d[k],
    ensures
        int_text(d, g) == decimal(d[0] as nat) + groups_text(d.subrange(1, g as int)),
    decreases g,
{
    if g == 1 {
        assert(int_text(d, 0) =~= Seq::<char>::empty());
        assert(d.subrange(1, 1) =~= Seq::<int>::empty());
        assert(int_text(d, 1) =~= decimal(d[0] as nat));
    } else {
        lemma_int_text_groups(d, (g - 1) as nat);
        assert(d.subrange(1, g as int).drop_last() =~= d.subrange(1, g - 1));
    }
}

/// Groups past the kept ones that are zero read as `0000`, as kept zero
/// groups do: the integer text over the kept groups equals that over all.
pub proof fn lemma_int_text_kept(d: Seq<int>, m: nat, g: nat)
    requires
        1 <= m <= d.len(),
        g <= d.len(),
        forall|k: int| m <= k < d.len() ==> #[trigger] d[k] == 0,
    ensures
        int_text(d.take(m as int), g) == int_text(d, g),
    decreases g,
{
    if g > 0 {
        lemma_int_text_kept(d, m, (g - 1) as nat);
        let i = g - 1;
        if i >= m {
            assert(group_text(d.take(m as int), i) == "0000"@);
            assert(d[i] == 0);
            assert(zero_padded(0, 4) =~= "0000"@) by {
                reveal_strlit("0000");
                assert(decimal(0) =~= seq!['0']);
            }
        } else {
            assert(d.take(m as int)[i] == d[i]);
        }
    }
}

/// A part of a digit string is digits.
pub proof fn lemma_sub_digits(s: Seq<char>, a: int, b: int)
    requires
        all_digits(s),
        0 <= a <= b <= s.len(),
    ensures
        all_digits(s.subrange(a, b)),
{
    assert forall|i: int| 0 <= i < s.subrange(a, b).len() implies '0' <= #[trigger] s.subrange(a, b)[i] <= '9' by {
        assert(s.subrange(a, b)[i] == s[a + i]);
    }
}

/// A group is zero exactly when its four characters are `0`.
pub proof fn lemma_zero_group(s: Seq<char>, i: int)
    requires
        all_digits(s),
        s.len() % 4 == 0,
        0 <= i < s.len() / 4,
    ensures
        chunk4(s)[i] == 0 <==> (forall|j: int| 4 * i <= j < 4 * i + 4 ==> #[trigger] s[j] == '0'),
{
    let q = s.subrange(4 * i, 4 * i + 4);
    lemma_sub_digits(s, 4 * i, 4 * i + 4);
    lemma_group4(q);
    if chunk4(s)[i] == 0 {
        assert(decimal(0) =~= seq!['0']);
        assert(zero_padded(0, 4) =~= seq!['0', '0', '0', '0']);
        assert forall|j: int| 4 * i <= j < 4 * i + 4 implies #[trigger] s[j] == '0' by {
            assert(s[j] == q[j - 4 * i]);
        }
    }
    if forall|j: int| 4 * i <= j < 4 * i + 4 ==> #[trigger] s[j] == '0' {
        assert(q =~= zeros(4));
        lemma_zeros_value(4);
    }
}

/// The groups of a part that starts and ends on group boundaries are the
/// groups of the whole in that range, and their texts are that part.
pub proof fn lemma_groups_text_range(s: Seq<char>, a: int, b: int)
    requires
        all_digits(s),
        s.len() % 4 == 0,
        0 <= a <= b <= s.len() / 4,
    ensures
        chunk4(s).subrange(a, b) == chunk4(s.subrange(4 * a, 4 * b)),
        groups_text(chunk4(s).subrange(a, b)) == s.subrange(4 * a, 4 * b),
{
    let x = s.subrange(4 * a, 4 * b);
    assert forall|i: int| 0 <= i < b - a implies chunk4(s).subrange(a, b)[i] == chunk4(x)[i] by {
        assert(s.subrange(4 * (a + i), 4 * (a + i) + 4) =~= x.subrange(4 * i, 4 * i + 4));
    }
    assert(chunk4(s).subrange(a, b) =~= chunk4(x));
    lemma_sub_digits(s, 4 * a, 4 * b);
    lemma_groups_text_chunk4(x);
}

/// The groups of two digit strings, the first a whole number of groups
/// long, are the groups of the first and then those of the second.
pub proof fn lemma_chunk4_concat(x: Seq<char>, y: Seq<char>)
    requires
        x.len() % 4 == 0,
    ensures
        chunk4(x + y) == chunk4(x) + chunk4(y),
{
    let n = x.len() / 4;
    assert forall|i: int| 0 <= i < chunk4(x + y).len() implies chunk4(x + y)[i] == (chunk4(x) + chunk4(y))[i] by {
        if i < n {
            assert((x + y).subrange(4 * i, 4 * i + 4) =~= x.subrange(4 * i, 4 * i + 4));
        } else {
            assert((x + y).subrange(4 * i, 4 * i + 4) =~= y.subrange(4 * (i - n), 4 * (i - n) + 4));
        }
    }
    assert(chunk4(x + y) =~= chunk4(x) + chunk4(y));
}

/// What `leading_zero_groups` counts: zero groups, then a nonzero one if
/// any is left.
pub proof fn lemma_leading_zero_groups(g: Seq<int>)
    ensures
        leading_zero_groups(g) <= g.len(),
        forall|i: int| 0 <= i < leading_zero_groups(g) ==> #[trigger] g[i] == 0,
        leading_zero_groups(g) < g.len() ==> g[leading_zero_groups(g) as int] != 0,
    decreases g.len(),
{
    if g.len() > 0 && g[0] == 0 {
        let h = g.subrange(1, g.len() as int);
        lemma_leading_zero_groups(h);
        assert forall|i: int| 0 <= i < leading_zero_groups(g) implies #[trigger] g[i] == 0 by {
            if i > 0 {
                assert(g[i] == h[i - 1]);
            }
        }
        if leading_zero_groups(g) < g.len() {
            assert(g[leading_zero_groups(g) as int] == h[leading_zero_groups(h) as int]);
        }
    }
}

/// What `trailing_zero_groups` counts: zero groups at the end, after a
/// nonzero one if any is left.
pub proof fn lemma_trailing_zero_groups(g: Seq<int>)
    ensures
        trailing_zero_groups(g) <= g.len(),
        forall|i: int| g.len() - trailing_zero_groups(g) <= i < g.len() ==> #[trigger] g[i] == 0,
        trailing_zero_groups(g) < g.len() ==> g[g.len() - 1 - trailing_zero_groups(g)] != 0,
    decreases g.len(),
{
    if g.len() > 0 && g.last() == 0 {
        let h = g.drop_last();
        lemma_trailing_zero_groups(h);
        assert forall|i: int| g.len() - trailing_zero_groups(g) <= i < g.len() implies #[trigger] g[i] == 0 by {
            if i < g.len() - 1 {
                assert(g[i] == h[i]);
            }
        }
        if trailing_zero_groups(g) < g.len() {
            assert(g[g.len() - 1 - trailing_zero_groups(g)] == h[h.len() - 1 - trailing_zero_groups(h)]);
        }
    }
}

/// A prefix of `f` whose rest is zeros, cut or padded with zeros to `n`
/// characters, is the first `n` characters of `f`.
pub proof fn lemma_fit_prefix(f: Seq<char>, m: int, n: nat)
    requires
        0 <= m <= f.len(),
        n <= f.len(),
        forall|j: int| m <= j < f.len() ==> #[trigger] f[j] == '0',
    ensures
        crate::numeric::fit_to(f.take(m), n) == f.take(n as int),
{
    if m > n {
        assert(f.take(m).take(n as int) =~= f.take(n as int));
    } else {
        assert(f.take(m) + zeros((n - m) as nat) =~= f.take(n as int));
    }
}

/// The text that the weight, sign, display scale and base-10000 digits `p`
/// of a NUMERIC value are read as.
pub open spec fn parts_text(p: (int, int, int, Seq<int>)) -> Seq<char> {
    let (weight, sign, dscale, d) = p;
    if d.len() == 0 {
        seq!['0'] + if dscale > 0 {
            seq!['.'] + zeros(dscale as nat)
        } else {
            Seq::<char>::empty()
        }
    } else {
        let dg = weight + 1;
        let head = (if sign == 0x4000 {
            seq!['-']
        } else {
            Seq::<char>::empty()
        }) + (if dg <= 0 {
            seq!['0']
        } else {
            int_text(d, dg as nat)
        });
        let start: nat = if dg > 0 {
            dg as nat
        } else {
            0
        };
        let frac = (if dg < 0 {
            zeros((4 * (-dg)) as nat)
        } else {
            Seq::<char>::empty()
        }) + frac_text(d, start, d.len());
        if dscale > 0 {
            head + seq!['.'] + fit_to(frac, dscale as nat)
        } else {
            head
        }
    }
}

/// The decimal text of `c * 10^(-e)` for the text of an integer `c`: a `-`
/// for a negative nonzero value, the digits before the point without
/// leading zeros (`0` where there are none), and, for a positive scale, a
/// point and exactly that many digits after it; a negative `e` gives zeros
/// after the digits and no point.
pub open spec fn decimal_text(c: Seq<char>, e: int) -> Seq<char> {
    match scaled_digits(unsigned_part(c), e) {
        Err(_) => Seq::<char>::empty(),
        Ok((digits, scale)) => {
            let t = trim_leading_zeros(digits);
            let int_len: int = if t.len() > scale {
                t.len() - scale
            } else {
                0
            };
            let frac = if scale > t.len() {
                zeros((scale - t.len()) as nat) + t
            } else {
                t.skip(t.len() - scale)
            };
            (if t.len() > 0 && c.len() > 0 && c[0] == '-' {
                seq!['-']
            } else {
                Seq::<char>::empty()
            }) + (if int_len > 0 {
                t.take(int_len)
            } else {
                seq!['0']
            }) + (if scale > 0 {
                seq!['.'] + frac
            } else {
                Seq::<char>::empty()
            })
        },
    }
}

/// Stripped leading zeros leave a first character that is not `0`.
proof fn lemma_trim_first(s: Seq<char>)
    ensures
        trim_leading_zeros(s).len() > 0 ==> trim_leading_zeros(s)[0] != '0',
        trim_leading_zeros(s).len() <= s.len(),
    decreases s.len(),
{
    if s.len() > 0 && s[0] == '0' {
        lemma_trim_first(s.subrange(1, s.len() as int));
    }
}

/// The digits that a coefficient is scaled to are digits.
proof fn lemma_scaled_digits(c: Seq<char>, e: int)
    requires
        integer_text(c),
        scaled_digits(unsigned_part(c), e) is Ok,
    ensures
        all_digits(scaled_digits(unsigned_part(c), e)->Ok_0.0),
{
    let u = unsigned_part(c);
    let digits = scaled_digits(u, e)->Ok_0.0;
    if e < 0 {
        assert forall|i: int| 0 <= i < digits.len() implies '0' <= #[trigger] digits[i] <= '9' by {
            if i >= u.len() {
                assert(digits[i] == zeros((-e) as nat)[i - u.len()]);
            } else {
                assert(digits[i] == u[i]);
            }
        }
    }
}

/// The zero groups around the kept ones are zero characters, and the kept
/// groups are a range of all the groups.
proof fn lemma_kept_groups(all: Seq<char>, g: Seq<int>, kept: Seq<int>)
    requires
        all_digits(all),
        all.len() % 4 == 0,
        g == chunk4(all),
        kept == g.skip(leading_zero_groups(g) as int).take(
            g.skip(leading_zero_groups(g) as int).len() - trailing_zero_groups(g.skip(leading_zero_groups(g) as int)),
        ),
    ensures
        ({
            let lead = leading_zero_groups(g) as int;
            let m = lead + kept.len();
            &&& m <= g.len()
            &&& kept == g.subrange(lead, m)
            &&& forall|k: int| m <= k < g.len() ==> #[trigger] g[k] == 0
            &&& forall|j: int| 4 * m <= j < all.len() ==> #[trigger] all[j] == '0'
            &&& forall|j: int| 0 <= j < 4 * lead ==> #[trigger] all[j] == '0'
        }),
{
    let lead = leading_zero_groups(g) as int;
    lemma_leading_zero_groups(g);
    let rest = g.skip(lead);
    lemma_trailing_zero_groups(rest);
    let m = lead + kept.len();
    assert(kept =~= g.subrange(lead, m));
    assert forall|k: int| m <= k < g.len() implies #[trigger] g[k] == 0 by {
        assert(g[k] == rest[k - lead]);
    }
    assert forall|j: int| 4 * m <= j < all.len() implies #[trigger] all[j] == '0' by {
        let i = j / 4;
        assert(g[i] == 0);
        lemma_zero_group(all, i);
    }
    assert forall|j: int| 0 <= j < 4 * lead implies #[trigger] all[j] == '0' by {
        let i = j / 4;
        assert(g[i] == 0);
        lemma_zero_group(all, i);
    }
}

/// A value with digits before the point: its integer text is those digits,
/// and its fraction the digits after the point.
#[verifier::rlimit(40)]
proof fn lemma_case_int(
    all: Seq<char>,
    frac_digits: Seq<char>,
    int_part: Seq<char>,
    frac: Seq<char>,
    pad: nat,
    kept: Seq<int>,
    scale: nat,
)
    requires
        pad < 4,
        int_part.len() > 0,
        int_part[0] != '0',
        (pad + int_part.len()) % 4 == 0,
        frac_digits.len() % 4 == 0,
        all == zeros(pad) + int_part + frac_digits,
        all_digits(all),
        kept.len() >= 1,
        kept.len() <= chunk4(all).len(),
        kept == chunk4(all).take(kept.len() as int),
        forall|k: int| kept.len() <= k < chunk4(all).len() ==> #[trigger] chunk4(all)[k] == 0,
        forall|j: int| 4 * kept.len() <= j < all.len() ==> #[trigger] all[j] == '0',
        scale <= frac_digits.len(),
        frac_digits.take(scale as int) == frac,
    ensures
        int_text(kept, ((pad + int_part.len()) / 4) as nat) == int_part,
        fit_to(frac_text(kept, ((pad + int_part.len()) / 4) as nat, kept.len()), scale) == frac,
{
    let g = chunk4(all);
    let ig: nat = ((pad + int_part.len()) / 4) as nat;
    let m = kept.len();
    assert(all.len() % 4 == 0);
    assert(ig >= 1);
    assert forall|k: int| 0 <= k < g.len() implies 0 <= #[trigger] g[k] by {}
    lemma_int_text_kept(g, m as nat, ig);
    lemma_int_text_groups(g, ig);
    lemma_groups_text_range(all, 1, ig as int);
    let q0 = all.subrange(0, 4);
    lemma_sub_digits(all, 0, 4);
    let r0 = int_part.take(4 - pad);
    assert(q0 =~= zeros(pad) + r0);
    lemma_zeros_prefix_value(pad, r0);
    assert(all_digits(r0)) by {
        assert forall|i: int| 0 <= i < r0.len() implies '0' <= #[trigger] r0[i] <= '9' by {
            assert(r0[i] == all[i + pad]);
        }
    }
    lemma_decimal_of_digits(r0);
    assert(all.subrange(4, 4 * ig as int) =~= int_part.skip(4 - pad));
    assert(int_text(kept, ig) =~= int_part);
    let fstart = pad + int_part.len();
    assert forall|j: int| 0 <= j < frac_digits.len() implies frac_digits[j] == all[j + fstart] by {}
    let fm: int = if m > ig {
        4 * (m - ig)
    } else {
        0
    };
    let fr = frac_text(kept, ig, kept.len());
    if m > ig {
        assert forall|k: int| 0 <= k < kept.len() implies 0 <= #[trigger] kept[k] by {
            assert(kept[k] == g[k]);
            assert(0 <= g[k]);
        }
        lemma_frac_text_groups(kept, ig, kept.len());
        assert(kept.subrange(ig as int, kept.len() as int) =~= g.subrange(ig as int, m as int));
        lemma_groups_text_range(all, ig as int, m as int);
        assert(fr =~= frac_digits.take(fm));
    } else {
        assert(fr =~= frac_digits.take(fm));
    }
    assert forall|j: int| fm <= j < frac_digits.len() implies #[trigger] frac_digits[j] == '0' by {
        assert(frac_digits[j] == all[j + fstart]);
    }
    lemma_fit_prefix(frac_digits, fm, scale);
}

/// A value without digits before the point: its fraction, after the
/// leading zero groups written out, is the digits after the point.
proof fn lemma_case_frac(all: Seq<char>, frac: Seq<char>, lead: nat, kept: Seq<int>, scale: nat)
    requires
        all.len() % 4 == 0,
        all_digits(all),
        lead + kept.len() <= chunk4(all).len(),
        kept == chunk4(all).subrange(lead as int, (lead + kept.len()) as int),
        forall|j: int| 4 * (lead + kept.len()) <= j < all.len() ==> #[trigger] all[j] == '0',
        forall|j: int| 0 <= j < 4 * lead ==> #[trigger] all[j] == '0',
        scale <= all.len(),
        all.take(scale as int) == frac,
    ensures
        fit_to(zeros((4 * lead) as nat) + frac_text(kept, 0, kept.len()), scale) == frac,
{
    let g = chunk4(all);
    let m = lead + kept.len();
    assert forall|k: int| 0 <= k < kept.len() implies 0 <= #[trigger] kept[k] by {
        assert(kept[k] == g[k + lead]);
    }
    lemma_frac_text_groups(kept, 0, kept.len());
    assert(kept.subrange(0, kept.len() as int) =~= kept);
    lemma_groups_text_range(all, lead as int, m as int);
    assert(zeros((4 * lead) as nat) =~= all.subrange(0, 4 * lead as int));
    let fm: int = 4 * m as int;
    assert(zeros((4 * lead) as nat) + frac_text(kept, 0, kept.len()) =~= all.take(fm));
    lemma_fit_prefix(all, fm, scale);
}

/// The number of digits of `t` before the point, for `scale` digits after it.
pub open spec fn lay_int_len(t: Seq<char>, scale: nat) -> nat {
    if t.len() > scale {
        (t.len() - scale) as nat
    } else {
        0
    }
}

/// The `scale` digits of `t` after the point, with zeros before them where
/// `t` is shorter.
pub open spec fn lay_frac(t: Seq<char>, scale: nat) -> Seq<char> {
    if scale > t.len() {
        zeros((scale - t.len()) as nat) + t
    } else {
        t.skip(t.len() - scale)
    }
}

/// The digits of `t` before the point, padded in front to whole groups.
pub open spec fn lay_int_digits(t: Seq<char>, scale: nat) -> Seq<char> {
    zeros(pad4(lay_int_len(t, scale))) + t.take(lay_int_len(t, scale) as int)
}

/// The digits after the point, padded behind to whole groups.
pub open spec fn lay_frac_digits(t: Seq<char>, scale: nat) -> Seq<char> {
    lay_frac(t, scale) + zeros(pad4(lay_frac(t, scale).len()))
}

/// All the digits of the groups of `t` with `scale` digits after the point.
pub open spec fn lay_all(t: Seq<char>, scale: nat) -> Seq<char> {
    lay_int_digits(t, scale) + lay_frac_digits(t, scale)
}

/// The groups of a digit string with its point are the groups of its
/// padded digits; a string without a leading zero has a nonzero group,
/// the first one when it has digits before the point.
#[verifier::rlimit(40)]
proof fn lemma_layout(t: Seq<char>, scale: nat)
    requires
        t.len() > 0,
        all_digits(t),
        t[0] != '0',
    ensures
        all_digits(lay_all(t, scale)),
        lay_int_digits(t, scale).len() % 4 == 0,
        lay_frac_digits(t, scale).len() % 4 == 0,
        group_split(t, scale) == (chunk4(lay_all(t, scale)), lay_int_digits(t, scale).len() / 4),
        lay_frac(t, scale).len() == scale,
        lay_frac_digits(t, scale).take(scale as int) == lay_frac(t, scale),
        lay_int_len(t, scale) > 0 ==> chunk4(lay_all(t, scale))[0] != 0,
        exists|i: int| 0 <= i < chunk4(lay_all(t, scale)).len() && #[trigger] chunk4(lay_all(t, scale))[i] != 0,
{
    let int_len = lay_int_len(t, scale);
    let pad = pad4(int_len);
    let int_digits = lay_int_digits(t, scale);
    let frac = lay_frac(t, scale);
    let frac_digits = lay_frac_digits(t, scale);
    let all = lay_all(t, scale);
    assert(frac.len() == scale);
    assert(all_digits(all)) by {
        assert forall|i: int| 0 <= i < all.len() implies '0' <= #[trigger] all[i] <= '9' by {
            if i < pad {
            } else if i < int_digits.len() {
                assert(all[i] == t[i - pad]);
            } else if i < int_digits.len() + frac.len() {
                let j = i - int_digits.len();
                if scale > t.len() {
                    if j >= scale - t.len() {
                        assert(all[i] == t[j - (scale - t.len())]);
                    }
                } else {
                    assert(all[i] == t[j + t.len() - scale]);
                }
            }
        }
    }
    lemma_chunk4_concat(int_digits, frac_digits);
    assert(frac_digits.take(scale as int) =~= frac);
    let z: int = if int_len > 0 {
        pad as int
    } else {
        int_digits.len() + (scale - t.len())
    };
    assert(all[z] == t[0]);
    let gz = z / 4;
    lemma_zero_group(all, gz);
    assert(chunk4(all)[gz] != 0);
}

/// The text that the NUMERIC form of a decimal is read as is the decimal
/// text of its digits and scale.
#[verifier::rlimit(60)]
#[verifier::spinoff_prover]
pub proof fn lemma_encoding_text(c: Seq<char>, e: int)
    requires
        integer_text(c),
        numeric_encoding(c, e) is Ok,
    ensures
        parts_text(numeric_encoding(c, e)->Ok_0) == decimal_text(c, e),
{
    let p = numeric_encoding(c, e)->Ok_0;
    let u = unsigned_part(c);
    let (digits, scale) = scaled_digits(u, e)->Ok_0;
    lemma_scaled_digits(c, e);
    lemma_trim_digits(digits);
    lemma_trim_first(digits);
    let t = trim_leading_zeros(digits);
    if t.len() == 0 {
        if scale > 0 {
            assert(zeros((scale - t.len()) as nat) + t =~= zeros(scale));
        }
        assert(parts_text(p) =~= decimal_text(c, e));
    } else {
        lemma_layout(t, scale);
        let all = lay_all(t, scale);
        let g = chunk4(all);
        let ig = lay_int_digits(t, scale).len() / 4;
        let lead = leading_zero_groups(g);
        lemma_leading_zero_groups(g);
        let rest = g.skip(lead as int);
        lemma_trailing_zero_groups(rest);
        assert(rest[0] == g[lead as int]);
        let kept = rest.take(rest.len() - trailing_zero_groups(rest));
        lemma_kept_groups(all, g, kept);
        assert(p == (ig - 1 - lead, (if c.len() > 0 && c[0] == '-' { 0x4000int } else { 0int }), scale as int, kept));
        let int_len = lay_int_len(t, scale);
        if int_len > 0 {
            assert(lead == 0);
            let int_part = t.take(int_len as int);
            assert(all =~= zeros(pad4(int_len)) + int_part + lay_frac_digits(t, scale));
            assert(kept =~= g.take(kept.len() as int));
            lemma_case_int(all, lay_frac_digits(t, scale), int_part, lay_frac(t, scale), pad4(int_len), kept, scale);
            assert(parts_text(p) =~= decimal_text(c, e));
        } else {
            assert(lay_int_digits(t, scale) =~= Seq::<char>::empty());
            assert(all =~= lay_frac_digits(t, scale));
            lemma_case_frac(all, lay_frac(t, scale), lead, kept, scale);
            assert(parts_text(p) =~= decimal_text(c, e));
        }
    }
}

/// A NUMERIC value is read back as the text of the decimal it was written
/// from: the binary form that `Numeric::write` gives for `c * 10^(-e)`
/// decodes to `decimal_text(c, e)`.
pub proof fn law_numeric_text_round_trip(c: Seq<char>, e: int)
    requires
        integer_text(c),
        numeric_encoding(c, e) matches Ok(p) && p.3.len() <= 32767,
    ensures
        numeric_text_decoding(numeric_bytes(numeric_encoding(c, e)->Ok_0)) == Ok::<Seq<char>, NumericError>(
            decimal_text(c, e),
        ),
{
    law_numeric_bytes_round_trip(c, e, NumericError::NanAsDecimal);
    lemma_encoding_text(c, e);
    let p = numeric_encoding(c, e)->Ok_0;
    assert(numeric_text_decoding(numeric_bytes(p)) == Ok::<Seq<char>, NumericError>(parts_text(p)));
}

} // verus!
