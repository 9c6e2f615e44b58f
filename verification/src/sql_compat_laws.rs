//! What the parameter rewrites of the compatibility modes do to text that
//! quotes, comments and trigger records hold, stated over whole query texts.

use vstd::prelude::*;
use crate::sql_compat::{
    question_rewrite, question_rewrite_from, quoted_end, dollar_end, dollar_quote_end, dollar_tag_end,
    tag_search, single_quote_scan, doubled_quote_scan, line_comment_scan, block_comment_scan,
    is_identifier_cont_spec, lemma_quoted_end_bounds, oracle_rewrite, oracle_rewrite_from,
    bind_name, ident_run_end, all_digits, is_trigger_record, is_ascii_digit_spec,
};
use crate::text::decimal;

verus! {

/// A character that starts nothing in a query: no quote, comment, dollar
/// quote, placeholder or bind.
pub open spec fn inert_char(c: char) -> bool {
    c != '\'' && c != '"' && c != '`' && c != '-' && c != '#' && c != '/' && c != '$' && c != '?'
        && c != ':'
}

/// Text made of inert characters only.
pub open spec fn inert_text(t: Seq<char>) -> bool {
    forall|k: int| 0 <= k < t.len() ==> inert_char(#[trigger] t[k])
}

/// Whether `t` holds no `c`.
pub open spec fn lacks(t: Seq<char>, c: char) -> bool {
    forall|k: int| 0 <= k < t.len() ==> #[trigger] t[k] != c
}

// ---------------------------------------------------------------------------
// Scanning
// ---------------------------------------------------------------------------

/// A span without `q` is passed over by the doubled-quote scan.
proof fn lemma_doubled_skip(s: Seq<char>, i: int, j: int, q: char)
    requires
        0 <= i <= j <= s.len(),
        forall|k: int| i <= k < j ==> #[trigger] s[k] != q,
    ensures
        doubled_quote_scan(s, i, q) == doubled_quote_scan(s, j, q),
    decreases j - i,
{
    if i < j {
        lemma_doubled_skip(s, i + 1, j, q);
    }
}

/// A span without a quote or a backslash is passed over by the
/// single-quote scan.
proof fn lemma_single_skip(s: Seq<char>, i: int, j: int)
    requires
        0 <= i <= j <= s.len(),
        forall|k: int| i <= k < j ==> #[trigger] s[k] != '\'' && s[k] != '\\',
    ensures
        single_quote_scan(s, i) == single_quote_scan(s, j),
    decreases j - i,
{
    if i < j {
        lemma_single_skip(s, i + 1, j);
    }
}

/// A span without a line break is passed over by the line-comment scan.
proof fn lemma_line_skip(s: Seq<char>, i: int, j: int)
    requires
        0 <= i <= j <= s.len(),
        forall|k: int| i <= k < j ==> #[trigger] s[k] != '\n' && s[k] != '\r',
    ensures
        line_comment_scan(s, i) == line_comment_scan(s, j),
    decreases j - i,
{
    if i < j {
        lemma_line_skip(s, i + 1, j);
    }
}

/// A span without `*`, followed by two more characters, is passed over by
/// the block-comment scan.
proof fn lemma_block_skip(s: Seq<char>, i: int, j: int)
    requires
        0 <= i <= j,
        j + 2 <= s.len(),
        forall|k: int| i <= k < j ==> #[trigger] s[k] != '*',
    ensures
        block_comment_scan(s, i) == block_comment_scan(s, j),
    decreases j - i,
{
    if i < j {
        lemma_block_skip(s, i + 1, j);
    }
}

/// The search for a tag that starts with `$` passes over a span without `$`.
proof fn lemma_tag_skip(s: Seq<char>, tag: Seq<char>, i: int, j: int)
    requires
        0 <= i <= j,
        j + tag.len() <= s.len(),
        tag.len() > 0,
        tag[0] == '$',
        forall|k: int| i <= k < j ==> #[trigger] s[k] != '$',
    ensures
        tag_search(s, tag, i) == tag_search(s, tag, j),
    decreases j - i,
{
    if i < j {
        assert(s.subrange(i, i + tag.len())[0] == s[i]);
        lemma_tag_skip(s, tag, i + 1, j);
    }
}

// ---------------------------------------------------------------------------
// `?` placeholders
// ---------------------------------------------------------------------------

/// Inert text is copied as it is.
proof fn lemma_q_inert(s: Seq<char>, i: int, j: int, c: nat)
    requires
        0 <= i <= j <= s.len(),
        forall|k: int| i <= k < j ==> inert_char(#[trigger] s[k]),
    ensures
        question_rewrite_from(s, i, c) == s.subrange(i, j) + question_rewrite_from(s, j, c),
    decreases j - i,
{
    if i < j {
        lemma_q_inert(s, i + 1, j, c);
        assert(inert_char(s[i]));
        assert(quoted_end(s, i) is None);
        assert(s.subrange(i, j) =~= seq![s[i]] + s.subrange(i + 1, j));
    } else {
        assert(s.subrange(i, j) =~= Seq::<char>::empty());
    }
}

/// A text made of an inert head, one span that opens at `i` and ends at
/// `e` as a quote or comment does, and an inert tail, is left as it is.
proof fn lemma_q_span_kept(s: Seq<char>, i: int, e: int)
    requires
        0 <= i < e <= s.len(),
        quoted_end(s, i) == Some(e) || (quoted_end(s, i) is None && s[i] == '$' && dollar_end(s, i) == e),
        forall|k: int| 0 <= k < i ==> inert_char(#[trigger] s[k]),
        forall|k: int| e <= k < s.len() ==> inert_char(#[trigger] s[k]),
    ensures
        question_rewrite(s) == s,
{
    lemma_q_inert(s, 0, i, 0);
    lemma_q_inert(s, e, s.len() as int, 0);
    lemma_quoted_end_bounds(s, i);
    assert(question_rewrite_from(s, s.len() as int, 0) =~= Seq::<char>::empty());
    assert(question_rewrite_from(s, i, 0) == s.subrange(i, e) + question_rewrite_from(s, e, 0));
    assert(s.subrange(0, i) + (s.subrange(i, e) + s.subrange(e, s.len() as int)) =~= s);
}

/// A `?` inside a double-quoted identifier is not a placeholder: a query of
/// inert text, `"`, text without `"`, `"` and inert text is sent as it is.
pub proof fn law_question_keeps_double_quoted(p: Seq<char>, x: Seq<char>, t: Seq<char>)
    requires
        inert_text(p),
        lacks(x, '"'),
        inert_text(t),
    ensures
        question_rewrite(p + seq!['"'] + x + seq!['"'] + t) == p + seq!['"'] + x + seq!['"'] + t,
{
    let s = p + seq!['"'] + x + seq!['"'] + t;
    let i = p.len() as int;
    let j = i + 1 + x.len();
    assert(s[i] == '"');
    assert(s[j] == '"');
    lemma_doubled_skip(s, i + 1, j, '"');
    if j + 1 < s.len() {
        assert(s[j + 1] == t[0]);
    }
    assert(quoted_end(s, i) == Some(j + 1));
    assert forall|k: int| 0 <= k < i implies inert_char(#[trigger] s[k]) by {
        assert(s[k] == p[k]);
    }
    assert forall|k: int| j + 1 <= k < s.len() implies inert_char(#[trigger] s[k]) by {
        assert(s[k] == t[k - j - 1]);
    }
    lemma_q_span_kept(s, i, j + 1);
}

/// A doubled `""` inside a double-quoted identifier stands for a quote and
/// does not end it: what follows it up to the closing `"` is not rewritten
/// either.
pub proof fn law_question_keeps_doubled_quote(p: Seq<char>, x: Seq<char>, y: Seq<char>, t: Seq<char>)
    requires
        inert_text(p),
        lacks(x, '"'),
        lacks(y, '"'),
        inert_text(t),
    ensures
        question_rewrite(p + seq!['"'] + x + seq!['"', '"'] + y + seq!['"'] + t)
            == p + seq!['"'] + x + seq!['"', '"'] + y + seq!['"'] + t,
{
    let s = p + seq!['"'] + x + seq!['"', '"'] + y + seq!['"'] + t;
    let i = p.len() as int;
    let j = i + 1 + x.len();
    let m = j + 2 + y.len();
    assert(s[i] == '"');
    assert(s[j] == '"' && s[j + 1] == '"');
    assert(s[m] == '"');
    lemma_doubled_skip(s, i + 1, j, '"');
    assert forall|k: int| j + 2 <= k < m implies #[trigger] s[k] != '"' by {
        assert(s[k] == y[k - j - 2]);
    }
    assert forall|k: int| i + 1 <= k < j implies #[trigger] s[k] != '"' by {
        assert(s[k] == x[k - i - 1]);
    }
    lemma_doubled_skip(s, j + 2, m, '"');
    if m + 1 < s.len() {
        assert(s[m + 1] == t[0]);
    }
    assert(quoted_end(s, i) == Some(m + 1));
    assert forall|k: int| 0 <= k < i implies inert_char(#[trigger] s[k]) by {
        assert(s[k] == p[k]);
    }
    assert forall|k: int| m + 1 <= k < s.len() implies inert_char(#[trigger] s[k]) by {
        assert(s[k] == t[k - m - 1]);
    }
    lemma_q_span_kept(s, i, m + 1);
}

/// A text made of an inert head, a span `mid` that a quote or comment (or
/// a dollar quote) opening at its start takes exactly, and an inert tail,
/// is left as it is.
proof fn lemma_q_framed(p: Seq<char>, mid: Seq<char>, t: Seq<char>)
    requires
        inert_text(p),
        inert_text(t),
        mid.len() > 0,
        ({
            let s = p + mid + t;
            let i = p.len() as int;
            let e = i + mid.len();
            quoted_end(s, i) == Some(e) || (quoted_end(s, i) is None && s[i] == '$' && dollar_end(s, i) == e)
        }),
    ensures
        question_rewrite(p + mid + t) == p + mid + t,
{
    let s = p + mid + t;
    let i = p.len() as int;
    let e = i + mid.len();
    assert forall|k: int| 0 <= k < i implies inert_char(#[trigger] s[k]) by {
        assert(s[k] == p[k]);
    }
    assert forall|k: int| e <= k < s.len() implies inert_char(#[trigger] s[k]) by {
        assert(s[k] == t[k - e]);
    }
    lemma_q_span_kept(s, i, e);
}

/// A `?` inside a single-quoted literal is not a placeholder.
pub proof fn law_question_keeps_single_quoted(p: Seq<char>, x: Seq<char>, t: Seq<char>)
    requires
        inert_text(p),
        lacks(x, '\''),
        lacks(x, '\\'),
        inert_text(t),
    ensures
        question_rewrite(p + (seq!['\''] + x + seq!['\'']) + t) == p + (seq!['\''] + x + seq!['\'']) + t,
{
    let mid = seq!['\''] + x + seq!['\''];
    let s = p + mid + t;
    let i = p.len() as int;
    let j = i + 1 + x.len();
    assert(s[i] == '\'' && s[j] == '\'');
    assert forall|k: int| i + 1 <= k < j implies #[trigger] s[k] != '\'' && s[k] != '\\' by {
        assert(s[k] == x[k - i - 1]);
    }
    lemma_single_skip(s, i + 1, j);
    if j + 1 < s.len() {
        assert(s[j + 1] == t[0]);
    }
    assert(quoted_end(s, i) == Some(j + 1));
    lemma_q_framed(p, mid, t);
}

/// A `?` inside a backquoted identifier is not a placeholder.
pub proof fn law_question_keeps_backquoted(p: Seq<char>, x: Seq<char>, t: Seq<char>)
    requires
        inert_text(p),
        lacks(x, '`'),
        inert_text(t),
    ensures
        question_rewrite(p + (seq!['`'] + x + seq!['`']) + t) == p + (seq!['`'] + x + seq!['`']) + t,
{
    let mid = seq!['`'] + x + seq!['`'];
    let s = p + mid + t;
    let i = p.len() as int;
    let j = i + 1 + x.len();
    assert(s[i] == '`' && s[j] == '`');
    assert forall|k: int| i + 1 <= k < j implies #[trigger] s[k] != '`' by {
        assert(s[k] == x[k - i - 1]);
    }
    lemma_doubled_skip(s, i + 1, j, '`');
    if j + 1 < s.len() {
        assert(s[j + 1] == t[0]);
    }
    assert(quoted_end(s, i) == Some(j + 1));
    lemma_q_framed(p, mid, t);
}

/// A `?` inside a `--` comment, up to its line break, is not a placeholder.
pub proof fn law_question_keeps_dash_comment(p: Seq<char>, x: Seq<char>, t: Seq<char>)
    requires
        inert_text(p),
        lacks(x, '\n'),
        lacks(x, '\r'),
        inert_text(t),
    ensures
        question_rewrite(p + (seq!['-', '-'] + x + seq!['\n']) + t) == p + (seq!['-', '-'] + x + seq!['\n']) + t,
{
    let mid = seq!['-', '-'] + x + seq!['\n'];
    let s = p + mid + t;
    let i = p.len() as int;
    let j = i + 2 + x.len();
    assert(s[i] == '-' && s[i + 1] == '-' && s[j] == '\n');
    assert forall|k: int| i + 1 <= k < j implies #[trigger] s[k] != '\n' && s[k] != '\r' by {
        if k > i + 1 {
            assert(s[k] == x[k - i - 2]);
        }
    }
    lemma_line_skip(s, i + 1, j);
    assert(quoted_end(s, i) == Some(j + 1));
    lemma_q_framed(p, mid, t);
}

/// A `?` inside a `#` comment, up to its line break, is not a placeholder.
pub proof fn law_question_keeps_hash_comment(p: Seq<char>, x: Seq<char>, t: Seq<char>)
    requires
        inert_text(p),
        lacks(x, '\n'),
        lacks(x, '\r'),
        inert_text(t),
    ensures
        question_rewrite(p + (seq!['#'] + x + seq!['\n']) + t) == p + (seq!['#'] + x + seq!['\n']) + t,
{
    let mid = seq!['#'] + x + seq!['\n'];
    let s = p + mid + t;
    let i = p.len() as int;
    let j = i + 1 + x.len();
    assert(s[i] == '#' && s[j] == '\n');
    assert forall|k: int| i + 1 <= k < j implies #[trigger] s[k] != '\n' && s[k] != '\r' by {
        assert(s[k] == x[k - i - 1]);
    }
    lemma_line_skip(s, i + 1, j);
    assert(quoted_end(s, i) == Some(j + 1));
    lemma_q_framed(p, mid, t);
}

/// A `?` inside a `/* */` comment is not a placeholder.
pub proof fn law_question_keeps_block_comment(p: Seq<char>, x: Seq<char>, t: Seq<char>)
    requires
        inert_text(p),
        lacks(x, '*'),
        inert_text(t),
    ensures
        question_rewrite(p + (seq!['/', '*'] + x + seq!['*', '/']) + t) == p + (seq!['/', '*'] + x + seq!['*', '/']) + t,
{
    let mid = seq!['/', '*'] + x + seq!['*', '/'];
    let s = p + mid + t;
    let i = p.len() as int;
    let j = i + 2 + x.len();
    assert(s[i] == '/' && s[i + 1] == '*' && s[j] == '*' && s[j + 1] == '/');
    assert forall|k: int| i + 2 <= k < j implies #[trigger] s[k] != '*' by {
        assert(s[k] == x[k - i - 2]);
    }
    lemma_block_skip(s, i + 2, j);
    assert(quoted_end(s, i) == Some(j + 2));
    lemma_q_framed(p, mid, t);
}

/// A `?` inside a `$$` dollar quote is not a placeholder.
pub proof fn law_question_keeps_dollar_quoted(p: Seq<char>, x: Seq<char>, t: Seq<char>)
    requires
        inert_text(p),
        p.len() == 0 || !is_identifier_cont_spec(p.last()),
        lacks(x, '$'),
        inert_text(t),
    ensures
        question_rewrite(p + (seq!['$', '$'] + x + seq!['$', '$']) + t) == p + (seq!['$', '$'] + x + seq!['$', '$']) + t,
{
    let mid = seq!['$', '$'] + x + seq!['$', '$'];
    let s = p + mid + t;
    let i = p.len() as int;
    let j = i + 2 + x.len();
    assert(s[i] == '$' && s[i + 1] == '$' && s[j] == '$' && s[j + 1] == '$');
    if i > 0 {
        assert(s[i - 1] == p.last());
    }
    assert(dollar_tag_end(s, i) == Some(i + 1));
    let tag = s.subrange(i, i + 2);
    assert(tag[0] == '$');
    assert forall|k: int| i + 2 <= k < j implies #[trigger] s[k] != '$' by {
        assert(s[k] == x[k - i - 2]);
    }
    lemma_tag_skip(s, tag, i + 2, j);
    assert(s.subrange(j, j + 2) =~= tag);
    assert(dollar_quote_end(s, i) == Some(j + 2));
    assert(quoted_end(s, i) is None);
    lemma_q_framed(p, mid, t);
}

/// Placeholders are numbered from 1 in the order they come: in a query of
/// inert text with two single `?` in it, apart (`??` stands for a literal
/// `?`), they become `$1` and `$2`.
pub proof fn law_question_numbers_placeholders(p: Seq<char>, q: Seq<char>, t: Seq<char>)
    requires
        inert_text(p),
        inert_text(q),
        q.len() > 0,
        inert_text(t),
    ensures
        question_rewrite(p + seq!['?'] + q + seq!['?'] + t) == p + seq!['$', '1'] + q + seq!['$', '2'] + t,
{
    let s = p + seq!['?'] + q + seq!['?'] + t;
    let i = p.len() as int;
    let j = i + 1 + q.len();
    let n = s.len() as int;
    assert forall|k: int| 0 <= k < i implies inert_char(#[trigger] s[k]) by {
        assert(s[k] == p[k]);
    }
    assert forall|k: int| i + 1 <= k < j implies inert_char(#[trigger] s[k]) by {
        assert(s[k] == q[k - i - 1]);
    }
    assert forall|k: int| j + 1 <= k < n implies inert_char(#[trigger] s[k]) by {
        assert(s[k] == t[k - j - 1]);
    }
    lemma_q_inert(s, 0, i, 0);
    lemma_q_inert(s, i + 1, j, 1);
    lemma_q_inert(s, j + 1, n, 2);
    assert(s[i] == '?' && s[j] == '?');
    assert(inert_char(s[i + 1]));
    if j + 1 < n {
        assert(inert_char(s[j + 1]));
    }
    assert(quoted_end(s, i) is None);
    assert(quoted_end(s, j) is None);
    assert(decimal(1) =~= seq!['1']);
    assert(decimal(2) =~= seq!['2']);
    assert(question_rewrite_from(s, n, 2) =~= Seq::<char>::empty());
    assert(question_rewrite(s) =~= p + seq!['$', '1'] + q + seq!['$', '2'] + t);
}

/// Two single `?` in a row stand for a literal `?`: in inert text, `??`
/// becomes `?` and no number is handed out.
pub proof fn law_question_unescapes_doubled(p: Seq<char>, t: Seq<char>)
    requires
        inert_text(p),
        inert_text(t),
    ensures
        question_rewrite(p + seq!['?', '?'] + t) == p + seq!['?'] + t,
{
    let s = p + seq!['?', '?'] + t;
    let i = p.len() as int;
    let n = s.len() as int;
    assert forall|k: int| 0 <= k < i implies inert_char(#[trigger] s[k]) by {
        assert(s[k] == p[k]);
    }
    assert forall|k: int| i + 2 <= k < n implies inert_char(#[trigger] s[k]) by {
        assert(s[k] == t[k - i - 2]);
    }
    lemma_q_inert(s, 0, i, 0);
    lemma_q_inert(s, i + 2, n, 0);
    assert(s[i] == '?' && s[i + 1] == '?');
    assert(quoted_end(s, i) is None);
    assert(question_rewrite_from(s, n, 0) =~= Seq::<char>::empty());
    assert(question_rewrite(s) =~= p + seq!['?'] + t);
}

// ---------------------------------------------------------------------------
// Oracle trigger records
// ---------------------------------------------------------------------------

/// `c` with an ASCII capital letter turned into its small letter.
pub open spec fn ascii_lower(c: char) -> char {
    if 'A' <= c && c <= 'Z' {
        ((c as int) + 32) as char
    } else {
        c
    }
}

/// Whether `n`, with ASCII letters taken in either case, spells `new` or
/// `old`.
pub open spec fn spells_new_or_old(n: Seq<char>) -> bool {
    n.len() == 3 && ({
        let l = seq![ascii_lower(n[0]), ascii_lower(n[1]), ascii_lower(n[2])];
        l == seq!['n', 'e', 'w'] || l == seq!['o', 'l', 'd']
    })
}

/// A letter that lowers to the small letter `l` is `l` or its capital.
proof fn lemma_lowers_to(c: char, l: char)
    requires
        'a' <= l && l <= 'z',
        ascii_lower(c) == l,
    ensures
        c == l || c as int == l as int - 32,
        'a' <= c <= 'z' || 'A' <= c <= 'Z',
{
}

proof fn lemma_spells_trigger_record(n: Seq<char>)
    requires
        spells_new_or_old(n),
    ensures
        is_trigger_record(n),
        !all_digits(n),
        forall|k: int| 0 <= k < 3 ==> #[trigger] is_identifier_cont_spec(n[k]),
{
    let l = seq![ascii_lower(n[0]), ascii_lower(n[1]), ascii_lower(n[2])];
    assert(l[0] == ascii_lower(n[0]) && l[1] == ascii_lower(n[1]) && l[2] == ascii_lower(n[2]));
    lemma_lowers_to(n[0], l[0]);
    lemma_lowers_to(n[1], l[1]);
    lemma_lowers_to(n[2], l[2]);
    assert(!is_ascii_digit_spec(n[0]));
}

/// The run of identifier characters after a `:` and a trigger-record name
/// ends right after the name when no identifier character follows.
proof fn lemma_record_run(s: Seq<char>, i: int)
    requires
        0 <= i,
        i + 4 <= s.len(),
        spells_new_or_old(s.subrange(i + 1, i + 4)),
        i + 4 == s.len() || !is_identifier_cont_spec(s[i + 4]),
    ensures
        bind_name(s, i) == Some((i + 1, i + 4)),
{
    let n = s.subrange(i + 1, i + 4);
    lemma_spells_trigger_record(n);
    assert(n[0] == s[i + 1] && n[1] == s[i + 2] && n[2] == s[i + 3]);
    assert(is_identifier_cont_spec(n[1]) && is_identifier_cont_spec(n[2]));
    assert(ident_run_end(s, i + 4) == i + 4);
    assert(ident_run_end(s, i + 3) == i + 4);
    assert(ident_run_end(s, i + 2) == i + 4);
    assert(is_identifier_cont_spec(n[0]));
}

/// Oracle trigger records are never binds: wherever the rewriting of an
/// Oracle-mode query meets `:` followed by `new` or `old` in any letter case
/// and no further identifier character, it copies those four characters as
/// they are and goes on with the same numbers in use, the same named binds
/// and the same next number.
pub proof fn law_oracle_trigger_record_kept(
    s: Seq<char>,
    i: int,
    used: Set<u32>,
    named: Map<Seq<char>, u32>,
    next: int,
)
    requires
        0 <= i,
        i + 4 <= s.len(),
        s[i] == ':',
        spells_new_or_old(s.subrange(i + 1, i + 4)),
        i + 4 == s.len() || !is_identifier_cont_spec(s[i + 4]),
    ensures
        oracle_rewrite_from(s, i, used, named, next) == s.subrange(i, i + 4) + oracle_rewrite_from(
            s,
            i + 4,
            used,
            named,
            next,
        ),
{
    lemma_record_run(s, i);
    let n = s.subrange(i + 1, i + 4);
    lemma_spells_trigger_record(n);
    assert(quoted_end(s, i) is None);
    assert(s[i + 1] == n[0]);
    assert(s[i + 1] != ':');
}

/// Inert text is copied as it is by the Oracle-mode rewriting, whatever
/// the numbers in use, the named binds and the next number.
proof fn lemma_o_inert(
    s: Seq<char>,
    i: int,
    j: int,
    used: Set<u32>,
    named: Map<Seq<char>, u32>,
    next: int,
)
    requires
        0 <= i <= j <= s.len(),
        forall|k: int| i <= k < j ==> inert_char(#[trigger] s[k]),
    ensures
        oracle_rewrite_from(s, i, used, named, next) == s.subrange(i, j) + oracle_rewrite_from(
            s,
            j,
            used,
            named,
            next,
        ),
    decreases j - i,
{
    if i < j {
        lemma_o_inert(s, i + 1, j, used, named, next);
        assert(inert_char(s[i]));
        assert(quoted_end(s, i) is None);
        assert(s.subrange(i, j) =~= seq![s[i]] + s.subrange(i + 1, j));
    } else {
        assert(s.subrange(i, j) =~= Seq::<char>::empty());
    }
}

/// A query of inert text, `:new` or `:old` in any letter case, and inert
/// text that does not go on with an identifier character, is sent as it is
/// in Oracle mode: `:new.id` stays `:new.id`, `:OLD` stays `:OLD`.
pub proof fn law_oracle_keeps_trigger_records(p: Seq<char>, n: Seq<char>, t: Seq<char>)
    requires
        inert_text(p),
        spells_new_or_old(n),
        inert_text(t),
        t.len() == 0 || !is_identifier_cont_spec(t[0]),
    ensures
        oracle_rewrite(p + seq![':'] + n + t) == p + seq![':'] + n + t,
{
    let s = p + seq![':'] + n + t;
    let i = p.len() as int;
    let e = s.len() as int;
    let used = crate::sql_compat::explicit_params_from(s, 0);
    let named = Map::<Seq<char>, u32>::empty();
    assert forall|k: int| 0 <= k < i implies inert_char(#[trigger] s[k]) by {
        assert(s[k] == p[k]);
    }
    assert forall|k: int| i + 4 <= k < e implies inert_char(#[trigger] s[k]) by {
        assert(s[k] == t[k - i - 4]);
    }
    assert(s.subrange(i + 1, i + 4) =~= n);
    if i + 4 < e {
        assert(s[i + 4] == t[0]);
    }
    lemma_o_inert(s, 0, i, used, named, 1);
    law_oracle_trigger_record_kept(s, i, used, named, 1);
    lemma_o_inert(s, i + 4, e, used, named, 1);
    assert(oracle_rewrite_from(s, e, used, named, 1) =~= Seq::<char>::empty());
    assert(s.subrange(0, i) + (s.subrange(i, i + 4) + s.subrange(i + 4, e)) =~= s);
}

} // verus!
