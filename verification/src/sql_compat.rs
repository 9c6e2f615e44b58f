//! Rewriting of the bind-parameter syntax of the MySQL, SQL Server and
//! Oracle compatibility modes into PostgreSQL's numbered `$n` parameters.
//!
//! Quoted identifiers, string literals, comments and dollar-quoted bodies are
//! copied unchanged.

use vstd::prelude::*;
use std::borrow::Cow;
use std::collections::HashSet;
use crate::text::{decimal, push_decimal, str_chars, string_from_chars};

verus! {

/// A KingbaseES connection's SQL compatibility mode.
#[derive(Debug, Clone, Copy, PartialEq, Eq, Structural)]
pub enum CompatibleMode {
    /// PostgreSQL syntax.
    Pg,
    /// MySQL syntax.
    Mysql,
    /// Oracle syntax.
    Oracle,
    /// SQL Server syntax.
    SqlServer,
}

// ---------------------------------------------------------------------------
// Character classes
// ---------------------------------------------------------------------------

pub open spec fn is_ascii_digit_spec(c: char) -> bool {
    '0' <= c && c <= '9'
}

pub open spec fn is_ascii_alpha_spec(c: char) -> bool {
    ('a' <= c && c <= 'z') || ('A' <= c && c <= 'Z')
}

pub open spec fn is_identifier_start_spec(c: char) -> bool {
    c == '_' || is_ascii_alpha_spec(c)
}

pub open spec fn is_identifier_cont_spec(c: char) -> bool {
    c == '_' || is_ascii_alpha_spec(c) || is_ascii_digit_spec(c)
}

/// Whether `c` may start an unquoted identifier: `_` or an ASCII letter.
pub fn is_identifier_start(c: char) -> (r: bool)
    ensures
        r == is_identifier_start_spec(c),
{
    c == '_' || ('a' <= c && c <= 'z') || ('A' <= c && c <= 'Z')
}

/// Whether `c` may continue an unquoted identifier: `_` or an ASCII letter or digit.
pub fn is_identifier_cont(c: char) -> (r: bool)
    ensures
        r == is_identifier_cont_spec(c),
{
    c == '_' || ('a' <= c && c <= 'z') || ('A' <= c && c <= 'Z') || ('0' <= c && c <= '9')
}

/// Whether `c` is an ASCII decimal digit.
pub fn is_ascii_digit(c: char) -> (r: bool)
    ensures
        r == is_ascii_digit_spec(c),
{
    '0' <= c && c <= '9'
}

// ---------------------------------------------------------------------------
// Quoted text and comments
// ---------------------------------------------------------------------------

/// Scans the body of a single-quoted literal from `i`; a backslash escapes the
/// next character and `''` stands for one quote.  Returns the position just
/// after the closing quote, or the end of the text.
pub open spec fn single_quote_scan(s: Seq<char>, i: int) -> int
    decreases s.len() - i,
{
    if i < 0 || i >= s.len() {
        s.len() as int
    } else if s[i] == '\\' {
        if i + 2 >= s.len() {
            s.len() as int
        } else {
            single_quote_scan(s, i + 2)
        }
    } else if s[i] == '\'' {
        if i + 1 < s.len() && s[i + 1] == '\'' {
            single_quote_scan(s, i + 2)
        } else {
            i + 1
        }
    } else {
        single_quote_scan(s, i + 1)
    }
}

/// Scans a literal closed by `q`, in which `qq` stands for one `q`.
pub open spec fn doubled_quote_scan(s: Seq<char>, i: int, q: char) -> int
    decreases s.len() - i,
{
    if i < 0 || i >= s.len() {
        s.len() as int
    } else if s[i] == q {
        if i + 1 < s.len() && s[i + 1] == q {
            doubled_quote_scan(s, i + 2, q)
        } else {
            i + 1
        }
    } else {
        doubled_quote_scan(s, i + 1, q)
    }
}

/// Scans to just past the next line break, or to the end of the text.
pub open spec fn line_comment_scan(s: Seq<char>, i: int) -> int
    decreases s.len() - i,
{
    if i < 0 || i >= s.len() {
        s.len() as int
    } else if s[i] == '\n' || s[i] == '\r' {
        i + 1
    } else {
        line_comment_scan(s, i + 1)
    }
}

/// Scans to just past the next `*/`, or to the end of the text.
pub open spec fn block_comment_scan(s: Seq<char>, i: int) -> int
    decreases s.len() - i,
{
    if i < 0 || i + 1 >= s.len() {
        s.len() as int
    } else if s[i] == '*' && s[i + 1] == '/' {
        i + 2
    } else {
        block_comment_scan(s, i + 1)
    }
}

pub proof fn lemma_single_quote_scan_bounds(s: Seq<char>, i: int)
    requires
        0 <= i <= s.len(),
    ensures
        i <= single_quote_scan(s, i) <= s.len(),
        i < s.len() ==> i < single_quote_scan(s, i),
    decreases s.len() - i,
{
    if i < s.len() {
        if s[i] == '\\' {
            if i + 2 < s.len() {
                lemma_single_quote_scan_bounds(s, i + 2);
            }
        } else if s[i] == '\'' {
            if i + 1 < s.len() && s[i + 1] == '\'' {
                lemma_single_quote_scan_bounds(s, i + 2);
            }
        } else {
            lemma_single_quote_scan_bounds(s, i + 1);
        }
    }
}

pub proof fn lemma_doubled_quote_scan_bounds(s: Seq<char>, i: int, q: char)
    requires
        0 <= i <= s.len(),
    ensures
        i <= doubled_quote_scan(s, i, q) <= s.len(),
        i < s.len() ==> i < doubled_quote_scan(s, i, q),
    decreases s.len() - i,
{
    if i < s.len() {
        if s[i] == q {
            if i + 1 < s.len() && s[i + 1] == q {
                lemma_doubled_quote_scan_bounds(s, i + 2, q);
            }
        } else {
            lemma_doubled_quote_scan_bounds(s, i + 1, q);
        }
    }
}

pub proof fn lemma_line_comment_scan_bounds(s: Seq<char>, i: int)
    requires
        0 <= i <= s.len(),
    ensures
        i <= line_comment_scan(s, i) <= s.len(),
    decreases s.len() - i,
{
    if i < s.len() && !(s[i] == '\n' || s[i] == '\r') {
        lemma_line_comment_scan_bounds(s, i + 1);
    }
}

pub proof fn lemma_block_comment_scan_bounds(s: Seq<char>, i: int)
    requires
        0 <= i <= s.len(),
    ensures
        i <= block_comment_scan(s, i) <= s.len(),
    decreases s.len() - i,
{
    if i + 1 < s.len() && !(s[i] == '*' && s[i + 1] == '/') {
        lemma_block_comment_scan_bounds(s, i + 1);
    }
}

/// Returns the position just after the single-quoted literal that opens at
/// `start`.
pub fn skip_single_quote(s: &[char], start: usize) -> (r: usize)
    requires
        start < s@.len(),
    ensures
        r == single_quote_scan(s@, start + 1),
        start < r <= s@.len(),
{
    proof {
        lemma_single_quote_scan_bounds(s@, start + 1);
    }
    let len = s.len();
    let mut i = start + 1;
    while i < len
        invariant
            start < i <= len == s@.len(),
            single_quote_scan(s@, i as int) == single_quote_scan(s@, start + 1),
        decreases len - i,
    {
        if s[i] == '\\' {
            i = if len - i > 2 {
                i + 2
            } else {
                len
            };
        } else if s[i] == '\'' {
            if i + 1 < len && s[i + 1] == '\'' {
                i = i + 2;
            } else {
                return i + 1;
            }
        } else {
            i = i + 1;
        }
    }
    len
}

/// Returns the position just after the literal closed by `q` that opens at
/// `start`.
fn skip_doubled_quote(s: &[char], start: usize, q: char) -> (r: usize)
    requires
        start < s@.len(),
    ensures
        r == doubled_quote_scan(s@, start + 1, q),
        start < r <= s@.len(),
{
    proof {
        lemma_doubled_quote_scan_bounds(s@, start + 1, q);
    }
    let len = s.len();
    let mut i = start + 1;
    while i < len
        invariant
            start < i <= len == s@.len(),
            doubled_quote_scan(s@, i as int, q) == doubled_quote_scan(s@, start + 1, q),
        decreases len - i,
    {
        if s[i] == q {
            if i + 1 < len && s[i + 1] == q {
                i = i + 2;
            } else {
                return i + 1;
            }
        } else {
            i = i + 1;
        }
    }
    len
}

/// Returns the position just after the double-quoted identifier that opens
/// at `start`.
pub fn skip_double_quote(s: &[char], start: usize) -> (r: usize)
    requires
        start < s@.len(),
    ensures
        r == doubled_quote_scan(s@, start + 1, '"'),
        start < r <= s@.len(),
{
    skip_doubled_quote(s, start, '"')
}

/// Returns the position just after the backtick-quoted identifier that opens
/// at `start`.
pub fn skip_backtick(s: &[char], start: usize) -> (r: usize)
    requires
        start < s@.len(),
    ensures
        r == doubled_quote_scan(s@, start + 1, '`'),
        start < r <= s@.len(),
{
    skip_doubled_quote(s, start, '`')
}

/// Returns the position just after the line comment that opens at `start`.
pub fn skip_line_comment(s: &[char], start: usize) -> (r: usize)
    requires
        start < s@.len(),
    ensures
        r == line_comment_scan(s@, start + 1),
        start < r <= s@.len(),
{
    proof {
        lemma_line_comment_scan_bounds(s@, start + 1);
    }
    let len = s.len();
    let mut i = start + 1;
    while i < len
        invariant
            start < i <= len == s@.len(),
            line_comment_scan(s@, i as int) == line_comment_scan(s@, start + 1),
        decreases len - i,
    {
        if s[i] == '\n' || s[i] == '\r' {
            return i + 1;
        }
        i = i + 1;
    }
    len
}

/// Returns the position just after the block comment that opens at `start`.
pub fn skip_block_comment(s: &[char], start: usize) -> (r: usize)
    requires
        start + 1 < s@.len(),
    ensures
        r == block_comment_scan(s@, start + 2),
        start < r <= s@.len(),
{
    proof {
        lemma_block_comment_scan_bounds(s@, start + 2);
    }
    let len = s.len();
    let mut i = start + 2;
    while i < len - 1
        invariant
            start + 2 <= i <= len == s@.len(),
            len >= 2,
            block_comment_scan(s@, i as int) == block_comment_scan(s@, start + 2),
        decreases len - i,
    {
        if s[i] == '*' && s[i + 1] == '/' {
            return i + 2;
        }
        i = i + 1;
    }
    len
}

// ---------------------------------------------------------------------------
// Dollar-quoted bodies
// ---------------------------------------------------------------------------

/// From `j`, the position of the `$` that closes an opening dollar tag whose
/// remaining characters are identifier characters; `None` if another
/// character or the end of the text comes first.
pub open spec fn dollar_tag_close(s: Seq<char>, j: int) -> Option<int>
    decreases s.len() - j,
{
    if j < 0 || j >= s.len() {
        None
    } else if s[j] == '$' {
        Some(j)
    } else if !is_identifier_cont_spec(s[j]) {
        None
    } else {
        dollar_tag_close(s, j + 1)
    }
}

/// The position of the closing `$` of the opening tag of a dollar quote at
/// `start`, or `None` when no dollar quote opens there: the `$` follows an
/// identifier character, or the tag is not `$$` or `$ident$`.
pub open spec fn dollar_tag_end(s: Seq<char>, start: int) -> Option<int> {
    if start > 0 && is_identifier_cont_spec(s[start - 1]) {
        None
    } else if start + 1 >= s.len() {
        None
    } else if s[start + 1] == '$' {
        Some(start + 1)
    } else if !is_identifier_start_spec(s[start + 1]) {
        None
    } else {
        dollar_tag_close(s, start + 2)
    }
}

/// The position just after the first occurrence of `tag` at or after `i`, or
/// the end of the text.
pub open spec fn tag_search(s: Seq<char>, tag: Seq<char>, i: int) -> int
    decreases s.len() - i,
{
    if i < 0 || tag.len() == 0 || i + tag.len() > s.len() {
        s.len() as int
    } else if s.subrange(i, i + tag.len()) == tag {
        i + tag.len()
    } else {
        tag_search(s, tag, i + 1)
    }
}

/// The position just after the dollar-quoted body that opens at `start`
/// (up to the repeated opening tag, or the end of the text), or `None` when
/// no dollar quote opens there.
pub open spec fn dollar_quote_end(s: Seq<char>, start: int) -> Option<int> {
    match dollar_tag_end(s, start) {
        Some(te) => Some(tag_search(s, s.subrange(start, te + 1), te + 1)),
        None => None,
    }
}

pub proof fn lemma_dollar_tag_close_bounds(s: Seq<char>, j: int)
    requires
        0 <= j,
    ensures
        dollar_tag_close(s, j) matches Some(t) ==> j <= t < s.len() && s[t] == '$',
    decreases s.len() - j,
{
    if 0 <= j < s.len() && s[j] != '$' && is_identifier_cont_spec(s[j]) {
        lemma_dollar_tag_close_bounds(s, j + 1);
    }
}

pub proof fn lemma_tag_search_bounds(s: Seq<char>, tag: Seq<char>, i: int)
    requires
        0 <= i <= s.len(),
    ensures
        i <= tag_search(s, tag, i) <= s.len(),
        tag.len() > 0 ==> i < tag_search(s, tag, i) || i == s.len(),
    decreases s.len() - i,
{
    if tag.len() > 0 && i + tag.len() <= s.len() && s.subrange(i, i + tag.len()) != tag {
        lemma_tag_search_bounds(s, tag, i + 1);
    }
}

pub proof fn lemma_dollar_quote_end_bounds(s: Seq<char>, start: int)
    requires
        0 <= start < s.len(),
    ensures
        dollar_quote_end(s, start) matches Some(e) ==> start < e <= s.len(),
{
    if start + 1 < s.len() && !(start > 0 && is_identifier_cont_spec(s[start - 1])) {
        lemma_dollar_tag_close_bounds(s, start + 2);
        match dollar_tag_end(s, start) {
            Some(te) => {
                lemma_tag_search_bounds(s, s.subrange(start, te + 1), te + 1);
            },
            None => {},
        }
    }
}

/// Whether `s[i..i + n]` equals `s[t..t + n]`.
fn region_equals(s: &[char], i: usize, t: usize, n: usize) -> (r: bool)
    requires
        i + n <= s@.len(),
        t + n <= s@.len(),
    ensures
        r == (s@.subrange(i as int, i + n) == s@.subrange(t as int, t + n)),
{
    let mut k: usize = 0;
    let len = s.len();
    while k < n
        invariant
            k <= n,
            len == s@.len(),
            i + n <= s@.len(),
            t + n <= s@.len(),
            s@.subrange(i as int, i + k) == s@.subrange(t as int, t + k),
        decreases n - k,
    {
        if s[i + k] != s[t + k] {
            assert(s@.subrange(i as int, i + n)[k as int] != s@.subrange(t as int, t + n)[k as int]);
            return false;
        }
        k = k + 1;
        assert(s@.subrange(i as int, i + k) =~= s@.subrange(t as int, t + k));
    }
    true
}

/// Returns the position just after the dollar-quoted body that opens at
/// `start`, or `None` when no dollar quote opens there.
pub fn skip_dollar_quote(s: &[char], start: usize) -> (r: Option<usize>)
    requires
        start < s@.len(),
    ensures
        r == (match dollar_quote_end(s@, start as int) {
            Some(e) => Some(e as usize),
            None => None::<usize>,
        }),
        r matches Some(e) ==> start < e <= s@.len(),
{
    proof {
        lemma_dollar_quote_end_bounds(s@, start as int);
    }
    let len = s.len();
    if start > 0 && is_identifier_cont(s[start - 1]) {
        return None;
    }
    let mut tag_end = start + 1;
    if tag_end >= len {
        return None;
    }
    if s[tag_end] != '$' {
        if !is_identifier_start(s[tag_end]) {
            return None;
        }
        tag_end = tag_end + 1;
        while tag_end < len && s[tag_end] != '$'
            invariant
                start + 2 <= tag_end <= len == s@.len(),
                dollar_tag_end(s@, start as int) == dollar_tag_close(s@, tag_end as int),
            decreases len - tag_end,
        {
            if !is_identifier_cont(s[tag_end]) {
                return None;
            }
            tag_end = tag_end + 1;
        }
        if tag_end >= len {
            return None;
        }
    }
    let ghost tag = s@.subrange(start as int, tag_end + 1);
    assert(dollar_tag_end(s@, start as int) == Some(tag_end as int));
    let tag_len = tag_end + 1 - start;
    let mut i = tag_end + 1;
    while i <= len && tag_len <= len - i
        invariant
            tag_end + 1 <= i <= len == s@.len(),
            tag_len == tag.len(),
            tag_len >= 2,
            start + tag_len == tag_end + 1,
            dollar_tag_end(s@, start as int) == Some(tag_end as int),
            tag == s@.subrange(start as int, start + tag_len),
            tag_search(s@, tag, i as int) == tag_search(s@, tag, tag_end + 1),
        decreases len - i,
    {
        if region_equals(s, i, start, tag_len) {
            return Some(i + tag_len);
        }
        i = i + 1;
    }
    Some(len)
}

// ---------------------------------------------------------------------------
// `?` placeholders (MySQL and SQL Server)
// ---------------------------------------------------------------------------

/// When a quoted literal, quoted identifier or comment opens at `i`, the
/// position just after it.
pub open spec fn quoted_end(s: Seq<char>, i: int) -> Option<int> {
    if s[i] == '\'' {
        Some(single_quote_scan(s, i + 1))
    } else if s[i] == '"' {
        Some(doubled_quote_scan(s, i + 1, '"'))
    } else if s[i] == '`' {
        Some(doubled_quote_scan(s, i + 1, '`'))
    } else if s[i] == '-' && i + 1 < s.len() && s[i + 1] == '-' {
        Some(line_comment_scan(s, i + 1))
    } else if s[i] == '#' {
        Some(line_comment_scan(s, i + 1))
    } else if s[i] == '/' && i + 1 < s.len() && s[i + 1] == '*' {
        Some(block_comment_scan(s, i + 2))
    } else {
        None
    }
}

/// The position just after what a `$` at `i` opens: a dollar-quoted body,
/// or the `$` alone.
pub open spec fn dollar_end(s: Seq<char>, i: int) -> int {
    match dollar_quote_end(s, i) {
        Some(e) => e,
        None => i + 1,
    }
}

pub proof fn lemma_quoted_end_bounds(s: Seq<char>, i: int)
    requires
        0 <= i < s.len(),
    ensures
        quoted_end(s, i) matches Some(e) ==> i < e <= s.len(),
        i < dollar_end(s, i) <= s.len(),
{
    lemma_single_quote_scan_bounds(s, i + 1);
    lemma_doubled_quote_scan_bounds(s, i + 1, '"');
    lemma_doubled_quote_scan_bounds(s, i + 1, '`');
    lemma_line_comment_scan_bounds(s, i + 1);
    if i + 2 <= s.len() {
        lemma_block_comment_scan_bounds(s, i + 2);
    }
    lemma_dollar_quote_end_bounds(s, i);
}

/// The rewriting of `s` from position `i` when `count` placeholders came
/// before: each `?` outside quotes, comments and dollar quotes becomes `$n`
/// with `n` counting from `count + 1`, and `??` becomes a literal `?`.
pub open spec fn question_rewrite_from(s: Seq<char>, i: int, count: nat) -> Seq<char>
    decreases s.len() - i,
{
    if i < 0 || i >= s.len() {
        Seq::<char>::empty()
    } else {
        proof {
            lemma_quoted_end_bounds(s, i);
        }
        match quoted_end(s, i) {
            Some(e) => s.subrange(i, e) + question_rewrite_from(s, e, count),
            None => {
                if s[i] == '$' {
                    let e = dollar_end(s, i);
                    s.subrange(i, e) + question_rewrite_from(s, e, count)
                } else if s[i] == '?' {
                    if i + 1 < s.len() && s[i + 1] == '?' {
                        seq!['?'] + question_rewrite_from(s, i + 2, count)
                    } else {
                        seq!['$'] + decimal(count + 1) + question_rewrite_from(s, i + 1, count + 1)
                    }
                } else {
                    seq![s[i]] + question_rewrite_from(s, i + 1, count)
                }
            },
        }
    }
}

/// The rewriting of a whole MySQL or SQL Server query text.
pub open spec fn question_rewrite(s: Seq<char>) -> Seq<char> {
    question_rewrite_from(s, 0, 0)
}

/// When a quoted literal, quoted identifier or comment opens at `i`, returns
/// the position just after it.
fn skip_quoted(s: &[char], i: usize) -> (r: Option<usize>)
    requires
        i < s@.len(),
    ensures
        r == (match quoted_end(s@, i as int) {
            Some(e) => Some(e as usize),
            None => None::<usize>,
        }),
        r matches Some(e) ==> i < e <= s@.len(),
{
    proof {
        lemma_quoted_end_bounds(s@, i as int);
    }
    let len = s.len();
    let c = s[i];
    if c == '\'' {
        Some(skip_single_quote(s, i))
    } else if c == '"' {
        Some(skip_double_quote(s, i))
    } else if c == '`' {
        Some(skip_backtick(s, i))
    } else if c == '-' && i + 1 < len && s[i + 1] == '-' {
        Some(skip_line_comment(s, i))
    } else if c == '#' {
        Some(skip_line_comment(s, i))
    } else if c == '/' && i + 1 < len && s[i + 1] == '*' {
        Some(skip_block_comment(s, i))
    } else {
        None
    }
}

/// Appends `s[from..to]` to `out`.
fn push_range(out: &mut Vec<char>, s: &[char], from: usize, to: usize)
    requires
        from <= to <= s@.len(),
    ensures
        final(out)@ == old(out)@ + s@.subrange(from as int, to as int),
{
    let mut k = from;
    while k < to
        invariant
            from <= k <= to <= s@.len(),
            out@ == old(out)@ + s@.subrange(from as int, k as int),
        decreases to - k,
    {
        out.push(s[k]);
        k = k + 1;
        assert(out@ =~= old(out)@ + s@.subrange(from as int, k as int));
    }
}

/// Rewrites the characters of a MySQL or SQL Server query.
pub fn rewrite_question_chars(s: &[char]) -> (out: Vec<char>)
    ensures
        out@ == question_rewrite(s@),
{
    let len = s.len();
    let mut out: Vec<char> = Vec::new();
    let mut i: usize = 0;
    let mut param: u64 = 0;
    while i < len
        invariant
            i <= len == s@.len(),
            param <= i,
            out@ + question_rewrite_from(s@, i as int, param as nat) == question_rewrite(s@),
        decreases len - i,
    {
        let ghost before = out@;
        proof {
            lemma_quoted_end_bounds(s@, i as int);
        }
        match skip_quoted(s, i) {
            Some(e) => {
                push_range(&mut out, s, i, e);
                i = e;
            },
            None => {
                if s[i] == '$' {
                    let e = match skip_dollar_quote(s, i) {
                        Some(e) => e,
                        None => i + 1,
                    };
                    push_range(&mut out, s, i, e);
                    i = e;
                } else if s[i] == '?' {
                    if i + 1 < len && s[i + 1] == '?' {
                        out.push('?');
                        i = i + 2;
                    } else {
                        param = param + 1;
                        out.push('$');
                        push_decimal(&mut out, param);
                        i = i + 1;
                    }
                } else {
                    out.push(s[i]);
                    i = i + 1;
                }
            },
        }
    }
    assert(out@ =~= question_rewrite(s@));
    out
}

/// Rewrites the `?` placeholders of a MySQL or SQL Server query into
/// numbered `$n` parameters, leaving quoted text, comments and dollar-quoted
/// bodies unchanged; `??` stands for a literal `?`.
/// The query comes back borrowed exactly when nothing in it was rewritten.
pub fn rewrite_question_params(query: &str) -> (r: Cow<'_, str>)
    ensures
        r@ == question_rewrite(query@),
        (r matches Cow::Borrowed(_)) <==> question_rewrite(query@) == query@,
{
    let chars = str_chars(query);
    let out = rewrite_question_chars(&chars);
    if same_chars(&chars, &out) {
        Cow::Borrowed(query)
    } else {
        Cow::Owned(string_from_chars(&out))
    }
}

/// Whether two character slices hold the same characters.
fn same_chars(a: &[char], b: &[char]) -> (r: bool)
    ensures
        r == (a@ == b@),
{
    if a.len() != b.len() {
        return false;
    }
    let mut i: usize = 0;
    while i < a.len()
        invariant
            a.len() == b.len(),
            0 <= i <= a.len(),
            forall|k: int| 0 <= k < i ==> a@[k] == b@[k],
        decreases a.len() - i,
    {
        if a[i] != b[i] {
            return false;
        }
        i = i + 1;
    }
    assert(a@ =~= b@);
    true
}

// ---------------------------------------------------------------------------
// Oracle bind names and positional parameters
// ---------------------------------------------------------------------------

pub open spec fn is_ascii_alnum_spec(c: char) -> bool {
    is_ascii_alpha_spec(c) || is_ascii_digit_spec(c)
}

/// The end of the run of identifier characters that starts at `j`.
pub open spec fn ident_run_end(s: Seq<char>, j: int) -> int
    decreases s.len() - j,
{
    if j < 0 || j >= s.len() || !is_identifier_cont_spec(s[j]) {
        j
    } else {
        ident_run_end(s, j + 1)
    }
}

/// The end of the run of ASCII digits that starts at `j`.
pub open spec fn digit_run_end(s: Seq<char>, j: int) -> int
    decreases s.len() - j,
{
    if j < 0 || j >= s.len() || !is_ascii_digit_spec(s[j]) {
        j
    } else {
        digit_run_end(s, j + 1)
    }
}

/// The extent of the bind name after the `:` at `colon`: an ASCII letter or
/// digit followed by identifier characters.
pub open spec fn bind_name(s: Seq<char>, colon: int) -> Option<(int, int)> {
    let start = colon + 1;
    if 0 <= start < s.len() && is_ascii_alnum_spec(s[start]) {
        Some((start, ident_run_end(s, start + 1)))
    } else {
        None
    }
}

pub open spec fn all_digits(t: Seq<char>) -> bool {
    forall|k: int| 0 <= k < t.len() ==> is_ascii_digit_spec(#[trigger] t[k])
}

pub open spec fn digit_value(c: char) -> nat {
    (c as int - 48) as nat
}

/// The number that the decimal digits `t` denote.
pub open spec fn digits_value(t: Seq<char>) -> nat
    decreases t.len(),
{
    if t.len() == 0 {
        0
    } else {
        digits_value(t.drop_last()) * 10 + digit_value(t.last())
    }
}

/// The parameter number that the text `t` names: a non-empty run of ASCII
/// digits denoting a non-zero value that fits in `u32`.
pub open spec fn positive_param(t: Seq<char>) -> Option<u32> {
    if t.len() > 0 && all_digits(t) && 0 < digits_value(t) <= u32::MAX {
        Some(digits_value(t) as u32)
    } else {
        None
    }
}

/// Whether `t` is `new` or `old` in any letter case (a trigger's row record).
pub open spec fn is_trigger_record(t: Seq<char>) -> bool {
    t.len() == 3 && (((t[0] == 'n' || t[0] == 'N') && (t[1] == 'e' || t[1] == 'E') && (t[2]
        == 'w' || t[2] == 'W')) || ((t[0] == 'o' || t[0] == 'O') && (t[1] == 'l' || t[1] == 'L')
        && (t[2] == 'd' || t[2] == 'D')))
}

pub proof fn lemma_ident_run_end_bounds(s: Seq<char>, j: int)
    requires
        0 <= j <= s.len(),
    ensures
        j <= ident_run_end(s, j) <= s.len(),
    decreases s.len() - j,
{
    if j < s.len() && is_identifier_cont_spec(s[j]) {
        lemma_ident_run_end_bounds(s, j + 1);
    }
}

pub proof fn lemma_digit_run_end_bounds(s: Seq<char>, j: int)
    requires
        0 <= j <= s.len(),
    ensures
        j <= digit_run_end(s, j) <= s.len(),
    decreases s.len() - j,
{
    if j < s.len() && is_ascii_digit_spec(s[j]) {
        lemma_digit_run_end_bounds(s, j + 1);
    }
}

pub proof fn lemma_bind_name_bounds(s: Seq<char>, colon: int)
    requires
        0 <= colon < s.len(),
    ensures
        bind_name(s, colon) matches Some((a, b)) ==> colon < a < b <= s.len() && a == colon + 1,
{
    if colon + 1 < s.len() {
        lemma_ident_run_end_bounds(s, colon + 2);
    }
}

/// A prefix of a digit string denotes no more than the whole string.
pub proof fn lemma_digits_value_prefix(t: Seq<char>, k: int)
    requires
        0 <= k <= t.len(),
    ensures
        digits_value(t.take(k)) <= digits_value(t),
    decreases t.len() - k,
{
    if k < t.len() {
        lemma_digits_value_prefix(t.drop_last(), k);
        assert(t.drop_last().take(k) =~= t.take(k));
    } else {
        assert(t.take(k) =~= t);
    }
}

/// The extent of the bind name after the `:` at `colon`, if any.
pub fn oracle_bind_name(s: &[char], colon: usize) -> (r: Option<(usize, usize)>)
    requires
        colon < s@.len(),
    ensures
        r == (match bind_name(s@, colon as int) {
            Some((a, b)) => Some((a as usize, b as usize)),
            None => None::<(usize, usize)>,
        }),
        r matches Some((a, b)) ==> colon < a < b <= s@.len() && a == colon + 1,
{
    proof {
        lemma_bind_name_bounds(s@, colon as int);
    }
    let len = s.len();
    let start = colon + 1;
    if !(start < len && (is_identifier_cont(s[start]) && s[start] != '_')) {
        return None;
    }
    let mut end = start + 1;
    while end < len && is_identifier_cont(s[end])
        invariant
            start < end <= len == s@.len(),
            ident_run_end(s@, end as int) == ident_run_end(s@, start + 1),
        decreases len - end,
    {
        end = end + 1;
    }
    Some((start, end))
}

/// The end of the run of ASCII digits that starts at `start`.
pub fn ascii_digits_end(s: &[char], start: usize) -> (r: usize)
    requires
        start <= s@.len(),
    ensures
        r == digit_run_end(s@, start as int),
        start <= r <= s@.len(),
{
    proof {
        lemma_digit_run_end_bounds(s@, start as int);
    }
    let len = s.len();
    let mut end = start;
    while end < len && is_ascii_digit(s[end])
        invariant
            start <= end <= len == s@.len(),
            digit_run_end(s@, end as int) == digit_run_end(s@, start as int),
        decreases len - end,
    {
        end = end + 1;
    }
    end
}

/// The parameter number that `s[from..to]` names, if it is a non-empty run
/// of ASCII digits denoting a non-zero `u32`.
pub fn parse_positive_param(s: &[char], from: usize, to: usize) -> (r: Option<u32>)
    requires
        from <= to <= s@.len(),
    ensures
        r == positive_param(s@.subrange(from as int, to as int)),
{
    let ghost t = s@.subrange(from as int, to as int);
    if from == to {
        return None;
    }
    let mut k = from;
    while k < to
        invariant
            from <= k <= to <= s@.len(),
            t == s@.subrange(from as int, to as int),
            forall|j: int| 0 <= j < k - from ==> is_ascii_digit_spec(#[trigger] t[j]),
        decreases to - k,
    {
        if !is_ascii_digit(s[k]) {
            assert(!is_ascii_digit_spec(t[k - from]));
            return None;
        }
        k = k + 1;
    }
    assert(all_digits(t));
    let mut v: u64 = 0;
    let mut k = from;
    while k < to
        invariant
            from <= k <= to <= s@.len(),
            t == s@.subrange(from as int, to as int),
            all_digits(t),
            v == digits_value(t.take(k - from)),
            v <= u32::MAX,
        decreases to - k,
    {
        assert(t[k - from] == s@[k as int]);
        assert(is_ascii_digit_spec(t[k - from]));
        assert(t.take(k - from + 1).drop_last() =~= t.take(k - from));
        let d = (s[k] as u32 - 48) as u64;
        v = v * 10 + d;
        k = k + 1;
        if v > 0xffff_ffff {
            proof {
                lemma_digits_value_prefix(t, k - from);
            }
            return None;
        }
    }
    assert(t.take(to - from) =~= t);
    if v == 0 {
        None
    } else {
        Some(v as u32)
    }
}

/// The parameter number that an all-digit bind name `s[from..to]` names.
pub fn oracle_numeric_param(s: &[char], from: usize, to: usize) -> (r: Option<u32>)
    requires
        from <= to <= s@.len(),
    ensures
        r == positive_param(s@.subrange(from as int, to as int)),
{
    parse_positive_param(s, from, to)
}

/// Whether the bind name `s[from..to]` is `new` or `old` in any letter case.
pub fn is_oracle_trigger_record(s: &[char], from: usize, to: usize) -> (r: bool)
    requires
        from <= to <= s@.len(),
    ensures
        r == is_trigger_record(s@.subrange(from as int, to as int)),
{
    if to - from != 3 {
        return false;
    }
    let a = s[from];
    let b = s[from + 1];
    let c = s[from + 2];
    ((a == 'n' || a == 'N') && (b == 'e' || b == 'E') && (c == 'w' || c == 'W')) || ((a == 'o'
        || a == 'O') && (b == 'l' || b == 'L') && (c == 'd' || c == 'D'))
}

/// Whether `s[from..to]` consists of ASCII digits only.
fn all_ascii_digits(s: &[char], from: usize, to: usize) -> (r: bool)
    requires
        from <= to <= s@.len(),
    ensures
        r == all_digits(s@.subrange(from as int, to as int)),
{
    let ghost t = s@.subrange(from as int, to as int);
    let mut k = from;
    while k < to
        invariant
            from <= k <= to <= s@.len(),
            t == s@.subrange(from as int, to as int),
            forall|j: int| 0 <= j < k - from ==> is_ascii_digit_spec(#[trigger] t[j]),
        decreases to - k,
    {
        if !is_ascii_digit(s[k]) {
            assert(!is_ascii_digit_spec(t[k - from]));
            return false;
        }
        k = k + 1;
    }
    true
}

/// `set` with the parameter `p` added when there is one.
pub open spec fn with_param(set: Set<u32>, p: Option<u32>) -> Set<u32> {
    match p {
        Some(v) => set.insert(v),
        None => set,
    }
}

/// The parameter numbers that the text from `i` names explicitly, as `:n`
/// binds or `$n` parameters outside quotes, comments and dollar quotes.
pub open spec fn explicit_params_from(s: Seq<char>, i: int) -> Set<u32>
    decreases s.len() - i,
{
    if i < 0 || i >= s.len() {
        Set::<u32>::empty()
    } else {
        proof {
            lemma_quoted_end_bounds(s, i);
            lemma_digit_run_end_bounds(s, i + 1);
            lemma_bind_name_bounds(s, i);
        }
        match quoted_end(s, i) {
            Some(e) => explicit_params_from(s, e),
            None => {
                if s[i] == '$' {
                    match dollar_quote_end(s, i) {
                        Some(e) => explicit_params_from(s, e),
                        None => {
                            let end = digit_run_end(s, i + 1);
                            if end > i + 1 {
                                with_param(
                                    explicit_params_from(s, end),
                                    positive_param(s.subrange(i + 1, end)),
                                )
                            } else {
                                explicit_params_from(s, i + 1)
                            }
                        },
                    }
                } else if s[i] == ':' && i + 1 < s.len() && s[i + 1] == ':' {
                    explicit_params_from(s, i + 2)
                } else if s[i] == ':' {
                    match bind_name(s, i) {
                        Some((a, b)) => with_param(
                            explicit_params_from(s, b),
                            positive_param(s.subrange(a, b)),
                        ),
                        None => explicit_params_from(s, i + 1),
                    }
                } else {
                    explicit_params_from(s, i + 1)
                }
            },
        }
    }
}

/// Adds `p`, if there is one, to the numbers in `v`.
fn add_param(v: &mut HashSet<u32>, p: Option<u32>)
    ensures
        final(v)@ == with_param(old(v)@, p),
{
    match p {
        Some(x) => {
            v.insert(x);
        },
        None => {},
    }
}

/// The parameter numbers that a query names explicitly, as `:n` binds or
/// `$n` parameters outside quotes, comments and dollar quotes.
pub fn oracle_explicit_param_indexes(s: &[char]) -> (r: HashSet<u32>)
    ensures
        r@ == explicit_params_from(s@, 0),
{
    let len = s.len();
    let mut params: HashSet<u32> = HashSet::new();
    let mut i: usize = 0;
    assert(params@ =~= Set::<u32>::empty());
    while i < len
        invariant
            i <= len == s@.len(),
            params@ + explicit_params_from(s@, i as int) == explicit_params_from(s@, 0),
        decreases len - i,
    {
        let ghost before = params@;
        let ghost i0 = i as int;
        proof {
            lemma_quoted_end_bounds(s@, i as int);
            lemma_bind_name_bounds(s@, i as int);
        }
        match skip_quoted(s, i) {
            Some(e) => {
                i = e;
            },
            None => {
                if s[i] == '$' {
                    match skip_dollar_quote(s, i) {
                        Some(e) => {
                            i = e;
                        },
                        None => {
                            let end = ascii_digits_end(s, i + 1);
                            if end > i + 1 {
                                let p = parse_positive_param(s, i + 1, end);
                                add_param(&mut params, p);
                                i = end;
                                assert(params@ + explicit_params_from(s@, i as int)
                                    =~= before + explicit_params_from(s@, i0));
                            } else {
                                i = i + 1;
                            }
                        },
                    }
                } else if s[i] == ':' && i + 1 < len && s[i + 1] == ':' {
                    i = i + 2;
                } else if s[i] == ':' {
                    match oracle_bind_name(s, i) {
                        Some((a, b)) => {
                            let p = parse_positive_param(s, a, b);
                            add_param(&mut params, p);
                            i = b;
                            assert(params@ + explicit_params_from(s@, i as int)
                                =~= before + explicit_params_from(s@, i0));
                        },
                        None => {
                            i = i + 1;
                        },
                    }
                } else {
                    i = i + 1;
                }
            },
        }
    }
    assert(params@ =~= explicit_params_from(s@, 0));
    params
}

/// The least number at or above `n` that `used` does not hold (at most
/// `2^32`).
pub open spec fn next_free(used: Set<u32>, n: int) -> int
    decreases 0x1_0000_0000 - n,
{
    if n < 0 || n >= 0x1_0000_0000 || !used.contains(n as u32) {
        n
    } else {
        next_free(used, n + 1)
    }
}

/// The names bound so far, each to its parameter number; a later entry
/// replaces an earlier one of the same name.
pub open spec fn named_map(s: Seq<char>, v: Seq<(usize, usize, u32)>) -> Map<Seq<char>, u32>
    decreases v.len(),
{
    if v.len() == 0 {
        Map::<Seq<char>, u32>::empty()
    } else {
        named_map(s, v.drop_last()).insert(
            s.subrange(v.last().0 as int, v.last().1 as int),
            v.last().2,
        )
    }
}

/// The rewriting of an Oracle-mode query from position `i`, given the numbers
/// in use, the numbers bound to names, and the next candidate number: `?`
/// and new names take the least free number from `next` on, `:n` becomes
/// `$n`, a repeated name reuses its number, and `::`, `:new`, `:old`, `:0`
/// and quoted text, comments and dollar quotes stay unchanged.
pub open spec fn oracle_rewrite_from(
    s: Seq<char>,
    i: int,
    used: Set<u32>,
    named: Map<Seq<char>, u32>,
    next: int,
) -> Seq<char>
    decreases s.len() - i,
{
    if i < 0 || i >= s.len() {
        Seq::<char>::empty()
    } else {
        proof {
            lemma_quoted_end_bounds(s, i);
            lemma_bind_name_bounds(s, i);
        }
        match quoted_end(s, i) {
            Some(e) => s.subrange(i, e) + oracle_rewrite_from(s, e, used, named, next),
            None => {
                if s[i] == '$' {
                    let e = dollar_end(s, i);
                    s.subrange(i, e) + oracle_rewrite_from(s, e, used, named, next)
                } else if s[i] == '?' {
                    if i + 1 < s.len() && s[i + 1] == '?' {
                        seq!['?'] + oracle_rewrite_from(s, i + 2, used, named, next)
                    } else {
                        let p = next_free(used, next);
                        seq!['$'] + decimal(p as nat) + oracle_rewrite_from(
                            s,
                            i + 1,
                            used.insert(p as u32),
                            named,
                            p + 1,
                        )
                    }
                } else if s[i] == ':' && i + 1 < s.len() && s[i + 1] == ':' {
                    s.subrange(i, i + 2) + oracle_rewrite_from(s, i + 2, used, named, next)
                } else if s[i] == ':' {
                    match bind_name(s, i) {
                        None => seq![':'] + oracle_rewrite_from(s, i + 1, used, named, next),
                        Some((a, b)) => {
                            let name = s.subrange(a, b);
                            if all_digits(name) {
                                match positive_param(name) {
                                    None => s.subrange(i, b) + oracle_rewrite_from(
                                        s,
                                        b,
                                        used,
                                        named,
                                        next,
                                    ),
                                    Some(p) => seq!['$'] + decimal(p as nat) + oracle_rewrite_from(
                                        s,
                                        b,
                                        used.insert(p),
                                        named,
                                        next,
                                    ),
                                }
                            } else if is_trigger_record(name) {
                                s.subrange(i, b) + oracle_rewrite_from(s, b, used, named, next)
                            } else if named.contains_key(name) {
                                seq!['$'] + decimal(named[name] as nat) + oracle_rewrite_from(
                                    s,
                                    b,
                                    used,
                                    named,
                                    next,
                                )
                            } else {
                                let p = next_free(used, next);
                                seq!['$'] + decimal(p as nat) + oracle_rewrite_from(
                                    s,
                                    b,
                                    used.insert(p as u32),
                                    named.insert(name, p as u32),
                                    p + 1,
                                )
                            }
                        },
                    }
                } else {
                    seq![s[i]] + oracle_rewrite_from(s, i + 1, used, named, next)
                }
            },
        }
    }
}

/// Whether every number that the rewriting of an Oracle-mode query from
/// position `i` hands out lies below `u32::MAX`, so that the number after
/// it can still be counted: the rewriting follows `oracle_rewrite_from`.
pub open spec fn oracle_numbers_fit_from(
    s: Seq<char>,
    i: int,
    used: Set<u32>,
    named: Map<Seq<char>, u32>,
    next: int,
) -> bool
    decreases s.len() - i,
{
    if i < 0 || i >= s.len() {
        true
    } else {
        proof {
            lemma_quoted_end_bounds(s, i);
            lemma_bind_name_bounds(s, i);
        }
        match quoted_end(s, i) {
            Some(e) => oracle_numbers_fit_from(s, e, used, named, next),
            None => {
                if s[i] == '$' {
                    oracle_numbers_fit_from(s, dollar_end(s, i), used, named, next)
                } else if s[i] == '?' {
                    if i + 1 < s.len() && s[i + 1] == '?' {
                        oracle_numbers_fit_from(s, i + 2, used, named, next)
                    } else {
                        let p = next_free(used, next);
                        p < 0xffff_ffff && oracle_numbers_fit_from(s, i + 1, used.insert(p as u32), named, p + 1)
                    }
                } else if s[i] == ':' && i + 1 < s.len() && s[i + 1] == ':' {
                    oracle_numbers_fit_from(s, i + 2, used, named, next)
                } else if s[i] == ':' {
                    match bind_name(s, i) {
                        None => oracle_numbers_fit_from(s, i + 1, used, named, next),
                        Some((a, b)) => {
                            let name = s.subrange(a, b);
                            if all_digits(name) {
                                match positive_param(name) {
                                    None => oracle_numbers_fit_from(s, b, used, named, next),
                                    Some(p) => oracle_numbers_fit_from(s, b, used.insert(p), named, next),
                                }
                            } else if is_trigger_record(name) || named.contains_key(name) {
                                oracle_numbers_fit_from(s, b, used, named, next)
                            } else {
                                let p = next_free(used, next);
                                p < 0xffff_ffff && oracle_numbers_fit_from(
                                    s,
                                    b,
                                    used.insert(p as u32),
                                    named.insert(name, p as u32),
                                    p + 1,
                                )
                            }
                        },
                    }
                } else {
                    oracle_numbers_fit_from(s, i + 1, used, named, next)
                }
            },
        }
    }
}

/// Whether the rewriting of the Oracle-mode query `s` hands out only numbers
/// below `u32::MAX`; it fails only where the query uses nearly every
/// number that a `u32` can hold.
pub open spec fn oracle_numbers_fit(s: Seq<char>) -> bool {
    oracle_numbers_fit_from(s, 0, explicit_params_from(s, 0), Map::<Seq<char>, u32>::empty(), 1)
}

/// The least free number at or above `n` is at least `n`, and, where it
/// fits in a `u32`, it is free.
proof fn lemma_next_free_free(used: Set<u32>, n: int)
    requires
        0 <= n,
        next_free(used, n) < 0x1_0000_0000,
    ensures
        n <= next_free(used, n),
        !used.contains(next_free(used, n) as u32),
    decreases 0x1_0000_0000 - n,
{
    if n < 0x1_0000_0000 && used.contains(n as u32) {
        lemma_next_free_free(used, n + 1);
    }
}

/// The rewriting of a whole Oracle-mode query text.
pub open spec fn oracle_rewrite(s: Seq<char>) -> Seq<char> {
    oracle_rewrite_from(s, 0, explicit_params_from(s, 0), Map::<Seq<char>, u32>::empty(), 1)
}

/// The least free number at or above `n` lies at or below any free number
/// at or above `n`, and is free.
pub proof fn lemma_next_free_le(used: Set<u32>, n: int, k: int)
    requires
        0 <= n <= k < 0x1_0000_0000,
        !used.contains(k as u32),
    ensures
        n <= next_free(used, n) <= k,
        !used.contains(next_free(used, n) as u32),
    decreases k - n,
{
    if used.contains(n as u32) {
        assert(n != k);
        lemma_next_free_le(used, n + 1, k);
    }
}

/// Takes the least number at or above `next` that `used` does not hold,
/// records it as used, and moves `next` past it.
pub fn next_oracle_param(used: &mut HashSet<u32>, next: &mut u32) -> (p: u32)
    requires
        exists|k: int| *old(next) <= k < 0xffff_ffff && !old(used)@.contains(#[trigger] (k as u32)),
    ensures
        p as int == next_free(old(used)@, *old(next) as int),
        final(used)@ == old(used)@.insert(p),
        *final(next) as int == p + 1,
        (forall|k: int| 1 <= k < *old(next) ==> old(used)@.contains(#[trigger] (k as u32))) ==> (forall|k: int|
            1 <= k < *final(next) ==> final(used)@.contains(#[trigger] (k as u32))),
{
    let ghost start = *next as int;
    let ghost set0 = used@;
    let ghost covered = forall|k: int| 1 <= k < start ==> set0.contains(#[trigger] (k as u32));
    let ghost f = next_free(set0, start);
    proof {
        let k = choose|k: int| start <= k < 0xffff_ffff && !set0.contains(#[trigger] (k as u32));
        lemma_next_free_le(set0, start, k);
    }
    while used.contains(next)
        invariant
            used@ == set0,
            set0 == old(used)@,
            start <= *next <= f < 0xffff_ffff,
            !set0.contains(f as u32),
            next_free(set0, *next as int) == f,
            covered == (forall|k: int| 1 <= k < start ==> set0.contains(#[trigger] (k as u32))),
            covered ==> forall|k: int| 1 <= k < *next ==> set0.contains(#[trigger] (k as u32)),
        decreases f - *next,
    {
        proof {
            assert(set0.contains(*next));
            assert(*next as int != f);
            if covered {
                assert forall|k: int| 1 <= k < *next + 1 implies set0.contains(#[trigger] (k as u32)) by {
                    if k == *next {
                        assert(k as u32 == *next);
                    }
                }
            }
        }
        *next = *next + 1;
    }
    let p = *next;
    used.insert(p);
    *next = p + 1;
    proof {
        if covered {
            assert forall|k: int| 1 <= k < *next implies used@.contains(#[trigger] (k as u32)) by {
                if k < p {
                    assert(set0.contains(k as u32));
                }
            }
        }
    }
    p
}

/// Whether `s[a..b]` equals `s[c..d]`.
fn names_equal(s: &[char], a: usize, b: usize, c: usize, d: usize) -> (r: bool)
    requires
        a <= b <= s@.len(),
        c <= d <= s@.len(),
    ensures
        r == (s@.subrange(a as int, b as int) == s@.subrange(c as int, d as int)),
{
    if b - a != d - c {
        assert(s@.subrange(a as int, b as int).len() != s@.subrange(c as int, d as int).len());
        return false;
    }
    let r = region_equals(s, a, c, b - a);
    assert(s@.subrange(c as int, c + (b - a)) =~= s@.subrange(c as int, d as int));
    r
}

/// The number bound to the name `s[a..b]`, if any.
fn lookup_named(s: &[char], named: &Vec<(usize, usize, u32)>, a: usize, b: usize) -> (r: Option<
    u32,
>)
    requires
        a <= b <= s@.len(),
        forall|k: int| 0 <= k < named@.len() ==> #[trigger] named@[k].0 <= named@[k].1 <= s@.len(),
    ensures
        r == (if named_map(s@, named@).contains_key(s@.subrange(a as int, b as int)) {
            Some(named_map(s@, named@)[s@.subrange(a as int, b as int)])
        } else {
            None::<u32>
        }),
{
    let ghost key = s@.subrange(a as int, b as int);
    let n = named.len();
    let mut found: Option<u32> = None;
    let mut k: usize = 0;
    assert(named@.take(0) =~= Seq::<(usize, usize, u32)>::empty());
    while k < n
        invariant
            k <= n == named@.len(),
            a <= b <= s@.len(),
            key == s@.subrange(a as int, b as int),
            forall|j: int| 0 <= j < named@.len() ==> #[trigger] named@[j].0 <= named@[j].1 <= s@.len(),
            found == (if named_map(s@, named@.take(k as int)).contains_key(key) {
                Some(named_map(s@, named@.take(k as int))[key])
            } else {
                None::<u32>
            }),
        decreases n - k,
    {
        let (c, d, p) = named[k];
        assert(named@[k as int].0 <= named@[k as int].1 <= s@.len());
        if names_equal(s, c, d, a, b) {
            found = Some(p);
        }
        assert(named@.take(k + 1).drop_last() =~= named@.take(k as int));
        k = k + 1;
    }
    assert(named@.take(n as int) =~= named@);
    found
}

/// Whether the rewriting so far, followed by the rewriting of the rest, is
/// the rewriting of the whole text.
pub open spec fn oracle_progress(
    s: Seq<char>,
    out: Seq<char>,
    i: int,
    used: Set<u32>,
    named: Seq<(usize, usize, u32)>,
    next: int,
) -> bool {
    out + oracle_rewrite_from(s, i, used, named_map(s, named), next) == oracle_rewrite(s)
}

/// Rewrites the characters of an Oracle-mode query.
#[verifier::rlimit(100)]
#[verifier::spinoff_prover]
pub fn rewrite_oracle_chars(s: &[char]) -> (out: Vec<char>)
    requires
        oracle_numbers_fit(s@),
    ensures
        out@ == oracle_rewrite(s@),
{
    broadcast use vstd::seq_lib::group_seq_properties;
    let len = s.len();
    let mut used = oracle_explicit_param_indexes(s);
    let mut named: Vec<(usize, usize, u32)> = Vec::new();
    let mut next: u32 = 1;
    let mut out: Vec<char> = Vec::new();
    let mut i: usize = 0;
    assert(named_map(s@, named@) =~= Map::<Seq<char>, u32>::empty());
    assert(oracle_progress(s@, out@, 0, used@, named@, 1));
    while i < len
        invariant
            i <= len == s@.len(),
            1 <= next,
            oracle_numbers_fit_from(s@, i as int, used@, named_map(s@, named@), next as int),
            forall|k: int| 0 <= k < named@.len() ==> #[trigger] named@[k].0 <= named@[k].1 <= len,
            oracle_progress(s@, out@, i as int, used@, named@, next as int),
        decreases len - i,
    {
        let ghost out0 = out@;
        let ghost i0 = i as int;
        let ghost used0 = used@;
        let ghost named0 = named@;
        let ghost next0 = next as int;
        let ghost map0 = named_map(s@, named0);
        let ghost rest0 = oracle_rewrite_from(s@, i0, used0, map0, next0);
        proof {
            lemma_quoted_end_bounds(s@, i as int);
            lemma_bind_name_bounds(s@, i as int);
        }
        match skip_quoted(s, i) {
            Some(e) => {
                push_range(&mut out, s, i, e);
                i = e;
                let ghost rest1 = oracle_rewrite_from(s@, e as int, used0, map0, next0);
                assert(rest0 == s@.subrange(i0, e as int) + rest1);
                assert(out@ + rest1 =~= out0 + rest0);
                assert(oracle_progress(s@, out@, i as int, used@, named@, next as int));
            },
            None => {
                if s[i] == '$' {
                    let e = match skip_dollar_quote(s, i) {
                        Some(e) => e,
                        None => i + 1,
                    };
                    push_range(&mut out, s, i, e);
                    i = e;
                    let ghost rest1 = oracle_rewrite_from(s@, e as int, used0, map0, next0);
                    assert(rest0 == s@.subrange(i0, e as int) + rest1);
                    assert(out@ + rest1 =~= out0 + rest0);
                    assert(oracle_progress(s@, out@, i as int, used@, named@, next as int));
                } else if s[i] == '?' {
                    if i + 1 < len && s[i + 1] == '?' {
                        out.push('?');
                        i = i + 2;
                        let ghost rest1 = oracle_rewrite_from(s@, i as int, used0, map0, next0);
                        assert(rest0 == seq!['?'] + rest1);
                        assert(out@ + rest1 =~= out0 + rest0);
                        assert(oracle_progress(s@, out@, i as int, used@, named@, next as int));
                    } else {
                        proof {
                            lemma_next_free_free(used@, next as int);
                            let nf = next_free(used@, next as int);
                            assert(!used@.contains(nf as u32));
                        }
                        let p = next_oracle_param(&mut used, &mut next);
                        out.push('$');
                        push_decimal(&mut out, p as u64);
                        i = i + 1;
                        let ghost rest1 = oracle_rewrite_from(
                            s@,
                            i as int,
                            used0.insert(p),
                            map0,
                            p + 1,
                        );
                        assert(rest0 == seq!['$'] + decimal(p as nat) + rest1);
                        assert(out@ + rest1 =~= out0 + rest0);
                        assert(oracle_progress(s@, out@, i as int, used@, named@, next as int));
                    }
                } else if s[i] == ':' && i + 1 < len && s[i + 1] == ':' {
                    push_range(&mut out, s, i, i + 2);
                    i = i + 2;
                    let ghost rest1 = oracle_rewrite_from(s@, i as int, used0, map0, next0);
                    assert(rest0 == s@.subrange(i0, i0 + 2) + rest1);
                    assert(out@ + rest1 =~= out0 + rest0);
                    assert(oracle_progress(s@, out@, i as int, used@, named@, next as int));
                } else if s[i] == ':' {
                    match oracle_bind_name(s, i) {
                        None => {
                            out.push(':');
                            i = i + 1;
                            let ghost rest1 = oracle_rewrite_from(s@, i as int, used0, map0, next0);
                            assert(rest0 == seq![':'] + rest1);
                            assert(out@ + rest1 =~= out0 + rest0);
                            assert(oracle_progress(s@, out@, i as int, used@, named@, next as int));
                        },
                        Some((a, b)) => {
                            let ghost name = s@.subrange(a as int, b as int);
                            if all_ascii_digits(s, a, b) {
                                match oracle_numeric_param(s, a, b) {
                                    None => {
                                        push_range(&mut out, s, i, b);
                                        i = b;
                                        let ghost rest1 = oracle_rewrite_from(
                                            s@,
                                            b as int,
                                            used0,
                                            map0,
                                            next0,
                                        );
                                        assert(rest0 == s@.subrange(i0, b as int) + rest1);
                                        assert(out@ + rest1 =~= out0 + rest0);
                                        assert(oracle_progress(
                                            s@,
                                            out@,
                                            i as int,
                                            used@,
                                            named@,
                                            next as int,
                                        ));
                                    },
                                    Some(p) => {
                                        add_param(&mut used, Some(p));
                                        out.push('$');
                                        push_decimal(&mut out, p as u64);
                                        i = b;
                                        let ghost rest1 = oracle_rewrite_from(
                                            s@,
                                            b as int,
                                            used0.insert(p),
                                            map0,
                                            next0,
                                        );
                                        assert(rest0 == seq!['$'] + decimal(p as nat) + rest1);
                                        assert(out@ + rest1 =~= out0 + rest0);
                                        assert(oracle_progress(
                                            s@,
                                            out@,
                                            i as int,
                                            used@,
                                            named@,
                                            next as int,
                                        ));
                                    },
                                }
                            } else if is_oracle_trigger_record(s, a, b) {
                                push_range(&mut out, s, i, b);
                                i = b;
                                let ghost rest1 = oracle_rewrite_from(
                                    s@,
                                    b as int,
                                    used0,
                                    map0,
                                    next0,
                                );
                                assert(rest0 == s@.subrange(i0, b as int) + rest1);
                                assert(out@ + rest1 =~= out0 + rest0);
                                assert(oracle_progress(
                                    s@,
                                    out@,
                                    i as int,
                                    used@,
                                    named@,
                                    next as int,
                                ));
                            } else {
                                match lookup_named(s, &named, a, b) {
                                    Some(p) => {
                                        out.push('$');
                                        push_decimal(&mut out, p as u64);
                                        i = b;
                                        let ghost rest1 = oracle_rewrite_from(
                                            s@,
                                            b as int,
                                            used0,
                                            map0,
                                            next0,
                                        );
                                        assert(rest0 == seq!['$'] + decimal(p as nat) + rest1);
                                        assert(out@ + rest1 =~= out0 + rest0);
                                        assert(oracle_progress(
                                            s@,
                                            out@,
                                            i as int,
                                            used@,
                                            named@,
                                            next as int,
                                        ));
                                    },
                                    None => {
                                        proof {
                                            lemma_next_free_free(used@, next as int);
                            let nf = next_free(used@, next as int);
                            assert(!used@.contains(nf as u32));
                                        }
                                        let p = next_oracle_param(&mut used, &mut next);
                                        named.push((a, b, p));
                                        assert(named@.drop_last() =~= named0);
                                        assert(named@[named@.len() - 1] == (a, b, p));
                                        assert(named_map(s@, named@) == map0.insert(name, p));
                                        out.push('$');
                                        push_decimal(&mut out, p as u64);
                                        i = b;
                                        let ghost rest1 = oracle_rewrite_from(
                                            s@,
                                            b as int,
                                            used0.insert(p),
                                            map0.insert(name, p),
                                            p + 1,
                                        );
                                        assert(rest0 == seq!['$'] + decimal(p as nat) + rest1);
                                        assert(out@ + rest1 =~= out0 + rest0);
                                        assert(oracle_progress(
                                            s@,
                                            out@,
                                            i as int,
                                            used@,
                                            named@,
                                            next as int,
                                        ));
                                    },
                                }
                            }
                        },
                    }
                } else {
                    let c = s[i];
                    out.push(c);
                    i = i + 1;
                    let ghost rest1 = oracle_rewrite_from(s@, i as int, used0, map0, next0);
                    assert(rest0 == seq![c] + rest1);
                    assert(out@ + rest1 =~= out0 + rest0);
                    assert(oracle_progress(s@, out@, i as int, used@, named@, next as int));
                }
            },
        }
    }
    assert(out@ =~= oracle_rewrite(s@));
    out
}

/// Rewrites the parameters of an Oracle-mode query into numbered `$n`
/// parameters: `:n` keeps its number, each new `:name` and each `?` takes
/// the least number not yet in use, a repeated `:name` reuses its number,
/// and `??` stands for a literal `?`.  Quoted text, comments, dollar-quoted
/// bodies, `::` casts, `:new`/`:old` trigger records and `:0` are unchanged.
/// The query comes back borrowed exactly when nothing in it was rewritten.
/// Every number handed out must lie below `u32::MAX` (`oracle_numbers_fit`):
/// the number after it could not be counted otherwise.
pub fn rewrite_oracle_params(query: &str) -> (r: Cow<'_, str>)
    requires
        oracle_numbers_fit(query@),
    ensures
        r@ == oracle_rewrite(query@),
        (r matches Cow::Borrowed(_)) <==> oracle_rewrite(query@) == query@,
{
    let chars = str_chars(query);
    let out = rewrite_oracle_chars(&chars);
    if same_chars(&chars, &out) {
        Cow::Borrowed(query)
    } else {
        Cow::Owned(string_from_chars(&out))
    }
}

/// The text a query in `mode` is sent as: MySQL and SQL Server `?`
/// placeholders and Oracle binds become `$n`; PostgreSQL text is unchanged.
pub open spec fn rewritten_query(mode: CompatibleMode, s: Seq<char>) -> Seq<char> {
    match mode {
        CompatibleMode::Mysql | CompatibleMode::SqlServer => question_rewrite(s),
        CompatibleMode::Oracle => oracle_rewrite(s),
        CompatibleMode::Pg => s,
    }
}

/// Rewrites the parameter syntax of `query` for the compatibility `mode`;
/// the query comes back borrowed exactly when nothing in it was rewritten.
pub fn rewrite_query(mode: CompatibleMode, query: &str) -> (r: Cow<'_, str>)
    requires
        mode == CompatibleMode::Oracle ==> oracle_numbers_fit(query@),
    ensures
        r@ == rewritten_query(mode, query@),
        (r matches Cow::Borrowed(_)) <==> rewritten_query(mode, query@) == query@,
{
    match mode {
        CompatibleMode::Mysql | CompatibleMode::SqlServer => rewrite_question_params(query),
        CompatibleMode::Oracle => rewrite_oracle_params(query),
        CompatibleMode::Pg => Cow::Borrowed(query),
    }
}

// ---------------------------------------------------------------------------
// Laws
// ---------------------------------------------------------------------------

proof fn lemma_question_rewrite_from_identity(s: Seq<char>, i: int, count: nat)
    requires
        0 <= i <= s.len(),
        forall|k: int| i <= k < s.len() ==> s[k] != '?',
    ensures
        question_rewrite_from(s, i, count) == s.subrange(i, s.len() as int),
    decreases s.len() - i,
{
    if i < s.len() {
        lemma_quoted_end_bounds(s, i);
        let e = match quoted_end(s, i) {
            Some(e) => e,
            None => if s[i] == '$' {
                dollar_end(s, i)
            } else {
                i + 1
            },
        };
        lemma_question_rewrite_from_identity(s, e, count);
        assert(s.subrange(i, e) + s.subrange(e, s.len() as int) =~= s.subrange(i, s.len() as int));
        if quoted_end(s, i) is None && s[i] != '$' {
            assert(seq![s[i]] =~= s.subrange(i, i + 1));
        }
    } else {
        assert(s.subrange(i, s.len() as int) =~= Seq::<char>::empty());
    }
}

/// A MySQL or SQL Server query without `?` is sent unchanged.
pub proof fn law_question_rewrite_without_placeholders(s: Seq<char>)
    requires
        !s.contains('?'),
    ensures
        question_rewrite(s) == s,
{
    assert forall|k: int| 0 <= k < s.len() implies s[k] != '?' by {
        if s[k] == '?' {
            assert(s.contains('?'));
        }
    }
    lemma_question_rewrite_from_identity(s, 0, 0);
    assert(s.subrange(0, s.len() as int) =~= s);
}

proof fn lemma_oracle_rewrite_from_identity(
    s: Seq<char>,
    i: int,
    used: Set<u32>,
    named: Map<Seq<char>, u32>,
    next: int,
)
    requires
        0 <= i <= s.len(),
        forall|k: int| i <= k < s.len() ==> s[k] != '?' && s[k] != ':',
    ensures
        oracle_rewrite_from(s, i, used, named, next) == s.subrange(i, s.len() as int),
    decreases s.len() - i,
{
    if i < s.len() {
        lemma_quoted_end_bounds(s, i);
        let e = match quoted_end(s, i) {
            Some(e) => e,
            None => if s[i] == '$' {
                dollar_end(s, i)
            } else {
                i + 1
            },
        };
        lemma_oracle_rewrite_from_identity(s, e, used, named, next);
        assert(s.subrange(i, e) + s.subrange(e, s.len() as int) =~= s.subrange(i, s.len() as int));
        if quoted_end(s, i) is None && s[i] != '$' {
            assert(seq![s[i]] =~= s.subrange(i, i + 1));
        }
    } else {
        assert(s.subrange(i, s.len() as int) =~= Seq::<char>::empty());
    }
}

/// An Oracle-mode query without `?` or `:` is sent unchanged.
pub proof fn law_oracle_rewrite_without_binds(s: Seq<char>)
    requires
        !s.contains('?'),
        !s.contains(':'),
    ensures
        oracle_rewrite(s) == s,
{
    assert forall|k: int| 0 <= k < s.len() implies s[k] != '?' && s[k] != ':' by {
        if s[k] == '?' {
            assert(s.contains('?'));
        }
        if s[k] == ':' {
            assert(s.contains(':'));
        }
    }
    lemma_oracle_rewrite_from_identity(
        s,
        0,
        explicit_params_from(s, 0),
        Map::<Seq<char>, u32>::empty(),
        1,
    );
    assert(s.subrange(0, s.len() as int) =~= s);
}


} // verus!
