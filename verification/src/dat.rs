//! The `.dat` catalog format: a bracketed list of objects, each a braced
//! list of `key => 'value'` pairs followed by a comma, with `#` comments.

use vstd::prelude::*;
use crate::text::{push_char, str_chars, string_of};

verus! {

/// Why a `.dat` text could not be read.
#[derive(Debug, Copy, Clone, PartialEq, Eq, Structural)]
pub enum DatError {
    /// Another character stood where one was expected.
    Expected { wanted: char, found: char },
    /// The text ended where this character was expected.
    ExpectedAtEof(char),
    /// The text ended inside a quoted value.
    UnexpectedEof,
    /// Text follows the closing bracket; the first character of it.
    TrailingText(char),
}

/// Whether `c` is skipped between tokens.
pub open spec fn is_ws(c: char) -> bool {
    c == '\n' || c == ' ' || c == '\t'
}

/// The position after the whitespace and `#` comments at `i`; a comment
/// runs to the end of its line, newline included.
pub open spec fn skip_ws_from(s: Seq<char>, i: int, in_comment: bool) -> int
    decreases s.len() - i,
{
    if i < 0 || i >= s.len() {
        i
    } else if in_comment {
        skip_ws_from(s, i + 1, s[i] != '\n')
    } else if s[i] == '#' {
        skip_ws_from(s, i + 1, true)
    } else if is_ws(s[i]) {
        skip_ws_from(s, i + 1, false)
    } else {
        i
    }
}

/// The position after whitespace and comments.
pub open spec fn ws_end(s: Seq<char>, i: int) -> int {
    skip_ws_from(s, i, false)
}

/// Whether `c` may stand in a key.
pub open spec fn is_key_char(c: char) -> bool {
    ('a' <= c && c <= 'z') || c == '_'
}

/// The end of the run of key characters at `i`.
pub open spec fn key_end(s: Seq<char>, i: int) -> int
    decreases s.len() - i,
{
    if i < 0 || i >= s.len() || !is_key_char(s[i]) {
        i
    } else {
        key_end(s, i + 1)
    }
}

/// The contents of a quoted value whose opening quote ends before `i`, and
/// the position after its closing quote; a backslash takes the next
/// character as it is. `None` when the text ends first.
pub open spec fn quoted_rest(s: Seq<char>, i: int) -> Option<(Seq<char>, int)>
    decreases s.len() - i,
{
    if i < 0 || i >= s.len() {
        None
    } else if s[i] == '\'' {
        Some((Seq::<char>::empty(), i + 1))
    } else if s[i] == '\\' {
        if i + 1 >= s.len() {
            None
        } else {
            match quoted_rest(s, i + 2) {
                Some((t, e)) => Some((seq![s[i + 1]] + t, e)),
                None => None,
            }
        }
    } else {
        match quoted_rest(s, i + 1) {
            Some((t, e)) => Some((seq![s[i]] + t, e)),
            None => None,
        }
    }
}

/// Reading the character `c` after whitespace at `i`: the position after it.
pub open spec fn eat_at(s: Seq<char>, i: int, c: char) -> Result<int, DatError> {
    let j = ws_end(s, i);
    if j >= s.len() {
        Err(DatError::ExpectedAtEof(c))
    } else if s[j] != c {
        Err(DatError::Expected { wanted: c, found: s[j] })
    } else {
        Ok(j + 1)
    }
}

/// Whether the next character after whitespace at `i` is `c`.
pub open spec fn peek_at(s: Seq<char>, i: int, c: char) -> bool {
    let j = ws_end(s, i);
    0 <= j < s.len() && s[j] == c
}

/// A key after whitespace at `i`, and the position after it.
pub open spec fn key_at(s: Seq<char>, i: int) -> (Seq<char>, int) {
    let j = ws_end(s, i);
    (s.subrange(j, key_end(s, j)), key_end(s, j))
}

/// A quoted value after whitespace at `i`, and the position after it.
pub open spec fn value_at(s: Seq<char>, i: int) -> Result<(Seq<char>, int), DatError> {
    match eat_at(s, i, '\'') {
        Err(e) => Err(e),
        Ok(j) => match quoted_rest(s, j) {
            Some(r) => Ok(r),
            None => Err(DatError::UnexpectedEof),
        },
    }
}

/// A `key => 'value'` pair at `i`, and the position after it.
pub open spec fn pair_at(s: Seq<char>, i: int) -> Result<((Seq<char>, Seq<char>), int), DatError> {
    let (key, j) = key_at(s, i);
    match eat_at(s, j, '=') {
        Err(e) => Err(e),
        Ok(j1) => match eat_at(s, j1, '>') {
            Err(e) => Err(e),
            Ok(j2) => match value_at(s, j2) {
                Err(e) => Err(e),
                Ok((value, j3)) => Ok(((key, value), j3)),
            },
        },
    }
}

/// The pairs of an object from `i` on, separated by commas, and the position
/// after the last.
pub open spec fn pairs_at(s: Seq<char>, i: int) -> Result<(Seq<(Seq<char>, Seq<char>)>, int), DatError>
    decreases s.len() - i,
{
    match pair_at(s, i) {
        Err(e) => Err(e),
        Ok((p, j)) => if peek_at(s, j, ',') {
            let k = ws_end(s, j) + 1;
            if k <= i || k > s.len() {
                Err(DatError::UnexpectedEof)
            } else {
                match pairs_at(s, k) {
                    Err(e) => Err(e),
                    Ok((rest, e)) => Ok((seq![p] + rest, e)),
                }
            }
        } else {
            Ok((seq![p], j))
        },
    }
}

/// An object `{ pairs },` at `i`, and the position after it.
pub open spec fn object_at(s: Seq<char>, i: int) -> Result<(Seq<(Seq<char>, Seq<char>)>, int), DatError> {
    match eat_at(s, i, '{') {
        Err(e) => Err(e),
        Ok(j) => match pairs_at(s, j) {
            Err(e) => Err(e),
            Ok((pairs, j1)) => match eat_at(s, j1, '}') {
                Err(e) => Err(e),
                Ok(j2) => match eat_at(s, j2, ',') {
                    Err(e) => Err(e),
                    Ok(j3) => Ok((pairs, j3)),
                },
            },
        },
    }
}

/// The objects from `i` up to the closing bracket, and the position after it.
pub open spec fn objects_at(s: Seq<char>, i: int) -> Result<(Seq<Seq<(Seq<char>, Seq<char>)>>, int), DatError>
    decreases s.len() - i,
{
    if peek_at(s, i, ']') {
        Ok((Seq::empty(), ws_end(s, i) + 1))
    } else {
        match object_at(s, i) {
            Err(e) => Err(e),
            Ok((o, j)) => if j <= i || j > s.len() {
                Err(DatError::UnexpectedEof)
            } else {
                match objects_at(s, j) {
                    Err(e) => Err(e),
                    Ok((rest, e)) => Ok((seq![o] + rest, e)),
                }
            },
        }
    }
}

/// A bracketed list of objects at `i`, followed by nothing but whitespace
/// and comments.
pub open spec fn array_at(s: Seq<char>, i: int) -> Result<Seq<Seq<(Seq<char>, Seq<char>)>>, DatError> {
    match eat_at(s, i, '[') {
        Err(e) => Err(e),
        Ok(j) => match objects_at(s, j) {
            Err(e) => Err(e),
            Ok((objects, k)) => if 0 <= ws_end(s, k) < s.len() {
                Err(DatError::TrailingText(s[ws_end(s, k)]))
            } else {
                Ok(objects)
            },
        },
    }
}

/// The objects of a `.dat` text.
pub open spec fn dat_objects(s: Seq<char>) -> Result<Seq<Seq<(Seq<char>, Seq<char>)>>, DatError> {
    array_at(s, 0)
}

/// The position after the first `t` at or after `i`, or the end of the text.
pub open spec fn skip_to_end(s: Seq<char>, i: int, t: char) -> int
    decreases s.len() - i,
{
    if i < 0 || i >= s.len() {
        i
    } else if s[i] == t {
        i + 1
    } else {
        skip_to_end(s, i + 1, t)
    }
}

/// The value that a key has in an object: the last pair with that key wins.
pub open spec fn field_value(pairs: Seq<(Seq<char>, Seq<char>)>, key: Seq<char>) -> Option<Seq<char>>
    decreases pairs.len(),
{
    if pairs.len() == 0 {
        None
    } else if pairs.last().0 == key {
        Some(pairs.last().1)
    } else {
        field_value(pairs.drop_last(), key)
    }
}

/// A list of pairs of strings, as character sequences.
pub open spec fn pairs_view(v: Seq<(String, String)>) -> Seq<(Seq<char>, Seq<char>)> {
    v.map_values(|p: (String, String)| (p.0@, p.1@))
}

/// A list of objects, as sequences of pairs of character sequences.
pub open spec fn objects_view(v: Seq<Vec<(String, String)>>) -> Seq<Seq<(Seq<char>, Seq<char>)>> {
    v.map_values(|o: Vec<(String, String)>| pairs_view(o@))
}

spec fn after_prefix(t: Seq<char>, r: Option<(Seq<char>, int)>) -> Option<(Seq<char>, int)> {
    match r {
        Some((u, e)) => Some((t + u, e)),
        None => None,
    }
}

spec fn pairs_after<A>(t: Seq<A>, r: Result<(Seq<A>, int), DatError>) -> Result<(Seq<A>, int), DatError> {
    match r {
        Ok((u, e)) => Ok((t + u, e)),
        Err(e) => Err(e),
    }
}

proof fn lemma_comment_end(s: Seq<char>, i: int)
    requires
        0 <= i <= s.len(),
    ensures
        skip_ws_from(s, i, true) == skip_ws_from(s, skip_to_end(s, i, '\n'), false),
    decreases s.len() - i,
{
    if i < s.len() && s[i] != '\n' {
        lemma_comment_end(s, i + 1);
    }
}

proof fn lemma_ws_stop(s: Seq<char>, i: int, c: bool)
    requires
        0 <= i <= s.len(),
    ensures
        i <= skip_ws_from(s, i, c) <= s.len(),
        skip_ws_from(s, i, c) < s.len() ==> s[skip_ws_from(s, i, c)] != '#' && !is_ws(
            s[skip_ws_from(s, i, c)],
        ),
    decreases s.len() - i,
{
    if i < s.len() {
        if c {
            lemma_ws_stop(s, i + 1, s[i] != '\n');
        } else if s[i] == '#' {
            lemma_ws_stop(s, i + 1, true);
        } else if is_ws(s[i]) {
            lemma_ws_stop(s, i + 1, false);
        }
    }
}

proof fn lemma_ws_end(s: Seq<char>, i: int)
    requires
        0 <= i <= s.len(),
    ensures
        i <= ws_end(s, i) <= s.len(),
        ws_end(s, ws_end(s, i)) == ws_end(s, i),
{
    lemma_ws_stop(s, i, false);
}

proof fn lemma_skip_to_progress(s: Seq<char>, i: int, t: char)
    requires
        0 <= i <= s.len(),
    ensures
        i <= skip_to_end(s, i, t) <= s.len(),
        i < s.len() ==> i < skip_to_end(s, i, t),
    decreases s.len() - i,
{
    if i < s.len() && s[i] != t {
        lemma_skip_to_progress(s, i + 1, t);
    }
}

/// Whether `c` may stand in a key.
pub fn key_char(c: char) -> (b: bool)
    ensures
        b == is_key_char(c),
{
    ('a' <= c && c <= 'z') || c == '_'
}

/// A reader over the characters of a `.dat` text.
pub struct DatParser {
    s: Vec<char>,
    pos: usize,
}

impl DatParser {
    /// The text being read.
    pub closed spec fn text(&self) -> Seq<char> {
        self.s@
    }

    /// The position of the next character to read.
    pub closed spec fn position(&self) -> int {
        self.pos as int
    }

    /// The position lies within the text.
    pub closed spec fn wf(&self) -> bool {
        self.pos <= self.s.len()
    }

    /// A reader at the start of `s`.
    pub fn new(s: &str) -> (p: DatParser)
        ensures
            p.wf(),
            p.text() == s@,
            p.position() == 0,
    {
        DatParser { s: str_chars(s), pos: 0 }
    }

    /// Reads up to and including the next `target`, or to the end.
    pub fn skip_to(&mut self, target: char)
        requires
            old(self).wf(),
        ensures
            final(self).wf(),
            final(self).text() == old(self).text(),
            final(self).position() == skip_to_end(old(self).text(), old(self).position(), target),
    {
        let ghost s0 = self.s@;
        let ghost p0 = self.pos as int;
        loop
            invariant_except_break
                skip_to_end(s0, self.pos as int, target) == skip_to_end(s0, p0, target),
            invariant
                self.pos <= self.s.len(),
                self.s@ == s0,
            ensures
                self.pos <= self.s.len(),
                self.s@ == s0,
                self.pos == skip_to_end(s0, p0, target),
            decreases self.s.len() - self.pos,
        {
            if self.pos >= self.s.len() {
                break;
            }
            let ch = self.s[self.pos];
            self.pos = self.pos + 1;
            if ch == target {
                break;
            }
        }
    }

    /// Reads whitespace and comments.
    pub fn skip_ws(&mut self)
        requires
            old(self).wf(),
        ensures
            final(self).wf(),
            final(self).text() == old(self).text(),
            final(self).position() == ws_end(old(self).text(), old(self).position()),
    {
        let ghost s0 = self.s@;
        let ghost p0 = self.pos as int;
        loop
            invariant
                self.pos <= self.s.len(),
                self.s@ == s0,
                ws_end(s0, self.pos as int) == ws_end(s0, p0),
            ensures
                self.pos <= self.s.len(),
                self.s@ == s0,
                self.pos == ws_end(s0, p0),
            decreases self.s.len() - self.pos,
        {
            if self.pos >= self.s.len() {
                break;
            }
            let ch = self.s[self.pos];
            if ch == '#' {
                proof {
                    lemma_comment_end(s0, self.pos + 1);
                    lemma_skip_to_progress(s0, self.pos as int, '\n');
                }
                self.skip_to('\n');
            } else if ch == '\n' || ch == ' ' || ch == '\t' {
                self.pos = self.pos + 1;
            } else {
                break;
            }
        }
    }

    /// Whether the next character after whitespace is `target`; the
    /// whitespace is read.
    pub fn peek(&mut self, target: char) -> (r: bool)
        requires
            old(self).wf(),
        ensures
            final(self).wf(),
            final(self).text() == old(self).text(),
            final(self).position() == ws_end(old(self).text(), old(self).position()),
            r == peek_at(old(self).text(), old(self).position(), target),
    {
        self.skip_ws();
        self.pos < self.s.len() && self.s[self.pos] == target
    }

    /// Reads whitespace and then `target`.
    pub fn eat(&mut self, target: char) -> (r: Result<(), DatError>)
        requires
            old(self).wf(),
        ensures
            final(self).wf(),
            final(self).text() == old(self).text(),
            match eat_at(old(self).text(), old(self).position(), target) {
                Ok(j) => r is Ok && final(self).position() == j,
                Err(e) => r == Err::<(), DatError>(e),
            },
            r is Ok ==> final(self).position() > old(self).position(),
    {
        proof {
            lemma_ws_end(self.s@, self.pos as int);
        }
        self.skip_ws();
        if self.pos >= self.s.len() {
            return Err(DatError::ExpectedAtEof(target));
        }
        let ch = self.s[self.pos];
        if ch != target {
            return Err(DatError::Expected { wanted: target, found: ch });
        }
        self.pos = self.pos + 1;
        Ok(())
    }

    /// Reads whitespace and then `target` where it comes next; says whether
    /// it did.
    pub fn try_eat(&mut self, target: char) -> (r: bool)
        requires
            old(self).wf(),
        ensures
            final(self).wf(),
            final(self).text() == old(self).text(),
            r == peek_at(old(self).text(), old(self).position(), target),
            final(self).position() == if r {
                ws_end(old(self).text(), old(self).position()) + 1
            } else {
                ws_end(old(self).text(), old(self).position())
            },
    {
        proof {
            lemma_ws_end(self.s@, self.pos as int);
        }
        if self.peek(target) {
            let _ = self.eat(target);
            true
        } else {
            false
        }
    }

    /// Reads whitespace and comments, and fails if anything follows.
    pub fn eof(&mut self) -> (r: Result<(), DatError>)
        requires
            old(self).wf(),
        ensures
            final(self).wf(),
            final(self).text() == old(self).text(),
            final(self).position() == ws_end(old(self).text(), old(self).position()),
            r == (if 0 <= ws_end(old(self).text(), old(self).position()) < old(self).text().len() {
                Err(DatError::TrailingText(old(self).text()[ws_end(old(self).text(), old(self).position())]))
            } else {
                Ok(())
            }),
    {
        self.skip_ws();
        if self.pos < self.s.len() {
            return Err(DatError::TrailingText(self.s[self.pos]));
        }
        Ok(())
    }

    /// Reads whitespace and then a key: lower-case letters and underscores,
    /// possibly none.
    pub fn parse_ident(&mut self) -> (key: String)
        requires
            old(self).wf(),
        ensures
            final(self).wf(),
            final(self).text() == old(self).text(),
            (key@, final(self).position()) == key_at(old(self).text(), old(self).position()),
            final(self).position() >= old(self).position(),
    {
        proof {
            lemma_ws_end(self.s@, self.pos as int);
        }
        self.skip_ws();
        let ghost s0 = self.s@;
        let ghost start = self.pos as int;
        let mut key = String::new();
        while self.pos < self.s.len() && key_char(self.s[self.pos])
            invariant
                0 <= start <= self.pos <= self.s.len(),
                self.s@ == s0,
                key@ == s0.subrange(start, self.pos as int),
                key_end(s0, self.pos as int) == key_end(s0, start),
            decreases self.s.len() - self.pos,
        {
            let c = self.s[self.pos];
            let ghost before = key@;
            push_char(&mut key, c);
            self.pos = self.pos + 1;
            proof {
                assert(before == s0.subrange(start, self.pos - 1));
                assert(c == s0[self.pos - 1]);
                assert(key@ == before.push(c));
                assert(s0.subrange(start, self.pos as int) =~= before.push(c));
            }
        }
        key
    }

    /// Reads whitespace and then a quoted value.
    pub fn parse_string(&mut self) -> (r: Result<String, DatError>)
        requires
            old(self).wf(),
        ensures
            final(self).wf(),
            final(self).text() == old(self).text(),
            match value_at(old(self).text(), old(self).position()) {
                Ok((v, j)) => r is Ok && r->Ok_0@ == v && final(self).position() == j,
                Err(e) => r == Err::<String, DatError>(e),
            },
            r is Ok ==> final(self).position() > old(self).position(),
    {
        match self.eat('\'') {
            Err(e) => {
                return Err(e);
            },
            Ok(()) => {},
        }
        let ghost s0 = self.s@;
        let ghost start = self.pos as int;
        let mut out = String::new();
        loop
            invariant
                self.pos <= self.s.len(),
                self.s@ == s0,
                old(self).s@ == s0,
                eat_at(s0, old(self).pos as int, '\'') == Ok::<int, DatError>(start),
                old(self).pos < start <= self.pos,
                quoted_rest(s0, start) == after_prefix(out@, quoted_rest(s0, self.pos as int)),
            decreases self.s.len() - self.pos,
        {
            if self.pos >= self.s.len() {
                return Err(DatError::UnexpectedEof);
            }
            let ch = self.s[self.pos];
            let ghost before = out@;
            let ghost p = self.pos as int;
            self.pos = self.pos + 1;
            if ch == '\'' {
                proof {
                    assert(out@ + Seq::<char>::empty() =~= out@);
                }
                return Ok(out);
            }
            if ch == '\\' {
                if self.pos >= self.s.len() {
                    return Err(DatError::UnexpectedEof);
                }
                let next = self.s[self.pos];
                push_char(&mut out, next);
                self.pos = self.pos + 1;
                proof {
                    match quoted_rest(s0, p + 2) {
                        Some((u, e)) => {
                            assert(before + (seq![next] + u) =~= out@ + u);
                        },
                        None => {},
                    }
                }
            } else {
                push_char(&mut out, ch);
                proof {
                    match quoted_rest(s0, p + 1) {
                        Some((u, e)) => {
                            assert(before + (seq![ch] + u) =~= out@ + u);
                        },
                        None => {},
                    }
                }
            }
        }
    }

    /// Reads an object `{ key => 'value', ... },`.
    pub fn parse_object(&mut self) -> (r: Result<Vec<(String, String)>, DatError>)
        requires
            old(self).wf(),
        ensures
            final(self).wf(),
            final(self).text() == old(self).text(),
            match object_at(old(self).text(), old(self).position()) {
                Ok((o, j)) => r is Ok && pairs_view(r->Ok_0@) == o && final(self).position() == j,
                Err(e) => r == Err::<Vec<(String, String)>, DatError>(e),
            },
            r is Ok ==> final(self).position() > old(self).position(),
    {
        let ghost s0 = self.s@;
        let ghost p0 = self.pos as int;
        match self.eat('{') {
            Err(e) => {
                return Err(e);
            },
            Ok(()) => {},
        }
        let ghost start = self.pos as int;
        let ghost mut last: int = start;
        let mut object: Vec<(String, String)> = Vec::new();
        loop
            invariant_except_break
                pairs_at(s0, start) == pairs_after(pairs_view(object@), pairs_at(s0, self.pos as int)),
            invariant
                self.pos <= self.s.len(),
                self.s@ == s0,
                old(self).s@ == s0,
                old(self).pos == p0,
                eat_at(s0, p0, '{') == Ok::<int, DatError>(start),
                p0 < start <= self.pos,
            ensures
                start < last <= s0.len(),
                pairs_at(s0, start) == Ok::<(Seq<(Seq<char>, Seq<char>)>, int), DatError>(
                    (pairs_view(object@), last),
                ),
                self.pos == ws_end(s0, last),
            decreases self.s.len() - self.pos,
        {
            let ghost p = self.pos as int;
            let ghost before = pairs_view(object@);
            proof {
                lemma_ws_end(s0, p);
            }
            let key = self.parse_ident();
            proof {
                lemma_ws_end(s0, self.pos as int);
            }
            match self.eat('=') {
                Err(e) => {
                    return Err(e);
                },
                Ok(()) => {},
            }
            proof {
                lemma_ws_end(s0, self.pos as int);
            }
            match self.eat('>') {
                Err(e) => {
                    return Err(e);
                },
                Ok(()) => {},
            }
            let value = match self.parse_string() {
                Err(e) => {
                    return Err(e);
                },
                Ok(v) => v,
            };
            let ghost pair = (key@, value@);
            object.push((key, value));
            proof {
                last = self.pos as int;
                assert(pairs_view(object@) =~= before.push(pair));
                lemma_ws_end(s0, last);
            }
            if !self.try_eat(',') {
                proof {
                    assert(before + seq![pair] =~= pairs_view(object@));
                }
                break;
            }
            proof {
                match pairs_at(s0, self.pos as int) {
                    Ok((u, e)) => {
                        assert(before + (seq![pair] + u) =~= pairs_view(object@) + u);
                    },
                    Err(e) => {},
                }
            }
        }
        proof {
            lemma_ws_end(s0, last);
        }
        match self.eat('}') {
            Err(e) => {
                return Err(e);
            },
            Ok(()) => {},
        }
        match self.eat(',') {
            Err(e) => {
                return Err(e);
            },
            Ok(()) => {},
        }
        Ok(object)
    }

    /// Reads a bracketed list of objects and then the end of the text.
    pub fn parse_array(&mut self) -> (r: Result<Vec<Vec<(String, String)>>, DatError>)
        requires
            old(self).wf(),
        ensures
            final(self).wf(),
            final(self).text() == old(self).text(),
            match array_at(old(self).text(), old(self).position()) {
                Ok(o) => r is Ok && objects_view(r->Ok_0@) == o,
                Err(e) => r == Err::<Vec<Vec<(String, String)>>, DatError>(e),
            },
    {
        let ghost s0 = self.s@;
        let ghost p0 = self.pos as int;
        match self.eat('[') {
            Err(e) => {
                return Err(e);
            },
            Ok(()) => {},
        }
        let ghost start = self.pos as int;
        let mut objects: Vec<Vec<(String, String)>> = Vec::new();
        loop
            invariant_except_break
                objects_at(s0, start) == pairs_after(objects_view(objects@), objects_at(s0, self.pos as int)),
            invariant
                self.pos <= self.s.len(),
                self.s@ == s0,
                old(self).s@ == s0,
                old(self).pos == p0,
                eat_at(s0, p0, '[') == Ok::<int, DatError>(start),
                p0 < start <= self.pos,
            ensures
                objects_at(s0, start) == Ok::<(Seq<Seq<(Seq<char>, Seq<char>)>>, int), DatError>(
                    (objects_view(objects@), self.pos as int),
                ),
            decreases self.s.len() - self.pos,
        {
            let ghost p = self.pos as int;
            let ghost before = objects_view(objects@);
            proof {
                lemma_ws_end(s0, p);
            }
            if self.try_eat(']') {
                proof {
                    assert(before + Seq::empty() =~= before);
                }
                break;
            }
            let object = match self.parse_object() {
                Err(e) => {
                    return Err(e);
                },
                Ok(o) => o,
            };
            let ghost o = pairs_view(object@);
            objects.push(object);
            proof {
                assert(objects_view(objects@) =~= before.push(o));
                match objects_at(s0, self.pos as int) {
                    Ok((u, e)) => {
                        assert(before + (seq![o] + u) =~= objects_view(objects@) + u);
                    },
                    Err(e) => {},
                }
            }
        }
        match self.eof() {
            Err(e) => {
                return Err(e);
            },
            Ok(()) => {},
        }
        Ok(objects)
    }
}

/// The objects of a `.dat` text, each a list of its `key => 'value'` pairs
/// in order.
pub fn parse_dat(source: &str) -> (r: Result<Vec<Vec<(String, String)>>, DatError>)
    ensures
        match dat_objects(source@) {
            Ok(o) => r is Ok && objects_view(r->Ok_0@) == o,
            Err(e) => r == Err::<Vec<Vec<(String, String)>>, DatError>(e),
        },
{
    let mut parser = DatParser::new(source);
    parser.parse_array()
}

/// The value of `key` in an object: that of its last pair with this key.
pub fn field(object: &Vec<(String, String)>, key: &str) -> (r: Option<String>)
    ensures
        match field_value(pairs_view(object@), key@) {
            Some(v) => r is Some && r->0@ == v,
            None => r is None,
        },
{
    let wanted = string_of(key);
    let mut i = object.len();
    proof {
        assert(pairs_view(object@).take(i as int) =~= pairs_view(object@));
    }
    while i > 0
        invariant
            i <= object.len(),
            wanted@ == key@,
            field_value(pairs_view(object@), key@) == field_value(pairs_view(object@).take(i as int), key@),
        decreases i,
    {
        let ghost prefix = pairs_view(object@).take(i as int);
        proof {
            assert(prefix.drop_last() =~= pairs_view(object@).take(i - 1));
        }
        if object[i - 1].0 == wanted {
            return Some(object[i - 1].1.clone());
        }
        i = i - 1;
    }
    None
}

} // verus!
