//! Text operations that the catalog builder applies to type names.

use vstd::prelude::*;
use marksman_escape::Escape;
use regex::Regex;
use crate::text::{push_char, push_str_chars, str_chars, string_from_chars, string_of};

verus! {

/// The text that `Regex::replace` gives for `text`: the first match of
/// `pattern` replaced by the expansion of `replacement`.
pub uninterp spec fn regex_replaced(pattern: Seq<char>, text: Seq<char>, replacement: Seq<char>) -> Seq<char>;

/// Whether `Regex::new` accepts `pattern`.
pub uninterp spec fn regex_compiles(pattern: Seq<char>) -> bool;

/// The HTML entity that `marksman_escape::Escape` writes for `c`, or `c`
/// itself where it writes none.
pub open spec fn html_entity(c: char) -> Seq<char> {
    if c == '&' {
        seq!['&', 'a', 'm', 'p', ';']
    } else if c == '>' {
        seq!['&', 'g', 't', ';']
    } else if c == '<' {
        seq!['&', 'l', 't', ';']
    } else if c == '"' {
        seq!['&', '#', '3', '4', ';']
    } else if c == '\'' {
        seq!['&', '#', '3', '9', ';']
    } else if c == '`' {
        seq!['&', '#', '9', '6', ';']
    } else if c == '!' {
        seq!['&', '#', '3', '3', ';']
    } else if c == '$' {
        seq!['&', '#', '3', '6', ';']
    } else if c == '%' {
        seq!['&', '#', '3', '7', ';']
    } else if c == '(' {
        seq!['&', '#', '4', '0', ';']
    } else if c == ')' {
        seq!['&', '#', '4', '1', ';']
    } else if c == '+' {
        seq!['&', '#', '4', '3', ';']
    } else if c == '=' {
        seq!['&', '#', '6', '1', ';']
    } else if c == '@' {
        seq!['&', '#', '6', '4', ';']
    } else if c == '[' {
        seq!['&', '#', '9', '1', ';']
    } else if c == ']' {
        seq!['&', '#', '9', '3', ';']
    } else if c == '{' {
        seq!['&', '#', '1', '2', '3', ';']
    } else if c == '}' {
        seq!['&', '#', '1', '2', '5', ';']
    } else {
        seq![c]
    }
}

/// The text that `marksman_escape::Escape` makes of `text`: each character
/// replaced by its HTML entity.
pub open spec fn html_escaped(text: Seq<char>) -> Seq<char>
    decreases text.len(),
{
    if text.len() == 0 {
        Seq::empty()
    } else {
        html_escaped(text.drop_last()) + html_entity(text.last())
    }
}

/// Calls `regex::Regex::new(pattern)` and, where it accepts the pattern,
/// `Regex::replace(text, replacement)`. The contract names both results and
/// says no more of them: which texts match is the regex crate's matter.
#[verifier::external_body]
pub(crate) fn regex_replace(pattern: &str, text: &str, replacement: &str) -> (r: Option<String>)
    ensures
        match r {
            Some(v) => regex_compiles(pattern@) && v@ == regex_replaced(pattern@, text@, replacement@),
            None => !regex_compiles(pattern@),
        },
{
    match Regex::new(pattern) {
        Ok(re) => Some(re.replace(text, replacement).into_owned()),
        Err(_) => None,
    }
}

/// Calls `marksman_escape::Escape` on the UTF-8 bytes of `text` and reads
/// the escaped bytes back as text. `Escape` replaces each of the ASCII bytes
/// in its table by its entity and passes every other byte through, so the
/// bytes of a character outside ASCII are left as they are and the output
/// stays UTF-8; the lossy reading therefore changes nothing.
#[verifier::external_body]
pub(crate) fn escape_html(text: &str) -> (r: String)
    ensures
        r@ == html_escaped(text@),
{
    let bytes: Vec<u8> = Escape::new(text.bytes()).collect();
    String::from_utf8_lossy(&bytes).into_owned()
}

/// The upper-case form of an ASCII lower-case letter; any other character
/// as it is.
pub open spec fn upper_char(c: char) -> char {
    if 'a' <= c && c <= 'z' {
        ((c as u32) - 32) as char
    } else {
        c
    }
}

/// `s` with its ASCII lower-case letters in upper case.
pub open spec fn ascii_upper(s: Seq<char>) -> Seq<char> {
    s.map_values(|c: char| upper_char(c))
}

/// The upper-case form of an ASCII lower-case letter; any other character
/// as it is.
fn char_upper(c: char) -> (r: char)
    ensures
        r == upper_char(c),
{
    if 'a' <= c && c <= 'z' {
        ((c as u8) - 32) as char
    } else {
        c
    }
}

/// `s` with its ASCII lower-case letters in upper case.
pub fn to_ascii_upper(s: &str) -> (r: String)
    ensures
        r@ == ascii_upper(s@),
{
    let chars = str_chars(s);
    let mut out = String::new();
    let mut i: usize = 0;
    while i < chars.len()
        invariant
            i <= chars.len(),
            chars@ == s@,
            out@ == ascii_upper(s@.take(i as int)),
        decreases chars.len() - i,
    {
        let c = char_upper(chars[i]);
        push_char(&mut out, c);
        proof {
            assert(ascii_upper(s@.take(i + 1)) =~= ascii_upper(s@.take(i as int)).push(c));
        }
        i = i + 1;
    }
    proof {
        assert(s@.take(chars.len() as int) =~= s@);
    }
    out
}

/// The lower-case form of an ASCII upper-case letter; any other character
/// as it is.
pub open spec fn lower_char(c: char) -> char {
    if 'A' <= c && c <= 'Z' {
        ((c as u32) + 32) as char
    } else {
        c
    }
}

/// `s` with its ASCII upper-case letters in lower case.
pub open spec fn ascii_lower(s: Seq<char>) -> Seq<char> {
    s.map_values(|c: char| lower_char(c))
}

/// The lower-case form of an ASCII upper-case letter; any other character
/// as it is.
fn char_lower(c: char) -> (r: char)
    ensures
        r == lower_char(c),
{
    if 'A' <= c && c <= 'Z' {
        ((c as u8) + 32) as char
    } else {
        c
    }
}

/// `s` with its ASCII upper-case letters in lower case.
pub fn to_ascii_lower(s: &str) -> (r: String)
    ensures
        r@ == ascii_lower(s@),
{
    let chars = str_chars(s);
    let mut out = String::new();
    let mut i: usize = 0;
    while i < chars.len()
        invariant
            i <= chars.len(),
            chars@ == s@,
            out@ == ascii_lower(s@.take(i as int)),
        decreases chars.len() - i,
    {
        let c = char_lower(chars[i]);
        push_char(&mut out, c);
        proof {
            assert(ascii_lower(s@.take(i + 1)) =~= ascii_lower(s@.take(i as int)).push(c));
        }
        i = i + 1;
    }
    proof {
        assert(s@.take(chars.len() as int) =~= s@);
    }
    out
}

/// The camel-case form of a snake-case name: underscores dropped, and the
/// first character and each one after an underscore in upper case.
pub open spec fn camel_from(s: Seq<char>, upper: bool) -> Seq<char>
    decreases s.len(),
{
    if s.len() == 0 {
        Seq::empty()
    } else if s[0] == '_' {
        camel_from(s.drop_first(), true)
    } else if upper {
        seq![upper_char(s[0])] + camel_from(s.drop_first(), false)
    } else {
        seq![s[0]] + camel_from(s.drop_first(), false)
    }
}

/// The camel-case form of the snake-case name `s`.
pub open spec fn camel_case(s: Seq<char>) -> Seq<char> {
    camel_from(s, true)
}

proof fn lemma_camel_step(s: Seq<char>, i: int, upper: bool)
    requires
        0 <= i < s.len(),
    ensures
        camel_from(s.skip(i), upper) == (if s[i] == '_' {
            camel_from(s.skip(i + 1), true)
        } else if upper {
            seq![upper_char(s[i])] + camel_from(s.skip(i + 1), false)
        } else {
            seq![s[i]] + camel_from(s.skip(i + 1), false)
        }),
{
    assert(s.skip(i).drop_first() =~= s.skip(i + 1));
    assert(s.skip(i)[0] == s[i]);
}

/// The camel-case form of the snake-case name `s`: `int4_range` becomes
/// `Int4Range`.
pub fn snake_to_camel(s: &str) -> (r: String)
    ensures
        r@ == camel_case(s@),
{
    let chars = str_chars(s);
    let mut out = String::new();
    let mut upper = true;
    let mut i: usize = 0;
    proof {
        assert(s@.skip(0) =~= s@);
    }
    while i < chars.len()
        invariant
            i <= chars.len(),
            chars@ == s@,
            out@ + camel_from(s@.skip(i as int), upper) == camel_case(s@),
        decreases chars.len() - i,
    {
        let ch = chars[i];
        let ghost before = out@;
        proof {
            lemma_camel_step(s@, i as int, upper);
        }
        if ch == '_' {
            upper = true;
        } else {
            let c = if upper {
                upper = false;
                char_upper(ch)
            } else {
                ch
            };
            push_char(&mut out, c);
            proof {
                assert(before + (seq![c] + camel_from(s@.skip(i + 1), false)) =~= out@ + camel_from(
                    s@.skip(i + 1),
                    false,
                ));
            }
        }
        i = i + 1;
    }
    proof {
        assert(s@.skip(chars.len() as int) =~= Seq::<char>::empty());
        assert(out@ + Seq::<char>::empty() =~= out@);
    }
    out
}

/// The text `a` followed by `b`.
pub fn join2(a: &str, b: &str) -> (r: String)
    ensures
        r@ == a@ + b@,
{
    let mut v: Vec<char> = Vec::new();
    push_str_chars(&mut v, a);
    push_str_chars(&mut v, b);
    proof {
        assert(v@ =~= a@ + b@);
    }
    string_from_chars(v.as_slice())
}

/// Whether `s` reads `lit`.
pub fn is_text(s: &String, lit: &str) -> (r: bool)
    ensures
        r == (s@ == lit@),
{
    let t = string_of(lit);
    *s == t
}

} // verus!
