//! Reading one entry of an HDR file's header.
use vstd::prelude::*;
use vstd::string::{StrSliceExecFns, StringExecFns};

verus! {

/// Whether `c` has Unicode's `White_Space` property (PropList.txt): tab to carriage return,
/// space, next line, no-break space, ogham space mark, the spaces from en quad to hair space,
/// line and paragraph separators, narrow no-break space, medium mathematical space and
/// ideographic space.
pub open spec fn unicode_whitespace(c: char) -> bool {
    let u = c as u32;
    ||| 0x09 <= u <= 0x0D
    ||| u == 0x20
    ||| u == 0x85
    ||| u == 0xA0
    ||| u == 0x1680
    ||| 0x2000 <= u <= 0x200A
    ||| u == 0x2028
    ||| u == 0x2029
    ||| u == 0x202F
    ||| u == 0x205F
    ||| u == 0x3000
}

/// Relies on `char::is_whitespace`: whether `c` has the Unicode `White_Space` property.
#[verifier::external_body]
fn is_whitespace(c: char) -> (r: bool)
    ensures
        r == unicode_whitespace(c),
{
    c.is_whitespace()
}

/// The first position at or after `i` that holds no white space, or `s.len()`.
pub open spec fn skip_space(s: Seq<char>, i: int) -> int
    decreases s.len() - i,
{
    if 0 <= i < s.len() && unicode_whitespace(s[i]) {
        skip_space(s, i + 1)
    } else {
        i
    }
}

/// `s` without its leading white space.
pub open spec fn trim_start(s: Seq<char>) -> Seq<char> {
    s.subrange(skip_space(s, 0), s.len() as int)
}

/// The end of `s[..j]` once its trailing white space is dropped.
pub open spec fn back_over_space(s: Seq<char>, j: int) -> int
    decreases j,
{
    if 0 < j <= s.len() && unicode_whitespace(s[j - 1]) {
        back_over_space(s, j - 1)
    } else {
        j
    }
}

/// `s` without leading and trailing white space.
pub open spec fn trim(s: Seq<char>) -> Seq<char> {
    let t = trim_start(s);
    t.subrange(0, back_over_space(t, t.len() as int))
}

/// The position of the first line feed at or after `i`, or `s.len()`.
pub open spec fn line_end(s: Seq<char>, i: int) -> int
    decreases s.len() - i,
{
    if 0 <= i < s.len() && s[i] != '\n' {
        line_end(s, i + 1)
    } else {
        i
    }
}

/// The line that starts at `i`, without its line ending (`\n` or `\r\n`).
pub open spec fn line_at(s: Seq<char>, i: int) -> Seq<char> {
    let e = line_end(s, i);
    if e < s.len() && e > i && s[e - 1] == '\r' {
        s.subrange(i, e - 1)
    } else {
        s.subrange(i, e)
    }
}

pub open spec fn starts_with(s: Seq<char>, prefix: Seq<char>) -> bool {
    prefix.len() <= s.len() && s.subrange(0, prefix.len() as int) == prefix
}

/// The value of the first line from position `i` on that starts with `key` after its leading
/// white space: the rest of that line, trimmed.
pub open spec fn value_from(s: Seq<char>, key: Seq<char>, i: int) -> Option<Seq<char>>
    decreases s.len() - i,
{
    if i < 0 || i >= s.len() {
        None
    } else {
        let t = trim_start(line_at(s, i));
        if starts_with(t, key) {
            Some(trim(t.subrange(key.len() as int, t.len() as int)))
        } else if line_end(s, i) < i || line_end(s, i) >= s.len() {
            None
        } else {
            value_from(s, key, line_end(s, i) + 1)
        }
    }
}

fn first_non_space(s: &str) -> (r: usize)
    ensures
        r == skip_space(s@, 0),
        r <= s@.len(),
{
    let n = s.unicode_len();
    let mut i: usize = 0;
    while i < n && is_whitespace(s.get_char(i))
        invariant
            i <= n == s@.len(),
            skip_space(s@, 0) == skip_space(s@, i as int),
        decreases n - i,
    {
        i = i + 1;
    }
    i
}

fn end_without_space(s: &str) -> (r: usize)
    ensures
        r == back_over_space(s@, s@.len() as int),
        r <= s@.len(),
{
    let n = s.unicode_len();
    let mut j: usize = n;
    while j > 0 && is_whitespace(s.get_char(j - 1))
        invariant
            j <= n == s@.len(),
            back_over_space(s@, n as int) == back_over_space(s@, j as int),
        decreases j,
    {
        j = j - 1;
    }
    j
}

/// `s` without leading and trailing white space.
pub fn trim_text(s: &str) -> (r: String)
    ensures
        r@ == trim(s@),
{
    let a = first_non_space(s);
    let t = s.substring_char(a, s.unicode_len());
    let e = end_without_space(t);
    String::from_str(t.substring_char(0, e))
}

fn line_end_at(s: &str, i: usize) -> (r: usize)
    requires
        i <= s@.len(),
    ensures
        r == line_end(s@, i as int),
        i <= r <= s@.len(),
{
    let n = s.unicode_len();
    let mut e: usize = i;
    while e < n && s.get_char(e) != '\n'
        invariant
            i <= e <= n == s@.len(),
            line_end(s@, i as int) == line_end(s@, e as int),
        decreases n - e,
    {
        e = e + 1;
    }
    e
}

fn has_prefix(s: &str, prefix: &str) -> (r: bool)
    ensures
        r == starts_with(s@, prefix@),
{
    let n = prefix.unicode_len();
    if n > s.unicode_len() {
        return false;
    }
    let mut i: usize = 0;
    while i < n
        invariant
            i <= n == prefix@.len() <= s@.len(),
            forall|j: int| 0 <= j < i ==> s@[j] == prefix@[j],
        decreases n - i,
    {
        if s.get_char(i) != prefix.get_char(i) {
            assert(s@.subrange(0, n as int)[i as int] != prefix@[i as int]);
            return false;
        }
        i = i + 1;
    }
    assert(s@.subrange(0, n as int) =~= prefix@);
    true
}

/// The value of the header entry `key` (of the form `"KEY="`) in the text of a header: the
/// rest of the first line that starts with `key` once its leading white space is dropped,
/// trimmed.
pub fn header_value(header: &str, key: &str) -> (r: Option<String>)
    ensures
        match r {
            Some(v) => value_from(header@, key@, 0) == Some(v@),
            None => value_from(header@, key@, 0) is None,
        },
{
    let n = header.unicode_len();
    let mut i: usize = 0;
    while i < n
        invariant
            i <= n == header@.len(),
            value_from(header@, key@, 0) == value_from(header@, key@, i as int),
        decreases n - i,
    {
        let e = line_end_at(header, i);
        let stop = if e < n && e > i && header.get_char(e - 1) == '\r' {
            e - 1
        } else {
            e
        };
        let line = header.substring_char(i, stop);
        assert(line@ == line_at(header@, i as int));
        let a = first_non_space(line);
        let t = line.substring_char(a, line.unicode_len());
        assert(t@ == trim_start(line_at(header@, i as int)));
        if has_prefix(t, key) {
            let rest = t.substring_char(key.unicode_len(), t.unicode_len());
            return Some(trim_text(rest));
        }
        if e >= n {
            return None;
        }
        i = e + 1;
    }
    None
}

} // verus!
