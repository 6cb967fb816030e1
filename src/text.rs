//! Text and path helpers: file stems, decimal numbers, and what `std::path` gives.
use vstd::prelude::*;
use vstd::string::StrSliceExecFns;
use vstd::string::StringExecFns;

verus! {

/// The characters that separate path components on any host.
pub open spec fn is_path_sep(c: char) -> bool {
    c == '/' || c == '\\'
}

/// Index of the last `.` that no separator follows, scanning `s[..k]` from the end;
/// -1 when a separator (or the start) is reached first.
pub open spec fn last_dot(s: Seq<char>, k: int) -> int
    decreases k,
{
    if k <= 0 {
        -1
    } else if s[k - 1] == '.' {
        k - 1
    } else if is_path_sep(s[k - 1]) {
        -1
    } else {
        last_dot(s, k - 1)
    }
}

/// Index of the last separator in `s[..k]`, or -1.
pub open spec fn last_sep(s: Seq<char>, k: int) -> int
    decreases k,
{
    if k <= 0 {
        -1
    } else if is_path_sep(s[k - 1]) {
        k - 1
    } else {
        last_sep(s, k - 1)
    }
}

/// The file name of a path without its last extension: the characters between the last
/// separator and the last dot of the final component. Empty when that component has no dot.
pub open spec fn file_stem(s: Seq<char>) -> Seq<char> {
    let d = last_dot(s, s.len() as int);
    if d < 0 {
        Seq::empty()
    } else {
        s.subrange(last_sep(s, d) + 1, d)
    }
}

/// File name of `path` without its extension ("dir/IMG_01.CR2" gives "IMG_01").
pub fn get_file_name(path: &str) -> (name: String)
    ensures
        name@ == file_stem(path@),
{
    let n = path.unicode_len();
    let mut k: usize = n;
    let mut dot: Option<usize> = None;
    let mut blocked = false;
    while k > 0 && dot.is_none() && !blocked
        invariant
            k <= n == path@.len(),
            dot is None && !blocked ==> last_dot(path@, n as int) == last_dot(path@, k as int),
            dot matches Some(d) ==> last_dot(path@, n as int) == d && d < n,
            blocked ==> dot is None && last_dot(path@, n as int) == -1,
        decreases k + (if dot is None && !blocked { 1int } else { 0int }),
    {
        let c = path.get_char(k - 1);
        if c == '.' {
            dot = Some(k - 1);
        } else if c == '/' || c == '\\' {
            blocked = true;
        } else {
            k = k - 1;
        }
    }
    match dot {
        None => String::new(),
        Some(d) => {
            let mut j: usize = d;
            let mut hit = false;
            while j > 0 && !hit
                invariant
                    j <= d < n == path@.len(),
                    !hit ==> last_sep(path@, d as int) == last_sep(path@, j as int),
                    hit ==> j > 0 && last_sep(path@, d as int) == j - 1,
                decreases j + (if hit { 0int } else { 1int }),
            {
                let c = path.get_char(j - 1);
                if c == '/' || c == '\\' {
                    hit = true;
                } else {
                    j = j - 1;
                }
            }
            let from = if hit {
                j
            } else {
                0
            };
            assert(last_sep(path@, d as int) + 1 == from);
            let stem = path.substring_char(from, d);
            String::from_str(stem)
        },
    }
}

/// Text of one decimal digit.
pub open spec fn digit_text(d: int) -> Seq<char> {
    if d == 0 {
        "0"@
    } else if d == 1 {
        "1"@
    } else if d == 2 {
        "2"@
    } else if d == 3 {
        "3"@
    } else if d == 4 {
        "4"@
    } else if d == 5 {
        "5"@
    } else if d == 6 {
        "6"@
    } else if d == 7 {
        "7"@
    } else if d == 8 {
        "8"@
    } else {
        "9"@
    }
}

/// Decimal notation of `n`, without leading zeros.
pub open spec fn decimal(n: nat) -> Seq<char>
    decreases n,
{
    if n < 10 {
        digit_text(n as int)
    } else {
        decimal(n / 10) + digit_text((n % 10) as int)
    }
}

fn digit_str(d: u64) -> (r: &'static str)
    requires
        d < 10,
    ensures
        r@ == digit_text(d as int),
{
    if d == 0 {
        "0"
    } else if d == 1 {
        "1"
    } else if d == 2 {
        "2"
    } else if d == 3 {
        "3"
    } else if d == 4 {
        "4"
    } else if d == 5 {
        "5"
    } else if d == 6 {
        "6"
    } else if d == 7 {
        "7"
    } else if d == 8 {
        "8"
    } else {
        "9"
    }
}

/// Decimal notation of `n`.
pub fn decimal_text(n: u64) -> (r: String)
    ensures
        r@ == decimal(n as nat),
    decreases n,
{
    if n < 10 {
        String::from_str(digit_str(n))
    } else {
        let mut s = decimal_text(n / 10);
        s.append(digit_str(n % 10));
        s
    }
}

/// Whether `s` holds no character.
pub fn is_empty_text(s: &str) -> (r: bool)
    ensures
        r == (s@.len() == 0),
{
    s.unicode_len() == 0
}

/// `a` followed by `b`.
pub fn concat(a: &str, b: &str) -> (r: String)
    ensures
        r@ == a@ + b@,
{
    let mut s = String::from_str(a);
    s.append(b);
    s
}

/// `a`, `b` and `c` in a row.
pub fn concat3(a: &str, b: &str, c: &str) -> (r: String)
    ensures
        r@ == a@ + b@ + c@,
{
    let mut s = String::from_str(a);
    s.append(b);
    s.append(c);
    s
}

pub open spec fn is_digit(c: char) -> bool {
    '0' <= c <= '9'
}

pub open spec fn digit_value(c: char) -> int {
    c as int - '0' as int
}

/// Value of a string of decimal digits.
pub open spec fn digits_value(s: Seq<char>) -> int
    decreases s.len(),
{
    if s.len() == 0 {
        0
    } else {
        digits_value(s.drop_last()) * 10 + digit_value(s.last())
    }
}

pub open spec fn all_digits(s: Seq<char>) -> bool {
    forall|i: int| 0 <= i < s.len() ==> is_digit(#[trigger] s[i])
}

/// The digits of an unsigned decimal numeral, which may carry a leading `+`.
pub open spec fn numeral_digits(s: Seq<char>) -> Seq<char> {
    if s.len() > 0 && s[0] == '+' {
        s.subrange(1, s.len() as int)
    } else {
        s
    }
}

/// The value of `s` read as an unsigned 32-bit decimal number, if it is one.
pub open spec fn parsed_u32(s: Seq<char>) -> Option<u32> {
    let d = numeral_digits(s);
    if d.len() > 0 && all_digits(d) && digits_value(d) <= u32::MAX {
        Some(digits_value(d) as u32)
    } else {
        None
    }
}

proof fn lemma_digits_value_nonneg(s: Seq<char>)
    requires
        all_digits(s),
    ensures
        digits_value(s) >= 0,
    decreases s.len(),
{
    if s.len() > 0 {
        assert(all_digits(s.drop_last())) by {
            assert forall|i: int| 0 <= i < s.drop_last().len() implies is_digit(
                #[trigger] s.drop_last()[i],
            ) by {
                assert(s.drop_last()[i] == s[i]);
            }
        }
        lemma_digits_value_nonneg(s.drop_last());
        assert(is_digit(s[s.len() - 1]));
    }
}

/// Reads `s` as an unsigned decimal number (digits, optionally after a `+`).
pub fn parse_u32(s: &str) -> (r: Option<u32>)
    ensures
        r == parsed_u32(s@),
{
    let n = s.unicode_len();
    let mut i: usize = 0;
    if n > 0 && s.get_char(0) == '+' {
        i = 1;
    }
    let start = i;
    let ghost d = numeral_digits(s@);
    assert(d =~= s@.subrange(start as int, n as int));
    if start == n {
        return None;
    }
    let mut value: u64 = 0;
    while i < n
        invariant
            start <= i <= n == s@.len(),
            start < n,
            d == numeral_digits(s@),
            d == s@.subrange(start as int, n as int),
            all_digits(s@.subrange(start as int, i as int)),
            value == digits_value(s@.subrange(start as int, i as int)),
            value <= u32::MAX,
        decreases n - i,
    {
        let c = s.get_char(i);
        if !('0' <= c && c <= '9') {
            assert(!all_digits(d)) by {
                assert(d[i - start] == c);
                assert(!is_digit(d[i - start]));
            }
            return None;
        }
        let ghost prev = s@.subrange(start as int, i as int);
        let ghost next = s@.subrange(start as int, i + 1);
        assert(next.drop_last() =~= prev);
        assert(next.last() == c);
        let dv = (c as u32 - '0' as u32) as u64;
        value = value * 10 + dv;
        assert(all_digits(next)) by {
            assert forall|j: int| 0 <= j < next.len() implies is_digit(#[trigger] next[j]) by {
                if j < prev.len() {
                    assert(next[j] == prev[j]);
                }
            }
        }
        if value > 0xffff_ffff {
            assert(parsed_u32(s@) is None) by {
                if all_digits(d) {
                    assert(d.subrange(0, i + 1 - start) =~= next);
                    lemma_prefix_value_bound(d, (i + 1 - start) as int);
                }
            }
            return None;
        }
        i = i + 1;
    }
    assert(s@.subrange(start as int, n as int) =~= d);
    Some(value as u32)
}

/// The value of a digit string is at least the value of any of its prefixes.
proof fn lemma_prefix_value_bound(s: Seq<char>, k: int)
    requires
        0 <= k <= s.len(),
        all_digits(s),
    ensures
        digits_value(s.subrange(0, k)) <= digits_value(s),
    decreases s.len() - k,
{
    if k < s.len() {
        let t = s.subrange(0, k + 1);
        assert(t.drop_last() =~= s.subrange(0, k));
        assert(all_digits(t.drop_last())) by {
            assert forall|i: int| 0 <= i < t.drop_last().len() implies is_digit(
                #[trigger] t.drop_last()[i],
            ) by {
                assert(t.drop_last()[i] == s[i]);
            }
        }
        lemma_digits_value_nonneg(t.drop_last());
        assert(is_digit(s[k]));
        assert(t.last() == s[k]);
        lemma_prefix_value_bound(s, k + 1);
    } else {
        assert(s.subrange(0, k) =~= s);
    }
}

/// What `Path::join` gives for a directory and a relative name, as text.
pub uninterp spec fn joined_path(dir: Seq<char>, name: Seq<char>) -> Seq<char>;

/// What `Path::file_name` gives for a path, as text (empty when there is none).
pub uninterp spec fn path_file_name(path: Seq<char>) -> Seq<char>;

/// What `Path::extension` gives for a path, as text (empty when there is none).
pub uninterp spec fn path_extension(path: Seq<char>) -> Seq<char>;

/// Relies on `std::path::Path::join`: appends `name` to `dir` with the host's separator.
#[verifier::external_body]
pub(crate) fn join_path(dir: &str, name: &str) -> (r: String)
    ensures
        r@ == joined_path(dir@, name@),
{
    std::path::Path::new(dir).join(name).display().to_string()
}

/// Relies on `std::path::Path::file_name`: the final component of `path`, or empty.
#[verifier::external_body]
pub(crate) fn file_name_of(path: &str) -> (r: String)
    ensures
        r@ == path_file_name(path@),
{
    std::path::Path::new(path).file_name().unwrap_or_default().to_string_lossy().to_string()
}

/// Relies on `std::path::Path::extension`: the text after the last dot of the final
/// component, or empty.
#[verifier::external_body]
pub(crate) fn extension_of(path: &str) -> (r: String)
    ensures
        r@ == path_extension(path@),
{
    std::path::Path::new(path).extension().unwrap_or_default().to_string_lossy().to_string()
}

/// Relies on `std::path::MAIN_SEPARATOR`: `\` on Windows, `/` elsewhere.
#[verifier::external_body]
fn main_separator() -> (c: char)
    ensures
        c == '/' || c == '\\',
{
    std::path::MAIN_SEPARATOR
}

/// Separator of the entries of a search path (`PATH`) on a host whose path components
/// are separated by `main_separator`.
pub fn search_path_separator(main_separator: char) -> (r: &'static str)
    ensures
        r@ == (if main_separator == '\\' { ";"@ } else { ":"@ }),
{
    if main_separator == '\\' {
        ";"
    } else {
        ":"
    }
}

/// Separator of the entries of the `PATH` variable on this host: `;` on Windows, `:` elsewhere.
pub fn path_separator() -> (r: &'static str)
    ensures
        r@ == ";"@ || r@ == ":"@,
{
    search_path_separator(main_separator())
}

} // verus!
