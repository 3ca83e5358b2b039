//! Text primitives: what the judge needs from `str`, `String` and integer
//! formatting, stated over character sequences.
use vstd::prelude::*;

verus! {

/// Unicode `White_Space`, the property that `char::is_whitespace` tests.
pub open spec fn is_space(c: char) -> bool {
    let u = c as u32;
    ||| 0x9 <= u <= 0xd
    ||| u == 0x20
    ||| u == 0x85
    ||| u == 0xa0
    ||| u == 0x1680
    ||| 0x2000 <= u <= 0x200a
    ||| u == 0x2028
    ||| u == 0x2029
    ||| u == 0x202f
    ||| u == 0x205f
    ||| u == 0x3000
}

/// `s` without its leading whitespace.
pub open spec fn trim_start_spec(s: Seq<char>) -> Seq<char>
    decreases s.len(),
{
    if s.len() > 0 && is_space(s[0]) {
        trim_start_spec(s.drop_first())
    } else {
        s
    }
}

/// `s` without its trailing whitespace.
pub open spec fn trim_end_spec(s: Seq<char>) -> Seq<char>
    decreases s.len(),
{
    if s.len() > 0 && is_space(s.last()) {
        trim_end_spec(s.drop_last())
    } else {
        s
    }
}

/// `s` without leading and trailing whitespace.
pub open spec fn trim_spec(s: Seq<char>) -> Seq<char> {
    trim_end_spec(trim_start_spec(s))
}

/// `s` without the leading characters equal to `c`.
pub open spec fn strip_leading(s: Seq<char>, c: char) -> Seq<char>
    decreases s.len(),
{
    if s.len() > 0 && s[0] == c {
        strip_leading(s.drop_first(), c)
    } else {
        s
    }
}

/// Index of the first occurrence of `c` in `s`, or `s.len()` when there is none.
pub open spec fn index_of(s: Seq<char>, c: char) -> int
    decreases s.len(),
{
    if s.len() == 0 {
        0
    } else if s[0] == c {
        0
    } else {
        1 + index_of(s.drop_first(), c)
    }
}

/// Index of the first whitespace character of `s`, or `s.len()` when there is none.
pub open spec fn index_of_space(s: Seq<char>) -> int
    decreases s.len(),
{
    if s.len() == 0 {
        0
    } else if is_space(s[0]) {
        0
    } else {
        1 + index_of_space(s.drop_first())
    }
}

pub proof fn lemma_index_of_bounds(s: Seq<char>, c: char)
    ensures
        0 <= index_of(s, c) <= s.len(),
        index_of(s, c) < s.len() ==> s[index_of(s, c)] == c,
        forall|i: int| 0 <= i < index_of(s, c) ==> s[i] != c,
    decreases s.len(),
{
    if s.len() > 0 && s[0] != c {
        lemma_index_of_bounds(s.drop_first(), c);
        assert forall|i: int| 0 <= i < index_of(s, c) implies s[i] != c by {
            if i > 0 {
                assert(s[i] == s.drop_first()[i - 1]);
            }
        }
    }
}

pub proof fn lemma_index_of_space_bounds(s: Seq<char>)
    ensures
        0 <= index_of_space(s) <= s.len(),
        index_of_space(s) < s.len() ==> is_space(s[index_of_space(s)]),
        forall|i: int| 0 <= i < index_of_space(s) ==> !is_space(s[i]),
    decreases s.len(),
{
    if s.len() > 0 && !is_space(s[0]) {
        lemma_index_of_space_bounds(s.drop_first());
        assert forall|i: int| 0 <= i < index_of_space(s) implies !is_space(s[i]) by {
            if i > 0 {
                assert(s[i] == s.drop_first()[i - 1]);
            }
        }
    }
}

pub proof fn lemma_trim_start_len(s: Seq<char>)
    ensures
        trim_start_spec(s).len() <= s.len(),
        trim_start_spec(s).len() > 0 ==> !is_space(trim_start_spec(s)[0]),
        trim_start_spec(s) == s.skip(s.len() - trim_start_spec(s).len()),
    decreases s.len(),
{
    if s.len() > 0 && is_space(s[0]) {
        lemma_trim_start_len(s.drop_first());
        assert(s.drop_first().skip(s.drop_first().len() - trim_start_spec(s).len()) =~= s.skip(
            s.len() - trim_start_spec(s).len(),
        ));
    } else {
        assert(s.skip(0) =~= s);
    }
}

/// The lines of `s` as `str::lines` yields them: split at `'\n'`, a `'\r'`
/// directly before the `'\n'` dropped, and no empty line after a final `'\n'`.
pub open spec fn lines_spec(s: Seq<char>) -> Seq<Seq<char>>
    decreases s.len(),
{
    if s.len() == 0 {
        seq![]
    } else {
        let k = index_of(s, '\n');
        proof {
            lemma_index_of_bounds(s, '\n');
        }
        if k == s.len() {
            seq![s]
        } else {
            let raw = s.take(k);
            let line = if raw.len() > 0 && raw.last() == '\r' {
                raw.drop_last()
            } else {
                raw
            };
            seq![line] + lines_spec(s.skip(k + 1))
        }
    }
}

/// The whitespace-separated words of `s`, as `str::split_whitespace` yields them.
pub open spec fn words_spec(s: Seq<char>) -> Seq<Seq<char>>
    decreases s.len(),
{
    let t = trim_start_spec(s);
    if t.len() == 0 {
        seq![]
    } else {
        let k = index_of_space(t);
        proof {
            lemma_trim_start_len(s);
            lemma_index_of_space_bounds(t);
        }
        seq![t.take(k)] + words_spec(t.skip(k))
    }
}

pub open spec fn is_ascii_digit(c: char) -> bool {
    '0' <= c && c <= '9'
}

pub open spec fn is_ascii_alpha(c: char) -> bool {
    ('a' <= c && c <= 'z') || ('A' <= c && c <= 'Z')
}

pub open spec fn is_ascii_alnum(c: char) -> bool {
    is_ascii_alpha(c) || is_ascii_digit(c)
}

/// The value of a run of decimal digits.
pub open spec fn digits_value(s: Seq<char>) -> int
    decreases s.len(),
{
    if s.len() == 0 {
        0
    } else {
        digits_value(s.drop_last()) * 10 + (s.last() as int - '0' as int)
    }
}

/// What `<u64 as FromStr>::from_str` gives: an optional `'+'` followed by one
/// or more ASCII digits whose value fits in a `u64`; anything else fails.
pub open spec fn parse_u64_spec(s: Seq<char>) -> Option<u64> {
    let body = if s.len() > 0 && s[0] == '+' {
        s.drop_first()
    } else {
        s
    };
    if body.len() > 0 && (forall|i: int| 0 <= i < body.len() ==> is_ascii_digit(#[trigger] body[i]))
        && digits_value(body) <= u64::MAX {
        Some(digits_value(body) as u64)
    } else {
        None
    }
}

/// The decimal digit for `d` (`0 <= d < 10`).
pub open spec fn digit_char(d: int) -> char {
    ('0' as int + d) as char
}

/// The decimal digits of `n`, without leading zeros.
pub open spec fn nat_decimal(n: nat) -> Seq<char>
    decreases n,
{
    if n < 10 {
        seq![digit_char(n as int)]
    } else {
        nat_decimal(n / 10).push(digit_char((n % 10) as int))
    }
}

/// How `Display` writes an integer: a `'-'` before the digits of a negative one.
pub open spec fn int_decimal(n: int) -> Seq<char> {
    if n < 0 {
        seq!['-'] + nat_decimal((-n) as nat)
    } else {
        nat_decimal(n as nat)
    }
}

/// `str::trim`: whitespace is the Unicode `White_Space` property.
#[verifier::external_body]
pub(crate) fn trim(s: &str) -> (r: &str)
    ensures
        r@ == trim_spec(s@),
{
    s.trim()
}

/// `str::trim_start_matches` with a single character.
#[verifier::external_body]
pub(crate) fn trim_start_char(s: &str, c: char) -> (r: &str)
    ensures
        r@ == strip_leading(s@, c),
{
    s.trim_start_matches(c)
}

/// `str::strip_prefix`: the rest of `s` after `prefix`, when `s` starts with it.
#[verifier::external_body]
pub(crate) fn strip_prefix<'a>(s: &'a str, prefix: &str) -> (r: Option<&'a str>)
    ensures
        match r {
            Some(rest) => s@ == prefix@ + rest@,
            None => !prefix@.is_prefix_of(s@),
        },
{
    s.strip_prefix(prefix)
}

/// `str::lines`, each line copied into a `String`.
#[verifier::external_body]
pub(crate) fn lines(s: &str) -> (r: Vec<String>)
    ensures
        r@.len() == lines_spec(s@).len(),
        forall|i: int| 0 <= i < r@.len() ==> (#[trigger] r@[i])@ == lines_spec(s@)[i],
{
    s.lines().map(String::from).collect()
}

/// `str::split_whitespace`, each word copied into a `String`.
#[verifier::external_body]
pub(crate) fn words(s: &str) -> (r: Vec<String>)
    ensures
        r@.len() == words_spec(s@).len(),
        forall|i: int| 0 <= i < r@.len() ==> (#[trigger] r@[i])@ == words_spec(s@)[i],
{
    s.split_whitespace().map(String::from).collect()
}

/// `<u64 as FromStr>::from_str`, with the error dropped.
#[verifier::external_body]
pub(crate) fn parse_u64(s: &str) -> (r: Option<u64>)
    ensures
        r == parse_u64_spec(s@),
{
    s.parse::<u64>().ok()
}

/// `i64::to_string`.
#[verifier::external_body]
pub(crate) fn i64_to_decimal(n: i64) -> (r: String)
    ensures
        r@ == int_decimal(n as int),
{
    n.to_string()
}

/// `usize::to_string`.
#[verifier::external_body]
pub(crate) fn usize_to_decimal(n: usize) -> (r: String)
    ensures
        r@ == int_decimal(n as int),
{
    n.to_string()
}

/// What `String::from_utf8_lossy` makes of `bytes`: their decoding, with
/// each invalid sequence replaced by U+FFFD.
pub uninterp spec fn utf8_lossy_spec(bytes: Seq<u8>) -> Seq<char>;

/// `String::from_utf8_lossy`, as an owned `String`. Of valid UTF-8 it is the
/// plain decoding; of other input this states no more than that the result
/// is determined by the bytes.
#[verifier::external_body]
pub(crate) fn utf8_lossy(bytes: &[u8]) -> (r: String)
    ensures
        r@ == utf8_lossy_spec(bytes@),
        vstd::utf8::valid_utf8(bytes@) ==> r@ == vstd::utf8::decode_utf8(bytes@),
{
    String::from_utf8_lossy(bytes).into_owned()
}

/// `before`, the decimal form of `n`, then `after`.
pub(crate) fn with_number(before: &str, n: i64, after: &str) -> (r: String)
    ensures
        r@ == before@ + int_decimal(n as int) + after@,
{
    let digits = i64_to_decimal(n);
    join3(before, digits.as_str(), after)
}

/// `char::is_alphabetic`: whether `c` has the Unicode `Alphabetic` property.
pub uninterp spec fn unicode_alphabetic(c: char) -> bool;

/// `char::is_alphabetic`. Among ASCII characters the `Alphabetic` ones are
/// exactly the letters; of other characters only the name is stated.
#[verifier::external_body]
pub(crate) fn is_alphabetic(c: char) -> (r: bool)
    ensures
        r == unicode_alphabetic(c),
        (c as u32) < 128 ==> (r <==> is_ascii_alpha(c)),
{
    c.is_alphabetic()
}

/// Whether two string slices hold the same characters.
pub(crate) fn str_eq(a: &str, b: &str) -> (r: bool)
    ensures
        r == (a@ == b@),
{
    let x = a.to_owned();
    let y = b.to_owned();
    x == y
}

/// `s` copied into a new `String`.
pub(crate) fn owned(s: &str) -> (r: String)
    ensures
        r@ == s@,
{
    s.to_owned()
}

/// The concatenation of `a` and `b`.
pub(crate) fn join2(a: &str, b: &str) -> (r: String)
    ensures
        r@ == a@ + b@,
{
    let mut r = a.to_owned();
    r.append(b);
    r
}

/// The concatenation of `a`, `b` and `c`.
pub(crate) fn join3(a: &str, b: &str, c: &str) -> (r: String)
    ensures
        r@ == a@ + b@ + c@,
{
    let mut r = a.to_owned();
    r.append(b);
    r.append(c);
    r
}

/// The concatenation of `a`, `b`, `c` and `d`.
pub(crate) fn join4(a: &str, b: &str, c: &str, d: &str) -> (r: String)
    ensures
        r@ == a@ + b@ + c@ + d@,
{
    let mut r = a.to_owned();
    r.append(b);
    r.append(c);
    r.append(d);
    r
}

} // verus!
