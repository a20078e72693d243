//! Text helpers: the std string operations the library relies on, and
//! verified formatting of numbers, lists and truncated strings.

use vstd::prelude::*;
use vstd::string::*;
use vstd::utf8::{encode_scalar, encode_utf8};

verus! {

/// Whether `needle` occurs as a contiguous run of characters in `hay`.
pub open spec fn is_infix(needle: Seq<char>, hay: Seq<char>) -> bool {
    exists|i: int|
        0 <= i && i + needle.len() <= hay.len() && #[trigger] hay.subrange(i, i + needle.len())
            == needle
}

/// The lowercase form of a string, as std's Unicode case mapping gives it.
pub uninterp spec fn lower_of(s: Seq<char>) -> Seq<char>;

/// Whether `c` has the Unicode White_Space property, the test of
/// `char::is_whitespace`.
pub open spec fn is_white_space(c: char) -> bool {
    let u = c as u32;
    (0x9 <= u && u <= 0xd) || u == 0x20 || u == 0x85 || u == 0xa0 || u == 0x1680 || (0x2000 <= u
        && u <= 0x200a) || u == 0x2028 || u == 0x2029 || u == 0x202f || u == 0x205f || u == 0x3000
}

/// A string without its leading whitespace.
pub open spec fn trim_start_of(s: Seq<char>) -> Seq<char>
    decreases s.len(),
{
    if s.len() > 0 && is_white_space(s[0]) {
        trim_start_of(s.drop_first())
    } else {
        s
    }
}

/// A string without its trailing whitespace.
pub open spec fn trim_end_of(s: Seq<char>) -> Seq<char>
    decreases s.len(),
{
    if s.len() > 0 && is_white_space(s.last()) {
        trim_end_of(s.drop_last())
    } else {
        s
    }
}

/// A string without its leading and trailing whitespace.
pub open spec fn trim_of(s: Seq<char>) -> Seq<char> {
    trim_end_of(trim_start_of(s))
}

/// The pieces of `s` between occurrences of `sep`, in order; a string with
/// `k` separators has `k + 1` pieces.
pub open spec fn split_on(s: Seq<char>, sep: char) -> Seq<Seq<char>>
    decreases s.len(),
{
    if s.len() == 0 {
        seq![Seq::<char>::empty()]
    } else {
        let rest = split_on(s.drop_last(), sep);
        if s.last() == sep {
            rest.push(Seq::<char>::empty())
        } else {
            rest.update(rest.len() - 1, rest.last().push(s.last()))
        }
    }
}

/// `parts` joined with `sep` between neighbours.
pub open spec fn join_with(parts: Seq<Seq<char>>, sep: Seq<char>) -> Seq<char>
    decreases parts.len(),
{
    if parts.len() == 0 {
        Seq::<char>::empty()
    } else if parts.len() == 1 {
        parts[0]
    } else {
        join_with(parts.drop_last(), sep) + sep + parts.last()
    }
}

/// The decimal digit for `d < 10`.
pub open spec fn digit_char(d: nat) -> char {
    if d == 0 {
        '0'
    } else if d == 1 {
        '1'
    } else if d == 2 {
        '2'
    } else if d == 3 {
        '3'
    } else if d == 4 {
        '4'
    } else if d == 5 {
        '5'
    } else if d == 6 {
        '6'
    } else if d == 7 {
        '7'
    } else if d == 8 {
        '8'
    } else {
        '9'
    }
}

/// The decimal digits of `n`, without leading zeros.
pub open spec fn decimal(n: nat) -> Seq<char>
    decreases n,
{
    if n < 10 {
        seq![digit_char(n)]
    } else {
        decimal(n / 10).push(digit_char(n % 10))
    }
}

/// The decimal form of an integer, with a leading `-` when it is negative.
pub open spec fn signed_decimal(n: int) -> Seq<char> {
    if n < 0 {
        seq!['-'] + decimal((-n) as nat)
    } else {
        decimal(n as nat)
    }
}

/// The number of leading characters of `s` whose UTF-8 encoding fits in
/// `budget` bytes.
pub open spec fn chars_within(s: Seq<char>, budget: int) -> nat
    decreases s.len(),
{
    if s.len() == 0 || encode_scalar(s[0] as u32).len() > budget {
        0
    } else {
        1 + chars_within(s.drop_first(), budget - encode_scalar(s[0] as u32).len())
    }
}

/// `s` cut to at most `max_len` bytes of UTF-8: kept whole when it fits,
/// else its first `max_len - 3` bytes (none when `max_len < 3`) followed by
/// `...`. Where that byte count ends inside a character, the cut falls at
/// the character boundary just below it.
pub open spec fn truncated(s: Seq<char>, max_len: nat) -> Seq<char> {
    if encode_utf8(s).len() <= max_len {
        s
    } else {
        let keep = if max_len >= 3 {
            (max_len - 3) as int
        } else {
            0
        };
        s.subrange(0, chars_within(s, keep) as int) + seq!['.', '.', '.']
    }
}

/// Relies on str::to_lowercase: the result depends on the characters alone,
/// and the empty string stays empty.
#[verifier::external_body]
pub(crate) fn lowercase(s: &str) -> (r: String)
    ensures
        r@ == lower_of(s@),
        s@.len() == 0 ==> r@.len() == 0,
{
    s.to_lowercase()
}

/// Relies on str::contains with a string pattern: whether the pattern occurs
/// as a substring.
#[verifier::external_body]
pub(crate) fn contains(hay: &str, needle: &str) -> (r: bool)
    ensures
        r == is_infix(needle@, hay@),
{
    hay.contains(needle)
}

/// Relies on str::trim: leading and trailing characters for which
/// `char::is_whitespace` holds (Unicode White_Space) removed.
#[verifier::external_body]
pub(crate) fn trim(s: &str) -> (r: &str)
    ensures
        r@ == trim_of(s@),
{
    s.trim()
}

/// Relies on str::split with a char pattern: the pieces between the
/// separators, in order, the empty ones included.
#[verifier::external_body]
pub(crate) fn split_commas(s: &str) -> (r: Vec<String>)
    ensures
        r.deep_view() == split_on(s@, ','),
{
    s.split(',').map(String::from).collect()
}

/// Relies on String::push: appends one character.
#[verifier::external_body]
pub(crate) fn push_char(s: &mut String, c: char)
    ensures
        final(s)@ == old(s)@.push(c),
{
    s.push(c)
}

/// The character of the digit `d`.
pub fn digit(d: u64) -> (c: char)
    requires
        d < 10,
    ensures
        c == digit_char(d as nat),
{
    if d == 0 {
        '0'
    } else if d == 1 {
        '1'
    } else if d == 2 {
        '2'
    } else if d == 3 {
        '3'
    } else if d == 4 {
        '4'
    } else if d == 5 {
        '5'
    } else if d == 6 {
        '6'
    } else if d == 7 {
        '7'
    } else if d == 8 {
        '8'
    } else {
        '9'
    }
}

/// The decimal form of `n`.
pub fn decimal_text(n: u64) -> (r: String)
    ensures
        r@ == decimal(n as nat),
    decreases n,
{
    if n < 10 {
        let mut s = String::new();
        push_char(&mut s, digit(n));
        s
    } else {
        let mut s = decimal_text(n / 10);
        push_char(&mut s, digit(n % 10));
        s
    }
}

/// The decimal form of `n`, signed.
pub fn signed_decimal_text(n: i32) -> (r: String)
    ensures
        r@ == signed_decimal(n as int),
{
    if n < 0 {
        let mut s = String::from_str("-");
        let digits = decimal_text((-(n as i64)) as u64);
        s.append(digits.as_str());
        proof {
            reveal_strlit("-");
        }
        s
    } else {
        decimal_text(n as u64)
    }
}

/// `parts` joined with `sep` between neighbours.
pub fn join(parts: &Vec<String>, sep: &str) -> (r: String)
    ensures
        r@ == join_with(parts.deep_view(), sep@),
{
    let mut out = String::new();
    let mut i: usize = 0;
    while i < parts.len()
        invariant
            i <= parts.len(),
            out@ == join_with(parts.deep_view().subrange(0, i as int), sep@),
        decreases parts.len() - i,
    {
        let ghost before = parts.deep_view().subrange(0, i as int);
        if i > 0 {
            out.append(sep);
        }
        out.append(parts[i].as_str());
        proof {
            let after = parts.deep_view().subrange(0, i + 1);
            assert(after.drop_last() =~= before);
            if i == 0 {
                assert(out@ =~= after[0]);
            }
        }
        i = i + 1;
    }
    proof {
        assert(parts.deep_view().subrange(0, parts.len() as int) =~= parts.deep_view());
    }
    out
}

/// Whether two strings hold the same characters.
pub fn same_text(a: &str, b: &str) -> (r: bool)
    ensures
        r == (a@ == b@),
{
    let n = a.unicode_len();
    if n != b.unicode_len() {
        return false;
    }
    let mut i: usize = 0;
    while i < n
        invariant
            n == a@.len(),
            n == b@.len(),
            i <= n,
            forall|j: int| 0 <= j < i ==> a@[j] == b@[j],
        decreases n - i,
    {
        if a.get_char(i) != b.get_char(i) {
            return false;
        }
        i = i + 1;
    }
    proof {
        assert(a@ =~= b@);
    }
    true
}

} // verus!
