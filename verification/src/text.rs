//! Text helpers over character sequences: substring search and decimal digits.

use vstd::prelude::*;
use vstd::string::{StrSliceExecFns, StringExecFns};

verus! {

/// `needle` occurs in `hay` at offset `at`.
pub open spec fn occurs_at(hay: Seq<char>, needle: Seq<char>, at: int) -> bool {
    &&& 0 <= at
    &&& at + needle.len() <= hay.len()
    &&& hay.subrange(at, at + needle.len()) == needle
}

/// `needle` occurs somewhere in `hay` as a contiguous run of characters.
pub open spec fn is_substring(hay: Seq<char>, needle: Seq<char>) -> bool {
    exists|at: int| occurs_at(hay, needle, at)
}

/// The characters of a string slice, in order.
pub fn to_chars(s: &str) -> (v: Vec<char>)
    ensures
        v@ == s@,
{
    let mut v: Vec<char> = Vec::new();
    for c in it: s.chars()
        invariant
            it.seq() == s@,
            v@ == it.seq().take(it.index() as int),
    {
        v.push(c);
        assert(v@ =~= it.seq().take(it.index() + 1));
    }
    assert(v@ =~= s@);
    v
}

/// Whether `needle` stands in `hay` at offset `at`.
fn matches_at(hay: &Vec<char>, needle: &Vec<char>, at: usize) -> (found: bool)
    requires
        at + needle.len() <= hay.len(),
    ensures
        found == occurs_at(hay@, needle@, at as int),
{
    let mut j: usize = 0;
    while j < needle.len()
        invariant
            j <= needle.len(),
            at + needle.len() <= hay.len(),
            forall|k: int| 0 <= k < j ==> hay@[at + k] == needle@[k],
        decreases needle.len() - j,
    {
        if hay[at + j] != needle[j] {
            assert(hay@.subrange(at as int, at + needle.len())[j as int] == hay@[at + j]);
            return false;
        }
        j += 1;
    }
    assert(hay@.subrange(at as int, at + needle.len()) =~= needle@);
    true
}

/// Substring search over characters.
pub fn contains_chars(hay: &Vec<char>, needle: &Vec<char>) -> (found: bool)
    ensures
        found == is_substring(hay@, needle@),
{
    if needle.len() > hay.len() {
        return false;
    }
    let last: usize = hay.len() - needle.len();
    let mut at: usize = 0;
    loop
        invariant
            at <= last,
            last + needle.len() == hay.len(),
            forall|k: int| 0 <= k < at ==> !occurs_at(hay@, needle@, k),
        decreases last - at,
    {
        if matches_at(hay, needle, at) {
            return true;
        }
        if at == last {
            return false;
        }
        at += 1;
    }
}

/// Whether `needle` occurs in `hay`, as `str::contains` decides it for a string pattern.
pub fn contains(hay: &str, needle: &str) -> (found: bool)
    ensures
        found == is_substring(hay@, needle@),
{
    let hay_chars = to_chars(hay);
    let needle_chars = to_chars(needle);
    contains_chars(&hay_chars, &needle_chars)
}

/// Whether two string slices hold the same characters.
pub fn str_equals(a: &str, b: &str) -> (same: bool)
    ensures
        same == (a@ == b@),
{
    a.to_owned() == b.to_owned()
}

/// The character of a decimal digit.
pub open spec fn digit_char(d: int) -> char {
    if d == 0 {
        '0'
    } else if d == 1 {
        '1'
    } else if d == 2 {
        '2'
    } else if d == 3 {
        '3'
    } else if d == 4 {
        '4'
    } else if d == 5 {
        '5'
    } else if d == 6 {
        '6'
    } else if d == 7 {
        '7'
    } else if d == 8 {
        '8'
    } else {
        '9'
    }
}

/// Whether `c` is one of the ten decimal digits.
pub open spec fn is_digit(c: char) -> bool {
    exists|d: int| 0 <= d < 10 && c == digit_char(d)
}

/// The value of a decimal digit; 0 for any other character.
pub open spec fn digit_value(c: char) -> int {
    if c == '1' {
        1
    } else if c == '2' {
        2
    } else if c == '3' {
        3
    } else if c == '4' {
        4
    } else if c == '5' {
        5
    } else if c == '6' {
        6
    } else if c == '7' {
        7
    } else if c == '8' {
        8
    } else if c == '9' {
        9
    } else {
        0
    }
}

/// The decimal numeral of `n`, without leading zeros.
pub open spec fn decimal(n: nat) -> Seq<char>
    decreases n,
{
    if n < 10 {
        seq![digit_char(n as int)]
    } else {
        decimal(n / 10).push(digit_char((n % 10) as int))
    }
}

/// Every character of `s` is a decimal digit.
pub open spec fn all_digits(s: Seq<char>) -> bool {
    forall|i: int| 0 <= i < s.len() ==> is_digit(#[trigger] s[i])
}

/// The number that a run of decimal digits denotes.
pub open spec fn digits_value(s: Seq<char>) -> nat
    decreases s.len(),
{
    if s.len() == 0 {
        0
    } else {
        (digits_value(s.drop_last()) * 10 + digit_value(s.last())) as nat
    }
}

/// The text behind an optional leading `+`.
pub open spec fn unsigned_body(s: Seq<char>) -> Seq<char> {
    if s.len() > 0 && s[0] == '+' {
        s.drop_first()
    } else {
        s
    }
}

/// What a text denotes as a 16-bit unsigned number: an optional `+`, then at least
/// one decimal digit and nothing else, of a value within range.
pub open spec fn parsed_u16(s: Seq<char>) -> Option<u16> {
    let digits = unsigned_body(s);
    if digits.len() > 0 && all_digits(digits) && digits_value(digits) <= u16::MAX {
        Some(digits_value(digits) as u16)
    } else {
        None
    }
}

/// The one-character text of a decimal digit.
fn digit_text(d: u64) -> (text: &'static str)
    requires
        d < 10,
    ensures
        text@ == seq![digit_char(d as int)],
{
    let text = if d == 0 {
        proof { reveal_strlit("0"); }
        "0"
    } else if d == 1 {
        proof { reveal_strlit("1"); }
        "1"
    } else if d == 2 {
        proof { reveal_strlit("2"); }
        "2"
    } else if d == 3 {
        proof { reveal_strlit("3"); }
        "3"
    } else if d == 4 {
        proof { reveal_strlit("4"); }
        "4"
    } else if d == 5 {
        proof { reveal_strlit("5"); }
        "5"
    } else if d == 6 {
        proof { reveal_strlit("6"); }
        "6"
    } else if d == 7 {
        proof { reveal_strlit("7"); }
        "7"
    } else if d == 8 {
        proof { reveal_strlit("8"); }
        "8"
    } else {
        proof { reveal_strlit("9"); }
        "9"
    };
    assert(text@ =~= seq![digit_char(d as int)]);
    text
}

/// The decimal numeral of `n`, as `to_string` writes an unsigned integer.
pub fn u64_to_string(n: u64) -> (text: String)
    ensures
        text@ == decimal(n as nat),
{
    let mut text = digit_text(n % 10).to_owned();
    let mut rest: u64 = n / 10;
    while rest > 0
        invariant
            rest == 0 ==> text@ == decimal(n as nat),
            rest > 0 ==> decimal(rest as nat) + text@ == decimal(n as nat),
        decreases rest,
    {
        let ghost tail = text@;
        text = digit_text(rest % 10).to_owned().concat(text.as_str());
        proof {
            let head = seq![digit_char((rest % 10) as int)];
            if rest >= 10 {
                assert(decimal((rest / 10) as nat) + (head + tail) =~= decimal(
                    (rest / 10) as nat,
                ).push(digit_char((rest % 10) as int)) + tail);
            }
        }
        rest = rest / 10;
    }
    text
}

/// The value of `c` where it is a decimal digit.
fn digit_of(c: char) -> (d: Option<u32>)
    ensures
        d matches Some(v) ==> is_digit(c) && v == digit_value(c) && v < 10,
        d is None ==> !is_digit(c),
{
    let d = if c == '0' {
        Some(0u32)
    } else if c == '1' {
        Some(1u32)
    } else if c == '2' {
        Some(2u32)
    } else if c == '3' {
        Some(3u32)
    } else if c == '4' {
        Some(4u32)
    } else if c == '5' {
        Some(5u32)
    } else if c == '6' {
        Some(6u32)
    } else if c == '7' {
        Some(7u32)
    } else if c == '8' {
        Some(8u32)
    } else if c == '9' {
        Some(9u32)
    } else {
        None
    };
    proof {
        if let Some(v) = d {
            assert(c == digit_char(v as int));
        }
    }
    d
}

/// Reads a 16-bit unsigned number as `str::parse` does: an optional `+`, then decimal
/// digits only, of a value that fits.
pub fn parse_u16(s: &str) -> (number: Option<u16>)
    ensures
        number == parsed_u16(s@),
{
    let chars = to_chars(s);
    let start: usize = if chars.len() > 0 && chars[0] == '+' {
        1
    } else {
        0
    };
    let ghost digits = chars@.subrange(start as int, chars.len() as int);
    assert(digits =~= unsigned_body(s@));
    if start == chars.len() {
        return None;
    }
    let mut value: u32 = 0;
    let mut i: usize = start;
    assert(digits.take(0) =~= Seq::<char>::empty());
    while i < chars.len()
        invariant
            start <= i <= chars.len(),
            digits == chars@.subrange(start as int, chars.len() as int),
            digits == unsigned_body(s@),
            all_digits(digits.take(i - start)),
            value == digits_value(digits.take(i - start)),
            value <= u16::MAX,
        decreases chars.len() - i,
    {
        let ghost seen = digits.take(i - start);
        let ghost next = digits.take(i - start + 1);
        proof {
            assert(next.drop_last() =~= seen);
            assert(next.last() == chars@[i as int]);
        }
        match digit_of(chars[i]) {
            Some(d) => {
                let grown: u32 = value * 10 + d;
                if grown > 65535 {
                    proof {
                        assert(next.is_prefix_of(digits));
                        lemma_digits_value_grows(next, digits);
                    }
                    return None;
                }
                value = grown;
                proof {
                    assert forall|k: int| 0 <= k < next.len() implies is_digit(
                        #[trigger] next[k],
                    ) by {
                        if k < seen.len() {
                            assert(next[k] == seen[k]);
                        }
                    }
                }
            },
            None => {
                assert(digits[i - start] == chars@[i as int]);
                assert(!all_digits(digits));
                return None;
            },
        }
        i += 1;
    }
    assert(digits.take(chars.len() - start) =~= digits);
    Some(value as u16)
}

/// A run of digits denotes at least what any of its prefixes denotes.
pub proof fn lemma_digits_value_grows(prefix: Seq<char>, s: Seq<char>)
    requires
        prefix.is_prefix_of(s),
    ensures
        digits_value(prefix) <= digits_value(s),
    decreases s.len(),
{
    if prefix.len() < s.len() {
        assert(prefix.is_prefix_of(s.drop_last()));
        lemma_digits_value_grows(prefix, s.drop_last());
    } else {
        assert(prefix =~= s);
    }
}

/// The numeral of a number is made of digits only, and denotes the number.
pub proof fn lemma_decimal_denotes(n: nat)
    ensures
        decimal(n).len() >= 1,
        all_digits(decimal(n)),
        digits_value(decimal(n)) == n,
    decreases n,
{
    let s = decimal(n);
    if n < 10 {
        assert(s[0] == digit_char(n as int));
        assert(is_digit(s[0]));
        assert(s.drop_last() =~= Seq::<char>::empty());
        assert(digits_value(s.drop_last()) == 0);
        assert(digit_value(digit_char(n as int)) == n);
    } else {
        let front = decimal(n / 10);
        lemma_decimal_denotes(n / 10);
        assert(s.drop_last() =~= front);
        assert(s.last() == digit_char((n % 10) as int));
        assert(digit_value(digit_char((n % 10) as int)) == n % 10);
        assert forall|i: int| 0 <= i < s.len() implies is_digit(#[trigger] s[i]) by {
            if i < front.len() {
                assert(s[i] == front[i]);
            } else {
                assert(s[i] == digit_char((n % 10) as int));
            }
        }
    }
}

/// A number below a power of ten has a numeral of at most as many digits.
pub proof fn lemma_decimal_length(n: nat)
    ensures
        n < 10 ==> decimal(n).len() == 1,
        n < 100 ==> decimal(n).len() <= 2,
        n < 1000 ==> decimal(n).len() <= 3,
        n < 10000 ==> decimal(n).len() <= 4,
        n < 100000 ==> decimal(n).len() <= 5,
    decreases n,
{
    if n >= 10 {
        lemma_decimal_length(n / 10);
    }
}

/// Whether `c` is white space as Unicode defines it: the characters with the
/// property `White_Space`.
pub open spec fn is_white_space(c: char) -> bool {
    ||| '\u{9}' <= c <= '\u{d}'
    ||| c == ' '
    ||| c == '\u{85}'
    ||| c == '\u{a0}'
    ||| c == '\u{1680}'
    ||| '\u{2000}' <= c <= '\u{200a}'
    ||| c == '\u{2028}'
    ||| c == '\u{2029}'
    ||| c == '\u{202f}'
    ||| c == '\u{205f}'
    ||| c == '\u{3000}'
}

/// Whether `c` is white space as Unicode defines it, as `char::is_whitespace` decides.
pub fn white_space(c: char) -> (white: bool)
    ensures
        white == is_white_space(c),
{
    ('\u{9}' <= c && c <= '\u{d}') || c == ' ' || c == '\u{85}' || c == '\u{a0}' || c
        == '\u{1680}' || ('\u{2000}' <= c && c <= '\u{200a}') || c == '\u{2028}' || c
        == '\u{2029}' || c == '\u{202f}' || c == '\u{205f}' || c == '\u{3000}'
}

/// A text without its leading white space.
pub open spec fn trim_start(s: Seq<char>) -> Seq<char>
    decreases s.len(),
{
    if s.len() > 0 && is_white_space(s[0]) {
        trim_start(s.drop_first())
    } else {
        s
    }
}

/// A text without its trailing white space.
pub open spec fn trim_end(s: Seq<char>) -> Seq<char>
    decreases s.len(),
{
    if s.len() > 0 && is_white_space(s.last()) {
        trim_end(s.drop_last())
    } else {
        s
    }
}

/// A text without its leading and trailing white space, as `str::trim` gives it.
pub open spec fn trimmed(s: Seq<char>) -> Seq<char> {
    trim_end(trim_start(s))
}

/// The text without its leading and trailing white space, as `str::trim` gives it.
pub fn trim(s: &str) -> (inner: &str)
    ensures
        inner@ == trimmed(s@),
{
    let chars = to_chars(s);
    let length = chars.len();
    let mut start: usize = 0;
    assert(s@.subrange(0, length as int) =~= s@);
    while start < length && white_space(chars[start])
        invariant
            start <= length,
            length == chars.len(),
            chars@ == s@,
            trim_start(s@) == trim_start(s@.subrange(start as int, length as int)),
        decreases length - start,
    {
        assert(s@.subrange(start as int, length as int).drop_first() =~= s@.subrange(
            start + 1,
            length as int,
        ));
        start += 1;
    }
    let ghost rest = s@.subrange(start as int, length as int);
    assert(trim_start(s@) == rest);
    let mut end: usize = length;
    while end > start && white_space(chars[end - 1])
        invariant
            start <= end <= length,
            length == chars.len(),
            chars@ == s@,
            rest == s@.subrange(start as int, length as int),
            trim_end(rest) == trim_end(s@.subrange(start as int, end as int)),
        decreases end - start,
    {
        assert(s@.subrange(start as int, end as int).drop_last() =~= s@.subrange(
            start as int,
            end - 1,
        ));
        end -= 1;
    }
    s.substring_char(start, end)
}

/// A text that neither begins nor ends with white space is its own trimmed form, and
/// no decimal digit is white space.
pub proof fn law_trim_keeps_plain_text(s: Seq<char>)
    ensures
        s.len() == 0 ==> trimmed(s) == s,
        s.len() > 0 && !is_white_space(s[0]) && !is_white_space(s.last()) ==> trimmed(s) == s,
        forall|c: char| is_digit(c) ==> !is_white_space(c),
{
    assert forall|c: char| is_digit(c) implies !is_white_space(c) by {
        let d = choose|d: int| 0 <= d < 10 && c == digit_char(d);
    }
}

/// The numeral of a number that fits 16 bits is its own trimmed form and reads back
/// as the number.
pub proof fn law_numeral_reads_back(n: nat)
    requires
        n <= u16::MAX,
    ensures
        trimmed(decimal(n)) == decimal(n),
        parsed_u16(decimal(n)) == Some(n as u16),
        parsed_u16(trimmed(decimal(n))) == Some(n as u16),
{
    let s = decimal(n);
    lemma_decimal_denotes(n);
    law_trim_keeps_plain_text(s);
    assert(is_digit(s[0]));
    assert(is_digit(s.last()));
    assert(s[0] != '+') by {
        let d = choose|d: int| 0 <= d < 10 && s[0] == digit_char(d);
    }
    assert(unsigned_body(s) == s);
}

/// What `str::to_lowercase` makes of a text: its lower-case equivalent, as Unicode
/// defines it.
pub uninterp spec fn lowercase(s: Seq<char>) -> Seq<char>;

/// Calls `str::to_lowercase`; the contract names the lower-case text and says no
/// more of it.
#[verifier::external_body]
pub(crate) fn to_lowercase(s: &str) -> (lowered: String)
    ensures
        lowered@ == lowercase(s@),
{
    s.to_lowercase()
}

} // verus!
