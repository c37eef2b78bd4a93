//! Response headers and the numbers read from them.
use vstd::prelude::*;

verus! {

/// One response header. `value` is the header's text, or `None` where its bytes
/// are not all visible ASCII.
pub struct HeaderField {
    pub name: String,
    pub value: Option<String>,
}

/// One HTTP round trip as the fetch collaborator captured it.
pub struct RawPage {
    pub status: u16,
    pub headers: Vec<HeaderField>,
    pub body: String,
}

pub open spec fn same_char_ignoring_case(a: char, b: char) -> bool {
    a == b || ('A' <= a <= 'Z' && b as u32 == a as u32 + 32) || ('a' <= a <= 'z' && a as u32
        == b as u32 + 32)
}

/// Header names compare without regard to ASCII case.
pub open spec fn names_match(a: Seq<char>, b: Seq<char>) -> bool {
    a.len() == b.len() && forall|i: int| 0 <= i < a.len() ==> same_char_ignoring_case(a[i], b[i])
}

pub open spec fn text_of(v: Option<String>) -> Option<Seq<char>> {
    match v {
        Some(s) => Some(s@),
        None => None,
    }
}

/// Field `i` is the first header named `key`.
pub open spec fn first_named(hs: Seq<HeaderField>, key: Seq<char>, i: int) -> bool {
    &&& 0 <= i < hs.len()
    &&& names_match(hs[i].name@, key)
    &&& forall|k: int| 0 <= k < i ==> !names_match(#[trigger] hs[k].name@, key)
}

/// Whether some header is named `key`.
pub open spec fn has_header(hs: Seq<HeaderField>, key: Seq<char>) -> bool {
    exists|i: int| 0 <= i < hs.len() && names_match(#[trigger] hs[i].name@, key)
}

/// The text of the first header named `key`; `None` where there is no such
/// header or its first value is no text.
pub open spec fn header_text(hs: Seq<HeaderField>, key: Seq<char>) -> Option<Seq<char>> {
    if has_header(hs, key) {
        text_of(hs[choose|i: int| first_named(hs, key, i)].value)
    } else {
        None
    }
}

proof fn lemma_first_named_unique(hs: Seq<HeaderField>, key: Seq<char>, i: int, j: int)
    requires
        first_named(hs, key, i),
        first_named(hs, key, j),
    ensures
        i == j,
{
    if i < j {
        assert(!names_match(hs[i].name@, key));
    } else if j < i {
        assert(!names_match(hs[j].name@, key));
    }
}

pub open spec fn is_digit(c: char) -> bool {
    '0' <= c <= '9'
}

/// The number that a sequence of decimal digits denotes.
pub open spec fn digits_value(s: Seq<char>) -> int
    decreases s.len(),
{
    if s.len() == 0 {
        0
    } else {
        digits_value(s.drop_last()) * 10 + (s.last() as u32 - '0' as u32)
    }
}

pub open spec fn all_digits(d: Seq<char>) -> bool {
    forall|i: int| 0 <= i < d.len() ==> is_digit(#[trigger] d[i])
}

/// The text after an optional leading `+`.
pub open spec fn unsigned_digits(s: Seq<char>) -> Seq<char> {
    if s.len() > 0 && s[0] == '+' {
        s.drop_first()
    } else {
        s
    }
}

/// What `str::parse::<usize>` accepts: an optional `+`, then at least one
/// decimal digit, denoting a number that fits in `usize`.
pub open spec fn parsed_usize(s: Seq<char>) -> Option<usize> {
    let d = unsigned_digits(s);
    if d.len() > 0 && all_digits(d) && digits_value(d) <= usize::MAX {
        Some(digits_value(d) as usize)
    } else {
        None
    }
}

/// A numeric header as the rate governor reads it: its value, or 0 where it is
/// missing, no text, or no number.
pub open spec fn header_number(hs: Seq<HeaderField>, key: Seq<char>) -> usize {
    match header_text(hs, key) {
        Some(t) => match parsed_usize(t) {
            Some(n) => n,
            None => 0,
        },
        None => 0,
    }
}

proof fn lemma_digits_value_grows(s: Seq<char>, i: int, j: int)
    requires
        0 <= i <= j <= s.len(),
        forall|k: int| 0 <= k < s.len() ==> is_digit(#[trigger] s[k]),
    ensures
        digits_value(s.subrange(0, i)) <= digits_value(s.subrange(0, j)),
    decreases j - i,
{
    if i < j {
        lemma_digits_value_grows(s, i, j - 1);
        assert(s.subrange(0, j).drop_last() =~= s.subrange(0, j - 1));
        assert(digits_value(s.subrange(0, j - 1)) >= 0) by {
            lemma_digits_value_nonneg(s.subrange(0, j - 1));
        }
    }
}

proof fn lemma_digits_value_nonneg(s: Seq<char>)
    requires
        forall|k: int| 0 <= k < s.len() ==> is_digit(#[trigger] s[k]),
    ensures
        digits_value(s) >= 0,
    decreases s.len(),
{
    if s.len() > 0 {
        lemma_digits_value_nonneg(s.drop_last());
    }
}

fn char_eq_ignoring_case(a: char, b: char) -> (r: bool)
    ensures
        r == same_char_ignoring_case(a, b),
{
    a == b || ('A' <= a && a <= 'Z' && b as u32 == a as u32 + 32) || ('a' <= a && a <= 'z'
        && a as u32 == b as u32 + 32)
}

/// Compares two header names without regard to ASCII case.
pub fn name_eq(a: &str, b: &str) -> (r: bool)
    ensures
        r == names_match(a@, b@),
{
    let n = a.unicode_len();
    if n != b.unicode_len() {
        return false;
    }
    let mut i: usize = 0;
    while i < n
        invariant
            n == a@.len() == b@.len(),
            i <= n,
            forall|k: int| 0 <= k < i ==> same_char_ignoring_case(a@[k], b@[k]),
        decreases n - i,
    {
        if !char_eq_ignoring_case(a.get_char(i), b.get_char(i)) {
            return false;
        }
        i = i + 1;
    }
    true
}

/// The position of the first header named `key`, in any ASCII case.
pub fn find_header(headers: &Vec<HeaderField>, key: &str) -> (r: Option<usize>)
    ensures
        match r {
            Some(i) => first_named(headers@, key@, i as int),
            None => !has_header(headers@, key@),
        },
{
    let mut i: usize = 0;
    while i < headers.len()
        invariant
            i <= headers@.len(),
            forall|k: int| 0 <= k < i ==> !names_match(#[trigger] headers@[k].name@, key@),
        decreases headers@.len() - i,
    {
        if name_eq(headers[i].name.as_str(), key) {
            return Some(i);
        }
        i = i + 1;
    }
    None
}

/// Whether some header is named `key`, in any ASCII case.
pub fn contains_header(headers: &Vec<HeaderField>, key: &str) -> (r: bool)
    ensures
        r == has_header(headers@, key@),
{
    find_header(headers, key).is_some()
}

/// The text of the first header named `key`, in any ASCII case.
pub fn header_value(headers: &Vec<HeaderField>, key: &str) -> (r: Option<String>)
    ensures
        text_of(r) == header_text(headers@, key@),
{
    match find_header(headers, key) {
        Some(i) => {
            proof {
                let c = choose|c: int| first_named(headers@, key@, c);
                lemma_first_named_unique(headers@, key@, i as int, c);
            }
            match &headers[i].value {
                Some(s) => Some(s.clone()),
                None => None,
            }
        },
        None => None,
    }
}

/// Reads a decimal `usize` as `str::parse` does.
pub fn parse_usize(s: &str) -> (r: Option<usize>)
    ensures
        r == parsed_usize(s@),
{
    let n = s.unicode_len();
    let start: usize = if n > 0 && s.get_char(0) == '+' {
        1
    } else {
        0
    };
    let ghost d = unsigned_digits(s@);
    assert(d =~= s@.subrange(start as int, n as int));
    if start == n {
        return None;
    }
    let mut value: usize = 0;
    let mut i: usize = start;
    while i < n
        invariant
            start <= i <= n,
            n == s@.len(),
            d == unsigned_digits(s@),
            d =~= s@.subrange(start as int, n as int),
            forall|k: int| 0 <= k < i - start ==> is_digit(#[trigger] d[k]),
            value as int == digits_value(d.subrange(0, i - start)),
        decreases n - i,
    {
        let c = s.get_char(i);
        assert(d[i - start] == c);
        if !('0' <= c && c <= '9') {
            assert(!is_digit(d[i - start]));
            return None;
        }
        let digit = (c as u32 - '0' as u32) as usize;
        assert(d.subrange(0, i + 1 - start).drop_last() =~= d.subrange(0, i - start));
        assert(d.subrange(0, i + 1 - start).last() == c);
        assert(digits_value(d.subrange(0, i + 1 - start)) == value * 10 + digit);
        match value.checked_mul(10) {
            Some(tens) => match tens.checked_add(digit) {
                Some(next) => {
                    value = next;
                },
                None => {
                    proof {
                        lemma_overflow_is_final(d, (i + 1 - start) as int, n - start);
                    }
                    return None;
                },
            },
            None => {
                proof {
                    lemma_overflow_is_final(d, (i + 1 - start) as int, n - start);
                }
                return None;
            },
        }
        i = i + 1;
    }
    assert(d.subrange(0, n - start) =~= d);
    Some(value)
}

/// Once a prefix of the digits exceeds `usize`, so does every longer one, and
/// no reading of the whole succeeds.
proof fn lemma_overflow_is_final(d: Seq<char>, i: int, len: int)
    requires
        0 < i <= d.len(),
        len == d.len(),
        digits_value(d.subrange(0, i)) > usize::MAX,
    ensures
        all_digits(d) ==> digits_value(d) > usize::MAX,
{
    if all_digits(d) {
        lemma_digits_value_grows(d, i, len);
        assert(d.subrange(0, len) =~= d);
    }
}

} // verus!
