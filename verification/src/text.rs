//! Character-level helpers shared by the parsers of this crate: conversion
//! between strings and character vectors, and decimal numbers as the standard
//! library reads them.
use vstd::prelude::*;

verus! {

broadcast use vstd::string::group_string_axioms;

/// The characters of a string slice, in order.
pub fn chars_of(s: &str) -> (v: Vec<char>)
    ensures
        v@ == s@,
{
    let mut v: Vec<char> = Vec::new();
    for c in it: s.chars()
        invariant
            v@ == it.seq().take(it.index() as int),
            it.seq() == s@,
    {
        v.push(c);
    }
    v
}

/// Collects characters into a `String` (`String::from_iter`).
#[verifier::external_body]
pub(crate) fn string_from_chars(v: &[char]) -> (s: String)
    ensures
        s@ == v@,
{
    String::from_iter(v.iter())
}

/// A copy of a string slice as an owned `String`.
pub fn owned(s: &str) -> (r: String)
    ensures
        r@ == s@,
{
    s.to_owned()
}

/// Whether two character sequences are equal.
pub fn chars_eq(a: &[char], b: &[char]) -> (r: bool)
    ensures
        r == (a@ == b@),
{
    if a.len() != b.len() {
        return false;
    }
    let mut i: usize = 0;
    while i < a.len()
        invariant
            a.len() == b.len(),
            i <= a.len(),
            forall|j: int| 0 <= j < i ==> a@[j] == b@[j],
        decreases a.len() - i,
    {
        if a[i] != b[i] {
            return false;
        }
        i = i + 1;
    }
    assert(a@ =~= b@);
    true
}

/// Whether two string slices hold the same characters.
pub fn str_eq(a: &str, b: &str) -> (r: bool)
    ensures
        r == (a@ == b@),
{
    let va = chars_of(a);
    let vb = chars_of(b);
    chars_eq(va.as_slice(), vb.as_slice())
}

/// Whether `a[start..start + b.len()]` equals `b`.
pub fn chars_match_at(a: &[char], start: usize, b: &[char]) -> (r: bool)
    ensures
        r == (start + b@.len() <= a@.len() && a@.subrange(start as int, start + b@.len()) == b@),
{
    if start > a.len() || b.len() > a.len() - start {
        return false;
    }
    let mut i: usize = 0;
    while i < b.len()
        invariant
            start + b.len() <= a.len(),
            i <= b.len(),
            forall|j: int| 0 <= j < i ==> a@[start + j] == b@[j],
        decreases b.len() - i,
    {
        if a[start + i] != b[i] {
            assert(a@.subrange(start as int, start + b@.len())[i as int] != b@[i as int]);
            return false;
        }
        i = i + 1;
    }
    assert(a@.subrange(start as int, start + b@.len()) =~= b@);
    true
}

/// An ASCII decimal digit.
pub open spec fn is_digit(c: char) -> bool {
    '0' <= c && c <= '9'
}

/// A decimal digit of Unicode (general category Nd, Unicode 16.0): what `\d`
/// matches in a regular expression that is Unicode-aware, as Rust's are by default.
#[verifier::opaque]
pub open spec fn is_decimal_digit(c: char) -> bool {
    ||| ('0' <= c && c <= '9')
    ||| ('\u{660}' <= c && c <= '\u{669}')
    ||| ('\u{6f0}' <= c && c <= '\u{6f9}')
    ||| ('\u{7c0}' <= c && c <= '\u{7c9}')
    ||| ('\u{966}' <= c && c <= '\u{96f}')
    ||| ('\u{9e6}' <= c && c <= '\u{9ef}')
    ||| ('\u{a66}' <= c && c <= '\u{a6f}')
    ||| ('\u{ae6}' <= c && c <= '\u{aef}')
    ||| ('\u{b66}' <= c && c <= '\u{b6f}')
    ||| ('\u{be6}' <= c && c <= '\u{bef}')
    ||| ('\u{c66}' <= c && c <= '\u{c6f}')
    ||| ('\u{ce6}' <= c && c <= '\u{cef}')
    ||| ('\u{d66}' <= c && c <= '\u{d6f}')
    ||| ('\u{de6}' <= c && c <= '\u{def}')
    ||| ('\u{e50}' <= c && c <= '\u{e59}')
    ||| ('\u{ed0}' <= c && c <= '\u{ed9}')
    ||| ('\u{f20}' <= c && c <= '\u{f29}')
    ||| ('\u{1040}' <= c && c <= '\u{1049}')
    ||| ('\u{1090}' <= c && c <= '\u{1099}')
    ||| ('\u{17e0}' <= c && c <= '\u{17e9}')
    ||| ('\u{1810}' <= c && c <= '\u{1819}')
    ||| ('\u{1946}' <= c && c <= '\u{194f}')
    ||| ('\u{19d0}' <= c && c <= '\u{19d9}')
    ||| ('\u{1a80}' <= c && c <= '\u{1a89}')
    ||| ('\u{1a90}' <= c && c <= '\u{1a99}')
    ||| ('\u{1b50}' <= c && c <= '\u{1b59}')
    ||| ('\u{1bb0}' <= c && c <= '\u{1bb9}')
    ||| ('\u{1c40}' <= c && c <= '\u{1c49}')
    ||| ('\u{1c50}' <= c && c <= '\u{1c59}')
    ||| ('\u{a620}' <= c && c <= '\u{a629}')
    ||| ('\u{a8d0}' <= c && c <= '\u{a8d9}')
    ||| ('\u{a900}' <= c && c <= '\u{a909}')
    ||| ('\u{a9d0}' <= c && c <= '\u{a9d9}')
    ||| ('\u{a9f0}' <= c && c <= '\u{a9f9}')
    ||| ('\u{aa50}' <= c && c <= '\u{aa59}')
    ||| ('\u{abf0}' <= c && c <= '\u{abf9}')
    ||| ('\u{ff10}' <= c && c <= '\u{ff19}')
    ||| ('\u{104a0}' <= c && c <= '\u{104a9}')
    ||| ('\u{10d30}' <= c && c <= '\u{10d39}')
    ||| ('\u{10d40}' <= c && c <= '\u{10d49}')
    ||| ('\u{11066}' <= c && c <= '\u{1106f}')
    ||| ('\u{110f0}' <= c && c <= '\u{110f9}')
    ||| ('\u{11136}' <= c && c <= '\u{1113f}')
    ||| ('\u{111d0}' <= c && c <= '\u{111d9}')
    ||| ('\u{112f0}' <= c && c <= '\u{112f9}')
    ||| ('\u{11450}' <= c && c <= '\u{11459}')
    ||| ('\u{114d0}' <= c && c <= '\u{114d9}')
    ||| ('\u{11650}' <= c && c <= '\u{11659}')
    ||| ('\u{116c0}' <= c && c <= '\u{116c9}')
    ||| ('\u{116d0}' <= c && c <= '\u{116e3}')
    ||| ('\u{11730}' <= c && c <= '\u{11739}')
    ||| ('\u{118e0}' <= c && c <= '\u{118e9}')
    ||| ('\u{11950}' <= c && c <= '\u{11959}')
    ||| ('\u{11bf0}' <= c && c <= '\u{11bf9}')
    ||| ('\u{11c50}' <= c && c <= '\u{11c59}')
    ||| ('\u{11d50}' <= c && c <= '\u{11d59}')
    ||| ('\u{11da0}' <= c && c <= '\u{11da9}')
    ||| ('\u{11f50}' <= c && c <= '\u{11f59}')
    ||| ('\u{16130}' <= c && c <= '\u{16139}')
    ||| ('\u{16a60}' <= c && c <= '\u{16a69}')
    ||| ('\u{16ac0}' <= c && c <= '\u{16ac9}')
    ||| ('\u{16b50}' <= c && c <= '\u{16b59}')
    ||| ('\u{16d70}' <= c && c <= '\u{16d79}')
    ||| ('\u{1ccf0}' <= c && c <= '\u{1ccf9}')
    ||| ('\u{1d7ce}' <= c && c <= '\u{1d7ff}')
    ||| ('\u{1e140}' <= c && c <= '\u{1e149}')
    ||| ('\u{1e2f0}' <= c && c <= '\u{1e2f9}')
    ||| ('\u{1e4f0}' <= c && c <= '\u{1e4f9}')
    ||| ('\u{1e5f1}' <= c && c <= '\u{1e5fa}')
    ||| ('\u{1e950}' <= c && c <= '\u{1e959}')
    ||| ('\u{1fbf0}' <= c && c <= '\u{1fbf9}')
}

/// Whether `c` is a decimal digit of Unicode; see `is_decimal_digit`.
pub fn decimal_digit(c: char) -> (r: bool)
    ensures
        r == is_decimal_digit(c),
{
    reveal(is_decimal_digit);
    ('0' <= c && c <= '9')
    || ('\u{660}' <= c && c <= '\u{669}')
    || ('\u{6f0}' <= c && c <= '\u{6f9}')
    || ('\u{7c0}' <= c && c <= '\u{7c9}')
    || ('\u{966}' <= c && c <= '\u{96f}')
    || ('\u{9e6}' <= c && c <= '\u{9ef}')
    || ('\u{a66}' <= c && c <= '\u{a6f}')
    || ('\u{ae6}' <= c && c <= '\u{aef}')
    || ('\u{b66}' <= c && c <= '\u{b6f}')
    || ('\u{be6}' <= c && c <= '\u{bef}')
    || ('\u{c66}' <= c && c <= '\u{c6f}')
    || ('\u{ce6}' <= c && c <= '\u{cef}')
    || ('\u{d66}' <= c && c <= '\u{d6f}')
    || ('\u{de6}' <= c && c <= '\u{def}')
    || ('\u{e50}' <= c && c <= '\u{e59}')
    || ('\u{ed0}' <= c && c <= '\u{ed9}')
    || ('\u{f20}' <= c && c <= '\u{f29}')
    || ('\u{1040}' <= c && c <= '\u{1049}')
    || ('\u{1090}' <= c && c <= '\u{1099}')
    || ('\u{17e0}' <= c && c <= '\u{17e9}')
    || ('\u{1810}' <= c && c <= '\u{1819}')
    || ('\u{1946}' <= c && c <= '\u{194f}')
    || ('\u{19d0}' <= c && c <= '\u{19d9}')
    || ('\u{1a80}' <= c && c <= '\u{1a89}')
    || ('\u{1a90}' <= c && c <= '\u{1a99}')
    || ('\u{1b50}' <= c && c <= '\u{1b59}')
    || ('\u{1bb0}' <= c && c <= '\u{1bb9}')
    || ('\u{1c40}' <= c && c <= '\u{1c49}')
    || ('\u{1c50}' <= c && c <= '\u{1c59}')
    || ('\u{a620}' <= c && c <= '\u{a629}')
    || ('\u{a8d0}' <= c && c <= '\u{a8d9}')
    || ('\u{a900}' <= c && c <= '\u{a909}')
    || ('\u{a9d0}' <= c && c <= '\u{a9d9}')
    || ('\u{a9f0}' <= c && c <= '\u{a9f9}')
    || ('\u{aa50}' <= c && c <= '\u{aa59}')
    || ('\u{abf0}' <= c && c <= '\u{abf9}')
    || ('\u{ff10}' <= c && c <= '\u{ff19}')
    || ('\u{104a0}' <= c && c <= '\u{104a9}')
    || ('\u{10d30}' <= c && c <= '\u{10d39}')
    || ('\u{10d40}' <= c && c <= '\u{10d49}')
    || ('\u{11066}' <= c && c <= '\u{1106f}')
    || ('\u{110f0}' <= c && c <= '\u{110f9}')
    || ('\u{11136}' <= c && c <= '\u{1113f}')
    || ('\u{111d0}' <= c && c <= '\u{111d9}')
    || ('\u{112f0}' <= c && c <= '\u{112f9}')
    || ('\u{11450}' <= c && c <= '\u{11459}')
    || ('\u{114d0}' <= c && c <= '\u{114d9}')
    || ('\u{11650}' <= c && c <= '\u{11659}')
    || ('\u{116c0}' <= c && c <= '\u{116c9}')
    || ('\u{116d0}' <= c && c <= '\u{116e3}')
    || ('\u{11730}' <= c && c <= '\u{11739}')
    || ('\u{118e0}' <= c && c <= '\u{118e9}')
    || ('\u{11950}' <= c && c <= '\u{11959}')
    || ('\u{11bf0}' <= c && c <= '\u{11bf9}')
    || ('\u{11c50}' <= c && c <= '\u{11c59}')
    || ('\u{11d50}' <= c && c <= '\u{11d59}')
    || ('\u{11da0}' <= c && c <= '\u{11da9}')
    || ('\u{11f50}' <= c && c <= '\u{11f59}')
    || ('\u{16130}' <= c && c <= '\u{16139}')
    || ('\u{16a60}' <= c && c <= '\u{16a69}')
    || ('\u{16ac0}' <= c && c <= '\u{16ac9}')
    || ('\u{16b50}' <= c && c <= '\u{16b59}')
    || ('\u{16d70}' <= c && c <= '\u{16d79}')
    || ('\u{1ccf0}' <= c && c <= '\u{1ccf9}')
    || ('\u{1d7ce}' <= c && c <= '\u{1d7ff}')
    || ('\u{1e140}' <= c && c <= '\u{1e149}')
    || ('\u{1e2f0}' <= c && c <= '\u{1e2f9}')
    || ('\u{1e4f0}' <= c && c <= '\u{1e4f9}')
    || ('\u{1e5f1}' <= c && c <= '\u{1e5fa}')
    || ('\u{1e950}' <= c && c <= '\u{1e959}')
    || ('\u{1fbf0}' <= c && c <= '\u{1fbf9}')
}

/// The value of an ASCII decimal digit.
pub open spec fn digit_value(c: char) -> nat {
    (c as int - '0' as int) as nat
}

/// The value of a string of ASCII decimal digits, most significant first.
pub open spec fn digits_value(s: Seq<char>) -> nat
    decreases s.len(),
{
    if s.len() == 0 {
        0
    } else {
        digits_value(s.drop_last()) * 10 + digit_value(s.last())
    }
}

/// Every character of `s` is an ASCII decimal digit.
pub open spec fn all_digits(s: Seq<char>) -> bool {
    forall|i: int| 0 <= i < s.len() ==> #[trigger] is_digit(s[i])
}

/// What `str::parse` gives for an unsigned integer type, before the range
/// check: an optional leading `+`, then one or more ASCII digits.
pub open spec fn unsigned_value(s: Seq<char>) -> Option<nat> {
    let body = if s.len() > 0 && s[0] == '+' { s.drop_first() } else { s };
    if body.len() > 0 && all_digits(body) {
        Some(digits_value(body))
    } else {
        None
    }
}

/// `str::parse::<u16>`, successful exactly when the text is an optional `+`
/// followed by ASCII digits whose value fits in 16 bits.
pub open spec fn parse_u16(s: Seq<char>) -> Option<u16> {
    match unsigned_value(s) {
        Some(v) => if v <= u16::MAX { Some(v as u16) } else { None },
        None => None,
    }
}

/// `str::parse::<u32>`.
pub open spec fn parse_u32(s: Seq<char>) -> Option<u32> {
    match unsigned_value(s) {
        Some(v) => if v <= u32::MAX { Some(v as u32) } else { None },
        None => None,
    }
}

/// `str::parse::<u64>`.
pub open spec fn parse_u64(s: Seq<char>) -> Option<u64> {
    match unsigned_value(s) {
        Some(v) => if v <= u64::MAX { Some(v as u64) } else { None },
        None => None,
    }
}

/// A longer run of digits is worth at least as much as its prefix.
pub proof fn lemma_digits_value_prefix(s: Seq<char>, k: int)
    requires
        0 <= k <= s.len(),
        all_digits(s),
    ensures
        digits_value(s.take(k)) <= digits_value(s),
    decreases s.len() - k,
{
    if k < s.len() {
        lemma_digits_value_prefix(s, k + 1);
        assert(s.take(k + 1).drop_last() =~= s.take(k));
        assert(is_digit(s[k]));
    } else {
        assert(s.take(k) =~= s);
    }
}

/// The value of the digits `s[start..end]` when it is at most `max`.
fn digits_up_to(s: &[char], start: usize, end: usize, max: u64) -> (r: Option<u64>)
    requires
        start <= end <= s@.len(),
    ensures
        ({
            let sub = s@.subrange(start as int, end as int);
            match r {
                Some(v) => all_digits(sub) && v == digits_value(sub) && v <= max,
                None => !all_digits(sub) || digits_value(sub) > max,
            }
        }),
{
    let ghost sub = s@.subrange(start as int, end as int);
    let mut acc: u64 = 0;
    let mut i: usize = start;
    while i < end
        invariant
            start <= i <= end <= s@.len(),
            sub == s@.subrange(start as int, end as int),
            all_digits(sub.take(i - start)),
            acc == digits_value(sub.take(i - start)),
            acc <= max,
        decreases end - i,
    {
        let c = s[i];
        if !('0' <= c && c <= '9') {
            assert(sub[i - start] == c);
            assert(!is_digit(sub[i - start]));
            return None;
        }
        let d: u64 = (c as u64) - ('0' as u64);
        let next: u128 = (acc as u128) * 10 + (d as u128);
        assert(sub.take(i - start + 1).drop_last() =~= sub.take(i - start));
        assert(sub.take(i - start + 1).last() == c);
        if next > max as u128 {
            proof {
                if all_digits(sub) {
                    lemma_digits_value_prefix(sub, i - start + 1);
                }
            }
            return None;
        }
        acc = next as u64;
        i = i + 1;
        assert(all_digits(sub.take(i - start))) by {
            assert forall|j: int| 0 <= j < i - start implies #[trigger] is_digit(sub.take(i - start)[j]) by {
                if j < i - start - 1 {
                    assert(sub.take(i - start)[j] == sub.take(i - start - 1)[j]);
                }
            }
        }
    }
    assert(sub.take(end - start) =~= sub);
    Some(acc)
}

/// `str::parse` of `s[start..end]` as an unsigned integer no greater than
/// `max`: `None` when the text is not an optional `+` and one or more ASCII
/// digits, or when its value exceeds `max`.
pub fn parse_unsigned(s: &[char], start: usize, end: usize, max: u64) -> (r: Option<u64>)
    requires
        start <= end <= s@.len(),
    ensures
        ({
            let sub = s@.subrange(start as int, end as int);
            match unsigned_value(sub) {
                Some(v) => if v <= max { r == Some(v as u64) } else { r is None },
                None => r is None,
            }
        }),
{
    let ghost sub = s@.subrange(start as int, end as int);
    let mut b = start;
    if start < end && s[start] == '+' {
        b = start + 1;
        assert(s@.subrange(b as int, end as int) =~= sub.drop_first());
    } else {
        assert(s@.subrange(b as int, end as int) =~= sub);
    }
    if b == end {
        return None;
    }
    digits_up_to(s, b, end, max)
}


/// The end of the run of decimal digits (`\d+`) that starts at `from`: the
/// first index at or after `from` that holds no digit, or the length of `s`.
pub open spec fn digits_end(s: Seq<char>, from: int) -> int
    decreases s.len() - from,
{
    if from < 0 || from >= s.len() {
        s.len() as int
    } else if is_decimal_digit(s[from]) {
        digits_end(s, from + 1)
    } else {
        from
    }
}

/// The index of the first `c` at or after `from`, or the length of `s`.
pub open spec fn find_char(s: Seq<char>, c: char, from: int) -> int
    decreases s.len() - from,
{
    if from < 0 || from >= s.len() {
        s.len() as int
    } else if s[from] == c {
        from
    } else {
        find_char(s, c, from + 1)
    }
}

/// The smallest `i` in `0..=n` with `p(i)`, if there is one.
pub open spec fn first_index(n: int, p: spec_fn(int) -> bool) -> Option<int> {
    if exists|i: int| 0 <= i <= n && #[trigger] p(i) {
        Some(choose|i: int| 0 <= i <= n && #[trigger] p(i) && forall|j: int| 0 <= j < i ==> !#[trigger] p(j))
    } else {
        None
    }
}

/// A witness that is smaller than every other one is the one `first_index` picks.
pub proof fn lemma_first_index_is(n: int, p: spec_fn(int) -> bool, i: int)
    requires
        0 <= i <= n,
        p(i),
        forall|j: int| 0 <= j < i ==> !#[trigger] p(j),
    ensures
        first_index(n, p) == Some(i),
{
    let k = choose|k: int| 0 <= k <= n && #[trigger] p(k) && forall|j: int| 0 <= j < k ==> !#[trigger] p(j);
    assert(0 <= k <= n && p(k) && forall|j: int| 0 <= j < k ==> !#[trigger] p(j));
    if k < i {
        assert(!p(k));
    }
    if i < k {
        assert(!p(i));
    }
}

/// Where no index satisfies `p`, `first_index` is `None`.
pub proof fn lemma_first_index_none(n: int, p: spec_fn(int) -> bool)
    requires
        forall|j: int| 0 <= j <= n ==> !#[trigger] p(j),
    ensures
        first_index(n, p) is None,
{
}

/// `digits_end(s, from)` computed.
pub fn digits_end_at(s: &[char], from: usize) -> (r: usize)
    requires
        from <= s@.len(),
    ensures
        r == digits_end(s@, from as int),
        from <= r <= s@.len(),
{
    let mut i = from;
    while i < s.len() && decimal_digit(s[i])
        invariant
            from <= i <= s@.len(),
            digits_end(s@, from as int) == digits_end(s@, i as int),
        decreases s.len() - i,
    {
        i = i + 1;
    }
    i
}

/// `find_char(s, c, from)` computed.
pub fn find_char_at(s: &[char], c: char, from: usize) -> (r: usize)
    requires
        from <= s@.len(),
    ensures
        r == find_char(s@, c, from as int),
        from <= r <= s@.len(),
        forall|k: int| from <= k < r ==> s@[k] != c,
        r < s@.len() ==> s@[r as int] == c,
{
    let mut i = from;
    while i < s.len() && s[i] != c
        invariant
            from <= i <= s@.len(),
            find_char(s@, c, from as int) == find_char(s@, c, i as int),
            forall|k: int| from <= k < i ==> s@[k] != c,
        decreases s.len() - i,
    {
        i = i + 1;
    }
    i
}


/// `s` begins with `p`.
pub open spec fn starts_with(s: Seq<char>, p: Seq<char>) -> bool {
    p.len() <= s.len() && s.take(p.len() as int) == p
}

/// Whether `s` begins with `p`.
pub fn starts_with_chars(s: &[char], p: &[char]) -> (r: bool)
    ensures
        r == starts_with(s@, p@),
{
    let r = chars_match_at(s, 0, p);
    assert(s@.subrange(0, p@.len() as int) =~= s@.take(p@.len() as int));
    r
}

/// `a` followed by `b`.
pub fn concat_str(a: &str, b: &str) -> (r: String)
    ensures
        r@ == a@ + b@,
{
    let s = String::from_str(a);
    s.concat(b)
}


/// The first index at or after `from` that holds a decimal digit, or the length of `s`.
pub open spec fn find_digit(s: Seq<char>, from: int) -> int
    decreases s.len() - from,
{
    if from < 0 || from >= s.len() {
        s.len() as int
    } else if is_decimal_digit(s[from]) {
        from
    } else {
        find_digit(s, from + 1)
    }
}

/// `find_digit` finds a digit at or after `from`, or runs to the end.
pub proof fn lemma_find_digit(s: Seq<char>, from: int)
    requires
        0 <= from,
    ensures
        from <= find_digit(s, from) || find_digit(s, from) == s.len(),
        find_digit(s, from) <= s.len(),
        find_digit(s, from) < s.len() ==> is_decimal_digit(s[find_digit(s, from)]),
        forall|k: int| from <= k < find_digit(s, from) ==> !is_decimal_digit(#[trigger] s[k]),
    decreases s.len() - from,
{
    if from < s.len() && !is_decimal_digit(s[from]) {
        lemma_find_digit(s, from + 1);
    }
}

/// A run of digits that starts on a digit is not empty, and holds only digits.
pub proof fn lemma_digits_end(s: Seq<char>, from: int)
    requires
        0 <= from,
    ensures
        from <= digits_end(s, from) <= s.len() || (from > s.len() && digits_end(s, from) == s.len()),
        from < s.len() && is_decimal_digit(s[from]) ==> digits_end(s, from) > from,
        forall|k: int| from <= k < digits_end(s, from) ==> is_decimal_digit(#[trigger] s[k]),
        digits_end(s, from) < s.len() ==> !is_decimal_digit(s[digits_end(s, from)]),
    decreases s.len() - from,
{
    if from < s.len() && is_decimal_digit(s[from]) {
        lemma_digits_end(s, from + 1);
    }
}

/// `find_digit(s, from)` computed.
pub fn find_digit_at(s: &[char], from: usize) -> (r: usize)
    requires
        from <= s@.len(),
    ensures
        r == find_digit(s@, from as int),
        from <= r <= s@.len(),
{
    let mut i = from;
    while i < s.len() && !decimal_digit(s[i])
        invariant
            from <= i <= s@.len(),
            find_digit(s@, from as int) == find_digit(s@, i as int),
        decreases s.len() - i,
    {
        i = i + 1;
    }
    i
}


/// The ASCII digit for a value below ten.
pub open spec fn digit_char(d: nat) -> char {
    ((d + '0' as nat) as u32) as char
}

/// The decimal text of `n`, without leading zeros (`"0"` for zero), as
/// `to_string` writes an unsigned integer.
pub open spec fn decimal_text(n: nat) -> Seq<char>
    decreases n,
{
    if n < 10 {
        seq![digit_char(n)]
    } else {
        decimal_text(n / 10).push(digit_char(n % 10))
    }
}

fn push_decimal(n: u64, out: &mut Vec<char>)
    ensures
        final(out)@ == old(out)@ + decimal_text(n as nat),
    decreases n,
{
    if n >= 10 {
        push_decimal(n / 10, out);
    }
    let d = (n % 10) as u8;
    let c = (48 + d) as char;
    out.push(c);
}

/// The decimal text of `n` (`n.to_string()`).
pub fn decimal_string(n: u64) -> (s: String)
    ensures
        s@ == decimal_text(n as nat),
{
    let mut v: Vec<char> = Vec::new();
    push_decimal(n, &mut v);
    assert(v@ =~= decimal_text(n as nat));
    string_from_chars(v.as_slice())
}

/// Whether `p` occurs in `s`.
pub open spec fn contains_text(s: Seq<char>, p: Seq<char>) -> bool {
    exists|i: int| 0 <= i && i + p.len() <= s.len() && #[trigger] s.subrange(i, i + p.len()) == p
}

/// Whether `p` occurs in `s` (`str::contains`).
pub fn str_contains(s: &str, p: &str) -> (r: bool)
    ensures
        r == contains_text(s@, p@),
{
    let a = chars_of(s);
    let b = chars_of(p);
    let n = a.len();
    let m = b.len();
    if m > n {
        return false;
    }
    if m == 0 {
        assert(s@.subrange(0, 0 + p@.len() as int) =~= p@);
        return true;
    }
    let mut i: usize = 0;
    while i <= n - m
        invariant
            1 <= m <= n,
            n == a@.len(),
            m == b@.len(),
            a@ == s@,
            b@ == p@,
            i <= n - m + 1,
            forall|j: int| 0 <= j < i ==> #[trigger] a@.subrange(j, j + m) != b@,
        decreases n - m + 1 - i,
    {
        if chars_match_at(a.as_slice(), i, b.as_slice()) {
            return true;
        }
        i = i + 1;
    }
    proof {
        assert forall|j: int| 0 <= j && j + p@.len() <= s@.len() implies #[trigger] s@.subrange(j, j + p@.len()) != p@ by {
            assert(a@.subrange(j, j + m) != b@);
        }
    }
    false
}

/// The texts of a list of strings.
pub open spec fn texts(v: Seq<String>) -> Seq<Seq<char>> {
    v.map_values(|s: String| s@)
}

/// Appends a copy of `s` to a list of command arguments.
pub fn push_arg(v: &mut Vec<String>, s: &str)
    ensures
        texts(final(v)@) == texts(old(v)@).push(s@),
{
    let ghost before = v@;
    v.push(owned(s));
    proof {
        assert(texts(v@) =~= texts(before).push(s@));
    }
}

/// The path `rel` relative to `base`, as `Path::join` forms it for a relative
/// `rel`: `base`, a `/` unless `base` is empty or already ends in one, then
/// `rel`; an absolute `rel` replaces `base`.
pub open spec fn path_join(base: Seq<char>, rel: Seq<char>) -> Seq<char> {
    if rel.len() > 0 && rel[0] == '/' {
        rel
    } else if base.len() == 0 {
        rel
    } else if base.last() == '/' {
        base + rel
    } else {
        base + seq!['/'] + rel
    }
}

/// `base` joined with `rel`; see `path_join`.
pub fn join_path(base: &str, rel: &str) -> (r: String)
    ensures
        r@ == path_join(base@, rel@),
{
    let b = chars_of(base);
    let c = chars_of(rel);
    if c.len() > 0 && c[0] == '/' {
        return owned(rel);
    }
    if b.len() == 0 {
        return owned(rel);
    }
    if b[b.len() - 1] == '/' {
        return concat_str(base, rel);
    }
    let with_sep = concat_str(base, "/");
    proof {
        reveal_strlit("/");
    }
    let r = concat_str(with_sep.as_str(), rel);
    proof {
        assert(r@ == base@ + seq!['/'] + rel@);
    }
    r
}

/// Whether std counts `c` as white space (`char::is_whitespace`, the Unicode
/// `White_Space` property).
pub open spec fn unicode_whitespace(c: char) -> bool {
    let n = c as u32;
    ||| 0x09 <= n <= 0x0D
    ||| n == 0x20
    ||| n == 0x85
    ||| n == 0xA0
    ||| n == 0x1680
    ||| 0x2000 <= n <= 0x200A
    ||| n == 0x2028
    ||| n == 0x2029
    ||| n == 0x202F
    ||| n == 0x205F
    ||| n == 0x3000
}

/// Whether `c` is white space, as `char::is_whitespace` documents it: the
/// Unicode property `White_Space`, the 25 code points of `unicode_whitespace`.
pub(crate) fn is_whitespace(c: char) -> (r: bool)
    ensures
        r == unicode_whitespace(c),
{
    let n = c as u32;
    (0x09 <= n && n <= 0x0D) || n == 0x20 || n == 0x85 || n == 0xA0 || n == 0x1680 || (0x2000 <= n && n
        <= 0x200A) || n == 0x2028 || n == 0x2029 || n == 0x202F || n == 0x205F || n == 0x3000
}

/// `s` without its leading white space (`str::trim_start`).
pub open spec fn trim_start(s: Seq<char>) -> Seq<char>
    decreases s.len(),
{
    if s.len() > 0 && unicode_whitespace(s[0]) {
        trim_start(s.drop_first())
    } else {
        s
    }
}

/// `s` without its trailing white space (`str::trim_end`).
pub open spec fn trim_end(s: Seq<char>) -> Seq<char>
    decreases s.len(),
{
    if s.len() > 0 && unicode_whitespace(s.last()) {
        trim_end(s.drop_last())
    } else {
        s
    }
}

/// `s` without white space at either end (`str::trim`).
pub open spec fn trimmed(s: Seq<char>) -> Seq<char> {
    trim_end(trim_start(s))
}

/// Leading white space of `s` up to `i` may be skipped before trimming the start.
proof fn lemma_trim_start_skip(s: Seq<char>, i: int)
    requires
        0 <= i <= s.len(),
        forall|j: int| 0 <= j < i ==> unicode_whitespace(#[trigger] s[j]),
    ensures
        trim_start(s) == trim_start(s.skip(i)),
    decreases i,
{
    if i > 0 {
        lemma_trim_start_skip(s, i - 1);
        let t = s.skip(i - 1);
        assert(t.len() > 0 && t[0] == s[i - 1]);
        assert(unicode_whitespace(t[0]));
        assert(t.drop_first() =~= s.skip(i));
    } else {
        assert(s.skip(0) =~= s);
    }
}

/// Trailing white space of `s` from `k` on may be cut before trimming the end.
proof fn lemma_trim_end_take(s: Seq<char>, k: int)
    requires
        0 <= k <= s.len(),
        forall|j: int| k <= j < s.len() ==> unicode_whitespace(#[trigger] s[j]),
    ensures
        trim_end(s) == trim_end(s.take(k)),
    decreases s.len() - k,
{
    if k < s.len() {
        lemma_trim_end_take(s, k + 1);
        let t = s.take(k + 1);
        assert(t.len() > 0 && t.last() == s[k]);
        assert(unicode_whitespace(t.last()));
        assert(t.drop_last() =~= s.take(k));
    } else {
        assert(s.take(k) =~= s);
    }
}

/// The characters of `s` from `start` up to `end`, as a string.
fn substring_chars(s: &[char], start: usize, end: usize) -> (r: String)
    requires
        start <= end <= s@.len(),
    ensures
        r@ == s@.subrange(start as int, end as int),
{
    let mut v: Vec<char> = Vec::new();
    let mut i = start;
    while i < end
        invariant
            start <= i <= end <= s@.len(),
            v@ == s@.subrange(start as int, i as int),
        decreases end - i,
    {
        v.push(s[i]);
        i = i + 1;
        proof {
            assert(v@ =~= s@.subrange(start as int, i as int));
        }
    }
    string_from_chars(v.as_slice())
}

/// `s` without white space at either end; see `trimmed`.
pub fn trim_text(s: &str) -> (r: String)
    ensures
        r@ == trimmed(s@),
{
    let c = chars_of(s);
    let n = c.len();
    let mut i: usize = 0;
    while i < n && is_whitespace(c[i])
        invariant
            i <= n,
            n == c@.len(),
            c@ == s@,
            forall|j: int| 0 <= j < i ==> unicode_whitespace(#[trigger] c@[j]),
        decreases n - i,
    {
        i = i + 1;
    }
    let mut k: usize = n;
    while k > i && is_whitespace(c[k - 1])
        invariant
            i <= k <= n,
            n == c@.len(),
            c@ == s@,
            forall|j: int| k <= j < n ==> unicode_whitespace(#[trigger] c@[j]),
        decreases k - i,
    {
        k = k - 1;
    }
    let r = substring_chars(c.as_slice(), i, k);
    proof {
        let t = s@.skip(i as int);
        lemma_trim_start_skip(s@, i as int);
        assert(trim_start(t) == t);
        assert forall|j: int| k - i <= j < t.len() implies unicode_whitespace(#[trigger] t[j]) by {
            assert(t[j] == c@[j + i]);
        }
        lemma_trim_end_take(t, k - i);
        let u = t.take(k - i);
        assert(u =~= s@.subrange(i as int, k as int));
        if u.len() > 0 {
            assert(u.last() == c@[k - 1]);
        }
        assert(trim_end(u) == u);
    }
    r
}

/// The digit character of a value below ten is a digit of that value.
proof fn lemma_digit_char(d: nat)
    requires
        d < 10,
    ensures
        is_digit(digit_char(d)),
        digit_value(digit_char(d)) == d,
{
    assert(((d + '0' as nat) as u32) as char as int == d + 48) by {
        assert(48 <= d + 48 < 58);
    }
}

/// The decimal text of a number has only digits, and their value is the
/// number.
pub proof fn lemma_decimal_text_value(n: nat)
    ensures
        decimal_text(n).len() > 0,
        all_digits(decimal_text(n)),
        digits_value(decimal_text(n)) == n,
    decreases n,
{
    if n < 10 {
        lemma_digit_char(n);
        assert(decimal_text(n) == seq![digit_char(n)]);
        assert(decimal_text(n).drop_last() =~= Seq::<char>::empty());
        assert(digits_value(Seq::<char>::empty()) == 0);
        assert(digits_value(decimal_text(n)) == 0 * 10 + digit_value(digit_char(n)));
    } else {
        lemma_decimal_text_value(n / 10);
        lemma_digit_char(n % 10);
        let s = decimal_text(n / 10);
        let t = s.push(digit_char(n % 10));
        assert(decimal_text(n) == t);
        assert(t.drop_last() == s);
        assert forall|i: int| 0 <= i < t.len() implies #[trigger] is_digit(t[i]) by {
            if i < s.len() {
                assert(t[i] == s[i]);
            }
        }
        assert(digits_value(t) == digits_value(s) * 10 + digit_value(digit_char(n % 10)));
        vstd::arithmetic::div_mod::lemma_fundamental_div_mod(n as int, 10);
        assert(digits_value(s) * 10 == (n / 10) * 10);
    }
}

/// A number written in decimal reads back as the same number
/// (`n.to_string().parse::<u64>() == Ok(n)`).
pub proof fn lemma_decimal_text_parses(n: u64)
    ensures
        parse_u64(decimal_text(n as nat)) == Some(n),
{
    lemma_decimal_text_value(n as nat);
    let s = decimal_text(n as nat);
    assert(is_digit(s[0]));
    assert(s[0] != '+');
}

} // verus!
