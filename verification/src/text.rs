//! Text helpers: character-level algorithms with exact contracts.
//!
//! Strings are viewed as sequences of `char`. The algorithms work on
//! `Vec<char>`. The making of a `String` from characters, the Unicode case
//! mappings and the Unicode white-space test come from the standard library
//! and are trusted.

use vstd::prelude::*;

verus! {

// ---------------------------------------------------------------------------
// Trusted standard-library items
// ---------------------------------------------------------------------------
/// Whether the standard library classifies the character as white space.
pub uninterp spec fn is_whitespace(c: char) -> bool;

/// The standard library's upper-case mapping of a text.
pub uninterp spec fn uppercase(s: Seq<char>) -> Seq<char>;

/// The standard library's lower-case mapping of a text.
pub uninterp spec fn lowercase(s: Seq<char>) -> Seq<char>;

/// The characters of `s`, in order.
pub fn chars_of(s: &str) -> (r: Vec<char>)
    ensures
        r@ == s@,
{
    broadcast use vstd::string::group_string_axioms;

    let mut out: Vec<char> = Vec::new();
    for c in iter: s.chars()
        invariant
            out@.len() == iter.index(),
            forall|i: int| 0 <= i < out@.len() ==> out@[i] == iter.seq()[i],
    {
        out.push(c);
    }
    out
}

/// `String::from_iter` over characters: the text made of `chars`, in order.
/// Trusted: the view of a `String` is by definition the sequence of its
/// characters.
#[verifier::external_body]
pub(crate) fn string_of(chars: &Vec<char>) -> (r: String)
    ensures
        r@ == chars@,
{
    chars.iter().collect()
}

/// `char::is_whitespace`. Trusted: the result is the Unicode `White_Space`
/// property of `c`, which the contract only names.
#[verifier::external_body]
pub(crate) fn char_is_whitespace(c: char) -> (r: bool)
    ensures
        r == is_whitespace(c),
{
    c.is_whitespace()
}

/// `str::to_uppercase`. Trusted: the result is the Unicode upper-case mapping
/// of `s`, which the contract only names.
#[verifier::external_body]
pub(crate) fn to_upper(s: &str) -> (r: String)
    ensures
        r@ == uppercase(s@),
{
    s.to_uppercase()
}

/// `str::to_lowercase`. Trusted: the result is the Unicode lower-case mapping
/// of `s`, which the contract only names.
#[verifier::external_body]
pub(crate) fn to_lower(s: &str) -> (r: String)
    ensures
        r@ == lowercase(s@),
{
    s.to_lowercase()
}

// ---------------------------------------------------------------------------
// Specifications
// ---------------------------------------------------------------------------
/// Length of the UTF-8 encoding of `s`, in bytes.
pub open spec fn utf8_len(s: Seq<char>) -> nat {
    vstd::utf8::encode_utf8(s).len()
}

/// Whether a word starts at position `i` of `s`: a character that is not
/// white space, at the start or right after white space.
pub open spec fn word_starts_at(s: Seq<char>, i: int) -> bool
    recommends
        0 <= i < s.len(),
{
    !is_whitespace(s[i]) && (i == 0 || is_whitespace(s[i - 1]))
}

/// Number of words that start among the first `n` characters of `s`.
pub open spec fn words_before(s: Seq<char>, n: int) -> nat
    recommends
        0 <= n <= s.len(),
    decreases n,
{
    if n <= 0 {
        0
    } else {
        words_before(s, n - 1) + if word_starts_at(s, n - 1) {
            1nat
        } else {
            0nat
        }
    }
}

/// Number of maximal runs of characters that are not white space.
pub open spec fn word_count(s: Seq<char>) -> nat {
    words_before(s, s.len() as int)
}

/// Whether `needle` occurs in `hay` starting at position `i`.
pub open spec fn occurs_at(hay: Seq<char>, needle: Seq<char>, i: int) -> bool {
    &&& 0 <= i
    &&& i + needle.len() <= hay.len()
    &&& hay.subrange(i, i + needle.len()) == needle
}

/// Whether `needle` occurs somewhere in `hay`.
pub open spec fn occurs_in(hay: Seq<char>, needle: Seq<char>) -> bool {
    exists|i: int| occurs_at(hay, needle, i)
}

/// The character of a decimal digit.
pub open spec fn digit_char(d: int) -> char
    recommends
        0 <= d < 10,
{
    if d == 0 {
        '0'
    } else if d == 1 {
        '1'
    } else if d == 2 {
        '2'
    } else if d == 3 {
        '3'
    } else if d == 4 {
        '4'
    } else if d == 5 {
        '5'
    } else if d == 6 {
        '6'
    } else if d == 7 {
        '7'
    } else if d == 8 {
        '8'
    } else {
        '9'
    }
}

/// The decimal rendering of `n`, without sign or leading zeros.
pub open spec fn decimal(n: nat) -> Seq<char>
    decreases n,
{
    if n < 10 {
        seq![digit_char(n as int)]
    } else {
        decimal(n / 10).push(digit_char((n % 10) as int))
    }
}

/// The character of a hexadecimal digit, lower case.
pub open spec fn hex_char(d: int) -> char
    recommends
        0 <= d < 16,
{
    if d < 10 {
        digit_char(d)
    } else if d == 10 {
        'a'
    } else if d == 11 {
        'b'
    } else if d == 12 {
        'c'
    } else if d == 13 {
        'd'
    } else if d == 14 {
        'e'
    } else {
        'f'
    }
}

/// Two lower-case hexadecimal digits per byte, in order.
pub open spec fn hex(bytes: Seq<u8>) -> Seq<char>
    decreases bytes.len(),
{
    if bytes.len() == 0 {
        Seq::empty()
    } else {
        hex(bytes.drop_last()).push(hex_char(bytes.last() as int / 16)).push(
            hex_char(bytes.last() as int % 16),
        )
    }
}

/// `s` without its trailing run of the character `c`.
pub open spec fn trim_end(s: Seq<char>, c: char) -> Seq<char>
    decreases s.len(),
{
    if s.len() > 0 && s.last() == c {
        trim_end(s.drop_last(), c)
    } else {
        s
    }
}

/// Position of the last occurrence of `c` in `s`, or `-1`.
pub open spec fn last_index_of(s: Seq<char>, c: char) -> int
    decreases s.len(),
{
    if s.len() == 0 {
        -1
    } else if s.last() == c {
        s.len() - 1
    } else {
        last_index_of(s.drop_last(), c)
    }
}

/// The last occurrence of `c` lies in `s`, where there is one.
pub proof fn last_index_of_in_range(s: Seq<char>, c: char)
    ensures
        -1 <= last_index_of(s, c) < s.len(),
        last_index_of(s, c) >= 0 ==> s[last_index_of(s, c)] == c,
    decreases s.len(),
{
    if s.len() > 0 && s.last() != c {
        last_index_of_in_range(s.drop_last(), c);
    }
}

// ---------------------------------------------------------------------------
// Algorithms
// ---------------------------------------------------------------------------
/// The characters of `s` in reverse order.
pub fn reversed(s: &str) -> (r: String)
    ensures
        r@ == s@.reverse(),
{
    let chars = chars_of(s);
    let n = chars.len();
    let mut out: Vec<char> = Vec::new();
    let mut i: usize = n;
    while i > 0
        invariant
            n == chars@.len(),
            i <= n,
            out@.len() == n - i,
            forall|k: int| 0 <= k < out@.len() ==> out@[k] == chars@[n - 1 - k],
        decreases i,
    {
        i = i - 1;
        out.push(chars[i]);
    }
    string_of(&out)
}

/// Counts the words of `s`: maximal runs of characters that are not white
/// space.
pub fn count_words(s: &str) -> (r: usize)
    ensures
        r == word_count(s@),
{
    let chars = chars_of(s);
    let n = chars.len();
    let mut count: usize = 0;
    let mut prev_space = true;
    let mut i: usize = 0;
    while i < n
        invariant
            n == chars@.len(),
            chars@ == s@,
            i <= n,
            count == words_before(s@, i as int),
            count <= i,
            prev_space == (i == 0 || is_whitespace(s@[i - 1])),
        decreases n - i,
    {
        let space = char_is_whitespace(chars[i]);
        if !space && prev_space {
            count = count + 1;
        }
        prev_space = space;
        i = i + 1;
    }
    count
}

/// Whether `needle` occurs in `hay` at position `i`.
fn matches_at(hay: &Vec<char>, needle: &Vec<char>, i: usize) -> (r: bool)
    requires
        i + needle@.len() <= hay@.len(),
    ensures
        r == occurs_at(hay@, needle@, i as int),
{
    let m = needle.len();
    let ghost n = hay.len();
    let mut j: usize = 0;
    while j < m
        invariant
            n == hay@.len(),
            m == needle@.len(),
            i + m <= hay@.len() <= usize::MAX,
            j <= m,
            forall|k: int| 0 <= k < j ==> hay@[i + k] == needle@[k],
        decreases m - j,
    {
        if hay[i + j] != needle[j] {
            return false;
        }
        j = j + 1;
    }
    assert(hay@.subrange(i as int, i + m) =~= needle@);
    true
}

/// Whether `needle` occurs somewhere in `hay`.
pub fn chars_contain(hay: &Vec<char>, needle: &Vec<char>) -> (r: bool)
    ensures
        r == occurs_in(hay@, needle@),
{
    let n = hay.len();
    let m = needle.len();
    if m == 0 {
        assert(hay@.subrange(0, 0) =~= needle@);
        assert(occurs_at(hay@, needle@, 0));
        return true;
    }
    if m > n {
        return false;
    }
    let last = n - m;
    let mut i: usize = 0;
    while i <= last
        invariant
            n == hay@.len(),
            m == needle@.len(),
            0 < m <= n,
            last == n - m,
            i <= last + 1,
            forall|k: int| 0 <= k < i ==> !occurs_at(hay@, needle@, k),
        decreases last + 1 - i,
    {
        if matches_at(hay, needle, i) {
            return true;
        }
        i = i + 1;
    }
    false
}

/// Whether the text `needle` occurs somewhere in the text `hay`.
pub fn contains(hay: &str, needle: &str) -> (r: bool)
    ensures
        r == occurs_in(hay@, needle@),
{
    let h = chars_of(hay);
    let n = chars_of(needle);
    chars_contain(&h, &n)
}

/// The character of the decimal digit `d`.
fn digit(d: u8) -> (c: char)
    requires
        d < 10,
    ensures
        c == digit_char(d as int),
{
    if d == 0 {
        '0'
    } else if d == 1 {
        '1'
    } else if d == 2 {
        '2'
    } else if d == 3 {
        '3'
    } else if d == 4 {
        '4'
    } else if d == 5 {
        '5'
    } else if d == 6 {
        '6'
    } else if d == 7 {
        '7'
    } else if d == 8 {
        '8'
    } else {
        '9'
    }
}

/// The character of the hexadecimal digit `d`, lower case.
fn hex_digit(d: u8) -> (c: char)
    requires
        d < 16,
    ensures
        c == hex_char(d as int),
{
    if d < 10 {
        digit(d)
    } else if d == 10 {
        'a'
    } else if d == 11 {
        'b'
    } else if d == 12 {
        'c'
    } else if d == 13 {
        'd'
    } else if d == 14 {
        'e'
    } else {
        'f'
    }
}

/// Appends the decimal rendering of `n` to `out`.
pub fn push_decimal(out: &mut Vec<char>, n: u64)
    ensures
        final(out)@ == old(out)@ + decimal(n as nat),
    decreases n,
{
    if n >= 10 {
        push_decimal(out, n / 10);
    }
    let d: u8 = (n % 10) as u8;
    out.push(digit(d));
}

/// Appends the characters of `s` to `out`.
pub fn push_str(out: &mut Vec<char>, s: &str)
    ensures
        final(out)@ == old(out)@ + s@,
{
    let mut chars = chars_of(s);
    out.append(&mut chars);
}

/// The decimal rendering of `n`.
pub fn decimal_string(n: u64) -> (r: String)
    ensures
        r@ == decimal(n as nat),
{
    let mut out: Vec<char> = Vec::new();
    push_decimal(&mut out, n);
    string_of(&out)
}

/// Two lower-case hexadecimal digits per byte of `bytes`.
pub fn hex_string(bytes: &Vec<u8>) -> (r: String)
    ensures
        r@ == hex(bytes@),
        r@.len() == 2 * bytes@.len(),
{
    let n = bytes.len();
    let mut out: Vec<char> = Vec::new();
    let mut i: usize = 0;
    while i < n
        invariant
            n == bytes@.len(),
            i <= n,
            out@ == hex(bytes@.take(i as int)),
            out@.len() == 2 * i,
        decreases n - i,
    {
        let b = bytes[i];
        out.push(hex_digit(b / 16));
        out.push(hex_digit(b % 16));
        proof {
            let next = bytes@.take(i + 1);
            assert(next.drop_last() =~= bytes@.take(i as int));
        }
        i = i + 1;
    }
    assert(bytes@.take(n as int) =~= bytes@);
    string_of(&out)
}

/// `s` without its trailing run of the character `c`.
pub fn trimmed_end(s: &str, c: char) -> (r: String)
    ensures
        r@ == trim_end(s@, c),
{
    let mut chars = chars_of(s);
    let mut n: usize = chars.len();
    assert(s@.take(n as int) =~= s@);
    while n > 0 && chars[n - 1] == c
        invariant
            n <= chars@.len(),
            chars@ == s@,
            trim_end(s@, c) == trim_end(s@.take(n as int), c),
        decreases n,
    {
        proof {
            let cur = s@.take(n as int);
            assert(cur.drop_last() =~= s@.take(n - 1));
        }
        n = n - 1;
    }
    proof {
        let cur = s@.take(n as int);
    }
    chars.truncate(n);
    string_of(&chars)
}

/// Position of the last occurrence of `c` in `chars`, if any.
pub fn find_last(chars: &Vec<char>, c: char) -> (r: Option<usize>)
    ensures
        match r {
            Some(i) => i == last_index_of(chars@, c) && i < chars@.len(),
            None => last_index_of(chars@, c) == -1,
        },
{
    let mut n: usize = chars.len();
    assert(chars@.take(n as int) =~= chars@);
    while n > 0
        invariant
            n <= chars@.len(),
            last_index_of(chars@, c) == last_index_of(chars@.take(n as int), c),
        decreases n,
    {
        let ghost cur = chars@.take(n as int);
        if chars[n - 1] == c {
            return Some(n - 1);
        }
        assert(cur.drop_last() =~= chars@.take(n - 1));
        n = n - 1;
    }
    None
}

/// The texts `a` and `b`, one after the other.
pub fn concat(a: &str, b: &str) -> (r: String)
    ensures
        r@ == a@ + b@,
{
    let mut out: Vec<char> = chars_of(a);
    push_str(&mut out, b);
    string_of(&out)
}

} // verus!
