//! Identifiers as texts.
//!
//! An identifier is written as the 32 lower-case hexadecimal digits of its
//! 128-bit value, most significant first, in groups of 8, 4, 4, 4 and 12
//! digits with hyphens between them.

use vstd::prelude::*;
use crate::text::{chars_of, hex, hex_string, string_of};

verus! {

/// The identifier that `uuid` reads from a text, if it reads one.
pub uninterp spec fn id_of_text(text: Seq<char>) -> Option<u128>;

/// `uuid::Uuid::parse_str`, as the 128-bit value. Trusted: the result is
/// what `uuid` reads from the text in any of the forms it knows, which the
/// contract only names.
#[verifier::external_body]
pub(crate) fn parse_id(text: &str) -> (r: Option<u128>)
    ensures
        r == id_of_text(text@),
{
    uuid::Uuid::parse_str(text).ok().map(|u| u.as_u128())
}

/// The `n` least significant bytes of `v`, least significant first.
pub open spec fn low_bytes(v: nat, n: nat) -> Seq<u8>
    decreases n,
{
    if n == 0 {
        Seq::empty()
    } else {
        seq![(v % 256) as u8] + low_bytes(v / 256, (n - 1) as nat)
    }
}

/// The 16 bytes of an identifier, most significant first.
pub open spec fn id_bytes(id: u128) -> Seq<u8> {
    low_bytes(id as nat, 16).reverse()
}

/// An identifier as a text.
pub open spec fn id_text_spec(id: u128) -> Seq<char> {
    let digits = hex(id_bytes(id));
    digits.subrange(0, 8) + seq!['-'] + digits.subrange(8, 12) + seq!['-'] + digits.subrange(
        12,
        16,
    ) + seq!['-'] + digits.subrange(16, 20) + seq!['-'] + digits.subrange(20, 32)
}

/// The 16 bytes of the identifier, most significant first.
pub fn bytes_of_id(id: u128) -> (r: Vec<u8>)
    ensures
        r@ == id_bytes(id),
        r@.len() == 16,
{
    let mut low: Vec<u8> = Vec::new();
    let mut rest: u128 = id;
    let mut i: usize = 0;
    while i < 16
        invariant
            i <= 16,
            low@.len() == i,
            low_bytes(id as nat, 16) == low@ + low_bytes(rest as nat, (16 - i) as nat),
        decreases 16 - i,
    {
        let b: u8 = (rest % 256) as u8;
        low.push(b);
        rest = rest / 256;
        i = i + 1;
    }
    let mut out: Vec<u8> = Vec::new();
    let mut k: usize = 16;
    while k > 0
        invariant
            k <= 16,
            low@.len() == 16,
            out@.len() == 16 - k,
            forall|j: int| 0 <= j < out@.len() ==> out@[j] == low@[15 - j],
        decreases k,
    {
        k = k - 1;
        out.push(low[k]);
    }
    out
}

/// The identifier as a text.
pub fn id_text(id: u128) -> (r: String)
    ensures
        r@ == id_text_spec(id),
        r@.len() == 36,
{
    let bytes = bytes_of_id(id);
    let digits = hex_string(&bytes);
    let d = chars_of(digits.as_str());
    let mut out: Vec<char> = Vec::new();
    let mut i: usize = 0;
    while i < 32
        invariant
            i <= 32,
            d@.len() == 32,
            out@.len() == i + (if i > 20 {
                4int
            } else if i > 16 {
                3int
            } else if i > 12 {
                2int
            } else if i > 8 {
                1int
            } else {
                0int
            }),
            out@ == with_hyphens(d@, i as int),
        decreases 32 - i,
    {
        if i == 8 || i == 12 || i == 16 || i == 20 {
            out.push('-');
        }
        out.push(d[i]);
        i = i + 1;
    }
    proof {
        hyphens_in_place(d@);
    }
    string_of(&out)
}

/// The first `n` of the digits, with a hyphen before the digits at
/// positions 8, 12, 16 and 20.
pub open spec fn with_hyphens(digits: Seq<char>, n: int) -> Seq<char>
    decreases n,
{
    if n <= 0 {
        Seq::empty()
    } else {
        let i = n - 1;
        let before = with_hyphens(digits, i);
        if i == 8 || i == 12 || i == 16 || i == 20 {
            before.push('-').push(digits[i])
        } else {
            before.push(digits[i])
        }
    }
}

/// Thirty-two digits with their hyphens are the five groups with hyphens
/// between them.
proof fn hyphens_in_place(d: Seq<char>)
    requires
        d.len() == 32,
    ensures
        with_hyphens(d, 32) == d.subrange(0, 8) + seq!['-'] + d.subrange(8, 12) + seq!['-']
            + d.subrange(12, 16) + seq!['-'] + d.subrange(16, 20) + seq!['-'] + d.subrange(20, 32),
{
    reveal_with_fuel(with_hyphens, 34);
}

} // verus!
