//! Text helpers: comparing strings and writing numbers in decimal.

use vstd::prelude::*;
use vstd::utf8::{decode_utf8, encode_utf8, encode_utf8_decode_utf8};
use vstd::string::StringSliceAdditionalSpecFns;

verus! {

/// Two texts with the same UTF-8 encoding are the same text.
pub proof fn lemma_encoding_is_injective(a: Seq<char>, b: Seq<char>)
    requires
        encode_utf8(a) == encode_utf8(b),
    ensures
        a == b,
{
    encode_utf8_decode_utf8(a);
    encode_utf8_decode_utf8(b);
}

/// Whether two strings hold the same text.
pub fn str_eq(a: &str, b: &str) -> (same: bool)
    ensures
        same == (a@ == b@),
{
    let x = a.as_bytes();
    let y = b.as_bytes();
    if x.len() != y.len() {
        return false;
    }
    let mut i: usize = 0;
    while i < x.len()
        invariant
            x@ == a.spec_bytes(),
            y@ == b.spec_bytes(),
            x@.len() == y@.len(),
            i <= x@.len(),
            forall|k: int| 0 <= k < i ==> x@[k] == y@[k],
        decreases x@.len() - i,
    {
        if x[i] != y[i] {
            return false;
        }
        i += 1;
    }
    proof {
        assert(x@ =~= y@);
        lemma_encoding_is_injective(a@, b@);
    }
    true
}

/// The character that stands for a digit below ten.
pub open spec fn digit_char(d: nat) -> char
    recommends
        d < 10,
{
    if d == 0 {
        '0'
    } else if d == 1 {
        '1'
    } else if d == 2 {
        '2'
    } else if d == 3 {
        '3'
    } else if d == 4 {
        '4'
    } else if d == 5 {
        '5'
    } else if d == 6 {
        '6'
    } else if d == 7 {
        '7'
    } else if d == 8 {
        '8'
    } else {
        '9'
    }
}

/// A number written in decimal, without sign and without leading zeros.
pub open spec fn decimal(n: nat) -> Seq<char>
    decreases n,
{
    if n < 10 {
        seq![digit_char(n)]
    } else {
        decimal(n / 10).push(digit_char(n % 10))
    }
}

} // verus!
