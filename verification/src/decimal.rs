use vstd::prelude::*;

use crate::ids::{hex_char, hex_digit_str};

verus! {

/// The decimal rendering of `n`, most significant digit first, with no
/// leading zeros (a single `0` for zero). The digits `0` through `9` are
/// shared with the hexadecimal alphabet.
pub open spec fn dec_digits(n: nat) -> Seq<char>
    decreases n,
{
    if n < 10 {
        seq![hex_char(n)]
    } else {
        dec_digits(n / 10).push(hex_char(n % 10))
    }
}

/// The decimal rendering of a signed value: a leading `-` for a negative
/// one, then the digits of its magnitude.
pub open spec fn i64_dec_digits(n: int) -> Seq<char> {
    if n >= 0 {
        dec_digits(n as nat)
    } else {
        seq!['-'] + dec_digits((-n) as nat)
    }
}

/// The decimal rendering of `n`, as a string.
pub fn u64_to_dec(n: u64) -> (r: String)
    ensures
        r@ == dec_digits(n as nat),
    decreases n,
{
    if n < 10 {
        hex_digit_str(n).to_string()
    } else {
        let mut s = u64_to_dec(n / 10);
        s.append(hex_digit_str(n % 10));
        proof {
            assert(s@ =~= dec_digits(n as nat));
        }
        s
    }
}

/// The decimal rendering of a signed value, as a string.
pub fn i64_to_dec(n: i64) -> (r: String)
    ensures
        r@ == i64_dec_digits(n as int),
{
    if n >= 0 {
        u64_to_dec(n as u64)
    } else {
        let mag: u64 = ((-(n + 1)) as u64) + 1;
        proof {
            assert(mag as nat == (-(n as int)) as nat);
        }
        let s = u64_to_dec(mag);
        let r = "-".to_string().concat(s.as_str());
        proof {
            reveal_strlit("-");
            assert(r@ =~= seq!['-'] + dec_digits((-(n as int)) as nat));
        }
        r
    }
}

} // verus!
