use vstd::prelude::*;

verus! {

/// 16 to the power `len`: the number of distinct `len`-digit hex strings.
pub open spec fn pow16(len: nat) -> nat
    decreases len,
{
    if len == 0 {
        1
    } else {
        16 * pow16((len - 1) as nat)
    }
}

/// The lower-case hexadecimal digit for `d` (16 and above never arise).
pub open spec fn hex_char(d: nat) -> char {
    if d == 0 {
        '0'
    } else if d == 1 {
        '1'
    } else if d == 2 {
        '2'
    } else if d == 3 {
        '3'
    } else if d == 4 {
        '4'
    } else if d == 5 {
        '5'
    } else if d == 6 {
        '6'
    } else if d == 7 {
        '7'
    } else if d == 8 {
        '8'
    } else if d == 9 {
        '9'
    } else if d == 10 {
        'a'
    } else if d == 11 {
        'b'
    } else if d == 12 {
        'c'
    } else if d == 13 {
        'd'
    } else if d == 14 {
        'e'
    } else {
        'f'
    }
}

/// Whether `c` is one of the characters an id is made of: `[0-9a-f]`.
pub open spec fn is_hex_digit(c: char) -> bool {
    c == '0' || c == '1' || c == '2' || c == '3' || c == '4' || c == '5' || c == '6' || c == '7'
        || c == '8' || c == '9' || c == 'a' || c == 'b' || c == 'c' || c == 'd' || c == 'e'
        || c == 'f'
}

/// The low `len` hexadecimal digits of `n`, most significant first,
/// zero-padded to exactly `len` characters.
pub open spec fn hex_digits(n: nat, len: nat) -> Seq<char>
    decreases len,
{
    if len == 0 {
        Seq::empty()
    } else {
        hex_digits(n / 16, (len - 1) as nat).push(hex_char(n % 16))
    }
}

/// A board id: the zero-padded 16-digit hex timestamp (its bit pattern, for
/// a clock before the epoch) followed by the zero-padded 16-digit hex random
/// component.
pub open spec fn board_id_chars(now: i64, n: u64) -> Seq<char> {
    hex_digits((now as u64) as nat, 16) + hex_digits(n as nat, 16)
}

/// Whether `s` matches the id shape: exactly 32 characters, each `[0-9a-f]`.
pub open spec fn is_hex_id(s: Seq<char>) -> bool {
    s.len() == 32 && (forall|i: int| 0 <= i < 32 ==> is_hex_digit(s[i]))
}

pub proof fn lemma_hex_digits_shape(n: nat, len: nat)
    ensures
        hex_digits(n, len).len() == len,
        forall|i: int| 0 <= i < len ==> is_hex_digit(hex_digits(n, len)[i]),
    decreases len,
{
    if len > 0 {
        lemma_hex_digits_shape(n / 16, (len - 1) as nat);
        assert(is_hex_digit(hex_char(n % 16)));
    }
}

/// No two numbers below 16^len share the same `len`-digit rendering.
pub proof fn lemma_hex_digits_injective(a: nat, b: nat, len: nat)
    requires
        a < pow16(len),
        b < pow16(len),
        hex_digits(a, len) == hex_digits(b, len),
    ensures
        a == b,
    decreases len,
{
    if len == 0 {
    } else {
        lemma_hex_digits_shape(a, len);
        lemma_hex_digits_shape(b, len);
        let sa = hex_digits(a, len);
        let sb = hex_digits(b, len);
        assert(sa.last() == hex_char(a % 16));
        assert(sb.last() == hex_char(b % 16));
        assert(a % 16 == b % 16) by {
            assert(hex_char(a % 16) == hex_char(b % 16));
        }
        assert(sa.drop_last() =~= hex_digits(a / 16, (len - 1) as nat)) by {
            lemma_hex_digits_shape(a / 16, (len - 1) as nat);
        }
        assert(sb.drop_last() =~= hex_digits(b / 16, (len - 1) as nat)) by {
            lemma_hex_digits_shape(b / 16, (len - 1) as nat);
        }
        assert(pow16(len) == 16 * pow16((len - 1) as nat));
        assert(a / 16 < pow16((len - 1) as nat)) by (nonlinear_arith)
            requires
                a < 16 * pow16((len - 1) as nat),
        ;
        assert(b / 16 < pow16((len - 1) as nat)) by (nonlinear_arith)
            requires
                b < 16 * pow16((len - 1) as nat),
        ;
        lemma_hex_digits_injective(a / 16, b / 16, (len - 1) as nat);
        assert(a == 16 * (a / 16) + a % 16);
        assert(b == 16 * (b / 16) + b % 16);
    }
}

/// Two ids minted at the same clock value still differ whenever their random
/// components differ: the random half of the id pins the random value down.
pub proof fn lemma_same_clock_distinct_ids(now: i64, n1: u64, n2: u64)
    requires
        n1 != n2,
    ensures
        board_id_chars(now, n1) != board_id_chars(now, n2),
{
    let hi = hex_digits((now as u64) as nat, 16);
    let lo1 = hex_digits(n1 as nat, 16);
    let lo2 = hex_digits(n2 as nat, 16);
    lemma_hex_digits_shape((now as u64) as nat, 16);
    lemma_hex_digits_shape(n1 as nat, 16);
    lemma_hex_digits_shape(n2 as nat, 16);
    if board_id_chars(now, n1) == board_id_chars(now, n2) {
        assert((hi + lo1).subrange(16, 32) =~= lo1);
        assert((hi + lo2).subrange(16, 32) =~= lo2);
        assert(pow16(16) == 0x10000000000000000) by {
            reveal_with_fuel(pow16, 17);
        }
        lemma_hex_digits_injective(n1 as nat, n2 as nat, 16);
    }
}

/// Every board id has the required shape: 32 characters, all `[0-9a-f]`.
pub proof fn lemma_board_id_shape(now: i64, n: u64)
    ensures
        is_hex_id(board_id_chars(now, n)),
{
    lemma_hex_digits_shape((now as u64) as nat, 16);
    lemma_hex_digits_shape(n as nat, 16);
}

/// The single hexadecimal digit for `d`, as text.
pub(crate) fn hex_digit_str(d: u64) -> (r: &'static str)
    requires
        d < 16,
    ensures
        r@ == seq![hex_char(d as nat)],
{
    proof {
        reveal_strlit("0");
        reveal_strlit("1");
        reveal_strlit("2");
        reveal_strlit("3");
        reveal_strlit("4");
        reveal_strlit("5");
        reveal_strlit("6");
        reveal_strlit("7");
        reveal_strlit("8");
        reveal_strlit("9");
        reveal_strlit("a");
        reveal_strlit("b");
        reveal_strlit("c");
        reveal_strlit("d");
        reveal_strlit("e");
        reveal_strlit("f");
    }
    let r: &'static str = match d {
        0 => "0",
        1 => "1",
        2 => "2",
        3 => "3",
        4 => "4",
        5 => "5",
        6 => "6",
        7 => "7",
        8 => "8",
        9 => "9",
        10 => "a",
        11 => "b",
        12 => "c",
        13 => "d",
        14 => "e",
        _ => "f",
    };
    proof {
        assert(r@ =~= seq![hex_char(d as nat)]);
    }
    r
}

/// The low `len` hexadecimal digits of `n`, zero-padded, as a string.
pub fn to_hex_padded(n: u64, len: u8) -> (r: String)
    ensures
        r@ == hex_digits(n as nat, len as nat),
    decreases len,
{
    if len == 0 {
        String::new()
    } else {
        let mut s = to_hex_padded(n / 16, len - 1);
        s.append(hex_digit_str(n % 16));
        proof {
            assert(s@ =~= hex_digits(n as nat, len as nat));
        }
        s
    }
}

/// The id of a freshly created entity: the hex timestamp concatenated with
/// the hex random component, 32 characters in all.
pub fn make_board_id(now: i64, n: u64) -> (r: String)
    ensures
        r@ == board_id_chars(now, n),
        is_hex_id(r@),
{
    #[verifier::truncate]
    let ts: u64 = now as u64;
    let hi = to_hex_padded(ts, 16);
    let lo = to_hex_padded(n, 16);
    let r = hi.concat(lo.as_str());
    proof {
        lemma_board_id_shape(now, n);
    }
    r
}

/// Relies on rand::random for a fresh 64-bit random value; nothing is
/// promised of the value, and callers state what holds of every outcome.
#[verifier::external_body]
pub(crate) fn random_u64() -> u64 {
    rand::random::<u64>()
}

/// Mints a new id from the given clock value and a fresh random component.
pub fn generate_id(now: i64) -> (r: String)
    ensures
        is_hex_id(r@),
        exists|n: u64| r@ == board_id_chars(now, n),
{
    let n = random_u64();
    let r = make_board_id(now, n);
    proof {
        assert(r@ == board_id_chars(now, n));
    }
    r
}

} // verus!
