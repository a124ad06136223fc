//! Hex/wei codec: integral wei amounts become `0x`-prefixed lowercase hex
//! strings without leading zeros (`"0x0"` for zero), and hex-encoded numbers
//! in responses are parsed back to integers.

use vstd::prelude::*;
use vstd::arithmetic::div_mod::{
    lemma_div_decreases, lemma_fundamental_div_mod, lemma_mod_division_less_than_divisor,
};
use vstd::string::StringExecFns;

verus! {

/// The lowercase hexadecimal digit character for a value below sixteen.
pub open spec fn hex_digit(d: nat) -> char
    recommends
        d < 16,
{
    if d == 0 {
        '0'
    } else if d == 1 {
        '1'
    } else if d == 2 {
        '2'
    } else if d == 3 {
        '3'
    } else if d == 4 {
        '4'
    } else if d == 5 {
        '5'
    } else if d == 6 {
        '6'
    } else if d == 7 {
        '7'
    } else if d == 8 {
        '8'
    } else if d == 9 {
        '9'
    } else if d == 10 {
        'a'
    } else if d == 11 {
        'b'
    } else if d == 12 {
        'c'
    } else if d == 13 {
        'd'
    } else if d == 14 {
        'e'
    } else {
        'f'
    }
}

/// Hexadecimal digits of `w`, most significant first, without leading zeros
/// (a single `'0'` for zero).
pub open spec fn hex_rep(w: nat) -> Seq<char>
    decreases w,
{
    if w < 16 {
        seq![hex_digit(w)]
    } else {
        hex_rep(w / 16).push(hex_digit(w % 16))
    }
}

/// The canonical hex string for a wei amount: `0x` followed by the digits.
pub open spec fn wei_hex(w: nat) -> Seq<char> {
    seq!['0', 'x'] + hex_rep(w)
}

/// Whether `c` is a hexadecimal digit; both letter cases are accepted when
/// parsing.
pub open spec fn is_hex_char(c: char) -> bool {
    let u = c as u32;
    (('0' as u32) <= u && u <= ('9' as u32)) || (('a' as u32) <= u && u <= ('f' as u32)) || ((
    'A' as u32) <= u && u <= ('F' as u32))
}

/// The numeric value of a hexadecimal digit character (zero on other input).
pub open spec fn hex_char_val(c: char) -> nat {
    let u = c as u32;
    if ('0' as u32) <= u && u <= ('9' as u32) {
        (u - ('0' as u32)) as nat
    } else if ('a' as u32) <= u && u <= ('f' as u32) {
        (u - ('a' as u32) + 10) as nat
    } else if ('A' as u32) <= u && u <= ('F' as u32) {
        (u - ('A' as u32) + 10) as nat
    } else {
        0
    }
}

/// The number denoted by a sequence of hexadecimal digits, most significant
/// first.
pub open spec fn hex_val_of(s: Seq<char>) -> nat
    decreases s.len(),
{
    if s.len() == 0 {
        0
    } else {
        16 * hex_val_of(s.drop_last()) + hex_char_val(s.last())
    }
}

/// A well-formed hex-encoded number: `0x`, then at least one hex digit.
pub open spec fn valid_hex_str(s: Seq<char>) -> bool {
    &&& s.len() > 2
    &&& s[0] == '0'
    &&& s[1] == 'x'
    &&& forall|i: int| 2 <= i < s.len() ==> is_hex_char(#[trigger] s[i])
}

proof fn lemma_hex_digit_val(d: nat)
    requires
        d < 16,
    ensures
        is_hex_char(hex_digit(d)),
        hex_char_val(hex_digit(d)) == d,
        hex_digit(d) == '0' <==> d == 0,
{
}

proof fn lemma_hex_rep_val(w: nat)
    ensures
        hex_val_of(hex_rep(w)) == w,
        hex_rep(w).len() >= 1,
        forall|i: int| 0 <= i < hex_rep(w).len() ==> is_hex_char(#[trigger] hex_rep(w)[i]),
        w != 0 ==> hex_rep(w)[0] != '0',
    decreases w,
{
    if w < 16 {
        lemma_hex_digit_val(w);
        assert(hex_rep(w).drop_last() =~= Seq::<char>::empty());
        assert(hex_val_of(hex_rep(w).drop_last()) == 0);
    } else {
        lemma_div_decreases(w as int, 16);
        lemma_mod_division_less_than_divisor(w as int, 16);
        lemma_fundamental_div_mod(w as int, 16);
        lemma_hex_rep_val(w / 16);
        lemma_hex_digit_val(w % 16);
        assert(hex_rep(w).drop_last() =~= hex_rep(w / 16));
        assert(hex_rep(w)[0] == hex_rep(w / 16)[0]);
    }
}

proof fn lemma_hex_val_prefix_le(t: Seq<char>, k: int)
    requires
        0 <= k <= t.len(),
    ensures
        hex_val_of(t.subrange(0, k)) <= hex_val_of(t),
    decreases t.len() - k,
{
    if k == t.len() {
        assert(t.subrange(0, k) =~= t);
    } else {
        assert(t.subrange(0, k + 1).drop_last() =~= t.subrange(0, k));
        lemma_hex_val_prefix_le(t, k + 1);
    }
}

/// Law: the canonical hex string of a wei amount is well formed, parses back
/// to the same amount, and carries no leading zero digit (the digit string of
/// zero is exactly `"0"`).
pub proof fn lemma_wei_hex_round_trip(w: nat)
    ensures
        valid_hex_str(wei_hex(w)),
        hex_val_of(wei_hex(w).skip(2)) == w,
        w != 0 ==> wei_hex(w)[2] != '0',
        w == 0 ==> wei_hex(w) =~= seq!['0', 'x', '0'],
{
    lemma_hex_rep_val(w);
    assert(wei_hex(w).skip(2) =~= hex_rep(w));
}

fn hex_digit_str(d: u8) -> (s: &'static str)
    requires
        d < 16,
    ensures
        s@ == seq![hex_digit(d as nat)],
{
    proof {
        reveal_strlit("0");
        reveal_strlit("1");
        reveal_strlit("2");
        reveal_strlit("3");
        reveal_strlit("4");
        reveal_strlit("5");
        reveal_strlit("6");
        reveal_strlit("7");
        reveal_strlit("8");
        reveal_strlit("9");
        reveal_strlit("a");
        reveal_strlit("b");
        reveal_strlit("c");
        reveal_strlit("d");
        reveal_strlit("e");
        reveal_strlit("f");
    }
    match d {
        0 => "0",
        1 => "1",
        2 => "2",
        3 => "3",
        4 => "4",
        5 => "5",
        6 => "6",
        7 => "7",
        8 => "8",
        9 => "9",
        10 => "a",
        11 => "b",
        12 => "c",
        13 => "d",
        14 => "e",
        _ => "f",
    }
}

fn push_hex_digits(w: u128, out: &mut String)
    ensures
        final(out)@ == old(out)@ + hex_rep(w as nat),
    decreases w,
{
    if w >= 16 {
        proof {
            lemma_div_decreases(w as int, 16);
        }
        push_hex_digits(w / 16, out);
    }
    let d: u8 = (w % 16) as u8;
    let ds = hex_digit_str(d);
    out.append(ds);
    proof {
        if w >= 16 {
            lemma_mod_division_less_than_divisor(w as int, 16);
        }
        assert(final(out)@ =~= old(out)@ + hex_rep(w as nat));
    }
}

/// Canonical hex encoding of a wei amount: `"0x"` plus lowercase digits with
/// no leading zeros; zero encodes as `"0x0"`.
pub fn encode_wei(w: u128) -> (r: String)
    ensures
        r@ == wei_hex(w as nat),
{
    proof {
        reveal_strlit("0x");
    }
    let mut r = "0x".to_owned();
    push_hex_digits(w, &mut r);
    proof {
        assert(r@ =~= wei_hex(w as nat));
    }
    r
}

/// Parses a `0x`-prefixed hex string to an integer. Returns the denoted value
/// exactly when the string is well formed and the value fits in `u128`.
pub fn parse_hex_u128(s: &str) -> (r: Option<u128>)
    ensures
        r is Some <==> valid_hex_str(s@) && hex_val_of(s@.skip(2)) <= u128::MAX,
        r matches Some(v) ==> v as nat == hex_val_of(s@.skip(2)),
{
    let n = s.unicode_len();
    if n <= 2 {
        return None;
    }
    if s.get_char(0) != '0' || s.get_char(1) != 'x' {
        return None;
    }
    let mut val: u128 = 0;
    let ghost t: Seq<char> = s@.skip(2);
    for i in 2..n
        invariant
            n == s@.len(),
            2 < n,
            s@[0] == '0',
            s@[1] == 'x',
            t == s@.skip(2),
            forall|j: int| 2 <= j < i ==> is_hex_char(#[trigger] s@[j]),
            val as nat == hex_val_of(t.subrange(0, i - 2)),
    {
        let c = s.get_char(i);
        let u = c as u32;
        let d: u128 = if ('0' as u32) <= u && u <= ('9' as u32) {
            (u - ('0' as u32)) as u128
        } else if ('a' as u32) <= u && u <= ('f' as u32) {
            (u - ('a' as u32) + 10) as u128
        } else if ('A' as u32) <= u && u <= ('F' as u32) {
            (u - ('A' as u32) + 10) as u128
        } else {
            return None;
        };
        proof {
            assert(t.subrange(0, i - 2 + 1).drop_last() =~= t.subrange(0, i - 2));
            assert(t.subrange(0, i - 2 + 1).last() == s@[i as int]);
        }
        let next = match val.checked_mul(16) {
            Some(m) => match m.checked_add(d) {
                Some(a) => a,
                None => {
                    proof {
                        lemma_hex_val_prefix_le(t, i - 2 + 1);
                    }
                    return None;
                },
            },
            None => {
                proof {
                    lemma_hex_val_prefix_le(t, i - 2 + 1);
                }
                return None;
            },
        };
        val = next;
    }
    proof {
        assert(t.subrange(0, n - 2) =~= t);
    }
    Some(val)
}

/// Parses a `0x`-prefixed hex string to a `u64`, as responses encode block
/// numbers. Returns the denoted value exactly when the string is well formed
/// and the value fits in `u64`.
pub fn parse_hex_u64(s: &str) -> (r: Option<u64>)
    ensures
        r is Some <==> valid_hex_str(s@) && hex_val_of(s@.skip(2)) <= u64::MAX,
        r matches Some(v) ==> v as nat == hex_val_of(s@.skip(2)),
{
    match parse_hex_u128(s) {
        Some(v) => {
            if v <= u64::MAX as u128 {
                Some(v as u64)
            } else {
                None
            }
        },
        None => None,
    }
}

} // verus!
