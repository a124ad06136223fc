//! Character-level string utilities: exact equality and ASCII
//! case-insensitive substring search, used to classify RPC endpoints.

use vstd::prelude::*;
use vstd::string::StrSliceExecFns;

verus! {

/// ASCII lowercase folding of one character; all other characters are kept.
pub open spec fn fold_char(c: char) -> char {
    if 'A' <= c && c <= 'Z' {
        (((c as u8) + 32) as u8) as char
    } else {
        c
    }
}

/// `t` occurs in `s` at position `i`, compared after ASCII case folding.
pub open spec fn token_matches_at(s: Seq<char>, t: Seq<char>, i: int) -> bool {
    &&& 0 <= i
    &&& i + t.len() <= s.len()
    &&& forall|j: int| 0 <= j < t.len() ==> fold_char(s[i + j]) == fold_char(#[trigger] t[j])
}

/// `s` contains `t` as a substring, compared after ASCII case folding.
pub open spec fn contains_token(s: Seq<char>, t: Seq<char>) -> bool {
    exists|i: int| token_matches_at(s, t, i)
}

fn exec_fold_char(c: char) -> (r: char)
    ensures
        r == fold_char(c),
{
    if c >= 'A' && c <= 'Z' {
        ((c as u8) + 32) as char
    } else {
        c
    }
}

/// Exact (case-sensitive) string equality, character by character.
pub fn str_eq(a: &str, b: &str) -> (r: bool)
    ensures
        r == (a@ == b@),
{
    let na = a.unicode_len();
    let nb = b.unicode_len();
    if na != nb {
        return false;
    }
    for i in 0..na
        invariant
            na == a@.len(),
            na == b@.len(),
            forall|j: int| 0 <= j < i ==> a@[j] == b@[j],
    {
        if a.get_char(i) != b.get_char(i) {
            return false;
        }
    }
    proof {
        assert(a@ =~= b@);
    }
    true
}

fn matches_at(s: &str, t: &str, i: usize) -> (r: bool)
    requires
        i + t@.len() <= s@.len(),
    ensures
        r == token_matches_at(s@, t@, i as int),
{
    let n = s.unicode_len();
    let m = t.unicode_len();
    for j in 0..m
        invariant
            n == s@.len(),
            m == t@.len(),
            i + m <= s@.len(),
            forall|k: int| 0 <= k < j ==> fold_char(s@[i + k]) == fold_char(#[trigger] t@[k]),
    {
        if exec_fold_char(s.get_char(i + j)) != exec_fold_char(t.get_char(j)) {
            return false;
        }
    }
    true
}

/// Whether `s` contains `t` as a substring under ASCII case folding.
pub fn contains_fold(s: &str, t: &str) -> (r: bool)
    ensures
        r == contains_token(s@, t@),
{
    let n = s.unicode_len();
    let m = t.unicode_len();
    if m > n {
        proof {
            assert(forall|i: int| !token_matches_at(s@, t@, i));
        }
        return false;
    }
    if m == 0 {
        proof {
            assert(token_matches_at(s@, t@, 0));
        }
        return true;
    }
    for i in 0..(n - m + 1)
        invariant
            n == s@.len(),
            m == t@.len(),
            m <= n,
            forall|k: int| 0 <= k < i ==> !token_matches_at(s@, t@, k),
    {
        if matches_at(s, t, i) {
            return true;
        }
    }
    proof {
        assert(forall|k: int| k > n - m ==> !token_matches_at(s@, t@, k));
    }
    false
}

} // verus!
