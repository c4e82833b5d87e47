//! A small, exactly specified text matcher: finds the leftmost occurrence of
//! one of two literal prefixes that is immediately followed by at least one
//! word character, and extracts the maximal word-character run after it.
//! Every link form this crate accepts (canonical track URL, short link,
//! track URN) is an instance of this shape.

use vstd::prelude::*;

verus! {

/// A character counted as part of a link token: ASCII letter, digit or underscore.
pub open spec fn is_word_char(c: char) -> bool {
    ||| 'a' as u32 <= c as u32 && c as u32 <= 'z' as u32
    ||| 'A' as u32 <= c as u32 && c as u32 <= 'Z' as u32
    ||| '0' as u32 <= c as u32 && c as u32 <= '9' as u32
    ||| c == '_'
}

pub fn word_char(c: char) -> (b: bool)
    ensures
        b == is_word_char(c),
{
    let u: u32 = c as u32;
    ('a' as u32 <= u && u <= 'z' as u32) || ('A' as u32 <= u && u <= 'Z' as u32) || ('0' as u32
        <= u && u <= '9' as u32) || c == '_'
}

/// The literal `lit` occurs in `s` starting at index `i`.
pub open spec fn lit_at(s: Seq<char>, i: int, lit: Seq<char>) -> bool {
    &&& 0 <= i
    &&& i + lit.len() <= s.len()
    &&& forall|k: int| 0 <= k < lit.len() ==> s[i + k] == lit[k]
}

/// First index at or after `j` that is not a word character (the end of the
/// word run starting at `j`).
pub open spec fn run_end(s: Seq<char>, j: int) -> int
    decreases s.len() - j,
{
    if j < 0 || j >= s.len() {
        j
    } else if is_word_char(s[j]) {
        run_end(s, j + 1)
    } else {
        j
    }
}

/// At index `i`, one of the two prefixes occurs and a word character follows it.
pub open spec fn pat_at(s: Seq<char>, i: int, p1: Seq<char>, p2: Seq<char>) -> bool {
    ||| lit_at(s, i, p1) && i + p1.len() < s.len() && is_word_char(s[i + p1.len()])
    ||| lit_at(s, i, p2) && i + p2.len() < s.len() && is_word_char(s[i + p2.len()])
}

/// Where the extracted token begins for a match at `i`; the first prefix wins
/// when both alternatives hold.
pub open spec fn pat_run_start(s: Seq<char>, i: int, p1: Seq<char>, p2: Seq<char>) -> int {
    if lit_at(s, i, p1) && i + p1.len() < s.len() && is_word_char(s[i + p1.len()]) {
        i + p1.len()
    } else {
        i + p2.len()
    }
}

/// Index of the leftmost match at or after `i`, if any.
pub open spec fn first_pat_from(s: Seq<char>, p1: Seq<char>, p2: Seq<char>, i: int) -> Option<int>
    decreases s.len() - i,
{
    if i < 0 || i >= s.len() {
        None::<int>
    } else if pat_at(s, i, p1, p2) {
        Some(i)
    } else {
        first_pat_from(s, p1, p2, i + 1)
    }
}

/// Index of the leftmost match in `s`, if any.
pub open spec fn first_pat(s: Seq<char>, p1: Seq<char>, p2: Seq<char>) -> Option<int> {
    first_pat_from(s, p1, p2, 0)
}

/// The token (maximal word run after the prefix) of the leftmost match.
pub open spec fn pat_token(s: Seq<char>, p1: Seq<char>, p2: Seq<char>) -> Option<Seq<char>> {
    match first_pat(s, p1, p2) {
        None => None::<Seq<char>>,
        Some(i) => {
            let rs = pat_run_start(s, i, p1, p2);
            Some(s.subrange(rs, run_end(s, rs)))
        },
    }
}

/// The whole leftmost match, prefix included.
pub open spec fn pat_match(s: Seq<char>, p1: Seq<char>, p2: Seq<char>) -> Option<Seq<char>> {
    match first_pat(s, p1, p2) {
        None => None::<Seq<char>>,
        Some(i) => {
            let rs = pat_run_start(s, i, p1, p2);
            Some(s.subrange(i, run_end(s, rs)))
        },
    }
}

pub proof fn lemma_run_end_is(s: Seq<char>, j: int, k: int)
    requires
        0 <= j <= k <= s.len(),
        forall|t: int| j <= t < k ==> is_word_char(s[t]),
        k == s.len() || !is_word_char(s[k]),
    ensures
        run_end(s, j) == k,
    decreases k - j,
{
    if j < k {
        lemma_run_end_is(s, j + 1, k);
    }
}

pub proof fn lemma_first_pat_prefix(s: Seq<char>, p1: Seq<char>, p2: Seq<char>, i: int)
    requires
        0 <= i <= s.len(),
        forall|j: int| 0 <= j < i ==> !pat_at(s, j, p1, p2),
    ensures
        first_pat(s, p1, p2) == first_pat_from(s, p1, p2, i),
    decreases i,
{
    if i > 0 {
        lemma_first_pat_prefix(s, p1, p2, i - 1);
    }
}

fn lit_match(s: &str, i: usize, lit: &str) -> (b: bool)
    ensures
        b == lit_at(s@, i as int, lit@),
{
    let n = s.unicode_len();
    let m = lit.unicode_len();
    if i > n || m > n - i {
        return false;
    }
    let mut k: usize = 0;
    while k < m
        invariant
            i + m <= n,
            n == s@.len(),
            m == lit@.len(),
            k <= m,
            forall|t: int| 0 <= t < k ==> s@[i + t] == lit@[t],
        decreases m - k,
    {
        let a = s.get_char(i + k);
        let b = lit.get_char(k);
        if a != b {
            assert(s@[i + k as int] != lit@[k as int]);
            return false;
        }
        k += 1;
    }
    true
}

fn run_scan(s: &str, j: usize) -> (e: usize)
    requires
        j <= s@.len(),
    ensures
        e as int == run_end(s@, j as int),
        j <= e <= s@.len(),
    decreases s@.len() - j,
{
    let n = s.unicode_len();
    let mut k: usize = j;
    while k < n && word_char(s.get_char(k))
        invariant
            j <= k <= n,
            n == s@.len(),
            forall|t: int| j <= t < k ==> is_word_char(s@[t]),
        decreases n - k,
    {
        k += 1;
    }
    proof {
        lemma_run_end_is(s@, j as int, k as int);
    }
    k
}

/// Leftmost match of `p1`-or-`p2`-then-word-run in `s`: returns the match
/// start, the token start and the token end.
pub fn find_pat(s: &str, p1: &str, p2: &str) -> (r: Option<(usize, usize, usize)>)
    ensures
        (r is Some) == (first_pat(s@, p1@, p2@) is Some),
        r matches Some(t) ==> {
            &&& first_pat(s@, p1@, p2@) == Some(t.0 as int)
            &&& t.1 as int == pat_run_start(s@, t.0 as int, p1@, p2@)
            &&& t.2 as int == run_end(s@, t.1 as int)
            &&& t.0 <= t.1 && t.1 <= t.2 && t.2 <= s@.len()
        },
{
    let n = s.unicode_len();
    let p1n = p1.unicode_len();
    let p2n = p2.unicode_len();
    let mut i: usize = 0;
    while i < n
        invariant
            i <= n,
            n == s@.len(),
            p1n == p1@.len(),
            p2n == p2@.len(),
            forall|j: int| 0 <= j < i ==> !pat_at(s@, j, p1@, p2@),
        decreases n - i,
    {
        if lit_match(s, i, p1) {
            let rs = i + p1n;
            if rs < n && word_char(s.get_char(rs)) {
                let re = run_scan(s, rs);
                proof {
                    lemma_first_pat_prefix(s@, p1@, p2@, i as int);
                }
                return Some((i, rs, re));
            }
        }
        if lit_match(s, i, p2) {
            let rs = i + p2n;
            if rs < n && word_char(s.get_char(rs)) {
                let re = run_scan(s, rs);
                proof {
                    lemma_first_pat_prefix(s@, p1@, p2@, i as int);
                }
                return Some((i, rs, re));
            }
        }
        i += 1;
    }
    proof {
        lemma_first_pat_prefix(s@, p1@, p2@, n as int);
    }
    None
}

/// The token of the leftmost match, as an owned string.
pub fn find_token(s: &str, p1: &str, p2: &str) -> (r: Option<String>)
    ensures
        (r is Some) == (pat_token(s@, p1@, p2@) is Some),
        r matches Some(t) ==> pat_token(s@, p1@, p2@) == Some(t@),
{
    match find_pat(s, p1, p2) {
        None => None,
        Some((_i, rs, re)) => Some(s.substring_char(rs, re).to_owned()),
    }
}

/// The whole leftmost match (prefix and token), as an owned string.
pub fn find_match(s: &str, p1: &str, p2: &str) -> (r: Option<String>)
    ensures
        (r is Some) == (pat_match(s@, p1@, p2@) is Some),
        r matches Some(t) ==> pat_match(s@, p1@, p2@) == Some(t@),
{
    match find_pat(s, p1, p2) {
        None => None,
        Some((i, _rs, re)) => Some(s.substring_char(i, re).to_owned()),
    }
}

/// Whether `s` begins with `prefix`.
pub fn starts_with(s: &str, prefix: &str) -> (b: bool)
    ensures
        b == lit_at(s@, 0, prefix@),
{
    lit_match(s, 0, prefix)
}

} // verus!
