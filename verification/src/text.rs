//! Searches on text, taken character by character.
//!
//! A string is read into its characters once; every search then runs on
//! the characters, by position.

use vstd::prelude::*;
use vstd::string::*;

verus! {

/// Whether `pattern` occurs in `s` starting at position `from`.
pub open spec fn occurs_at(s: Seq<char>, from: int, pattern: Seq<char>) -> bool {
    &&& 0 <= from
    &&& from + pattern.len() <= s.len()
    &&& s.subrange(from, from + pattern.len()) == pattern
}

/// The characters of `s` from position `from` to its end.
pub open spec fn tail(s: Seq<char>, from: int) -> Seq<char>
    recommends
        0 <= from <= s.len(),
{
    s.subrange(from, s.len() as int)
}

/// The characters of a string, in order.
pub fn characters(s: &str) -> (chars: Vec<char>)
    ensures
        chars@ == s@,
{
    let mut chars: Vec<char> = Vec::new();
    for c in it: s.chars()
        invariant
            it.seq() == s@,
            chars@ == s@.take(it.index() as int),
    {
        chars.push(c);
    }
    assert(chars@ =~= s@);
    chars
}

/// Finds the last position of `c` in `s`.
pub fn find_last(s: &[char], c: char) -> (found: Option<usize>)
    ensures
        match found {
            Some(i) => s@.index_of_last(c) == Some(i as int) && i < s@.len(),
            None => s@.index_of_last(c) is None,
        },
{
    let mut i: usize = s.len();
    while i > 0
        invariant
            i <= s@.len(),
            forall|j: int| i <= j < s@.len() ==> s@[j] != c,
        decreases i,
    {
        i = i - 1;
        if s[i] == c {
            proof {
                s@.index_of_last_ensures(c);
            }
            return Some(i);
        }
    }
    proof {
        s@.index_of_last_ensures(c);
    }
    None
}

/// Tests whether `pattern` occurs in `s` at position `from`.
pub fn matches_at(s: &[char], from: usize, pattern: &[char]) -> (hit: bool)
    ensures
        hit == occurs_at(s@, from as int, pattern@),
{
    let n: usize = s.len();
    let k: usize = pattern.len();
    if from > n || k > n - from {
        return false;
    }
    let mut i: usize = 0;
    while i < k
        invariant
            n == s@.len(),
            k == pattern@.len(),
            from + k <= n,
            i <= k,
            forall|j: int| 0 <= j < i ==> s@[from + j] == pattern@[j],
        decreases k - i,
    {
        if s[from + i] != pattern[i] {
            proof {
                let window = s@.subrange(from as int, from + k);
                assert(window[i as int] != pattern@[i as int]);
            }
            return false;
        }
        i = i + 1;
    }
    proof {
        assert(s@.subrange(from as int, from + k) =~= pattern@);
    }
    true
}

/// Tests whether `s` begins with `prefix`.
pub fn starts_with(s: &[char], prefix: &[char]) -> (hit: bool)
    ensures
        hit == prefix@.is_prefix_of(s@),
{
    matches_at(s, 0, prefix)
}

/// Tests whether the characters of `s` from position `from` on are exactly
/// those of `pattern`.
pub fn tail_is(s: &[char], from: usize, pattern: &[char]) -> (hit: bool)
    ensures
        hit == (from <= s@.len() && tail(s@, from as int) == pattern@),
{
    if from > s.len() || s.len() - from != pattern.len() {
        return false;
    }
    matches_at(s, from, pattern)
}

} // verus!
