//! Whole-word and bare-letter matching over character sequences.
//!
//! After normalization the only whitespace a text can contain is the
//! space character, so word boundaries are exactly the spaces (and the
//! two ends of the text).
use vstd::prelude::*;

verus! {

/// The Unicode lowercase form of a character sequence, in the sense of
/// `str::to_lowercase`. The exact mapping is left unspecified here; it
/// depends on the characters alone.
pub uninterp spec fn lower_of(s: Seq<char>) -> Seq<char>;

/// Relies on `str::to_lowercase`: the lowercase form of a string depends
/// on its characters alone.
#[verifier::external_body]
pub(crate) fn lowercase_chars(s: &Vec<char>) -> (r: Vec<char>)
    ensures
        r@ == lower_of(s@),
{
    let owned: String = s.iter().collect();
    owned.to_lowercase().chars().collect()
}

/// `w` occurs in `s` starting at index `i`, delimited on both sides by
/// a space or by an end of `s`.
pub open spec fn is_word_at(s: Seq<char>, w: Seq<char>, i: int) -> bool {
    &&& 0 <= i
    &&& i + w.len() <= s.len()
    &&& s.subrange(i, i + w.len()) == w
    &&& (i == 0 || s[i - 1] == ' ')
    &&& (i + w.len() == s.len() || s[i + w.len()] == ' ')
}

/// `w` occurs somewhere in `s` as a whole space-delimited word.
pub open spec fn has_word(s: Seq<char>, w: Seq<char>) -> bool {
    exists|i: int| is_word_at(s, w, i)
}

fn word_at(s: &Vec<char>, w: &Vec<char>, i: usize) -> (r: bool)
    requires
        i + w@.len() <= s@.len(),
    ensures
        r == is_word_at(s@, w@, i as int),
{
    let n = s.len();
    let m = w.len();
    if i > 0 && s[i - 1] != ' ' {
        return false;
    }
    if i + m < n && s[i + m] != ' ' {
        return false;
    }
    let mut j: usize = 0;
    while j < m
        invariant
            n == s@.len(),
            m == w@.len(),
            i + m <= n,
            j <= m,
            forall|k: int| 0 <= k < j ==> s@[i + k] == w@[k],
        decreases m - j,
    {
        if s[i + j] != w[j] {
            proof {
                assert(s@.subrange(i as int, i + w@.len())[j as int] != w@[j as int]);
            }
            return false;
        }
        j = j + 1;
    }
    proof {
        assert(s@.subrange(i as int, i + w@.len()) =~= w@);
    }
    true
}

/// Scans `s` for a whole-word occurrence of the non-empty token `w`.
pub(crate) fn contains_whole_word(s: &Vec<char>, w: &Vec<char>) -> (r: bool)
    requires
        w@.len() >= 1,
    ensures
        r == has_word(s@, w@),
{
    if w.len() > s.len() {
        proof {
            assert forall|i: int| !is_word_at(s@, w@, i) by {
                assert(i + w@.len() > s@.len() || i < 0);
            }
        }
        return false;
    }
    let n = s.len();
    let last_start = n - w.len();
    let mut i: usize = 0;
    while i <= last_start
        invariant
            w@.len() >= 1,
            n == s@.len(),
            last_start == s@.len() - w@.len(),
            i <= last_start + 1,
            forall|i2: int| 0 <= i2 < i ==> !is_word_at(s@, w@, i2),
        decreases last_start + 1 - i,
    {
        if word_at(s, w, i) {
            return true;
        }
        i = i + 1;
    }
    proof {
        assert forall|i2: int| !is_word_at(s@, w@, i2) by {
            if 0 <= i2 && i2 + w@.len() <= s@.len() {
                assert(i2 < i);
            }
        }
    }
    false
}

/// Scans `s` for the character `c`.
pub(crate) fn contains_char(s: &Vec<char>, c: char) -> (r: bool)
    ensures
        r == s@.contains(c),
{
    let mut i: usize = 0;
    while i < s.len()
        invariant
            i <= s@.len(),
            forall|k: int| 0 <= k < i ==> s@[k] != c,
        decreases s@.len() - i,
    {
        if s[i] == c {
            return true;
        }
        i = i + 1;
    }
    false
}

} // verus!

