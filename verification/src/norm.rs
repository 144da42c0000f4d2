//! Normalization of raw input text.
//!
//! Normalization deletes every character that is not a letter, the digit
//! `'0'` or `'1'`, or the space character. Deleted characters are not
//! replaced, so words that were separated only by punctuation merge.
//! Case is preserved.
use vstd::prelude::*;

verus! {

/// Whether `c` is alphabetic in the sense of `char::is_alphabetic`
/// (a Unicode letter). The exact character classification is left
/// unspecified here; it depends on the character alone.
pub uninterp spec fn char_alphabetic(c: char) -> bool;

/// Relies on `char::is_alphabetic`: whether a character is a Unicode
/// letter is a fixed classification of the character alone.
pub assume_specification[ char::is_alphabetic ](c: char) -> (r: bool)
    ensures
        r == char_alphabetic(c),
;

/// A character survives normalization iff it is a letter, `'0'`, `'1'`,
/// or a space.
pub open spec fn keep_char(c: char) -> bool {
    char_alphabetic(c) || c == '0' || c == '1' || c == ' '
}

/// The normalized form of a character sequence: the subsequence of
/// characters that `keep_char` accepts, in their original order.
pub open spec fn spec_norm(s: Seq<char>) -> Seq<char>
    decreases s.len(),
{
    if s.len() == 0 {
        Seq::empty()
    } else {
        let rest = spec_norm(s.drop_last());
        if keep_char(s.last()) {
            rest.push(s.last())
        } else {
            rest
        }
    }
}

fn is_kept_char(c: char) -> (r: bool)
    ensures
        r == keep_char(c),
{
    c.is_alphabetic() || c == '0' || c == '1' || c == ' '
}

proof fn lemma_norm_push(s: Seq<char>, c: char)
    ensures
        keep_char(c) ==> spec_norm(s.push(c)) == spec_norm(s).push(c),
        !keep_char(c) ==> spec_norm(s.push(c)) == spec_norm(s),
{
    assert(s.push(c).drop_last() =~= s);
    assert(s.push(c).last() == c);
}

/// Normalizes raw text: keeps only letters (case preserved), the digits
/// `'0'` and `'1'`, and spaces; every other character is deleted with no
/// replacement.
pub fn convert_to_something_that_may_be_yes_or_no(string: &str) -> (r: Vec<char>)
    ensures
        r@ == spec_norm(string@),
{
    let len = string.unicode_len();
    let mut r: Vec<char> = Vec::new();
    let mut i: usize = 0;
    while i < len
        invariant
            len == string@.len(),
            i <= len,
            r@ == spec_norm(string@.take(i as int)),
        decreases len - i,
    {
        let c = string.get_char(i);
        if is_kept_char(c) {
            r.push(c);
        }
        proof {
            assert(string@.take(i + 1) =~= string@.take(i as int).push(string@[i as int]));
            lemma_norm_push(string@.take(i as int), string@[i as int]);
        }
        i = i + 1;
    }
    proof {
        assert(string@.take(len as int) =~= string@);
    }
    r
}

/// Normalization is idempotent: every character that survives one pass
/// satisfies `keep_char`, so a second pass changes nothing.
pub proof fn lemma_normalize_idempotent(s: Seq<char>)
    ensures
        spec_norm(spec_norm(s)) == spec_norm(s),
    decreases s.len(),
{
    if s.len() == 0 {
    } else {
        lemma_normalize_idempotent(s.drop_last());
        if keep_char(s.last()) {
            lemma_norm_push(spec_norm(s.drop_last()), s.last());
        }
    }
}

} // verus!
