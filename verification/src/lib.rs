//! Heuristic classification of free-form text as affirmative or negative.
//!
//! Six predicates decide, at three confidence levels per polarity, whether
//! a text reads as "yes" or as "no". Input is first normalized (only
//! letters, the digits `0`/`1`, and spaces survive, case preserved), then
//! matched against a fixed vocabulary: by exact equality with a canonical
//! token, by whole-word membership after lowercasing, or by bare-letter
//! containment.
use vstd::prelude::*;

pub mod norm;
pub mod word;

use crate::norm::{convert_to_something_that_may_be_yes_or_no, spec_norm};
use crate::word::{contains_char, contains_whole_word, has_word, lower_of, lowercase_chars};

verus! {

/// The affirmative vocabulary, in order: the bare letter, the canonical
/// word, and the two extra tokens that only whole-word matching uses.
pub open spec fn yes_vocab() -> Seq<Seq<char>> {
    seq![seq!['y'], seq!['y', 'e', 's'], seq!['t', 'r', 'u', 'e'], seq!['1']]
}

/// The negative vocabulary, in the same layout as `yes_vocab`.
pub open spec fn no_vocab() -> Seq<Seq<char>> {
    seq![seq!['n'], seq!['n', 'o'], seq!['f', 'a', 'l', 's', 'e'], seq!['0']]
}

/// The normalized text equals (case-sensitively) the polarity's bare
/// letter or its canonical word.
pub open spec fn spec_definitely(n: Seq<char>, vocab: Seq<Seq<char>>) -> bool {
    n == vocab[0] || n == vocab[1]
}

/// Some token of `vocab` with index at least `lo` occurs in `s` as a
/// whole space-delimited word.
pub open spec fn word_match(s: Seq<char>, vocab: Seq<Seq<char>>, lo: int) -> bool {
    exists|k: int| lo <= k < vocab.len() && #[trigger] has_word(s, vocab[k])
}

/// What `yes` returns: the normalized text is exactly the canonical
/// `"y"`/`"yes"`, or its lowercase form has a whole word among the
/// strict tokens (the vocabulary without the bare letter).
pub open spec fn spec_yes(s: Seq<char>) -> bool {
    let n = spec_norm(s);
    spec_definitely(n, yes_vocab()) || word_match(lower_of(n), yes_vocab(), 1)
}

/// What `is_somewhat_yes` returns: as `spec_yes`, but the whole-word
/// stage uses the full vocabulary, bare letter included.
pub open spec fn spec_somewhat_yes(s: Seq<char>) -> bool {
    let n = spec_norm(s);
    spec_definitely(n, yes_vocab()) || word_match(lower_of(n), yes_vocab(), 0)
}

/// What `is_kinda_yes` returns: the normalized text contains the bare
/// letter `'y'` anywhere (case-sensitively; nothing is lowercased here).
pub open spec fn spec_kinda_yes(s: Seq<char>) -> bool {
    spec_norm(s).contains('y')
}

/// What `no` returns; the negative counterpart of `spec_yes`.
pub open spec fn spec_no(s: Seq<char>) -> bool {
    let n = spec_norm(s);
    spec_definitely(n, no_vocab()) || word_match(lower_of(n), no_vocab(), 1)
}

/// What `is_somewhat_no` returns; the negative counterpart of
/// `spec_somewhat_yes`.
pub open spec fn spec_somewhat_no(s: Seq<char>) -> bool {
    let n = spec_norm(s);
    spec_definitely(n, no_vocab()) || word_match(lower_of(n), no_vocab(), 0)
}

/// What `is_kinda_no` returns: the normalized text contains `'n'`.
pub open spec fn spec_kinda_no(s: Seq<char>) -> bool {
    spec_norm(s).contains('n')
}

fn definitely_yes(string: &Vec<char>) -> (r: bool)
    ensures
        r == spec_definitely(string@, yes_vocab()),
{
    proof {
        if string@.len() == 1 && string@[0] == 'y' {
            assert(string@ =~= seq!['y']);
        }
        if string@.len() == 3 && string@[0] == 'y' && string@[1] == 'e' && string@[2] == 's' {
            assert(string@ =~= seq!['y', 'e', 's']);
        }
    }
    (string.len() == 1 && string[0] == 'y') || (string.len() == 3 && string[0] == 'y'
        && string[1] == 'e' && string[2] == 's')
}

fn definitely_no(string: &Vec<char>) -> (r: bool)
    ensures
        r == spec_definitely(string@, no_vocab()),
{
    proof {
        if string@.len() == 1 && string@[0] == 'n' {
            assert(string@ =~= seq!['n']);
        }
        if string@.len() == 2 && string@[0] == 'n' && string@[1] == 'o' {
            assert(string@ =~= seq!['n', 'o']);
        }
    }
    (string.len() == 1 && string[0] == 'n') || (string.len() == 2 && string[0] == 'n'
        && string[1] == 'o')
}

fn word_match_yes(ls: &Vec<char>, include_letter: bool) -> (r: bool)
    ensures
        r == word_match(ls@, yes_vocab(), if include_letter { 0int } else { 1int }),
{
    let t_letter: Vec<char> = vec!['y'];
    let t_word: Vec<char> = vec!['y', 'e', 's'];
    let t_true: Vec<char> = vec!['t', 'r', 'u', 'e'];
    let t_one: Vec<char> = vec!['1'];
    let r = (include_letter && contains_whole_word(ls, &t_letter)) || contains_whole_word(
        ls,
        &t_word,
    ) || contains_whole_word(ls, &t_true) || contains_whole_word(ls, &t_one);
    proof {
        let lo: int = if include_letter { 0int } else { 1int };
        assert(t_letter@ =~= yes_vocab()[0]);
        assert(t_word@ =~= yes_vocab()[1]);
        assert(t_true@ =~= yes_vocab()[2]);
        assert(t_one@ =~= yes_vocab()[3]);
        assert(has_word(ls@, yes_vocab()[0]) == has_word(ls@, t_letter@));
        assert(has_word(ls@, yes_vocab()[1]) == has_word(ls@, t_word@));
        assert(has_word(ls@, yes_vocab()[2]) == has_word(ls@, t_true@));
        assert(has_word(ls@, yes_vocab()[3]) == has_word(ls@, t_one@));
        if r {
            assert(word_match(ls@, yes_vocab(), lo));
        } else {
            assert forall|k: int| lo <= k < yes_vocab().len() implies !has_word(
                ls@,
                yes_vocab()[k],
            ) by {
                assert(!has_word(ls@, yes_vocab()[1]));
                assert(!has_word(ls@, yes_vocab()[2]));
                assert(!has_word(ls@, yes_vocab()[3]));
                if include_letter {
                    assert(!has_word(ls@, yes_vocab()[0]));
                }
            }
        }
    }
    r
}

fn word_match_no(ls: &Vec<char>, include_letter: bool) -> (r: bool)
    ensures
        r == word_match(ls@, no_vocab(), if include_letter { 0int } else { 1int }),
{
    let t_letter: Vec<char> = vec!['n'];
    let t_word: Vec<char> = vec!['n', 'o'];
    let t_false: Vec<char> = vec!['f', 'a', 'l', 's', 'e'];
    let t_zero: Vec<char> = vec!['0'];
    let r = (include_letter && contains_whole_word(ls, &t_letter)) || contains_whole_word(
        ls,
        &t_word,
    ) || contains_whole_word(ls, &t_false) || contains_whole_word(ls, &t_zero);
    proof {
        let lo: int = if include_letter { 0int } else { 1int };
        assert(t_letter@ =~= no_vocab()[0]);
        assert(t_word@ =~= no_vocab()[1]);
        assert(t_false@ =~= no_vocab()[2]);
        assert(t_zero@ =~= no_vocab()[3]);
        assert(has_word(ls@, no_vocab()[0]) == has_word(ls@, t_letter@));
        assert(has_word(ls@, no_vocab()[1]) == has_word(ls@, t_word@));
        assert(has_word(ls@, no_vocab()[2]) == has_word(ls@, t_false@));
        assert(has_word(ls@, no_vocab()[3]) == has_word(ls@, t_zero@));
        if r {
            assert(word_match(ls@, no_vocab(), lo));
        } else {
            assert forall|k: int| lo <= k < no_vocab().len() implies !has_word(
                ls@,
                no_vocab()[k],
            ) by {
                assert(!has_word(ls@, no_vocab()[1]));
                assert(!has_word(ls@, no_vocab()[2]));
                assert(!has_word(ls@, no_vocab()[3]));
                if include_letter {
                    assert(!has_word(ls@, no_vocab()[0]));
                }
            }
        }
    }
    r
}

/// Strict affirmative: the normalized input is exactly `"y"` or `"yes"`,
/// or its lowercase form contains `"yes"`, `"true"` or `"1"` as a whole
/// word. The bare letter is deliberately excluded from the word stage.
pub fn yes(string: &str) -> (r: bool)
    ensures
        r == spec_yes(string@),
{
    let n = convert_to_something_that_may_be_yes_or_no(string);
    if definitely_yes(&n) {
        return true;
    }
    let ls = lowercase_chars(&n);
    word_match_yes(&ls, false)
}

/// Lenient affirmative: as `yes`, but a whole word `"y"` counts too.
pub fn is_somewhat_yes(string: &str) -> (r: bool)
    ensures
        r == spec_somewhat_yes(string@),
{
    let n = convert_to_something_that_may_be_yes_or_no(string);
    if definitely_yes(&n) {
        return true;
    }
    let ls = lowercase_chars(&n);
    word_match_yes(&ls, true)
}

/// Substring affirmative: the normalized input contains the letter `'y'`
/// anywhere. Case matters; word boundaries do not.
pub fn is_kinda_yes(string: &str) -> (r: bool)
    ensures
        r == spec_kinda_yes(string@),
{
    let n = convert_to_something_that_may_be_yes_or_no(string);
    contains_char(&n, 'y')
}

/// Strict negative: the normalized input is exactly `"n"` or `"no"`, or
/// its lowercase form contains `"no"`, `"false"` or `"0"` as a whole
/// word. The bare letter is deliberately excluded from the word stage.
pub fn no(string: &str) -> (r: bool)
    ensures
        r == spec_no(string@),
{
    let n = convert_to_something_that_may_be_yes_or_no(string);
    if definitely_no(&n) {
        return true;
    }
    let ls = lowercase_chars(&n);
    word_match_no(&ls, false)
}

/// Lenient negative: as `no`, but a whole word `"n"` counts too.
pub fn is_somewhat_no(string: &str) -> (r: bool)
    ensures
        r == spec_somewhat_no(string@),
{
    let n = convert_to_something_that_may_be_yes_or_no(string);
    if definitely_no(&n) {
        return true;
    }
    let ls = lowercase_chars(&n);
    word_match_no(&ls, true)
}

/// Substring negative: the normalized input contains the letter `'n'`.
pub fn is_kinda_no(string: &str) -> (r: bool)
    ensures
        r == spec_kinda_no(string@),
{
    let n = convert_to_something_that_may_be_yes_or_no(string);
    contains_char(&n, 'n')
}

/// The strict predicates imply the lenient ones: every input on which
/// `yes` returns true is one on which `is_somewhat_yes` returns true,
/// and likewise for `no` and `is_somewhat_no`.
pub proof fn lemma_strict_implies_somewhat(s: Seq<char>)
    ensures
        spec_yes(s) ==> spec_somewhat_yes(s),
        spec_no(s) ==> spec_somewhat_no(s),
{
    let ny = lower_of(spec_norm(s));
    if word_match(ny, yes_vocab(), 1) {
        let k = choose|k: int| 1 <= k < yes_vocab().len() && #[trigger] has_word(
            ny,
            yes_vocab()[k],
        );
        assert(0 <= k < yes_vocab().len() && has_word(ny, yes_vocab()[k]));
    }
    if word_match(ny, no_vocab(), 1) {
        let k = choose|k: int| 1 <= k < no_vocab().len() && #[trigger] has_word(
            ny,
            no_vocab()[k],
        );
        assert(0 <= k < no_vocab().len() && has_word(ny, no_vocab()[k]));
    }
}

} // verus!
