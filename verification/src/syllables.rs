//! Syllable estimation.
//!
//! A syllable is approximated as a transition from a non-vowel (or the start
//! of the word) to a vowel; a trailing `e` is dropped as silent when more
//! than one group was found; the result is clamped to at least one. This is
//! a heuristic, not dictionary syllabification.

use vstd::prelude::*;
use crate::chars::is_vowel;
use crate::chars::vowel;

verus! {

/// Vowel groups of `w` from position `i` on, given whether the previous
/// character was a vowel.
pub open spec fn vowel_groups_from(w: Seq<char>, i: int, prev: bool) -> nat
    decreases w.len() - i,
{
    if i < 0 || i >= w.len() {
        0
    } else {
        (if is_vowel(w[i]) && !prev {
            1nat
        } else {
            0nat
        }) + vowel_groups_from(w, i + 1, is_vowel(w[i]))
    }
}

/// The number of maximal vowel runs in `w`.
pub open spec fn vowel_groups(w: Seq<char>) -> nat {
    vowel_groups_from(w, 0, false)
}

/// The syllable estimate of a word: its vowel groups, less one when the word
/// ends in `e` and more than one group was found, clamped to at least one.
pub open spec fn spec_syllables(w: Seq<char>) -> nat {
    let g = vowel_groups(w);
    let adjusted = if w.len() > 0 && w[w.len() - 1] == 'e' && g > 1 {
        (g - 1) as nat
    } else {
        g
    };
    if adjusted < 1 {
        1nat
    } else {
        adjusted
    }
}

/// Vowel groups never outnumber the characters scanned.
pub proof fn lemma_vowel_groups_bound(w: Seq<char>, i: int, prev: bool)
    requires
        0 <= i <= w.len(),
    ensures
        vowel_groups_from(w, i, prev) <= w.len() - i,
    decreases w.len() - i,
{
    if i < w.len() {
        lemma_vowel_groups_bound(w, i + 1, is_vowel(w[i]));
    }
}

/// Every word estimates to at least one syllable, and a non-empty word to
/// no more syllables than it has characters.
pub proof fn lemma_syllables_bound(w: Seq<char>)
    ensures
        1 <= spec_syllables(w),
        w.len() > 0 ==> spec_syllables(w) <= w.len(),
        w.len() == 0 ==> spec_syllables(w) == 1,
{
    lemma_vowel_groups_bound(w, 0, false);
}

/// Counts the syllable estimate of `chars[start..end]`.
pub fn syllables_in_range(chars: &Vec<char>, start: usize, end: usize) -> (r: usize)
    requires
        start <= end <= chars@.len(),
    ensures
        r == spec_syllables(chars@.subrange(start as int, end as int)),
        1 <= r,
        start < end ==> r <= end - start,
{
    let ghost w = chars@.subrange(start as int, end as int);
    let mut groups: usize = 0;
    let mut prev = false;
    let mut i: usize = start;
    while i < end
        invariant
            start <= i <= end <= chars@.len(),
            w == chars@.subrange(start as int, end as int),
            groups <= i - start,
            prev == (i > start && is_vowel(w[i - start - 1])),
            vowel_groups(w) == groups + vowel_groups_from(w, i - start, prev),
        decreases end - i,
    {
        let c = chars[i];
        proof {
            assert(w[i - start] == chars@[i as int]);
        }
        let v = vowel(c);
        if v && !prev {
            groups = groups + 1;
        }
        prev = v;
        i = i + 1;
    }
    proof {
        assert(vowel_groups_from(w, end - start, prev) == 0);
    }
    let mut count = groups;
    if end > start && chars[end - 1] == 'e' && count > 1 {
        proof {
            assert(w[w.len() - 1] == chars@[end - 1]);
        }
        count = count - 1;
    }
    if count < 1 {
        count = 1;
    }
    count
}

} // verus!
