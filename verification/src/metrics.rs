//! Complexity and style metrics as exact rational numbers.
//!
//! Every metric of the engine is a ratio of integer measurements, so each is
//! carried as an exact numerator/denominator pair. A ratio whose denominator
//! would be zero is defined as exactly zero. A host that wants floating
//! point divides the two fields itself.

use vstd::prelude::*;
use crate::chars::lower_of;
use crate::syllables::spec_syllables;
use crate::syllables::syllables_in_range;
use crate::tokenize::word_texts;
use crate::tokenize::word_tokens;
use crate::tokenize::word_at;
use crate::tokenize::tokens_match;
use crate::tokenize::tokens_wf;

verus! {

/// The largest text length, in characters, that the engine analyzes. The
/// bound keeps every exact numerator and every derived position within the
/// machine's integer types.
pub const MAX_TEXT_LEN: usize = 0x100_0000;

/// An exact rational value. The denominator is always at least one.
#[derive(Clone, Copy, Debug, PartialEq, Eq, Structural)]
pub struct Rational {
    pub num: i128,
    pub den: u128,
}

/// The rational `n / d`.
pub open spec fn rat(n: int, d: int) -> Rational {
    Rational { num: n as i128, den: d as u128 }
}

/// The rational `n / d` when `d` is positive, and exactly zero otherwise.
pub open spec fn ratio_or_zero(n: int, d: int) -> Rational {
    if d > 0 {
        rat(n, d)
    } else {
        rat(0, 1)
    }
}

/// Builds `ratio_or_zero(n, d)` from measurement counts.
pub fn ratio_counts(n: usize, d: usize) -> (r: Rational)
    ensures
        r == ratio_or_zero(n as int, d as int),
{
    if d > 0 {
        Rational { num: n as i128, den: d as u128 }
    } else {
        Rational { num: 0, den: 1 }
    }
}

/// Builds `ratio_or_zero(n, d)` from a wide numerator.
pub fn ratio_wide(n: u64, d: usize) -> (r: Rational)
    ensures
        r == ratio_or_zero(n as int, d as int),
{
    if d > 0 {
        Rational { num: n as i128, den: d as u128 }
    } else {
        Rational { num: 0, den: 1 }
    }
}

/// The Flesch reading-ease score of a text with `w` words, `s` sentences
/// and `y` total syllables: `206.835 - 1.015 * (w/s) - 84.6 * (y/w)`, with
/// each average taken as zero when its denominator is zero, written as one
/// exact rational.
pub open spec fn spec_flesch(w: int, s: int, y: int) -> Rational {
    if w > 0 && s > 0 {
        rat(206835 * s * w - 1015 * w * w - 84600 * y * s, 1000 * s * w)
    } else if w > 0 {
        rat(206835 * w - 84600 * y, 1000 * w)
    } else {
        rat(206835, 1000)
    }
}

/// The Gunning fog index of a text with `w` words, `s` sentences and `c`
/// complex words: `0.4 * (w/s + 100 * c/w)`, with the first average taken
/// as zero when `s` is zero and the whole score zero when `w` is zero,
/// written as one exact rational.
pub open spec fn spec_fog(w: int, s: int, c: int) -> Rational {
    if w > 0 && s > 0 {
        rat(2 * w * w + 200 * c * s, 5 * s * w)
    } else if w > 0 {
        rat(40 * c, w)
    } else {
        rat(0, 1)
    }
}

/// Computes the Flesch reading-ease score exactly.
pub fn flesch_rational(w: usize, s: usize, y: u64) -> (r: Rational)
    requires
        w <= MAX_TEXT_LEN,
        s <= MAX_TEXT_LEN,
        y <= 0x1_0000_0000_0000,
    ensures
        r == spec_flesch(w as int, s as int, y as int),
{
    if w > 0 && s > 0 {
        let wi = w as i128;
        let si = s as i128;
        let yi = y as i128;
        proof {
            assert((206835 * si) * wi <= 0x4_0000_0000_0000_0000 && (206835 * si) * wi >= 0 && (
            1015 * wi) * wi <= 0x4_0000_0000_0000_0000 && (1015 * wi) * wi >= 0 && (84600 * yi) * si
                <= 0x4000_0000_0000_0000_0000_0000 && (84600 * yi) * si >= 0 && (1000 * (
            s as u128)) * (w as u128) <= 0x4_0000_0000_0000_0000) by (nonlinear_arith)
                requires
                    0 < wi <= 0x100_0000,
                    0 < si <= 0x100_0000,
                    0 <= yi <= 0x1_0000_0000_0000,
                    wi == w as i128,
                    si == s as i128,
                    0 < w as u128 <= 0x100_0000,
                    0 < s as u128 <= 0x100_0000,
            ;
        }
        let num = 206835 * si * wi - 1015 * wi * wi - 84600 * yi * si;
        let den = 1000 * (s as u128) * (w as u128);
        Rational { num, den }
    } else if w > 0 {
        let wi = w as i128;
        let yi = y as i128;
        let num = 206835 * wi - 84600 * yi;
        let den = 1000 * (w as u128);
        Rational { num, den }
    } else {
        Rational { num: 206835, den: 1000 }
    }
}

/// Computes the fog index exactly.
pub fn fog_rational(w: usize, s: usize, c: usize) -> (r: Rational)
    requires
        w <= MAX_TEXT_LEN,
        s <= MAX_TEXT_LEN,
        c <= MAX_TEXT_LEN,
    ensures
        r == spec_fog(w as int, s as int, c as int),
{
    if w > 0 && s > 0 {
        let wi = w as i128;
        let si = s as i128;
        let ci = c as i128;
        proof {
            assert((2 * wi) * wi <= 0x4_0000_0000_0000_0000 && (2 * wi) * wi >= 0 && (200 * ci) * si
                <= 0x4_0000_0000_0000_0000 && (200 * ci) * si >= 0 && (5 * (s as u128)) * (w as u128)
                <= 0x4_0000_0000_0000_0000) by (nonlinear_arith)
                requires
                    0 < wi <= 0x100_0000,
                    0 < si <= 0x100_0000,
                    0 <= ci <= 0x100_0000,
                    0 < w as u128 <= 0x100_0000,
                    0 < s as u128 <= 0x100_0000,
            ;
        }
        let num = 2 * wi * wi + 200 * ci * si;
        let den = 5 * (s as u128) * (w as u128);
        Rational { num, den }
    } else if w > 0 {
        let num = 40 * (c as i128);
        let den = w as u128;
        Rational { num, den }
    } else {
        Rational { num: 0, den: 1 }
    }
}

/// The total syllable estimate of a list of words.
pub open spec fn total_syllables(ws: Seq<Seq<char>>) -> nat
    decreases ws.len(),
{
    if ws.len() == 0 {
        0
    } else {
        total_syllables(ws.drop_last()) + spec_syllables(ws.last())
    }
}

/// The number of complex words (syllable estimate of three or more) in a
/// list of words.
pub open spec fn complex_count(ws: Seq<Seq<char>>) -> nat
    decreases ws.len(),
{
    if ws.len() == 0 {
        0
    } else {
        complex_count(ws.drop_last()) + if spec_syllables(ws.last()) >= 3 {
            1nat
        } else {
            0nat
        }
    }
}

/// The number of distinct entries in a list of words.
pub open spec fn distinct_count(ws: Seq<Seq<char>>) -> nat
    decreases ws.len(),
{
    if ws.len() == 0 {
        0
    } else {
        distinct_count(ws.drop_last()) + if ws.drop_last().contains(ws.last()) {
            0nat
        } else {
            1nat
        }
    }
}

/// Distinct entries never outnumber the entries.
pub proof fn lemma_distinct_count_bound(ws: Seq<Seq<char>>)
    ensures
        distinct_count(ws) <= ws.len(),
    decreases ws.len(),
{
    if ws.len() > 0 {
        lemma_distinct_count_bound(ws.drop_last());
    }
}

/// Over in-bounds word tokens, the total syllable estimate is at most one
/// per character and word, and complex words never outnumber the words.
pub proof fn lemma_syllable_totals_bound(s: Seq<char>, toks: Seq<(int, int)>)
    requires
        forall|j: int| 0 <= j < toks.len() ==> 0 <= (#[trigger] toks[j]).0 < toks[j].1 <= s.len(),
    ensures
        total_syllables(toks.map_values(|t: (int, int)| word_at(s, t))) <= toks.len() * s.len(),
        complex_count(toks.map_values(|t: (int, int)| word_at(s, t))) <= toks.len(),
    decreases toks.len(),
{
    let ws = toks.map_values(|t: (int, int)| word_at(s, t));
    if toks.len() == 0 {
        assert(toks.len() * s.len() == 0) by (nonlinear_arith)
            requires
                toks.len() == 0,
        ;
    } else {
        let pre = toks.drop_last();
        assert(forall|j: int|
            0 <= j < pre.len() ==> 0 <= (#[trigger] pre[j]).0 < pre[j].1 <= s.len());
        lemma_syllable_totals_bound(s, pre);
        assert(ws.drop_last() =~= pre.map_values(|t: (int, int)| word_at(s, t)));
        let last = toks.last();
        assert(ws.last() == word_at(s, last));
        assert(word_at(s, last).len() == last.1 - last.0);
        crate::syllables::lemma_syllables_bound(word_at(s, last));
        assert(spec_syllables(ws.last()) <= s.len());
        assert((toks.len() - 1) * s.len() + s.len() == toks.len() * s.len()) by (nonlinear_arith);
    }
}

/// A list of words, each case-folded.
pub open spec fn lowered(ws: Seq<Seq<char>>) -> Seq<Seq<char>> {
    ws.map_values(|w: Seq<char>| lower_of(w))
}

/// The views of a vector of strings.
pub open spec fn views_of(ws: Seq<String>) -> Seq<Seq<char>> {
    ws.map_values(|w: String| w@)
}

/// Sums the syllable estimates of the words of `chars` given by `toks`.
pub fn sum_syllables(chars: &Vec<char>, toks: &Vec<(usize, usize)>) -> (r: u64)
    requires
        chars@.len() <= MAX_TEXT_LEN,
        tokens_match(chars@, toks@),
        tokens_wf(chars@, toks@),
        toks@.len() <= chars@.len(),
    ensures
        r == total_syllables(word_texts(chars@)),
        r <= 0x1_0000_0000_0000,
{
    let ghost s = chars@;
    let ghost ws = word_texts(s);
    let n = chars.len();
    let m = toks.len();
    let mut total: u64 = 0;
    let mut i: usize = 0;
    proof {
        assert(ws.take(0) =~= Seq::<Seq<char>>::empty());
    }
    while i < m
        invariant
            s == chars@,
            ws == word_texts(s),
            n == s.len() <= MAX_TEXT_LEN,
            m == toks@.len() <= n,
            tokens_match(s, toks@),
            tokens_wf(s, toks@),
            i <= m,
            total == total_syllables(ws.take(i as int)),
            total <= (i as int) * (n as int),
        decreases m - i,
    {
        let (a, b) = toks[i];
        let syl = syllables_in_range(chars, a, b);
        proof {
            assert(ws[i as int] == word_at(s, word_tokens(s)[i as int]));
            assert(ws.take(i + 1).drop_last() =~= ws.take(i as int));
            assert(ws.take(i + 1).last() == ws[i as int]);
            assert((i + 1) * (n as int) == (i as int) * (n as int) + n) by (nonlinear_arith);
            assert((i as int) * (n as int) <= 0x100_0000 * 0x100_0000) by (nonlinear_arith)
                requires
                    0 <= i as int <= 0x100_0000,
                    0 <= n as int <= 0x100_0000,
            ;
        }
        total = total + (syl as u64);
        i = i + 1;
    }
    proof {
        assert(ws.take(m as int) =~= ws);
        assert((m as int) * (n as int) <= 0x100_0000 * 0x100_0000) by (nonlinear_arith)
            requires
                0 <= m as int <= 0x100_0000,
                0 <= n as int <= 0x100_0000,
        ;
    }
    total
}

/// Counts the complex words of `chars` given by `toks`.
pub fn count_complex(chars: &Vec<char>, toks: &Vec<(usize, usize)>) -> (r: usize)
    requires
        tokens_match(chars@, toks@),
        tokens_wf(chars@, toks@),
    ensures
        r == complex_count(word_texts(chars@)),
        r <= toks@.len(),
{
    let ghost s = chars@;
    let ghost ws = word_texts(s);
    let m = toks.len();
    let mut count: usize = 0;
    let mut i: usize = 0;
    proof {
        assert(ws.take(0) =~= Seq::<Seq<char>>::empty());
    }
    while i < m
        invariant
            s == chars@,
            ws == word_texts(s),
            m == toks@.len(),
            tokens_match(s, toks@),
            tokens_wf(s, toks@),
            i <= m,
            count <= i,
            count == complex_count(ws.take(i as int)),
        decreases m - i,
    {
        let (a, b) = toks[i];
        let syl = syllables_in_range(chars, a, b);
        proof {
            assert(ws[i as int] == word_at(s, word_tokens(s)[i as int]));
            assert(ws.take(i + 1).drop_last() =~= ws.take(i as int));
            assert(ws.take(i + 1).last() == ws[i as int]);
        }
        if syl >= 3 {
            count = count + 1;
        }
        i = i + 1;
    }
    proof {
        assert(ws.take(m as int) =~= ws);
    }
    count
}

/// Counts the distinct entries of `words`.
pub fn count_distinct(words: &Vec<String>) -> (r: usize)
    ensures
        r == distinct_count(views_of(words@)),
        r <= words@.len(),
{
    let ghost vs = views_of(words@);
    let m = words.len();
    let mut count: usize = 0;
    let mut i: usize = 0;
    proof {
        assert(vs.take(0) =~= Seq::<Seq<char>>::empty());
    }
    while i < m
        invariant
            vs == views_of(words@),
            m == words@.len(),
            i <= m,
            count <= i,
            count == distinct_count(vs.take(i as int)),
        decreases m - i,
    {
        let mut found = false;
        let mut j: usize = 0;
        while j < i
            invariant
                vs == views_of(words@),
                m == words@.len(),
                i < m,
                j <= i,
                found == exists|k: int| 0 <= k < j && vs[k] == vs[i as int],
            decreases i - j,
        {
            if words[j] == words[i] {
                proof {
                    assert(vs[j as int] == vs[i as int]);
                }
                found = true;
            }
            j = j + 1;
        }
        proof {
            assert(vs.take(i + 1).drop_last() =~= vs.take(i as int));
            assert(vs.take(i + 1).last() == vs[i as int]);
            if found {
                let k = choose|k: int| 0 <= k < i && vs[k] == vs[i as int];
                assert(vs.take(i as int)[k] == vs[i as int]);
                assert(vs.take(i as int).contains(vs[i as int]));
            } else {
                if vs.take(i as int).contains(vs[i as int]) {
                    let k = choose|k: int|
                        0 <= k < i && vs.take(i as int)[k] == vs[i as int];
                    assert(vs[k] == vs[i as int]);
                }
            }
        }
        if !found {
            count = count + 1;
        }
        i = i + 1;
    }
    proof {
        assert(vs.take(m as int) =~= vs);
    }
    count
}

/// Complexity metrics: each field an exact rational.
#[derive(Clone, Copy, Debug, PartialEq, Eq, Structural)]
pub struct ComplexityMetrics {
    pub avg_words_per_sentence: Rational,
    pub avg_syllables_per_word: Rational,
    pub fog_index: Rational,
    pub flesch_reading_ease: Rational,
    pub unique_word_ratio: Rational,
}

/// Style metrics: each field an exact rational. The action and description
/// ratios await deeper analysis and are always exactly zero.
#[derive(Clone, Copy, Debug, PartialEq, Eq, Structural)]
pub struct StyleMetrics {
    pub passive_voice_ratio: Rational,
    pub adverb_ratio: Rational,
    pub dialogue_ratio: Rational,
    pub action_ratio: Rational,
    pub description_ratio: Rational,
}

/// Every guarded ratio is non-negative, has a positive denominator, and is
/// exactly zero when its denominator measurement is zero.
pub proof fn lemma_ratio_or_zero_wf(n: int, d: int)
    requires
        n >= 0,
        d >= 0,
        n <= u64::MAX,
        d <= u64::MAX,
    ensures
        ratio_or_zero(n, d).num >= 0,
        ratio_or_zero(n, d).den >= 1,
        d == 0 ==> ratio_or_zero(n, d) == rat(0, 1),
{
}

} // verus!
