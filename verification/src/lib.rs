//! A text-analysis engine: word, sentence and paragraph counts, syllable
//! estimates, readability and style metrics, writing-improvement
//! suggestions, a heuristic edit-conflict resolver, and a content hash.
//!
//! Every metric is an exact rational (see [`metrics::Rational`]); a host
//! that wants floating point divides the two fields itself. Analysis
//! accepts any text up to [`metrics::MAX_TEXT_LEN`] characters, the bound
//! under which every derived value fits the machine's integer types.

pub mod chars;
pub mod syllables;
pub mod tokenize;
pub mod metrics;
pub mod hash;
pub mod conflict;
pub mod suggest;

use vstd::prelude::*;
use crate::chars::to_char_vec;
use crate::chars::lowercase;
use crate::syllables::spec_syllables;
use crate::syllables::syllables_in_range;
use crate::tokenize::word_count;
use crate::tokenize::word_texts;
use crate::tokenize::word_tokens;
use crate::tokenize::word_at;
use crate::tokenize::sentence_count;
use crate::tokenize::paragraph_count;
use crate::tokenize::dialogue_count;
use crate::tokenize::find_word_tokens;
use crate::tokenize::count_sentences;
use crate::tokenize::count_paragraphs;
use crate::tokenize::count_dialogue;
use crate::metrics::MAX_TEXT_LEN;
use crate::metrics::Rational;
use crate::metrics::rat;
use crate::metrics::ratio_or_zero;
use crate::metrics::ratio_counts;
use crate::metrics::ratio_wide;
use crate::metrics::spec_flesch;
use crate::metrics::spec_fog;
use crate::metrics::flesch_rational;
use crate::metrics::fog_rational;
use crate::metrics::total_syllables;
use crate::metrics::complex_count;
use crate::metrics::distinct_count;
use crate::metrics::lowered;
use crate::metrics::views_of;
use crate::metrics::sum_syllables;
use crate::metrics::count_complex;
use crate::metrics::count_distinct;
use crate::metrics::ComplexityMetrics;
use crate::metrics::StyleMetrics;
use crate::hash::content_hash_of;
use crate::hash::hash_text;
use crate::conflict::CollaborationConflict;
use crate::conflict::spec_resolution;
use crate::conflict::fields_carried;
use crate::conflict::resolve_conflict_list;
use crate::suggest::OptimizationSuggestion;
use crate::suggest::passive_matches;
use crate::suggest::adverb_tokens;
use crate::suggest::suggestions_ok;
use crate::suggest::count_passive;
use crate::suggest::count_adverbs;
use crate::suggest::generate_suggestions;
use vstd::string::StrSliceExecFns;

verus! {

/// The full result of one analysis call.
pub struct TextAnalysisResult {
    pub word_count: usize,
    pub character_count: usize,
    pub paragraph_count: usize,
    pub sentence_count: usize,
    pub readability_score: Rational,
    pub complexity_metrics: ComplexityMetrics,
    pub style_metrics: StyleMetrics,
    pub content_hash: String,
}

/// What an analysis result holds for the text `t`: every count is the
/// text's measurement, every ratio is the exact guarded quotient of its two
/// measurements, the two reading scores follow their formulas, and the
/// content hash is the hash of the text.
pub open spec fn analysis_ok(t: Seq<char>, r: TextAnalysisResult) -> bool {
    &&& r.word_count == word_count(t)
    &&& r.character_count == t.len()
    &&& r.sentence_count == sentence_count(t)
    &&& r.paragraph_count == paragraph_count(t)
    &&& r.complexity_metrics.avg_words_per_sentence == ratio_or_zero(
        word_count(t) as int,
        sentence_count(t) as int,
    )
    &&& r.complexity_metrics.avg_syllables_per_word == ratio_or_zero(
        total_syllables(word_texts(t)) as int,
        word_count(t) as int,
    )
    &&& r.complexity_metrics.unique_word_ratio == ratio_or_zero(
        distinct_count(lowered(word_texts(t))) as int,
        word_count(t) as int,
    )
    &&& r.complexity_metrics.flesch_reading_ease == spec_flesch(
        word_count(t) as int,
        sentence_count(t) as int,
        total_syllables(word_texts(t)) as int,
    )
    &&& r.complexity_metrics.fog_index == spec_fog(
        word_count(t) as int,
        sentence_count(t) as int,
        complex_count(word_texts(t)) as int,
    )
    &&& r.readability_score == r.complexity_metrics.flesch_reading_ease
    &&& r.style_metrics.passive_voice_ratio == ratio_or_zero(
        passive_matches(t).len() as int,
        sentence_count(t) as int,
    )
    &&& r.style_metrics.adverb_ratio == ratio_or_zero(
        adverb_tokens(t).len() as int,
        word_count(t) as int,
    )
    &&& r.style_metrics.dialogue_ratio == ratio_or_zero(
        dialogue_count(t) as int,
        paragraph_count(t) as int,
    )
    &&& r.style_metrics.action_ratio == rat(0, 1)
    &&& r.style_metrics.description_ratio == rat(0, 1)
    &&& r.content_hash@ == content_hash_of(t)
}

/// The text-processing engine. All state is read-only after construction;
/// every operation is a pure function of its arguments.
pub struct TextProcessor {}

impl TextProcessor {
    /// Builds an engine instance.
    pub fn new() -> TextProcessor {
        TextProcessor {  }
    }

    /// Analyzes `text`: counts, readability and style metrics, and the
    /// content hash.
    pub fn analyze_text(&self, text: &str) -> (r: TextAnalysisResult)
        requires
            text@.len() <= MAX_TEXT_LEN,
        ensures
            analysis_ok(text@, r),
    {
        self.perform_analysis(text)
    }

    /// Analyzes `text` whatever its length: the result is present exactly
    /// when the text is within the engine's size bound.
    pub fn try_analyze_text(&self, text: &str) -> (r: Option<TextAnalysisResult>)
        ensures
            text@.len() <= MAX_TEXT_LEN ==> (r matches Some(a) && analysis_ok(text@, a)),
            text@.len() > MAX_TEXT_LEN ==> r is None,
    {
        let n = text.unicode_len();
        if n <= MAX_TEXT_LEN {
            Some(self.perform_analysis(text))
        } else {
            None
        }
    }

    /// Generates suggestions for `text` whatever its length: the list is
    /// present exactly when the text is within the engine's size bound.
    pub fn try_optimize_text(&self, text: &str) -> (r: Option<Vec<OptimizationSuggestion>>)
        ensures
            text@.len() <= MAX_TEXT_LEN ==> (r matches Some(v) && suggestions_ok(text@, v@)),
            text@.len() > MAX_TEXT_LEN ==> r is None,
    {
        let n = text.unicode_len();
        if n <= MAX_TEXT_LEN {
            Some(self.generate_optimization_suggestions(text))
        } else {
            None
        }
    }

    /// Generates the ordered suggestion list of `text`: long-sentence
    /// findings first, then passive voice, then adverb use.
    pub fn optimize_text(&self, text: &str) -> (r: Vec<OptimizationSuggestion>)
        requires
            text@.len() <= MAX_TEXT_LEN,
        ensures
            suggestions_ok(text@, r@),
    {
        self.generate_optimization_suggestions(text)
    }

    /// Resolves a list of conflicts: same length and order, every field
    /// carried over, only the resolution suggestion overwritten.
    pub fn resolve_conflicts(&self, conflicts: Vec<CollaborationConflict>) -> (r: Vec<
        CollaborationConflict,
    >)
        ensures
            r@.len() == conflicts@.len(),
            forall|i: int|
                0 <= i < conflicts@.len() ==> fields_carried(conflicts@[i], #[trigger] r@[i])
                    && r@[i].resolution_suggestion@ == spec_resolution(conflicts@[i]),
    {
        self.auto_resolve_conflicts(conflicts)
    }

    /// Computes the content hash of `text`: base64 of its SHA-256 digest,
    /// a function of the text alone, always 44 characters.
    pub fn generate_content_hash(&self, text: &str) -> (r: String)
        ensures
            r@ == content_hash_of(text@),
            r@.len() == 44,
    {
        hash_text(text)
    }

    /// Performs the full analysis of `text`.
    pub fn perform_analysis(&self, text: &str) -> (r: TextAnalysisResult)
        requires
            text@.len() <= MAX_TEXT_LEN,
        ensures
            analysis_ok(text@, r),
    {
        let ghost s = text@;
        let chars = to_char_vec(text);
        let toks = find_word_tokens(&chars);
        let w = toks.len();
        let character_count = chars.len();
        let s_count = count_sentences(&chars);
        let p_count = count_paragraphs(&chars);
        let y = sum_syllables(&chars, &toks);
        let c = count_complex(&chars, &toks);

        let mut lowered_words: Vec<String> = Vec::new();
        let mut i: usize = 0;
        while i < w
            invariant
                s == text@,
                s == chars@,
                crate::tokenize::tokens_match(s, toks@),
                crate::tokenize::tokens_wf(s, toks@),
                w == toks@.len(),
                i <= w,
                lowered_words@.len() == i,
                forall|j: int|
                    0 <= j < i ==> (#[trigger] lowered_words@[j])@ == lowered(word_texts(s))[j],
            decreases w - i,
        {
            let (a, b) = toks[i];
            let word = text.substring_char(a, b);
            let lw = lowercase(word);
            lowered_words.push(lw);
            proof {
                assert(word_texts(s)[i as int] == word_at(s, word_tokens(s)[i as int]));
            }
            i = i + 1;
        }
        proof {
            assert(views_of(lowered_words@) =~= lowered(word_texts(s)));
        }
        let u = count_distinct(&lowered_words);

        let passive = count_passive(&chars, &toks);
        let adverbs = count_adverbs(&chars, &toks);
        let dialogue = count_dialogue(&chars);

        let flesch = flesch_rational(w, s_count, y);
        let fog = fog_rational(w, s_count, c);
        let content_hash = hash_text(text);

        TextAnalysisResult {
            word_count: w,
            character_count,
            paragraph_count: p_count,
            sentence_count: s_count,
            readability_score: flesch,
            complexity_metrics: ComplexityMetrics {
                avg_words_per_sentence: ratio_counts(w, s_count),
                avg_syllables_per_word: ratio_wide(y, w),
                fog_index: fog,
                flesch_reading_ease: flesch,
                unique_word_ratio: ratio_counts(u, w),
            },
            style_metrics: StyleMetrics {
                passive_voice_ratio: ratio_counts(passive, s_count),
                adverb_ratio: ratio_counts(adverbs, w),
                dialogue_ratio: ratio_counts(dialogue, p_count),
                action_ratio: Rational { num: 0, den: 1 },
                description_ratio: Rational { num: 0, den: 1 },
            },
            content_hash,
        }
    }

    /// Generates the suggestion list of `text`.
    pub fn generate_optimization_suggestions(&self, text: &str) -> (r: Vec<OptimizationSuggestion>)
        requires
            text@.len() <= MAX_TEXT_LEN,
        ensures
            suggestions_ok(text@, r@),
    {
        let chars = to_char_vec(text);
        generate_suggestions(&chars)
    }

    /// Resolves a list of conflicts.
    pub fn auto_resolve_conflicts(&self, conflicts: Vec<CollaborationConflict>) -> (r: Vec<
        CollaborationConflict,
    >)
        ensures
            r@.len() == conflicts@.len(),
            forall|i: int|
                0 <= i < conflicts@.len() ==> fields_carried(conflicts@[i], #[trigger] r@[i])
                    && r@[i].resolution_suggestion@ == spec_resolution(conflicts@[i]),
    {
        resolve_conflict_list(conflicts)
    }

    /// Estimates the syllables of one word: at least one for every word,
    /// empty input included.
    pub fn count_syllables(&self, word: &str) -> (r: usize)
        ensures
            r == spec_syllables(word@),
            r >= 1,
    {
        let chars = to_char_vec(word);
        let n = chars.len();
        let r = syllables_in_range(&chars, 0, n);
        proof {
            assert(chars@.subrange(0, n as int) =~= word@);
        }
        r
    }

    /// The mean syllable estimate of a list of words, as an exact ratio:
    /// zero when the list is empty.
    pub fn calculate_avg_syllables(&self, words: &Vec<String>) -> (r: Rational)
        requires
            words@.len() <= MAX_TEXT_LEN,
            forall|i: int| 0 <= i < words@.len() ==> (#[trigger] words@[i])@.len() <= MAX_TEXT_LEN,
        ensures
            r == ratio_or_zero(total_syllables(views_of(words@)) as int, words@.len() as int),
    {
        let ghost vs = views_of(words@);
        let m = words.len();
        let mut total: u64 = 0;
        let mut i: usize = 0;
        proof {
            assert(vs.take(0) =~= Seq::<Seq<char>>::empty());
        }
        while i < m
            invariant
                vs == views_of(words@),
                m == words@.len() <= MAX_TEXT_LEN,
                forall|k: int| 0 <= k < m ==> (#[trigger] words@[k])@.len() <= MAX_TEXT_LEN,
                i <= m,
                total == total_syllables(vs.take(i as int)),
                total <= (i as int) * ((MAX_TEXT_LEN + 1) as int),
            decreases m - i,
        {
            let wchars = to_char_vec(words[i].as_str());
            let n = wchars.len();
            let syl = syllables_in_range(&wchars, 0, n);
            proof {
                assert(wchars@.subrange(0, n as int) =~= vs[i as int]);
                assert(vs.take(i + 1).drop_last() =~= vs.take(i as int));
                assert(vs.take(i + 1).last() == vs[i as int]);
                assert((i + 1) * ((MAX_TEXT_LEN + 1) as int) == (i as int) * ((MAX_TEXT_LEN
                    + 1) as int) + (MAX_TEXT_LEN + 1)) by (nonlinear_arith);
                assert((i as int) * ((MAX_TEXT_LEN + 1) as int) <= 0x100_0000 * 0x100_0001)
                    by (nonlinear_arith)
                    requires
                        0 <= i as int <= 0x100_0000,
                ;
            }
            total = total + (syl as u64);
            i = i + 1;
        }
        proof {
            assert(vs.take(m as int) =~= vs);
            assert((m as int) * ((MAX_TEXT_LEN + 1) as int) <= 0x100_0000 * 0x100_0001)
                by (nonlinear_arith)
                requires
                    0 <= m as int <= 0x100_0000,
            ;
        }
        ratio_wide(total, m)
    }
}

/// Empty text measures zero everywhere, and its reading-ease score is the
/// formula's base value.
pub proof fn lemma_empty_text()
    ensures
        word_count(Seq::<char>::empty()) == 0,
        sentence_count(Seq::<char>::empty()) == 0,
        paragraph_count(Seq::<char>::empty()) == 0,
        dialogue_count(Seq::<char>::empty()) == 0,
        spec_flesch(0, 0, 0) == rat(206835, 1000),
        spec_fog(0, 0, 0) == rat(0, 1),
{
    assert(word_tokens(Seq::<char>::empty()) =~= Seq::<(int, int)>::empty());
}

/// Every ratio an analysis result carries is non-negative with a positive
/// denominator; each is exactly zero when its denominator measurement is
/// zero; and empty text measures zero everywhere with the base
/// reading-ease score.
pub proof fn lemma_analysis_ratios(t: Seq<char>, r: TextAnalysisResult)
    requires
        analysis_ok(t, r),
        t.len() <= MAX_TEXT_LEN,
    ensures
        r.complexity_metrics.avg_words_per_sentence.num >= 0,
        r.complexity_metrics.avg_words_per_sentence.den >= 1,
        r.complexity_metrics.avg_syllables_per_word.num >= 0,
        r.complexity_metrics.avg_syllables_per_word.den >= 1,
        r.complexity_metrics.unique_word_ratio.num >= 0,
        r.complexity_metrics.unique_word_ratio.den >= 1,
        r.style_metrics.passive_voice_ratio.num >= 0,
        r.style_metrics.passive_voice_ratio.den >= 1,
        r.style_metrics.adverb_ratio.num >= 0,
        r.style_metrics.adverb_ratio.den >= 1,
        r.style_metrics.dialogue_ratio.num >= 0,
        r.style_metrics.dialogue_ratio.den >= 1,
        r.style_metrics.action_ratio == rat(0, 1),
        r.style_metrics.description_ratio == rat(0, 1),
        sentence_count(t) == 0 ==> r.complexity_metrics.avg_words_per_sentence == rat(0, 1)
            && r.style_metrics.passive_voice_ratio == rat(0, 1),
        word_count(t) == 0 ==> r.complexity_metrics.avg_syllables_per_word == rat(0, 1)
            && r.complexity_metrics.unique_word_ratio == rat(0, 1) && r.style_metrics.adverb_ratio
            == rat(0, 1),
        paragraph_count(t) == 0 ==> r.style_metrics.dialogue_ratio == rat(0, 1),
        t.len() == 0 ==> r.word_count == 0 && r.sentence_count == 0 && r.paragraph_count == 0
            && r.character_count == 0 && r.complexity_metrics.flesch_reading_ease == rat(
            206835,
            1000,
        ) && r.complexity_metrics.fog_index == rat(0, 1),
{
    crate::tokenize::lemma_word_tokens_bounds(t);
    crate::tokenize::lemma_sentence_count_from_bound(t, 0, false);
    crate::tokenize::lemma_paragraph_count_from_bound(t, 0, false, 0);
    crate::tokenize::lemma_quote_count_from_bound(t, 0);
    crate::metrics::lemma_syllable_totals_bound(t, word_tokens(t));
    crate::metrics::lemma_distinct_count_bound(lowered(word_texts(t)));
    crate::suggest::lemma_passive_matches_bound(t, word_tokens(t));
    crate::suggest::lemma_adverb_tokens_bound(t, word_tokens(t));
    assert(word_texts(t).len() == word_count(t));
    assert(lowered(word_texts(t)).len() == word_count(t));
    assert(word_count(t) * t.len() <= 0x100_0000 * 0x100_0000) by (nonlinear_arith)
        requires
            0 <= word_count(t) <= 0x100_0000,
            0 <= t.len() <= 0x100_0000,
    ;
    crate::metrics::lemma_ratio_or_zero_wf(word_count(t) as int, sentence_count(t) as int);
    crate::metrics::lemma_ratio_or_zero_wf(
        total_syllables(word_texts(t)) as int,
        word_count(t) as int,
    );
    crate::metrics::lemma_ratio_or_zero_wf(
        distinct_count(lowered(word_texts(t))) as int,
        word_count(t) as int,
    );
    crate::metrics::lemma_ratio_or_zero_wf(
        passive_matches(t).len() as int,
        sentence_count(t) as int,
    );
    crate::metrics::lemma_ratio_or_zero_wf(adverb_tokens(t).len() as int, word_count(t) as int);
    crate::metrics::lemma_ratio_or_zero_wf(
        dialogue_count(t) as int,
        paragraph_count(t) as int,
    );
    if t.len() == 0 {
        assert(word_texts(t) =~= Seq::<Seq<char>>::empty());
    }
}

} // verus!
