//! Writing-improvement suggestions: three heuristic scans whose findings
//! are concatenated — long sentences first, then passive voice, then
//! adverb use. The aggregate order only groups findings by kind.
//!
//! - Long sentence: the text is split on literal `.` characters; a fragment
//!   with more than twenty-five words is flagged. Its positions are the
//!   approximation `index * 50 .. (index + 1) * 50`, kept for output
//!   compatibility, not exact character offsets.
//! - Passive voice: an auxiliary word (`was`, `were`, `been`, `being`)
//!   followed across whitespace by a word ending in `ed`, with exact
//!   character offsets.
//! - Adverb use: a word ending in `ly`, with exact character offsets.

use vstd::prelude::*;
use vstd::string::StringExecFns;
use crate::chars::spec_whitespace;
use crate::chars::char_whitespace;
use crate::metrics::MAX_TEXT_LEN;
use crate::tokenize::word_tokens;
use crate::tokenize::word_at;
use crate::tokenize::word_count;
use crate::tokenize::tokens_match;
use crate::tokenize::tokens_wf;
use crate::tokenize::find_word_tokens;

verus! {

/// One heuristic finding. `suggested_replacement` is present only when the
/// heuristic can propose concrete text; none of the current heuristics do.
pub struct OptimizationSuggestion {
    pub suggestion_type: String,
    pub priority: String,
    pub message: String,
    pub start_pos: usize,
    pub end_pos: usize,
    pub suggested_replacement: Option<String>,
}

/// The indices of the `.`-separated fragments of `s`, from position `i`
/// on, whose word count exceeds twenty-five; `cur` is the open fragment and
/// `idx` its index.
pub open spec fn long_indices_scan(s: Seq<char>, i: int, cur: Seq<char>, idx: int) -> Seq<int>
    decreases s.len() - i,
{
    if i < 0 || i >= s.len() {
        if word_count(cur) > 25 {
            seq![idx]
        } else {
            seq![]
        }
    } else if s[i] == '.' {
        (if word_count(cur) > 25 {
            seq![idx]
        } else {
            seq![]
        }) + long_indices_scan(s, i + 1, seq![], idx + 1)
    } else {
        long_indices_scan(s, i + 1, cur.push(s[i]), idx)
    }
}

/// The indices of the long `.`-separated fragments of `s`.
pub open spec fn long_indices(s: Seq<char>) -> Seq<int> {
    long_indices_scan(s, 0, seq![], 0)
}

/// An auxiliary verb form that can open a passive construction.
pub open spec fn is_aux(w: Seq<char>) -> bool {
    w == seq!['w', 'a', 's'] || w == seq!['w', 'e', 'r', 'e'] || w == seq!['b', 'e', 'e', 'n'] || w
        == seq!['b', 'e', 'i', 'n', 'g']
}

/// A word of at least three characters ending in `ed`.
pub open spec fn ends_ed(w: Seq<char>) -> bool {
    w.len() >= 3 && w[w.len() - 2] == 'e' && w[w.len() - 1] == 'd'
}

/// A word of at least three characters ending in `ly`.
pub open spec fn is_adverb(w: Seq<char>) -> bool {
    w.len() >= 3 && w[w.len() - 2] == 'l' && w[w.len() - 1] == 'y'
}

/// Every character of `s` in `[a, b)` is whitespace.
pub open spec fn all_ws(s: Seq<char>, a: int, b: int) -> bool {
    forall|k: int| a <= k < b ==> spec_whitespace(#[trigger] s[k])
}

/// Two adjacent words form a passive construction: an auxiliary, at least
/// one character of pure whitespace, then a word ending in `ed`.
pub open spec fn passive_pair(s: Seq<char>, t1: (int, int), t2: (int, int)) -> bool {
    is_aux(word_at(s, t1)) && ends_ed(word_at(s, t2)) && t1.1 < t2.0 && all_ws(s, t1.1, t2.0)
}

/// The passive constructions among adjacent pairs of `toks`, each as the
/// character span from the auxiliary's start to the participle's end.
pub open spec fn passive_matches_of(s: Seq<char>, toks: Seq<(int, int)>) -> Seq<(int, int)>
    decreases toks.len(),
{
    if toks.len() < 2 {
        seq![]
    } else {
        passive_matches_of(s, toks.drop_last()) + if passive_pair(
            s,
            toks[toks.len() - 2],
            toks[toks.len() - 1],
        ) {
            seq![(toks[toks.len() - 2].0, toks[toks.len() - 1].1)]
        } else {
            seq![]
        }
    }
}

/// The passive constructions of `s`.
pub open spec fn passive_matches(s: Seq<char>) -> Seq<(int, int)> {
    passive_matches_of(s, word_tokens(s))
}

/// The adverbs among `toks`, each as its character span.
pub open spec fn adverb_tokens_of(s: Seq<char>, toks: Seq<(int, int)>) -> Seq<(int, int)>
    decreases toks.len(),
{
    if toks.len() == 0 {
        seq![]
    } else {
        adverb_tokens_of(s, toks.drop_last()) + if is_adverb(word_at(s, toks.last())) {
            seq![toks.last()]
        } else {
            seq![]
        }
    }
}

/// The adverbs of `s`.
pub open spec fn adverb_tokens(s: Seq<char>) -> Seq<(int, int)> {
    adverb_tokens_of(s, word_tokens(s))
}

/// Passive matches never outnumber the word tokens.
pub proof fn lemma_passive_matches_bound(s: Seq<char>, toks: Seq<(int, int)>)
    ensures
        passive_matches_of(s, toks).len() <= toks.len(),
    decreases toks.len(),
{
    if toks.len() >= 2 {
        lemma_passive_matches_bound(s, toks.drop_last());
    }
}

/// Adverbs never outnumber the word tokens.
pub proof fn lemma_adverb_tokens_bound(s: Seq<char>, toks: Seq<(int, int)>)
    ensures
        adverb_tokens_of(s, toks).len() <= toks.len(),
    decreases toks.len(),
{
    if toks.len() > 0 {
        lemma_adverb_tokens_bound(s, toks.drop_last());
    }
}

/// Decides `is_aux` of `chars[a..b]`.
fn check_aux(chars: &Vec<char>, a: usize, b: usize) -> (r: bool)
    requires
        a <= b <= chars@.len(),
    ensures
        r == is_aux(chars@.subrange(a as int, b as int)),
{
    let ghost w = chars@.subrange(a as int, b as int);
    proof {
        assert forall|k: int| 0 <= k < w.len() implies w[k] == chars@[a + k] by {}
        let p3 = seq!['w', 'a', 's'];
        assert(p3.len() == 3 && p3[0] == 'w' && p3[1] == 'a' && p3[2] == 's');
        let p4a = seq!['w', 'e', 'r', 'e'];
        assert(p4a.len() == 4 && p4a[0] == 'w' && p4a[1] == 'e' && p4a[2] == 'r' && p4a[3] == 'e');
        let p4b = seq!['b', 'e', 'e', 'n'];
        assert(p4b.len() == 4 && p4b[0] == 'b' && p4b[1] == 'e' && p4b[2] == 'e' && p4b[3] == 'n');
        let p5 = seq!['b', 'e', 'i', 'n', 'g'];
        assert(p5.len() == 5 && p5[0] == 'b' && p5[1] == 'e' && p5[2] == 'i' && p5[3] == 'n'
            && p5[4] == 'g');
    }
    let len = b - a;
    if len == 3 {
        let r = chars[a] == 'w' && chars[a + 1] == 'a' && chars[a + 2] == 's';
        proof {
            if r {
                assert(w =~= seq!['w', 'a', 's']);
            }
        }
        r
    } else if len == 4 {
        let were = chars[a] == 'w' && chars[a + 1] == 'e' && chars[a + 2] == 'r' && chars[a + 3]
            == 'e';
        let been = chars[a] == 'b' && chars[a + 1] == 'e' && chars[a + 2] == 'e' && chars[a + 3]
            == 'n';
        proof {
            if were {
                assert(w =~= seq!['w', 'e', 'r', 'e']);
            }
            if been {
                assert(w =~= seq!['b', 'e', 'e', 'n']);
            }
        }
        were || been
    } else if len == 5 {
        let r = chars[a] == 'b' && chars[a + 1] == 'e' && chars[a + 2] == 'i' && chars[a + 3] == 'n'
            && chars[a + 4] == 'g';
        proof {
            if r {
                assert(w =~= seq!['b', 'e', 'i', 'n', 'g']);
            }
        }
        r
    } else {
        false
    }
}

/// Decides whether `chars[a..b]` ends in the two given characters and has
/// at least three characters.
fn check_tail(chars: &Vec<char>, a: usize, b: usize, c1: char, c2: char) -> (r: bool)
    requires
        a <= b <= chars@.len(),
    ensures
        r == (b - a >= 3 && chars@.subrange(a as int, b as int)[b - a - 2] == c1 && chars@.subrange(
            a as int,
            b as int,
        )[b - a - 1] == c2),
{
    b - a >= 3 && chars[b - 2] == c1 && chars[b - 1] == c2
}

/// Decides `all_ws` of `chars` over `[a, b)`.
fn check_gap_ws(chars: &Vec<char>, a: usize, b: usize) -> (r: bool)
    requires
        a <= b <= chars@.len(),
    ensures
        r == all_ws(chars@, a as int, b as int),
{
    let mut k = a;
    while k < b
        invariant
            a <= k <= b <= chars@.len(),
            all_ws(chars@, a as int, k as int),
        decreases b - k,
    {
        if !char_whitespace(chars[k]) {
            return false;
        }
        k = k + 1;
    }
    true
}

/// Decides `passive_pair` of two token ranges.
fn check_pair(chars: &Vec<char>, t1: (usize, usize), t2: (usize, usize)) -> (r: bool)
    requires
        t1.0 <= t1.1 <= chars@.len(),
        t2.0 <= t2.1 <= chars@.len(),
    ensures
        r == passive_pair(chars@, (t1.0 as int, t1.1 as int), (t2.0 as int, t2.1 as int)),
{
    if !check_aux(chars, t1.0, t1.1) {
        return false;
    }
    if !check_tail(chars, t2.0, t2.1, 'e', 'd') {
        return false;
    }
    if !(t1.1 < t2.0) {
        return false;
    }
    check_gap_ws(chars, t1.1, t2.0)
}

/// Counts the passive constructions of `chars`, given its word tokens.
pub fn count_passive(chars: &Vec<char>, toks: &Vec<(usize, usize)>) -> (r: usize)
    requires
        tokens_match(chars@, toks@),
        tokens_wf(chars@, toks@),
    ensures
        r == passive_matches(chars@).len(),
{
    let ghost s = chars@;
    let ghost tt = word_tokens(s);
    let m = toks.len();
    if m == 0 {
        return 0;
    }
    let mut count: usize = 0;
    let mut i: usize = 1;
    proof {
        assert(passive_matches_of(s, tt.take(1)) =~= Seq::<(int, int)>::empty());
    }
    while i < m
        invariant
            s == chars@,
            tt == word_tokens(s),
            m == toks@.len(),
            1 <= i <= m,
            count <= i,
            tokens_match(s, toks@),
            tokens_wf(s, toks@),
            count == passive_matches_of(s, tt.take(i as int)).len(),
        decreases m - i,
    {
        let t1 = toks[i - 1];
        let t2 = toks[i];
        let hit = check_pair(chars, t1, t2);
        proof {
            assert(tt.take(i + 1).drop_last() =~= tt.take(i as int));
            assert(tt.take(i + 1)[i - 1] == tt[i - 1]);
            assert(tt.take(i + 1)[i as int] == tt[i as int]);
            assert(tt[i - 1] == (t1.0 as int, t1.1 as int));
            assert(tt[i as int] == (t2.0 as int, t2.1 as int));
        }
        if hit {
            count = count + 1;
        }
        i = i + 1;
    }
    proof {
        assert(tt.take(m as int) =~= tt);
    }
    count
}

/// Counts the adverbs of `chars`, given its word tokens.
pub fn count_adverbs(chars: &Vec<char>, toks: &Vec<(usize, usize)>) -> (r: usize)
    requires
        tokens_match(chars@, toks@),
        tokens_wf(chars@, toks@),
    ensures
        r == adverb_tokens(chars@).len(),
{
    let ghost s = chars@;
    let ghost tt = word_tokens(s);
    let m = toks.len();
    let mut count: usize = 0;
    let mut i: usize = 0;
    proof {
        assert(adverb_tokens_of(s, tt.take(0)) =~= Seq::<(int, int)>::empty());
    }
    while i < m
        invariant
            s == chars@,
            tt == word_tokens(s),
            m == toks@.len(),
            i <= m,
            count <= i,
            tokens_match(s, toks@),
            tokens_wf(s, toks@),
            count == adverb_tokens_of(s, tt.take(i as int)).len(),
        decreases m - i,
    {
        let t = toks[i];
        let hit = check_tail(chars, t.0, t.1, 'l', 'y');
        proof {
            assert(tt.take(i + 1).drop_last() =~= tt.take(i as int));
            assert(tt.take(i + 1).last() == tt[i as int]);
            assert(tt[i as int] == (t.0 as int, t.1 as int));
        }
        if hit {
            count = count + 1;
        }
        i = i + 1;
    }
    proof {
        assert(tt.take(m as int) =~= tt);
    }
    count
}

/// A long-sentence finding for the fragment at `idx`.
pub open spec fn is_long_sugg(g: OptimizationSuggestion, idx: int) -> bool {
    &&& g.suggestion_type@ == "sentence_length"@
    &&& g.priority@ == "medium"@
    &&& g.message@
        == "Consider breaking this long sentence into shorter ones for better readability."@
    &&& g.start_pos == idx * 50
    &&& g.end_pos == (idx + 1) * 50
    &&& g.suggested_replacement is None
}

/// A passive-voice finding for the match span `m`.
pub open spec fn is_passive_sugg(g: OptimizationSuggestion, m: (int, int)) -> bool {
    &&& g.suggestion_type@ == "passive_voice"@
    &&& g.priority@ == "low"@
    &&& g.message@ == "Consider using active voice for more engaging writing."@
    &&& g.start_pos == m.0
    &&& g.end_pos == m.1
    &&& g.suggested_replacement is None
}

/// An adverb finding for the word span `t`.
pub open spec fn is_adverb_sugg(g: OptimizationSuggestion, t: (int, int)) -> bool {
    &&& g.suggestion_type@ == "adverb_usage"@
    &&& g.priority@ == "low"@
    &&& g.message@ == "Consider using stronger verbs instead of adverbs."@
    &&& g.start_pos == t.0
    &&& g.end_pos == t.1
    &&& g.suggested_replacement is None
}

/// What a suggestion list holds for the text `t`: first one long-sentence
/// finding per long fragment, then one passive-voice finding per match,
/// then one adverb finding per adverb, each section in text order.
pub open spec fn suggestions_ok(t: Seq<char>, r: Seq<OptimizationSuggestion>) -> bool {
    &&& r.len() == long_indices(t).len() + passive_matches(t).len() + adverb_tokens(t).len()
    &&& forall|j: int|
        0 <= j < long_indices(t).len() ==> is_long_sugg(#[trigger] r[j], long_indices(t)[j])
    &&& forall|j: int|
        0 <= j < passive_matches(t).len() ==> is_passive_sugg(
            #[trigger] r[long_indices(t).len() + j],
            passive_matches(t)[j],
        )
    &&& forall|j: int|
        0 <= j < adverb_tokens(t).len() ==> is_adverb_sugg(
            #[trigger] r[long_indices(t).len() + passive_matches(t).len() + j],
            adverb_tokens(t)[j],
        )
}

fn long_suggestion(idx: usize) -> (g: OptimizationSuggestion)
    requires
        idx <= MAX_TEXT_LEN,
    ensures
        is_long_sugg(g, idx as int),
{
    OptimizationSuggestion {
        suggestion_type: String::from_str("sentence_length"),
        priority: String::from_str("medium"),
        message: String::from_str(
            "Consider breaking this long sentence into shorter ones for better readability.",
        ),
        start_pos: idx * 50,
        end_pos: (idx + 1) * 50,
        suggested_replacement: None,
    }
}

fn passive_suggestion(start: usize, end: usize) -> (g: OptimizationSuggestion)
    ensures
        is_passive_sugg(g, (start as int, end as int)),
{
    OptimizationSuggestion {
        suggestion_type: String::from_str("passive_voice"),
        priority: String::from_str("low"),
        message: String::from_str("Consider using active voice for more engaging writing."),
        start_pos: start,
        end_pos: end,
        suggested_replacement: None,
    }
}

fn adverb_suggestion(start: usize, end: usize) -> (g: OptimizationSuggestion)
    ensures
        is_adverb_sugg(g, (start as int, end as int)),
{
    OptimizationSuggestion {
        suggestion_type: String::from_str("adverb_usage"),
        priority: String::from_str("low"),
        message: String::from_str("Consider using stronger verbs instead of adverbs."),
        start_pos: start,
        end_pos: end,
        suggested_replacement: None,
    }
}

/// Generates the ordered suggestion list of `chars`: the long-sentence
/// findings, then the passive-voice findings, then the adverb findings,
/// each section in text order.
pub fn generate_suggestions(chars: &Vec<char>) -> (r: Vec<OptimizationSuggestion>)
    requires
        chars@.len() <= MAX_TEXT_LEN,
    ensures
        suggestions_ok(chars@, r@),
{
    let ghost s = chars@;
    let ghost li = long_indices(s);
    let n = chars.len();
    let mut r: Vec<OptimizationSuggestion> = Vec::new();

    // Long-sentence pass over the `.`-separated fragments.
    let ghost mut done: Seq<int> = Seq::empty();
    let mut cur: Vec<char> = Vec::new();
    let mut idx: usize = 0;
    let mut i: usize = 0;
    proof {
        assert(li == done + long_indices_scan(s, 0, Seq::<char>::empty(), 0));
    }
    while i < n
        invariant
            s == chars@,
            li == long_indices(s),
            n == s.len() <= MAX_TEXT_LEN,
            i <= n,
            idx <= i,
            r@.len() == done.len(),
            forall|j: int| 0 <= j < done.len() ==> is_long_sugg(#[trigger] r@[j], done[j]),
            li == done + long_indices_scan(s, i as int, cur@, idx as int),
        decreases n - i,
    {
        let c = chars[i];
        if c == '.' {
            let toks = find_word_tokens(&cur);
            let wc = toks.len();
            if wc > 25 {
                let ghost done0 = done;
                r.push(long_suggestion(idx));
                proof {
                    done = done0 + seq![idx as int];
                    assert(done + long_indices_scan(s, i + 1, Seq::<char>::empty(), idx + 1)
                        =~= done0 + (seq![idx as int] + long_indices_scan(
                        s,
                        i + 1,
                        Seq::<char>::empty(),
                        idx + 1,
                    )));
                }
            } else {
                proof {
                    assert(li == done + long_indices_scan(
                        s,
                        i + 1,
                        Seq::<char>::empty(),
                        idx + 1,
                    ));
                }
            }
            cur = Vec::new();
            idx = idx + 1;
        } else {
            cur.push(c);
        }
        i = i + 1;
    }
    let tail_toks = find_word_tokens(&cur);
    let tail_wc = tail_toks.len();
    if tail_wc > 25 {
        let ghost done0 = done;
        r.push(long_suggestion(idx));
        proof {
            done = done0 + seq![idx as int];
            assert(long_indices_scan(s, n as int, cur@, idx as int) == seq![idx as int]);
            assert(li =~= done);
        }
    } else {
        proof {
            assert(long_indices_scan(s, n as int, cur@, idx as int) =~= Seq::<int>::empty());
            assert(li =~= done);
        }
    }
    proof {
        assert(r@.len() == li.len());
    }

    // Passive-voice pass over adjacent word pairs.
    let ghost pm = passive_matches(s);
    let ghost tt = word_tokens(s);
    let toks = find_word_tokens(chars);
    let m = toks.len();
    let ghost base = li.len();
    if m > 0 {
        let mut i2: usize = 1;
        proof {
            assert(passive_matches_of(s, tt.take(1)) =~= Seq::<(int, int)>::empty());
        }
        while i2 < m
            invariant
                s == chars@,
                li == long_indices(s),
                pm == passive_matches(s),
                tt == word_tokens(s),
                base == li.len(),
                m == toks@.len(),
                1 <= i2 <= m,
                tokens_match(s, toks@),
                tokens_wf(s, toks@),
                r@.len() == base + passive_matches_of(s, tt.take(i2 as int)).len(),
                forall|j: int| 0 <= j < base ==> is_long_sugg(#[trigger] r@[j], li[j]),
                forall|j: int|
                    0 <= j < passive_matches_of(s, tt.take(i2 as int)).len() ==> is_passive_sugg(
                        #[trigger] r@[base + j],
                        passive_matches_of(s, tt.take(i2 as int))[j],
                    ),
            decreases m - i2,
        {
            let t1 = toks[i2 - 1];
            let t2 = toks[i2];
            let hit = check_pair(chars, t1, t2);
            proof {
                assert(tt.take(i2 + 1).drop_last() =~= tt.take(i2 as int));
                assert(tt.take(i2 + 1)[i2 - 1] == tt[i2 - 1]);
                assert(tt.take(i2 + 1)[i2 as int] == tt[i2 as int]);
                assert(tt[i2 - 1] == (t1.0 as int, t1.1 as int));
                assert(tt[i2 as int] == (t2.0 as int, t2.1 as int));
            }
            if hit {
                r.push(passive_suggestion(t1.0, t2.1));
            }
            i2 = i2 + 1;
        }
        proof {
            assert(tt.take(m as int) =~= tt);
        }
    } else {
        proof {
            assert(pm =~= Seq::<(int, int)>::empty());
        }
    }
    proof {
        assert(r@.len() == base + pm.len());
    }

    // Adverb pass over every word.
    let ghost at = adverb_tokens(s);
    let ghost base2 = li.len() + pm.len();
    let mut i3: usize = 0;
    proof {
        assert(adverb_tokens_of(s, tt.take(0)) =~= Seq::<(int, int)>::empty());
    }
    while i3 < m
        invariant
            s == chars@,
            li == long_indices(s),
            pm == passive_matches(s),
            at == adverb_tokens(s),
            tt == word_tokens(s),
            base2 == li.len() + pm.len(),
            m == toks@.len(),
            i3 <= m,
            tokens_match(s, toks@),
            tokens_wf(s, toks@),
            r@.len() == base2 + adverb_tokens_of(s, tt.take(i3 as int)).len(),
            forall|j: int| 0 <= j < li.len() ==> is_long_sugg(#[trigger] r@[j], li[j]),
            forall|j: int|
                0 <= j < pm.len() ==> is_passive_sugg(#[trigger] r@[li.len() + j], pm[j]),
            forall|j: int|
                0 <= j < adverb_tokens_of(s, tt.take(i3 as int)).len() ==> is_adverb_sugg(
                    #[trigger] r@[base2 + j],
                    adverb_tokens_of(s, tt.take(i3 as int))[j],
                ),
        decreases m - i3,
    {
        let t = toks[i3];
        let hit = check_tail(chars, t.0, t.1, 'l', 'y');
        proof {
            assert(tt.take(i3 + 1).drop_last() =~= tt.take(i3 as int));
            assert(tt.take(i3 + 1).last() == tt[i3 as int]);
            assert(tt[i3 as int] == (t.0 as int, t.1 as int));
        }
        if hit {
            r.push(adverb_suggestion(t.0, t.1));
        }
        i3 = i3 + 1;
    }
    proof {
        assert(tt.take(m as int) =~= tt);
    }
    r
}

} // verus!
