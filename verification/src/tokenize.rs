//! Tokenization: words, sentences, paragraphs, and the word-pair and
//! character patterns the style metrics count.
//!
//! - A word is a maximal run of word characters.
//! - A sentence is a maximal run free of sentence terminators that still
//!   holds a non-whitespace character.
//! - A paragraph is a span delimited by a blank line: a maximal whitespace
//!   run holding at least two newlines. A paragraph counts only when it
//!   holds a non-whitespace character.

use vstd::prelude::*;
use crate::chars::is_word_char;
use crate::chars::word_char;
use crate::chars::is_terminator;
use crate::chars::terminator;
use crate::chars::spec_whitespace;
use crate::chars::char_whitespace;

verus! {

/// The word tokens of `s` from position `i` on, as `(start, end)` character
/// ranges; `in_word` says whether a word beginning at `cur_start` is open.
pub open spec fn word_tokens_from(s: Seq<char>, i: int, cur_start: int, in_word: bool) -> Seq<
    (int, int),
>
    decreases s.len() - i,
{
    if i < 0 || i >= s.len() {
        if in_word {
            seq![(cur_start, i)]
        } else {
            seq![]
        }
    } else if is_word_char(s[i]) {
        word_tokens_from(
            s,
            i + 1,
            if in_word {
                cur_start
            } else {
                i
            },
            true,
        )
    } else if in_word {
        seq![(cur_start, i)] + word_tokens_from(s, i + 1, 0, false)
    } else {
        word_tokens_from(s, i + 1, 0, false)
    }
}

/// The word tokens of `s`: the maximal runs of word characters, in order.
pub open spec fn word_tokens(s: Seq<char>) -> Seq<(int, int)> {
    word_tokens_from(s, 0, 0, false)
}

/// The number of words in `s`.
pub open spec fn word_count(s: Seq<char>) -> nat {
    word_tokens(s).len()
}

/// The text of one word token.
pub open spec fn word_at(s: Seq<char>, t: (int, int)) -> Seq<char> {
    s.subrange(t.0, t.1)
}

/// The texts of the words of `s`, in order.
pub open spec fn word_texts(s: Seq<char>) -> Seq<Seq<char>> {
    word_tokens(s).map_values(|t: (int, int)| word_at(s, t))
}

/// An executable token vector mirrors the word tokens of `s`.
pub open spec fn tokens_match(s: Seq<char>, tv: Seq<(usize, usize)>) -> bool {
    &&& tv.len() == word_tokens(s).len()
    &&& forall|j: int|
        0 <= j < tv.len() ==> (#[trigger] tv[j]).0 == word_tokens(s)[j].0 && tv[j].1
            == word_tokens(s)[j].1
}

/// Every token is a non-empty in-bounds range.
pub open spec fn tokens_wf(s: Seq<char>, tv: Seq<(usize, usize)>) -> bool {
    forall|j: int| 0 <= j < tv.len() ==> (#[trigger] tv[j]).0 < tv[j].1 <= s.len()
}

/// The `(usize, usize)` ranges as mathematical pairs.
pub open spec fn ranges_of(tv: Seq<(usize, usize)>) -> Seq<(int, int)> {
    tv.map_values(|t: (usize, usize)| (t.0 as int, t.1 as int))
}

/// The word tokens from any scan state are in-bounds, non-empty ranges and
/// never outnumber the characters left to scan.
pub proof fn lemma_word_tokens_from_bounds(s: Seq<char>, i: int, cur_start: int, in_word: bool)
    requires
        0 <= i <= s.len(),
        in_word ==> 0 <= cur_start < i,
    ensures
        word_tokens_from(s, i, cur_start, in_word).len() + i <= s.len() + if in_word {
            1int
        } else {
            0int
        },
        forall|j: int|
            0 <= j < word_tokens_from(s, i, cur_start, in_word).len() ==> 0 <= (
            #[trigger] word_tokens_from(s, i, cur_start, in_word)[j]).0 < word_tokens_from(
                s,
                i,
                cur_start,
                in_word,
            )[j].1 <= s.len(),
    decreases s.len() - i,
{
    if i >= s.len() {
    } else if is_word_char(s[i]) {
        lemma_word_tokens_from_bounds(
            s,
            i + 1,
            if in_word {
                cur_start
            } else {
                i
            },
            true,
        );
    } else {
        lemma_word_tokens_from_bounds(s, i + 1, 0, false);
    }
}

/// The word tokens of `s` are in-bounds, non-empty ranges and never
/// outnumber its characters.
pub proof fn lemma_word_tokens_bounds(s: Seq<char>)
    ensures
        word_tokens(s).len() <= s.len(),
        forall|j: int|
            0 <= j < word_tokens(s).len() ==> 0 <= (#[trigger] word_tokens(s)[j]).0 < word_tokens(
                s,
            )[j].1 <= s.len(),
{
    lemma_word_tokens_from_bounds(s, 0, 0, false);
}

/// Finds every word of `chars`: each maximal run of word characters, as a
/// `(start, end)` character range.
pub fn find_word_tokens(chars: &Vec<char>) -> (r: Vec<(usize, usize)>)
    ensures
        tokens_match(chars@, r@),
        tokens_wf(chars@, r@),
        r@.len() <= chars@.len(),
{
    let ghost s = chars@;
    let n = chars.len();
    let mut r: Vec<(usize, usize)> = Vec::new();
    let mut in_word = false;
    let mut start: usize = 0;
    let mut i: usize = 0;
    while i < n
        invariant
            n == s.len(),
            s == chars@,
            i <= n,
            in_word ==> start < i,
            !in_word ==> start == 0,
            word_tokens(s) == ranges_of(r@) + word_tokens_from(
                s,
                i as int,
                start as int,
                in_word,
            ),
            tokens_wf(s, r@),
            r@.len() + (if in_word { 1int } else { 0int }) <= i,
        decreases n - i,
    {
        let c = chars[i];
        if word_char(c) {
            if !in_word {
                start = i;
                in_word = true;
            }
        } else {
            if in_word {
                let ghost r0 = r@;
                r.push((start, i));
                proof {
                    assert(ranges_of(r@) =~= ranges_of(r0) + seq![(start as int, i as int)]);
                    assert(ranges_of(r@) + word_tokens_from(s, i + 1, 0, false) =~= ranges_of(r0)
                        + (seq![(start as int, i as int)] + word_tokens_from(s, i + 1, 0, false)));
                }
                in_word = false;
                start = 0;
            }
        }
        i = i + 1;
    }
    if in_word {
        let ghost r0 = r@;
        r.push((start, n));
        proof {
            assert(word_tokens_from(s, n as int, start as int, true) == seq![
                (start as int, n as int),
            ]);
            assert(ranges_of(r@) =~= ranges_of(r0) + seq![(start as int, n as int)]);
            assert(word_tokens(s) =~= ranges_of(r@));
        }
    } else {
        proof {
            assert(word_tokens_from(s, n as int, start as int, false) == Seq::<(int, int)>::empty());
            assert(word_tokens(s) =~= ranges_of(r@));
        }
    }
    proof {
        assert forall|j: int| 0 <= j < r@.len() implies (#[trigger] r@[j]).0 == word_tokens(s)[j].0
            && r@[j].1 == word_tokens(s)[j].1 by {
            assert(word_tokens(s)[j] == ranges_of(r@)[j]);
        }
    }
    r
}

/// The number of sentences of `s` from position `i` on; `content` says
/// whether the open span already holds a non-whitespace character.
pub open spec fn sentence_count_from(s: Seq<char>, i: int, content: bool) -> nat
    decreases s.len() - i,
{
    if i < 0 || i >= s.len() {
        if content {
            1
        } else {
            0
        }
    } else if is_terminator(s[i]) {
        (if content {
            1nat
        } else {
            0nat
        }) + sentence_count_from(s, i + 1, false)
    } else if spec_whitespace(s[i]) {
        sentence_count_from(s, i + 1, content)
    } else {
        sentence_count_from(s, i + 1, true)
    }
}

/// The number of sentences of `s`: spans between terminator runs that hold
/// a non-whitespace character.
pub open spec fn sentence_count(s: Seq<char>) -> nat {
    sentence_count_from(s, 0, false)
}

/// Sentences never outnumber the characters left to scan.
pub proof fn lemma_sentence_count_from_bound(s: Seq<char>, i: int, content: bool)
    requires
        0 <= i <= s.len(),
    ensures
        sentence_count_from(s, i, content) + i <= s.len() + if content {
            1int
        } else {
            0int
        },
    decreases s.len() - i,
{
    if i < s.len() {
        if is_terminator(s[i]) {
            lemma_sentence_count_from_bound(s, i + 1, false);
        } else if spec_whitespace(s[i]) {
            lemma_sentence_count_from_bound(s, i + 1, content);
        } else {
            lemma_sentence_count_from_bound(s, i + 1, true);
        }
    }
}

/// Counts the sentences of `chars`.
pub fn count_sentences(chars: &Vec<char>) -> (r: usize)
    ensures
        r == sentence_count(chars@),
        r <= chars@.len(),
{
    let ghost s = chars@;
    let n = chars.len();
    let mut count: usize = 0;
    let mut content = false;
    let mut i: usize = 0;
    while i < n
        invariant
            n == s.len(),
            s == chars@,
            i <= n,
            count + (if content { 1int } else { 0int }) <= i,
            sentence_count(s) == count + sentence_count_from(s, i as int, content),
        decreases n - i,
    {
        let c = chars[i];
        if terminator(c) {
            if content {
                count = count + 1;
            }
            content = false;
        } else if !char_whitespace(c) {
            content = true;
        }
        i = i + 1;
    }
    if content {
        count = count + 1;
    }
    count
}

/// The number of paragraphs of `s` from position `i` on; `content` says
/// whether the open paragraph holds a non-whitespace character, and `nl`
/// how many newlines the whitespace run just before position `i` holds.
pub open spec fn paragraph_count_from(s: Seq<char>, i: int, content: bool, nl: nat) -> nat
    decreases s.len() - i,
{
    if i < 0 || i >= s.len() {
        if content {
            1
        } else {
            0
        }
    } else if spec_whitespace(s[i]) {
        paragraph_count_from(
            s,
            i + 1,
            content,
            if s[i] == '\n' {
                nl + 1
            } else {
                nl
            },
        )
    } else if content && nl >= 2 {
        1 + paragraph_count_from(s, i + 1, true, 0)
    } else {
        paragraph_count_from(s, i + 1, true, 0)
    }
}

/// The number of paragraphs of `s`: spans separated by a blank line (a
/// whitespace run with at least two newlines) that hold a non-whitespace
/// character.
pub open spec fn paragraph_count(s: Seq<char>) -> nat {
    paragraph_count_from(s, 0, false, 0)
}

/// Paragraphs never outnumber the characters left to scan.
pub proof fn lemma_paragraph_count_from_bound(s: Seq<char>, i: int, content: bool, nl: nat)
    requires
        0 <= i <= s.len(),
    ensures
        paragraph_count_from(s, i, content, nl) + i <= s.len() + if content {
            1int
        } else {
            0int
        },
    decreases s.len() - i,
{
    if i < s.len() {
        if spec_whitespace(s[i]) {
            lemma_paragraph_count_from_bound(
                s,
                i + 1,
                content,
                if s[i] == '\n' {
                    nl + 1
                } else {
                    nl
                },
            );
        } else {
            lemma_paragraph_count_from_bound(s, i + 1, true, 0);
        }
    }
}

/// Counts the paragraphs of `chars`.
pub fn count_paragraphs(chars: &Vec<char>) -> (r: usize)
    ensures
        r == paragraph_count(chars@),
        r <= chars@.len(),
{
    let ghost s = chars@;
    let n = chars.len();
    let mut count: usize = 0;
    let mut content = false;
    let mut nl: usize = 0;
    let mut i: usize = 0;
    while i < n
        invariant
            n == s.len(),
            s == chars@,
            i <= n,
            nl <= i,
            count + (if content { 1int } else { 0int }) <= i,
            paragraph_count(s) == count + paragraph_count_from(s, i as int, content, nl as nat),
        decreases n - i,
    {
        let c = chars[i];
        if char_whitespace(c) {
            if c == '\n' {
                nl = nl + 1;
            }
        } else {
            if content && nl >= 2 {
                count = count + 1;
            }
            content = true;
            nl = 0;
        }
        i = i + 1;
    }
    if content {
        count = count + 1;
    }
    count
}

/// The number of double-quote characters of `s` from position `i` on.
pub open spec fn quote_count_from(s: Seq<char>, i: int) -> nat
    decreases s.len() - i,
{
    if i < 0 || i >= s.len() {
        0
    } else {
        (if s[i] == '"' {
            1nat
        } else {
            0nat
        }) + quote_count_from(s, i + 1)
    }
}

/// The number of double-quote characters of `s`.
pub open spec fn quote_count(s: Seq<char>) -> nat {
    quote_count_from(s, 0)
}

/// The number of quoted spans of `s`: quotes pair up left to right, so the
/// spans number half the quotes, rounded down.
pub open spec fn dialogue_count(s: Seq<char>) -> nat {
    quote_count(s) / 2
}

/// Quotes never outnumber the characters left to scan.
pub proof fn lemma_quote_count_from_bound(s: Seq<char>, i: int)
    requires
        0 <= i <= s.len(),
    ensures
        quote_count_from(s, i) <= s.len() - i,
    decreases s.len() - i,
{
    if i < s.len() {
        lemma_quote_count_from_bound(s, i + 1);
    }
}

/// Counts the quoted spans of `chars`.
pub fn count_dialogue(chars: &Vec<char>) -> (r: usize)
    ensures
        r == dialogue_count(chars@),
{
    let ghost s = chars@;
    let n = chars.len();
    let mut quotes: usize = 0;
    let mut i: usize = 0;
    while i < n
        invariant
            n == s.len(),
            s == chars@,
            i <= n,
            quotes <= i,
            quote_count(s) == quotes + quote_count_from(s, i as int),
        decreases n - i,
    {
        if chars[i] == '"' {
            quotes = quotes + 1;
        }
        i = i + 1;
    }
    quotes / 2
}

} // verus!
