use text_engine::TextProcessor;
use text_engine::conflict::CollaborationConflict;

fn conflict(kind: &str, a: &str, b: &str) -> CollaborationConflict {
    CollaborationConflict {
        conflict_id: "c1".to_string(),
        conflict_type: kind.to_string(),
        start_pos: 3,
        end_pos: 9,
        user_a_change: a.to_string(),
        user_b_change: b.to_string(),
        timestamp: "2024-01-01T00:00:00Z".to_string(),
        resolution_suggestion: String::new(),
    }
}

#[test]
fn syllables_cake_hello_a() {
    let p = TextProcessor::new();
    assert_eq!(p.count_syllables("cake"), 1);
    assert_eq!(p.count_syllables("hello"), 2);
    assert_eq!(p.count_syllables("a"), 1);
}

#[test]
fn syllables_more_words() {
    let p = TextProcessor::new();
    assert_eq!(p.count_syllables("beautiful"), 3);
    assert_eq!(p.count_syllables("wonderful"), 3);
    assert_eq!(p.count_syllables("strength"), 1);
    assert_eq!(p.count_syllables(""), 1);
    assert_eq!(p.count_syllables("HELLO"), 2);
}

#[test]
fn two_sentences_eight_words() {
    let p = TextProcessor::new();
    let r = p.analyze_text("This is a test. This is another test!");
    assert_eq!(r.sentence_count, 2);
    assert_eq!(r.word_count, 8);
    assert_eq!(r.character_count, 37);
    assert_eq!(r.paragraph_count, 1);
    assert_eq!(r.complexity_metrics.avg_words_per_sentence.num, 8);
    assert_eq!(r.complexity_metrics.avg_words_per_sentence.den, 2);
}

#[test]
fn empty_text_zero_metrics() {
    let p = TextProcessor::new();
    let r = p.analyze_text("");
    assert_eq!(r.word_count, 0);
    assert_eq!(r.character_count, 0);
    assert_eq!(r.sentence_count, 0);
    assert_eq!(r.paragraph_count, 0);
    assert_eq!(r.complexity_metrics.avg_words_per_sentence.num, 0);
    assert_eq!(r.complexity_metrics.avg_words_per_sentence.den, 1);
    assert_eq!(r.complexity_metrics.avg_syllables_per_word.num, 0);
    assert_eq!(r.complexity_metrics.avg_syllables_per_word.den, 1);
    assert_eq!(r.complexity_metrics.unique_word_ratio.num, 0);
    assert_eq!(r.complexity_metrics.unique_word_ratio.den, 1);
    assert_eq!(r.complexity_metrics.fog_index.num, 0);
    assert_eq!(r.complexity_metrics.fog_index.den, 1);
    assert_eq!(r.complexity_metrics.flesch_reading_ease.num, 206835);
    assert_eq!(r.complexity_metrics.flesch_reading_ease.den, 1000);
    assert_eq!(r.readability_score, r.complexity_metrics.flesch_reading_ease);
    assert_eq!(r.style_metrics.passive_voice_ratio.num, 0);
    assert_eq!(r.style_metrics.passive_voice_ratio.den, 1);
    assert_eq!(r.style_metrics.adverb_ratio.num, 0);
    assert_eq!(r.style_metrics.adverb_ratio.den, 1);
    assert_eq!(r.style_metrics.dialogue_ratio.num, 0);
    assert_eq!(r.style_metrics.dialogue_ratio.den, 1);
    assert_eq!(r.style_metrics.action_ratio.num, 0);
    assert_eq!(r.style_metrics.action_ratio.den, 1);
    assert_eq!(r.style_metrics.description_ratio.num, 0);
    assert_eq!(r.style_metrics.description_ratio.den, 1);
}

#[test]
fn hash_is_deterministic_and_content_addressed() {
    let p = TextProcessor::new();
    let h1 = p.generate_content_hash("The quick brown fox");
    let h2 = p.generate_content_hash("The quick brown fox");
    assert_eq!(h1, h2);
    let h3 = p.generate_content_hash("The quick brown fox.");
    assert_ne!(h1, h3);
    assert_eq!(h1.len(), 44);
}

#[test]
fn hash_of_empty_text() {
    let p = TextProcessor::new();
    let h = p.generate_content_hash("");
    assert_eq!(h, "47DEQpj8HBSa+/TImW+5JCeuQeRkm5NMpJWZG3hSuFU=");
}

#[test]
fn analysis_carries_the_hash() {
    let p = TextProcessor::new();
    let r = p.analyze_text("Some text.");
    assert_eq!(r.content_hash, p.generate_content_hash("Some text."));
    assert_eq!(r.content_hash.len(), 44);
}

#[test]
fn insertion_conflict_keeps_both() {
    let p = TextProcessor::new();
    let out = p.resolve_conflicts(vec![conflict("text_insertion", "foo", "bar")]);
    assert_eq!(out.len(), 1);
    assert_eq!(out[0].resolution_suggestion, "foo bar");
}

#[test]
fn deletion_conflict_keeps_shorter() {
    let p = TextProcessor::new();
    let out = p.resolve_conflicts(vec![conflict("text_deletion", "ab", "abcdef")]);
    assert_eq!(out[0].resolution_suggestion, "ab");
    let out = p.resolve_conflicts(vec![conflict("text_deletion", "abcdef", "ab")]);
    assert_eq!(out[0].resolution_suggestion, "ab");
}

#[test]
fn deletion_tie_keeps_first_user() {
    let p = TextProcessor::new();
    let out = p.resolve_conflicts(vec![conflict("text_deletion", "xy", "ab")]);
    assert_eq!(out[0].resolution_suggestion, "xy");
}

#[test]
fn modification_conflict_keeps_second_user() {
    let p = TextProcessor::new();
    let out = p.resolve_conflicts(vec![conflict("text_modification", "old", "new")]);
    assert_eq!(out[0].resolution_suggestion, "new");
}

#[test]
fn unknown_conflict_needs_manual_resolution() {
    let p = TextProcessor::new();
    let out = p.resolve_conflicts(vec![conflict("unknown_type", "foo", "bar")]);
    assert_eq!(out[0].resolution_suggestion, "Manual resolution required");
}

#[test]
fn resolution_preserves_length_order_and_fields() {
    let p = TextProcessor::new();
    let a = conflict("text_insertion", "one", "two");
    let b = conflict("text_deletion", "three", "four");
    let out = p.resolve_conflicts(vec![a, b]);
    assert_eq!(out.len(), 2);
    assert_eq!(out[0].conflict_type, "text_insertion");
    assert_eq!(out[1].conflict_type, "text_deletion");
    assert_eq!(out[0].resolution_suggestion, "one two");
    assert_eq!(out[1].resolution_suggestion, "four");
    for c in &out {
        assert_eq!(c.conflict_id, "c1");
        assert_eq!(c.start_pos, 3);
        assert_eq!(c.end_pos, 9);
        assert_eq!(c.timestamp, "2024-01-01T00:00:00Z");
    }
    assert_eq!(out[0].user_a_change, "one");
    assert_eq!(out[0].user_b_change, "two");
}

#[test]
fn empty_conflict_list_stays_empty() {
    let p = TextProcessor::new();
    let out = p.resolve_conflicts(Vec::new());
    assert!(out.is_empty());
}

#[test]
fn passive_voice_suggestion_has_exact_offsets() {
    let p = TextProcessor::new();
    let text = "The ball was kicked";
    let suggestions = p.optimize_text(text);
    assert_eq!(suggestions.len(), 1);
    let s = &suggestions[0];
    assert_eq!(s.suggestion_type, "passive_voice");
    assert_eq!(s.priority, "low");
    assert_eq!(s.start_pos, 9);
    assert_eq!(s.end_pos, 19);
    assert_eq!(&text[s.start_pos..s.end_pos], "was kicked");
    assert!(s.suggested_replacement.is_none());
}

#[test]
fn participle_without_ed_is_not_flagged() {
    let p = TextProcessor::new();
    let suggestions = p.optimize_text("The ball was thrown");
    assert_eq!(suggestions.len(), 0);
}

#[test]
fn adverb_suggestion_has_exact_offsets() {
    let p = TextProcessor::new();
    let text = "He ran quickly";
    let suggestions = p.optimize_text(text);
    assert_eq!(suggestions.len(), 1);
    let s = &suggestions[0];
    assert_eq!(s.suggestion_type, "adverb_usage");
    assert_eq!(s.priority, "low");
    assert_eq!(s.start_pos, 7);
    assert_eq!(s.end_pos, 14);
    assert_eq!(&text[s.start_pos..s.end_pos], "quickly");
    assert!(s.suggested_replacement.is_none());
}

#[test]
fn long_sentence_suggestion_uses_approximate_positions() {
    let p = TextProcessor::new();
    let text = "word ".repeat(26);
    let suggestions = p.optimize_text(&text);
    assert_eq!(suggestions.len(), 1);
    let s = &suggestions[0];
    assert_eq!(s.suggestion_type, "sentence_length");
    assert_eq!(s.priority, "medium");
    assert_eq!(s.start_pos, 0);
    assert_eq!(s.end_pos, 50);
    assert!(s.suggested_replacement.is_none());
}

#[test]
fn second_fragment_long_sentence_position() {
    let p = TextProcessor::new();
    let text = format!("Short one. {}", "word ".repeat(26));
    let suggestions = p.optimize_text(&text);
    assert_eq!(suggestions.len(), 1);
    assert_eq!(suggestions[0].suggestion_type, "sentence_length");
    assert_eq!(suggestions[0].start_pos, 50);
    assert_eq!(suggestions[0].end_pos, 100);
}

#[test]
fn suggestion_sections_keep_their_order() {
    let p = TextProcessor::new();
    let text = format!("{}. It was pushed quickly", "word ".repeat(26));
    let suggestions = p.optimize_text(&text);
    assert_eq!(suggestions.len(), 3);
    assert_eq!(suggestions[0].suggestion_type, "sentence_length");
    assert_eq!(suggestions[1].suggestion_type, "passive_voice");
    assert_eq!(suggestions[2].suggestion_type, "adverb_usage");
}

#[test]
fn empty_text_yields_no_suggestions() {
    let p = TextProcessor::new();
    assert_eq!(p.optimize_text("").len(), 0);
}

#[test]
fn paragraphs_split_on_blank_lines() {
    let p = TextProcessor::new();
    let r = p.analyze_text("First paragraph.\n\nSecond paragraph.");
    assert_eq!(r.paragraph_count, 2);
    assert_eq!(r.sentence_count, 2);
    let r = p.analyze_text("One line.\nStill same paragraph.");
    assert_eq!(r.paragraph_count, 1);
    let r = p.analyze_text("Indented blank line.\n   \nSecond.");
    assert_eq!(r.paragraph_count, 2);
}

#[test]
fn dialogue_ratio_counts_quoted_spans() {
    let p = TextProcessor::new();
    let r = p.analyze_text("\"Hi\" she said. \"Bye\"");
    assert_eq!(r.style_metrics.dialogue_ratio.num, 2);
    assert_eq!(r.style_metrics.dialogue_ratio.den, 1);
    let r = p.analyze_text("An unmatched \" quote");
    assert_eq!(r.style_metrics.dialogue_ratio.num, 0);
}

#[test]
fn unique_word_ratio_folds_case() {
    let p = TextProcessor::new();
    let r = p.analyze_text("The the THE");
    assert_eq!(r.word_count, 3);
    assert_eq!(r.complexity_metrics.unique_word_ratio.num, 1);
    assert_eq!(r.complexity_metrics.unique_word_ratio.den, 3);
}

#[test]
fn readability_formulas_are_exact() {
    let p = TextProcessor::new();
    let r = p.analyze_text("beautiful wonderful cat");
    assert_eq!(r.word_count, 3);
    assert_eq!(r.sentence_count, 1);
    assert_eq!(r.complexity_metrics.avg_syllables_per_word.num, 7);
    assert_eq!(r.complexity_metrics.avg_syllables_per_word.den, 3);
    // fog = 0.4 * (3/1 + 100 * 2/3) = (2*3*3 + 200*2*1) / (5*1*3)
    assert_eq!(r.complexity_metrics.fog_index.num, 418);
    assert_eq!(r.complexity_metrics.fog_index.den, 15);
    // flesch = 206.835 - 1.015 * 3 - 84.6 * 7/3
    assert_eq!(r.complexity_metrics.flesch_reading_ease.num, 19170);
    assert_eq!(r.complexity_metrics.flesch_reading_ease.den, 3000);
    let as_f64 = r.complexity_metrics.flesch_reading_ease.num as f64
        / r.complexity_metrics.flesch_reading_ease.den as f64;
    assert!((as_f64 - 6.39).abs() < 1e-9);
}

#[test]
fn average_syllables_of_word_list() {
    let p = TextProcessor::new();
    let words = vec!["hello".to_string(), "cake".to_string()];
    let r = p.calculate_avg_syllables(&words);
    assert_eq!(r.num, 3);
    assert_eq!(r.den, 2);
    let r = p.calculate_avg_syllables(&Vec::new());
    assert_eq!(r.num, 0);
    assert_eq!(r.den, 1);
}

#[test]
fn try_variants_accept_bounded_text() {
    let p = TextProcessor::new();
    let r = p.try_analyze_text("Hello world.").expect("within bound");
    assert_eq!(r.word_count, 2);
    let s = p.try_optimize_text("He ran quickly").expect("within bound");
    assert_eq!(s.len(), 1);
}

#[test]
fn try_variants_reject_oversized_text() {
    let p = TextProcessor::new();
    let text = "x".repeat(text_engine::metrics::MAX_TEXT_LEN + 1);
    assert!(p.try_analyze_text(&text).is_none());
    assert!(p.try_optimize_text(&text).is_none());
}

#[test]
fn punctuation_only_sentences_have_no_words() {
    let p = TextProcessor::new();
    let r = p.analyze_text(",. ;!");
    assert_eq!(r.sentence_count, 2);
    assert_eq!(r.word_count, 0);
    // no words: the reading-ease score falls back to its base value
    assert_eq!(r.complexity_metrics.flesch_reading_ease.num, 206835);
    assert_eq!(r.complexity_metrics.flesch_reading_ease.den, 1000);
    assert_eq!(r.complexity_metrics.avg_words_per_sentence.num, 0);
    assert_eq!(r.complexity_metrics.avg_words_per_sentence.den, 2);
    assert_eq!(r.complexity_metrics.fog_index.num, 0);
    assert_eq!(r.complexity_metrics.fog_index.den, 1);
}

#[test]
fn words_without_sentences_keep_exact_averages() {
    let p = TextProcessor::new();
    let r = p.analyze_text("no terminator here");
    assert_eq!(r.sentence_count, 1);
    assert_eq!(r.word_count, 3);
    let r = p.analyze_text("   \n \t ");
    assert_eq!(r.sentence_count, 0);
    assert_eq!(r.word_count, 0);
    assert_eq!(r.paragraph_count, 0);
    assert_eq!(r.complexity_metrics.avg_words_per_sentence.num, 0);
    assert_eq!(r.complexity_metrics.avg_words_per_sentence.den, 1);
}

#[test]
fn positions_and_counts_are_in_characters() {
    let p = TextProcessor::new();
    let r = p.analyze_text("café naïve");
    assert_eq!(r.word_count, 2);
    assert_eq!(r.character_count, 10);
}

#[test]
fn crlf_blank_lines_separate_paragraphs() {
    let p = TextProcessor::new();
    let r = p.analyze_text("First.\r\n\r\nSecond.");
    assert_eq!(r.paragraph_count, 2);
}

#[test]
fn syllable_heuristic_misestimates_vowel_clusters() {
    let p = TextProcessor::new();
    // one vowel group, so the estimate stays at one syllable
    assert_eq!(p.count_syllables("queue"), 1);
}

#[test]
fn underscore_and_digits_are_word_characters() {
    let p = TextProcessor::new();
    let r = p.analyze_text("snake_case and x42 count as single words");
    assert_eq!(r.word_count, 7);
}
