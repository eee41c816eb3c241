use quotify::transcript::{
    add_speaker_identification, build_transcript, RawWord, TranscriptWord,
};

fn word(text: &str, start_ms: u64, end_ms: u64) -> TranscriptWord {
    TranscriptWord { text: text.to_string(), start_ms, end_ms, speaker: None }
}

fn raw(text: &str, start_ms: u64, end_ms: u64) -> RawWord {
    RawWord { text: Some(text.to_string()), start_ms: Some(start_ms), end_ms: Some(end_ms) }
}

fn labels(words: &[TranscriptWord]) -> Vec<String> {
    words.iter().map(|w| w.speaker.clone().unwrap()).collect()
}

#[test]
fn attribution_on_empty_is_a_no_op() {
    let mut words: Vec<TranscriptWord> = Vec::new();
    add_speaker_identification(&mut words);
    assert!(words.is_empty());
}

#[test]
fn single_word_gets_speaker_one() {
    let mut words = vec![word("hello", 0, 500)];
    add_speaker_identification(&mut words);
    assert_eq!(words[0].speaker.as_deref(), Some("Speaker 1"));
}

#[test]
fn long_pause_alternates_to_speaker_two() {
    // Pause of four seconds between the words: the counter becomes 2 (even),
    // so the second word is labeled "Speaker 2".
    let mut words = vec![word("hi", 0, 1000), word("there", 5000, 6000)];
    add_speaker_identification(&mut words);
    assert_eq!(labels(&words), vec!["Speaker 1", "Speaker 2"]);
}

#[test]
fn short_pause_keeps_the_speaker() {
    let mut words = vec![word("hi", 0, 1000), word("there", 2000, 2500)];
    add_speaker_identification(&mut words);
    assert_eq!(labels(&words), vec!["Speaker 1", "Speaker 1"]);
}

#[test]
fn exact_two_second_pause_does_not_alternate() {
    let mut words = vec![word("hi", 0, 1000), word("there", 3000, 3500)];
    add_speaker_identification(&mut words);
    assert_eq!(labels(&words), vec!["Speaker 1", "Speaker 1"]);
}

#[test]
fn two_long_pauses_rotate_back_to_speaker_one() {
    let mut words = vec![
        word("one", 0, 1000),
        word("two", 5000, 6000),
        word("three", 10000, 11000),
    ];
    add_speaker_identification(&mut words);
    assert_eq!(labels(&words), vec!["Speaker 1", "Speaker 2", "Speaker 1"]);
}

#[test]
fn question_after_period_forces_interviewer() {
    // No long pause: the cue alone forces the label.
    let mut words = vec![word("done.", 0, 1000), word("What?", 1200, 1500)];
    add_speaker_identification(&mut words);
    assert_eq!(labels(&words), vec!["Speaker 1", "Interviewer"]);
}

#[test]
fn cue_overrides_the_pause_rule() {
    // A long pause computes "Speaker 2" for the second word, but the cue
    // overrides it.
    let mut words = vec![word("done.", 0, 1000), word("What?", 5000, 6000)];
    add_speaker_identification(&mut words);
    assert_eq!(labels(&words), vec!["Speaker 1", "Interviewer"]);
}

#[test]
fn cue_does_not_reset_the_rotation_counter() {
    // Override at index 1, then a long pause at index 2: the counter went
    // 1 -> 2 at index 1 (pause) and 2 -> 3 at index 2, so the rotation
    // resumes at "Speaker 1" even though the label in between was forced.
    let mut words = vec![
        word("done.", 0, 1000),
        word("What?", 5000, 6000),
        word("later", 10000, 11000),
    ];
    add_speaker_identification(&mut words);
    assert_eq!(labels(&words), vec!["Speaker 1", "Interviewer", "Speaker 1"]);
}

#[test]
fn cue_needs_the_preceding_period() {
    let mut words = vec![word("done", 0, 1000), word("What?", 1200, 1500)];
    add_speaker_identification(&mut words);
    assert_eq!(labels(&words), vec!["Speaker 1", "Speaker 1"]);
}

#[test]
fn question_mark_anywhere_counts_as_cue() {
    let mut words = vec![word("done.", 0, 1000), word("really?", 1200, 1500)];
    add_speaker_identification(&mut words);
    assert_eq!(labels(&words), vec!["Speaker 1", "Interviewer"]);
}

#[test]
fn cue_matching_is_case_insensitive() {
    // "HOW" lowercases to "how"; without the lowercase step no cue would
    // fire (no question mark either) and the label would stay "Speaker 1".
    let mut words = vec![word("done.", 0, 1000), word("HOW", 1200, 1500)];
    add_speaker_identification(&mut words);
    assert_eq!(labels(&words), vec!["Speaker 1", "Interviewer"]);
}

#[test]
fn build_drops_words_with_empty_trimmed_text() {
    let rawlist = vec![raw("hello", 0, 500), raw("   ", 600, 700), raw("world", 800, 900)];
    let t = build_transcript(rawlist, Some("hello world".to_string()));
    assert_eq!(t.words.len(), 2);
    assert_eq!(t.words[0].text, "hello");
    assert_eq!(t.words[1].text, "world");
    assert_eq!(t.full_text, "hello world");
}

#[test]
fn build_trims_word_text() {
    let t = build_transcript(vec![raw("  hi  ", 0, 500)], None);
    assert_eq!(t.words.len(), 1);
    assert_eq!(t.words[0].text, "hi");
}

#[test]
fn build_defaults_missing_fields() {
    let rawlist = vec![RawWord { text: Some("word".to_string()), start_ms: None, end_ms: None }];
    let t = build_transcript(rawlist, None);
    assert_eq!(t.words.len(), 1);
    assert_eq!(t.words[0].start_ms, 0);
    assert_eq!(t.words[0].end_ms, 0);
    assert_eq!(t.full_text, "");
}

#[test]
fn build_drops_words_without_text() {
    let rawlist = vec![RawWord { text: None, start_ms: Some(1), end_ms: Some(2) }];
    let t = build_transcript(rawlist, None);
    assert!(t.words.is_empty());
}

#[test]
fn build_attributes_every_kept_word() {
    let rawlist = vec![raw("hi", 0, 1000), raw("there", 5000, 6000)];
    let t = build_transcript(rawlist, Some("hi there".to_string()));
    assert_eq!(labels(&t.words), vec!["Speaker 1", "Speaker 2"]);
}
