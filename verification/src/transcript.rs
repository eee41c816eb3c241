//! The word-timed transcript: parsing raw words into a clean transcript and
//! the heuristic speaker-attribution pass.
//!
//! Attribution is a single left-to-right pass carrying a current label and a
//! rotation counter. A pause longer than two seconds between adjacent words
//! advances the counter and alternates between two rotating labels; a
//! question-like word right after a sentence-ending period forces the
//! "Interviewer" label without touching the counter.

use vstd::prelude::*;
use vstd::string::*;
use vstd::pervasive::VecAdditionalExecFns;
use crate::text::{
    spec_ends_with_char, spec_contains_char, spec_starts_with, lower_of, trim_of, lowercase,
    trim_text, starts_with_str, ends_with_char, contains_char,
};

verus! {

/// A transcript word: trimmed non-empty text, millisecond timing with
/// `start_ms <= end_ms` as produced by the service, and an optional speaker
/// label (absent when parsed, present after attribution).
pub struct TranscriptWord {
    pub text: String,
    pub start_ms: u64,
    pub end_ms: u64,
    pub speaker: Option<String>,
}

/// The mathematical model of a transcript word.
pub struct WordModel {
    pub text: Seq<char>,
    pub start_ms: u64,
    pub end_ms: u64,
    pub speaker: Option<Seq<char>>,
}

impl View for TranscriptWord {
    type V = WordModel;

    open spec fn view(&self) -> WordModel {
        WordModel {
            text: self.text@,
            start_ms: self.start_ms,
            end_ms: self.end_ms,
            speaker: match self.speaker {
                Some(s) => Some(s@),
                None => None,
            },
        }
    }
}

pub open spec fn word_views(s: Seq<TranscriptWord>) -> Seq<WordModel> {
    Seq::new(s.len(), |i: int| s[i]@)
}

/// The state the attribution pass carries: the label to assign next and the
/// pause-rotation counter.
pub struct SpeakerState {
    pub current: Seq<char>,
    pub count: nat,
}

/// The pause rule at index `i >= 1`: the gap between the end of the previous
/// word and the start of this one exceeds two seconds.
pub open spec fn pause_rule_fires(ws: Seq<WordModel>, i: int) -> bool {
    ws[i].start_ms > ws[i - 1].end_ms + 2000
}

/// A lowercase text looks like a question: it starts with an interrogative
/// word or contains a question mark anywhere.
pub open spec fn spec_question_cue(lower: Seq<char>) -> bool {
    ||| spec_starts_with(lower, "what"@)
    ||| spec_starts_with(lower, "how"@)
    ||| spec_starts_with(lower, "why"@)
    ||| spec_starts_with(lower, "when"@)
    ||| spec_starts_with(lower, "where"@)
    ||| spec_contains_char(lower, '?')
}

/// The lexical rule at index `i >= 1`: the previous word ends a sentence and
/// the current word is question-like.
pub open spec fn cue_rule_fires(ws: Seq<WordModel>, i: int) -> bool {
    spec_ends_with_char(ws[i - 1].text, '.') && spec_question_cue(lower_of(ws[i].text))
}

/// The attribution state used to label word `i`; `i <= 0` is the initial
/// state. The pause rule advances the counter and rotates the label; the
/// lexical rule then overrides the label, leaving the counter alone.
pub open spec fn state_after(ws: Seq<WordModel>, i: int) -> SpeakerState
    decreases i,
{
    if i <= 0 {
        SpeakerState { current: "Speaker 1"@, count: 1 }
    } else {
        let prev = state_after(ws, i - 1);
        let count = if pause_rule_fires(ws, i) {
            prev.count + 1
        } else {
            prev.count
        };
        let rotated = if pause_rule_fires(ws, i) {
            if count % 2 == 1 {
                "Speaker 1"@
            } else {
                "Speaker 2"@
            }
        } else {
            prev.current
        };
        let current = if cue_rule_fires(ws, i) {
            "Interviewer"@
        } else {
            rotated
        };
        SpeakerState { current: current, count: count }
    }
}

/// Word `j` of the input, with the label the pass assigns it.
pub open spec fn attributed_word(ws: Seq<WordModel>, j: int) -> WordModel {
    WordModel {
        text: ws[j].text,
        start_ms: ws[j].start_ms,
        end_ms: ws[j].end_ms,
        speaker: Some(state_after(ws, j).current),
    }
}

/// The whole sequence after the attribution pass.
pub open spec fn spec_attributed(ws: Seq<WordModel>) -> Seq<WordModel> {
    Seq::new(ws.len(), |j: int| attributed_word(ws, j))
}

/// Assigns a speaker label to every word, in place, by the single
/// left-to-right pass. A no-op on an empty sequence; texts and times are
/// never changed.
pub fn add_speaker_identification(words: &mut Vec<TranscriptWord>)
    ensures
        word_views(final(words)@) == spec_attributed(word_views(old(words)@)),
{
    let ghost ws0 = word_views(old(words)@);
    let n: usize = words.len();
    let mut current: String = "Speaker 1".to_owned();
    let mut count: usize = 1;
    let mut i: usize = 0;
    while i < n
        invariant
            n == words@.len(),
            words@.len() == old(words)@.len(),
            i <= n,
            ws0 == word_views(old(words)@),
            ws0.len() == n,
            forall|j: int| i <= j < n ==> words@[j] == old(words)@[j],
            forall|j: int| 0 <= j < i ==> #[trigger] words@[j]@ == attributed_word(ws0, j),
            current@ == state_after(ws0, i as int - 1).current,
            count as nat == state_after(ws0, i as int - 1).count,
            i == 0 ==> count == 1,
            i >= 1 ==> count <= i,
        decreases n - i,
    {
        if i > 0 {
            let prev_end: u64 = words[i - 1].end_ms;
            let w_start: u64 = words[i].start_ms;
            proof {
                assert(words@[i - 1]@ == attributed_word(ws0, i - 1));
                assert(words@[i as int] == old(words)@[i as int]);
            }
            if w_start > prev_end && w_start - prev_end > 2000 {
                count += 1;
                if count % 2 == 1 {
                    current = "Speaker 1".to_owned();
                } else {
                    current = "Speaker 2".to_owned();
                }
            }
            let lower = lowercase(words[i].text.as_str());
            let is_cue = starts_with_str(lower.as_str(), "what")
                || starts_with_str(lower.as_str(), "how")
                || starts_with_str(lower.as_str(), "why")
                || starts_with_str(lower.as_str(), "when")
                || starts_with_str(lower.as_str(), "where")
                || contains_char(lower.as_str(), '?');
            let prev_ends_sentence = ends_with_char(words[i - 1].text.as_str(), '.');
            if is_cue && prev_ends_sentence {
                current = "Interviewer".to_owned();
            }
            proof {
                assert(current@ == state_after(ws0, i as int).current);
                assert(count as nat == state_after(ws0, i as int).count);
            }
        }
        let labeled = TranscriptWord {
            text: words[i].text.clone(),
            start_ms: words[i].start_ms,
            end_ms: words[i].end_ms,
            speaker: Some(current.clone()),
        };
        words.set(i, labeled);
        proof {
            assert(words@[i as int]@ == attributed_word(ws0, i as int));
        }
        i += 1;
    }
    proof {
        assert(word_views(words@) =~= spec_attributed(ws0));
    }
}

/// A word as handed in by the caller, fields still optional: absent text
/// stands for an empty string, absent times for zero milliseconds.
pub struct RawWord {
    pub text: Option<String>,
    pub start_ms: Option<u64>,
    pub end_ms: Option<u64>,
}

/// The mathematical model of a raw word.
pub struct RawWordModel {
    pub text: Option<Seq<char>>,
    pub start_ms: Option<u64>,
    pub end_ms: Option<u64>,
}

impl View for RawWord {
    type V = RawWordModel;

    open spec fn view(&self) -> RawWordModel {
        RawWordModel {
            text: match self.text {
                Some(s) => Some(s@),
                None => None,
            },
            start_ms: self.start_ms,
            end_ms: self.end_ms,
        }
    }
}

pub open spec fn raw_views(s: Seq<RawWord>) -> Seq<RawWordModel> {
    Seq::new(s.len(), |i: int| s[i]@)
}

pub open spec fn raw_text_or_empty(r: RawWordModel) -> Seq<char> {
    match r.text {
        Some(t) => t,
        None => Seq::empty(),
    }
}

pub open spec fn defaulted_ms(o: Option<u64>) -> u64 {
    match o {
        Some(v) => v,
        None => 0,
    }
}

/// The clean word list: each text trimmed, any word whose trimmed text is
/// empty dropped, missing numeric fields defaulted to zero, no speaker yet.
pub open spec fn cleaned(raws: Seq<RawWordModel>) -> Seq<WordModel>
    decreases raws.len(),
{
    if raws.len() == 0 {
        Seq::empty()
    } else {
        let rest = cleaned(raws.drop_last());
        let r = raws.last();
        if trim_of(raw_text_or_empty(r)).len() > 0 {
            rest.push(
                WordModel {
                    text: trim_of(raw_text_or_empty(r)),
                    start_ms: defaulted_ms(r.start_ms),
                    end_ms: defaulted_ms(r.end_ms),
                    speaker: None,
                },
            )
        } else {
            rest
        }
    }
}

/// A transcript: the attributed word sequence plus the full text.
pub struct TranscriptionResult {
    pub words: Vec<TranscriptWord>,
    pub full_text: String,
}

/// Builds the transcript from the raw word list: texts are trimmed, words
/// whose trimmed text is empty are dropped, missing numeric fields default
/// to zero, every kept word is given a speaker label, and a missing full
/// text defaults to the empty string.
pub fn build_transcript(raw: Vec<RawWord>, full_text: Option<String>) -> (t: TranscriptionResult)
    ensures
        word_views(t.words@) == spec_attributed(cleaned(raw_views(raw@))),
        t.full_text@ == (match full_text {
            Some(s) => s@,
            None => Seq::<char>::empty(),
        }),
{
    let ghost rv = raw_views(raw@);
    let mut words: Vec<TranscriptWord> = Vec::new();
    let n: usize = raw.len();
    let mut i: usize = 0;
    while i < n
        invariant
            n == raw@.len(),
            i <= n,
            rv == raw_views(raw@),
            word_views(words@) == cleaned(rv.subrange(0, i as int)),
        decreases n - i,
    {
        proof {
            reveal_strlit("");
            assert(""@ =~= Seq::<char>::empty());
        }
        let text_str: &str = match &raw[i].text {
            Some(s) => s.as_str(),
            None => "",
        };
        proof {
            assert(text_str@ == raw_text_or_empty(rv[i as int]));
        }
        let trimmed = trim_text(text_str);
        if trimmed.as_str().unicode_len() > 0 {
            let start_ms: u64 = match raw[i].start_ms {
                Some(v) => v,
                None => 0,
            };
            let end_ms: u64 = match raw[i].end_ms {
                Some(v) => v,
                None => 0,
            };
            words.push(
                TranscriptWord { text: trimmed, start_ms: start_ms, end_ms: end_ms, speaker: None },
            );
        }
        proof {
            assert(rv.subrange(0, i + 1).drop_last() =~= rv.subrange(0, i as int));
            assert(rv.subrange(0, i + 1).last() == rv[i as int]);
            assert(word_views(words@) =~= cleaned(rv.subrange(0, i + 1)));
        }
        i += 1;
    }
    proof {
        assert(rv.subrange(0, n as int) =~= rv);
    }
    add_speaker_identification(&mut words);
    let full = match full_text {
        Some(s) => s,
        None => String::new(),
    };
    TranscriptionResult { words: words, full_text: full }
}

/// On an empty sequence attribution is a no-op: the result is empty too.
pub proof fn lemma_attribution_empty(ws: Seq<WordModel>)
    requires
        ws.len() == 0,
    ensures
        spec_attributed(ws) == Seq::<WordModel>::empty(),
{
    assert(spec_attributed(ws) =~= Seq::<WordModel>::empty());
}

/// A single-word sequence gets the initial label, "Speaker 1", with no rule
/// evaluation.
pub proof fn lemma_attribution_single(ws: Seq<WordModel>)
    requires
        ws.len() == 1,
    ensures
        spec_attributed(ws)[0].speaker == Some("Speaker 1"@),
{
}

/// The lexical override: when the previous word ends with `.` and the current
/// word's lowercase form is question-like, the word is labeled "Interviewer",
/// whatever the pause rule computed for this index.
pub proof fn lemma_interviewer_override(ws: Seq<WordModel>, i: int)
    requires
        1 <= i < ws.len(),
        spec_ends_with_char(ws[i - 1].text, '.'),
        spec_question_cue(lower_of(ws[i].text)),
    ensures
        spec_attributed(ws)[i].speaker == Some("Interviewer"@),
{
}

/// The pause rule: a pause longer than two seconds advances the rotation
/// counter by one and, absent the lexical cue, the word's label alternates
/// with the counter's parity between the two rotating labels.
pub proof fn lemma_pause_alternation(ws: Seq<WordModel>, i: int)
    requires
        1 <= i < ws.len(),
        pause_rule_fires(ws, i),
        !cue_rule_fires(ws, i),
    ensures
        state_after(ws, i).count == state_after(ws, i - 1).count + 1,
        spec_attributed(ws)[i].speaker == Some(
            if state_after(ws, i).count % 2 == 1 {
                "Speaker 1"@
            } else {
                "Speaker 2"@
            },
        ),
{
}

/// The content invariant attribution relies on: the clean word list holds no
/// word with empty text.
pub proof fn lemma_cleaned_no_empty_text(raws: Seq<RawWordModel>, j: int)
    requires
        0 <= j < cleaned(raws).len(),
    ensures
        cleaned(raws)[j].text.len() > 0,
    decreases raws.len(),
{
    if raws.len() > 0 {
        let rest = cleaned(raws.drop_last());
        if j < rest.len() {
            lemma_cleaned_no_empty_text(raws.drop_last(), j);
        }
    }
}

/// The built transcript holds no word with empty text either: attribution
/// keeps every text unchanged.
pub proof fn lemma_transcript_no_empty_text(raws: Seq<RawWordModel>, j: int)
    requires
        0 <= j < spec_attributed(cleaned(raws)).len(),
    ensures
        spec_attributed(cleaned(raws))[j].text.len() > 0,
{
    lemma_cleaned_no_empty_text(raws, j);
}

} // verus!
