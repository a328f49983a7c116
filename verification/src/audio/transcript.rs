//! Transcript filtering and the utterance decisions of the speech-to-text loop.
//!
//! Speech recognisers hallucinate stock phrases on silence, music and
//! background noise; those transcripts, bracketed sound descriptions and
//! near-empty noise are discarded, while short real words ("ok", "no") stay.

use vstd::prelude::*;

use crate::text::{alphabetic, is_alphabetic_char, lowercase, to_chars, to_lower, trim, trim_chars};

verus! {

/// Lower-cased transcripts that are discarded outright.
pub open spec fn hallucinations() -> Seq<Seq<char>> {
    seq![
        "[blank_audio]"@,
        "[music]"@,
        "[silence]"@,
        "[noise]"@,
        "[laughter]"@,
        "[applause]"@,
        "[cough]"@,
        "[inaudible]"@,
        "[ blank_audio ]"@,
        "subtitles by"@,
        "www."@,
        ".com"@,
        "thank you for watching"@,
        "thank you."@,
        "you"@,
    ]
}

/// Whether `t` is wrapped in `(..)`, `[..]` or `*..*` (an ambient-sound description).
pub open spec fn bracketed(t: Seq<char>) -> bool {
    t.len() > 0 && ((t[0] == '(' && t.last() == ')') || (t[0] == '[' && t.last() == ']') || (t[0]
        == '*' && t.last() == '*'))
}

/// Number of alphabetic characters of `t`.
pub open spec fn letter_count(t: Seq<char>) -> nat
    decreases t.len(),
{
    if t.len() == 0 {
        0
    } else {
        letter_count(t.drop_last()) + if alphabetic(t.last()) {
            1nat
        } else {
            0nat
        }
    }
}

/// Whether a trimmed transcript is kept, given its lowercase form and its
/// number of alphabetic characters.
pub open spec fn keeps(trimmed: Seq<char>, lowered: Seq<char>, letters: nat) -> bool {
    trimmed.len() > 0 && !hallucinations().contains(lowered) && !bracketed(trimmed) && letters >= 2
}

/// The cleaned transcript: the trimmed text when kept, else empty.
pub open spec fn clean_spec(text: Seq<char>) -> Seq<char> {
    let t = trim(text);
    if keeps(t, lowercase(t), letter_count(t)) {
        t
    } else {
        Seq::empty()
    }
}

fn is_hallucination(lowered: &str) -> (r: bool)
    ensures
        r == hallucinations().contains(lowered@),
{
    let list: [&str; 15] = [
        "[blank_audio]",
        "[music]",
        "[silence]",
        "[noise]",
        "[laughter]",
        "[applause]",
        "[cough]",
        "[inaudible]",
        "[ blank_audio ]",
        "subtitles by",
        "www.",
        ".com",
        "thank you for watching",
        "thank you.",
        "you",
    ];
    let ghost h = hallucinations();
    assert(forall|k: int| 0 <= k < 15 ==> (#[trigger] list@[k])@ == h[k]);
    let mut i: usize = 0;
    while i < 15
        invariant
            i <= 15,
            h == hallucinations(),
            h.len() == 15,
            forall|k: int| 0 <= k < 15 ==> (#[trigger] list@[k])@ == h[k],
            forall|k: int| 0 <= k < i ==> h[k] != lowered@,
        decreases 15 - i,
    {
        if crate::text::str_eq(list[i], lowered) {
            assert(h[i as int] == lowered@);
            return true;
        }
        i = i + 1;
    }
    assert(!h.contains(lowered@)) by {
        if h.contains(lowered@) {
            let k = choose|k: int| 0 <= k < h.len() && h[k] == lowered@;
        }
    }
    false
}

/// Whether a trimmed transcript is kept (see [`keeps`]), given its lowercase
/// form and its count of alphabetic characters.
pub fn transcript_kept(trimmed: &str, lowered: &str, letters: usize) -> (r: bool)
    ensures
        r == keeps(trimmed@, lowered@, letters as nat),
{
    let t = to_chars(trimmed);
    if t.len() == 0 {
        return false;
    }
    if is_hallucination(lowered) {
        return false;
    }
    let first = t[0];
    let last = t[t.len() - 1];
    if (first == '(' && last == ')') || (first == '[' && last == ']') || (first == '*' && last
        == '*') {
        return false;
    }
    letters >= 2
}

fn count_letters(t: &Vec<char>) -> (r: usize)
    ensures
        r as nat == letter_count(t@),
{
    let mut n: usize = 0;
    let mut i: usize = 0;
    while i < t.len()
        invariant
            i <= t@.len(),
            n <= i,
            n as nat == letter_count(t@.take(i as int)),
        decreases t@.len() - i,
    {
        assert(t@.take(i + 1).drop_last() =~= t@.take(i as int));
        if is_alphabetic_char(t[i]) {
            n = n + 1;
        }
        i = i + 1;
    }
    assert(t@.take(t@.len() as int) =~= t@);
    n
}

/// Filters recogniser hallucinations: returns the trimmed transcript, or an
/// empty string when it should be discarded.
pub fn clean_transcript(text: &str) -> (r: String)
    ensures
        r@ == clean_spec(text@),
{
    let chars = to_chars(text);
    let tv = trim_chars(&chars);
    let t = crate::text::from_chars(&tv);
    let lowered = to_lower(t.as_str());
    let letters = count_letters(&tv);
    if transcript_kept(t.as_str(), lowered.as_str(), letters) {
        t
    } else {
        String::new()
    }
}

/// Fewest buffered samples worth transcribing at `sample_rate`: 0.4 s.
pub open spec fn min_utterance_samples(sample_rate: u32) -> int {
    (sample_rate as int * 2) / 5
}

/// Whether a silence gap should send the buffered audio to the recogniser.
pub fn utterance_ready(buffered: usize, sample_rate: u32) -> (r: bool)
    ensures
        r == (buffered as int >= min_utterance_samples(sample_rate)),
{
    let min: u64 = (sample_rate as u64 * 2) / 5;
    buffered as u64 >= min
}

/// Rate of the audio handed to the recogniser: the speech-to-text rate when
/// resampling succeeded, else the device rate.
pub fn recognizer_rate(resampled_ok: bool, device_rate: u32) -> (r: u32)
    ensures
        r == if resampled_ok {
            crate::constants::STT_SAMPLE_RATE
        } else {
            device_rate
        },
{
    if resampled_ok {
        crate::constants::STT_SAMPLE_RATE
    } else {
        device_rate
    }
}

/// What becomes of one recogniser result.
#[derive(Debug)]
pub enum TranscriptOutcome {
    /// Sent to the frontend as a transcript.
    Emit(String),
    /// Discarded as hallucination or noise (the raw text is logged).
    Discarded,
    /// Nothing was heard.
    Silent,
}

/// Decides what to do with the recogniser's text: emit it when it survives
/// [`clean_transcript`], report it discarded when only cleaning emptied it,
/// else nothing.
pub fn transcript_outcome(text: &str) -> (r: TranscriptOutcome)
    ensures
        match r {
            TranscriptOutcome::Emit(s) => s@ == clean_spec(text@) && clean_spec(text@).len() > 0,
            TranscriptOutcome::Discarded => clean_spec(text@).len() == 0 && trim(text@).len() > 0,
            TranscriptOutcome::Silent => clean_spec(text@).len() == 0 && trim(text@).len() == 0,
        },
{
    let cleaned = clean_transcript(text);
    if cleaned.unicode_len() > 0 {
        TranscriptOutcome::Emit(cleaned)
    } else {
        let t = trim_chars(&to_chars(text));
        if t.len() > 0 {
            TranscriptOutcome::Discarded
        } else {
            TranscriptOutcome::Silent
        }
    }
}

/// Cleaning never rewrites a transcript, it only keeps (trimmed) or drops
/// it, and cleaning a cleaned transcript changes nothing.
pub proof fn law_clean_transcript_idempotent(text: Seq<char>)
    ensures
        clean_spec(text) == trim(text) || clean_spec(text).len() == 0,
        clean_spec(clean_spec(text)) == clean_spec(text),
{
    crate::text::lemma_trim_idempotent(text);
    let t = trim(text);
    if keeps(t, lowercase(t), letter_count(t)) {
        assert(clean_spec(text) == t);
        assert(trim(t) == t);
    } else {
        assert(clean_spec(text) =~= Seq::<char>::empty());
        assert(trim(Seq::<char>::empty()) =~= Seq::<char>::empty());
    }
}

} // verus!
