//! Speech segmentation for transcription: how voice-activity decisions on
//! successive audio chunks open, extend and close speech segments, when
//! the first word of a segment is looked for, and the first-word rule.
//!
//! Durations are counted in samples at the 16 kHz transcription rate; the
//! audio itself stays with the caller, who appends, clears and transcribes
//! as the returned plans say.
use crate::processor::orchestrator::SttNotice;
use crate::text::{
    chars_of, lowercase_chars, lowercase_of, split_words, string_from_chars, trim, trim_chars, words,
};
use vstd::prelude::*;

verus! {

/// Samples per second of the audio handed to transcription.
pub const STT_SAMPLE_RATE: u64 = 16000;

/// Speech needed before the first word is looked for: half a second.
pub const FIRST_WORD_MIN_SAMPLES: u64 = 8000;

/// Audio shorter than this (a tenth of a second) is not transcribed directly.
pub const DIRECT_MIN_SAMPLES: u64 = 1600;

/// Processing phase, for monitoring.
#[derive(Clone, Copy, Debug, PartialEq, Eq, Structural)]
pub enum ProcessingPhase {
    /// Waiting for speech.
    Idle,
    /// Inside a speech segment.
    Recording,
    /// Silence inside a speech segment.
    SilenceDetected,
    /// Transcribing a segment.
    Transcribing,
    /// Looking for the first word.
    DetectingFirstWord,
}

/// The display name of a phase.
pub open spec fn phase_name(p: ProcessingPhase) -> Seq<char> {
    match p {
        ProcessingPhase::Idle => "IDLE"@,
        ProcessingPhase::Recording => "RECORDING"@,
        ProcessingPhase::SilenceDetected => "SILENCE_DETECTED"@,
        ProcessingPhase::Transcribing => "TRANSCRIBING"@,
        ProcessingPhase::DetectingFirstWord => "DETECTING_FIRST_WORD"@,
    }
}

impl ProcessingPhase {
    /// The phase as displayed, e.g. "SILENCE_DETECTED".
    pub fn to_display_string(&self) -> (s: String)
        ensures
            s@ == phase_name(*self),
    {
        let name = match self {
            ProcessingPhase::Idle => "IDLE",
            ProcessingPhase::Recording => "RECORDING",
            ProcessingPhase::SilenceDetected => "SILENCE_DETECTED",
            ProcessingPhase::Transcribing => "TRANSCRIBING",
            ProcessingPhase::DetectingFirstWord => "DETECTING_FIRST_WORD",
        };
        String::from_str(name)
    }
}

/// The first word of a transcription, lower-cased, if it has one.
pub open spec fn first_word_of(text: Seq<char>) -> Option<Seq<char>> {
    if words(text).len() == 0 {
        None
    } else {
        Some(lowercase_of(words(text)[0]))
    }
}

/// The first word of a transcription, lower-cased; `None` for blank text.
/// Punctuation stays: "Hello, how" gives "hello,".
pub fn detect_first_word(text: &str) -> (w: Option<String>)
    ensures
        match first_word_of(text@) {
            None => w.is_none(),
            Some(f) => w matches Some(s) && s@ == f,
        },
{
    let t = chars_of(text);
    let ws = split_words(t.as_slice());
    if ws.len() == 0 {
        None
    } else {
        let low = lowercase_chars(ws[0].as_slice());
        Some(string_from_chars(low.as_slice()))
    }
}

/// Whether audio of `samples` samples is long enough to transcribe directly.
pub fn direct_transcription_allowed(samples: usize) -> (b: bool)
    ensures
        b == (samples >= DIRECT_MIN_SAMPLES),
{
    samples as u64 >= DIRECT_MIN_SAMPLES
}

/// What a direct transcription reports: its text as the final result when
/// it holds more than white space, nothing for blank text, and an error
/// ("Transcription failed: " and the engine's message) when it failed.
pub fn direct_transcription_event(result: Result<String, String>) -> (e: Option<SttNotice>)
    ensures
        match result {
            Ok(t) => if trim(t@).len() > 0 {
                e == Some(SttNotice::Final(t))
            } else {
                e.is_none()
            },
            Err(m) => e matches Some(SttNotice::Error(x)) && x@ == "Transcription failed: "@ + m@,
        },
{
    match result {
        Ok(t) => {
            let cs = chars_of(t.as_str());
            let trimmed = trim_chars(cs.as_slice());
            if trimmed.len() > 0 {
                Some(SttNotice::Final(t))
            } else {
                None
            }
        },
        Err(m) => {
            let mut x = String::from_str("Transcription failed: ");
            x.append(m.as_str());
            Some(SttNotice::Error(x))
        },
    }
}

/// What the transcription of a finished segment reports: its text as the
/// final result, or the engine's error message.
pub fn segment_transcription_event(result: Result<String, String>) -> (e: SttNotice)
    ensures
        match result {
            Ok(t) => e == SttNotice::Final(t),
            Err(m) => e == SttNotice::Error(m),
        },
{
    match result {
        Ok(t) => SttNotice::Final(t),
        Err(m) => SttNotice::Error(m),
    }
}

/// What to do with a chunk's audio before the segment decision.
#[derive(Clone, Copy, Debug, PartialEq, Eq, Structural)]
pub struct ChunkPlan {
    /// A new segment starts: clear the buffered audio first.
    pub start_segment: bool,
    /// Append the chunk to the buffered audio.
    pub append: bool,
    /// Transcribe the buffered audio to look for the first word.
    pub detect_first_word: bool,
}

/// What becomes of the buffered audio.
#[derive(Clone, Copy, Debug, PartialEq, Eq, Structural)]
pub enum SegmentOutcome {
    /// Keep buffering.
    Continue,
    /// Transcribe the buffered audio and clear it.
    Transcribe,
    /// Clear the buffered audio without transcribing it.
    Discard,
}

/// Segmentation state.
pub struct Segmenter {
    /// Samples buffered for the current segment.
    pub buffered: u64,
    /// Sample position where the current segment started.
    pub segment_start: u64,
    /// Samples received so far.
    pub position: u64,
    /// Whether inside a speech segment.
    pub in_speech: bool,
    /// Silence since the last speech chunk, in samples.
    pub silence: u64,
    /// Whether the first word of the segment was found.
    pub first_word_sent: bool,
    /// Shortest segment transcribed, in samples.
    pub min_segment: u64,
    /// Longest segment before transcription is forced, in samples.
    pub max_segment: u64,
    /// Silence that ends a segment, in samples.
    pub silence_threshold: u64,
    /// Current phase.
    pub phase: ProcessingPhase,
    /// Chunks received.
    pub chunks_processed: u64,
    /// Chunks judged speech.
    pub speech_chunks: u64,
}

/// Forgetting the current segment.
pub open spec fn reset_of(s: Segmenter) -> Segmenter {
    Segmenter { buffered: 0, in_speech: false, silence: 0, first_word_sent: false, ..s }
}

/// The plan for a chunk of `len` samples.
pub open spec fn plan_for(s: Segmenter, len: u64, is_speech: bool) -> ChunkPlan {
    let start = is_speech && !s.in_speech;
    let buffered = if start { len as int } else { s.buffered + len };
    let first_sent = if start { false } else { s.first_word_sent };
    ChunkPlan {
        start_segment: start,
        append: is_speech || s.in_speech,
        detect_first_word: is_speech && !first_sent && buffered >= FIRST_WORD_MIN_SAMPLES,
    }
}

/// The state after the chunk's audio was handled, before the decision.
pub open spec fn after_chunk(s: Segmenter, len: u64, is_speech: bool) -> Segmenter {
    let s1 = Segmenter {
        chunks_processed: (s.chunks_processed + 1) as u64,
        position: (s.position + len) as u64,
        ..s
    };
    if is_speech {
        let s2 = if !s.in_speech {
            Segmenter {
                in_speech: true,
                segment_start: s.position,
                buffered: 0,
                first_word_sent: false,
                phase: ProcessingPhase::Recording,
                ..s1
            }
        } else {
            s1
        };
        Segmenter {
            speech_chunks: (s.speech_chunks + 1) as u64,
            buffered: (s2.buffered + len) as u64,
            silence: 0,
            ..s2
        }
    } else if s.in_speech {
        Segmenter {
            buffered: (s.buffered + len) as u64,
            silence: (s.silence + len) as u64,
            phase: ProcessingPhase::SilenceDetected,
            ..s1
        }
    } else {
        s1
    }
}

/// The counters stay within `u64` for a chunk of `len` samples.
pub open spec fn chunk_fits(s: Segmenter, len: u64) -> bool {
    &&& s.chunks_processed < u64::MAX
    &&& s.speech_chunks < u64::MAX
    &&& s.position + len <= u64::MAX
    &&& s.buffered + len <= u64::MAX
    &&& s.silence + len <= u64::MAX
}

/// Law: the first word is looked for at most once per segment: once it
/// was found and sent, no later chunk of the same segment asks for it,
/// speech or not; a segment that was ended asks again.
pub proof fn law_first_word_once_per_segment(s: Segmenter, len1: u64, len2: u64, speech2: bool)
    requires
        plan_for(s, len1, true).detect_first_word,
    ensures
        ({
            let s1 = Segmenter {
                first_word_sent: true,
                ..after_chunk(s, len1, true)
            };
            &&& s1.in_speech
            &&& !plan_for(s1, len2, speech2).detect_first_word
            &&& !reset_of(s1).first_word_sent
        }),
{
}

/// Law: inside a speech segment every chunk, speech or silence, joins the
/// segment's audio, so pauses within an utterance are transcribed with it;
/// outside a segment only speech is kept, and speech there opens a new
/// segment.
pub proof fn law_segment_keeps_its_pauses(s: Segmenter, len: u64, is_speech: bool)
    ensures
        s.in_speech ==> plan_for(s, len, is_speech).append,
        !s.in_speech ==> plan_for(s, len, is_speech).append == is_speech,
        plan_for(s, len, is_speech).start_segment == (is_speech && !s.in_speech),
        s.in_speech && !is_speech && s.buffered + len <= u64::MAX ==> after_chunk(
            s,
            len,
            is_speech,
        ).buffered == s.buffered + len && after_chunk(s, len, is_speech).in_speech,
{
}

impl Segmenter {
    /// A segmenter with its thresholds, in samples.
    pub fn new(min_segment: u64, max_segment: u64, silence_threshold: u64) -> (s: Self)
        ensures
            s.buffered == 0,
            s.segment_start == 0,
            s.position == 0,
            !s.in_speech,
            s.silence == 0,
            !s.first_word_sent,
            s.min_segment == min_segment,
            s.max_segment == max_segment,
            s.silence_threshold == silence_threshold,
            s.phase == ProcessingPhase::Idle,
            s.chunks_processed == 0,
            s.speech_chunks == 0,
    {
        Segmenter {
            buffered: 0,
            segment_start: 0,
            position: 0,
            in_speech: false,
            silence: 0,
            first_word_sent: false,
            min_segment,
            max_segment,
            silence_threshold,
            phase: ProcessingPhase::Idle,
            chunks_processed: 0,
            speech_chunks: 0,
        }
    }

    /// Enters a phase.
    pub fn set_phase(&mut self, phase: ProcessingPhase)
        ensures
            *final(self) == (Segmenter { phase, ..*old(self) }),
    {
        if self.phase != phase {
            self.phase = phase;
        }
    }

    /// Forgets the current segment.
    pub fn reset(&mut self)
        ensures
            *final(self) == reset_of(*old(self)),
    {
        self.buffered = 0;
        self.in_speech = false;
        self.silence = 0;
        self.first_word_sent = false;
    }

    /// Takes in one chunk of `len` samples judged speech or not: a speech
    /// chunk outside a segment opens one (clearing the buffered audio); a
    /// speech chunk, or any chunk inside a segment, is buffered; silence
    /// inside a segment accumulates; once half a second of speech is
    /// buffered and no first word was found, the first word is looked for.
    pub fn begin_chunk(&mut self, len: u64, is_speech: bool) -> (plan: ChunkPlan)
        requires
            chunk_fits(*old(self), len),
        ensures
            plan == plan_for(*old(self), len, is_speech),
            plan.append == (is_speech || old(self).in_speech),
            plan.start_segment == (is_speech && !old(self).in_speech),
            *final(self) == (if plan.detect_first_word {
                Segmenter {
                    phase: ProcessingPhase::DetectingFirstWord,
                    ..after_chunk(*old(self), len, is_speech)
                }
            } else {
                after_chunk(*old(self), len, is_speech)
            }),
    {
        self.chunks_processed = self.chunks_processed + 1;
        self.position = self.position + len;
        let mut plan = ChunkPlan { start_segment: false, append: false, detect_first_word: false };
        if is_speech {
            self.speech_chunks = self.speech_chunks + 1;
            if !self.in_speech {
                self.in_speech = true;
                self.segment_start = self.position - len;
                self.buffered = 0;
                self.first_word_sent = false;
                self.set_phase(ProcessingPhase::Recording);
                plan.start_segment = true;
            }
            self.buffered = self.buffered + len;
            self.silence = 0;
            plan.append = true;
            if !self.first_word_sent && self.buffered >= FIRST_WORD_MIN_SAMPLES {
                self.set_phase(ProcessingPhase::DetectingFirstWord);
                plan.detect_first_word = true;
            }
        } else if self.in_speech {
            self.buffered = self.buffered + len;
            self.silence = self.silence + len;
            self.set_phase(ProcessingPhase::SilenceDetected);
            plan.append = true;
        }
        plan
    }

    /// The first word of the segment was found and sent.
    pub fn mark_first_word_sent(&mut self)
        ensures
            *final(self) == (Segmenter { first_word_sent: true, ..*old(self) }),
    {
        self.first_word_sent = true;
    }

    /// Decides, after a chunk, what becomes of the buffered audio. A speech
    /// chunk that makes the segment reach the longest length forces a
    /// transcription; silence reaching its threshold ends the segment,
    /// which is transcribed when long enough and discarded otherwise.
    /// Transcribing or discarding forgets the segment and returns to idle.
    pub fn end_chunk(&mut self, is_speech: bool) -> (outcome: SegmentOutcome)
        ensures
            outcome == (if is_speech {
                if old(self).buffered >= old(self).max_segment {
                    SegmentOutcome::Transcribe
                } else {
                    SegmentOutcome::Continue
                }
            } else if old(self).in_speech && old(self).silence >= old(self).silence_threshold {
                if old(self).buffered >= old(self).min_segment {
                    SegmentOutcome::Transcribe
                } else {
                    SegmentOutcome::Discard
                }
            } else {
                SegmentOutcome::Continue
            }),
            outcome == SegmentOutcome::Continue ==> *final(self) == (if is_speech
                && old(self).phase == ProcessingPhase::DetectingFirstWord {
                Segmenter { phase: ProcessingPhase::Recording, ..*old(self) }
            } else {
                *old(self)
            }),
            outcome != SegmentOutcome::Continue ==> *final(self) == (Segmenter {
                phase: ProcessingPhase::Idle,
                ..reset_of(*old(self))
            }),
    {
        if is_speech {
            if self.phase == ProcessingPhase::DetectingFirstWord {
                self.set_phase(ProcessingPhase::Recording);
            }
            if self.buffered >= self.max_segment {
                self.reset();
                self.set_phase(ProcessingPhase::Idle);
                return SegmentOutcome::Transcribe;
            }
            SegmentOutcome::Continue
        } else if self.in_speech && self.silence >= self.silence_threshold {
            let enough = self.buffered >= self.min_segment;
            self.reset();
            self.set_phase(ProcessingPhase::Idle);
            if enough {
                SegmentOutcome::Transcribe
            } else {
                SegmentOutcome::Discard
            }
        } else {
            SegmentOutcome::Continue
        }
    }

    /// A flush request: buffered audio is transcribed when long enough and
    /// discarded otherwise; either way the segment is forgotten.
    pub fn flush(&mut self) -> (outcome: SegmentOutcome)
        ensures
            outcome == (if old(self).buffered > 0 && old(self).buffered >= old(self).min_segment {
                SegmentOutcome::Transcribe
            } else {
                SegmentOutcome::Discard
            }),
            *final(self) == (Segmenter { phase: ProcessingPhase::Idle, ..reset_of(*old(self)) }),
    {
        let enough = self.buffered > 0 && self.buffered >= self.min_segment;
        self.reset();
        self.set_phase(ProcessingPhase::Idle);
        if enough {
            SegmentOutcome::Transcribe
        } else {
            SegmentOutcome::Discard
        }
    }
}

} // verus!
