use babble::processor::orchestrator::SttNotice;
use babble::processor::stt::{
    direct_transcription_event, segment_transcription_event, detect_first_word, direct_transcription_allowed, ProcessingPhase, SegmentOutcome, Segmenter,
};

#[test]
fn test_detect_first_word() {
    assert_eq!(detect_first_word("Hello world"), Some("hello".to_string()));
    assert_eq!(detect_first_word("  Stop  "), Some("stop".to_string()));
    assert_eq!(detect_first_word(""), None);
    assert_eq!(detect_first_word("   "), None);
    assert_eq!(detect_first_word("LISTEN carefully"), Some("listen".to_string()));
}

#[test]
fn test_detect_first_word_punctuation() {
    assert_eq!(detect_first_word("Hello, how are you?"), Some("hello,".to_string()));
}

#[test]
fn test_processing_state_new() {
    let s = Segmenter::new(8000, 480000, 8000);
    assert_eq!(s.buffered, 0);
    assert!(!s.in_speech);
    assert!(!s.first_word_sent);
    assert_eq!(s.phase, ProcessingPhase::Idle);
}

#[test]
fn direct_transcription_needs_a_tenth_of_a_second() {
    assert!(!direct_transcription_allowed(1599));
    assert!(direct_transcription_allowed(1600));
}

#[test]
fn speech_then_silence_transcribes_segment() {
    let mut s = Segmenter::new(1000, 100000, 1024);
    let plan = s.begin_chunk(512, true);
    assert!(plan.start_segment && plan.append && !plan.detect_first_word);
    assert_eq!(s.end_chunk(true), SegmentOutcome::Continue);
    let plan = s.begin_chunk(512, true);
    assert!(!plan.start_segment);
    assert_eq!(s.end_chunk(true), SegmentOutcome::Continue);
    let _ = s.begin_chunk(512, false);
    assert_eq!(s.end_chunk(false), SegmentOutcome::Continue);
    let _ = s.begin_chunk(512, false);
    assert_eq!(s.phase, ProcessingPhase::SilenceDetected);
    assert_eq!(s.end_chunk(false), SegmentOutcome::Transcribe);
    assert_eq!(s.phase, ProcessingPhase::Idle);
    assert_eq!(s.buffered, 0);
    assert_eq!(s.speech_chunks, 2);
    assert_eq!(s.chunks_processed, 4);
}

#[test]
fn short_segment_is_discarded() {
    let mut s = Segmenter::new(8000, 100000, 512);
    let _ = s.begin_chunk(512, true);
    let _ = s.end_chunk(true);
    let _ = s.begin_chunk(512, false);
    assert_eq!(s.end_chunk(false), SegmentOutcome::Discard);
}

#[test]
fn first_word_is_looked_for_once() {
    let mut s = Segmenter::new(1000, 1000000, 100000);
    let plan = s.begin_chunk(8000, true);
    assert!(plan.detect_first_word);
    assert_eq!(s.phase, ProcessingPhase::DetectingFirstWord);
    s.mark_first_word_sent();
    assert_eq!(s.end_chunk(true), SegmentOutcome::Continue);
    assert_eq!(s.phase, ProcessingPhase::Recording);
    let plan = s.begin_chunk(8000, true);
    assert!(!plan.detect_first_word);
}

#[test]
fn long_segment_is_forced_out_and_flush_decides_by_length() {
    let mut s = Segmenter::new(100, 1000, 100000);
    let _ = s.begin_chunk(1000, true);
    assert_eq!(s.end_chunk(true), SegmentOutcome::Transcribe);
    let _ = s.begin_chunk(50, true);
    assert_eq!(s.flush(), SegmentOutcome::Discard);
    let _ = s.begin_chunk(500, true);
    assert_eq!(s.flush(), SegmentOutcome::Transcribe);
    assert_eq!(s.flush(), SegmentOutcome::Discard);
}

#[test]
fn phase_names() {
    assert_eq!(ProcessingPhase::Idle.to_display_string(), "IDLE");
    assert_eq!(ProcessingPhase::SilenceDetected.to_display_string(), "SILENCE_DETECTED");
}

#[test]
fn transcription_events() {
    assert!(matches!(direct_transcription_event(Ok("hi there".to_string())), Some(SttNotice::Final(t)) if t == "hi there"));
    assert!(direct_transcription_event(Ok("  ".to_string())).is_none());
    assert!(matches!(
        direct_transcription_event(Err("no model".to_string())),
        Some(SttNotice::Error(m)) if m == "Transcription failed: no model"
    ));
    assert!(matches!(segment_transcription_event(Ok(" ".to_string())), SttNotice::Final(t) if t == " "));
    assert!(matches!(segment_transcription_event(Err("x".to_string())), SttNotice::Error(m) if m == "x"));
}
