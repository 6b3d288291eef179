use babble::speech::tts::{
    segment_text, synthesis_event, TTSEvent, duration_ms, expand_ordinals, expand_time_format, normalize_text_for_tts, number_to_words,
    synthesis_text, AudioQueue, QueuedAudio,
};

fn segment(index: usize, request_id: u128, samples: Vec<f32>) -> QueuedAudio<Vec<f32>> {
    QueuedAudio { segment_index: index, request_id, audio: samples }
}

#[test]
fn test_normalize_abbreviations() {
    let text = "Dr. Smith met Mr. Johnson at 3:30";
    let normalized = normalize_text_for_tts(text);
    assert!(normalized.contains("Doctor"));
    assert!(normalized.contains("Mister"));
}

#[test]
fn test_normalize_symbols() {
    let text = "50% discount & free shipping";
    let normalized = normalize_text_for_tts(text);
    assert!(normalized.contains("percent"));
    assert!(normalized.contains("and"));
}

#[test]
fn test_normalize_ordinals() {
    let text = "The 1st and 2nd place winners";
    let normalized = normalize_text_for_tts(text);
    assert!(normalized.contains("first"));
    assert!(normalized.contains("second"));
}

#[test]
fn test_number_to_words() {
    assert_eq!(number_to_words("0"), "zero");
    assert_eq!(number_to_words("1"), "one");
    assert_eq!(number_to_words("15"), "fifteen");
    assert_eq!(number_to_words("20"), "twenty");
    assert_eq!(number_to_words("42"), "forty-two");
    assert_eq!(number_to_words("100"), "one hundred");
    assert_eq!(number_to_words("123"), "one hundred twenty-three");
}

#[test]
fn number_to_words_edges() {
    assert_eq!(number_to_words("999"), "nine hundred ninety-nine");
    assert_eq!(number_to_words("305"), "three hundred five");
    assert_eq!(number_to_words("+7"), "seven");
    assert_eq!(number_to_words("007"), "seven");
    assert_eq!(number_to_words("1000"), "1000");
    assert_eq!(number_to_words("abc"), "abc");
    assert_eq!(number_to_words(""), "");
    assert_eq!(number_to_words("-5"), "-5");
    assert_eq!(number_to_words("99999999999"), "99999999999");
}

#[test]
fn normalize_exact_outputs() {
    assert_eq!(
        normalize_text_for_tts("Dr. Smith met Mr. Johnson at 3:30"),
        "Doctor Smith met Mister Johnson at three thirty"
    );
    assert_eq!(
        normalize_text_for_tts("50% discount & free shipping"),
        "50 percent discount and free shipping"
    );
    assert_eq!(
        normalize_text_for_tts("The 1st and 2nd place winners"),
        "The first and second place winners"
    );
    assert_eq!(normalize_text_for_tts("  Hello   world  "), "Hello world");
    assert_eq!(normalize_text_for_tts("a*b"), "ab");
}

#[test]
fn time_formats() {
    assert_eq!(expand_time_format("at 3:30"), "at three thirty");
    assert_eq!(expand_time_format("3:00"), "three o'clock");
    assert_eq!(expand_time_format("12:5"), "twelve five");
    assert_eq!(expand_time_format("ratio 3:x"), "ratio 3:x");
    assert_eq!(expand_time_format("no digits"), "no digits");
}

#[test]
fn ordinals_expand() {
    assert_eq!(expand_ordinals("the 3rd and 100th"), "the third and hundredth");
    assert_eq!(
        expand_ordinals("the 21st, 22nd and 23rd"),
        "the twenty-first, twenty-second and twenty-third"
    );
    assert_eq!(expand_ordinals("10th and 100th and 1st"), "tenth and hundredth and first");
}

#[test]
fn synthesis_text_of_blank_is_none() {
    assert!(synthesis_text("   ").is_none());
    assert!(synthesis_text("***").is_none());
    assert_eq!(synthesis_text("Hi & bye").unwrap(), "Hi and bye");
}

#[test]
fn durations_in_milliseconds() {
    assert_eq!(duration_ms(22050, 22050), 1000);
    assert_eq!(duration_ms(11025, 22050), 500);
    assert_eq!(duration_ms(1, 16000), 0);
}

#[test]
fn test_audio_queue_ordering() {
    let mut queue = AudioQueue::new();
    let request_id: u128 = 7;

    queue.enqueue(segment(2, request_id, vec![2.0]));
    queue.enqueue(segment(0, request_id, vec![0.0]));
    queue.enqueue(segment(1, request_id, vec![1.0]));

    let first = queue.dequeue().unwrap();
    assert_eq!(first.segment_index, 0);
    assert_eq!(first.audio[0], 0.0);

    let second = queue.dequeue().unwrap();
    assert_eq!(second.segment_index, 1);
    assert_eq!(second.audio[0], 1.0);

    let third = queue.dequeue().unwrap();
    assert_eq!(third.segment_index, 2);
    assert_eq!(third.audio[0], 2.0);
}

#[test]
fn test_audio_queue_new_request_clears() {
    let mut queue = AudioQueue::new();
    let request1: u128 = 1;
    let request2: u128 = 2;

    queue.enqueue(segment(0, request1, vec![1.0]));
    assert_eq!(queue.len(), 1);

    queue.enqueue(segment(0, request2, vec![2.0]));
    assert_eq!(queue.len(), 1);
    let audio = queue.dequeue().unwrap();
    assert_eq!(audio.request_id, request2);
}

#[test]
fn test_audio_queue_drain() {
    let mut queue = AudioQueue::new();
    let request_id: u128 = 3;

    for i in 0..3 {
        queue.enqueue(segment(i, request_id, vec![i as f32; 100]));
    }

    let samples: Vec<f32> = queue.drain_available().into_iter().flat_map(|s| s.audio).collect();
    assert_eq!(samples.len(), 300);
    assert!(queue.is_empty());
}

#[test]
fn queue_waits_for_missing_segment() {
    let mut queue = AudioQueue::new();
    queue.enqueue(segment(1, 9, vec![1.0]));
    assert!(queue.dequeue().is_none());
    assert_eq!(queue.next_playback_index(), 0);
    queue.enqueue(segment(0, 9, vec![0.0]));
    let drained = queue.drain_available();
    let indices: Vec<usize> = drained.iter().map(|s| s.segment_index).collect();
    assert_eq!(indices, vec![0, 1]);
    assert_eq!(queue.next_playback_index(), 2);
}

#[test]
fn queue_clear_forgets_everything() {
    let mut queue = AudioQueue::new();
    queue.enqueue(segment(0, 5, vec![0.0]));
    assert!(queue.dequeue().is_some());
    queue.enqueue(segment(3, 5, vec![3.0]));
    queue.clear();
    assert!(queue.is_empty());
    assert_eq!(queue.next_playback_index(), 0);
    assert!(queue.segments().is_empty());
}

#[test]
fn normalized_text_is_speakable_and_trimmed() {
    let out = normalize_text_for_tts("  (Hi) [there] {x} ~ ok?  ");
    assert!(out
        .chars()
        .all(|c| c.is_alphanumeric() || c.is_whitespace() || ".,!?;:'-\"".contains(c)));
    assert_eq!(out, out.trim());
    assert_eq!(out, "Hi there x  ok?");
}

#[test]
fn synthesis_worker_decisions() {
    assert!(segment_text(false, "Hello").is_none());
    assert!(segment_text(true, "   ").is_none());
    assert!(segment_text(true, "***").is_none());
    assert_eq!(segment_text(true, "Hi & bye").unwrap(), "Hi and bye");
    match synthesis_event(2, 9, Ok(vec![0.5f32, 0.25])) {
        Some(TTSEvent::Audio(q)) => {
            assert_eq!(q.segment_index, 2);
            assert_eq!(q.request_id, 9);
            assert_eq!(q.audio, vec![0.5, 0.25]);
        }
        _ => panic!("expected audio"),
    }
    assert!(synthesis_event::<f32>(2, 9, Ok(vec![])).is_none());
    match synthesis_event::<f32>(4, 7, Err("boom".to_string())) {
        Some(TTSEvent::Error { error, segment_index, request_id }) => {
            assert_eq!(error, "boom");
            assert_eq!(segment_index, Some(4));
            assert_eq!(request_id, Some(7));
        }
        _ => panic!("expected an error"),
    }
}
