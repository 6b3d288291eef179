use babble::state::{AppCommand, AppEvent, AppState, LLMState, RecordingState};

#[test]
fn state_test_recording_state_transitions() {
    let mut state = AppState::new();
    assert!(state.recording.is_idle());

    state.start_recording();
    assert!(state.recording.is_recording());

    state.stop_recording();
    assert!(state.recording.is_processing());

    state.finish_processing();
    assert!(state.recording.is_idle());
}

#[test]
fn state_test_cancel_recording() {
    let mut state = AppState::new();
    state.start_recording();
    state.cancel_recording();
    assert!(state.recording.is_idle());
}

#[test]
fn test_llm_state_transitions() {
    let mut state = AppState::new();
    assert!(state.llm.is_idle());

    state.start_generation();
    assert!(state.llm.is_generating());

    state.finish_generation(false);
    assert!(state.llm.is_idle());
    assert!(!state.response.was_interrupted);
}

#[test]
fn test_llm_interruption() {
    let mut state = AppState::new();
    state.start_generation();
    state.response.append_token("Hello ");
    state.response.append_token("world");
    state.finish_generation(true);

    assert!(state.llm.is_idle());
    assert!(state.response.was_interrupted);
    assert_eq!(state.response.last_complete, Some("Hello world".to_string()));
}

#[test]
fn test_transcription_state() {
    let mut state = AppState::new();
    assert!(!state.transcription.has_first_word);
    assert!(state.transcription.last_text.is_none());

    state.transcription.set_first_word("stop".to_string());
    assert!(state.transcription.has_first_word);
    assert_eq!(state.transcription.first_word, Some("stop".to_string()));

    state.transcription.set_transcription("stop the music".to_string());
    assert_eq!(state.transcription.last_text, Some("stop the music".to_string()));

    state.transcription.clear();
    assert!(!state.transcription.has_first_word);
    assert!(state.transcription.last_text.is_none());
}

#[test]
fn test_shared_state() {
    let mut state = AppState::new();
    assert!(state.is_idle());
    assert!(!state.recording.is_recording());

    state.start_recording();

    assert!(state.recording.is_recording());
    assert!(!state.is_idle());
    assert!(state.snapshot().recording.is_recording());
}

#[test]
fn test_snapshot_is_independent() {
    let mut state = AppState::new();
    let snapshot1 = state.snapshot();
    assert!(snapshot1.recording.is_idle());

    state.start_recording();

    assert!(snapshot1.recording.is_idle());
    let snapshot2 = state.snapshot();
    assert!(snapshot2.recording.is_recording());
}

#[test]
fn test_is_busy() {
    let mut state = AppState::new();
    assert!(!state.is_busy());

    state.start_recording();
    assert!(state.is_busy());

    state.cancel_recording();
    assert!(!state.is_busy());

    state.start_generation();
    assert!(state.is_busy());
}

#[test]
fn test_app_command_variants() {
    let _start = AppCommand::StartRecording;
    let _stop = AppCommand::StopRecording;
    let _cancel = AppCommand::CancelRecording;
    let _text = AppCommand::SendText("test".to_string());
    let _stop_gen = AppCommand::StopGeneration;
    let _clear = AppCommand::ClearHistory;
    let _shutdown = AppCommand::Shutdown;
}

#[test]
fn test_app_event_variants() {
    let _changed = AppEvent::StateChanged;
    let _token = AppEvent::LLMToken("hello".to_string());
    let _error = AppEvent::Error("test error".to_string());
    let _shutdown = AppEvent::Shutdown;
}

#[test]
fn test_debug_fields_default() {
    let state = AppState::new();
    assert_eq!(state.frame_count, 0);
    assert!(!state.debug_mode);
    assert_eq!(state.max_frames, 0);
}

#[test]
fn test_frame_counter() {
    let mut state = AppState::new();
    assert_eq!(state.frame_count, 0);
    state.frame_count += 1;
    assert_eq!(state.frame_count, 1);
    state.frame_count += 99;
    assert_eq!(state.frame_count, 100);
}

#[test]
fn test_debug_mode() {
    let mut state = AppState::new();
    assert!(!state.debug_mode);
    state.debug_mode = true;
    assert!(state.snapshot().debug_mode);
}

#[test]
fn test_max_frames() {
    let mut state = AppState::new();
    assert_eq!(state.max_frames, 0);
    state.max_frames = 100;
    assert_eq!(state.snapshot().max_frames, 100);
}

#[test]
fn test_snapshot_includes_debug_fields() {
    let mut state = AppState::new();
    state.debug_mode = true;
    state.max_frames = 50;
    state.frame_count = 25;

    let snapshot = state.snapshot();
    assert!(snapshot.debug_mode);
    assert_eq!(snapshot.max_frames, 50);
    assert_eq!(snapshot.frame_count, 25);
}

#[test]
fn frame_limit_is_reached_exactly() {
    let mut state = AppState::new();
    state.max_frames = 3;
    assert!(!state.count_frame());
    assert!(!state.count_frame());
    assert!(state.count_frame());
    assert_eq!(state.frame_count, 3);
    let mut unlimited = AppState::new();
    for _ in 0..10 {
        assert!(!unlimited.count_frame());
    }
}

#[test]
fn start_recording_forgets_previous_turn() {
    let mut state = AppState::new();
    state.transcription.set_transcription("old".to_string());
    state.set_error("bad".to_string());
    state.start_recording();
    assert!(state.transcription.last_text.is_none());
    assert!(state.error.is_none());
    state.set_error("again".to_string());
    state.cancel_recording();
    assert_eq!(state.error, Some("again".to_string()));
    state.clear_error();
    assert!(state.error.is_none());
}

#[test]
fn empty_response_does_not_replace_last_complete() {
    let mut state = AppState::new();
    state.start_generation();
    state.response.append_token("first");
    state.finish_generation(false);
    state.start_generation();
    state.finish_generation(false);
    assert_eq!(state.response.last_complete, Some("first".to_string()));
    assert_eq!(state.response.current_text, "");
}

#[test]
fn state_names() {
    assert_eq!(RecordingState::Processing.name(), "Processing");
    assert_eq!(LLMState::Generating.to_display_string(), "Generating");
    assert_eq!(LLMState::default(), LLMState::Idle);
}
