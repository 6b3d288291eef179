use babble::processor::orchestrator::SttNotice;
use babble::state::{AppState as SharedState, LLMState, RecordingState, ResponseState};
use babble::testconfig::runner::{AssertionResult, TestCommand};
use babble::ui::{
    busy_label, keeps_repainting, press_record_button, press_space, record_status_text,
    record_tooltip, response_status, AppState, Session, StopPlan, UiAction, WAVEFORM_SAMPLES,
};

#[test]
fn ui_state_transitions() {
    let mut s = AppState::new();
    s.stop_recording();
    assert_eq!(s.recording_state, RecordingState::Idle);
    s.start_recording();
    assert!(s.is_recording());
    s.stop_recording();
    assert!(s.is_processing());
    s.finish_processing();
    assert_eq!(s.recording_state, RecordingState::Idle);
    s.start_recording();
    s.waveform_data.push(1);
    s.cancel_recording();
    assert_eq!(s.recording_state, RecordingState::Idle);
    assert!(s.waveform_data.is_empty());
}

#[test]
fn record_button_clicks() {
    let mut s = AppState::new();
    press_record_button(&mut s, true, false);
    assert_eq!(s.recording_state, RecordingState::Recording);
    press_record_button(&mut s, false, true);
    assert_eq!(s.recording_state, RecordingState::Idle);
    press_record_button(&mut s, false, true);
    assert_eq!(s.recording_state, RecordingState::Idle);
    press_record_button(&mut s, true, false);
    press_record_button(&mut s, true, true);
    assert_eq!(s.recording_state, RecordingState::Idle);
    press_record_button(&mut s, true, false);
    press_record_button(&mut s, true, false);
    assert_eq!(s.recording_state, RecordingState::Processing);
    press_record_button(&mut s, true, true);
    assert_eq!(s.recording_state, RecordingState::Processing);
}

#[test]
fn space_bar_toggles_unless_focused() {
    let mut s = AppState::new();
    press_space(&mut s, true, true);
    assert_eq!(s.recording_state, RecordingState::Idle);
    press_space(&mut s, true, false);
    assert_eq!(s.recording_state, RecordingState::Recording);
    press_space(&mut s, false, false);
    assert_eq!(s.recording_state, RecordingState::Recording);
    press_space(&mut s, true, false);
    assert_eq!(s.recording_state, RecordingState::Processing);
    press_space(&mut s, true, false);
    assert_eq!(s.recording_state, RecordingState::Processing);
}

#[test]
fn labels() {
    assert_eq!(record_tooltip(RecordingState::Idle), "Click to record (Space)");
    assert_eq!(record_tooltip(RecordingState::Recording), "Click to stop (Space)\nRight-click to cancel");
    assert_eq!(record_status_text(RecordingState::Processing), "Processing...");
    assert_eq!(busy_label(RecordingState::Idle, LLMState::Idle), "IDLE");
    assert_eq!(busy_label(RecordingState::Idle, LLMState::Generating), "BUSY");
    assert_eq!(busy_label(RecordingState::Processing, LLMState::Idle), "BUSY");
}

#[test]
fn response_status_labels() {
    let mut r = ResponseState::new();
    assert_eq!(response_status(LLMState::Idle, &r), "");
    assert_eq!(response_status(LLMState::Generating, &r), "Generating...");
    r.append_token("Hi");
    assert_eq!(response_status(LLMState::Idle, &r), "Complete");
    r.complete(true);
    assert_eq!(response_status(LLMState::Idle, &r), "Interrupted");
}

#[test]
fn session_recording_round() {
    let mut s = Session::new();
    assert!(s.begin_recording());
    s.recording_started();
    assert!(!s.begin_recording());
    assert_eq!(s.stop_recording(100, true), StopPlan::Transcribe);
    assert_eq!(s.ui.recording_state, RecordingState::Processing);
    assert_eq!(s.stop_recording(100, true), StopPlan::Ignored);
    s.on_stt(SttNotice::FirstWord("hello".to_string()));
    assert!(s.has_first_word);
    s.on_stt(SttNotice::Final("hello there".to_string()));
    assert_eq!(s.ui.recording_state, RecordingState::Idle);
    assert_eq!(s.last_transcription, Some("hello there".to_string()));
    assert!(s.has_transcription);
    assert!(s.begin_recording());
    assert!(!s.has_first_word && !s.has_transcription && s.last_transcription.is_none());
}

#[test]
fn session_stop_without_audio_or_worker() {
    let mut s = Session::new();
    s.recording_started();
    assert_eq!(s.stop_recording(0, true), StopPlan::Finished);
    assert_eq!(s.ui.recording_state, RecordingState::Idle);
    s.recording_started();
    assert_eq!(s.stop_recording(10, false), StopPlan::Finished);
    s.recording_started();
    assert_eq!(s.stop_recording(10, true), StopPlan::Transcribe);
    s.transcription_failed();
    assert_eq!(s.ui.recording_state, RecordingState::Idle);
    assert!(!s.cancel_recording());
    s.recording_started();
    assert!(s.cancel_recording());
    assert_eq!(s.ui.recording_state, RecordingState::Idle);
}

#[test]
fn waveform_keeps_newest_samples() {
    let mut s = Session::new();
    s.on_audio(&[1, 2, 3]);
    assert_eq!(s.ui.waveform_data, vec![1, 2, 3]);
    let big: Vec<u32> = (0..5000).collect();
    s.on_audio(&big);
    assert_eq!(s.ui.waveform_data.len(), WAVEFORM_SAMPLES);
    assert_eq!(s.ui.waveform_data[0], 5000 - WAVEFORM_SAMPLES as u32);
    assert_eq!(*s.ui.waveform_data.last().unwrap(), 4999);
    let mut t = Session::new();
    let first: Vec<u32> = (0..4000).collect();
    t.on_audio(&first);
    t.on_audio(&[7; 200]);
    assert_eq!(t.ui.waveform_data.len(), WAVEFORM_SAMPLES);
    assert_eq!(t.ui.waveform_data[0], 104);
    assert_eq!(t.ui.waveform_data[WAVEFORM_SAMPLES - 1], 7);
}

#[test]
fn scenario_commands_and_exit_code() {
    let mut s = Session::new();
    assert_eq!(s.on_test_command(&TestCommand::ClickRecord), UiAction::StartRecording);
    s.recording_started();
    assert_eq!(s.on_test_command(&TestCommand::ClickRecord), UiAction::StopRecording);
    assert_eq!(s.on_test_command(&TestCommand::CancelRecord), UiAction::CancelRecording);
    assert_eq!(s.on_test_command(&TestCommand::Exit { code: -999 }), UiAction::Nothing);
    assert!(s.pending_exit.is_none());
    assert_eq!(s.on_test_command(&TestCommand::StopGeneration), UiAction::Unhandled);
    assert_eq!(s.on_test_command(&TestCommand::Exit { code: 0 }), UiAction::Nothing);
    assert_eq!(s.pending_exit, Some(0));
    s.note_assertion(&AssertionResult::Passed);
    assert_eq!(s.pending_exit, Some(0));
    s.note_assertion(&AssertionResult::Failed("no".to_string()));
    assert_eq!(s.pending_exit, Some(1));
    assert_eq!(s.take_exit_code(false, true), None);
    assert_eq!(s.take_exit_code(true, true), Some(1));
    assert_eq!(s.take_exit_code(true, true), None);
    s.on_test_command(&TestCommand::Exit { code: 4 });
    assert_eq!(s.take_exit_code(true, false), Some(1));
}

#[test]
fn session_reports_and_syncs() {
    let mut s = Session::new();
    s.recording_started();
    s.on_stt(SttNotice::FirstWord("hi".to_string()));
    let c = s.assertion_context(42);
    assert!(c.is_recording && !c.is_idle && c.stt_has_first_word);
    assert_eq!(c.audio_buffer_samples, 42);
    let mut shared = SharedState::new();
    s.sync_into(&mut shared, 42);
    assert_eq!(shared.recording, RecordingState::Recording);
    assert_eq!(shared.audio_buffer_samples, 42);
    assert!(shared.transcription.has_first_word);
    assert!(shared.transcription.last_text.is_none());
    assert!(keeps_repainting(false, &s.ui, 1));
    assert!(!keeps_repainting(false, &s.ui, 0));
}
