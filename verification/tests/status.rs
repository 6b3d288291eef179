use babble::state::RecordingState;
use babble::status::{processor_statuses, ProcessorStatus, StatusIndicator};

#[test]
fn test_processor_status_variants() {
    assert_ne!(ProcessorStatus::Waiting, ProcessorStatus::Running);
    assert_ne!(ProcessorStatus::Running, ProcessorStatus::Error);
    assert_ne!(ProcessorStatus::Error, ProcessorStatus::Waiting);
}

#[test]
fn test_status_indicator_creation() {
    let indicator = StatusIndicator { name: "Test", status: ProcessorStatus::Running };
    assert_eq!(indicator.name, "Test");
    assert_eq!(indicator.status, ProcessorStatus::Running);
}

fn statuses(recording: RecordingState, generating: bool, error: bool) -> Vec<(&'static str, ProcessorStatus)> {
    processor_statuses(recording, generating, error).into_iter().map(|i| (i.name, i.status)).collect()
}

#[test]
fn statuses_when_idle() {
    assert_eq!(
        statuses(RecordingState::Idle, false, false),
        vec![
            ("Audio", ProcessorStatus::Waiting),
            ("STT", ProcessorStatus::Waiting),
            ("LLM", ProcessorStatus::Waiting)
        ]
    );
}

#[test]
fn statuses_while_recording_and_processing() {
    assert_eq!(
        statuses(RecordingState::Recording, false, false),
        vec![
            ("Audio", ProcessorStatus::Running),
            ("STT", ProcessorStatus::Waiting),
            ("LLM", ProcessorStatus::Waiting)
        ]
    );
    assert_eq!(
        statuses(RecordingState::Processing, true, true),
        vec![
            ("Audio", ProcessorStatus::Running),
            ("STT", ProcessorStatus::Running),
            ("LLM", ProcessorStatus::Running)
        ]
    );
}

#[test]
fn llm_error_shows_when_not_generating() {
    assert_eq!(statuses(RecordingState::Idle, false, true)[2], ("LLM", ProcessorStatus::Error));
}
