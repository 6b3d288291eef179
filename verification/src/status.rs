//! The status of each worker as the status bar shows it.
use crate::state::RecordingState;
use vstd::prelude::*;

verus! {

/// A worker's status.
#[derive(Clone, Copy, Debug, PartialEq, Eq, Structural)]
pub enum ProcessorStatus {
    /// Waiting for work.
    Waiting,
    /// Working.
    Running,
    /// Stopped by an error.
    Error,
}

/// One named indicator of the status bar.
#[derive(Clone, Debug)]
pub struct StatusIndicator {
    /// The worker's name.
    pub name: &'static str,
    /// Its status.
    pub status: ProcessorStatus,
}

/// The audio worker runs while recording or transcribing.
pub open spec fn audio_status(recording: RecordingState) -> ProcessorStatus {
    if recording == RecordingState::Idle {
        ProcessorStatus::Waiting
    } else {
        ProcessorStatus::Running
    }
}

/// The transcription worker runs while transcribing.
pub open spec fn stt_status(recording: RecordingState) -> ProcessorStatus {
    if recording == RecordingState::Processing {
        ProcessorStatus::Running
    } else {
        ProcessorStatus::Waiting
    }
}

/// The language model runs while generating; otherwise an error shows.
pub open spec fn llm_status(is_generating: bool, has_error: bool) -> ProcessorStatus {
    if is_generating {
        ProcessorStatus::Running
    } else if has_error {
        ProcessorStatus::Error
    } else {
        ProcessorStatus::Waiting
    }
}

/// The indicators, in the order shown: "Audio", "STT", "LLM".
pub fn processor_statuses(recording: RecordingState, is_generating: bool, has_error: bool) -> (v:
    Vec<StatusIndicator>)
    ensures
        v.len() == 3,
        v@[0].name@ == "Audio"@,
        v@[0].status == audio_status(recording),
        v@[1].name@ == "STT"@,
        v@[1].status == stt_status(recording),
        v@[2].name@ == "LLM"@,
        v@[2].status == llm_status(is_generating, has_error),
{
    let audio = match recording {
        RecordingState::Recording => ProcessorStatus::Running,
        RecordingState::Processing => ProcessorStatus::Running,
        RecordingState::Idle => ProcessorStatus::Waiting,
    };
    let stt = if recording == RecordingState::Processing {
        ProcessorStatus::Running
    } else {
        ProcessorStatus::Waiting
    };
    let llm = if is_generating {
        ProcessorStatus::Running
    } else if has_error {
        ProcessorStatus::Error
    } else {
        ProcessorStatus::Waiting
    };
    let mut v: Vec<StatusIndicator> = Vec::new();
    v.push(StatusIndicator { name: "Audio", status: audio });
    v.push(StatusIndicator { name: "STT", status: stt });
    v.push(StatusIndicator { name: "LLM", status: llm });
    v
}

} // verus!
