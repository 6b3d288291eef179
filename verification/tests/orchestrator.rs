use babble::processor::handler::{MessageCommand, MessageHandlerEvent};
use babble::processor::llm::LLMEvent;
use babble::processor::orchestrator::{
    orchestrator_step, OrchestratorAction, OrchestratorInput, ShutdownTracker, SttNotice,
};
use babble::state::{AppCommand, AppEvent, AppState, LLMState, RecordingState};

fn kinds(actions: &[OrchestratorAction]) -> Vec<String> {
    actions
        .iter()
        .map(|a| match a {
            OrchestratorAction::Emit(AppEvent::StateChanged) => "changed".to_string(),
            OrchestratorAction::Emit(AppEvent::LLMToken(t)) => format!("token:{}", t),
            OrchestratorAction::Emit(AppEvent::Error(e)) => format!("error:{}", e),
            OrchestratorAction::Emit(AppEvent::Shutdown) => "shutdown".to_string(),
            OrchestratorAction::SttFlush => "flush".to_string(),
            OrchestratorAction::SttForwardAudio => "audio".to_string(),
            OrchestratorAction::SttShutdown => "stt-off".to_string(),
            OrchestratorAction::HandlerCheckFirstWord(w) => format!("check:{}", w),
            OrchestratorAction::HandlerProcess(t) => format!("process:{}", t),
            OrchestratorAction::HandlerShutdown => "handler-off".to_string(),
            OrchestratorAction::LlmGenerate(t) => format!("generate:{}", t),
            OrchestratorAction::LlmStop => "llm-stop".to_string(),
            OrchestratorAction::LlmClearHistory => "llm-clear".to_string(),
            OrchestratorAction::LlmShutdown => "llm-off".to_string(),
            OrchestratorAction::AwaitShutdown => "await".to_string(),
            OrchestratorAction::Exit => "exit".to_string(),
        })
        .collect()
}

fn step(s: &mut AppState, input: OrchestratorInput) -> Vec<String> {
    kinds(&orchestrator_step(s, input))
}

#[test]
fn voice_turn_round_trip() {
    let mut s = AppState::new();
    assert_eq!(step(&mut s, OrchestratorInput::Command(AppCommand::StartRecording)), vec!["changed"]);
    assert_eq!(step(&mut s, OrchestratorInput::Audio(480)), vec!["audio"]);
    assert_eq!(s.audio_buffer_samples, 480);
    assert_eq!(
        step(&mut s, OrchestratorInput::Stt(SttNotice::FirstWord("what".to_string()))),
        vec!["changed", "check:what"]
    );
    assert_eq!(step(&mut s, OrchestratorInput::Command(AppCommand::StopRecording)), vec!["changed", "flush"]);
    assert_eq!(s.recording, RecordingState::Processing);
    assert_eq!(
        step(&mut s, OrchestratorInput::Stt(SttNotice::Final("what time".to_string()))),
        vec!["changed", "process:what time"]
    );
    assert_eq!(s.recording, RecordingState::Idle);
    assert_eq!(s.audio_buffer_samples, 0);
    assert_eq!(s.transcription.last_text, Some("what time".to_string()));
}

#[test]
fn commands_are_guarded() {
    let mut s = AppState::new();
    assert!(step(&mut s, OrchestratorInput::Command(AppCommand::StopRecording)).is_empty());
    assert!(step(&mut s, OrchestratorInput::Command(AppCommand::CancelRecording)).is_empty());
    assert!(step(&mut s, OrchestratorInput::Audio(100)).is_empty());
    assert_eq!(s.audio_buffer_samples, 0);
    let _ = step(&mut s, OrchestratorInput::Command(AppCommand::StartRecording));
    assert!(step(&mut s, OrchestratorInput::Command(AppCommand::StartRecording)).is_empty());
    assert_eq!(step(&mut s, OrchestratorInput::Command(AppCommand::CancelRecording)), vec!["changed"]);
    assert!(s.is_idle());
}

#[test]
fn generation_flow_and_stop() {
    let mut s = AppState::new();
    assert!(step(&mut s, OrchestratorInput::Command(AppCommand::StopGeneration)).is_empty());
    assert_eq!(
        step(&mut s, OrchestratorInput::Handler(Some(MessageHandlerEvent::TextReady("hi".to_string())))),
        vec!["changed", "generate:hi"]
    );
    assert_eq!(s.llm, LLMState::Generating);
    assert_eq!(step(&mut s, OrchestratorInput::Llm(Some(LLMEvent::Token("Hel".to_string())))), vec!["token:Hel"]);
    assert_eq!(step(&mut s, OrchestratorInput::Llm(Some(LLMEvent::Token("lo".to_string())))), vec!["token:lo"]);
    assert_eq!(
        step(
            &mut s,
            OrchestratorInput::Handler(Some(MessageHandlerEvent::CommandDetected(MessageCommand::Stop)))
        ),
        vec!["llm-stop"]
    );
    assert_eq!(
        step(
            &mut s,
            OrchestratorInput::Llm(Some(LLMEvent::Complete { response: "Hello".to_string(), interrupted: true }))
        ),
        vec!["changed"]
    );
    assert_eq!(s.llm, LLMState::Idle);
    assert!(s.response.was_interrupted);
    assert_eq!(s.response.last_complete, Some("Hello".to_string()));
}

#[test]
fn errors_are_reported() {
    let mut s = AppState::new();
    let _ = step(&mut s, OrchestratorInput::Command(AppCommand::StartRecording));
    let _ = step(&mut s, OrchestratorInput::Command(AppCommand::StopRecording));
    assert_eq!(
        step(&mut s, OrchestratorInput::Stt(SttNotice::Error("model".to_string()))),
        vec!["error:STT error: model"]
    );
    assert!(s.recording.is_idle());
    assert_eq!(s.error, Some("STT error: model".to_string()));
    let _ = step(&mut s, OrchestratorInput::Command(AppCommand::SendText("x".to_string())));
    let _ = step(&mut s, OrchestratorInput::Handler(Some(MessageHandlerEvent::TextReady("x".to_string()))));
    assert_eq!(
        step(&mut s, OrchestratorInput::Llm(Some(LLMEvent::Error("oom".to_string())))),
        vec!["error:LLM error: oom"]
    );
    assert_eq!(s.llm, LLMState::Idle);
}

#[test]
fn shutdown_sequence() {
    let mut s = AppState::new();
    assert_eq!(
        step(&mut s, OrchestratorInput::Command(AppCommand::Shutdown)),
        vec!["stt-off", "handler-off", "llm-off", "await", "shutdown", "exit"]
    );
    assert_eq!(step(&mut s, OrchestratorInput::CommandChannelClosed), vec!["exit"]);
    let mut t = ShutdownTracker::new();
    assert!(!t.all_confirmed());
    t.note(Some(SttNotice::Shutdown), None, None);
    t.note(None, Some(MessageHandlerEvent::Shutdown), Some(LLMEvent::Token("late".to_string())));
    assert!(!t.all_confirmed());
    t.note(None, None, Some(LLMEvent::Shutdown));
    assert!(t.all_confirmed());
}

#[test]
fn clear_history_reaches_the_generation_worker() {
    let mut s = AppState::new();
    assert_eq!(step(&mut s, OrchestratorInput::Command(AppCommand::ClearHistory)), vec!["llm-clear"]);
    assert!(s.is_idle());
}
