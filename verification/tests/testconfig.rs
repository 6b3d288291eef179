use babble::state::AppState;
use babble::testconfig::runner::{AssertionContext, AssertionResult, TestCommand, TestRunner};
use babble::testconfig::{ActionType, Assertion, TestAction, TestConfig, TestConfigError, TestMetadata};

fn action(time_ms: u64, action: ActionType, assert: Option<Assertion>) -> TestAction {
    TestAction { time_ms, action, assert }
}

fn config(actions: Vec<TestAction>) -> TestConfig {
    TestConfig {
        test: TestMetadata { name: "Scenario".to_string(), description: String::new() },
        actions,
    }
}

fn validation_text(c: &TestConfig) -> Option<String> {
    match c.validate() {
        Ok(()) => None,
        Err(TestConfigError::ValidationError(m)) => Some(m),
        Err(_) => panic!("unexpected error kind"),
    }
}

fn failure(r: AssertionResult) -> Option<String> {
    match r {
        AssertionResult::Passed => None,
        AssertionResult::Failed(m) => Some(m),
    }
}

#[test]
fn valid_scenario_passes_validation() {
    let c = config(vec![
        action(500, ActionType::ClickRecord, None),
        action(500, ActionType::StopRecord, None),
        action(3000, ActionType::Exit { code: 0 }, None),
    ]);
    assert!(c.validate().is_ok());
}

#[test]
fn validation_errors() {
    assert_eq!(
        validation_text(&config(vec![])),
        Some("Test configuration must have at least one action".to_string())
    );
    assert_eq!(
        validation_text(&config(vec![
            action(1000, ActionType::ClickRecord, None),
            action(500, ActionType::Exit { code: 0 }, None),
            action(100, ActionType::StopRecord, None),
        ])),
        Some("Actions must be ordered by time. Found action at 500ms after action at 1000ms".to_string())
    );
    assert_eq!(
        validation_text(&config(vec![action(10, ActionType::ClickRecord, None)])),
        Some("Test configuration must have an Exit action".to_string())
    );
}

#[test]
fn error_messages() {
    let e = TestConfigError::IoError { path: "a.toml".to_string(), error: "missing".to_string() };
    assert_eq!(e.message(), "Failed to read test config 'a.toml': missing");
    let e = TestConfigError::ParseError { path: "b.toml".to_string(), error: "bad".to_string() };
    assert_eq!(e.message(), "Failed to parse test config 'b.toml': bad");
    let e = TestConfigError::ValidationError("x".to_string());
    assert_eq!(e.message(), "Invalid test config: x");
}

#[test]
fn action_delay_is_its_time() {
    let a = action(1500, ActionType::ClickRecord, None);
    assert_eq!(a.delay(), std::time::Duration::from_millis(1500));
}

#[test]
fn runner_hands_out_actions_in_order() {
    let c = config(vec![
        action(100, ActionType::ClickRecord, Some(Assertion::IsRecording)),
        action(200, ActionType::Log { message: "note".to_string() }, None),
        action(300, ActionType::Exit { code: 3 }, None),
    ]);
    let mut r = TestRunner::new(c);
    assert!(r.poll().is_none());
    assert!(r.poll_at(50).is_none());
    match r.poll_at(150) {
        Some((TestCommand::ClickRecord, Some(Assertion::IsRecording))) => {}
        _ => panic!("expected click with assertion"),
    }
    match r.poll_at(1000) {
        Some((TestCommand::Exit { code: -999 }, None)) => {}
        _ => panic!("expected the log placeholder"),
    }
    assert!(!r.is_completed());
    match r.poll_at(1000) {
        Some((TestCommand::Exit { code: 3 }, None)) => {}
        _ => panic!("expected exit"),
    }
    assert!(r.is_completed());
    assert!(r.poll_at(5000).is_none());
    assert!(r.test_passed());
}

#[test]
fn runner_commands_for_actions() {
    let r = TestRunner::new(config(vec![action(0, ActionType::Exit { code: 0 }, None)]));
    assert!(matches!(r.action_to_command(&ActionType::StopGeneration), TestCommand::StopGeneration));
    match r.action_to_command(&ActionType::SendText { text: "hi".to_string() }) {
        TestCommand::SendText { text } => assert_eq!(text, "hi"),
        _ => panic!("expected SendText"),
    }
    match r.action_to_command(&ActionType::ReportFailure { reason: "why".to_string() }) {
        TestCommand::ReportFailure { reason } => assert_eq!(reason, "why"),
        _ => panic!("expected ReportFailure"),
    }
}

#[test]
fn assertions_against_state() {
    let mut r = TestRunner::new(config(vec![action(0, ActionType::Exit { code: 0 }, None)]));
    let mut s = AppState::new();
    assert_eq!(failure(r.check_assertion_with_app_state(&Assertion::IsIdle, &s)), None);
    assert_eq!(
        failure(r.check_assertion_with_app_state(&Assertion::IsRecording, &s)),
        Some("Expected state to be Recording, got Idle".to_string())
    );
    assert!(!r.test_passed());
    s.start_recording();
    s.audio_buffer_samples = 10;
    assert_eq!(
        failure(r.check_assertion_with_app_state(&Assertion::IsIdle, &s)),
        Some("Expected state to be Idle, got recording=Recording, llm=Idle".to_string())
    );
    assert_eq!(
        failure(r.check_assertion_with_app_state(
            &Assertion::AudioBufferMinSamples { min_samples: 48000 },
            &s
        )),
        Some("Expected at least 48000 audio samples, got 10".to_string())
    );
    assert_eq!(failure(r.check_assertion_with_app_state(&Assertion::AudioBufferNotEmpty, &s)), None);
    assert_eq!(
        failure(r.check_assertion_with_app_state(
            &Assertion::SttSpeechChunksMin { min_chunks: 2 },
            &s
        )),
        Some("STT speech chunks assertion (min=2) not yet supported with unified state".to_string())
    );
    s.transcription.set_transcription("Stop The Music".to_string());
    assert_eq!(
        failure(r.check_assertion_with_app_state(
            &Assertion::SttTranscriptionContains { text: "the MUSIC".to_string() },
            &s
        )),
        None
    );
    assert_eq!(
        failure(r.check_assertion_with_app_state(
            &Assertion::SttTranscriptionContains { text: "song".to_string() },
            &s
        )),
        Some("Expected transcription to contain 'song', got 'Stop The Music'".to_string())
    );
}

#[test]
fn assertions_against_context() {
    let mut r = TestRunner::new(config(vec![action(0, ActionType::Exit { code: 0 }, None)]));
    let mut c = AssertionContext::default();
    assert!(c.is_idle);
    assert_eq!(failure(r.check_assertion(&Assertion::IsIdle, &c)), None);
    assert!(r.test_passed());
    assert_eq!(
        failure(r.check_assertion(&Assertion::SttPhase { phase: "idle".to_string() }, &c)),
        Some("Expected STT phase 'idle', but STT is not initialized".to_string())
    );
    c.stt_phase = Some("IDLE".to_string());
    assert_eq!(failure(r.check_assertion(&Assertion::SttPhase { phase: "idle".to_string() }, &c)), None);
    assert_eq!(
        failure(r.check_assertion(&Assertion::SttHasFirstWord, &c)),
        Some("Expected first word detection, none received".to_string())
    );
    assert!(!r.test_passed());
}

#[test]
fn context_from_state() {
    let mut s = AppState::new();
    s.start_recording();
    s.transcription.set_first_word("hi".to_string());
    let c = AssertionContext::from_app_state(&s);
    assert!(c.is_recording);
    assert!(!c.is_idle);
    assert!(c.stt_has_first_word);
    assert!(!c.stt_has_transcription);
}

#[test]
fn summary_line() {
    let mut r = TestRunner::new(config(vec![action(0, ActionType::Exit { code: 0 }, None)]));
    r.start();
    let _ = r.poll_at(0);
    let s = r.summary();
    assert!(s.starts_with("[TEST] Test 'Scenario' PASSED: Executed 1 actions in "));
}

#[test]
fn elapsed_is_zero_before_start() {
    let r = TestRunner::new(config(vec![action(0, ActionType::Exit { code: 0 }, None)]));
    assert_eq!(r.elapsed(), std::time::Duration::ZERO);
}

#[test]
fn started_run_without_actions_completes() {
    let mut r = TestRunner::new(config(vec![]));
    assert!(r.poll().is_none());
    assert!(!r.is_completed());
    r.start();
    assert!(r.poll().is_none());
    assert!(r.is_completed());
}

#[test]
fn failure_sticks_across_checks() {
    let mut r = TestRunner::new(config(vec![action(0, ActionType::Exit { code: 0 }, None)]));
    let s = AppState::new();
    let _ = r.check_assertion_with_app_state(&Assertion::IsRecording, &s);
    let _ = r.check_assertion_with_app_state(&Assertion::IsIdle, &s);
    r.start();
    let _ = r.poll_at(0);
    assert!(!r.test_passed());
}

#[test]
fn summary_before_start_shows_zero_time() {
    let r = TestRunner::new(config(vec![action(0, ActionType::Exit { code: 0 }, None)]));
    assert_eq!(r.summary(), "[TEST] Test 'Scenario' PASSED: Executed 0 actions in 0ns");
}

#[test]
fn completion_is_never_undone() {
    let mut r = TestRunner::new(config(vec![action(0, ActionType::Exit { code: 0 }, None)]));
    r.start();
    assert!(r.poll_at(0).is_some());
    assert!(r.is_completed());
    for t in [0u128, 10, 100000] {
        assert!(r.poll_at(t).is_none());
        assert!(r.poll().is_none());
        r.start();
        assert!(r.is_completed());
    }
}
