use babble::processor::handler::{
    detect_command, is_only_command, is_stop_command, MessageCommand, MessageHandlerCommand,
    MessageHandlerEvent, MessageHandlerState,
};

#[test]
fn test_is_stop_command_exact_matches() {
    assert!(is_stop_command("stop"));
    assert!(is_stop_command("halt"));
    assert!(is_stop_command("cancel"));
    assert!(is_stop_command("abort"));
    assert!(is_stop_command("quit"));
}

#[test]
fn test_is_stop_command_case_insensitive() {
    assert!(is_stop_command("Stop"));
    assert!(is_stop_command("STOP"));
    assert!(is_stop_command("StOp"));
    assert!(is_stop_command("HALT"));
    assert!(is_stop_command("Cancel"));
}

#[test]
fn test_is_stop_command_with_punctuation() {
    assert!(is_stop_command("stop."));
    assert!(is_stop_command("stop!"));
    assert!(is_stop_command("stop,"));
    assert!(is_stop_command("halt?"));
}

#[test]
fn test_is_stop_command_partial_matches_rejected() {
    assert!(!is_stop_command("stopping"));
    assert!(!is_stop_command("stopped"));
    assert!(!is_stop_command("stopper"));
    assert!(!is_stop_command("stopwatch"));
    assert!(!is_stop_command("halting"));
    assert!(!is_stop_command("cancellation"));
    assert!(!is_stop_command("aborted"));
    assert!(!is_stop_command("quitting"));
}

#[test]
fn test_is_stop_command_non_commands() {
    assert!(!is_stop_command("hello"));
    assert!(!is_stop_command("start"));
    assert!(!is_stop_command("go"));
    assert!(!is_stop_command(""));
    assert!(!is_stop_command("   "));
}

#[test]
fn test_detect_command() {
    assert_eq!(detect_command("stop"), Some(MessageCommand::Stop));
    assert_eq!(detect_command("HALT"), Some(MessageCommand::Stop));
    assert_eq!(detect_command("hello"), None);
    assert_eq!(detect_command("stopping"), None);
}

#[test]
fn test_is_only_command() {
    assert!(is_only_command("stop"));
    assert!(is_only_command("STOP"));
    assert!(is_only_command("halt"));

    assert!(!is_only_command("stop that"));
    assert!(!is_only_command("stop please"));

    assert!(!is_only_command("hello"));
    assert!(!is_only_command("hello world"));

    assert!(!is_only_command(""));
}

#[test]
fn only_command_ignores_surrounding_space_and_punctuation() {
    assert!(is_only_command("  Stop!  "));
    assert!(!is_stop_command(" stop"));
}

fn first_word(h: &mut MessageHandlerState, w: &str) -> Option<MessageHandlerEvent> {
    h.handle(MessageHandlerCommand::CheckFirstWord(w.to_string())).event
}

fn transcription(h: &mut MessageHandlerState, t: &str) -> Option<MessageHandlerEvent> {
    h.handle(MessageHandlerCommand::ProcessTranscription(t.to_string())).event
}

#[test]
fn test_message_handler_creation() {
    let h = MessageHandlerState::new();
    assert!(h.pending_command.is_none());
}

#[test]
fn test_handler_stop_command_flow() {
    let mut h = MessageHandlerState::new();
    match first_word(&mut h, "stop") {
        Some(MessageHandlerEvent::CommandDetected(cmd)) => assert_eq!(cmd, MessageCommand::Stop),
        _ => panic!("Expected CommandDetected event"),
    }
    let out = h.handle(MessageHandlerCommand::Shutdown);
    assert!(out.shutdown);
}

#[test]
fn test_handler_normal_text_flow() {
    let mut h = MessageHandlerState::new();
    assert!(first_word(&mut h, "hello").is_none());
    match transcription(&mut h, "hello world") {
        Some(MessageHandlerEvent::TextReady(text)) => assert_eq!(text, "hello world"),
        _ => panic!("Expected TextReady event"),
    }
}

#[test]
fn test_handler_empty_transcription_ignored() {
    let mut h = MessageHandlerState::new();
    assert!(transcription(&mut h, "").is_none());
    assert!(transcription(&mut h, "   ").is_none());
    match transcription(&mut h, "test message") {
        Some(MessageHandlerEvent::TextReady(text)) => assert_eq!(text, "test message"),
        _ => panic!("Expected TextReady event"),
    }
}

#[test]
fn test_handler_command_suppresses_llm() {
    let mut h = MessageHandlerState::new();
    assert!(matches!(
        first_word(&mut h, "stop"),
        Some(MessageHandlerEvent::CommandDetected(MessageCommand::Stop))
    ));
    assert!(transcription(&mut h, "stop talking").is_none());
    assert!(first_word(&mut h, "hello").is_none());
    match transcription(&mut h, "hello there") {
        Some(MessageHandlerEvent::TextReady(text)) => assert_eq!(text, "hello there"),
        _ => panic!("Expected TextReady event"),
    }
}

#[test]
fn test_handler_single_word_command_transcription() {
    let mut h = MessageHandlerState::new();
    match transcription(&mut h, "stop") {
        Some(MessageHandlerEvent::CommandDetected(cmd)) => assert_eq!(cmd, MessageCommand::Stop),
        _ => panic!("Expected CommandDetected event"),
    }
}

#[test]
fn test_handler_shutdown() {
    let mut h = MessageHandlerState::new();
    let out = h.handle(MessageHandlerCommand::Shutdown);
    assert!(matches!(out.event, Some(MessageHandlerEvent::Shutdown)));
    assert!(out.shutdown);
}

#[test]
fn forwarded_text_is_trimmed() {
    let mut h = MessageHandlerState::new();
    match transcription(&mut h, "  what time is it?  ") {
        Some(MessageHandlerEvent::TextReady(text)) => assert_eq!(text, "what time is it?"),
        _ => panic!("Expected TextReady event"),
    }
}
