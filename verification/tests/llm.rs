use babble::processor::llm::{
    ConversationContext, QuantizationType, LLMCommand, LLMEvent, LLMWorkerState, Message, MessageRole, StreamControl,
    StreamState, WorkerDecision,
};

#[test]
fn test_conversation_context() {
    let mut ctx = ConversationContext::new("You are a test assistant.");

    assert_eq!(ctx.message_count(), 0);
    assert_eq!(ctx.system_prompt(), "You are a test assistant.");

    ctx.add_user_message("Hello");
    assert_eq!(ctx.message_count(), 1);

    ctx.add_assistant_message("Hi there!");
    assert_eq!(ctx.message_count(), 2);

    let messages = ctx.messages();
    assert_eq!(messages.len(), 3);
    assert_eq!(messages[0].role, MessageRole::System);
    assert_eq!(messages[1].role, MessageRole::User);
    assert_eq!(messages[2].role, MessageRole::Assistant);
}

#[test]
fn test_conversation_context_clear() {
    let mut ctx = ConversationContext::new("System");
    ctx.add_user_message("Hello");
    ctx.add_assistant_message("Hi");

    ctx.clear();

    assert_eq!(ctx.message_count(), 0);
    let messages = ctx.messages();
    assert_eq!(messages.len(), 1);
    assert_eq!(messages[0].role, MessageRole::System);
}

#[test]
fn test_message_creation() {
    let sys = Message::system("System message");
    assert_eq!(sys.role, MessageRole::System);
    assert_eq!(sys.content, "System message");

    let user = Message::user("User message");
    assert_eq!(user.role, MessageRole::User);

    let assistant = Message::assistant("Assistant message");
    assert_eq!(assistant.role, MessageRole::Assistant);
}

#[test]
fn messages_keep_contents_in_order() {
    let mut ctx = ConversationContext::new("Be brief.");
    ctx.add_user_message("one");
    ctx.add_assistant_message("two");
    ctx.set_system_prompt("Be kind.");
    let texts: Vec<String> = ctx.messages().into_iter().map(|m| m.content).collect();
    assert_eq!(texts, vec!["Be kind.".to_string(), "one".to_string(), "two".to_string()]);
}

#[test]
fn worker_generates_from_whole_conversation() {
    let mut w = LLMWorkerState::new();
    assert_eq!(
        w.context.system_prompt(),
        "You are a helpful AI assistant. Respond concisely and accurately."
    );
    match w.on_command(LLMCommand::Generate("Hi".to_string())) {
        WorkerDecision::Generate(ms) => {
            assert_eq!(ms.len(), 2);
            assert_eq!(ms[1].role, MessageRole::User);
            assert_eq!(ms[1].content, "Hi");
        }
        _ => panic!("Expected Generate"),
    }
    match w.on_generation_finished(Ok(("Hello!".to_string(), false))) {
        LLMEvent::Complete { response, interrupted } => {
            assert_eq!(response, "Hello!");
            assert!(!interrupted);
        }
        _ => panic!("Expected Complete"),
    }
    assert_eq!(w.context.message_count(), 2);
}

#[test]
fn interrupted_response_is_not_remembered() {
    let mut w = LLMWorkerState::new();
    let _ = w.on_command(LLMCommand::Generate("Tell me a story".to_string()));
    let _ = w.on_generation_finished(Ok(("Once".to_string(), true)));
    assert_eq!(w.context.message_count(), 1);
    match w.on_generation_finished(Err("boom".to_string())) {
        LLMEvent::Error(e) => assert_eq!(e, "boom"),
        _ => panic!("Expected Error"),
    }
    assert_eq!(w.context.message_count(), 1);
}

#[test]
fn stop_and_shutdown_commands() {
    let mut w = LLMWorkerState::new();
    assert!(matches!(w.on_command(LLMCommand::Stop), WorkerDecision::Idle));
    assert!(w.should_stop);
    assert!(matches!(w.on_command(LLMCommand::Shutdown), WorkerDecision::Exit));
    let _ = w.on_command(LLMCommand::Generate("again".to_string()));
    assert!(!w.should_stop);
}

#[test]
fn streaming_stops_on_request() {
    let mut s = StreamState::new(false);
    assert_eq!(s.check(None), StreamControl::Continue);
    let _ = s.on_token("Hel".to_string());
    let _ = s.on_token("lo".to_string());
    assert_eq!(s.check(Some(LLMCommand::Stop)), StreamControl::Stop);
    assert!(s.should_stop);
    let (text, interrupted) = s.finish();
    assert_eq!(text, "Hello");
    assert!(interrupted);
}

#[test]
fn streaming_ignores_other_commands_and_stops_on_send_failure() {
    let mut s = StreamState::new(false);
    assert_eq!(s.check(Some(LLMCommand::Generate("x".to_string()))), StreamControl::Continue);
    assert_eq!(s.on_send_failed(), StreamControl::Stop);
    assert!(s.interrupted);
    let mut t = StreamState::new(true);
    assert_eq!(t.check(None), StreamControl::Stop);
    let mut u = StreamState::new(false);
    assert_eq!(u.check(Some(LLMCommand::Shutdown)), StreamControl::Stop);
    assert!(!u.should_stop);
}

#[test]
fn quantization_defaults_to_q4k() {
    assert_eq!(QuantizationType::default(), QuantizationType::Q4K);
    assert_ne!(QuantizationType::Full, QuantizationType::Q8_0);
}

#[test]
fn clear_history_keeps_only_the_system_prompt() {
    let mut w = LLMWorkerState::new();
    let _ = w.on_command(LLMCommand::Generate("first".to_string()));
    let _ = w.on_generation_finished(Ok(("answer".to_string(), false)));
    assert!(matches!(w.on_command(LLMCommand::ClearHistory), WorkerDecision::Idle));
    assert_eq!(w.context.message_count(), 0);
    match w.on_command(LLMCommand::Generate("next".to_string())) {
        WorkerDecision::Generate(ms) => {
            assert_eq!(ms.len(), 2);
            assert_eq!(ms[0].role, MessageRole::System);
            assert_eq!(ms[1].content, "next");
        }
        _ => panic!("Expected Generate"),
    }
}

#[test]
fn requests_during_streaming_are_kept() {
    let mut s = StreamState::new(false);
    assert_eq!(s.check(Some(LLMCommand::ClearHistory)), StreamControl::Continue);
    assert!(s.clear_requested && !s.shutdown_requested);
    assert_eq!(s.check(Some(LLMCommand::Shutdown)), StreamControl::Stop);
    assert!(s.shutdown_requested && s.interrupted);
}
