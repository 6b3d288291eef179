//! The orchestrator's decisions: for each external command or processor
//! event, how the shared application state changes and which messages go
//! to the speech-to-text worker, the message handler, the generation
//! worker and the user interface. The channels themselves, and the waiting
//! for shutdown acknowledgements, belong to whoever runs the loop.
use crate::processor::handler::{MessageCommand, MessageHandlerEvent};
use crate::processor::llm::LLMEvent;
use crate::state::{
    recording_cancelled, recording_started, recording_stopped, AppCommand, AppEvent, AppState, LLMState, RecordingState, TranscriptionState,
};
use vstd::prelude::*;

verus! {

/// Events of the speech-to-text worker, as the orchestrator sees them.
#[derive(Clone, Debug)]
pub enum SttNotice {
    /// The first word of an utterance.
    FirstWord(String),
    /// A final transcription (its text).
    Final(String),
    /// A partial transcription.
    Partial(String),
    /// A transcription error.
    Error(String),
    /// The worker shut down.
    Shutdown,
    /// The worker's event channel is closed.
    Disconnected,
}

/// One thing the orchestrator loop received.
#[derive(Clone, Debug)]
pub enum OrchestratorInput {
    /// An external command.
    Command(AppCommand),
    /// The command channel is closed.
    CommandChannelClosed,
    /// A chunk of microphone audio with this many samples.
    Audio(usize),
    /// A speech-to-text event.
    Stt(SttNotice),
    /// A message handler event; `None` when its channel is closed.
    Handler(Option<MessageHandlerEvent>),
    /// A generation event; `None` when its channel is closed.
    Llm(Option<LLMEvent>),
    /// Nothing arrived in time.
    Idle,
}

/// One thing the orchestrator loop does.
#[derive(Clone, Debug)]
pub enum OrchestratorAction {
    /// Send an event to the user interface.
    Emit(AppEvent),
    /// Ask the speech-to-text worker to transcribe what it has buffered.
    SttFlush,
    /// Forward the received audio chunk to the speech-to-text worker.
    SttForwardAudio,
    /// Shut the speech-to-text worker down.
    SttShutdown,
    /// Ask the message handler to check a first word.
    HandlerCheckFirstWord(String),
    /// Ask the message handler to process a transcription.
    HandlerProcess(String),
    /// Shut the message handler down.
    HandlerShutdown,
    /// Ask the generation worker to respond to a text.
    LlmGenerate(String),
    /// Ask the generation worker to stop.
    LlmStop,
    /// Ask the generation worker to forget the conversation.
    LlmClearHistory,
    /// Shut the generation worker down.
    LlmShutdown,
    /// Wait, up to the shutdown timeout, for the three workers to confirm.
    AwaitShutdown,
    /// Leave the loop.
    Exit,
}

/// An event as its kind and text.
pub enum EventView {
    StateChanged,
    Token(Seq<char>),
    Error(Seq<char>),
    Shutdown,
}

/// An action as its kind and text.
pub enum ActionView {
    Emit(EventView),
    SttFlush,
    SttForwardAudio,
    SttShutdown,
    HandlerCheckFirstWord(Seq<char>),
    HandlerProcess(Seq<char>),
    HandlerShutdown,
    LlmGenerate(Seq<char>),
    LlmStop,
    LlmClearHistory,
    LlmShutdown,
    AwaitShutdown,
    Exit,
}

pub open spec fn event_view(e: AppEvent) -> EventView {
    match e {
        AppEvent::StateChanged => EventView::StateChanged,
        AppEvent::LLMToken(t) => EventView::Token(t@),
        AppEvent::Error(m) => EventView::Error(m@),
        AppEvent::Shutdown => EventView::Shutdown,
    }
}

pub open spec fn action_view(a: OrchestratorAction) -> ActionView {
    match a {
        OrchestratorAction::Emit(e) => ActionView::Emit(event_view(e)),
        OrchestratorAction::SttFlush => ActionView::SttFlush,
        OrchestratorAction::SttForwardAudio => ActionView::SttForwardAudio,
        OrchestratorAction::SttShutdown => ActionView::SttShutdown,
        OrchestratorAction::HandlerCheckFirstWord(w) => ActionView::HandlerCheckFirstWord(w@),
        OrchestratorAction::HandlerProcess(t) => ActionView::HandlerProcess(t@),
        OrchestratorAction::HandlerShutdown => ActionView::HandlerShutdown,
        OrchestratorAction::LlmGenerate(t) => ActionView::LlmGenerate(t@),
        OrchestratorAction::LlmStop => ActionView::LlmStop,
        OrchestratorAction::LlmClearHistory => ActionView::LlmClearHistory,
        OrchestratorAction::LlmShutdown => ActionView::LlmShutdown,
        OrchestratorAction::AwaitShutdown => ActionView::AwaitShutdown,
        OrchestratorAction::Exit => ActionView::Exit,
    }
}

/// The actions, as views.
pub open spec fn actions_view(v: Seq<OrchestratorAction>) -> Seq<ActionView> {
    v.map_values(|a: OrchestratorAction| action_view(a))
}

/// The prefix of a transcription error message.
pub open spec fn stt_error_prefix() -> Seq<char> {
    "STT error: "@
}

/// The prefix of a generation error message.
pub open spec fn llm_error_prefix() -> Seq<char> {
    "LLM error: "@
}

/// The actions the orchestrator takes for one input in a state.
pub open spec fn expected_actions(s: AppState, input: OrchestratorInput) -> Seq<ActionView> {
    match input {
        OrchestratorInput::Command(cmd) => match cmd {
            AppCommand::StartRecording => if s.recording == RecordingState::Idle {
                seq![ActionView::Emit(EventView::StateChanged)]
            } else {
                seq![]
            },
            AppCommand::StopRecording => if s.recording == RecordingState::Recording {
                seq![ActionView::Emit(EventView::StateChanged), ActionView::SttFlush]
            } else {
                seq![]
            },
            AppCommand::CancelRecording => if s.recording == RecordingState::Recording {
                seq![ActionView::Emit(EventView::StateChanged)]
            } else {
                seq![]
            },
            AppCommand::SendText(t) => seq![ActionView::HandlerProcess(t@)],
            AppCommand::StopGeneration => if s.llm == LLMState::Generating {
                seq![ActionView::LlmStop]
            } else {
                seq![]
            },
            AppCommand::ClearHistory => seq![ActionView::LlmClearHistory],
            AppCommand::Shutdown => seq![
                ActionView::SttShutdown,
                ActionView::HandlerShutdown,
                ActionView::LlmShutdown,
                ActionView::AwaitShutdown,
                ActionView::Emit(EventView::Shutdown),
                ActionView::Exit,
            ],
        },
        OrchestratorInput::CommandChannelClosed => seq![ActionView::Exit],
        OrchestratorInput::Audio(n) => if s.recording == RecordingState::Recording {
            seq![ActionView::SttForwardAudio]
        } else {
            seq![]
        },
        OrchestratorInput::Stt(ev) => match ev {
            SttNotice::FirstWord(w) => seq![
                ActionView::Emit(EventView::StateChanged),
                ActionView::HandlerCheckFirstWord(w@),
            ],
            SttNotice::Final(t) => seq![
                ActionView::Emit(EventView::StateChanged),
                ActionView::HandlerProcess(t@),
            ],
            SttNotice::Error(e) => seq![ActionView::Emit(EventView::Error(stt_error_prefix() + e@))],
            _ => seq![],
        },
        OrchestratorInput::Handler(ev) => match ev {
            Some(MessageHandlerEvent::CommandDetected(MessageCommand::Stop)) => if s.llm
                == LLMState::Generating {
                seq![ActionView::LlmStop]
            } else {
                seq![]
            },
            Some(MessageHandlerEvent::TextReady(t)) => seq![
                ActionView::Emit(EventView::StateChanged),
                ActionView::LlmGenerate(t@),
            ],
            _ => seq![],
        },
        OrchestratorInput::Llm(ev) => match ev {
            Some(LLMEvent::Token(t)) => seq![ActionView::Emit(EventView::Token(t@))],
            Some(LLMEvent::Complete { response, interrupted }) => seq![
                ActionView::Emit(EventView::StateChanged),
            ],
            Some(LLMEvent::Error(e)) => seq![ActionView::Emit(EventView::Error(llm_error_prefix() + e@))],
            _ => seq![],
        },
        OrchestratorInput::Idle => seq![],
    }
}

/// The application state after a finished generation.
pub open spec fn after_generation(s: AppState, t: AppState, interrupted: bool) -> bool {
    &&& t.llm == LLMState::Idle
    &&& t.response.was_interrupted == interrupted
    &&& t.response.current_text == s.response.current_text
    &&& t.response.last_complete == if s.response.current_text@.len() > 0 {
        Some(s.response.current_text)
    } else {
        s.response.last_complete
    }
    &&& t.recording == s.recording
    &&& t.transcription == s.transcription
    &&& t.audio_buffer_samples == s.audio_buffer_samples
    &&& t.frame_count == s.frame_count
    &&& t.debug_mode == s.debug_mode
    &&& t.max_frames == s.max_frames
}

/// How the state changes for one input: `s` before, `t` after.
pub open spec fn orchestrator_transition(s: AppState, input: OrchestratorInput, t: AppState) -> bool {
    match input {
        OrchestratorInput::Command(cmd) => match cmd {
            AppCommand::StartRecording => if s.recording == RecordingState::Idle {
                t == recording_started(s)
            } else {
                t == s
            },
            AppCommand::StopRecording => if s.recording == RecordingState::Recording {
                t == recording_stopped(s)
            } else {
                t == s
            },
            AppCommand::CancelRecording => if s.recording == RecordingState::Recording {
                t == recording_cancelled(s)
            } else {
                t == s
            },
            _ => t == s,
        },
        OrchestratorInput::Audio(n) => if s.recording == RecordingState::Recording {
            t == AppState { audio_buffer_samples: (s.audio_buffer_samples + n) as usize, ..s }
        } else {
            t == s
        },
        OrchestratorInput::Stt(ev) => match ev {
            SttNotice::FirstWord(w) => t == AppState {
                transcription: TranscriptionState {
                    first_word: Some(w),
                    has_first_word: true,
                    ..s.transcription
                },
                ..s
            },
            SttNotice::Final(text) => t == AppState {
                transcription: TranscriptionState { last_text: Some(text), ..s.transcription },
                recording: RecordingState::Idle,
                audio_buffer_samples: 0,
                ..s
            },
            SttNotice::Error(e) => {
                &&& t.error matches Some(m) && m@ == stt_error_prefix() + e@
                &&& t == AppState {
                    error: t.error,
                    recording: RecordingState::Idle,
                    audio_buffer_samples: 0,
                    ..s
                }
            },
            _ => t == s,
        },
        OrchestratorInput::Handler(ev) => match ev {
            Some(MessageHandlerEvent::TextReady(_)) => {
                &&& t.llm == LLMState::Generating
                &&& t.response.current_text@ == Seq::<char>::empty()
                &&& !t.response.was_interrupted
                &&& t == AppState {
                    llm: LLMState::Generating,
                    response: t.response,
                    ..s
                }
                &&& t.response.last_complete == s.response.last_complete
            },
            _ => t == s,
        },
        OrchestratorInput::Llm(ev) => match ev {
            Some(LLMEvent::Token(tok)) => {
                &&& t.response.current_text@ == s.response.current_text@ + tok@
                &&& t.response.was_interrupted == s.response.was_interrupted
                &&& t.response.last_complete == s.response.last_complete
                &&& t == AppState { response: t.response, ..s }
            },
            Some(LLMEvent::Complete { response, interrupted }) => {
                &&& after_generation(s, t, interrupted)
                &&& t.error == s.error
            },
            Some(LLMEvent::Error(e)) => {
                &&& after_generation(s, t, true)
                &&& t.error matches Some(m) && m@ == llm_error_prefix() + e@
            },
            _ => t == s,
        },
        _ => t == s,
    }
}

/// Law: a voice turn runs the pipeline round: from idle, start, an audio
/// chunk (counted), stop and the final transcription leave it idle again with that
/// transcription kept, no error, the sample count reset, and generation
/// untouched.
pub proof fn law_voice_turn(
    s: AppState,
    t1: AppState,
    t2: AppState,
    t3: AppState,
    t4: AppState,
    n: usize,
    text: String,
)
    requires
        s.recording == RecordingState::Idle,
        s.audio_buffer_samples + n <= usize::MAX,
        orchestrator_transition(s, OrchestratorInput::Command(AppCommand::StartRecording), t1),
        orchestrator_transition(t1, OrchestratorInput::Audio(n), t2),
        orchestrator_transition(t2, OrchestratorInput::Command(AppCommand::StopRecording), t3),
        orchestrator_transition(t3, OrchestratorInput::Stt(SttNotice::Final(text)), t4),
    ensures
        t1.recording == RecordingState::Recording,
        t2.audio_buffer_samples == s.audio_buffer_samples + n,
        t3.recording == RecordingState::Processing,
        t4.recording == RecordingState::Idle,
        t4.transcription.last_text == Some(text),
        t4.error.is_none(),
        t4.audio_buffer_samples == 0,
        t4.llm == s.llm,
        t4.response == s.response,
{
}

/// Law: commands only act in their state: start only from idle, stop and
/// cancel only while recording; audio only counts while recording.
/// Anything else leaves the state as it was.
pub proof fn law_commands_guarded(s: AppState, t: AppState, input: OrchestratorInput)
    requires
        orchestrator_transition(s, input, t),
    ensures
        input == OrchestratorInput::Command(AppCommand::StartRecording) && s.recording
            != RecordingState::Idle ==> t == s,
        input == OrchestratorInput::Command(AppCommand::StopRecording) && s.recording
            != RecordingState::Recording ==> t == s,
        input == OrchestratorInput::Command(AppCommand::CancelRecording) && s.recording
            != RecordingState::Recording ==> t == s,
        input is Audio && s.recording != RecordingState::Recording ==> t == s,
{
}

/// Law: a request to stop generating reaches the generation worker
/// exactly while it generates, and changes nothing in the shared state.
pub proof fn law_stop_generation_reaches_worker(s: AppState, t: AppState)
    requires
        orchestrator_transition(
            s,
            OrchestratorInput::Command(AppCommand::StopGeneration),
            t,
        ),
    ensures
        s.llm == LLMState::Generating ==> expected_actions(
            s,
            OrchestratorInput::Command(AppCommand::StopGeneration),
        ) == seq![ActionView::LlmStop],
        s.llm != LLMState::Generating ==> expected_actions(
            s,
            OrchestratorInput::Command(AppCommand::StopGeneration),
        ).len() == 0,
        t == s,
{
}

/// A received audio chunk, counted while recording, keeps the sample count
/// within `usize`.
pub open spec fn audio_count_fits(s: AppState, input: OrchestratorInput) -> bool {
    match input {
        OrchestratorInput::Audio(n) => s.recording == RecordingState::Recording
            ==> s.audio_buffer_samples + n <= usize::MAX,
        _ => true,
    }
}

/// `prefix` followed by `rest`.
fn prefixed(prefix: &str, rest: &str) -> (s: String)
    ensures
        s@ == prefix@ + rest@,
{
    let mut s = String::from_str(prefix);
    s.append(rest);
    s
}

/// Decides what one input does: updates the shared state and returns the
/// messages to send, in order. Recording starts only from idle, stops or
/// cancels only while recording; audio counts only while recording; a
/// final transcription or an error ends processing and resets the sample
/// count; text ready for the language model starts a generation; a stop
/// command reaches the generation worker only while it generates; a
/// request to clear the history is passed on to the generation worker.
pub fn orchestrator_step(state: &mut AppState, input: OrchestratorInput) -> (actions: Vec<
    OrchestratorAction,
>)
    requires
        audio_count_fits(*old(state), input),
    ensures
        orchestrator_transition(*old(state), input, *final(state)),
        actions_view(actions@) == expected_actions(*old(state), input),
        input matches OrchestratorInput::Command(AppCommand::StopGeneration) ==> if old(state).llm
            == LLMState::Generating {
            actions@.len() == 1 && actions@[0] is LlmStop
        } else {
            actions@.len() == 0
        },
{
    let ghost s0 = *state;
    let mut actions: Vec<OrchestratorAction> = Vec::new();
    match input {
        OrchestratorInput::Command(cmd) => match cmd {
            AppCommand::StartRecording => {
                if state.recording.is_idle() {
                    state.start_recording();
                    actions.push(OrchestratorAction::Emit(AppEvent::StateChanged));
                }
            },
            AppCommand::StopRecording => {
                if state.recording.is_recording() {
                    state.stop_recording();
                    actions.push(OrchestratorAction::Emit(AppEvent::StateChanged));
                    actions.push(OrchestratorAction::SttFlush);
                }
            },
            AppCommand::CancelRecording => {
                if state.recording.is_recording() {
                    state.cancel_recording();
                    actions.push(OrchestratorAction::Emit(AppEvent::StateChanged));
                }
            },
            AppCommand::SendText(text) => {
                actions.push(OrchestratorAction::HandlerProcess(text));
            },
            AppCommand::StopGeneration => {
                if state.llm.is_generating() {
                    actions.push(OrchestratorAction::LlmStop);
                }
            },
            AppCommand::ClearHistory => {
                actions.push(OrchestratorAction::LlmClearHistory);
            },
            AppCommand::Shutdown => {
                actions.push(OrchestratorAction::SttShutdown);
                actions.push(OrchestratorAction::HandlerShutdown);
                actions.push(OrchestratorAction::LlmShutdown);
                actions.push(OrchestratorAction::AwaitShutdown);
                actions.push(OrchestratorAction::Emit(AppEvent::Shutdown));
                actions.push(OrchestratorAction::Exit);
            },
        },
        OrchestratorInput::CommandChannelClosed => {
            actions.push(OrchestratorAction::Exit);
        },
        OrchestratorInput::Audio(n) => {
            if state.recording.is_recording() {
                state.audio_buffer_samples = state.audio_buffer_samples + n;
                actions.push(OrchestratorAction::SttForwardAudio);
            }
        },
        OrchestratorInput::Stt(ev) => match ev {
            SttNotice::FirstWord(word) => {
                let w2 = word.clone();
                state.transcription.set_first_word(word);
                actions.push(OrchestratorAction::Emit(AppEvent::StateChanged));
                actions.push(OrchestratorAction::HandlerCheckFirstWord(w2));
            },
            SttNotice::Final(text) => {
                let t2 = text.clone();
                state.transcription.set_transcription(text);
                state.finish_processing();
                state.audio_buffer_samples = 0;
                actions.push(OrchestratorAction::Emit(AppEvent::StateChanged));
                actions.push(OrchestratorAction::HandlerProcess(t2));
            },
            SttNotice::Error(err) => {
                state.set_error(prefixed("STT error: ", err.as_str()));
                state.finish_processing();
                state.audio_buffer_samples = 0;
                actions.push(OrchestratorAction::Emit(AppEvent::Error(prefixed("STT error: ", err.as_str()))));
            },
            _ => {},
        },
        OrchestratorInput::Handler(ev) => match ev {
            Some(MessageHandlerEvent::CommandDetected(MessageCommand::Stop)) => {
                if state.llm.is_generating() {
                    actions.push(OrchestratorAction::LlmStop);
                }
            },
            Some(MessageHandlerEvent::TextReady(text)) => {
                state.start_generation();
                actions.push(OrchestratorAction::Emit(AppEvent::StateChanged));
                actions.push(OrchestratorAction::LlmGenerate(text));
            },
            _ => {},
        },
        OrchestratorInput::Llm(ev) => match ev {
            Some(LLMEvent::Token(token)) => {
                state.response.append_token(token.as_str());
                actions.push(OrchestratorAction::Emit(AppEvent::LLMToken(token)));
            },
            Some(LLMEvent::Complete { response, interrupted }) => {
                state.finish_generation(interrupted);
                actions.push(OrchestratorAction::Emit(AppEvent::StateChanged));
            },
            Some(LLMEvent::Error(err)) => {
                state.set_error(prefixed("LLM error: ", err.as_str()));
                state.finish_generation(true);
                actions.push(OrchestratorAction::Emit(AppEvent::Error(prefixed("LLM error: ", err.as_str()))));
            },
            _ => {},
        },
        OrchestratorInput::Idle => {},
    }
    proof {
        assert(actions_view(actions@) =~= expected_actions(s0, input));
    }
    actions
}

/// Which workers have confirmed shutdown.
pub struct ShutdownTracker {
    pub stt: bool,
    pub handler: bool,
    pub llm: bool,
}

impl ShutdownTracker {
    /// No confirmation yet.
    pub fn new() -> (t: Self)
        ensures
            !t.stt && !t.handler && !t.llm,
    {
        ShutdownTracker { stt: false, handler: false, llm: false }
    }

    /// Notes the events received in one round of waiting.
    pub fn note(
        &mut self,
        stt: Option<SttNotice>,
        handler: Option<MessageHandlerEvent>,
        llm: Option<LLMEvent>,
    )
        ensures
            final(self).stt == (old(self).stt || stt matches Some(SttNotice::Shutdown)),
            final(self).handler == (old(self).handler || handler matches Some(
                MessageHandlerEvent::Shutdown,
            )),
            final(self).llm == (old(self).llm || llm matches Some(LLMEvent::Shutdown)),
    {
        if let Some(SttNotice::Shutdown) = stt {
            self.stt = true;
        }
        if let Some(MessageHandlerEvent::Shutdown) = handler {
            self.handler = true;
        }
        if let Some(LLMEvent::Shutdown) = llm {
            self.llm = true;
        }
    }

    /// Whether all three workers confirmed.
    pub fn all_confirmed(&self) -> (b: bool)
        ensures
            b == (self.stt && self.handler && self.llm),
    {
        self.stt && self.handler && self.llm
    }
}

} // verus!
