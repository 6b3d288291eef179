//! The application state shared by the orchestrator, the user interface
//! and the scripted test runner, with its transitions.
use vstd::prelude::*;

verus! {

/// A copy of an optional string.
pub fn copy_opt_string(o: &Option<String>) -> (r: Option<String>)
    ensures
        r == *o,
{
    match o {
        Some(s) => Some(s.clone()),
        None => None,
    }
}

/// Recording pipeline state.
#[derive(Clone, Copy, Debug, PartialEq, Eq, Structural)]
pub enum RecordingState {
    /// No recording in progress.
    Idle,
    /// Recording audio from the microphone.
    Recording,
    /// Recording stopped; the audio is being transcribed.
    Processing,
}

impl Default for RecordingState {
    fn default() -> (s: Self)
        ensures
            s == RecordingState::Idle,
    {
        RecordingState::Idle
    }
}

impl RecordingState {
    /// Whether recording.
    pub fn is_recording(&self) -> (b: bool)
        ensures
            b == (*self == RecordingState::Recording),
    {
        matches!(self, RecordingState::Recording)
    }

    /// Whether transcribing.
    pub fn is_processing(&self) -> (b: bool)
        ensures
            b == (*self == RecordingState::Processing),
    {
        matches!(self, RecordingState::Processing)
    }

    /// Whether idle.
    pub fn is_idle(&self) -> (b: bool)
        ensures
            b == (*self == RecordingState::Idle),
    {
        matches!(self, RecordingState::Idle)
    }

    /// Whether recording or transcribing.
    pub fn is_active(&self) -> (b: bool)
        ensures
            b == (*self != RecordingState::Idle),
    {
        !self.is_idle()
    }

    /// The state's name: "Idle", "Recording" or "Processing".
    pub fn name(&self) -> (s: &'static str)
        ensures
            s@ == recording_state_name(*self),
    {
        match self {
            RecordingState::Idle => "Idle",
            RecordingState::Recording => "Recording",
            RecordingState::Processing => "Processing",
        }
    }

    /// The state as displayed: its name.
    pub fn to_display_string(&self) -> (s: String)
        ensures
            s@ == recording_state_name(*self),
    {
        String::from_str(self.name())
    }
}

/// The name of a recording state.
pub open spec fn recording_state_name(s: RecordingState) -> Seq<char> {
    match s {
        RecordingState::Idle => "Idle"@,
        RecordingState::Recording => "Recording"@,
        RecordingState::Processing => "Processing"@,
    }
}

/// Language model generation state.
#[derive(Clone, Copy, Debug, PartialEq, Eq, Structural)]
pub enum LLMState {
    /// Ready for input.
    Idle,
    /// Generating a response.
    Generating,
}

impl Default for LLMState {
    fn default() -> (s: Self)
        ensures
            s == LLMState::Idle,
    {
        LLMState::Idle
    }
}

/// The name of a generation state.
pub open spec fn llm_state_name(s: LLMState) -> Seq<char> {
    match s {
        LLMState::Idle => "Idle"@,
        LLMState::Generating => "Generating"@,
    }
}

impl LLMState {
    /// Whether generating.
    pub fn is_generating(&self) -> (b: bool)
        ensures
            b == (*self == LLMState::Generating),
    {
        matches!(self, LLMState::Generating)
    }

    /// Whether idle.
    pub fn is_idle(&self) -> (b: bool)
        ensures
            b == (*self == LLMState::Idle),
    {
        matches!(self, LLMState::Idle)
    }

    /// The state's name: "Idle" or "Generating".
    pub fn name(&self) -> (s: &'static str)
        ensures
            s@ == llm_state_name(*self),
    {
        match self {
            LLMState::Idle => "Idle",
            LLMState::Generating => "Generating",
        }
    }

    /// The state as displayed: its name.
    pub fn to_display_string(&self) -> (s: String)
        ensures
            s@ == llm_state_name(*self),
    {
        String::from_str(self.name())
    }
}

/// Transcription results.
#[derive(Clone, Debug)]
pub struct TranscriptionState {
    /// The last complete transcription.
    pub last_text: Option<String>,
    /// Whether a first word was detected.
    pub has_first_word: bool,
    /// The first word detected, if any.
    pub first_word: Option<String>,
}

impl TranscriptionState {
    /// An empty transcription state.
    pub fn new() -> (s: Self)
        ensures
            s.last_text.is_none(),
            !s.has_first_word,
            s.first_word.is_none(),
    {
        TranscriptionState { last_text: None, has_first_word: false, first_word: None }
    }

    /// An exact copy.
    pub fn copy(&self) -> (s: Self)
        ensures
            s == *self,
    {
        TranscriptionState {
            last_text: copy_opt_string(&self.last_text),
            has_first_word: self.has_first_word,
            first_word: copy_opt_string(&self.first_word),
        }
    }

    /// Forgets everything, for a new recording.
    pub fn clear(&mut self)
        ensures
            final(self).last_text.is_none(),
            !final(self).has_first_word,
            final(self).first_word.is_none(),
    {
        self.last_text = None;
        self.has_first_word = false;
        self.first_word = None;
    }

    /// Records the first word.
    pub fn set_first_word(&mut self, word: String)
        ensures
            final(self).first_word == Some(word),
            final(self).has_first_word,
            final(self).last_text == old(self).last_text,
    {
        self.first_word = Some(word);
        self.has_first_word = true;
    }

    /// Records the final transcription.
    pub fn set_transcription(&mut self, text: String)
        ensures
            final(self).last_text == Some(text),
            final(self).has_first_word == old(self).has_first_word,
            final(self).first_word == old(self).first_word,
    {
        self.last_text = Some(text);
    }
}

impl Default for TranscriptionState {
    fn default() -> (s: Self)
        ensures
            s.last_text.is_none(),
            !s.has_first_word,
            s.first_word.is_none(),
    {
        TranscriptionState::new()
    }
}

/// The language model's response.
#[derive(Clone, Debug)]
pub struct ResponseState {
    /// The response being generated: the tokens received so far.
    pub current_text: String,
    /// Whether the last response was interrupted.
    pub was_interrupted: bool,
    /// The last complete response.
    pub last_complete: Option<String>,
}

impl ResponseState {
    /// An empty response state.
    pub fn new() -> (s: Self)
        ensures
            s.current_text@ == Seq::<char>::empty(),
            !s.was_interrupted,
            s.last_complete.is_none(),
    {
        ResponseState { current_text: String::new(), was_interrupted: false, last_complete: None }
    }

    /// An exact copy.
    pub fn copy(&self) -> (s: Self)
        ensures
            s == *self,
    {
        ResponseState {
            current_text: self.current_text.clone(),
            was_interrupted: self.was_interrupted,
            last_complete: copy_opt_string(&self.last_complete),
        }
    }

    /// Clears the current text for a new generation.
    pub fn start_generation(&mut self)
        ensures
            final(self).current_text@ == Seq::<char>::empty(),
            !final(self).was_interrupted,
            final(self).last_complete == old(self).last_complete,
    {
        self.current_text = String::new();
        self.was_interrupted = false;
    }

    /// Appends a streamed token.
    pub fn append_token(&mut self, token: &str)
        ensures
            final(self).current_text@ == old(self).current_text@ + token@,
            final(self).was_interrupted == old(self).was_interrupted,
            final(self).last_complete == old(self).last_complete,
    {
        self.current_text.append(token);
    }

    /// Marks the generation complete; a non-empty response becomes the last
    /// complete one.
    pub fn complete(&mut self, interrupted: bool)
        ensures
            final(self).was_interrupted == interrupted,
            final(self).current_text == old(self).current_text,
            final(self).last_complete == if old(self).current_text@.len() > 0 {
                Some(old(self).current_text)
            } else {
                old(self).last_complete
            },
    {
        self.was_interrupted = interrupted;
        if !self.current_text.as_str().is_empty() {
            self.last_complete = Some(self.current_text.clone());
        }
    }

    /// Forgets everything.
    pub fn clear(&mut self)
        ensures
            final(self).current_text@ == Seq::<char>::empty(),
            !final(self).was_interrupted,
            final(self).last_complete.is_none(),
    {
        self.current_text = String::new();
        self.was_interrupted = false;
        self.last_complete = None;
    }
}

impl Default for ResponseState {
    fn default() -> (s: Self)
        ensures
            s.current_text@ == Seq::<char>::empty(),
            !s.was_interrupted,
            s.last_complete.is_none(),
    {
        ResponseState::new()
    }
}

/// The application state: the single source of truth shared by the
/// orchestrator, the user interface and the test runner.
#[derive(Clone, Debug)]
pub struct AppState {
    /// Recording / transcription pipeline state.
    pub recording: RecordingState,
    /// Generation state.
    pub llm: LLMState,
    /// Transcription results.
    pub transcription: TranscriptionState,
    /// The language model's response.
    pub response: ResponseState,
    /// The current error, if any.
    pub error: Option<String>,
    /// Samples received in the current recording.
    pub audio_buffer_samples: usize,
    /// Frames drawn.
    pub frame_count: u64,
    /// Whether debug mode is on.
    pub debug_mode: bool,
    /// Frames before exit; 0 means no limit.
    pub max_frames: u64,
}

/// An immutable copy of the application state.
#[derive(Clone, Debug)]
pub struct AppStateSnapshot {
    pub recording: RecordingState,
    pub llm: LLMState,
    pub transcription: TranscriptionState,
    pub response: ResponseState,
    pub error: Option<String>,
    pub audio_buffer_samples: usize,
    pub frame_count: u64,
    pub debug_mode: bool,
    pub max_frames: u64,
}

/// The state at start-up: idle, nothing recorded or generated.
pub open spec fn initial_state(s: AppState) -> bool {
    &&& s.recording == RecordingState::Idle
    &&& s.llm == LLMState::Idle
    &&& s.transcription.last_text.is_none()
    &&& !s.transcription.has_first_word
    &&& s.transcription.first_word.is_none()
    &&& s.response.current_text@ == Seq::<char>::empty()
    &&& !s.response.was_interrupted
    &&& s.response.last_complete.is_none()
    &&& s.error.is_none()
    &&& s.audio_buffer_samples == 0
    &&& s.frame_count == 0
    &&& !s.debug_mode
    &&& s.max_frames == 0
}

/// Whether a snapshot holds exactly the fields of a state.
pub open spec fn snapshot_of(snap: AppStateSnapshot, s: AppState) -> bool {
    &&& snap.recording == s.recording
    &&& snap.llm == s.llm
    &&& snap.transcription == s.transcription
    &&& snap.response == s.response
    &&& snap.error == s.error
    &&& snap.audio_buffer_samples == s.audio_buffer_samples
    &&& snap.frame_count == s.frame_count
    &&& snap.debug_mode == s.debug_mode
    &&& snap.max_frames == s.max_frames
}

/// Whether nothing is recorded, transcribed or generated.
pub open spec fn state_is_idle(s: AppState) -> bool {
    s.recording == RecordingState::Idle && s.llm == LLMState::Idle
}

/// A transcription state with nothing recorded.
pub open spec fn no_transcription() -> TranscriptionState {
    TranscriptionState { last_text: None, has_first_word: false, first_word: None }
}

/// The state after recording starts: the previous transcription and error
/// are forgotten.
pub open spec fn recording_started(s: AppState) -> AppState {
    AppState {
        recording: RecordingState::Recording,
        transcription: no_transcription(),
        error: None,
        ..s
    }
}

/// The state after recording stops: the audio is being transcribed.
pub open spec fn recording_stopped(s: AppState) -> AppState {
    AppState { recording: RecordingState::Processing, ..s }
}

/// The state after recording is cancelled: idle, nothing transcribed.
pub open spec fn recording_cancelled(s: AppState) -> AppState {
    AppState { recording: RecordingState::Idle, transcription: no_transcription(), ..s }
}

/// The state after transcription finished.
pub open spec fn processing_finished(s: AppState) -> AppState {
    AppState { recording: RecordingState::Idle, ..s }
}

/// Law: a recording that is started, stopped and transcribed, with the
/// transcription `text` recorded meanwhile, leaves the pipeline idle with
/// that transcription and no error; generation, the response and the
/// counters are untouched.
pub proof fn law_recording_cycle(s: AppState, text: String)
    ensures
        ({
            let mid = recording_stopped(recording_started(s));
            let with_text = AppState {
                transcription: TranscriptionState { last_text: Some(text), ..mid.transcription },
                ..mid
            };
            let end = processing_finished(with_text);
            &&& end.recording == RecordingState::Idle
            &&& end.transcription.last_text == Some(text)
            &&& end.error.is_none()
            &&& end.llm == s.llm
            &&& end.response == s.response
            &&& end.audio_buffer_samples == s.audio_buffer_samples
            &&& end.frame_count == s.frame_count
            &&& end.max_frames == s.max_frames
        }),
{
}

/// Law: cancelling a recording just started returns the pipeline to idle
/// with nothing transcribed and no error, whatever was there before;
/// everything else is as it was.
pub proof fn law_cancel_after_start(s: AppState)
    ensures
        recording_cancelled(recording_started(s)) == (AppState {
            recording: RecordingState::Idle,
            transcription: no_transcription(),
            error: None,
            ..s
        }),
{
}

/// Law: from the start-up state, a full recording cycle without a
/// transcription leaves the application idle again.
pub proof fn law_idle_after_cycle(s: AppState)
    requires
        initial_state(s),
    ensures
        state_is_idle(processing_finished(recording_stopped(recording_started(s)))),
        state_is_idle(recording_cancelled(recording_started(s))),
        !state_is_idle(recording_started(s)),
        !state_is_idle(recording_stopped(recording_started(s))),
{
}

impl AppState {
    /// The start-up state.
    pub fn new() -> (s: Self)
        ensures
            initial_state(s),
    {
        AppState {
            recording: RecordingState::Idle,
            llm: LLMState::Idle,
            transcription: TranscriptionState::new(),
            response: ResponseState::new(),
            error: None,
            audio_buffer_samples: 0,
            frame_count: 0,
            debug_mode: false,
            max_frames: 0,
        }
    }

    /// An immutable copy of the state.
    pub fn snapshot(&self) -> (snap: AppStateSnapshot)
        ensures
            snapshot_of(snap, *self),
    {
        AppStateSnapshot {
            recording: self.recording,
            llm: self.llm,
            transcription: self.transcription.copy(),
            response: self.response.copy(),
            error: copy_opt_string(&self.error),
            audio_buffer_samples: self.audio_buffer_samples,
            frame_count: self.frame_count,
            debug_mode: self.debug_mode,
            max_frames: self.max_frames,
        }
    }

    /// Whether nothing is recorded, transcribed or generated.
    pub fn is_idle(&self) -> (b: bool)
        ensures
            b == state_is_idle(*self),
    {
        self.recording.is_idle() && self.llm.is_idle()
    }

    /// Whether recording, transcribing or generating.
    pub fn is_busy(&self) -> (b: bool)
        ensures
            b == !state_is_idle(*self),
    {
        !self.is_idle()
    }

    /// Sets the current error.
    pub fn set_error(&mut self, error: String)
        ensures
            *final(self) == (AppState { error: Some(error), ..*old(self) }),
    {
        self.error = Some(error);
    }

    /// Clears the current error.
    pub fn clear_error(&mut self)
        ensures
            *final(self) == (AppState { error: None, ..*old(self) }),
    {
        self.error = None;
    }

    /// Starts recording: forgets the previous transcription and error.
    pub fn start_recording(&mut self)
        ensures
            *final(self) == recording_started(*old(self)),
    {
        self.recording = RecordingState::Recording;
        self.transcription.clear();
        self.clear_error();
    }

    /// Stops recording and begins transcription.
    pub fn stop_recording(&mut self)
        ensures
            *final(self) == recording_stopped(*old(self)),
    {
        self.recording = RecordingState::Processing;
    }

    /// Cancels recording without transcription.
    pub fn cancel_recording(&mut self)
        ensures
            *final(self) == recording_cancelled(*old(self)),
    {
        self.recording = RecordingState::Idle;
        self.transcription.clear();
    }

    /// Transcription finished.
    pub fn finish_processing(&mut self)
        ensures
            *final(self) == processing_finished(*old(self)),
    {
        self.recording = RecordingState::Idle;
    }

    /// Counts a drawn frame and tells whether the frame limit is reached
    /// (a limit of 0 means none); the interface then closes.
    pub fn count_frame(&mut self) -> (limit_reached: bool)
        requires
            old(self).frame_count < u64::MAX,
        ensures
            *final(self) == (AppState { frame_count: (old(self).frame_count + 1) as u64, ..*old(self) }),
            limit_reached == (old(self).max_frames > 0 && old(self).frame_count + 1
                >= old(self).max_frames),
    {
        self.frame_count = self.frame_count + 1;
        self.max_frames > 0 && self.frame_count >= self.max_frames
    }

    /// Starts a generation: clears the current response text.
    pub fn start_generation(&mut self)
        ensures
            final(self).llm == LLMState::Generating,
            final(self).response.current_text@ == Seq::<char>::empty(),
            !final(self).response.was_interrupted,
            final(self).response.last_complete == old(self).response.last_complete,
            final(self).recording == old(self).recording,
            final(self).transcription == old(self).transcription,
            final(self).error == old(self).error,
            final(self).audio_buffer_samples == old(self).audio_buffer_samples,
            final(self).frame_count == old(self).frame_count,
            final(self).debug_mode == old(self).debug_mode,
            final(self).max_frames == old(self).max_frames,
    {
        self.llm = LLMState::Generating;
        self.response.start_generation();
    }

    /// Finishes a generation; a non-empty response becomes the last
    /// complete one.
    pub fn finish_generation(&mut self, interrupted: bool)
        ensures
            final(self).llm == LLMState::Idle,
            final(self).response.was_interrupted == interrupted,
            final(self).response.current_text == old(self).response.current_text,
            final(self).response.last_complete == if old(self).response.current_text@.len() > 0 {
                Some(old(self).response.current_text)
            } else {
                old(self).response.last_complete
            },
            final(self).recording == old(self).recording,
            final(self).transcription == old(self).transcription,
            final(self).error == old(self).error,
            final(self).audio_buffer_samples == old(self).audio_buffer_samples,
            final(self).frame_count == old(self).frame_count,
            final(self).debug_mode == old(self).debug_mode,
            final(self).max_frames == old(self).max_frames,
    {
        self.llm = LLMState::Idle;
        self.response.complete(interrupted);
    }
}

impl Default for AppState {
    fn default() -> (s: Self)
        ensures
            initial_state(s),
    {
        AppState::new()
    }
}

/// Requests to change the application state.
#[derive(Clone, Debug)]
pub enum AppCommand {
    /// Start recording audio.
    StartRecording,
    /// Stop recording and transcribe.
    StopRecording,
    /// Cancel recording without transcription.
    CancelRecording,
    /// Send text straight to the language model.
    SendText(String),
    /// Stop the current generation.
    StopGeneration,
    /// Clear the conversation history.
    ClearHistory,
    /// Shut every processor down.
    Shutdown,
}

/// Notifications for the user interface.
#[derive(Clone, Debug)]
pub enum AppEvent {
    /// The state changed.
    StateChanged,
    /// A streamed token.
    LLMToken(String),
    /// An error occurred.
    Error(String),
    /// Shutdown complete.
    Shutdown,
}

} // verus!
