//! The user interface's decisions: its own recording state and waveform,
//! the record button, the labels it shows, and what a session of the
//! interface does with recording requests, transcription events and
//! scripted test commands. Drawing, the microphone, resampling and the
//! transcription worker belong to whoever runs the interface.
use crate::audio::buffer::after_write;
use crate::processor::orchestrator::SttNotice;
use crate::state::{LLMState, RecordingState, ResponseState};
use crate::testconfig::runner::{AssertionContext, AssertionResult, TestCommand};
use crate::state::copy_opt_string;
use vstd::prelude::*;

verus! {

/// The most recent samples kept for the waveform.
pub const WAVEFORM_SAMPLES: usize = 4096;

/// The interface's state: its recording state and the recent samples
/// drawn as a waveform (as `f32` bit patterns).
pub struct AppState {
    pub recording_state: RecordingState,
    pub waveform_data: Vec<u32>,
}

impl AppState {
    /// Idle, no waveform.
    pub fn new() -> (s: Self)
        ensures
            s.recording_state == RecordingState::Idle,
            s.waveform_data@.len() == 0,
    {
        AppState { recording_state: RecordingState::Idle, waveform_data: Vec::new() }
    }

    /// Starts recording with an empty waveform.
    pub fn start_recording(&mut self)
        ensures
            final(self).recording_state == RecordingState::Recording,
            final(self).waveform_data@.len() == 0,
    {
        self.recording_state = RecordingState::Recording;
        self.waveform_data = Vec::new();
    }

    /// Stops recording for transcription; only while recording.
    pub fn stop_recording(&mut self)
        ensures
            final(self).recording_state == if old(self).recording_state
                == RecordingState::Recording {
                RecordingState::Processing
            } else {
                old(self).recording_state
            },
            final(self).waveform_data@ == old(self).waveform_data@,
    {
        if self.recording_state != RecordingState::Recording {
            return;
        }
        self.recording_state = RecordingState::Processing;
    }

    /// Cancels recording: idle, empty waveform.
    pub fn cancel_recording(&mut self)
        ensures
            final(self).recording_state == RecordingState::Idle,
            final(self).waveform_data@.len() == 0,
    {
        self.recording_state = RecordingState::Idle;
        self.waveform_data = Vec::new();
    }

    /// Transcription is over: idle again; the waveform stays.
    pub fn finish_processing(&mut self)
        ensures
            final(self).recording_state == RecordingState::Idle,
            final(self).waveform_data@ == old(self).waveform_data@,
    {
        self.recording_state = RecordingState::Idle;
    }

    /// Whether recording.
    pub fn is_recording(&self) -> (b: bool)
        ensures
            b == (self.recording_state == RecordingState::Recording),
    {
        self.recording_state == RecordingState::Recording
    }

    /// Whether transcribing.
    pub fn is_processing(&self) -> (b: bool)
        ensures
            b == (self.recording_state == RecordingState::Processing),
    {
        self.recording_state == RecordingState::Processing
    }
}

/// The recording state after a press of the record button: nothing while
/// transcribing; a click toggles recording; a right-click while it was
/// recording cancels.
pub open spec fn after_button(r: RecordingState, clicked: bool, secondary_clicked: bool) -> RecordingState {
    if r == RecordingState::Processing {
        r
    } else {
        let toggled = if clicked {
            if r == RecordingState::Recording {
                RecordingState::Processing
            } else {
                RecordingState::Recording
            }
        } else {
            r
        };
        if secondary_clicked && r == RecordingState::Recording {
            RecordingState::Idle
        } else {
            toggled
        }
    }
}

/// The record button's click and right-click.
pub fn press_record_button(state: &mut AppState, clicked: bool, secondary_clicked: bool)
    ensures
        final(state).recording_state == after_button(
            old(state).recording_state,
            clicked,
            secondary_clicked,
        ),
{
    let is_recording = state.recording_state == RecordingState::Recording;
    let is_processing = state.recording_state == RecordingState::Processing;
    if is_processing {
        return;
    }
    if clicked {
        if is_recording {
            state.stop_recording();
        } else {
            state.start_recording();
        }
    }
    if secondary_clicked && is_recording {
        state.cancel_recording();
    }
}

/// The space bar toggles recording unless a widget has the focus; nothing
/// while transcribing.
pub fn press_space(state: &mut AppState, space_pressed: bool, widget_focused: bool)
    ensures
        final(state).recording_state == if old(state).recording_state == RecordingState::Processing
            || !space_pressed || widget_focused {
            old(state).recording_state
        } else if old(state).recording_state == RecordingState::Recording {
            RecordingState::Processing
        } else {
            RecordingState::Recording
        },
{
    if state.recording_state == RecordingState::Processing {
        return;
    }
    if space_pressed && !widget_focused {
        if state.recording_state == RecordingState::Recording {
            state.stop_recording();
        } else {
            state.start_recording();
        }
    }
}

/// The record button's tooltip.
pub fn record_tooltip(r: RecordingState) -> (s: &'static str)
    ensures
        s@ == match r {
            RecordingState::Idle => "Click to record (Space)"@,
            RecordingState::Recording => "Click to stop (Space)\nRight-click to cancel"@,
            RecordingState::Processing => "Processing audio..."@,
        },
{
    match r {
        RecordingState::Idle => "Click to record (Space)",
        RecordingState::Recording => "Click to stop (Space)\nRight-click to cancel",
        RecordingState::Processing => "Processing audio...",
    }
}

/// The label under the record button.
pub fn record_status_text(r: RecordingState) -> (s: &'static str)
    ensures
        s@ == match r {
            RecordingState::Idle => "Press to record"@,
            RecordingState::Recording => "Recording..."@,
            RecordingState::Processing => "Processing..."@,
        },
{
    match r {
        RecordingState::Idle => "Press to record",
        RecordingState::Recording => "Recording...",
        RecordingState::Processing => "Processing...",
    }
}

/// The response's status label: generating, interrupted, complete (some
/// text or a finished response), or nothing yet.
pub open spec fn response_status_text(llm: LLMState, r: ResponseState) -> Seq<char> {
    if llm == LLMState::Generating {
        "Generating..."@
    } else if r.was_interrupted {
        "Interrupted"@
    } else if r.current_text@.len() > 0 || r.last_complete.is_some() {
        "Complete"@
    } else {
        ""@
    }
}

/// The response's status label.
pub fn response_status(llm: LLMState, response: &ResponseState) -> (s: &'static str)
    ensures
        s@ == response_status_text(llm, *response),
{
    if llm == LLMState::Generating {
        "Generating..."
    } else if response.was_interrupted {
        "Interrupted"
    } else if !response.current_text.as_str().is_empty() || response.last_complete.is_some() {
        "Complete"
    } else {
        ""
    }
}

/// The header of the debug panel: "BUSY" while recording, transcribing or
/// generating, "IDLE" otherwise.
pub fn busy_label(recording: RecordingState, llm: LLMState) -> (s: &'static str)
    ensures
        s@ == if recording != RecordingState::Idle || llm == LLMState::Generating {
            "BUSY"@
        } else {
            "IDLE"@
        },
{
    if recording.is_active() || llm.is_generating() {
        "BUSY"
    } else {
        "IDLE"
    }
}

/// What the session asks of whoever runs it when recording stops.
#[derive(Clone, Copy, Debug, PartialEq, Eq, Structural)]
pub enum StopPlan {
    /// It was not recording: nothing to do.
    Ignored,
    /// Take the buffered audio, resample it and send it for transcription.
    Transcribe,
    /// Nothing to transcribe: the session is idle again.
    Finished,
}

/// What the session does for a scripted command.
#[derive(Clone, Copy, Debug, PartialEq, Eq, Structural)]
pub enum UiAction {
    /// Start recording (see `begin_recording`).
    StartRecording,
    /// Stop recording (see `stop_recording`).
    StopRecording,
    /// Cancel recording (see `cancel_recording`).
    CancelRecording,
    /// Nothing more to do.
    Nothing,
    /// A command the interface does not carry out.
    Unhandled,
}

/// The interface's session: its state, what the transcription gave, and
/// the exit code a scenario asked for.
pub struct Session {
    pub ui: AppState,
    pub has_first_word: bool,
    pub has_transcription: bool,
    pub last_transcription: Option<String>,
    pub pending_exit: Option<i32>,
}

impl Session {
    /// A fresh session.
    pub fn new() -> (s: Self)
        ensures
            s.ui.recording_state == RecordingState::Idle,
            s.ui.waveform_data@.len() == 0,
            !s.has_first_word,
            !s.has_transcription,
            s.last_transcription.is_none(),
            s.pending_exit.is_none(),
    {
        Session {
            ui: AppState::new(),
            has_first_word: false,
            has_transcription: false,
            last_transcription: None,
            pending_exit: None,
        }
    }

    /// A request to record. While recording it is ignored (`false`);
    /// otherwise the previous turn is forgotten and `true` says to clear
    /// the audio buffer and start the microphone, then to call
    /// `recording_started` once it runs (or at once without a microphone).
    pub fn begin_recording(&mut self) -> (go: bool)
        ensures
            go == (old(self).ui.recording_state != RecordingState::Recording),
            !go ==> *final(self) == *old(self),
            go ==> final(self).ui.recording_state == old(self).ui.recording_state
                && final(self).ui.waveform_data@.len() == 0 && !final(self).has_first_word
                && !final(self).has_transcription && final(self).last_transcription.is_none()
                && final(self).pending_exit == old(self).pending_exit,
    {
        if self.ui.is_recording() {
            return false;
        }
        self.ui.waveform_data = Vec::new();
        self.has_first_word = false;
        self.has_transcription = false;
        self.last_transcription = None;
        true
    }

    /// The microphone runs: recording.
    pub fn recording_started(&mut self)
        ensures
            final(self).ui.recording_state == RecordingState::Recording,
            final(self).ui.waveform_data@.len() == 0,
            final(self).has_first_word == old(self).has_first_word,
            final(self).has_transcription == old(self).has_transcription,
            final(self).last_transcription == old(self).last_transcription,
            final(self).pending_exit == old(self).pending_exit,
    {
        self.ui.start_recording();
    }

    /// A request to stop recording with `buffered` samples in the audio
    /// buffer. Ignored unless recording; the audio is transcribed when the
    /// transcription worker is there and some audio was buffered; otherwise
    /// the session is idle at once.
    pub fn stop_recording(&mut self, buffered: usize, stt_available: bool) -> (plan: StopPlan)
        ensures
            old(self).ui.recording_state != RecordingState::Recording ==> plan
                == StopPlan::Ignored && final(self).ui.recording_state == old(
                self,
            ).ui.recording_state,
            old(self).ui.recording_state == RecordingState::Recording ==> {
                if stt_available && buffered > 0 {
                    plan == StopPlan::Transcribe && final(self).ui.recording_state
                        == RecordingState::Processing
                } else {
                    plan == StopPlan::Finished && final(self).ui.recording_state
                        == RecordingState::Idle
                }
            },
            final(self).ui.waveform_data@ == old(self).ui.waveform_data@,
            final(self).has_first_word == old(self).has_first_word,
            final(self).has_transcription == old(self).has_transcription,
            final(self).last_transcription == old(self).last_transcription,
            final(self).pending_exit == old(self).pending_exit,
    {
        if !self.ui.is_recording() {
            return StopPlan::Ignored;
        }
        self.ui.stop_recording();
        if stt_available && buffered > 0 {
            StopPlan::Transcribe
        } else {
            self.ui.finish_processing();
            StopPlan::Finished
        }
    }

    /// Resampling or sending the audio failed: idle again.
    pub fn transcription_failed(&mut self)
        ensures
            final(self).ui.recording_state == RecordingState::Idle,
            final(self).ui.waveform_data@ == old(self).ui.waveform_data@,
            final(self).has_first_word == old(self).has_first_word,
            final(self).has_transcription == old(self).has_transcription,
            final(self).last_transcription == old(self).last_transcription,
            final(self).pending_exit == old(self).pending_exit,
    {
        self.ui.finish_processing();
    }

    /// A request to cancel: only while recording (`true`: stop the
    /// microphone and clear the audio buffer).
    pub fn cancel_recording(&mut self) -> (cancelled: bool)
        ensures
            cancelled == (old(self).ui.recording_state == RecordingState::Recording),
            !cancelled ==> *final(self) == *old(self),
            cancelled ==> final(self).ui.recording_state == RecordingState::Idle
                && final(self).ui.waveform_data@.len() == 0 && final(self).has_first_word
                == old(self).has_first_word && final(self).has_transcription == old(
                self,
            ).has_transcription && final(self).last_transcription == old(
                self,
            ).last_transcription && final(self).pending_exit == old(self).pending_exit,
    {
        if !self.ui.is_recording() {
            return false;
        }
        self.ui.cancel_recording();
        true
    }

    /// A transcription event: a first word is noted; a final transcription
    /// is kept and ends processing; an error or the worker's shutdown ends
    /// processing.
    pub fn on_stt(&mut self, event: SttNotice)
        ensures
            final(self).pending_exit == old(self).pending_exit,
            final(self).ui.waveform_data@ == old(self).ui.waveform_data@,
            match event {
                SttNotice::FirstWord(_) => {
                    &&& final(self).has_first_word
                    &&& final(self).ui.recording_state == old(self).ui.recording_state
                    &&& final(self).has_transcription == old(self).has_transcription
                    &&& final(self).last_transcription == old(self).last_transcription
                },
                SttNotice::Final(text) => {
                    &&& final(self).last_transcription == Some(text)
                    &&& final(self).has_transcription
                    &&& final(self).has_first_word == old(self).has_first_word
                    &&& final(self).ui.recording_state == RecordingState::Idle
                },
                SttNotice::Error(_) | SttNotice::Shutdown => {
                    &&& final(self).ui.recording_state == RecordingState::Idle
                    &&& final(self).has_first_word == old(self).has_first_word
                    &&& final(self).has_transcription == old(self).has_transcription
                    &&& final(self).last_transcription == old(self).last_transcription
                },
                _ => {
                    &&& final(self).ui.recording_state == old(self).ui.recording_state
                    &&& final(self).has_first_word == old(self).has_first_word
                    &&& final(self).has_transcription == old(self).has_transcription
                    &&& final(self).last_transcription == old(self).last_transcription
                },
            },
    {
        match event {
            SttNotice::FirstWord(_) => {
                self.has_first_word = true;
            },
            SttNotice::Final(text) => {
                self.last_transcription = Some(text);
                self.has_transcription = true;
                self.ui.finish_processing();
            },
            SttNotice::Error(_) => {
                self.ui.finish_processing();
            },
            SttNotice::Shutdown => {
                self.ui.finish_processing();
            },
            _ => {},
        }
    }

    /// Audio arrived: the waveform keeps the newest `WAVEFORM_SAMPLES`.
    pub fn on_audio(&mut self, samples: &[u32])
        ensures
            final(self).ui.waveform_data@ == after_write(
                old(self).ui.waveform_data@,
                samples@,
                WAVEFORM_SAMPLES as nat,
            ),
            final(self).ui.recording_state == old(self).ui.recording_state,
            final(self).has_first_word == old(self).has_first_word,
            final(self).has_transcription == old(self).has_transcription,
            final(self).last_transcription == old(self).last_transcription,
            final(self).pending_exit == old(self).pending_exit,
    {
        let old_len = self.ui.waveform_data.len();
        let n = samples.len();
        let ghost all = self.ui.waveform_data@ + samples@;
        let total: usize = if old_len <= usize::MAX - n {
            old_len + n
        } else {
            usize::MAX
        };
        let mut kept: Vec<u32> = Vec::new();
        if old_len <= usize::MAX - n && total <= WAVEFORM_SAMPLES {
            let mut i: usize = 0;
            while i < old_len
                invariant
                    i <= old_len,
                    old_len == self.ui.waveform_data@.len(),
                    kept@ == self.ui.waveform_data@.take(i as int),
                decreases old_len - i,
            {
                kept.push(self.ui.waveform_data[i]);
                i = i + 1;
            }
            let mut j: usize = 0;
            while j < n
                invariant
                    j <= n,
                    n == samples@.len(),
                    old_len == self.ui.waveform_data@.len(),
                    kept@ == self.ui.waveform_data@ + samples@.take(j as int),
                decreases n - j,
            {
                kept.push(samples[j]);
                j = j + 1;
            }
            proof {
                assert(samples@.take(n as int) =~= samples@);
                assert(self.ui.waveform_data@.take(old_len as int) =~= self.ui.waveform_data@);
            }
        } else {
            // Keep the newest WAVEFORM_SAMPLES of the old samples followed by the new ones.
            let ghost skip: int = all.len() - WAVEFORM_SAMPLES;
            let mut k: usize = 0;
            while k < WAVEFORM_SAMPLES
                invariant
                    k <= WAVEFORM_SAMPLES,
                    old_len == self.ui.waveform_data@.len(),
                    n == samples@.len(),
                    all == self.ui.waveform_data@ + samples@,
                    all.len() > WAVEFORM_SAMPLES,
                    skip == all.len() - WAVEFORM_SAMPLES,
                    kept@ == all.subrange(skip, skip + k),
                decreases WAVEFORM_SAMPLES - k,
            {
                let from_old = n < WAVEFORM_SAMPLES - k;
                let v = if from_old {
                    self.ui.waveform_data[old_len - (WAVEFORM_SAMPLES - k - n)]
                } else {
                    samples[n - (WAVEFORM_SAMPLES - k)]
                };
                proof {
                    let idx = skip + k;
                    if from_old {
                        assert(idx == old_len - (WAVEFORM_SAMPLES - k - n));
                        assert(all[idx] == self.ui.waveform_data@[idx]);
                    } else {
                        assert(idx - old_len == n - (WAVEFORM_SAMPLES - k));
                        assert(all[idx] == samples@[idx - old_len]);
                    }
                    assert(all.subrange(skip, skip + k + 1) =~= all.subrange(skip, skip + k).push(
                        all[idx],
                    ));
                }
                kept.push(v);
                k = k + 1;
            }
            proof {
                assert(all.subrange(skip, skip + WAVEFORM_SAMPLES) =~= all.skip(skip));
            }
        }
        self.ui.waveform_data = kept;
    }

    /// What a scenario's command does: recording commands go to the
    /// recording requests (a click stops while recording and starts
    /// otherwise); an exit other than the log placeholder (code -999) is
    /// kept as the pending exit code.
    pub fn on_test_command(&mut self, command: &TestCommand) -> (a: UiAction)
        ensures
            final(self).ui == old(self).ui,
            final(self).has_first_word == old(self).has_first_word,
            final(self).has_transcription == old(self).has_transcription,
            final(self).last_transcription == old(self).last_transcription,
            match *command {
                TestCommand::ClickRecord => final(self).pending_exit == old(self).pending_exit && a
                    == if old(self).ui.recording_state == RecordingState::Recording {
                    UiAction::StopRecording
                } else {
                    UiAction::StartRecording
                },
                TestCommand::StopRecord => final(self).pending_exit == old(self).pending_exit && a
                    == UiAction::StopRecording,
                TestCommand::CancelRecord => final(self).pending_exit == old(self).pending_exit
                    && a == UiAction::CancelRecording,
                TestCommand::Exit { code } => a == UiAction::Nothing && final(self).pending_exit
                    == if code != -999 {
                    Some(code)
                } else {
                    old(self).pending_exit
                },
                _ => final(self).pending_exit == old(self).pending_exit && a == UiAction::Unhandled,
            },
    {
        match command {
            TestCommand::ClickRecord => {
                if self.ui.is_recording() {
                    UiAction::StopRecording
                } else {
                    UiAction::StartRecording
                }
            },
            TestCommand::StopRecord => UiAction::StopRecording,
            TestCommand::CancelRecord => UiAction::CancelRecording,
            TestCommand::Exit { code } => {
                if *code != -999 {
                    self.pending_exit = Some(*code);
                }
                UiAction::Nothing
            },
            _ => UiAction::Unhandled,
        }
    }

    /// What the session reports for an assertion, with `buffered` samples
    /// in the audio buffer.
    pub fn assertion_context(&self, buffered: usize) -> (c: AssertionContext)
        ensures
            c.is_recording == (self.ui.recording_state == RecordingState::Recording),
            c.is_processing == (self.ui.recording_state == RecordingState::Processing),
            c.is_idle == (self.ui.recording_state == RecordingState::Idle),
            c.audio_buffer_samples == buffered,
            c.stt_phase.is_none(),
            c.stt_speech_chunks == 0,
            c.stt_has_transcription == self.has_transcription,
            c.stt_has_first_word == self.has_first_word,
            c.stt_last_transcription == self.last_transcription,
    {
        AssertionContext {
            is_recording: self.ui.is_recording(),
            is_processing: self.ui.is_processing(),
            is_idle: !self.ui.is_recording() && !self.ui.is_processing(),
            audio_buffer_samples: buffered,
            stt_phase: None,
            stt_speech_chunks: 0,
            stt_has_transcription: self.has_transcription,
            stt_has_first_word: self.has_first_word,
            stt_last_transcription: copy_opt_string(&self.last_transcription),
        }
    }

    /// A failed assertion turns a pending successful exit into a failure.
    pub fn note_assertion(&mut self, result: &AssertionResult)
        ensures
            final(self).pending_exit == if result is Failed && old(self).pending_exit == Some(
                0i32,
            ) {
                Some(1i32)
            } else {
                old(self).pending_exit
            },
            final(self).ui == old(self).ui,
            final(self).has_first_word == old(self).has_first_word,
            final(self).has_transcription == old(self).has_transcription,
            final(self).last_transcription == old(self).last_transcription,
    {
        if let AssertionResult::Failed(_) = result {
            if self.pending_exit == Some(0i32) {
                self.pending_exit = Some(1i32);
            }
        }
    }

    /// Once the scenario completed, the exit code to leave with, if one is
    /// pending: the requested code when every assertion held, 1 otherwise.
    /// The pending code is taken.
    pub fn take_exit_code(&mut self, completed: bool, passed: bool) -> (code: Option<i32>)
        ensures
            !completed ==> code.is_none() && final(self).pending_exit == old(self).pending_exit,
            completed ==> final(self).pending_exit.is_none() && code == match old(
                self,
            ).pending_exit {
                Some(c) => Some(if passed {
                    c
                } else {
                    1i32
                }),
                None => None,
            },
            final(self).ui == old(self).ui,
            final(self).has_first_word == old(self).has_first_word,
            final(self).has_transcription == old(self).has_transcription,
            final(self).last_transcription == old(self).last_transcription,
    {
        if !completed {
            return None;
        }
        let pending = self.pending_exit;
        self.pending_exit = None;
        match pending {
            Some(c) => Some(if passed {
                c
            } else {
                1i32
            }),
            None => None,
        }
    }

    /// Copies what the session knows into the shared state: the recording
    /// state, the buffered sample count, a detected first word and the last
    /// transcription.
    pub fn sync_into(&self, shared: &mut crate::state::AppState, buffered: usize)
        ensures
            final(shared).recording == self.ui.recording_state,
            final(shared).audio_buffer_samples == buffered,
            final(shared).transcription.has_first_word == (self.has_first_word || old(
                shared,
            ).transcription.has_first_word),
            final(shared).transcription.first_word == old(shared).transcription.first_word,
            final(shared).transcription.last_text == if self.last_transcription.is_some() {
                self.last_transcription
            } else {
                old(shared).transcription.last_text
            },
            final(shared).llm == old(shared).llm,
            final(shared).response == old(shared).response,
            final(shared).error == old(shared).error,
            final(shared).frame_count == old(shared).frame_count,
            final(shared).debug_mode == old(shared).debug_mode,
            final(shared).max_frames == old(shared).max_frames,
    {
        shared.recording = self.ui.recording_state;
        shared.audio_buffer_samples = buffered;
        if self.has_first_word {
            shared.transcription.has_first_word = true;
        }
        if let Some(text) = &self.last_transcription {
            shared.transcription.last_text = Some(text.clone());
        }
    }
}

/// Whether the interface keeps redrawing: while a scenario runs, while
/// transcribing, or when a frame limit is set.
pub fn keeps_repainting(has_scenario: bool, ui: &AppState, max_frames: u64) -> (b: bool)
    ensures
        b == (has_scenario || ui.recording_state == RecordingState::Processing || max_frames > 0),
{
    has_scenario || ui.is_processing() || max_frames > 0
}

} // verus!
