//! Runs a scenario: hands out each action when its time has come and
//! checks assertions against the application state.
use crate::state::{llm_state_name, recording_state_name, AppState, LLMState, RecordingState};
use crate::testconfig::{duration_from_millis, millis_duration, ActionType, Assertion, TestConfig};
use crate::text::{
    chars_of, contains_chars, contains_seq, decimal, lowercase_chars, lowercase_of, u64_to_decimal,
};
use crate::state::copy_opt_string;
use vstd::prelude::*;

verus! {

#[verifier::external_type_specification]
#[verifier::external_body]
pub struct ExInstant(std::time::Instant);

/// `Instant::now`: the current time; nothing is claimed of it.
#[verifier::external_body]
fn instant_now() -> std::time::Instant {
    std::time::Instant::now()
}

/// `Instant::elapsed`: the time since `start`; nothing is claimed of it.
#[verifier::external_body]
fn instant_elapsed(start: &std::time::Instant) -> core::time::Duration {
    start.elapsed()
}

/// `Duration::as_millis`: whole milliseconds; nothing is claimed of it
/// beyond its type, as the duration comes from the clock.
#[verifier::external_body]
fn duration_millis(d: &core::time::Duration) -> u128 {
    d.as_millis()
}

/// What the `Debug` formatting of a duration writes (for example "1.5s").
pub uninterp spec fn duration_debug(d: core::time::Duration) -> Seq<char>;

/// The `Debug` text of a duration. std's formatting rules are not restated;
/// the result is named `duration_debug` of the duration.
#[verifier::external_body]
fn duration_debug_text(d: &core::time::Duration) -> (s: String)
    ensures
        s@ == duration_debug(*d),
{
    format!("{:?}", d)
}

/// Commands a scenario sends to the application.
#[derive(Debug, Clone)]
pub enum TestCommand {
    /// Toggle recording.
    ClickRecord,
    /// Stop recording.
    StopRecord,
    /// Cancel recording.
    CancelRecord,
    /// Exit with a code.
    Exit { code: i32 },
    /// Send text straight to the language model.
    SendText { text: String },
    /// Stop the current generation.
    StopGeneration,
    /// Capture a screenshot under a name.
    Snapshot { name: String },
    /// Mark the test successful.
    ReportSuccess,
    /// Mark the test failed.
    ReportFailure { reason: String },
}

/// The outcome of an assertion.
#[derive(Debug, Clone)]
pub enum AssertionResult {
    /// It holds.
    Passed,
    /// It does not, for this reason.
    Failed(String),
}

/// What the application reports for assertions (the older interface; the
/// application state can be checked directly).
#[derive(Debug, Clone)]
pub struct AssertionContext {
    pub is_recording: bool,
    pub is_processing: bool,
    pub is_idle: bool,
    pub audio_buffer_samples: usize,
    pub stt_phase: Option<String>,
    pub stt_speech_chunks: u64,
    pub stt_has_transcription: bool,
    pub stt_has_first_word: bool,
    pub stt_last_transcription: Option<String>,
}

impl Default for AssertionContext {
    fn default() -> (c: Self)
        ensures
            !c.is_recording,
            !c.is_processing,
            c.is_idle,
            c.audio_buffer_samples == 0,
            c.stt_phase.is_none(),
            c.stt_speech_chunks == 0,
            !c.stt_has_transcription,
            !c.stt_has_first_word,
            c.stt_last_transcription.is_none(),
    {
        AssertionContext {
            is_recording: false,
            is_processing: false,
            is_idle: true,
            audio_buffer_samples: 0,
            stt_phase: None,
            stt_speech_chunks: 0,
            stt_has_transcription: false,
            stt_has_first_word: false,
            stt_last_transcription: None,
        }
    }
}

impl AssertionContext {
    /// The context an application state reports.
    pub fn from_app_state(s: &AppState) -> (c: Self)
        ensures
            c.is_recording == (s.recording == RecordingState::Recording),
            c.is_processing == (s.recording == RecordingState::Processing),
            c.is_idle == (s.recording == RecordingState::Idle && s.llm == LLMState::Idle),
            c.audio_buffer_samples == s.audio_buffer_samples,
            c.stt_phase.is_none(),
            c.stt_speech_chunks == 0,
            c.stt_has_transcription == s.transcription.last_text.is_some(),
            c.stt_has_first_word == s.transcription.has_first_word,
            c.stt_last_transcription == s.transcription.last_text,
    {
        AssertionContext {
            is_recording: s.recording.is_recording(),
            is_processing: s.recording.is_processing(),
            is_idle: s.recording.is_idle() && s.llm.is_idle(),
            audio_buffer_samples: s.audio_buffer_samples,
            stt_phase: None,
            stt_speech_chunks: 0,
            stt_has_transcription: s.transcription.last_text.is_some(),
            stt_has_first_word: s.transcription.has_first_word,
            stt_last_transcription: copy_opt_string(&s.transcription.last_text),
        }
    }
}

/// The failure reason for a contains-assertion on a transcription.
pub open spec fn contains_failure(text: Seq<char>, transcription: Option<String>) -> Option<Seq<char>> {
    match transcription {
        Some(t) => if contains_seq(lowercase_of(t@), lowercase_of(text)) {
            None
        } else {
            Some("Expected transcription to contain '"@ + text + "', got '"@ + t@ + "'"@)
        },
        None => Some("Expected transcription containing '"@ + text
            + "', but no transcription received"@),
    }
}

/// Why an assertion fails against the application state; `None` when it
/// holds. Phase and speech-chunk assertions are not supported there.
pub open spec fn state_failure(a: Assertion, s: AppState) -> Option<Seq<char>> {
    match a {
        Assertion::IsRecording => if s.recording == RecordingState::Recording {
            None
        } else {
            Some("Expected state to be Recording, got "@ + recording_state_name(s.recording))
        },
        Assertion::IsIdle => if s.recording == RecordingState::Idle && s.llm == LLMState::Idle {
            None
        } else {
            Some("Expected state to be Idle, got recording="@ + recording_state_name(s.recording)
                + ", llm="@ + llm_state_name(s.llm))
        },
        Assertion::IsProcessing => if s.recording == RecordingState::Processing {
            None
        } else {
            Some("Expected state to be Processing, got "@ + recording_state_name(s.recording))
        },
        Assertion::AudioBufferMinSamples { min_samples } => if s.audio_buffer_samples
            >= min_samples {
            None
        } else {
            Some("Expected at least "@ + decimal(min_samples as nat) + " audio samples, got "@
                + decimal(s.audio_buffer_samples as nat))
        },
        Assertion::AudioBufferNotEmpty => if s.audio_buffer_samples > 0 {
            None
        } else {
            Some("Expected audio buffer to not be empty"@)
        },
        Assertion::SttPhase { phase } => Some("STT phase assertion '"@ + phase@
            + "' not yet supported with unified state"@),
        Assertion::SttSpeechChunksMin { min_chunks } => Some(
            "STT speech chunks assertion (min="@ + decimal(min_chunks as nat)
                + ") not yet supported with unified state"@,
        ),
        Assertion::SttHasTranscription => if s.transcription.last_text.is_some() {
            None
        } else {
            Some("Expected transcription result, none received"@)
        },
        Assertion::SttHasFirstWord => if s.transcription.has_first_word {
            None
        } else {
            Some("Expected first word detection, none received"@)
        },
        Assertion::SttTranscriptionContains { text } => contains_failure(
            text@,
            s.transcription.last_text,
        ),
    }
}

/// Why an assertion fails against a reported context; `None` when it holds.
pub open spec fn context_failure(a: Assertion, c: AssertionContext) -> Option<Seq<char>> {
    match a {
        Assertion::IsRecording => if c.is_recording {
            None
        } else {
            Some("Expected state to be Recording"@)
        },
        Assertion::IsIdle => if c.is_idle {
            None
        } else {
            Some("Expected state to be Idle"@)
        },
        Assertion::IsProcessing => if c.is_processing {
            None
        } else {
            Some("Expected state to be Processing"@)
        },
        Assertion::AudioBufferMinSamples { min_samples } => if c.audio_buffer_samples
            >= min_samples {
            None
        } else {
            Some("Expected at least "@ + decimal(min_samples as nat) + " audio samples, got "@
                + decimal(c.audio_buffer_samples as nat))
        },
        Assertion::AudioBufferNotEmpty => if c.audio_buffer_samples > 0 {
            None
        } else {
            Some("Expected audio buffer to not be empty"@)
        },
        Assertion::SttPhase { phase } => match c.stt_phase {
            Some(cur) => if lowercase_of(cur@) == lowercase_of(phase@) {
                None
            } else {
                Some("Expected STT phase '"@ + phase@ + "', got '"@ + cur@ + "'"@)
            },
            None => Some("Expected STT phase '"@ + phase@ + "', but STT is not initialized"@),
        },
        Assertion::SttSpeechChunksMin { min_chunks } => if c.stt_speech_chunks >= min_chunks {
            None
        } else {
            Some("Expected at least "@ + decimal(min_chunks as nat) + " speech chunks, got "@
                + decimal(c.stt_speech_chunks as nat))
        },
        Assertion::SttHasTranscription => if c.stt_has_transcription {
            None
        } else {
            Some("Expected transcription result, none received"@)
        },
        Assertion::SttHasFirstWord => if c.stt_has_first_word {
            None
        } else {
            Some("Expected first word detection, none received"@)
        },
        Assertion::SttTranscriptionContains { text } => contains_failure(
            text@,
            c.stt_last_transcription,
        ),
    }
}

/// A result matches a failure reason.
pub open spec fn result_is(r: AssertionResult, failure: Option<Seq<char>>) -> bool {
    match failure {
        None => r is Passed,
        Some(m) => r matches AssertionResult::Failed(s) && s@ == m,
    }
}

/// The command an action sends; a log action sends `Exit` with code -999,
/// which the application ignores.
pub open spec fn command_for(a: ActionType, c: TestCommand) -> bool {
    match a {
        ActionType::ClickRecord => c is ClickRecord,
        ActionType::StopRecord => c is StopRecord,
        ActionType::CancelRecord => c is CancelRecord,
        ActionType::Exit { code } => c == TestCommand::Exit { code },
        ActionType::Log { message } => c == TestCommand::Exit { code: -999i32 },
        ActionType::SendText { text } => c == TestCommand::SendText { text },
        ActionType::StopGeneration => c is StopGeneration,
        ActionType::Snapshot { name } => c == TestCommand::Snapshot { name },
        ActionType::ReportSuccess => c is ReportSuccess,
        ActionType::ReportFailure { reason } => c == TestCommand::ReportFailure { reason },
    }
}

fn str_of(parts1: &str, parts2: &str) -> (s: String)
    ensures
        s@ == parts1@ + parts2@,
{
    let mut s = String::from_str(parts1);
    s.append(parts2);
    s
}

fn str3(a: &str, b: &str, c: &str) -> (s: String)
    ensures
        s@ == a@ + b@ + c@,
{
    let mut s = String::from_str(a);
    s.append(b);
    s.append(c);
    s
}

fn str4(a: &str, b: &str, c: &str, d: &str) -> (s: String)
    ensures
        s@ == a@ + b@ + c@ + d@,
{
    let mut s = String::from_str(a);
    s.append(b);
    s.append(c);
    s.append(d);
    s
}

fn str5(a: &str, b: &str, c: &str, d: &str, e: &str) -> (s: String)
    ensures
        s@ == a@ + b@ + c@ + d@ + e@,
{
    let mut s = String::from_str(a);
    s.append(b);
    s.append(c);
    s.append(d);
    s.append(e);
    s
}

fn lower_of_str(s: &str) -> (r: Vec<char>)
    ensures
        r@ == lowercase_of(s@),
{
    let v = chars_of(s);
    lowercase_chars(v.as_slice())
}

fn check_contains(text: &String, transcription: &Option<String>) -> (r: AssertionResult)
    ensures
        result_is(r, contains_failure(text@, *transcription)),
{
    match transcription {
        Some(t) => {
            let lt = lower_of_str(t.as_str());
            let lx = lower_of_str(text.as_str());
            if contains_chars(lt.as_slice(), lx.as_slice()) {
                AssertionResult::Passed
            } else {
                AssertionResult::Failed(str5(
                    "Expected transcription to contain '",
                    text.as_str(),
                    "', got '",
                    t.as_str(),
                    "'",
                ))
            }
        },
        None => AssertionResult::Failed(str3(
            "Expected transcription containing '",
            text.as_str(),
            "', but no transcription received",
        )),
    }
}

fn min_count_failure(what: &str, min: u64, got: u64) -> (s: String)
    ensures
        s@ == "Expected at least "@ + decimal(min as nat) + what@ + decimal(got as nat),
{
    let a = u64_to_decimal(min);
    let b = u64_to_decimal(got);
    str4("Expected at least ", a.as_str(), what, b.as_str())
}

fn copy_assertion(a: &Assertion) -> (r: Assertion)
    ensures
        r == *a,
{
    match a {
        Assertion::IsRecording => Assertion::IsRecording,
        Assertion::IsIdle => Assertion::IsIdle,
        Assertion::IsProcessing => Assertion::IsProcessing,
        Assertion::AudioBufferMinSamples { min_samples } => Assertion::AudioBufferMinSamples {
            min_samples: *min_samples,
        },
        Assertion::AudioBufferNotEmpty => Assertion::AudioBufferNotEmpty,
        Assertion::SttPhase { phase } => Assertion::SttPhase { phase: phase.clone() },
        Assertion::SttSpeechChunksMin { min_chunks } => Assertion::SttSpeechChunksMin {
            min_chunks: *min_chunks,
        },
        Assertion::SttHasTranscription => Assertion::SttHasTranscription,
        Assertion::SttHasFirstWord => Assertion::SttHasFirstWord,
        Assertion::SttTranscriptionContains { text } => Assertion::SttTranscriptionContains {
            text: text.clone(),
        },
    }
}

/// Law: each scenario action becomes the command of the same kind, and the
/// kinds are never mixed up: clicking, stopping and cancelling a recording
/// stay three different commands; an exit keeps its code; text, snapshot
/// names and failure reasons are passed on unchanged; only a log action,
/// which the application ignores, becomes the exit placeholder -999.
pub proof fn law_actions_keep_their_kind(a: ActionType, c: TestCommand)
    requires
        command_for(a, c),
    ensures
        (a is ClickRecord) == (c is ClickRecord),
        (a is StopRecord) == (c is StopRecord),
        (a is CancelRecord) == (c is CancelRecord),
        (a is StopGeneration) == (c is StopGeneration),
        (a is ReportSuccess) == (c is ReportSuccess),
        (a matches ActionType::Exit { code } ==> c == (TestCommand::Exit { code })),
        (a is Log ==> c == (TestCommand::Exit { code: -999i32 })),
        (a matches ActionType::SendText { text } ==> c == (TestCommand::SendText { text })),
        (a matches ActionType::Snapshot { name } ==> c == (TestCommand::Snapshot { name })),
        (a matches ActionType::ReportFailure { reason } ==> c == (TestCommand::ReportFailure {
            reason,
        })),
{
}

/// What one step (`start`, `poll` or `poll_at`) does to the actions handed
/// out: `r` is what it returned. A result hands out the action at the next
/// index and moves on by one; no result leaves the index. The scenario and
/// the pass flag stay.
pub open spec fn polled(
    before: TestRunner,
    r: Option<(TestCommand, Option<Assertion>)>,
    after: TestRunner,
) -> bool {
    &&& after.scenario() == before.scenario()
    &&& after.passed() == before.passed()
    &&& match r {
        Some((c, a)) => {
            let i = before.next_action();
            &&& i < before.scenario().actions@.len()
            &&& command_for(before.scenario().actions@[i as int].action, c)
            &&& a == before.scenario().actions@[i as int].assert
            &&& after.next_action() == i + 1
        },
        None => after.next_action() == before.next_action(),
    }
}

/// How many of the results handed out an action.
pub open spec fn handed_out(results: Seq<Option<(TestCommand, Option<Assertion>)>>) -> nat
    decreases results.len(),
{
    if results.len() == 0 {
        0
    } else {
        handed_out(results.drop_last()) + if results.last() is Some {
            1nat
        } else {
            0nat
        }
    }
}

/// Law: over any run of steps from a fresh runner, the actions are handed
/// out in the scenario's order, each at most once and none skipped: the
/// k-th result that hands something out carries the scenario's k-th action
/// and its assertion.
pub proof fn law_actions_in_order(
    runs: Seq<TestRunner>,
    results: Seq<Option<(TestCommand, Option<Assertion>)>>,
)
    requires
        runs.len() == results.len() + 1,
        runs[0].next_action() == 0,
        forall|i: int| 0 <= i < results.len() ==> polled(runs[i], #[trigger] results[i], runs[i + 1]),
    ensures
        forall|i: int|
            0 <= i < runs.len() ==> #[trigger] runs[i].next_action() == handed_out(results.take(i))
                && runs[i].scenario() == runs[0].scenario(),
        forall|i: int|
            0 <= i < results.len() ==> (#[trigger] results[i] matches Some((c, a)) ==> {
                let k = handed_out(results.take(i)) as int;
                &&& k < runs[0].scenario().actions@.len()
                &&& command_for(runs[0].scenario().actions@[k].action, c)
                &&& a == runs[0].scenario().actions@[k].assert
            }),
    decreases results.len(),
{
    if results.len() > 0 {
        let n = results.len() - 1;
        law_actions_in_order(runs.drop_last(), results.drop_last());
        assert forall|i: int| 0 <= i < runs.len() implies #[trigger] runs[i].next_action()
            == handed_out(results.take(i)) && runs[i].scenario() == runs[0].scenario() by {
            if i < runs.len() - 1 {
                assert(runs.drop_last()[i] == runs[i]);
                assert(results.drop_last().take(i) =~= results.take(i));
            } else {
                assert(runs.drop_last()[n] == runs[n]);
                assert(results.drop_last().take(n) =~= results.take(n));
                assert(results.take(i).drop_last() =~= results.take(n));
                assert(polled(runs[n], results[n], runs[n + 1]));
            }
        }
        assert forall|i: int| 0 <= i < results.len() implies (#[trigger] results[i] matches Some(
            (c, a),
        ) ==> {
            let k = handed_out(results.take(i)) as int;
            &&& k < runs[0].scenario().actions@.len()
            &&& command_for(runs[0].scenario().actions@[k].action, c)
            &&& a == runs[0].scenario().actions@[k].assert
        }) by {
            assert(polled(runs[i], results[i], runs[i + 1]));
            if i < n {
                assert(results.drop_last()[i] == results[i]);
                assert(runs.drop_last()[i] == runs[i]);
                assert(results.drop_last().take(i) =~= results.take(i));
            } else {
                assert(runs.drop_last()[i] == runs[i]);
                assert(results.drop_last().take(i) =~= results.take(i));
            }
        }
    }
}

/// Step `i` of a run keeps a completed run completed: it hands out
/// nothing and the next index stays.
pub open spec fn done_step(
    runs: Seq<TestRunner>,
    results: Seq<Option<(TestCommand, Option<Assertion>)>>,
    i: int,
) -> bool {
    runs[i].done() ==> runs[i + 1].done() && results[i].is_none() && runs[i + 1].next_action()
        == runs[i].next_action()
}

/// Law: completion is never undone. Over any run of steps that each keep a
/// completed run completed (as `start`, `poll` and `poll_at` do), once the
/// run is completed it stays completed, hands out nothing more, and its
/// next index stays.
pub proof fn law_completion_sticks(
    runs: Seq<TestRunner>,
    results: Seq<Option<(TestCommand, Option<Assertion>)>>,
    i: int,
    j: int,
)
    requires
        runs.len() == results.len() + 1,
        forall|k: int| 0 <= k < results.len() ==> #[trigger] done_step(runs, results, k),
        0 <= i <= j < runs.len(),
        runs[i].done(),
    ensures
        runs[j].done(),
        runs[j].next_action() == runs[i].next_action(),
        j < results.len() ==> results[j].is_none(),
    decreases j - i,
{
    if j > i {
        law_completion_sticks(runs, results, i, j - 1);
        assert(done_step(runs, results, j - 1));
    }
    if j < results.len() {
        assert(done_step(runs, results, j));
    }
}

/// Whether a step's assertion result was a failure (`None`: a step that
/// checked nothing).
pub open spec fn failed(r: Option<AssertionResult>) -> bool {
    r matches Some(AssertionResult::Failed(_))
}

/// Whether no result in `results` is a failure.
pub open spec fn none_failed(results: Seq<Option<AssertionResult>>) -> bool {
    forall|i: int| 0 <= i < results.len() ==> !failed(#[trigger] results[i])
}

/// Step `i` of a run: the pass flag becomes false on a failed check and
/// stays otherwise.
pub open spec fn pass_step(runs: Seq<TestRunner>, results: Seq<Option<AssertionResult>>, i: int) -> bool {
    runs[i + 1].passed() == (runs[i].passed() && !failed(results[i]))
}

/// Law: a failure sticks. Over any run of steps, each of which either
/// checks an assertion (the pass flag becomes false on a failure) or checks
/// nothing (the flag stays), the test has passed at the end exactly when it
/// had passed at the start and no check failed.
pub proof fn law_failure_sticks(runs: Seq<TestRunner>, results: Seq<Option<AssertionResult>>)
    requires
        runs.len() == results.len() + 1,
        forall|i: int| 0 <= i < results.len() ==> #[trigger] pass_step(runs, results, i),
    ensures
        runs.last().passed() == (runs[0].passed() && none_failed(results)),
    decreases results.len(),
{
    if results.len() > 0 {
        let n = results.len() - 1;
        let r2 = runs.drop_last();
        let s2 = results.drop_last();
        assert forall|i: int| 0 <= i < s2.len() implies #[trigger] pass_step(r2, s2, i) by {
            assert(pass_step(runs, results, i));
            assert(s2[i] == results[i]);
            assert(r2[i + 1] == runs[i + 1]);
            assert(r2[i] == runs[i]);
        }
        law_failure_sticks(r2, s2);
        assert(pass_step(runs, results, n));
        assert(r2.last() == runs[n]);
        assert(r2[0] == runs[0]);
        if none_failed(results) {
            assert forall|i: int| 0 <= i < s2.len() implies !failed(#[trigger] s2[i]) by {
                assert(s2[i] == results[i]);
            }
        } else if none_failed(s2) {
            let j = choose|j: int| 0 <= j < results.len() && failed(#[trigger] results[j]);
            if j < n {
                assert(s2[j] == results[j]);
            }
        } else {
            let j = choose|j: int| 0 <= j < s2.len() && failed(#[trigger] s2[j]);
            assert(s2[j] == results[j]);
        }
    }
}

/// Runs a scenario's actions at their times and keeps whether every
/// assertion held.
pub struct TestRunner {
    config: TestConfig,
    start_time: Option<std::time::Instant>,
    current_action_index: usize,
    completed: bool,
    test_passed: bool,
}

impl TestRunner {
    /// The next action is within the scenario, and a completed run has
    /// handed out every action.
    #[verifier::type_invariant]
    spec fn within_scenario(&self) -> bool {
        &&& self.current_action_index <= self.config.actions@.len()
        &&& self.completed ==> self.current_action_index == self.config.actions@.len()
    }

    /// The scenario being run.
    pub closed spec fn scenario(&self) -> TestConfig {
        self.config
    }

    /// Whether the runner was started.
    pub closed spec fn started(&self) -> bool {
        self.start_time.is_some()
    }

    /// When the runner was started, if it was.
    pub closed spec fn start_instant(&self) -> Option<std::time::Instant> {
        self.start_time
    }

    /// The index of the next action.
    pub closed spec fn next_action(&self) -> usize {
        self.current_action_index
    }

    /// Whether every action was handed out.
    pub closed spec fn done(&self) -> bool {
        self.completed
    }

    /// Whether every assertion checked so far held.
    pub closed spec fn passed(&self) -> bool {
        self.test_passed
    }

    /// A runner at the first action, not started, passing.
    pub fn new(config: TestConfig) -> (r: Self)
        ensures
            r.scenario() == config,
            !r.started(),
            r.next_action() == 0,
            !r.done(),
            r.passed(),
    {
        TestRunner {
            config,
            start_time: None,
            current_action_index: 0,
            completed: false,
            test_passed: true,
        }
    }

    /// Starts the clock, once: a runner already started keeps its start
    /// instant.
    pub fn start(&mut self)
        ensures
            final(self).started(),
            old(self).started() ==> final(self).start_instant() == old(self).start_instant(),
            polled(*old(self), None, *final(self)),
            final(self).scenario() == old(self).scenario(),
            final(self).next_action() == old(self).next_action(),
            final(self).done() == old(self).done(),
            final(self).passed() == old(self).passed(),
    {
        proof {
            use_type_invariant(&*self);
        }
        if self.start_time.is_none() {
            self.start_time = Some(instant_now());
        }
    }

    /// Whether every action was handed out.
    pub fn is_completed(&self) -> (b: bool)
        ensures
            b == self.done(),
    {
        self.completed
    }

    /// Whether every assertion checked so far held.
    pub fn test_passed(&self) -> (b: bool)
        ensures
            b == self.passed(),
    {
        self.test_passed
    }

    /// The time since the start, and zero milliseconds before the runner
    /// was started; what the clock says after the start is not claimed.
    pub fn elapsed(&self) -> (d: core::time::Duration)
        ensures
            !self.started() ==> d == millis_duration(0),
    {
        match &self.start_time {
            Some(t) => instant_elapsed(t),
            None => duration_from_millis(0),
        }
    }

    /// The command an action sends.
    pub fn action_to_command(&self, action: &ActionType) -> (c: TestCommand)
        ensures
            command_for(*action, c),
            (*action is ClickRecord) == (c is ClickRecord),
            (*action is StopRecord) == (c is StopRecord),
            (*action is CancelRecord) == (c is CancelRecord),
            (*action is StopGeneration) == (c is StopGeneration),
            (*action is ReportSuccess) == (c is ReportSuccess),
    {
        match action {
            ActionType::ClickRecord => TestCommand::ClickRecord,
            ActionType::StopRecord => TestCommand::StopRecord,
            ActionType::CancelRecord => TestCommand::CancelRecord,
            ActionType::Exit { code } => TestCommand::Exit { code: *code },
            ActionType::Log { message } => TestCommand::Exit { code: -999i32 },
            ActionType::SendText { text } => TestCommand::SendText { text: text.clone() },
            ActionType::StopGeneration => TestCommand::StopGeneration,
            ActionType::Snapshot { name } => TestCommand::Snapshot { name: name.clone() },
            ActionType::ReportSuccess => TestCommand::ReportSuccess,
            ActionType::ReportFailure { reason } => TestCommand::ReportFailure {
                reason: reason.clone(),
            },
        }
    }

    /// Hands out the next action if `elapsed_ms` milliseconds since the
    /// start have reached its time, with its assertion. Handing out the
    /// last action, or finding none left, completes the run.
    pub fn poll_at(&mut self, elapsed_ms: u128) -> (r: Option<(TestCommand, Option<Assertion>)>)
        ensures
            old(self).done() ==> final(self).done() && r.is_none() && final(self).next_action()
                == old(self).next_action(),
            polled(*old(self), r, *final(self)),
            final(self).next_action() <= final(self).scenario().actions@.len(),
            final(self).done() ==> final(self).next_action() == final(self).scenario().actions@.len(),
            final(self).scenario() == old(self).scenario(),
            final(self).started() == old(self).started(),
            final(self).start_instant() == old(self).start_instant(),
            final(self).passed() == old(self).passed(),
            ({
                let acts = old(self).scenario().actions@;
                let i = old(self).next_action();
                if old(self).done() {
                    &&& r.is_none()
                    &&& final(self).done()
                    &&& final(self).next_action() == i
                } else if i >= acts.len() {
                    &&& r.is_none()
                    &&& final(self).done()
                    &&& final(self).next_action() == i
                } else if elapsed_ms >= acts[i as int].time_ms {
                    &&& r matches Some((c, a)) && command_for(acts[i as int].action, c) && a
                        == acts[i as int].assert
                    &&& final(self).next_action() == i + 1
                    &&& final(self).done() == (i + 1 >= acts.len())
                } else {
                    &&& r.is_none()
                    &&& !final(self).done()
                    &&& final(self).next_action() == i
                }
            }),
    {
        proof {
            use_type_invariant(&*self);
        }
        if self.completed {
            return None;
        }
        if self.current_action_index >= self.config.actions.len() {
            self.completed = true;
            return None;
        }
        let idx = self.current_action_index;
        if elapsed_ms >= self.config.actions[idx].time_ms as u128 {
            let command = self.action_to_command(&self.config.actions[idx].action);
            let assertion = match &self.config.actions[idx].assert {
                Some(a) => Some(copy_assertion(a)),
                None => None,
            };
            self.current_action_index = idx + 1;
            if self.current_action_index >= self.config.actions.len() {
                self.completed = true;
            }
            Some((command, assertion))
        } else {
            None
        }
    }

    /// Hands out the next action if its time has come (see `poll_at`);
    /// nothing before the runner is started or after it completed; a
    /// started run with no action left completes.
    pub fn poll(&mut self) -> (r: Option<(TestCommand, Option<Assertion>)>)
        ensures
            old(self).done() ==> final(self).done() && r.is_none() && final(self).next_action()
                == old(self).next_action(),
            polled(*old(self), r, *final(self)),
            old(self).started() && !old(self).done() && old(self).next_action()
                >= old(self).scenario().actions@.len() ==> r.is_none() && final(self).done(),
            final(self).next_action() <= final(self).scenario().actions@.len(),
            final(self).done() ==> final(self).next_action() == final(self).scenario().actions@.len(),
            final(self).scenario() == old(self).scenario(),
            final(self).started() == old(self).started(),
            final(self).start_instant() == old(self).start_instant(),
            final(self).passed() == old(self).passed(),
            (old(self).done() || !old(self).started()) ==> r.is_none() && *final(self)
                == *old(self),
            r matches Some((c, a)) ==> {
                let i = old(self).next_action();
                &&& i < old(self).scenario().actions@.len()
                &&& command_for(old(self).scenario().actions@[i as int].action, c)
                &&& a == old(self).scenario().actions@[i as int].assert
                &&& final(self).next_action() == i + 1
                &&& final(self).done() == (i + 1 >= old(self).scenario().actions@.len())
            },
            r.is_none() ==> final(self).next_action() == old(self).next_action(),
    {
        proof {
            use_type_invariant(&*self);
        }
        if self.completed {
            return None;
        }
        let elapsed_ms = match &self.start_time {
            Some(t) => {
                let d = instant_elapsed(t);
                duration_millis(&d)
            },
            None => {
                return None;
            },
        };
        self.poll_at(elapsed_ms)
    }

    /// Checks an assertion against the application state; a failure marks
    /// the test failed.
    pub fn check_assertion_with_app_state(&mut self, assertion: &Assertion, state: &AppState) -> (r:
        AssertionResult)
        ensures
            final(self).passed() == (old(self).passed() && !failed(Some(r))),
            result_is(r, state_failure(*assertion, *state)),
            final(self).passed() == (old(self).passed() && state_failure(
                *assertion,
                *state,
            ).is_none()),
            final(self).scenario() == old(self).scenario(),
            final(self).started() == old(self).started(),
            final(self).start_instant() == old(self).start_instant(),
            final(self).next_action() == old(self).next_action(),
            final(self).done() == old(self).done(),
    {
        self.check_assertion_impl(assertion, state)
    }

    /// Checks an assertion against the application state; a failure marks
    /// the test failed.
    pub fn check_assertion_impl(&mut self, assertion: &Assertion, state: &AppState) -> (r:
        AssertionResult)
        ensures
            final(self).passed() == (old(self).passed() && !failed(Some(r))),
            result_is(r, state_failure(*assertion, *state)),
            final(self).passed() == (old(self).passed() && state_failure(
                *assertion,
                *state,
            ).is_none()),
            final(self).scenario() == old(self).scenario(),
            final(self).started() == old(self).started(),
            final(self).start_instant() == old(self).start_instant(),
            final(self).next_action() == old(self).next_action(),
            final(self).done() == old(self).done(),
    {
        let result = match assertion {
            Assertion::IsRecording => {
                if state.recording.is_recording() {
                    AssertionResult::Passed
                } else {
                    AssertionResult::Failed(str_of(
                        "Expected state to be Recording, got ",
                        state.recording.name(),
                    ))
                }
            },
            Assertion::IsIdle => {
                if state.is_idle() {
                    AssertionResult::Passed
                } else {
                    AssertionResult::Failed(str4(
                        "Expected state to be Idle, got recording=",
                        state.recording.name(),
                        ", llm=",
                        state.llm.name(),
                    ))
                }
            },
            Assertion::IsProcessing => {
                if state.recording.is_processing() {
                    AssertionResult::Passed
                } else {
                    AssertionResult::Failed(str_of(
                        "Expected state to be Processing, got ",
                        state.recording.name(),
                    ))
                }
            },
            Assertion::AudioBufferMinSamples { min_samples } => {
                if state.audio_buffer_samples >= *min_samples {
                    AssertionResult::Passed
                } else {
                    AssertionResult::Failed(min_count_failure(
                        " audio samples, got ",
                        *min_samples as u64,
                        state.audio_buffer_samples as u64,
                    ))
                }
            },
            Assertion::AudioBufferNotEmpty => {
                if state.audio_buffer_samples > 0 {
                    AssertionResult::Passed
                } else {
                    AssertionResult::Failed(String::from_str("Expected audio buffer to not be empty"))
                }
            },
            Assertion::SttPhase { phase } => {
                AssertionResult::Failed(str3(
                    "STT phase assertion '",
                    phase.as_str(),
                    "' not yet supported with unified state",
                ))
            },
            Assertion::SttSpeechChunksMin { min_chunks } => {
                let m = u64_to_decimal(*min_chunks);
                AssertionResult::Failed(str3(
                    "STT speech chunks assertion (min=",
                    m.as_str(),
                    ") not yet supported with unified state",
                ))
            },
            Assertion::SttHasTranscription => {
                if state.transcription.last_text.is_some() {
                    AssertionResult::Passed
                } else {
                    AssertionResult::Failed(String::from_str(
                        "Expected transcription result, none received",
                    ))
                }
            },
            Assertion::SttHasFirstWord => {
                if state.transcription.has_first_word {
                    AssertionResult::Passed
                } else {
                    AssertionResult::Failed(String::from_str(
                        "Expected first word detection, none received",
                    ))
                }
            },
            Assertion::SttTranscriptionContains { text } => {
                check_contains(text, &state.transcription.last_text)
            },
        };
        self.log_assertion_result(&result);
        result
    }

    /// Checks an assertion against a reported context; a failure marks the
    /// test failed.
    pub fn check_assertion(&mut self, assertion: &Assertion, context: &AssertionContext) -> (r:
        AssertionResult)
        ensures
            final(self).passed() == (old(self).passed() && !failed(Some(r))),
            result_is(r, context_failure(*assertion, *context)),
            final(self).passed() == (old(self).passed() && context_failure(
                *assertion,
                *context,
            ).is_none()),
            final(self).scenario() == old(self).scenario(),
            final(self).started() == old(self).started(),
            final(self).start_instant() == old(self).start_instant(),
            final(self).next_action() == old(self).next_action(),
            final(self).done() == old(self).done(),
    {
        let result = match assertion {
            Assertion::IsRecording => {
                if context.is_recording {
                    AssertionResult::Passed
                } else {
                    AssertionResult::Failed(String::from_str("Expected state to be Recording"))
                }
            },
            Assertion::IsIdle => {
                if context.is_idle {
                    AssertionResult::Passed
                } else {
                    AssertionResult::Failed(String::from_str("Expected state to be Idle"))
                }
            },
            Assertion::IsProcessing => {
                if context.is_processing {
                    AssertionResult::Passed
                } else {
                    AssertionResult::Failed(String::from_str("Expected state to be Processing"))
                }
            },
            Assertion::AudioBufferMinSamples { min_samples } => {
                if context.audio_buffer_samples >= *min_samples {
                    AssertionResult::Passed
                } else {
                    AssertionResult::Failed(min_count_failure(
                        " audio samples, got ",
                        *min_samples as u64,
                        context.audio_buffer_samples as u64,
                    ))
                }
            },
            Assertion::AudioBufferNotEmpty => {
                if context.audio_buffer_samples > 0 {
                    AssertionResult::Passed
                } else {
                    AssertionResult::Failed(String::from_str("Expected audio buffer to not be empty"))
                }
            },
            Assertion::SttPhase { phase } => {
                match &context.stt_phase {
                    Some(current) => {
                        let a = lower_of_str(current.as_str());
                        let b = lower_of_str(phase.as_str());
                        if crate::text::chars_eq(a.as_slice(), b.as_slice()) {
                            AssertionResult::Passed
                        } else {
                            AssertionResult::Failed(str5(
                                "Expected STT phase '",
                                phase.as_str(),
                                "', got '",
                                current.as_str(),
                                "'",
                            ))
                        }
                    },
                    None => AssertionResult::Failed(str3(
                        "Expected STT phase '",
                        phase.as_str(),
                        "', but STT is not initialized",
                    )),
                }
            },
            Assertion::SttSpeechChunksMin { min_chunks } => {
                if context.stt_speech_chunks >= *min_chunks {
                    AssertionResult::Passed
                } else {
                    AssertionResult::Failed(min_count_failure(
                        " speech chunks, got ",
                        *min_chunks,
                        context.stt_speech_chunks,
                    ))
                }
            },
            Assertion::SttHasTranscription => {
                if context.stt_has_transcription {
                    AssertionResult::Passed
                } else {
                    AssertionResult::Failed(String::from_str(
                        "Expected transcription result, none received",
                    ))
                }
            },
            Assertion::SttHasFirstWord => {
                if context.stt_has_first_word {
                    AssertionResult::Passed
                } else {
                    AssertionResult::Failed(String::from_str(
                        "Expected first word detection, none received",
                    ))
                }
            },
            Assertion::SttTranscriptionContains { text } => {
                check_contains(text, &context.stt_last_transcription)
            },
        };
        self.log_assertion_result(&result);
        result
    }

    /// Records an assertion result: a failure marks the test failed.
    pub fn log_assertion_result(&mut self, result: &AssertionResult)
        ensures
            final(self).passed() == (old(self).passed() && result is Passed),
            final(self).scenario() == old(self).scenario(),
            final(self).started() == old(self).started(),
            final(self).start_instant() == old(self).start_instant(),
            final(self).next_action() == old(self).next_action(),
            final(self).done() == old(self).done(),
    {
        proof {
            use_type_invariant(&*self);
        }
        if let AssertionResult::Failed(_) = result {
            self.test_passed = false;
        }
    }

    /// The start of the summary line, up to the elapsed time.
    pub open spec fn summary_head(&self) -> Seq<char> {
        "[TEST] Test '"@ + self.scenario().test.name@ + "' "@ + (if self.passed() {
            "PASSED"@
        } else {
            "FAILED"@
        }) + ": Executed "@ + decimal(self.next_action() as nat) + " actions in "@
    }

    /// A one-line summary: the test's name, PASSED or FAILED, the number of
    /// actions handed out, then the `Debug` text of the time since the start
    /// (zero milliseconds before the start; after it, what the clock gives).
    pub fn summary(&self) -> (s: String)
        ensures
            self.summary_head().len() <= s@.len(),
            s@.subrange(0, self.summary_head().len() as int) == self.summary_head(),
            exists|d: core::time::Duration| s@ == self.summary_head() + #[trigger] duration_debug(d),
            !self.started() ==> s@ == self.summary_head() + duration_debug(millis_duration(0)),
    {
        let status = if self.test_passed {
            "PASSED"
        } else {
            "FAILED"
        };
        let count = u64_to_decimal(self.current_action_index as u64);
        let d = self.elapsed();
        let text = duration_debug_text(&d);
        let mut s = String::from_str("[TEST] Test '");
        s.append(self.config.test.name.as_str());
        s.append("' ");
        s.append(status);
        s.append(": Executed ");
        s.append(count.as_str());
        s.append(" actions in ");
        s.append(text.as_str());
        proof {
            assert(s@ =~= self.summary_head() + duration_debug(d));
        }
        s
    }
}

} // verus!
