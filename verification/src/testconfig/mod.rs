//! Scripted test scenarios: timed actions with optional assertions on the
//! application state, and their validation.

pub mod runner;

use crate::text::{decimal, u64_to_decimal};
use vstd::prelude::*;

verus! {

/// A test scenario: its metadata and its timed actions.
#[derive(Debug, Clone)]
pub struct TestConfig {
    /// Test metadata.
    pub test: TestMetadata,
    /// Timed actions, in order.
    pub actions: Vec<TestAction>,
}

/// Metadata of a scenario.
#[derive(Debug, Clone)]
pub struct TestMetadata {
    /// Name of the test.
    pub name: String,
    /// What the test checks.
    pub description: String,
}

/// An action at a time, with an optional assertion checked after it.
#[derive(Debug, Clone)]
pub struct TestAction {
    /// Milliseconds after the test starts.
    pub time_ms: u64,
    /// The action.
    pub action: ActionType,
    /// The assertion checked after the action.
    pub assert: Option<Assertion>,
}

/// Actions a scenario can perform.
#[derive(Debug, Clone)]
pub enum ActionType {
    /// Toggle recording.
    ClickRecord,
    /// Stop recording.
    StopRecord,
    /// Cancel recording.
    CancelRecord,
    /// Exit with a code (0 for success).
    Exit { code: i32 },
    /// Log a message.
    Log { message: String },
    /// Send text straight to the language model.
    SendText { text: String },
    /// Stop the current generation.
    StopGeneration,
    /// Capture a screenshot under a name.
    Snapshot { name: String },
    /// Mark the test successful.
    ReportSuccess,
    /// Mark the test failed.
    ReportFailure { reason: String },
}

/// Conditions a scenario can check.
#[derive(Debug, Clone)]
pub enum Assertion {
    /// Recording.
    IsRecording,
    /// Idle.
    IsIdle,
    /// Transcribing.
    IsProcessing,
    /// At least this many audio samples buffered.
    AudioBufferMinSamples { min_samples: usize },
    /// Some audio buffered.
    AudioBufferNotEmpty,
    /// The speech-to-text worker is in a phase.
    SttPhase { phase: String },
    /// At least this many speech chunks detected.
    SttSpeechChunksMin { min_chunks: u64 },
    /// A transcription was received.
    SttHasTranscription,
    /// A first word was detected.
    SttHasFirstWord,
    /// The transcription contains a text, ignoring case.
    SttTranscriptionContains { text: String },
}

/// Errors of loading or validating a scenario.
#[derive(Debug, Clone)]
pub enum TestConfigError {
    /// The file could not be read.
    IoError { path: String, error: String },
    /// The file could not be parsed.
    ParseError { path: String, error: String },
    /// The scenario is invalid.
    ValidationError(String),
}

/// The action is an exit.
pub open spec fn is_exit(a: TestAction) -> bool {
    a.action is Exit
}

/// The index of the first action scheduled before the one preceding it.
pub open spec fn out_of_order(actions: Seq<TestAction>, i: int) -> bool {
    0 < i < actions.len() && actions[i].time_ms < actions[i - 1].time_ms
}

/// No action before `k` is scheduled before the one preceding it.
pub open spec fn ordered_before(actions: Seq<TestAction>, k: int) -> bool {
    forall|i: int| 0 < i < k ==> !out_of_order(actions, i)
}

/// Why a scenario is invalid, if it is: no action; an action scheduled
/// before the preceding one (the first such, with its time and the
/// preceding time); no exit action.
pub open spec fn validation_message(actions: Seq<TestAction>) -> Option<Seq<char>> {
    if actions.len() == 0 {
        Some("Test configuration must have at least one action"@)
    } else if exists|i: int| out_of_order(actions, i) {
        let i = choose|i: int| out_of_order(actions, i) && ordered_before(actions, i);
        Some(
            "Actions must be ordered by time. Found action at "@ + decimal(
                actions[i].time_ms as nat,
            ) + "ms after action at "@ + decimal(actions[i - 1].time_ms as nat) + "ms"@,
        )
    } else if !(exists|i: int| 0 <= i < actions.len() && is_exit(#[trigger] actions[i])) {
        Some("Test configuration must have an Exit action"@)
    } else {
        None
    }
}

/// Law: a scenario is valid exactly when it has an action, every action is
/// scheduled no earlier than the one before it, and some action exits. An
/// invalid order is reported at the first action scheduled before its
/// predecessor, with both times.
pub proof fn law_valid_scenarios(actions: Seq<TestAction>)
    ensures
        validation_message(actions).is_none() <==> (actions.len() > 0 && (forall|i: int|
            0 < i < actions.len() ==> #[trigger] actions[i - 1].time_ms <= actions[i].time_ms)
            && (exists|i: int| 0 <= i < actions.len() && #[trigger] actions[i].action is Exit)),
        actions.len() > 0 ==> forall|k: int|
            #![trigger actions[k]]
            0 < k < actions.len() && actions[k].time_ms < actions[k - 1].time_ms && (forall|j: int|
                0 < j < k ==> actions[j - 1].time_ms <= #[trigger] actions[j].time_ms)
                ==> validation_message(actions) == Some(
                "Actions must be ordered by time. Found action at "@ + decimal(
                    actions[k].time_ms as nat,
                ) + "ms after action at "@ + decimal(actions[k - 1].time_ms as nat) + "ms"@,
            ),
{
    assert((!exists|k: int| out_of_order(actions, k)) <==> (forall|i: int|
        0 < i < actions.len() ==> #[trigger] actions[i - 1].time_ms <= actions[i].time_ms)) by {
        if forall|i: int| 0 < i < actions.len() ==> #[trigger] actions[i - 1].time_ms
            <= actions[i].time_ms {
            assert forall|k: int| !out_of_order(actions, k) by {
                if 0 < k < actions.len() {
                    assert(actions[k - 1].time_ms <= actions[k].time_ms);
                }
            }
        }
        if !exists|k: int| out_of_order(actions, k) {
            assert forall|i: int| 0 < i < actions.len() implies #[trigger] actions[i - 1].time_ms
                <= actions[i].time_ms by {
                assert(!out_of_order(actions, i));
            }
        }
    }
    assert((exists|i: int| 0 <= i < actions.len() && is_exit(#[trigger] actions[i])) <==> (exists|
        i: int,
    | 0 <= i < actions.len() && #[trigger] actions[i].action is Exit)) by {
        if exists|i: int| 0 <= i < actions.len() && #[trigger] actions[i].action is Exit {
            let i = choose|i: int| 0 <= i < actions.len() && #[trigger] actions[i].action is Exit;
            assert(is_exit(actions[i]));
        }
    }
    assert forall|k: int|
        #![trigger actions[k]]
        actions.len() > 0 && 0 < k < actions.len() && actions[k].time_ms < actions[k - 1].time_ms
            && (forall|j: int| 0 < j < k ==> actions[j - 1].time_ms <= #[trigger] actions[j].time_ms)
            implies validation_message(actions) == Some(
        "Actions must be ordered by time. Found action at "@ + decimal(actions[k].time_ms as nat)
            + "ms after action at "@ + decimal(actions[k - 1].time_ms as nat) + "ms"@,
    ) by {
        assert(out_of_order(actions, k));
        assert forall|j: int| 0 < j < k implies !out_of_order(actions, j) by {
            assert(actions[j - 1].time_ms <= actions[j].time_ms);
        }
        assert(ordered_before(actions, k));
        let k0 = choose|i: int| out_of_order(actions, i) && ordered_before(actions, i);
        assert(k0 == k) by {
            if k0 < k {
                assert(!out_of_order(actions, k0));
            } else if k0 > k {
                assert(!out_of_order(actions, k));
            }
        }
    }
}

fn ordered_message(at: u64, last: u64) -> (s: String)
    ensures
        s@ == "Actions must be ordered by time. Found action at "@ + decimal(at as nat)
            + "ms after action at "@ + decimal(last as nat) + "ms"@,
{
    let mut s = String::from_str("Actions must be ordered by time. Found action at ");
    let a = u64_to_decimal(at);
    s.append(a.as_str());
    s.append("ms after action at ");
    let b = u64_to_decimal(last);
    s.append(b.as_str());
    s.append("ms");
    s
}

impl TestConfig {
    /// Checks that the scenario has actions, that they are in time order,
    /// and that one of them exits.
    pub fn validate(&self) -> (r: Result<(), TestConfigError>)
        ensures
            match validation_message(self.actions@) {
                None => r is Ok,
                Some(m) => r matches Err(TestConfigError::ValidationError(s)) && s@ == m,
            },
            r is Ok <==> (self.actions@.len() > 0 && (forall|i: int|
                0 < i < self.actions@.len() ==> #[trigger] self.actions@[i - 1].time_ms
                    <= self.actions@[i].time_ms) && (exists|i: int|
                0 <= i < self.actions@.len() && #[trigger] self.actions@[i].action is Exit)),
    {
        proof {
            law_valid_scenarios(self.actions@);
        }
        let n = self.actions.len();
        if n == 0 {
            return Err(TestConfigError::ValidationError(String::from_str(
                "Test configuration must have at least one action",
            )));
        }
        let mut last_time: u64 = 0;
        let mut i: usize = 0;
        while i < n
            invariant
                i <= n,
                n == self.actions@.len(),
                n > 0,
                ordered_before(self.actions@, i as int),
                i > 0 ==> last_time == self.actions@[i - 1].time_ms,
                i == 0 ==> last_time == 0,
            decreases n - i,
        {
            let t = self.actions[i].time_ms;
            if t < last_time {
                proof {
                    let acts = self.actions@;
                    assert(out_of_order(acts, i as int));
                    let k = choose|k: int| out_of_order(acts, k) && ordered_before(acts, k);
                    assert(k == i) by {
                        if k < i {
                            assert(!out_of_order(acts, k));
                        } else if k > i {
                            assert(!out_of_order(acts, i as int));
                        }
                    }
                }
                return Err(TestConfigError::ValidationError(ordered_message(t, last_time)));
            }
            last_time = t;
            i = i + 1;
        }
        proof {
            assert(!exists|k: int| out_of_order(self.actions@, k));
        }
        let mut j: usize = 0;
        while j < n
            invariant
                j <= n,
                n == self.actions@.len(),
                forall|k: int| 0 <= k < j ==> !is_exit(#[trigger] self.actions@[k]),
                n > 0,
                !exists|k: int| out_of_order(self.actions@, k),
            decreases n - j,
        {
            if let ActionType::Exit { .. } = self.actions[j].action {
                proof {
                    assert(is_exit(self.actions@[j as int]));
                    assert(self.actions@[j as int].action is Exit);
                    assert(validation_message(self.actions@).is_none());
                    assert forall|i: int|
                        0 < i < self.actions@.len() implies #[trigger] self.actions@[i - 1].time_ms
                            <= self.actions@[i].time_ms by {
                        assert(!out_of_order(self.actions@, i));
                    }
                    assert(exists|i: int|
                        0 <= i < self.actions@.len() && #[trigger] self.actions@[i].action is Exit);
                }
                return Ok(());
            }
            j = j + 1;
        }
        Err(TestConfigError::ValidationError(String::from_str("Test configuration must have an Exit action")))
    }
}

/// What `Duration::from_millis` returns.
pub uninterp spec fn millis_duration(ms: u64) -> core::time::Duration;

/// `Duration::from_millis`. The duration's representation is not restated;
/// the result is named `millis_duration` of the argument.
#[verifier::external_body]
pub(crate) fn duration_from_millis(ms: u64) -> (d: core::time::Duration)
    ensures
        d == millis_duration(ms),
{
    core::time::Duration::from_millis(ms)
}

impl TestAction {
    /// The time after the test start at which the action runs.
    pub fn delay(&self) -> (d: core::time::Duration)
        ensures
            d == millis_duration(self.time_ms),
    {
        duration_from_millis(self.time_ms)
    }
}

impl TestConfigError {
    /// The error as displayed.
    pub fn message(&self) -> (s: String)
        ensures
            s@ == match self {
                TestConfigError::IoError { path, error } => "Failed to read test config '"@ + path@
                    + "': "@ + error@,
                TestConfigError::ParseError { path, error } => "Failed to parse test config '"@
                    + path@ + "': "@ + error@,
                TestConfigError::ValidationError(msg) => "Invalid test config: "@ + msg@,
            },
    {
        match self {
            TestConfigError::IoError { path, error } => {
                let mut s = String::from_str("Failed to read test config '");
                s.append(path.as_str());
                s.append("': ");
                s.append(error.as_str());
                s
            },
            TestConfigError::ParseError { path, error } => {
                let mut s = String::from_str("Failed to parse test config '");
                s.append(path.as_str());
                s.append("': ");
                s.append(error.as_str());
                s
            },
            TestConfigError::ValidationError(msg) => {
                let mut s = String::from_str("Invalid test config: ");
                s.append(msg.as_str());
                s
            },
        }
    }
}

} // verus!
