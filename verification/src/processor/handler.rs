//! Command detection on transcribed speech and the message handler's
//! decisions: which transcriptions reach the language model and which
//! are treated as a stop command.
use crate::text::{
    chars_eq, chars_of, lowercase_chars, lowercase_of, split_words, trim, trim_chars,
    trim_end_punct, trim_end_punct_chars, words,
};
use vstd::prelude::*;

verus! {

/// The words that stop the current generation.
pub open spec fn stop_words() -> Seq<Seq<char>> {
    seq!["stop"@, "halt"@, "cancel"@, "abort"@, "quit"@]
}

/// A word is a stop command when, lower-cased and without trailing ASCII
/// punctuation, it is exactly one of the stop words.
pub open spec fn is_stop_word(word: Seq<char>) -> bool {
    stop_words().contains(trim_end_punct(lowercase_of(word)))
}

/// Commands that can be detected from speech.
#[derive(Clone, Copy, Debug, PartialEq, Eq, Structural)]
pub enum MessageCommand {
    /// Stop the current generation.
    Stop,
    /// Continue with normal processing.
    Continue,
}

/// Commands sent to the message handler.
#[derive(Clone, Debug)]
pub enum MessageHandlerCommand {
    /// A first word to check for a command.
    CheckFirstWord(String),
    /// A complete transcription.
    ProcessTranscription(String),
    /// Shut the handler down.
    Shutdown,
}

/// Events emitted by the message handler.
#[derive(Clone, Debug)]
pub enum MessageHandlerEvent {
    /// A command was detected.
    CommandDetected(MessageCommand),
    /// Text ready for the language model.
    TextReady(String),
    /// The handler has shut down.
    Shutdown,
}

fn stop_word_chars(cleaned: &[char]) -> (b: bool)
    ensures
        b == stop_words().contains(cleaned@),
{
    let words = [chars_of("stop"), chars_of("halt"), chars_of("cancel"), chars_of("abort"), chars_of("quit")];
    let mut i: usize = 0;
    while i < 5
        invariant
            0 <= i <= 5,
            forall|k: int| 0 <= k < 5 ==> (#[trigger] words@[k])@ == stop_words()[k],
            forall|k: int| 0 <= k < i ==> stop_words()[k] != cleaned@,
        decreases 5 - i,
    {
        if chars_eq(words[i].as_slice(), cleaned) {
            proof {
                assert(stop_words()[i as int] == cleaned@);
            }
            return true;
        }
        i = i + 1;
    }
    proof {
        assert forall|k: int| 0 <= k < stop_words().len() implies stop_words()[k] != cleaned@ by {}
    }
    false
}

fn is_stop_chars(word: &[char]) -> (b: bool)
    ensures
        b == is_stop_word(word@),
{
    let low = lowercase_chars(word);
    let cleaned = trim_end_punct_chars(low.as_slice());
    stop_word_chars(cleaned.as_slice())
}

/// Whether `word` is a stop command: exact match, ignoring case and
/// trailing punctuation; "stopping" is not one.
pub fn is_stop_command(word: &str) -> (b: bool)
    ensures
        b == is_stop_word(word@),
{
    let w = chars_of(word);
    is_stop_chars(w.as_slice())
}

/// The command that `word` stands for, if any.
pub fn detect_command(word: &str) -> (c: Option<MessageCommand>)
    ensures
        c == (if is_stop_word(word@) {
            Some(MessageCommand::Stop)
        } else {
            None
        }),
{
    if is_stop_command(word) {
        Some(MessageCommand::Stop)
    } else {
        None
    }
}

/// Whether a transcription is nothing but a single stop word.
pub open spec fn is_only_command_text(text: Seq<char>) -> bool {
    words(text).len() == 1 && is_stop_word(words(text)[0])
}

/// Whether the whole transcription is a single stop word.
pub fn is_only_command(text: &str) -> (b: bool)
    ensures
        b == is_only_command_text(text@),
{
    let t = chars_of(text);
    let ws = split_words(t.as_slice());
    if ws.len() == 1 {
        is_stop_chars(ws[0].as_slice())
    } else {
        false
    }
}

/// What the handler does with one command: the new pending command, the
/// event to emit (if any), and whether it stops afterwards.
pub open spec fn handler_next(pending: Option<MessageCommand>, cmd: MessageHandlerCommand) -> (
    Option<MessageCommand>,
    Option<MessageHandlerEvent>,
    bool,
) {
    match cmd {
        MessageHandlerCommand::CheckFirstWord(word) => {
            if is_stop_word(word@) {
                (
                    Some(MessageCommand::Stop),
                    Some(MessageHandlerEvent::CommandDetected(MessageCommand::Stop)),
                    false,
                )
            } else {
                (pending, None, false)
            }
        },
        MessageHandlerCommand::ProcessTranscription(text) => {
            let trimmed = trim(text@);
            if trimmed.len() == 0 {
                (None, None, false)
            } else if pending == Some(MessageCommand::Stop) {
                (None, None, false)
            } else if is_only_command_text(trimmed) {
                (None, Some(MessageHandlerEvent::CommandDetected(MessageCommand::Stop)), false)
            } else {
                (None, None, false)
            }
        },
        MessageHandlerCommand::Shutdown => (pending, Some(MessageHandlerEvent::Shutdown), true),
    }
}

/// The text a transcription forwards to the language model, if any.
pub open spec fn handler_forwards(pending: Option<MessageCommand>, text: Seq<char>) -> bool {
    let trimmed = trim(text);
    trimmed.len() > 0 && pending != Some(MessageCommand::Stop) && !is_only_command_text(trimmed)
}

/// Law: a stop word heard as the first word of an utterance stops the
/// generation and keeps that whole utterance from the language model;
/// the utterance's transcription then clears the pending command, so the
/// next utterance is handled afresh.
pub proof fn law_stop_word_silences_its_utterance(
    pending: Option<MessageCommand>,
    word: String,
    text: String,
)
    requires
        is_stop_word(word@),
    ensures
        ({
            let (p1, e1, stop1) = handler_next(
                pending,
                MessageHandlerCommand::CheckFirstWord(word),
            );
            let (p2, e2, stop2) = handler_next(
                p1,
                MessageHandlerCommand::ProcessTranscription(text),
            );
            &&& e1 == Some(MessageHandlerEvent::CommandDetected(MessageCommand::Stop))
            &&& !handler_forwards(p1, text@)
            &&& e2.is_none()
            &&& p2.is_none()
            &&& !stop1 && !stop2
        }),
{
}

/// Law: a transcription always clears the pending command, and it is
/// forwarded exactly when no stop command is pending and it is neither
/// empty nor a lone stop word.
pub proof fn law_transcription_clears_pending(pending: Option<MessageCommand>, text: String)
    ensures
        handler_next(pending, MessageHandlerCommand::ProcessTranscription(text)).0.is_none(),
        handler_forwards(pending, text@) <==> (trim(text@).len() > 0 && pending != Some(
            MessageCommand::Stop,
        ) && !is_only_command_text(trim(text@))),
{
}

/// The message handler's state: a stop command detected from the first
/// word of the current utterance.
pub struct MessageHandlerState {
    pub pending_command: Option<MessageCommand>,
}

/// The outcome of one command: the event to send, and whether the handler
/// stops after sending it.
pub struct HandlerOutcome {
    pub event: Option<MessageHandlerEvent>,
    pub shutdown: bool,
}

impl MessageHandlerState {
    /// A handler with no pending command.
    pub fn new() -> (s: Self)
        ensures
            s.pending_command.is_none(),
    {
        MessageHandlerState { pending_command: None }
    }

    /// Decides what to do with one command. A stop word in the first word
    /// emits `CommandDetected(Stop)` at once and suppresses the following
    /// transcription; an empty transcription is ignored; a transcription
    /// that is only a stop word emits the command; any other transcription
    /// is forwarded trimmed; `Shutdown` emits `Shutdown` and stops.
    pub fn handle(&mut self, cmd: MessageHandlerCommand) -> (out: HandlerOutcome)
        ensures
            ({
                let (p, e, stop) = handler_next(old(self).pending_command, cmd);
                &&& final(self).pending_command == p
                &&& out.shutdown == stop
                &&& match cmd {
                    MessageHandlerCommand::ProcessTranscription(text) => if handler_forwards(
                        old(self).pending_command,
                        text@,
                    ) {
                        out.event matches Some(MessageHandlerEvent::TextReady(t)) && t@ == trim(
                            text@,
                        )
                    } else {
                        out.event == e
                    },
                    _ => out.event == e,
                }
            }),
    {
        match cmd {
            MessageHandlerCommand::CheckFirstWord(word) => {
                match detect_command(word.as_str()) {
                    Some(c) => {
                        self.pending_command = Some(c);
                        HandlerOutcome {
                            event: Some(MessageHandlerEvent::CommandDetected(c)),
                            shutdown: false,
                        }
                    },
                    None => HandlerOutcome { event: None, shutdown: false },
                }
            },
            MessageHandlerCommand::ProcessTranscription(text) => {
                let t = chars_of(text.as_str());
                let trimmed = trim_chars(t.as_slice());
                if trimmed.len() == 0 {
                    self.pending_command = None;
                    return HandlerOutcome { event: None, shutdown: false };
                }
                let was = self.pending_command;
                self.pending_command = None;
                if was == Some(MessageCommand::Stop) {
                    return HandlerOutcome { event: None, shutdown: false };
                }
                let trimmed_text = crate::text::string_from_chars(trimmed.as_slice());
                if is_only_command(trimmed_text.as_str()) {
                    HandlerOutcome {
                        event: Some(MessageHandlerEvent::CommandDetected(MessageCommand::Stop)),
                        shutdown: false,
                    }
                } else {
                    HandlerOutcome {
                        event: Some(MessageHandlerEvent::TextReady(trimmed_text)),
                        shutdown: false,
                    }
                }
            },
            MessageHandlerCommand::Shutdown => HandlerOutcome {
                event: Some(MessageHandlerEvent::Shutdown),
                shutdown: true,
            },
        }
    }
}

} // verus!
