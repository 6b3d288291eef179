//! Errors of the application, whether the application can go on after
//! each, and the text shown for each.
use vstd::prelude::*;

verus! {

/// An error of the application; each carries a detail text.
#[derive(Debug, Clone)]
pub enum ProtoError {
    /// Opening or running an audio device failed.
    AudioDeviceError(String),
    /// Transcription failed.
    STTError(String),
    /// Language-model inference failed.
    LLMError(String),
    /// A channel between workers broke.
    ChannelError(String),
    /// A file-system operation failed.
    IOError(String),
    /// Processing audio failed.
    AudioProcessingError(String),
    /// The configuration is wrong.
    ConfigError(String),
}

/// The errors after which the application can go on: transcription,
/// inference and audio-processing failures, which are transient.
pub open spec fn recoverable(e: ProtoError) -> bool {
    match e {
        ProtoError::STTError(_) => true,
        ProtoError::LLMError(_) => true,
        ProtoError::AudioProcessingError(_) => true,
        _ => false,
    }
}

/// The message shown to the user for an error; the detail is not shown.
pub open spec fn user_text(e: ProtoError) -> Seq<char> {
    match e {
        ProtoError::AudioDeviceError(_) => "Audio device error. Please check your microphone/speakers."@,
        ProtoError::STTError(_) => "Speech recognition failed. Please try again."@,
        ProtoError::LLMError(_) => "AI response generation failed. Please try again."@,
        ProtoError::ChannelError(_) => "Internal communication error. Please restart the application."@,
        ProtoError::IOError(_) => "File system error occurred."@,
        ProtoError::AudioProcessingError(_) => "Audio processing failed. Please try again."@,
        ProtoError::ConfigError(_) => "Configuration error. Please check settings."@,
    }
}

/// The full text of an error: its kind, a colon and its detail.
pub open spec fn error_text(e: ProtoError) -> Seq<char> {
    match e {
        ProtoError::AudioDeviceError(d) => "Audio device error: "@ + d@,
        ProtoError::STTError(d) => "Speech-to-text error: "@ + d@,
        ProtoError::LLMError(d) => "LLM error: "@ + d@,
        ProtoError::ChannelError(d) => "Channel error: "@ + d@,
        ProtoError::IOError(d) => "IO error: "@ + d@,
        ProtoError::AudioProcessingError(d) => "Audio processing error: "@ + d@,
        ProtoError::ConfigError(d) => "Configuration error: "@ + d@,
    }
}

impl ProtoError {
    /// Whether the application can go on after this error.
    pub fn is_recoverable(&self) -> (b: bool)
        ensures
            b == recoverable(*self),
    {
        match self {
            ProtoError::AudioDeviceError(_) => false,
            ProtoError::STTError(_) => true,
            ProtoError::LLMError(_) => true,
            ProtoError::ChannelError(_) => false,
            ProtoError::IOError(_) => false,
            ProtoError::AudioProcessingError(_) => true,
            ProtoError::ConfigError(_) => false,
        }
    }

    /// The message shown to the user.
    pub fn user_message(&self) -> (s: String)
        ensures
            s@ == user_text(*self),
    {
        let text = match self {
            ProtoError::AudioDeviceError(_) => "Audio device error. Please check your microphone/speakers.",
            ProtoError::STTError(_) => "Speech recognition failed. Please try again.",
            ProtoError::LLMError(_) => "AI response generation failed. Please try again.",
            ProtoError::ChannelError(_) => "Internal communication error. Please restart the application.",
            ProtoError::IOError(_) => "File system error occurred.",
            ProtoError::AudioProcessingError(_) => "Audio processing failed. Please try again.",
            ProtoError::ConfigError(_) => "Configuration error. Please check settings.",
        };
        String::from_str(text)
    }

    /// The full text of the error, as displayed.
    pub fn to_display_string(&self) -> (s: String)
        ensures
            s@ == error_text(*self),
    {
        let (kind, detail) = match self {
            ProtoError::AudioDeviceError(d) => ("Audio device error: ", d),
            ProtoError::STTError(d) => ("Speech-to-text error: ", d),
            ProtoError::LLMError(d) => ("LLM error: ", d),
            ProtoError::ChannelError(d) => ("Channel error: ", d),
            ProtoError::IOError(d) => ("IO error: ", d),
            ProtoError::AudioProcessingError(d) => ("Audio processing error: ", d),
            ProtoError::ConfigError(d) => ("Configuration error: ", d),
        };
        let mut s = String::from_str(kind);
        s.append(detail.as_str());
        s
    }
}

} // verus!
