//! The shared error taxonomy of the pipeline.

use vstd::prelude::*;

verus! {

/// Every failure the pipeline reports; each carries a human-readable message.
#[derive(Debug)]
pub enum VoiceError {
    /// The capture device or stream failed, or the recorder was not running.
    RecorderError(String),
    MicrophonePermissionDenied,
    NoMicrophoneFound,
    /// The local model failed during inference.
    TranscriberError(String),
    /// The local model could not be loaded.
    WhisperModelError(String),
    /// A cloud backend answered with an error or an unusable response.
    AsrError(String),
    /// Authentication with a cloud backend failed.
    AsrAuthError(String),
    OutputError(String),
    ClipboardError(String),
    KeyboardError(String),
    AudioFormatError(String),
    /// The captured buffer lasts less than half a second.
    RecordingTooShort,
    NetworkError(String),
    IoError(String),
}

/// The text that describes an error to a user.
pub open spec fn error_message(e: VoiceError) -> Seq<char> {
    match e {
        VoiceError::RecorderError(s) => "recorder error: "@ + s@,
        VoiceError::MicrophonePermissionDenied =>
            "microphone permission denied; grant access in the system settings"@,
        VoiceError::NoMicrophoneFound => "no microphone device found"@,
        VoiceError::TranscriberError(s) => "transcription error: "@ + s@,
        VoiceError::WhisperModelError(s) => "failed to load the local model: "@ + s@,
        VoiceError::AsrError(s) => "ASR service error: "@ + s@,
        VoiceError::AsrAuthError(s) => "ASR authentication failed: "@ + s@,
        VoiceError::OutputError(s) => "text output error: "@ + s@,
        VoiceError::ClipboardError(s) => "clipboard operation failed: "@ + s@,
        VoiceError::KeyboardError(s) => "keyboard simulation failed: "@ + s@,
        VoiceError::AudioFormatError(s) => "audio format error: "@ + s@,
        VoiceError::RecordingTooShort => "recording too short (at least 0.5 s is required)"@,
        VoiceError::NetworkError(s) => "network request failed: "@ + s@,
        VoiceError::IoError(s) => "I/O error: "@ + s@,
    }
}

fn prefixed(prefix: &str, detail: &String) -> (r: String)
    ensures
        r@ == prefix@ + detail@,
{
    String::from_str(prefix).concat(detail.as_str())
}

impl VoiceError {
    /// The human-readable description of this error.
    pub fn message(&self) -> (r: String)
        ensures
            r@ == error_message(*self),
    {
        match self {
            VoiceError::RecorderError(s) => prefixed("recorder error: ", s),
            VoiceError::MicrophonePermissionDenied => String::from_str(
                "microphone permission denied; grant access in the system settings",
            ),
            VoiceError::NoMicrophoneFound => String::from_str("no microphone device found"),
            VoiceError::TranscriberError(s) => prefixed("transcription error: ", s),
            VoiceError::WhisperModelError(s) => prefixed("failed to load the local model: ", s),
            VoiceError::AsrError(s) => prefixed("ASR service error: ", s),
            VoiceError::AsrAuthError(s) => prefixed("ASR authentication failed: ", s),
            VoiceError::OutputError(s) => prefixed("text output error: ", s),
            VoiceError::ClipboardError(s) => prefixed("clipboard operation failed: ", s),
            VoiceError::KeyboardError(s) => prefixed("keyboard simulation failed: ", s),
            VoiceError::AudioFormatError(s) => prefixed("audio format error: ", s),
            VoiceError::RecordingTooShort => String::from_str(
                "recording too short (at least 0.5 s is required)",
            ),
            VoiceError::NetworkError(s) => prefixed("network request failed: ", s),
            VoiceError::IoError(s) => prefixed("I/O error: ", s),
        }
    }
}

} // verus!
