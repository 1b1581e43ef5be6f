//! Errors that the components report to their callers.

use vstd::prelude::*;
use vstd::string::StringExecFns;

verus! {

/// A component-level failure, each with a human-readable cause.
#[derive(Debug, Clone)]
pub enum VoicyError {
    AudioInitFailed(String),
    ModelLoadFailed(String),
    TranscriptionFailed(String),
    HotkeyRegistrationFailed(String),
    WindowOperationFailed(String),
    ConfigLoadFailed(String),
}

pub type VoicyResult<T> = Result<T, VoicyError>;

/// The text that introduces each kind of error.
pub open spec fn error_prefix(e: VoicyError) -> Seq<char> {
    match e {
        VoicyError::AudioInitFailed(_) => "Audio initialization failed: "@,
        VoicyError::ModelLoadFailed(_) => "Model load failed: "@,
        VoicyError::TranscriptionFailed(_) => "Transcription failed: "@,
        VoicyError::HotkeyRegistrationFailed(_) => "Hotkey registration failed: "@,
        VoicyError::WindowOperationFailed(_) => "Window operation failed: "@,
        VoicyError::ConfigLoadFailed(_) => "Config load failed: "@,
    }
}

/// The cause that an error carries.
pub open spec fn error_detail(e: VoicyError) -> Seq<char> {
    match e {
        VoicyError::AudioInitFailed(m) => m@,
        VoicyError::ModelLoadFailed(m) => m@,
        VoicyError::TranscriptionFailed(m) => m@,
        VoicyError::HotkeyRegistrationFailed(m) => m@,
        VoicyError::WindowOperationFailed(m) => m@,
        VoicyError::ConfigLoadFailed(m) => m@,
    }
}

impl VoicyError {
    /// The message shown to the user: the kind of failure, then its cause.
    pub fn message(&self) -> (r: String)
        ensures
            r@ == error_prefix(*self) + error_detail(*self),
    {
        let (prefix, detail): (&str, &String) = match self {
            VoicyError::AudioInitFailed(m) => ("Audio initialization failed: ", m),
            VoicyError::ModelLoadFailed(m) => ("Model load failed: ", m),
            VoicyError::TranscriptionFailed(m) => ("Transcription failed: ", m),
            VoicyError::HotkeyRegistrationFailed(m) => ("Hotkey registration failed: ", m),
            VoicyError::WindowOperationFailed(m) => ("Window operation failed: ", m),
            VoicyError::ConfigLoadFailed(m) => ("Config load failed: ", m),
        };
        proof {
            reveal_strlit("Audio initialization failed: ");
            reveal_strlit("Model load failed: ");
            reveal_strlit("Transcription failed: ");
            reveal_strlit("Hotkey registration failed: ");
            reveal_strlit("Window operation failed: ");
            reveal_strlit("Config load failed: ");
        }
        let mut r = String::from_str(prefix);
        r.append(detail.as_str());
        r
    }
}

/// The value of a successful result, or `default` when it failed; the
/// failure is recoverable and does not stop the caller.
pub fn handle_recoverable<T>(result: VoicyResult<T>, default: T) -> (r: T)
    ensures
        match result {
            Ok(v) => r == v,
            Err(_) => r == default,
        },
{
    match result {
        Ok(value) => value,
        Err(_) => default,
    }
}

} // verus!
