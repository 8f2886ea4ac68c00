//! The error type shared by the session surface and by model loading.

use vstd::prelude::*;

verus! {

/// Errors a session, a model load or the runtime-library check can report.
#[derive(Debug, Clone, PartialEq, Eq)]
pub enum HybridError {
    ModelLoad(String),
    AlreadyRunning,
    NotRunning,
    /// The ONNX Runtime shared library is not configured or not present.
    OrtRuntimeUnavailable(String),
}

/// The human-readable message of an error.
pub open spec fn message_of(error: HybridError) -> Seq<char> {
    match error {
        HybridError::ModelLoad(detail) => "failed to load model: "@ + detail@,
        HybridError::AlreadyRunning => "session already running"@,
        HybridError::NotRunning => "session not running"@,
        HybridError::OrtRuntimeUnavailable(detail) => "ONNX Runtime shared library not available: "@
            + detail@,
    }
}

impl HybridError {
    /// The human-readable message of this error.
    pub fn message(&self) -> (text: String)
        ensures
            text@ == message_of(*self),
    {
        match self {
            HybridError::ModelLoad(detail) => {
                let mut text = String::from_str("failed to load model: ");
                text.append(detail.as_str());
                text
            },
            HybridError::AlreadyRunning => String::from_str("session already running"),
            HybridError::NotRunning => String::from_str("session not running"),
            HybridError::OrtRuntimeUnavailable(detail) => {
                let mut text = String::from_str("ONNX Runtime shared library not available: ");
                text.append(detail.as_str());
                text
            },
        }
    }
}

/// The error for a model file that failed to load: the file's name, then the
/// loader's own message.
pub fn model_file_error(file_name: &str, detail: &str) -> (error: HybridError)
    ensures
        error matches HybridError::ModelLoad(text) && text@ == file_name@ + ": "@ + detail@,
{
    let mut text = String::from_str(file_name);
    text.append(": ");
    text.append(detail);
    HybridError::ModelLoad(text)
}

} // verus!
