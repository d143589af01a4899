//! The library's error type.

use vstd::prelude::*;
use vstd::string::*;

use crate::text::concat2;

verus! {

/// Errors of the recorder. The variants that in a program wrap an I/O,
/// JSON or other error carry that error's message.
#[derive(Debug)]
pub enum RecorderError {
    DeviceError(String),
    RecordingError(String),
    ConversionError(String),
    InvalidParameter(String),
    ConfigError(String),
    Io(String),
    Json(String),
    Other(String),
}

impl RecorderError {
    /// The text the error displays as.
    pub open spec fn text(&self) -> Seq<char> {
        match self {
            RecorderError::DeviceError(m) => "Audio device error: "@ + m@,
            RecorderError::RecordingError(m) => "Recording error: "@ + m@,
            RecorderError::ConversionError(m) => "Conversion error: "@ + m@,
            RecorderError::InvalidParameter(m) => "Invalid parameter: "@ + m@,
            RecorderError::ConfigError(m) => "Configuration error: "@ + m@,
            RecorderError::Io(m) => "IO error: "@ + m@,
            RecorderError::Json(m) => "JSON error: "@ + m@,
            RecorderError::Other(m) => m@,
        }
    }

    /// Renders the error as its display text.
    pub fn to_string(&self) -> (r: String)
        ensures
            r@ == self.text(),
    {
        match self {
            RecorderError::DeviceError(m) => concat2("Audio device error: ", m.as_str()),
            RecorderError::RecordingError(m) => concat2("Recording error: ", m.as_str()),
            RecorderError::ConversionError(m) => concat2("Conversion error: ", m.as_str()),
            RecorderError::InvalidParameter(m) => concat2("Invalid parameter: ", m.as_str()),
            RecorderError::ConfigError(m) => concat2("Configuration error: ", m.as_str()),
            RecorderError::Io(m) => concat2("IO error: ", m.as_str()),
            RecorderError::Json(m) => concat2("JSON error: ", m.as_str()),
            RecorderError::Other(m) => m.clone(),
        }
    }
}

} // verus!
