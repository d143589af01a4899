//! The records the desktop application exchanges with its user interface.

use vstd::prelude::*;
use vstd::string::*;

verus! {

/// Answer to a request to start, stop or cancel a recording.
pub struct RecordingResponse {
    pub status: String,
    pub session_id: Option<String>,
    pub file_path: Option<String>,
    pub filename: Option<String>,
    pub duration: Option<i64>,
    pub quality: Option<String>,
    pub message: String,
    pub error: Option<String>,
}

/// Answer to a recovery request.
pub struct RecoverResponse {
    pub status: String,
    pub message: String,
    pub recovered: Vec<RecoveredSession>,
    pub error: Option<String>,
}

/// A session brought back by recovery.
pub struct RecoveredSession {
    pub session_id: String,
    pub output_file: String,
    pub output_path: String,
}

/// A capture device.
pub struct DeviceInfo {
    pub name: String,
    pub sample_rate: u32,
    pub channels: u16,
}

/// Answer to a device status request.
pub struct StatusResponse {
    pub status: String,
    pub devices: Vec<DeviceInfo>,
    pub message: String,
    pub error: Option<String>,
}

/// What the status file of a session says, field by field.
pub struct RecordingStatusInfo {
    pub status: String,
    pub session_id: Option<String>,
    pub filename: Option<String>,
    pub duration: Option<u64>,
    pub elapsed: Option<u64>,
    pub progress: Option<u64>,
    pub quality: Option<String>,
    pub device: Option<String>,
    pub sample_rate: Option<u32>,
    pub channels: Option<u16>,
    pub frames_captured: Option<u64>,
    pub has_audio: Option<bool>,
    pub loopback_frames: Option<u64>,
    pub loopback_has_audio: Option<bool>,
    pub mic_frames: Option<u64>,
    pub mic_has_audio: Option<bool>,
}

/// A stored recording as listed.
pub struct RecordingFile {
    pub filename: String,
    pub path: String,
    pub size: u64,
    /// Creation time as `%Y-%m-%d %H:%M:%S`, or `Unknown`.
    pub created: String,
    /// Lowercase extension: `wav` or `m4a`.
    pub format: String,
}

} // verus!
