//! Transcription through the Gemini API: settings, the stages reported
//! while a file is transcribed, the requests' addresses, and the decisions
//! taken on the API's answers.

use vstd::prelude::*;
use vstd::string::*;

use crate::text::{concat2, concat3, owned, str_eq};

verus! {

/// Largest file the API accepts for transcription: 100 MB.
pub const GEMINI_FILE_SIZE_LIMIT: u64 = 100 * 1024 * 1024;

/// How many times the state of an uploaded file is polled.
pub const MAX_PROCESSING_POLLS: u32 = 60;

/// Transcription settings.
pub struct TranscriptionConfig {
    pub api_key: String,
    pub model: String,
    pub prompt: String,
    pub optimize_audio: bool,
}

/// The instructions sent along with the audio.
pub open spec fn default_prompt() -> Seq<char> {
    "Please process the attached audio file and provide the following two sections in markdown format:\n\n**1. Raw Transcription:**\n\n*   Detect the language spoken in the audio.\n*   Transcribe the audio verbatim in the detected language, word for word, exactly as spoken.\n*   Use appropriate punctuation.\n*   Indicate long pauses with [...].\n*   If there are multiple speakers, label them as \"Speaker 1:\", \"Speaker 2:\", etc.\n\n**2. Key Topics Discussed:**\n\n*   Analyze the raw transcription.\n*   Identify the main subjects, decisions, and action items.\n*   Organize these points into a summary with clear headings for each topic.\n*   Describe the key topics in the same language as identified in the raw transcription as long it is Spanish, Portuguese or English; otherwise, use English.\n*   Ensure no critical information is lost.\n\nYour entire response should be a single markdown document."@
}

impl TranscriptionConfig {
    /// No API key, the `gemini-2.5-flash` model, the default prompt, and
    /// no audio optimisation.
    pub fn default() -> (r: Self)
        ensures
            r.api_key@ == Seq::<char>::empty(),
            r.model@ == "gemini-2.5-flash"@,
            r.prompt@ == default_prompt(),
            !r.optimize_audio,
    {
        TranscriptionConfig {
            api_key: String::new(),
            model: owned("gemini-2.5-flash"),
            prompt: owned("Please process the attached audio file and provide the following two sections in markdown format:\n\n**1. Raw Transcription:**\n\n*   Detect the language spoken in the audio.\n*   Transcribe the audio verbatim in the detected language, word for word, exactly as spoken.\n*   Use appropriate punctuation.\n*   Indicate long pauses with [...].\n*   If there are multiple speakers, label them as \"Speaker 1:\", \"Speaker 2:\", etc.\n\n**2. Key Topics Discussed:**\n\n*   Analyze the raw transcription.\n*   Identify the main subjects, decisions, and action items.\n*   Organize these points into a summary with clear headings for each topic.\n*   Describe the key topics in the same language as identified in the raw transcription as long it is Spanish, Portuguese or English; otherwise, use English.\n*   Ensure no critical information is lost.\n\nYour entire response should be a single markdown document."),
            optimize_audio: false,
        }
    }

    /// Whether an API key is set.
    pub fn has_api_key(&self) -> (r: bool)
        ensures
            r == (self.api_key@.len() > 0),
    {
        self.api_key.unicode_len() > 0
    }
}

/// The outcome of a transcription.
pub struct TranscriptionResult {
    pub success: bool,
    pub transcript_file: Option<String>,
    pub error: Option<String>,
}

/// The status file written while a file is transcribed.
pub struct TranscriptionStatus {
    pub step: String,
    pub step_number: i32,
    pub total_steps: i32,
    pub progress: i32,
    pub message: String,
}

/// The stages of a transcription.
#[derive(Debug, Clone, Copy, PartialEq, Eq, Structural)]
pub enum TranscriptionStage {
    Reading,
    Uploading,
    Processing,
    Transcribing,
}

pub open spec fn stage_number(s: TranscriptionStage) -> i32 {
    match s {
        TranscriptionStage::Reading => 1,
        TranscriptionStage::Uploading => 2,
        TranscriptionStage::Processing => 3,
        TranscriptionStage::Transcribing => 4,
    }
}

pub open spec fn stage_name(s: TranscriptionStage) -> Seq<char> {
    match s {
        TranscriptionStage::Reading => "reading"@,
        TranscriptionStage::Uploading => "uploading"@,
        TranscriptionStage::Processing => "processing"@,
        TranscriptionStage::Transcribing => "transcribing"@,
    }
}

pub open spec fn stage_text(s: TranscriptionStage) -> Seq<char> {
    match s {
        TranscriptionStage::Reading => "Reading audio file..."@,
        TranscriptionStage::Uploading => "Uploading file to Gemini API..."@,
        TranscriptionStage::Processing => "Waiting for file processing..."@,
        TranscriptionStage::Transcribing => "Generating transcription..."@,
    }
}

/// `a / b` rounded toward zero, as integer division does, for `b > 0`.
pub open spec fn div_toward_zero(a: int, b: int) -> int {
    if a >= 0 {
        a / b
    } else {
        -((-a) / b)
    }
}

/// The status of step `step` of `total`: its name, message and progress
/// (`step * 100 / total`, rounded toward zero).
pub fn transcription_status(step: i32, total: i32, name: &str, message: &str) -> (r:
    TranscriptionStatus)
    requires
        i32::MIN <= step * 100 <= i32::MAX,
        total > 0,
    ensures
        r.step@ == name@,
        r.step_number == step,
        r.total_steps == total,
        r.progress == div_toward_zero(step * 100, total as int),
        r.message@ == message@,
{
    TranscriptionStatus {
        step: owned(name),
        step_number: step,
        total_steps: total,
        progress: (step * 100) / total,
        message: owned(message),
    }
}

/// The status shown during a stage of a transcription (four steps).
pub fn stage_status(stage: TranscriptionStage) -> (r: TranscriptionStatus)
    ensures
        r.step@ == stage_name(stage),
        r.step_number == stage_number(stage),
        r.total_steps == 4,
        r.progress == stage_number(stage) * 25,
        r.message@ == stage_text(stage),
{
    let (n, name, message) = match stage {
        TranscriptionStage::Reading => (1i32, "reading", "Reading audio file..."),
        TranscriptionStage::Uploading => (2i32, "uploading", "Uploading file to Gemini API..."),
        TranscriptionStage::Processing => (3i32, "processing", "Waiting for file processing..."),
        TranscriptionStage::Transcribing => (4i32, "transcribing", "Generating transcription..."),
    };
    transcription_status(n, 4, name, message)
}

/// The MIME type sent for an audio file's extension.
pub open spec fn mime_for(ext: Seq<char>) -> Option<Seq<char>> {
    if ext == "wav"@ {
        Some("audio/wav"@)
    } else if ext == "m4a"@ {
        Some("audio/mp4"@)
    } else if ext == "mp3"@ {
        Some("audio/mpeg"@)
    } else if ext == "flac"@ {
        Some("audio/flac"@)
    } else {
        None
    }
}

/// The audio types accepted for transcription and their MIME types: `wav`
/// is `audio/wav`, `m4a` is `audio/mp4`, `mp3` is `audio/mpeg` and `flac`
/// is `audio/flac`; no other extension is accepted.
pub proof fn mime_types_of_audio_files(ext: Seq<char>)
    ensures
        mime_for("wav"@) == Some("audio/wav"@),
        mime_for("m4a"@) == Some("audio/mp4"@),
        mime_for("mp3"@) == Some("audio/mpeg"@),
        mime_for("flac"@) == Some("audio/flac"@),
        mime_for(ext) is Some <==> (ext == "wav"@ || ext == "m4a"@ || ext == "mp3"@ || ext
            == "flac"@),
{
    reveal_strlit("wav");
    reveal_strlit("m4a");
    reveal_strlit("mp3");
    reveal_strlit("flac");
    assert("wav"@[0] == 'w' && "m4a"@[0] == 'm' && "mp3"@[0] == 'm' && "flac"@[0] == 'f'
        && "m4a"@[1] == '4' && "mp3"@[1] == 'p');
}

/// The MIME type of an audio file with extension `ext` (as written,
/// case included); other extensions are not supported.
pub fn mime_type_for(ext: Option<&str>) -> (r: Option<&'static str>)
    ensures
        match ext {
            Some(e) => match mime_for(e@) {
                Some(m) => r matches Some(s) && s@ == m,
                None => r is None,
            },
            None => r is None,
        },
{
    match ext {
        None => None,
        Some(e) => if str_eq(e, "wav") {
            Some("audio/wav")
        } else if str_eq(e, "m4a") {
            Some("audio/mp4")
        } else if str_eq(e, "mp3") {
            Some("audio/mpeg")
        } else if str_eq(e, "flac") {
            Some("audio/flac")
        } else {
            None
        },
    }
}

/// Where a resumable upload is started.
pub fn upload_url(api_key: &str) -> (r: String)
    ensures
        r@ == "https://generativelanguage.googleapis.com/upload/v1beta/files?key="@ + api_key@,
{
    concat2("https://generativelanguage.googleapis.com/upload/v1beta/files?key=", api_key)
}

/// Where the state of an uploaded file (`files/...`) is read.
pub fn file_status_url(file_name: &str, api_key: &str) -> (r: String)
    ensures
        r@ == "https://generativelanguage.googleapis.com/v1beta/"@ + file_name@ + "?key="@ + api_key@,
{
    let mut r = concat3("https://generativelanguage.googleapis.com/v1beta/", file_name, "?key=");
    r.append(api_key);
    r
}

/// Where the transcription is generated with `model`.
pub fn generate_url(model: &str, api_key: &str) -> (r: String)
    ensures
        r@ == "https://generativelanguage.googleapis.com/v1beta/models/"@ + model@
            + ":generateContent?key="@ + api_key@,
{
    let mut r = concat3(
        "https://generativelanguage.googleapis.com/v1beta/models/",
        model,
        ":generateContent?key=",
    );
    r.append(api_key);
    r
}

/// Whether to poll an uploaded file again: while it is `PROCESSING`, at
/// most sixty times.
pub fn keep_polling(state: &str, attempts: u32) -> (r: bool)
    ensures
        r == (state@ == "PROCESSING"@ && attempts < MAX_PROCESSING_POLLS),
{
    str_eq(state, "PROCESSING") && attempts < MAX_PROCESSING_POLLS
}

/// Whether the API gave up on an uploaded file.
pub fn processing_failed(state: &str) -> (r: bool)
    ensures
        r == (state@ == "FAILED"@),
{
    str_eq(state, "FAILED")
}

/// The transcript in a generation answer: the text of the first part of
/// the first candidate (each candidate given as the texts of its parts).
pub fn first_transcript(candidates: &Vec<Vec<String>>) -> (r: Option<String>)
    ensures
        match r {
            Some(t) => candidates@.len() > 0 && candidates@[0]@.len() > 0 && t@
                == candidates@[0]@[0]@,
            None => candidates@.len() == 0 || candidates@[0]@.len() == 0,
        },
{
    if candidates.len() == 0 {
        return None;
    }
    if candidates[0].len() == 0 {
        return None;
    }
    Some(candidates[0][0].clone())
}

/// Whether a compressed file is small enough for the API.
pub fn within_upload_limit(size_bytes: u64) -> (r: bool)
    ensures
        r == (size_bytes < GEMINI_FILE_SIZE_LIMIT),
{
    size_bytes < GEMINI_FILE_SIZE_LIMIT
}

/// Whether a file would fit the upload limit once compressed.
pub struct CompressionEstimate {
    pub original_size: u64,
    pub duration_ms: u64,
    pub standard_would_fit: bool,
    pub standard_estimated_size: u64,
    pub quick_would_fit: bool,
    pub quick_estimated_size: u64,
}

/// The estimate for a file of `original_size` bytes lasting `duration_ms`,
/// from the sizes estimated for the standard and quick compressions.
pub fn compression_estimate(
    original_size: u64,
    duration_ms: u64,
    standard_estimated_size: u64,
    quick_estimated_size: u64,
) -> (r: CompressionEstimate)
    ensures
        r.original_size == original_size,
        r.duration_ms == duration_ms,
        r.standard_estimated_size == standard_estimated_size,
        r.quick_estimated_size == quick_estimated_size,
        r.standard_would_fit == (standard_estimated_size < GEMINI_FILE_SIZE_LIMIT),
        r.quick_would_fit == (quick_estimated_size < GEMINI_FILE_SIZE_LIMIT),
{
    CompressionEstimate {
        original_size,
        duration_ms,
        standard_would_fit: within_upload_limit(standard_estimated_size),
        standard_estimated_size,
        quick_would_fit: within_upload_limit(quick_estimated_size),
        quick_estimated_size,
    }
}

} // verus!
