//! Domain types: audio formats, recording durations, session identifiers
//! and the file names a recording session uses.

use vstd::prelude::*;
use vstd::string::*;

use crate::error::RecorderError;
use crate::quality::RecordingQuality;
use crate::text::{
    all_digits, append_decimal, concat2, concat3, decimal, lowercase_of, owned, str_eq,
    to_lowercase,
};

verus! {

// ---------------------------------------------------------------------------
// Audio formats
// ---------------------------------------------------------------------------

/// Container format of a finished recording.
#[derive(Debug, Clone, Copy, PartialEq, Eq, Structural)]
pub enum AudioFormat {
    Wav,
    M4a,
}

/// File extension of a format.
pub open spec fn format_extension(f: AudioFormat) -> Seq<char> {
    match f {
        AudioFormat::Wav => "wav"@,
        AudioFormat::M4a => "m4a"@,
    }
}

/// Codec name of a format.
pub open spec fn format_codec(f: AudioFormat) -> Seq<char> {
    match f {
        AudioFormat::Wav => "pcm"@,
        AudioFormat::M4a => "aac"@,
    }
}

/// The format that a lowercased name selects.
pub open spec fn format_named(lower: Seq<char>) -> Option<AudioFormat> {
    if lower == "wav"@ {
        Some(AudioFormat::Wav)
    } else if lower == "m4a"@ {
        Some(AudioFormat::M4a)
    } else {
        None
    }
}

/// The message given for an unknown format name.
pub open spec fn unsupported_format_text(name: Seq<char>) -> Seq<char> {
    "Unsupported audio format '"@ + name + "'. Supported formats: wav, m4a"@
}

impl AudioFormat {
    /// File extension (`wav` or `m4a`).
    pub fn extension(&self) -> (r: &'static str)
        ensures
            r@ == format_extension(*self),
    {
        match self {
            AudioFormat::Wav => "wav",
            AudioFormat::M4a => "m4a",
        }
    }

    /// Codec name (`pcm` or `aac`).
    pub fn codec(&self) -> (r: &'static str)
        ensures
            r@ == format_codec(*self),
    {
        match self {
            AudioFormat::Wav => "pcm",
            AudioFormat::M4a => "aac",
        }
    }

    /// The text the format displays as: its extension.
    pub fn to_string(&self) -> (r: String)
        ensures
            r@ == format_extension(*self),
    {
        owned(self.extension())
    }

    /// The format an already lowercased name selects.
    pub fn from_lowercase(lower: &str) -> (r: Option<AudioFormat>)
        ensures
            r == format_named(lower@),
    {
        if str_eq(lower, "wav") {
            Some(AudioFormat::Wav)
        } else if str_eq(lower, "m4a") {
            Some(AudioFormat::M4a)
        } else {
            None
        }
    }

    /// Parses a format name, ignoring case.
    pub fn from_str(s: &str) -> (r: Result<AudioFormat, RecorderError>)
        ensures
            match format_named(lowercase_of(s@)) {
                Some(f) => r == Ok::<AudioFormat, RecorderError>(f),
                None => r matches Err(RecorderError::InvalidParameter(m))
                    && m@ == unsupported_format_text(s@),
            },
    {
        let lower = to_lowercase(s);
        match Self::from_lowercase(lower.as_str()) {
            Some(f) => Ok(f),
            None => Err(
                RecorderError::InvalidParameter(
                    concat3("Unsupported audio format '", s, "'. Supported formats: wav, m4a"),
                ),
            ),
        }
    }
}

// ---------------------------------------------------------------------------
// Durations
// ---------------------------------------------------------------------------

/// How long a recording runs.
#[derive(Debug, Clone, Copy, PartialEq, Eq, Structural)]
pub enum RecordingDuration {
    /// A fixed number of seconds.
    Fixed(u64),
    /// Until stopped, but at most `max` seconds.
    Manual { max: u64 },
}

/// Decimal rendering of a signed number, with a leading `-` when negative.
pub open spec fn signed_decimal(d: int) -> Seq<char> {
    if d < 0 {
        seq!['-'] + decimal((0 - d) as nat)
    } else {
        decimal(d as nat)
    }
}

/// Renders `d` in decimal, as `to_string` does.
pub fn i64_to_decimal(d: i64) -> (r: String)
    ensures
        r@ == signed_decimal(d as int),
{
    let mut s = String::new();
    if d < 0 {
        s = owned("-");
        let m: u64 = if d == i64::MIN {
            0x8000_0000_0000_0000u64
        } else {
            (0 - d) as u64
        };
        append_decimal(&mut s, m);
        proof {
            reveal_strlit("-");
            assert(seq!['-'] + decimal(m as nat) == "-"@ + decimal(m as nat));
        }
    } else {
        append_decimal(&mut s, d as u64);
        assert(s@ == decimal(d as nat));
    }
    s
}

/// The signed decimal rendering of a number parses back to that number.
pub proof fn signed_decimal_parses_back(d: i64)
    ensures
        crate::text::parse_i64_spec(signed_decimal(d as int)) == Some(d),
{
    if d < 0 {
        let m = (0 - d) as nat;
        crate::text::lemma_decimal_digits(m);
        let s = signed_decimal(d as int);
        assert(s.drop_first() =~= decimal(m));
    } else {
        crate::text::lemma_decimal_digits(d as nat);
        assert(crate::text::is_digit(decimal(d as nat)[0]));
    }
}

/// The message for a duration that is neither `-1` nor positive.
pub open spec fn invalid_duration_text(d: int) -> Seq<char> {
    "Duration must be -1 (manual mode) or a positive number, got: "@ + signed_decimal(d)
}

/// The duration a number of seconds selects: `-1` for manual mode
/// bounded by `max_manual_duration`, a positive number for a fixed
/// duration, nothing otherwise.
pub open spec fn parsed_duration(secs: i64, max_manual_duration: u64) -> Option<RecordingDuration> {
    if secs == -1 {
        Some(RecordingDuration::Manual { max: max_manual_duration })
    } else if secs > 0 {
        Some(RecordingDuration::Fixed(secs as u64))
    } else {
        None
    }
}

/// A duration's API value selects that duration again: a manual duration
/// with the same bound, or a fixed duration that fits the API's signed
/// number.
pub proof fn duration_api_value_roundtrip(d: RecordingDuration, max_manual_duration: u64)
    requires
        d == (RecordingDuration::Manual { max: max_manual_duration }) || (d matches RecordingDuration::Fixed(n)
            && 0 < n <= i64::MAX),
    ensures
        parsed_duration(d.spec_api_value(), max_manual_duration) == Some(d),
{
}

/// A format's extension names that format again.
pub proof fn format_extension_roundtrip(f: AudioFormat)
    ensures
        format_named(format_extension(f)) == Some(f),
{
    reveal_strlit("wav");
    reveal_strlit("m4a");
    assert("m4a"@[0] != "wav"@[0]);
}

impl RecordingDuration {
    /// `-1` selects manual mode bounded by `max_manual_duration`; a positive
    /// number selects a fixed duration; anything else is refused.
    pub fn from_secs(duration: i64, max_manual_duration: u64) -> (r: Result<Self, RecorderError>)
        ensures
            duration == -1 ==> r == Ok::<Self, RecorderError>(
                RecordingDuration::Manual { max: max_manual_duration },
            ),
            duration > 0 ==> r == Ok::<Self, RecorderError>(
                RecordingDuration::Fixed(duration as u64),
            ),
            duration != -1 && duration <= 0 ==> (r matches Err(RecorderError::InvalidParameter(m))
                && m@ == invalid_duration_text(duration as int)),
            match parsed_duration(duration, max_manual_duration) {
                Some(d) => r == Ok::<Self, RecorderError>(d),
                None => r is Err,
            },
    {
        if duration == -1 {
            Ok(RecordingDuration::Manual { max: max_manual_duration })
        } else if duration > 0 {
            Ok(RecordingDuration::Fixed(duration as u64))
        } else {
            let d = i64_to_decimal(duration);
            Err(
                RecorderError::InvalidParameter(
                    concat2(
                        "Duration must be -1 (manual mode) or a positive number, got: ",
                        d.as_str(),
                    ),
                ),
            )
        }
    }

    pub open spec fn spec_effective_duration(self) -> u64 {
        match self {
            RecordingDuration::Fixed(d) => d,
            RecordingDuration::Manual { max } => max,
        }
    }

    pub open spec fn spec_api_value(self) -> i64 {
        match self {
            RecordingDuration::Fixed(d) => d as i64,
            RecordingDuration::Manual { .. } => -1i64,
        }
    }

    /// The number of seconds the recording runs at most.
    pub fn effective_duration(&self) -> (r: u64)
        ensures
            r == self.spec_effective_duration(),
    {
        match self {
            RecordingDuration::Fixed(d) => *d,
            RecordingDuration::Manual { max } => *max,
        }
    }

    /// The duration as the API reports it: the seconds, or `-1` for manual.
    pub fn to_api_value(&self) -> (r: i64)
        ensures
            r == self.spec_api_value(),
    {
        match self {
            RecordingDuration::Fixed(d) => *d as i64,
            RecordingDuration::Manual { .. } => -1,
        }
    }
}

// ---------------------------------------------------------------------------
// Session identifiers and file names
// ---------------------------------------------------------------------------

/// The shape of a `%Y%m%d_%H%M%S` rendering: a year of at least four
/// characters, then two digits each of month and day, `_`, and two digits
/// each of hour, minute and second.
pub open spec fn timestamp_shaped(t: Seq<char>) -> bool {
    &&& t.len() >= 15
    &&& all_digits(t.subrange(t.len() - 11, t.len() - 7))
    &&& t[t.len() - 7] == '_'
    &&& all_digits(t.skip(t.len() - 6))
}

/// The local wall-clock time rendered by chrono as `%Y%m%d_%H%M%S`
/// (`chrono::Local::now().format(..)`). Which time it shows depends on the
/// clock and the time zone, so only the shape of the text is promised:
/// chrono writes the year with at least four characters and month, day,
/// hour, minute and second as two zero-padded digits each.
#[verifier::external_body]
fn local_timestamp() -> (r: String)
    ensures
        timestamp_shaped(r@),
{
    chrono::Local::now().format("%Y%m%d_%H%M%S").to_string()
}

/// Identifier of a recording session, `rec-` followed by a timestamp.
#[derive(Debug, Clone, PartialEq, Eq, Hash)]
pub struct SessionId(String);

impl View for SessionId {
    type V = Seq<char>;

    closed spec fn view(&self) -> Seq<char> {
        self.0@
    }
}

pub open spec fn session_id_text(timestamp: Seq<char>) -> Seq<char> {
    "rec-"@ + timestamp
}

impl SessionId {
    /// A session identifier for the current local time: `rec-` followed by
    /// the time rendered as `%Y%m%d_%H%M%S`.
    pub fn new() -> (r: Self)
        ensures
            exists|t: Seq<char>| timestamp_shaped(t) && r@ == session_id_text(t),
    {
        let t = local_timestamp();
        let r = Self::from_timestamp(t.as_str());
        assert(timestamp_shaped(t@) && r@ == session_id_text(t@));
        r
    }

    /// The identifier for a timestamp: `rec-` followed by it.
    pub fn from_timestamp(timestamp: &str) -> (r: Self)
        ensures
            r@ == session_id_text(timestamp@),
    {
        SessionId(concat2("rec-", timestamp))
    }

    /// An identifier holding exactly the given text.
    pub fn from_string(s: String) -> (r: Self)
        ensures
            r@ == s@,
    {
        SessionId(s)
    }

    /// The identifier's text.
    pub fn as_str(&self) -> (r: &str)
        ensures
            r@ == self@,
    {
        self.0.as_str()
    }
}

/// Name of the system-audio temporary file of a session.
pub open spec fn loopback_temp_text(id: Seq<char>) -> Seq<char> {
    id + "_loopback.wav"@
}

/// Name of the microphone temporary file of a session.
pub open spec fn mic_temp_text(id: Seq<char>) -> Seq<char> {
    id + "_mic.wav"@
}

/// Name of the file that asks a session to stop.
pub open spec fn stop_signal_text(id: Seq<char>) -> Seq<char> {
    id + ".stop"@
}

/// Name of the file that asks a session to stop without processing.
pub open spec fn cancel_signal_text(id: Seq<char>) -> Seq<char> {
    id + ".cancel"@
}

/// Name of a session's status file.
pub open spec fn status_file_text(id: Seq<char>) -> Seq<char> {
    id + ".json"@
}

/// Name of the system-audio temporary file of session `id`.
pub fn loopback_temp_name(id: &str) -> (r: String)
    ensures
        r@ == loopback_temp_text(id@),
{
    concat2(id, "_loopback.wav")
}

/// Name of the microphone temporary file of session `id`.
pub fn mic_temp_name(id: &str) -> (r: String)
    ensures
        r@ == mic_temp_text(id@),
{
    concat2(id, "_mic.wav")
}

/// Name of the stop-signal file of session `id`.
pub fn stop_signal_name(id: &str) -> (r: String)
    ensures
        r@ == stop_signal_text(id@),
{
    concat2(id, ".stop")
}

/// Name of the cancel-signal file of session `id`.
pub fn cancel_signal_name(id: &str) -> (r: String)
    ensures
        r@ == cancel_signal_text(id@),
{
    concat2(id, ".cancel")
}

/// Name of the status file of session `id`.
pub fn status_file_name(id: &str) -> (r: String)
    ensures
        r@ == status_file_text(id@),
{
    concat2(id, ".json")
}

/// Name of a finished recording started at `timestamp`.
pub open spec fn recording_file_text(timestamp: Seq<char>, extension: Seq<char>) -> Seq<char> {
    "recording_"@ + timestamp + "."@ + extension
}

/// A recording session: what is recorded and when it started.
#[derive(Debug, Clone)]
pub struct RecordingSession {
    pub id: SessionId,
    pub format: AudioFormat,
    pub quality: RecordingQuality,
    pub duration: RecordingDuration,
    /// Start time rendered as `%Y%m%d_%H%M%S`.
    pub started_at: String,
}

impl RecordingSession {
    /// A session starting now; one reading of the clock gives both the
    /// identifier (`rec-<start>`) and the start that names its files.
    pub fn new(format: AudioFormat, quality: RecordingQuality, duration: RecordingDuration) -> (r:
        Self)
        ensures
            r.format == format,
            r.quality@ == quality@,
            r.duration == duration,
            timestamp_shaped(r.started_at@),
            r.id@ == session_id_text(r.started_at@),
    {
        let started_at = local_timestamp();
        let id = SessionId::from_timestamp(started_at.as_str());
        RecordingSession { id, format, quality, duration, started_at }
    }

    /// Name of the final recording: `recording_<start>.<extension>`.
    pub fn filename(&self) -> (r: String)
        ensures
            r@ == recording_file_text(self.started_at@, format_extension(self.format)),
    {
        let mut r = concat3("recording_", self.started_at.as_str(), ".");
        r.append(self.format.extension());
        r
    }

    /// Name of the intermediate WAV file: `recording_<start>.wav`.
    pub fn temp_filename(&self) -> (r: String)
        ensures
            r@ == recording_file_text(self.started_at@, "wav"@),
    {
        let mut r = concat3("recording_", self.started_at.as_str(), ".");
        r.append("wav");
        r
    }
}

} // verus!
