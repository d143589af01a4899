//! What a recording session reports while it runs and when it ends: the
//! status records written to the status directory, the decisions of the
//! recording loop, and the search for the session a stop request targets.

use vstd::prelude::*;
use vstd::string::*;

use crate::error::RecorderError;
use crate::domain::{format_codec, format_extension, recording_file_text, AudioFormat, RecordingSession};
use crate::paths::{extension_of, file_extension, join_path, joined_path};
use crate::text::{append_decimal, concat2, decimal, lemma_seq_lt_irreflexive, lemma_seq_lt_transitive, owned, seq_lt, str_eq, str_lt};

verus! {

// ---------------------------------------------------------------------------
// Status records
// ---------------------------------------------------------------------------

/// The status file of a running recording.
pub struct RecordingStatus {
    pub session_id: String,
    pub filename: String,
    pub duration: u64,
    pub elapsed: u64,
    pub progress: u8,
    pub quality: String,
    pub device: String,
    pub sample_rate: u32,
    pub channels: u16,
    pub frames_captured: u64,
    pub has_audio: bool,
    pub status: String,
    pub loopback_frames: Option<u64>,
    pub loopback_has_audio: Option<bool>,
    pub mic_frames: Option<u64>,
    pub mic_has_audio: Option<bool>,
    pub ffmpeg_progress: Option<u8>,
    pub processing_speed: Option<String>,
}

/// The status file of a finished (or cancelled) recording.
pub struct RecordingResult {
    pub session_id: String,
    pub filename: String,
    pub file_path: Option<String>,
    pub duration: i64,
    pub file_size_mb: String,
    pub format: String,
    pub codec: String,
    pub message: String,
    pub status: String,
}

/// What one capture channel reports.
#[derive(Debug, Clone, Copy, PartialEq, Eq, Structural)]
pub struct ChannelReading {
    pub frames: u64,
    pub has_audio: bool,
}

/// The device description shown for a recording.
pub open spec fn device_text(has_mic: bool) -> Seq<char> {
    if has_mic {
        "Dual-Channel (System + Microphone)"@
    } else {
        "System Audio Only (WASAPI Loopback)"@
    }
}

/// Describes the capture devices in use.
pub fn device_label(has_mic: bool) -> (r: &'static str)
    ensures
        r@ == device_text(has_mic),
{
    if has_mic {
        "Dual-Channel (System + Microphone)"
    } else {
        "System Audio Only (WASAPI Loopback)"
    }
}

/// The status written while `session` records: `elapsed` seconds in, at
/// `progress` percent, from the system-audio channel and, when there is
/// one, the microphone.
pub fn recording_status(
    session: &RecordingSession,
    elapsed: u64,
    progress: u8,
    sample_rate: u32,
    loopback: ChannelReading,
    mic: Option<ChannelReading>,
) -> (r: RecordingStatus)
    ensures
        r.session_id@ == session.id@,
        r.filename@ == recording_file_text(session.started_at@, "wav"@),
        r.duration == session.duration.spec_effective_duration(),
        r.elapsed == elapsed,
        r.progress == progress,
        r.quality@ == session.quality.name@,
        r.device@ == device_text(mic is Some),
        r.sample_rate == sample_rate,
        r.channels == 2,
        r.frames_captured == loopback.frames,
        r.has_audio == loopback.has_audio,
        r.status@ == "recording"@,
        r.loopback_frames == Some(loopback.frames),
        r.loopback_has_audio == Some(loopback.has_audio),
        r.mic_frames == (match mic {
            Some(m) => Some(m.frames),
            None => None,
        }),
        r.mic_has_audio == (match mic {
            Some(m) => Some(m.has_audio),
            None => None,
        }),
        r.ffmpeg_progress is None,
        r.processing_speed is None,
{
    RecordingStatus {
        session_id: owned(session.id.as_str()),
        filename: session.temp_filename(),
        duration: session.duration.effective_duration(),
        elapsed,
        progress,
        quality: session.quality.name.clone(),
        device: owned(device_label(mic.is_some())),
        sample_rate,
        channels: 2,
        frames_captured: loopback.frames,
        has_audio: loopback.has_audio,
        status: owned("recording"),
        loopback_frames: Some(loopback.frames),
        loopback_has_audio: Some(loopback.has_audio),
        mic_frames: match mic {
            Some(m) => Some(m.frames),
            None => None,
        },
        mic_has_audio: match mic {
            Some(m) => Some(m.has_audio),
            None => None,
        },
        ffmpeg_progress: None,
        processing_speed: None,
    }
}

/// The result written when a recording is cancelled.
pub fn cancelled_result(session: &RecordingSession) -> (r: RecordingResult)
    ensures
        r.session_id@ == session.id@,
        r.filename@ == Seq::<char>::empty(),
        r.file_path is None,
        r.duration == 0,
        r.file_size_mb@ == "0 MB"@,
        r.format@ == format_extension(session.format),
        r.codec@ == Seq::<char>::empty(),
        r.status@ == "cancelled"@,
        r.message@ == "Recording cancelled by user"@,
{
    RecordingResult {
        session_id: owned(session.id.as_str()),
        filename: String::new(),
        file_path: None,
        duration: 0,
        file_size_mb: owned("0 MB"),
        format: session.format.to_string(),
        codec: String::new(),
        message: owned("Recording cancelled by user"),
        status: owned("cancelled"),
    }
}

/// The closing message of a completed recording.
pub open spec fn completion_text(format: AudioFormat) -> Seq<char> {
    match format {
        AudioFormat::M4a => "Recording converted to M4A successfully"@,
        AudioFormat::Wav => "Recording completed successfully"@,
    }
}

/// The result written when a recording is complete; `file_path` is the
/// finished file and `file_size_mb` its size as shown (two decimals).
pub fn completed_result(session: &RecordingSession, file_path: String, file_size_mb: String) -> (r:
    RecordingResult)
    ensures
        r.session_id@ == session.id@,
        r.filename@ == recording_file_text(session.started_at@, format_extension(session.format)),
        r.file_path == Some(file_path),
        r.duration == session.duration.spec_api_value(),
        r.file_size_mb == file_size_mb,
        r.format@ == format_extension(session.format),
        r.codec@ == format_codec(session.format),
        r.status@ == "completed"@,
        r.message@ == completion_text(session.format),
{
    let message = match session.format {
        AudioFormat::M4a => owned("Recording converted to M4A successfully"),
        AudioFormat::Wav => owned("Recording completed successfully"),
    };
    RecordingResult {
        session_id: owned(session.id.as_str()),
        filename: session.filename(),
        file_path: Some(file_path),
        duration: session.duration.to_api_value(),
        file_size_mb,
        format: session.format.to_string(),
        codec: owned(session.format.codec()),
        message,
        status: owned("completed"),
    }
}

// ---------------------------------------------------------------------------
// The recording loop
// ---------------------------------------------------------------------------

/// What the recording loop does after a status interval.
#[derive(Debug, Clone, Copy, PartialEq, Eq, Structural)]
pub enum TickDecision {
    /// The duration is reached: stop and process the recording.
    Finish,
    /// A cancel request arrived: stop, discard the files, report cancelled.
    Cancel,
    /// A stop request arrived: stop and process the recording.
    Stop,
    /// Keep recording and report progress.
    Continue,
}

pub open spec fn tick_decision(elapsed: u64, duration: u64, cancel: bool, stop: bool) -> TickDecision {
    if elapsed >= duration {
        TickDecision::Finish
    } else if cancel {
        TickDecision::Cancel
    } else if stop {
        TickDecision::Stop
    } else {
        TickDecision::Continue
    }
}

/// Decides the next step of the recording loop from the seconds elapsed,
/// the effective duration, and whether a cancel or stop request is there.
/// The duration comes first, then cancelling, then stopping.
pub fn decide_tick(elapsed: u64, duration: u64, cancel_requested: bool, stop_requested: bool) -> (r:
    TickDecision)
    ensures
        r == tick_decision(elapsed, duration, cancel_requested, stop_requested),
{
    if elapsed >= duration {
        TickDecision::Finish
    } else if cancel_requested {
        TickDecision::Cancel
    } else if stop_requested {
        TickDecision::Stop
    } else {
        TickDecision::Continue
    }
}

/// Once the duration is reached the recording ends whatever requests are
/// pending; before it, a cancel request always wins over a stop request,
/// and the loop only goes on when there is no request at all.
pub proof fn tick_priorities(elapsed: u64, duration: u64, cancel: bool, stop: bool)
    ensures
        elapsed >= duration ==> tick_decision(elapsed, duration, cancel, stop) == TickDecision::Finish,
        elapsed < duration && cancel ==> tick_decision(elapsed, duration, cancel, stop)
            == TickDecision::Cancel,
        tick_decision(elapsed, duration, cancel, stop) == TickDecision::Continue <==> (elapsed
            < duration && !cancel && !stop),
{
}

pub open spec fn audio_word(has_audio: bool) -> Seq<char> {
    if has_audio {
        "Audio"@
    } else {
        "Silent"@
    }
}

pub open spec fn channel_text(frames: u64, has_audio: bool) -> Seq<char> {
    decimal(frames as nat) + " frames ("@ + audio_word(has_audio) + ")"@
}

/// The progress line printed while recording.
pub open spec fn progress_text(
    progress: u8,
    elapsed: u64,
    duration: u64,
    loopback: ChannelReading,
    mic: Option<ChannelReading>,
) -> Seq<char> {
    let head = "Progress: "@ + decimal(progress as nat) + "% | Elapsed: "@ + decimal(elapsed as nat)
        + "s / "@ + decimal(duration as nat) + "s | Loopback: "@ + channel_text(
        loopback.frames,
        loopback.has_audio,
    );
    match mic {
        Some(m) => head + " | Mic: "@ + channel_text(m.frames, m.has_audio),
        None => head,
    }
}

fn append_channel(s: &mut String, c: ChannelReading)
    ensures
        final(s)@ == old(s)@ + channel_text(c.frames, c.has_audio),
{
    let ghost start = s@;
    append_decimal(s, c.frames);
    s.append(" frames (");
    if c.has_audio {
        s.append("Audio");
    } else {
        s.append("Silent");
    }
    s.append(")");
    proof {
        let d = decimal(c.frames as nat);
        assert(s@ =~= start + channel_text(c.frames, c.has_audio));
    }
}

/// Renders the progress line printed while recording.
pub fn recording_progress_text(
    progress: u8,
    elapsed: u64,
    duration: u64,
    loopback: ChannelReading,
    mic: Option<ChannelReading>,
) -> (r: String)
    ensures
        r@ == progress_text(progress, elapsed, duration, loopback, mic),
{
    let mut s = owned("Progress: ");
    append_decimal(&mut s, progress as u64);
    s.append("% | Elapsed: ");
    append_decimal(&mut s, elapsed);
    s.append("s / ");
    append_decimal(&mut s, duration);
    s.append("s | Loopback: ");
    append_channel(&mut s, loopback);
    match mic {
        Some(m) => {
            s.append(" | Mic: ");
            append_channel(&mut s, m);
        },
        None => {},
    }
    proof {
        assert(s@ =~= progress_text(progress, elapsed, duration, loopback, mic));
    }
    s
}

/// What the analysis stage reports about the audio detected.
pub open spec fn analysis_text(loopback_has_audio: bool, mic_has_audio: bool) -> Seq<char> {
    if loopback_has_audio && mic_has_audio {
        "Detected system audio and microphone"@
    } else if loopback_has_audio {
        "Detected system audio only"@
    } else if mic_has_audio {
        "Detected microphone only"@
    } else {
        "No audio detected"@
    }
}

/// The message of the analysis stage.
pub fn analysis_message(loopback_has_audio: bool, mic_has_audio: bool) -> (r: &'static str)
    ensures
        r@ == analysis_text(loopback_has_audio, mic_has_audio),
{
    if loopback_has_audio && mic_has_audio {
        "Detected system audio and microphone"
    } else if loopback_has_audio {
        "Detected system audio only"
    } else if mic_has_audio {
        "Detected microphone only"
    } else {
        "No audio detected"
    }
}

// ---------------------------------------------------------------------------
// Status files
// ---------------------------------------------------------------------------

/// Where a recording reports its status while it runs and its result when
/// it ends. The program implements it by writing the session's status
/// file; nothing is promised of an implementation beyond its signature.
pub trait StatusObserver {
    fn on_progress(&self, status: RecordingStatus) -> Result<(), RecorderError>;

    fn on_complete(&self, result: RecordingResult) -> Result<(), RecorderError>;
}

/// Writes status records as JSON files, one per session, in a directory.
pub struct JsonFileObserver {
    pub status_dir: String,
}

impl JsonFileObserver {
    /// An observer writing into `status_dir`.
    pub fn new(status_dir: String) -> (r: Self)
        ensures
            r.status_dir == status_dir,
    {
        JsonFileObserver { status_dir }
    }

    /// The status file of a session: `<status_dir>/<session_id>.json`.
    pub fn get_status_file(&self, session_id: &str) -> (r: String)
        ensures
            r@ == joined_path(self.status_dir@, session_id@ + ".json"@),
    {
        let name = concat2(session_id, ".json");
        join_path(self.status_dir.as_str(), name.as_str())
    }
}

/// A "processing" status record, written during post-processing.
pub struct ProcessingStatus {
    pub session_id: String,
    pub status: String,
    pub message: String,
    pub step: Option<u8>,
    pub total_steps: Option<u8>,
    pub processing_type: Option<String>,
    pub file_size_bytes: Option<u64>,
    pub duration_secs: Option<u64>,
    pub ffmpeg_progress: Option<u8>,
    pub processing_speed: Option<String>,
}

/// The processing record of a stage; fields given as `None` are left out.
pub fn processing_status(
    session_id: &str,
    message: &str,
    step: Option<u8>,
    total_steps: Option<u8>,
    processing_type: Option<&str>,
    file_size_bytes: Option<u64>,
    duration_secs: Option<u64>,
) -> (r: ProcessingStatus)
    ensures
        r.session_id@ == session_id@,
        r.status@ == "processing"@,
        r.message@ == message@,
        r.step == step,
        r.total_steps == total_steps,
        match processing_type {
            Some(t) => r.processing_type matches Some(u) && u@ == t@,
            None => r.processing_type is None,
        },
        r.file_size_bytes == file_size_bytes,
        r.duration_secs == duration_secs,
        r.ffmpeg_progress is None,
        r.processing_speed is None,
{
    ProcessingStatus {
        session_id: owned(session_id),
        status: owned("processing"),
        message: owned(message),
        step,
        total_steps,
        processing_type: match processing_type {
            Some(t) => Some(owned(t)),
            None => None,
        },
        file_size_bytes,
        duration_secs,
        ffmpeg_progress: None,
        processing_speed: None,
    }
}

impl ProcessingStatus {
    /// Records FFmpeg's progress: the percentage always, the speed when
    /// one is known; every other field is kept.
    pub fn update_ffmpeg_progress(&mut self, progress: u8, speed: Option<String>)
        ensures
            final(self).ffmpeg_progress == Some(progress),
            final(self).processing_speed == (match speed {
                Some(s) => Some(s),
                None => old(self).processing_speed,
            }),
            final(self).session_id == old(self).session_id,
            final(self).status == old(self).status,
            final(self).message == old(self).message,
            final(self).step == old(self).step,
            final(self).total_steps == old(self).total_steps,
            final(self).processing_type == old(self).processing_type,
            final(self).file_size_bytes == old(self).file_size_bytes,
            final(self).duration_secs == old(self).duration_secs,
    {
        self.ffmpeg_progress = Some(progress);
        match speed {
            Some(s) => {
                self.processing_speed = Some(s);
            },
            None => {},
        }
    }

    /// Marks FFmpeg's work as done (100 %), keeping every other field.
    pub fn mark_ffmpeg_complete(&mut self)
        ensures
            final(self).ffmpeg_progress == Some(100u8),
            final(self).processing_speed == old(self).processing_speed,
            final(self).session_id == old(self).session_id,
            final(self).status == old(self).status,
            final(self).message == old(self).message,
            final(self).step == old(self).step,
            final(self).total_steps == old(self).total_steps,
            final(self).processing_type == old(self).processing_type,
            final(self).file_size_bytes == old(self).file_size_bytes,
            final(self).duration_secs == old(self).duration_secs,
    {
        self.ffmpeg_progress = Some(100);
    }
}

// ---------------------------------------------------------------------------
// Finding the session a stop request targets
// ---------------------------------------------------------------------------

/// A file of the status directory: its name and, when it parsed as a
/// recording status, the session and state it records.
pub struct StatusFileEntry {
    pub name: String,
    pub parsed: Option<(String, String)>,
}

/// The entry is a JSON status file of a session that is recording.
pub open spec fn is_active(e: StatusFileEntry) -> bool {
    &&& extension_of(e.name@) == Some("json"@)
    &&& e.parsed matches Some((_, st)) && st@ == "recording"@
}

pub open spec fn active_id(e: StatusFileEntry) -> Seq<char> {
    match e.parsed {
        Some((id, _)) => id@,
        None => Seq::empty(),
    }
}

/// The error when no session is recording.
pub open spec fn no_active_text() -> Seq<char> {
    "No active recording sessions found"@
}

/// The most recent recording session among the status files: the
/// greatest identifier (identifiers hold the start time) of a JSON status
/// file whose state is `recording`.
pub fn latest_active_session(entries: &Vec<StatusFileEntry>) -> (r: Result<String, String>)
    ensures
        match r {
            Ok(id) => exists|i: int|
                0 <= i < entries@.len() && is_active(#[trigger] entries@[i]) && active_id(
                    entries@[i],
                ) == id@ && forall|j: int|
                    0 <= j < entries@.len() && is_active(#[trigger] entries@[j]) ==> !seq_lt(
                        id@,
                        active_id(entries@[j]),
                    ),
            Err(m) => m@ == no_active_text() && forall|j: int|
                0 <= j < entries@.len() ==> !is_active(#[trigger] entries@[j]),
        },
{
    proof {
        reveal_strlit("json");
        reveal_strlit("recording");
    }
    let mut best: Option<String> = None;
    let ghost mut best_at: int = 0;
    let mut i: usize = 0;
    while i < entries.len()
        invariant
            i <= entries@.len(),
            match best {
                Some(b) => 0 <= best_at < i && is_active(entries@[best_at]) && active_id(
                    entries@[best_at],
                ) == b@ && forall|j: int|
                    0 <= j < i && is_active(#[trigger] entries@[j]) ==> !seq_lt(
                        b@,
                        active_id(entries@[j]),
                    ),
                None => forall|j: int| 0 <= j < i ==> !is_active(#[trigger] entries@[j]),
            },
        decreases entries.len() - i,
    {
        let e = &entries[i];
        let ext_ok = match file_extension(e.name.as_str()) {
            Some(x) => str_eq(x.as_str(), "json"),
            None => false,
        };
        let found: Option<&String> = match &e.parsed {
            Some((sid, st)) => if ext_ok && str_eq(st.as_str(), "recording") {
                Some(sid)
            } else {
                None
            },
            None => None,
        };
        assert(found is Some == is_active(entries@[i as int]));
        if let Some(id) = found {
            assert(id@ == active_id(entries@[i as int]));
            let replace = match &best {
                Some(b) => str_lt(b.as_str(), id.as_str()),
                None => true,
            };
            if replace {
                proof {
                    match best {
                        Some(b) => {
                            assert forall|j: int|
                                0 <= j < i + 1 && is_active(#[trigger] entries@[j]) implies !seq_lt(
                                id@,
                                active_id(entries@[j]),
                            ) by {
                                if j < i {
                                    if seq_lt(id@, active_id(entries@[j])) {
                                        lemma_seq_lt_transitive(b@, id@, active_id(entries@[j]));
                                    }
                                } else {
                                    lemma_seq_lt_irreflexive(id@);
                                }
                            }
                        },
                        None => {
                            lemma_seq_lt_irreflexive(id@);
                        },
                    }
                    best_at = i as int;
                }
                best = Some(id.clone());
            } else {
                proof {
                    let b = best->0;
                    assert(!seq_lt(b@, id@));
                }
            }
        }
        i = i + 1;
    }
    match best {
        Some(b) => Ok(b),
        None => Err(owned("No active recording sessions found")),
    }
}

} // verus!
