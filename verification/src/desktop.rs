//! The decisions behind the desktop application's commands: starting,
//! stopping and cancelling recordings, the sessions it tracks, listing,
//! renaming and deleting stored recordings, and the tray menu.

use vstd::prelude::*;
use vstd::string::*;

use crate::domain::{format_named, unsupported_format_text, AudioFormat, RecordingDuration};
use crate::dto::{RecordingFile, RecordingResponse, RecordingStatusInfo};

use crate::ordering::{drawn_from, holds_all, newest_first, sort_newest_first, Dated};
use crate::paths::{extension_of, file_extension, file_stem, join_path, joined_path, stem_of};
use crate::quality::{invalid_quality_message, invalid_quality_text, preset_named, RecordingQuality};
use crate::text::{append_decimal, concat2, concat3, decimal, has_char, has_infix, lowercase_of, owned, str_contains, str_ends_with, str_eq, str_has_char, to_lowercase};

verus! {

// ---------------------------------------------------------------------------
// Starting, stopping and cancelling
// ---------------------------------------------------------------------------

/// A recording the application is about to start.
pub struct StartRecording {
    /// What the user interface is told.
    pub response: RecordingResponse,
    pub duration: RecordingDuration,
    pub format: AudioFormat,
    pub quality: RecordingQuality,
}

/// The name the application announces for a new recording: the session
/// identifier and the format exactly as requested.
pub open spec fn announced_name(session_id: Seq<char>, format: Seq<char>) -> Seq<char> {
    "recording_"@ + session_id + "."@ + format
}

/// Validates a start request (duration first, then format, then quality)
/// and describes the recording to start as session `session_id` in
/// `recordings_dir`.
pub fn start_recording(
    duration_secs: i64,
    format: &str,
    quality: &str,
    session_id: &str,
    recordings_dir: &str,
    max_manual_duration_secs: u64,
) -> (r: Result<StartRecording, String>)
    ensures
        !(duration_secs == -1 || duration_secs > 0) ==> (r matches Err(m) && m@
            == "Invalid parameter: "@ + crate::domain::invalid_duration_text(duration_secs as int)),
        (duration_secs == -1 || duration_secs > 0) && format_named(lowercase_of(format@)) is None
            ==> (r matches Err(m) && m@ == "Invalid parameter: "@ + unsupported_format_text(format@)),
        (duration_secs == -1 || duration_secs > 0) && format_named(lowercase_of(format@)) is Some
            && preset_named(lowercase_of(quality@)) is None ==> (r matches Err(m) && m@
            == invalid_quality_text(quality@)),
        r matches Ok(s) ==> {
            &&& (duration_secs == -1 || duration_secs > 0)
            &&& s.duration == (if duration_secs == -1 {
                RecordingDuration::Manual { max: max_manual_duration_secs }
            } else {
                RecordingDuration::Fixed(duration_secs as u64)
            })
            &&& Some(s.format) == format_named(lowercase_of(format@))
            &&& Some(s.quality@) == preset_named(lowercase_of(quality@))
            &&& s.response.status@ == "success"@
            &&& s.response.session_id matches Some(id) && id@ == session_id@
            &&& s.response.filename matches Some(f) && f@ == announced_name(session_id@, format@)
            &&& s.response.file_path matches Some(p) && p@ == joined_path(
                recordings_dir@,
                announced_name(session_id@, format@),
            )
            &&& s.response.duration == Some(duration_secs)
            &&& s.response.quality matches Some(q) && q@ == quality@
            &&& s.response.message@ == "Recording started successfully"@
            &&& s.response.error is None
        },
        r is Ok <==> ((duration_secs == -1 || duration_secs > 0) && format_named(
            lowercase_of(format@),
        ) is Some && preset_named(lowercase_of(quality@)) is Some),
{
    let duration = match RecordingDuration::from_secs(duration_secs, max_manual_duration_secs) {
        Ok(d) => d,
        Err(e) => {
            return Err(e.to_string());
        },
    };
    let audio_format = match AudioFormat::from_str(format) {
        Ok(f) => f,
        Err(e) => {
            return Err(e.to_string());
        },
    };
    let recording_quality = match RecordingQuality::from_name(quality) {
        Some(q) => q,
        None => {
            return Err(invalid_quality_message(quality));
        },
    };
    let mut filename = concat3("recording_", session_id, ".");
    filename.append(format);
    let file_path = join_path(recordings_dir, filename.as_str());
    let response = RecordingResponse {
        status: owned("success"),
        session_id: Some(owned(session_id)),
        file_path: Some(file_path),
        filename: Some(filename),
        duration: Some(duration_secs),
        quality: Some(owned(quality)),
        message: owned("Recording started successfully"),
        error: None,
    };
    Ok(StartRecording { response, duration, format: audio_format, quality: recording_quality })
}

/// The answer to a successful stop or cancel request for `session_id`.
pub fn signal_response(session_id: Option<String>, cancelled: bool) -> (r: RecordingResponse)
    ensures
        r.status@ == "success"@,
        r.session_id == session_id,
        r.file_path is None,
        r.filename is None,
        r.duration is None,
        r.quality is None,
        r.message@ == if cancelled {
            "Recording cancelled successfully"@
        } else {
            "Recording stopped successfully"@
        },
        r.error is None,
{
    RecordingResponse {
        status: owned("success"),
        session_id,
        file_path: None,
        filename: None,
        duration: None,
        quality: None,
        message: if cancelled {
            owned("Recording cancelled successfully")
        } else {
            owned("Recording stopped successfully")
        },
        error: None,
    }
}

/// The status reported for a session that has no status file.
pub fn not_found_status(session_id: String) -> (r: RecordingStatusInfo)
    ensures
        r.status@ == "not_found"@,
        r.session_id == Some(session_id),
        r.filename is None && r.duration is None && r.elapsed is None && r.progress is None,
        r.quality is None && r.device is None && r.sample_rate is None && r.channels is None,
        r.frames_captured is None && r.has_audio is None,
        r.loopback_frames is None && r.loopback_has_audio is None,
        r.mic_frames is None && r.mic_has_audio is None,
{
    RecordingStatusInfo {
        status: owned("not_found"),
        session_id: Some(session_id),
        filename: None,
        duration: None,
        elapsed: None,
        progress: None,
        quality: None,
        device: None,
        sample_rate: None,
        channels: None,
        frames_captured: None,
        has_audio: None,
        loopback_frames: None,
        loopback_has_audio: None,
        mic_frames: None,
        mic_has_audio: None,
    }
}

// ---------------------------------------------------------------------------
// The sessions the application started
// ---------------------------------------------------------------------------

/// The identifiers of the recordings the application has started and not
/// yet stopped or cancelled, in the order they were started.
pub struct ActiveSessions {
    ids: Vec<String>,
}

/// `s` without any occurrence of `id`, in order.
pub open spec fn without(s: Seq<Seq<char>>, id: Seq<char>) -> Seq<Seq<char>>
    decreases s.len(),
{
    if s.len() == 0 {
        s
    } else if s.last() == id {
        without(s.drop_last(), id)
    } else {
        without(s.drop_last(), id).push(s.last())
    }
}

impl ActiveSessions {
    /// The identifiers, in order.
    pub closed spec fn view(&self) -> Seq<Seq<char>> {
        crate::args::texts(self.ids@)
    }

    /// No session.
    pub fn new() -> (r: Self)
        ensures
            r.view() == Seq::<Seq<char>>::empty(),
    {
        let r = ActiveSessions { ids: Vec::new() };
        assert(r.view() =~= Seq::<Seq<char>>::empty());
        r
    }

    /// Records a started session.
    pub fn add(&mut self, id: String)
        ensures
            final(self).view() == old(self).view().push(id@),
    {
        self.ids.push(id);
        assert(self.view() =~= old(self).view().push(id@));
    }

    /// Forgets a stopped or cancelled session: every occurrence of its
    /// identifier, or every session when none is named.
    pub fn remove(&mut self, session_id: Option<&str>)
        ensures
            final(self).view() == match session_id {
                Some(id) => without(old(self).view(), id@),
                None => Seq::<Seq<char>>::empty(),
            },
    {
        match session_id {
            None => {
                self.ids = Vec::new();
                assert(self.view() =~= Seq::<Seq<char>>::empty());
            },
            Some(id) => {
                let ghost orig = self.view();
                let mut kept: Vec<String> = Vec::new();
                let mut i: usize = 0;
                assert(orig.take(0) =~= Seq::<Seq<char>>::empty());
                assert(crate::args::texts(kept@) =~= Seq::<Seq<char>>::empty());
                while i < self.ids.len()
                    invariant
                        i <= self.ids@.len(),
                        orig == crate::args::texts(self.ids@),
                        crate::args::texts(kept@) == without(orig.take(i as int), id@),
                    decreases self.ids.len() - i,
                {
                    assert(orig.take(i + 1).drop_last() =~= orig.take(i as int));
                    assert(orig.take(i + 1).last() == self.ids@[i as int]@);
                    if !str_eq(self.ids[i].as_str(), id) {
                        let ghost before = crate::args::texts(kept@);
                        kept.push(self.ids[i].clone());
                        assert(crate::args::texts(kept@) =~= before.push(self.ids@[i as int]@));
                    }
                    i = i + 1;
                }
                assert(orig.take(i as int) =~= orig);
                self.ids = kept;
            },
        }
    }

    /// The identifiers, in order.
    pub fn list(&self) -> (r: Vec<String>)
        ensures
            crate::args::texts(r@) == self.view(),
    {
        let mut r: Vec<String> = Vec::new();
        let mut i: usize = 0;
        while i < self.ids.len()
            invariant
                i <= self.ids@.len(),
                r@.len() == i,
                forall|k: int| 0 <= k < i ==> #[trigger] r@[k]@ == self.ids@[k]@,
            decreases self.ids.len() - i,
        {
            r.push(self.ids[i].clone());
            i = i + 1;
        }
        assert(crate::args::texts(r@) =~= self.view());
        r
    }
}

proof fn lemma_without_removes(s: Seq<Seq<char>>, id: Seq<char>)
    ensures
        !without(s, id).contains(id),
        forall|x: Seq<char>| x != id ==> (without(s, id).contains(x) <==> s.contains(x)),
    decreases s.len(),
{
    if s.len() > 0 {
        let rest = without(s.drop_last(), id);
        lemma_without_removes(s.drop_last(), id);
        assert forall|x: Seq<char>| x != id implies (without(s, id).contains(x) <==> s.contains(x)) by {
            vstd::seq_lib::lemma_seq_contains_after_push(rest, s.last(), x);
            vstd::seq_lib::lemma_seq_contains_after_push(s.drop_last(), s.last(), x);
            assert(s =~= s.drop_last().push(s.last()));
        }
        if s.last() != id {
            vstd::seq_lib::lemma_seq_contains_after_push(rest, s.last(), id);
        }
    }
}

/// Removing a session leaves none with its identifier and keeps every
/// other session; adding one and removing it again leaves the others as
/// they were.
pub proof fn removed_session_is_gone(s: Seq<Seq<char>>, id: Seq<char>)
    ensures
        !without(s, id).contains(id),
        forall|x: Seq<char>| x != id ==> (without(s, id).contains(x) <==> s.contains(x)),
        !s.contains(id) ==> without(s.push(id), id) == s,
    decreases s.len(),
{
    lemma_without_removes(s, id);
    if !s.contains(id) {
        lemma_without_absent(s, id);
        assert(s.push(id).drop_last() =~= s);
    }
}

proof fn lemma_without_absent(s: Seq<Seq<char>>, id: Seq<char>)
    requires
        !s.contains(id),
    ensures
        without(s, id) == s,
    decreases s.len(),
{
    if s.len() > 0 {
        assert(!s.drop_last().contains(id)) by {
            if s.drop_last().contains(id) {
                let k = choose|k: int| 0 <= k < s.drop_last().len() && s.drop_last()[k] == id;
                assert(s[k] == id);
            }
        }
        assert(s[s.len() - 1] == s.last());
        lemma_without_absent(s.drop_last(), id);
        assert(s.drop_last().push(s.last()) =~= s);
    }
}

// ---------------------------------------------------------------------------
// Stored recordings
// ---------------------------------------------------------------------------

/// A file the recordings list leaves out: a temporary channel file or a
/// status file.
pub open spec fn is_excluded_name(name: Seq<char>) -> bool {
    has_infix(name, "_loopback"@) || has_infix(name, "_mic"@) || ".json"@.is_suffix_of(name)
}

/// The format a file is listed with: its lowercased extension, when that
/// is `wav` or `m4a`.
pub open spec fn listed_format_spec(name: Seq<char>) -> Option<Seq<char>> {
    if is_excluded_name(name) {
        None
    } else {
        match extension_of(name) {
            Some(e) => if lowercase_of(e) == "wav"@ || lowercase_of(e) == "m4a"@ {
                Some(lowercase_of(e))
            } else {
                None
            },
            None => None,
        }
    }
}

/// A session's temporary captures and its status file are never listed as
/// recordings: whatever the session identifier, `<id>_loopback.wav`,
/// `<id>_mic.wav` and `<id>.json` are left out of the list.
pub proof fn session_work_files_are_not_listed(id: Seq<char>)
    ensures
        listed_format_spec(crate::domain::loopback_temp_text(id)) is None,
        listed_format_spec(crate::domain::mic_temp_text(id)) is None,
        listed_format_spec(crate::domain::status_file_text(id)) is None,
{
    reveal_strlit("_loopback");
    reveal_strlit("_loopback.wav");
    reveal_strlit("_mic");
    reveal_strlit("_mic.wav");
    reveal_strlit(".json");
    let l = crate::domain::loopback_temp_text(id);
    assert(l.subrange(id.len() as int, id.len() as int + 9) =~= "_loopback"@);
    assert(has_infix(l, "_loopback"@));
    let m = crate::domain::mic_temp_text(id);
    assert(m.subrange(id.len() as int, id.len() as int + 4) =~= "_mic"@);
    assert(has_infix(m, "_mic"@));
    let j = crate::domain::status_file_text(id);
    assert(j.subrange(id.len() as int, j.len() as int) =~= ".json"@);
    assert(".json"@.is_suffix_of(j));
}

/// Whether a file of the recordings directory is listed, and with which
/// format.
pub fn listed_format(name: &str) -> (r: Option<String>)
    ensures
        match listed_format_spec(name@) {
            Some(f) => r matches Some(s) && s@ == f,
            None => r is None,
        },
{
    if str_contains(name, "_loopback") || str_contains(name, "_mic") || str_ends_with(name, ".json") {
        return None;
    }
    match file_extension(name) {
        Some(e) => {
            let lower = to_lowercase(e.as_str());
            if str_eq(lower.as_str(), "wav") || str_eq(lower.as_str(), "m4a") {
                Some(lower)
            } else {
                None
            }
        },
        None => None,
    }
}

impl Dated for RecordingFile {
    open spec fn date(&self) -> Seq<char> {
        self.created@
    }

    fn date_str(&self) -> (r: &str) {
        self.created.as_str()
    }
}

/// Lists recordings newest first (by creation time), keeping the given
/// order among recordings created at the same time.
pub fn sort_recordings(files: Vec<RecordingFile>) -> (r: Vec<RecordingFile>)
    ensures
        r@.len() == files@.len(),
        drawn_from(r@, files@, files@.len() as int),
        holds_all(r@, files@, files@.len() as int),
        newest_first(r@),
{
    sort_newest_first(files)
}

/// The format of a file opened as a recording: its lowercased extension,
/// which must be `wav` or `m4a`.
pub fn recording_format(name: &str) -> (r: Result<String, &'static str>)
    ensures
        match extension_of(name@) {
            None => r == Err::<String, &'static str>("Invalid file format"),
            Some(e) => if lowercase_of(e) == "wav"@ || lowercase_of(e) == "m4a"@ {
                r matches Ok(f) && f@ == lowercase_of(e)
            } else {
                r == Err::<String, &'static str>("Invalid audio file format")
            },
        },
{
    match file_extension(name) {
        None => Err("Invalid file format"),
        Some(e) => {
            let lower = to_lowercase(e.as_str());
            if str_eq(lower.as_str(), "wav") || str_eq(lower.as_str(), "m4a") {
                Ok(lower)
            } else {
                Err("Invalid audio file format")
            }
        },
    }
}

/// A new name for a recording: not empty and without path separators.
pub fn is_valid_new_filename(name: &str) -> (r: bool)
    ensures
        r == (name@.len() > 0 && !has_char(name@, '/') && !has_char(name@, '\\')),
{
    name.unicode_len() > 0 && !str_has_char(name, '/') && !str_has_char(name, '\\')
}

/// The file name a recording is renamed to: the new name with its
/// extension replaced by the old file's (`Path::with_extension`); `.` and
/// `..` name no file and stay as they are.
pub open spec fn renamed_text(new_name: Seq<char>, old_extension: Seq<char>) -> Seq<char> {
    if new_name == "."@ || new_name == ".."@ {
        new_name
    } else if old_extension.len() == 0 {
        stem_of(new_name)
    } else {
        stem_of(new_name) + "."@ + old_extension
    }
}

/// Computes `renamed_text`.
pub fn renamed_file_name(new_name: &str, old_extension: &str) -> (r: String)
    ensures
        r@ == renamed_text(new_name@, old_extension@),
{
    if str_eq(new_name, ".") || str_eq(new_name, "..") {
        return owned(new_name);
    }
    let stem = file_stem(new_name);
    if old_extension.unicode_len() == 0 {
        stem
    } else {
        let mut r = concat2(stem.as_str(), ".");
        r.append(old_extension);
        r
    }
}

/// The name of a recording's transcript in the transcriptions directory,
/// from the recording's file stem: the stem with its own extension (if
/// any) replaced by `md`.
pub open spec fn transcript_text(stem: Seq<char>) -> Seq<char> {
    stem_of(stem) + ".md"@
}

/// Computes `transcript_text`.
pub fn transcript_file_name(stem: &str) -> (r: String)
    ensures
        r@ == transcript_text(stem@),
{
    let s = file_stem(stem);
    concat2(s.as_str(), ".md")
}

/// The message after a recording was deleted.
pub fn deleted_message(path: &str) -> (r: String)
    ensures
        r@ == "Successfully deleted: "@ + path@,
{
    concat2("Successfully deleted: ", path)
}

/// The session identifier of a transcription started without one, at
/// `secs` seconds since the Unix epoch.
pub fn transcription_session_id(secs: u64) -> (r: String)
    ensures
        r@ == "transcribe_"@ + decimal(secs as nat),
{
    let mut r = owned("transcribe_");
    append_decimal(&mut r, secs);
    r
}

// ---------------------------------------------------------------------------
// Tray menu
// ---------------------------------------------------------------------------

/// The recording length a quick-record entry of the tray menu starts.
pub open spec fn tray_duration(id: Seq<char>) -> Option<u64> {
    if id == "record_30s"@ {
        Some(30)
    } else if id == "record_1m"@ {
        Some(60)
    } else if id == "record_5m"@ {
        Some(300)
    } else if id == "record_10m"@ {
        Some(600)
    } else {
        None
    }
}

/// The tray's quick-record entries record for 30 seconds, 1, 5 and 10
/// minutes, each for a different time, and no other entry records.
pub proof fn tray_presets_record_their_times(id: Seq<char>)
    ensures
        tray_duration("record_30s"@) == Some(30u64),
        tray_duration("record_1m"@) == Some(60u64),
        tray_duration("record_5m"@) == Some(300u64),
        tray_duration("record_10m"@) == Some(600u64),
        tray_duration(id) is Some <==> (id == "record_30s"@ || id == "record_1m"@ || id
            == "record_5m"@ || id == "record_10m"@),
{
    reveal_strlit("record_30s");
    reveal_strlit("record_1m");
    reveal_strlit("record_5m");
    reveal_strlit("record_10m");
    assert("record_30s"@.len() == 10 && "record_1m"@.len() == 9 && "record_5m"@.len() == 9
        && "record_10m"@.len() == 10 && "record_30s"@[7] == '3' && "record_10m"@[7] == '1'
        && "record_1m"@[7] == '1' && "record_5m"@[7] == '5');
}

/// The seconds a tray menu entry records for, if it is a quick-record one.
pub fn tray_record_duration(id: &str) -> (r: Option<u64>)
    ensures
        r == tray_duration(id@),
{
    if str_eq(id, "record_30s") {
        Some(30)
    } else if str_eq(id, "record_1m") {
        Some(60)
    } else if str_eq(id, "record_5m") {
        Some(300)
    } else if str_eq(id, "record_10m") {
        Some(600)
    } else {
        None
    }
}

} // verus!
