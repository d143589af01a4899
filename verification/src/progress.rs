//! Reading FFmpeg's `-progress` output and deciding what to report while an
//! encode runs.

use vstd::prelude::*;
use vstd::string::*;

use crate::domain::AudioFormat;
use crate::text::{
    chars_of, find_char, find_char_from, parse_u64, parse_u64_spec, slice_string, str_eq,
    str_starts_with,
};

verus! {

// ---------------------------------------------------------------------------
// Lines of FFmpeg's progress output
// ---------------------------------------------------------------------------

/// A line split at its first `=` into key and value (`splitn(2, '=')`).
pub open spec fn split_key_value(line: Seq<char>) -> Option<(Seq<char>, Seq<char>)> {
    match find_char_from(line, '=', 0) {
        Some(i) => Some((line.take(i), line.skip(i + 1))),
        None => None,
    }
}

/// Splits a progress line such as `out_time_ms=6000000` or `speed=12.0x`
/// into key and value; a line without `=` gives nothing.
pub fn parse_progress_line(line: &str) -> (r: Option<(String, String)>)
    ensures
        match split_key_value(line@) {
            Some((k, v)) => r matches Some((rk, rv)) && rk@ == k && rv@ == v,
            None => r is None,
        },
{
    let v = chars_of(line);
    let n = v.len();
    match find_char(&v, '=', 0) {
        Some(i) => Some((slice_string(&v, 0, i), slice_string(&v, i + 1, n))),
        None => None,
    }
}

proof fn lemma_find_char_from_found(s: Seq<char>, c: char, i: int)
    requires
        0 <= i,
    ensures
        match find_char_from(s, c, i) {
            Some(k) => i <= k < s.len() && s[k] == c && forall|j: int| i <= j < k ==> s[j] != c,
            None => forall|j: int| i <= j < s.len() ==> s[j] != c,
        },
    decreases s.len() - i,
{
    if i < s.len() && s[i] != c {
        lemma_find_char_from_found(s, c, i + 1);
    }
}

/// A progress line is its key, `=`, and its value, and the key holds no
/// `=`.
pub proof fn progress_line_reassembles(line: Seq<char>)
    ensures
        match split_key_value(line) {
            Some((k, v)) => k + seq!['='] + v == line && !k.contains('='),
            None => !line.contains('='),
        },
{
    lemma_find_char_from_found(line, '=', 0);
    match find_char_from(line, '=', 0) {
        Some(i) => {
            let k = line.take(i);
            assert(k + seq!['='] + line.skip(i + 1) =~= line);
            if k.contains('=') {
                let j = choose|j: int| 0 <= j < k.len() && k[j] == '=';
                assert(line[j] == '=');
            }
        },
        None => {},
    }
}

/// What a progress line tells.
#[derive(Debug, Clone, PartialEq, Eq)]
pub enum ProgressEvent {
    /// Output time reached, in milliseconds.
    OutTime(u64),
    /// Encoding speed as FFmpeg prints it (e.g. `4.75x`).
    Speed(String),
    /// Nothing to act on.
    Ignored,
}

/// The second `=`-separated field of a line (`split('=').nth(1)`), for a
/// line whose first field ends at `i`.
pub open spec fn second_field(line: Seq<char>, i: int) -> Seq<char> {
    match find_char_from(line, '=', i + 1) {
        Some(j) => line.subrange(i + 1, j),
        None => line.skip(i + 1),
    }
}

fn second_field_of(v: &Vec<char>, i: usize) -> (r: String)
    requires
        i < v@.len(),
    ensures
        r@ == second_field(v@, i as int),
{
    let n = v.len();
    match find_char(v, '=', i + 1) {
        Some(j) => slice_string(v, i + 1, j),
        None => slice_string(v, i + 1, n),
    }
}

/// The output time, in milliseconds, that the merge and compression
/// monitors read from a line: the microseconds after `out_time_ms=`,
/// divided by 1000.
pub open spec fn merge_out_time(line: Seq<char>) -> Option<u64> {
    if "out_time_ms="@.is_prefix_of(line) {
        match parse_u64_spec(second_field(line, 11)) {
            Some(us) => Some(us / 1000),
            None => None,
        }
    } else {
        None
    }
}

/// The output time, in milliseconds, that the conversion monitor reads
/// from a line: the microseconds under the key `out_time_ms`, divided by
/// 1000.
pub open spec fn conversion_out_time(line: Seq<char>) -> Option<u64> {
    match split_key_value(line) {
        Some((k, v)) => if k == "out_time_ms"@ {
            match parse_u64_spec(v) {
                Some(us) => Some(us / 1000),
                None => None,
            }
        } else {
            None
        },
        None => None,
    }
}

/// Reads a line of FFmpeg's progress output the way the merge and
/// compression monitors do: a line starting with `out_time_ms=` carries
/// microseconds in its second field, reported in milliseconds; a line
/// starting with `speed=` carries the speed in its second field.
pub fn merge_progress_event(line: &str) -> (r: ProgressEvent)
    ensures
        "out_time_ms="@.is_prefix_of(line@) ==> r == match parse_u64_spec(second_field(line@, 11)) {
            Some(us) => ProgressEvent::OutTime(us / 1000),
            None => ProgressEvent::Ignored,
        },
        !"out_time_ms="@.is_prefix_of(line@) && "speed="@.is_prefix_of(line@) ==> (r matches ProgressEvent::Speed(s)
            && s@ == second_field(line@, 5)),
        !"out_time_ms="@.is_prefix_of(line@) && !"speed="@.is_prefix_of(line@) ==> r
            == ProgressEvent::Ignored,
        match merge_out_time(line@) {
            Some(t) => r == ProgressEvent::OutTime(t),
            None => !(r is OutTime),
        },
{
    proof {
        reveal_strlit("out_time_ms=");
        reveal_strlit("speed=");
    }
    let v = chars_of(line);
    if str_starts_with(line, "out_time_ms=") {
        let f = second_field_of(&v, 11);
        match parse_u64(f.as_str()) {
            Some(us) => ProgressEvent::OutTime(us / 1000),
            None => ProgressEvent::Ignored,
        }
    } else if str_starts_with(line, "speed=") {
        ProgressEvent::Speed(second_field_of(&v, 5))
    } else {
        ProgressEvent::Ignored
    }
}

/// Reads a line of FFmpeg's progress output the way the conversion
/// monitor does: key `out_time_ms` with a number of microseconds (FFmpeg
/// reports microseconds under that key), given in milliseconds, or key
/// `speed` with the whole value.
pub fn conversion_progress_event(line: &str) -> (r: ProgressEvent)
    ensures
        match split_key_value(line@) {
            Some((k, v)) => if k == "out_time_ms"@ {
                match parse_u64_spec(v) {
                    Some(us) => r == ProgressEvent::OutTime(us / 1000),
                    None => r == ProgressEvent::Ignored,
                }
            } else if k == "speed"@ {
                r matches ProgressEvent::Speed(s) && s@ == v
            } else {
                r == ProgressEvent::Ignored
            },
            None => r == ProgressEvent::Ignored,
        },
        match conversion_out_time(line@) {
            Some(t) => r == ProgressEvent::OutTime(t),
            None => !(r is OutTime),
        },
{
    match parse_progress_line(line) {
        Some((k, v)) => {
            if str_eq(k.as_str(), "out_time_ms") {
                match parse_u64(v.as_str()) {
                    Some(us) => ProgressEvent::OutTime(us / 1000),
                    None => ProgressEvent::Ignored,
                }
            } else if str_eq(k.as_str(), "speed") {
                ProgressEvent::Speed(v)
            } else {
                ProgressEvent::Ignored
            }
        },
        None => ProgressEvent::Ignored,
    }
}

proof fn lemma_find_char_at(s: Seq<char>, c: char, i: int, k: int)
    requires
        0 <= i <= k < s.len(),
        s[k] == c,
        forall|j: int| i <= j < k ==> s[j] != c,
    ensures
        find_char_from(s, c, i) == Some(k),
    decreases k - i,
{
    if i < k {
        lemma_find_char_at(s, c, i + 1, k);
    }
}

proof fn lemma_find_char_none(s: Seq<char>, c: char, i: int)
    requires
        0 <= i,
        forall|j: int| i <= j < s.len() ==> s[j] != c,
    ensures
        find_char_from(s, c, i) is None,
    decreases s.len() - i,
{
    if i < s.len() {
        lemma_find_char_none(s, c, i + 1);
    }
}

/// FFmpeg reports `out_time_ms` in microseconds: every monitor reads a line
/// `out_time_ms=<v>` (with no further `=`) as the number `v` divided by
/// 1000, in milliseconds, and the merge and conversion monitors agree.
pub proof fn out_time_is_read_in_microseconds(v: Seq<char>)
    requires
        !v.contains('='),
    ensures
        merge_out_time("out_time_ms="@ + v) == match parse_u64_spec(v) {
            Some(us) => Some(us / 1000),
            None => None::<u64>,
        },
        conversion_out_time("out_time_ms="@ + v) == merge_out_time("out_time_ms="@ + v),
{
    reveal_strlit("out_time_ms=");
    reveal_strlit("out_time_ms");
    let line = "out_time_ms="@ + v;
    assert("out_time_ms="@.len() == 12);
    assert(line.take(12) =~= "out_time_ms="@);
    assert("out_time_ms="@.is_prefix_of(line));
    assert forall|j: int| 0 <= j < 11 implies line[j] != '=' by {
        assert(line[j] == "out_time_ms="@[j]);
    }
    assert(line[11] == '=');
    lemma_find_char_at(line, '=', 0, 11);
    assert forall|j: int| 12 <= j < line.len() implies line[j] != '=' by {
        assert(line[j] == v[j - 12]);
        if line[j] == '=' {
            assert(v.contains('='));
        }
    }
    lemma_find_char_none(line, '=', 12);
    assert(line.skip(12) =~= v);
    assert(second_field(line, 11) == v);
    assert(line.take(11) =~= "out_time_ms"@);
    assert(split_key_value(line) == Some(("out_time_ms"@, v)));
}

/// The progress gathered from FFmpeg's output so far.
pub struct FfmpegProgress {
    pub out_time_ms: u64,
    pub speed: Option<String>,
    pub frame: Option<u64>,
}

impl FfmpegProgress {
    /// No progress yet.
    pub fn default() -> (r: Self)
        ensures
            r.out_time_ms == 0,
            r.speed is None,
            r.frame is None,
    {
        FfmpegProgress { out_time_ms: 0, speed: None, frame: None }
    }

    /// Takes in what a line told.
    pub fn apply(&mut self, event: ProgressEvent)
        ensures
            match event {
                ProgressEvent::OutTime(ms) => final(self).out_time_ms == ms && final(self).speed
                    == old(self).speed,
                ProgressEvent::Speed(s) => final(self).out_time_ms == old(self).out_time_ms
                    && final(self).speed == Some(s),
                ProgressEvent::Ignored => final(self).out_time_ms == old(self).out_time_ms
                    && final(self).speed == old(self).speed,
            },
            final(self).frame == old(self).frame,
    {
        match event {
            ProgressEvent::OutTime(ms) => {
                self.out_time_ms = ms;
            },
            ProgressEvent::Speed(s) => {
                self.speed = Some(s);
            },
            ProgressEvent::Ignored => {},
        }
    }
}

// ---------------------------------------------------------------------------
// Time estimates
// ---------------------------------------------------------------------------

/// Audio still to encode: the duration minus the time reached, or 0.
pub fn remaining_audio_ms(duration_ms: u64, time_ms: u64) -> (r: u64)
    ensures
        r == if time_ms <= duration_ms {
            duration_ms - time_ms
        } else {
            0
        },
{
    duration_ms.saturating_sub(time_ms)
}

/// Seconds left when no speed is known, assuming five times real time.
pub fn fallback_eta_secs(remaining_ms: u64) -> (r: u64)
    ensures
        r == remaining_ms / 1000 / 5,
{
    remaining_ms / 1000 / 5
}

// ---------------------------------------------------------------------------
// What the merge monitor reports
// ---------------------------------------------------------------------------

/// What the merge monitor has already reported for one recording.
#[derive(Debug, Clone, Copy, PartialEq, Eq, Structural)]
pub struct MergeProgressTracker {
    pub encoding_stage_emitted: bool,
    pub checkpoint_25_logged: bool,
    pub checkpoint_50_logged: bool,
    pub checkpoint_75_logged: bool,
}

/// What to report after a progress update.
#[derive(Debug, Clone, Copy, PartialEq, Eq, Structural)]
pub struct ProgressActions {
    /// Show the encoding stage (M4A only, from 30 % on, once).
    pub emit_encoding_stage: bool,
    /// Log a checkpoint (25, 50 or 75), each once.
    pub checkpoint: Option<u8>,
}

/// The tracker and actions after observing `pct` percent.
pub open spec fn observe_spec(t: MergeProgressTracker, pct: u8, format: AudioFormat) -> (
    MergeProgressTracker,
    ProgressActions,
) {
    let emit = format == AudioFormat::M4a && !t.encoding_stage_emitted && pct >= 30;
    let c25 = 25 <= pct < 30 && !t.checkpoint_25_logged;
    let c50 = !c25 && 50 <= pct < 55 && !t.checkpoint_50_logged;
    let c75 = !c25 && !c50 && 75 <= pct < 80 && !t.checkpoint_75_logged;
    (
        MergeProgressTracker {
            encoding_stage_emitted: t.encoding_stage_emitted || emit,
            checkpoint_25_logged: t.checkpoint_25_logged || c25,
            checkpoint_50_logged: t.checkpoint_50_logged || c50,
            checkpoint_75_logged: t.checkpoint_75_logged || c75,
        },
        ProgressActions {
            emit_encoding_stage: emit,
            checkpoint: if c25 {
                Some(25u8)
            } else if c50 {
                Some(50u8)
            } else if c75 {
                Some(75u8)
            } else {
                None
            },
        },
    )
}

impl MergeProgressTracker {
    /// Nothing reported yet.
    pub fn new() -> (r: Self)
        ensures
            r == Self::spec_new(),
    {
        MergeProgressTracker {
            encoding_stage_emitted: false,
            checkpoint_25_logged: false,
            checkpoint_50_logged: false,
            checkpoint_75_logged: false,
        }
    }

    /// Decides what to report for a progress of `pct` percent of an encode
    /// to `format`, and remembers it.
    pub fn observe(&mut self, pct: u8, format: AudioFormat) -> (r: ProgressActions)
        ensures
            (*final(self), r) == observe_spec(*old(self), pct, format),
    {
        let emit = match format {
            AudioFormat::M4a => !self.encoding_stage_emitted && pct >= 30,
            AudioFormat::Wav => false,
        };
        if emit {
            self.encoding_stage_emitted = true;
        }
        let checkpoint = if pct >= 25 && pct < 30 && !self.checkpoint_25_logged {
            self.checkpoint_25_logged = true;
            Some(25u8)
        } else if pct >= 50 && pct < 55 && !self.checkpoint_50_logged {
            self.checkpoint_50_logged = true;
            Some(50u8)
        } else if pct >= 75 && pct < 80 && !self.checkpoint_75_logged {
            self.checkpoint_75_logged = true;
            Some(75u8)
        } else {
            None
        };
        ProgressActions { emit_encoding_stage: emit, checkpoint }
    }
}

/// The tracker after observing each percentage of `pcts` in turn.
pub open spec fn tracker_after(t: MergeProgressTracker, pcts: Seq<u8>, format: AudioFormat) -> MergeProgressTracker
    decreases pcts.len(),
{
    if pcts.len() == 0 {
        t
    } else {
        observe_spec(tracker_after(t, pcts.drop_last(), format), pcts.last(), format).0
    }
}

/// How many times, observing `pcts` in turn, checkpoint `c` is reported.
pub open spec fn times_reported(t: MergeProgressTracker, pcts: Seq<u8>, format: AudioFormat, c: u8) -> nat
    decreases pcts.len(),
{
    if pcts.len() == 0 {
        0
    } else {
        let before = tracker_after(t, pcts.drop_last(), format);
        times_reported(t, pcts.drop_last(), format, c) + if observe_spec(
            before,
            pcts.last(),
            format,
        ).1.checkpoint == Some(c) {
            1nat
        } else {
            0nat
        }
    }
}

/// How many times, observing `pcts` in turn, the encoding stage is shown.
pub open spec fn times_encoding_shown(t: MergeProgressTracker, pcts: Seq<u8>, format: AudioFormat) -> nat
    decreases pcts.len(),
{
    if pcts.len() == 0 {
        0
    } else {
        let before = tracker_after(t, pcts.drop_last(), format);
        times_encoding_shown(t, pcts.drop_last(), format) + if observe_spec(
            before,
            pcts.last(),
            format,
        ).1.emit_encoding_stage {
            1nat
        } else {
            0nat
        }
    }
}

pub open spec fn checkpoint_flag(t: MergeProgressTracker, c: u8) -> bool {
    if c == 25 {
        t.checkpoint_25_logged
    } else if c == 50 {
        t.checkpoint_50_logged
    } else {
        t.checkpoint_75_logged
    }
}

proof fn lemma_reported_flag(t: MergeProgressTracker, pcts: Seq<u8>, format: AudioFormat, c: u8)
    requires
        c == 25 || c == 50 || c == 75,
        !checkpoint_flag(t, c),
    ensures
        times_reported(t, pcts, format, c) <= 1,
        times_reported(t, pcts, format, c) == 1 <==> checkpoint_flag(tracker_after(t, pcts, format), c),
    decreases pcts.len(),
{
    if pcts.len() > 0 {
        lemma_reported_flag(t, pcts.drop_last(), format, c);
    }
}

proof fn lemma_encoding_flag(t: MergeProgressTracker, pcts: Seq<u8>, format: AudioFormat)
    requires
        !t.encoding_stage_emitted,
    ensures
        times_encoding_shown(t, pcts, format) <= 1,
        times_encoding_shown(t, pcts, format) == 1 <==> tracker_after(t, pcts, format).encoding_stage_emitted,
    decreases pcts.len(),
{
    if pcts.len() > 0 {
        lemma_encoding_flag(t, pcts.drop_last(), format);
    }
}

/// Over any run of progress updates of one recording, each checkpoint is
/// logged at most once and the encoding stage is shown at most once.
pub proof fn each_report_at_most_once(pcts: Seq<u8>, format: AudioFormat)
    ensures
        times_reported(MergeProgressTracker::spec_new(), pcts, format, 25) <= 1,
        times_reported(MergeProgressTracker::spec_new(), pcts, format, 50) <= 1,
        times_reported(MergeProgressTracker::spec_new(), pcts, format, 75) <= 1,
        times_encoding_shown(MergeProgressTracker::spec_new(), pcts, format) <= 1,
{
    let t = MergeProgressTracker::spec_new();
    lemma_reported_flag(t, pcts, format, 25);
    lemma_reported_flag(t, pcts, format, 50);
    lemma_reported_flag(t, pcts, format, 75);
    lemma_encoding_flag(t, pcts, format);
}

impl MergeProgressTracker {
    /// The tracker `new` returns.
    pub open spec fn spec_new() -> Self {
        MergeProgressTracker {
            encoding_stage_emitted: false,
            checkpoint_25_logged: false,
            checkpoint_50_logged: false,
            checkpoint_75_logged: false,
        }
    }
}

/// A WAV encode never shows the encoding stage; an M4A encode shows it
/// on the first update at 30 % or more.
pub proof fn encoding_stage_only_for_m4a(t: MergeProgressTracker, pct: u8)
    ensures
        !observe_spec(t, pct, AudioFormat::Wav).1.emit_encoding_stage,
        !t.encoding_stage_emitted && pct >= 30 ==> observe_spec(
            t,
            pct,
            AudioFormat::M4a,
        ).1.emit_encoding_stage,
{
}

} // verus!
