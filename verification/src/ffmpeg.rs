//! FFmpeg work plans: merging the two captured channels, converting and
//! compressing recordings, concatenating chunks, reading FFmpeg's progress
//! output, and choosing how a duration is detected.

use vstd::prelude::*;
use vstd::string::*;

use crate::args::{push_arg, push_decimal_arg, push_string_arg, texts};
use crate::domain::AudioFormat;
use crate::text::{append_decimal, chars_of, concat2, decimal, push_char};

verus! {

// ---------------------------------------------------------------------------
// Merging the loopback and microphone channels
// ---------------------------------------------------------------------------

/// How the two captured channels become one stereo file.
#[derive(Debug, Clone, Copy, PartialEq, Eq, Structural)]
pub enum MergeStrategy {
    /// Both carry audio: left = system audio, right = microphone.
    DualMono,
    /// Only system audio: duplicated to both channels.
    LoopbackOnly,
    /// Only the microphone: duplicated to both channels.
    MicOnly,
    /// Neither: the (silent) loopback file as stereo.
    Silent,
}

pub open spec fn strategy_for(loopback_has_audio: bool, mic_has_audio: bool) -> MergeStrategy {
    if loopback_has_audio && mic_has_audio {
        MergeStrategy::DualMono
    } else if loopback_has_audio {
        MergeStrategy::LoopbackOnly
    } else if mic_has_audio {
        MergeStrategy::MicOnly
    } else {
        MergeStrategy::Silent
    }
}

/// Chooses the merge strategy from the audio detected on each channel.
pub fn merge_strategy(loopback_has_audio: bool, mic_has_audio: bool) -> (r: MergeStrategy)
    ensures
        r == strategy_for(loopback_has_audio, mic_has_audio),
{
    if loopback_has_audio && mic_has_audio {
        MergeStrategy::DualMono
    } else if loopback_has_audio && !mic_has_audio {
        MergeStrategy::LoopbackOnly
    } else if !loopback_has_audio && mic_has_audio {
        MergeStrategy::MicOnly
    } else {
        MergeStrategy::Silent
    }
}

/// The dual-mono filter: the system audio, mixed down to mono, is the left
/// channel and the microphone, mixed down to mono, the right one.
pub open spec fn dual_mono_filter() -> Seq<char> {
    "[0:a]aformat=channel_layouts=mono[sys];[1:a]aformat=channel_layouts=mono[mic];[sys][mic]amerge=inputs=2,pan=stereo|c0=c0|c1=c1[aout]"@
}

pub open spec fn mic_only_filter() -> Seq<char> {
    "[0:a]aformat=channel_layouts=mono,asplit=2[l][r];[l][r]amerge=inputs=2,pan=stereo|c0=c0|c1=c1[aout]"@
}

pub open spec fn silent_filter() -> Seq<char> {
    "[0:a]aformat=channel_layouts=stereo[aout]"@
}

/// `-hide_banner -loglevel error`.
pub open spec fn quiet_args() -> Seq<Seq<char>> {
    seq!["-hide_banner"@, "-loglevel"@, "error"@]
}

/// AAC at 192 kbps, streaming-friendly, all cores.
pub open spec fn aac_args() -> Seq<Seq<char>> {
    seq!["-c:a"@, "aac"@, "-b:a"@, "192k"@, "-movflags"@, "faststart"@, "-threads"@, "auto"@]
}

/// Encoding options of a merge: AAC for M4A, none (PCM) for WAV.
pub open spec fn encoding_args(format: AudioFormat) -> Seq<Seq<char>> {
    match format {
        AudioFormat::M4a => aac_args(),
        AudioFormat::Wav => Seq::<Seq<char>>::empty(),
    }
}

/// `-progress pipe:2` when progress is followed.
pub open spec fn progress_args(with_progress: bool) -> Seq<Seq<char>> {
    if with_progress {
        seq!["-progress"@, "pipe:2"@]
    } else {
        Seq::<Seq<char>>::empty()
    }
}

/// Inputs and filters of a merge.
pub open spec fn merge_input_args(
    strategy: MergeStrategy,
    loopback: Seq<char>,
    mic: Seq<char>,
    sample_rate: Seq<char>,
) -> Seq<Seq<char>> {
    match strategy {
        MergeStrategy::DualMono => seq![
            "-i"@,
            loopback,
            "-i"@,
            mic,
            "-filter_complex"@,
            dual_mono_filter(),
            "-filter_threads"@,
            "auto"@,
            "-map"@,
            "[aout]"@,
            "-ar"@,
            sample_rate,
        ],
        MergeStrategy::LoopbackOnly => seq!["-i"@, loopback, "-ac"@, "2"@, "-ar"@, sample_rate],
        MergeStrategy::MicOnly => seq![
            "-i"@,
            mic,
            "-filter_complex"@,
            mic_only_filter(),
            "-filter_threads"@,
            "auto"@,
            "-map"@,
            "[aout]"@,
            "-ar"@,
            sample_rate,
        ],
        MergeStrategy::Silent => seq![
            "-i"@,
            loopback,
            "-filter_complex"@,
            silent_filter(),
            "-map"@,
            "[aout]"@,
            "-ar"@,
            sample_rate,
        ],
    }
}

/// The whole FFmpeg argument list of a merge.
pub open spec fn merge_args_spec(
    strategy: MergeStrategy,
    loopback: Seq<char>,
    mic: Seq<char>,
    output: Seq<char>,
    sample_rate: u32,
    format: AudioFormat,
    with_progress: bool,
) -> Seq<Seq<char>> {
    quiet_args() + merge_input_args(strategy, loopback, mic, decimal(sample_rate as nat))
        + encoding_args(format) + seq!["-y"@, output] + progress_args(with_progress)
}

fn push_quiet_args(a: &mut Vec<String>)
    ensures
        texts(final(a)@) == texts(old(a)@) + quiet_args(),
{
    let ghost before = texts(a@);
    push_arg(a, "-hide_banner");
    push_arg(a, "-loglevel");
    push_arg(a, "error");
    assert(texts(a@) =~= before + quiet_args());
}

fn push_encoding_args(a: &mut Vec<String>, format: AudioFormat)
    ensures
        texts(final(a)@) == texts(old(a)@) + encoding_args(format),
{
    let ghost before = texts(a@);
    match format {
        AudioFormat::M4a => {
            push_arg(a, "-c:a");
            push_arg(a, "aac");
            push_arg(a, "-b:a");
            push_arg(a, "192k");
            push_arg(a, "-movflags");
            push_arg(a, "faststart");
            push_arg(a, "-threads");
            push_arg(a, "auto");
        },
        AudioFormat::Wav => {},
    }
    assert(texts(a@) =~= before + encoding_args(format));
}

fn push_output_args(a: &mut Vec<String>, output: &str, with_progress: bool)
    ensures
        texts(final(a)@) == texts(old(a)@) + seq!["-y"@, output@] + progress_args(with_progress),
{
    let ghost before = texts(a@);
    push_arg(a, "-y");
    push_arg(a, output);
    if with_progress {
        push_arg(a, "-progress");
        push_arg(a, "pipe:2");
    }
    assert(texts(a@) =~= before + seq!["-y"@, output@] + progress_args(with_progress));
}

/// Builds the FFmpeg arguments that merge the captured channels into
/// `output` at `sample_rate`, encoding to AAC for M4A.
pub fn merge_args(
    strategy: MergeStrategy,
    loopback: &str,
    mic: &str,
    output: &str,
    sample_rate: u32,
    format: AudioFormat,
    with_progress: bool,
) -> (r: Vec<String>)
    ensures
        texts(r@) == merge_args_spec(
            strategy,
            loopback@,
            mic@,
            output@,
            sample_rate,
            format,
            with_progress,
        ),
{
    let mut a: Vec<String> = Vec::new();
    push_quiet_args(&mut a);
    let ghost after_quiet = texts(a@);
    match strategy {
        MergeStrategy::DualMono => {
            push_arg(&mut a, "-i");
            push_arg(&mut a, loopback);
            push_arg(&mut a, "-i");
            push_arg(&mut a, mic);
            push_arg(&mut a, "-filter_complex");
            push_arg(
                &mut a,
                "[0:a]aformat=channel_layouts=mono[sys];[1:a]aformat=channel_layouts=mono[mic];[sys][mic]amerge=inputs=2,pan=stereo|c0=c0|c1=c1[aout]",
            );
            push_arg(&mut a, "-filter_threads");
            push_arg(&mut a, "auto");
            push_arg(&mut a, "-map");
            push_arg(&mut a, "[aout]");
            push_arg(&mut a, "-ar");
            push_decimal_arg(&mut a, sample_rate as u64);
        },
        MergeStrategy::LoopbackOnly => {
            push_arg(&mut a, "-i");
            push_arg(&mut a, loopback);
            push_arg(&mut a, "-ac");
            push_arg(&mut a, "2");
            push_arg(&mut a, "-ar");
            push_decimal_arg(&mut a, sample_rate as u64);
        },
        MergeStrategy::MicOnly => {
            push_arg(&mut a, "-i");
            push_arg(&mut a, mic);
            push_arg(&mut a, "-filter_complex");
            push_arg(
                &mut a,
                "[0:a]aformat=channel_layouts=mono,asplit=2[l][r];[l][r]amerge=inputs=2,pan=stereo|c0=c0|c1=c1[aout]",
            );
            push_arg(&mut a, "-filter_threads");
            push_arg(&mut a, "auto");
            push_arg(&mut a, "-map");
            push_arg(&mut a, "[aout]");
            push_arg(&mut a, "-ar");
            push_decimal_arg(&mut a, sample_rate as u64);
        },
        MergeStrategy::Silent => {
            push_arg(&mut a, "-i");
            push_arg(&mut a, loopback);
            push_arg(&mut a, "-filter_complex");
            push_arg(&mut a, "[0:a]aformat=channel_layouts=stereo[aout]");
            push_arg(&mut a, "-map");
            push_arg(&mut a, "[aout]");
            push_arg(&mut a, "-ar");
            push_decimal_arg(&mut a, sample_rate as u64);
        },
    }
    assert(texts(a@) =~= after_quiet + merge_input_args(
        strategy,
        loopback@,
        mic@,
        decimal(sample_rate as nat),
    ));
    let ghost after_inputs = texts(a@);
    push_encoding_args(&mut a, format);
    push_output_args(&mut a, output, with_progress);
    assert(texts(a@) =~= merge_args_spec(
        strategy,
        loopback@,
        mic@,
        output@,
        sample_rate,
        format,
        with_progress,
    ));
    a
}

/// Total number of processing steps shown for a recording: analyze,
/// merge, (encode,) finalize. The last step is the finalizing one.
pub open spec fn processing_steps(format: AudioFormat) -> u8 {
    match format {
        AudioFormat::M4a => 4,
        AudioFormat::Wav => 3,
    }
}

/// Number of processing steps (and index of the finalizing step).
pub fn total_processing_steps(format: AudioFormat) -> (r: u8)
    ensures
        r == processing_steps(format),
{
    match format {
        AudioFormat::M4a => 4,
        AudioFormat::Wav => 3,
    }
}

/// A stage of the post-recording processing as the status file shows it.
#[derive(Debug, Clone, Copy, PartialEq, Eq, Structural)]
pub enum ProcessingStage {
    Preparing,
    Combining,
    Encoding,
    Finalizing,
}

/// What the status file says during a stage: message, step number and
/// processing type.
pub struct StageStatus {
    pub message: &'static str,
    pub step: u8,
    pub processing_type: &'static str,
}

pub open spec fn stage_message(stage: ProcessingStage) -> Seq<char> {
    match stage {
        ProcessingStage::Preparing => "Preparing merge operation..."@,
        ProcessingStage::Combining => "Combining audio streams..."@,
        ProcessingStage::Encoding => "Converting to M4A format..."@,
        ProcessingStage::Finalizing => "Saving recording..."@,
    }
}

pub open spec fn stage_step(stage: ProcessingStage, format: AudioFormat) -> u8 {
    match stage {
        ProcessingStage::Preparing => 2,
        ProcessingStage::Combining => 2,
        ProcessingStage::Encoding => 3,
        ProcessingStage::Finalizing => processing_steps(format),
    }
}

pub open spec fn stage_type(stage: ProcessingStage) -> Seq<char> {
    match stage {
        ProcessingStage::Preparing => "merging"@,
        ProcessingStage::Combining => "merging"@,
        ProcessingStage::Encoding => "encoding"@,
        ProcessingStage::Finalizing => "finalizing"@,
    }
}

/// The status shown during a processing stage.
pub fn stage_status(stage: ProcessingStage, format: AudioFormat) -> (r: StageStatus)
    ensures
        r.message@ == stage_message(stage),
        r.step == stage_step(stage, format),
        r.processing_type@ == stage_type(stage),
{
    match stage {
        ProcessingStage::Preparing => StageStatus {
            message: "Preparing merge operation...",
            step: 2,
            processing_type: "merging",
        },
        ProcessingStage::Combining => StageStatus {
            message: "Combining audio streams...",
            step: 2,
            processing_type: "merging",
        },
        ProcessingStage::Encoding => StageStatus {
            message: "Converting to M4A format...",
            step: 3,
            processing_type: "encoding",
        },
        ProcessingStage::Finalizing => StageStatus {
            message: "Saving recording...",
            step: total_processing_steps(format),
            processing_type: "finalizing",
        },
    }
}

// ---------------------------------------------------------------------------
// Durations
// ---------------------------------------------------------------------------

/// PCM bytes per second of the professional preset (48 kHz stereo 16-bit).
pub const PROFESSIONAL_BYTES_PER_SECOND: u64 = 192_000;

/// Smallest file whose duration is estimated from its size.
pub const MIN_FILE_SIZE_FOR_ESTIMATION: u64 = 1000;

/// Duration used when nothing is known about the inputs (5 minutes).
pub const DEFAULT_DURATION_FALLBACK_MS: u64 = 300_000;

/// Where the duration used for merge progress comes from.
#[derive(Debug, Clone, Copy, PartialEq, Eq, Structural)]
pub enum DurationBasis {
    /// The longer detected duration, in ms.
    Detected(u64),
    /// No duration was detected: whole seconds of professional-quality PCM
    /// in the larger file, in ms (the caller adds a 20% margin).
    SizeEstimate(u64),
    /// Neither durations nor sizes are known: the default, in ms.
    Fallback(u64),
}

pub open spec fn max_u64(a: u64, b: u64) -> u64 {
    if a >= b {
        a
    } else {
        b
    }
}

pub open spec fn duration_basis_spec(
    loopback_ms: u64,
    mic_ms: u64,
    loopback_size: u64,
    mic_size: u64,
) -> DurationBasis {
    let detected = max_u64(loopback_ms, mic_ms);
    let larger = max_u64(loopback_size, mic_size);
    if detected > 0 {
        DurationBasis::Detected(detected)
    } else if larger > 0 {
        DurationBasis::SizeEstimate(((larger / 192000) * 1000) as u64)
    } else {
        DurationBasis::Fallback(300000)
    }
}

/// Chooses the duration that merge progress is measured against.
pub fn merge_duration_basis(loopback_ms: u64, mic_ms: u64, loopback_size: u64, mic_size: u64) -> (r:
    DurationBasis)
    ensures
        r == duration_basis_spec(loopback_ms, mic_ms, loopback_size, mic_size),
{
    let detected = if loopback_ms >= mic_ms {
        loopback_ms
    } else {
        mic_ms
    };
    if detected > 0 {
        return DurationBasis::Detected(detected);
    }
    let larger = if loopback_size >= mic_size {
        loopback_size
    } else {
        mic_size
    };
    if larger > 0 {
        DurationBasis::SizeEstimate((larger / PROFESSIONAL_BYTES_PER_SECOND) * 1000)
    } else {
        DurationBasis::Fallback(DEFAULT_DURATION_FALLBACK_MS)
    }
}

/// Duration estimated from a file's size, taken as professional-quality
/// PCM: whole seconds, in ms; `None` for files under 1000 bytes.
pub fn estimate_duration_from_size(file_size: u64) -> (r: Option<u64>)
    ensures
        file_size < 1000 ==> r is None,
        file_size >= 1000 ==> r == Some(((file_size / 192000) * 1000) as u64),
{
    if file_size < MIN_FILE_SIZE_FOR_ESTIMATION {
        None
    } else {
        Some((file_size / PROFESSIONAL_BYTES_PER_SECOND) * 1000)
    }
}

/// A way of finding an audio file's duration.
#[derive(Debug, Clone, Copy, PartialEq, Eq, Structural)]
pub enum DurationMethod {
    WavHeader,
    FfprobeFormat,
    FfprobeStream,
    FileSize,
}

/// Whether an extension is `wav` in any ASCII case.
pub open spec fn is_wav_extension(ext: Seq<char>) -> bool {
    ext.len() == 3 && (ext[0] == 'w' || ext[0] == 'W') && (ext[1] == 'a' || ext[1] == 'A') && (
    ext[2] == 'v' || ext[2] == 'V')
}

/// Whether a file extension names a WAV file, ignoring ASCII case.
pub fn is_wav_file_extension(ext: &str) -> (r: bool)
    ensures
        r == is_wav_extension(ext@),
{
    let v = chars_of(ext);
    v.len() == 3 && (v[0] == 'w' || v[0] == 'W') && (v[1] == 'a' || v[1] == 'A') && (v[2] == 'v'
        || v[2] == 'V')
}

pub open spec fn duration_methods_spec(is_wav: bool) -> Seq<DurationMethod> {
    if is_wav {
        seq![
            DurationMethod::WavHeader,
            DurationMethod::FfprobeFormat,
            DurationMethod::FfprobeStream,
            DurationMethod::FileSize,
        ]
    } else {
        seq![
            DurationMethod::FfprobeFormat,
            DurationMethod::FfprobeStream,
            DurationMethod::WavHeader,
            DurationMethod::FileSize,
        ]
    }
}

/// The order in which duration methods are tried: the WAV header first for
/// WAV files (it is instant), FFprobe first otherwise. The first method
/// giving a positive duration wins; if none does, the duration is 0.
pub fn duration_methods(is_wav: bool) -> (r: Vec<DurationMethod>)
    ensures
        r@ == duration_methods_spec(is_wav),
{
    let mut v: Vec<DurationMethod> = Vec::new();
    if is_wav {
        v.push(DurationMethod::WavHeader);
        v.push(DurationMethod::FfprobeFormat);
        v.push(DurationMethod::FfprobeStream);
        v.push(DurationMethod::FileSize);
    } else {
        v.push(DurationMethod::FfprobeFormat);
        v.push(DurationMethod::FfprobeStream);
        v.push(DurationMethod::WavHeader);
        v.push(DurationMethod::FileSize);
    }
    assert(v@ =~= duration_methods_spec(is_wav));
    v
}

/// The first positive result, or 0.
pub open spec fn first_positive(results: Seq<Option<u64>>) -> u64
    decreases results.len(),
{
    if results.len() == 0 {
        0
    } else {
        match results[0] {
            Some(d) => if d > 0 {
                d
            } else {
                first_positive(results.drop_first())
            },
            None => first_positive(results.drop_first()),
        }
    }
}

/// Whether a method's result settles the duration (a positive one does),
/// so that no further method is tried.
pub fn duration_found(result: Option<u64>) -> (r: bool)
    ensures
        r == (result matches Some(d) && d > 0),
{
    match result {
        Some(d) => d > 0,
        None => false,
    }
}

/// Picks the duration from the methods' results, in the order tried.
pub fn pick_duration(results: &Vec<Option<u64>>) -> (r: u64)
    ensures
        r == first_positive(results@),
{
    let mut i: usize = 0;
    assert(results@.skip(0) =~= results@);
    while i < results.len()
        invariant
            i <= results@.len(),
            first_positive(results@) == first_positive(results@.skip(i as int)),
        decreases results.len() - i,
    {
        assert(results@.skip(i as int).drop_first() == results@.skip(i + 1));
        match results[i] {
            Some(d) => {
                if d > 0 {
                    return d;
                }
            },
            None => {},
        }
        i = i + 1;
    }
    assert(results@.skip(i as int).len() == 0);
    0
}

/// The FFprobe arguments that print a file's format or stream duration.
pub open spec fn ffprobe_args_spec(path: Seq<char>, stream: bool) -> Seq<Seq<char>> {
    seq![
        "-v"@,
        "error"@,
        "-show_entries"@,
        if stream {
            "stream=duration"@
        } else {
            "format=duration"@
        },
        "-of"@,
        "default=noprint_wrappers=1:nokey=1"@,
        path,
    ]
}

/// Builds the FFprobe arguments of a duration query.
pub fn ffprobe_duration_args(path: &str, stream: bool) -> (r: Vec<String>)
    ensures
        texts(r@) == ffprobe_args_spec(path@, stream),
{
    let mut a: Vec<String> = Vec::new();
    push_arg(&mut a, "-v");
    push_arg(&mut a, "error");
    push_arg(&mut a, "-show_entries");
    if stream {
        push_arg(&mut a, "stream=duration");
    } else {
        push_arg(&mut a, "format=duration");
    }
    push_arg(&mut a, "-of");
    push_arg(&mut a, "default=noprint_wrappers=1:nokey=1");
    push_arg(&mut a, path);
    assert(texts(a@) =~= ffprobe_args_spec(path@, stream));
    a
}

// ---------------------------------------------------------------------------
// Conversion and compression
// ---------------------------------------------------------------------------

pub open spec fn convert_args_spec(wav: Seq<char>, m4a: Seq<char>, with_progress: bool) -> Seq<
    Seq<char>,
> {
    quiet_args() + seq!["-i"@, wav] + aac_args() + seq!["-y"@, m4a] + progress_args(with_progress)
}

/// The FFmpeg arguments that convert a WAV file to M4A (AAC 192 kbps).
pub fn convert_args(wav: &str, m4a: &str, with_progress: bool) -> (r: Vec<String>)
    ensures
        texts(r@) == convert_args_spec(wav@, m4a@, with_progress),
{
    let mut a: Vec<String> = Vec::new();
    push_quiet_args(&mut a);
    push_arg(&mut a, "-i");
    push_arg(&mut a, wav);
    push_encoding_args(&mut a, AudioFormat::M4a);
    push_output_args(&mut a, m4a, with_progress);
    assert(texts(a@) =~= convert_args_spec(wav@, m4a@, with_progress));
    a
}

pub open spec fn compress_args_spec(
    input: Seq<char>,
    output: Seq<char>,
    bitrate_kbps: u32,
    sample_rate: u32,
    channels: u8,
    with_progress: bool,
) -> Seq<Seq<char>> {
    quiet_args() + seq![
        "-i"@,
        input,
        "-c:a"@,
        "aac"@,
        "-b:a"@,
        decimal(bitrate_kbps as nat) + "k"@,
        "-ar"@,
        decimal(sample_rate as nat),
        "-ac"@,
        decimal(channels as nat),
        "-movflags"@,
        "faststart"@,
        "-threads"@,
        "auto"@,
    ] + seq!["-y"@, output] + progress_args(with_progress)
}

/// The FFmpeg arguments that compress a recording for transcription.
pub fn compress_args(
    input: &str,
    output: &str,
    bitrate_kbps: u32,
    sample_rate: u32,
    channels: u8,
    with_progress: bool,
) -> (r: Vec<String>)
    ensures
        texts(r@) == compress_args_spec(
            input@,
            output@,
            bitrate_kbps,
            sample_rate,
            channels,
            with_progress,
        ),
{
    let mut a: Vec<String> = Vec::new();
    push_quiet_args(&mut a);
    push_arg(&mut a, "-i");
    push_arg(&mut a, input);
    push_arg(&mut a, "-c:a");
    push_arg(&mut a, "aac");
    push_arg(&mut a, "-b:a");
    let mut b = String::new();
    append_decimal(&mut b, bitrate_kbps as u64);
    b.append("k");
    assert(b@ =~= decimal(bitrate_kbps as nat) + "k"@);
    push_string_arg(&mut a, b);
    push_arg(&mut a, "-ar");
    push_decimal_arg(&mut a, sample_rate as u64);
    push_arg(&mut a, "-ac");
    push_decimal_arg(&mut a, channels as u64);
    push_arg(&mut a, "-movflags");
    push_arg(&mut a, "faststart");
    push_arg(&mut a, "-threads");
    push_arg(&mut a, "auto");
    push_output_args(&mut a, output, with_progress);
    assert(texts(a@) =~= compress_args_spec(
        input@,
        output@,
        bitrate_kbps,
        sample_rate,
        channels,
        with_progress,
    ));
    a
}

/// Name of the compressed copy of a file with stem `stem`.
pub fn compressed_file_name(stem: &str) -> (r: String)
    ensures
        r@ == stem@ + "_compressed.m4a"@,
{
    concat2(stem, "_compressed.m4a")
}

// ---------------------------------------------------------------------------
// Concatenating chunks
// ---------------------------------------------------------------------------

/// A path as the concat list writes it: backslashes become slashes and
/// each `'` becomes `'\''`.
pub open spec fn concat_escape(p: Seq<char>) -> Seq<char>
    decreases p.len(),
{
    if p.len() == 0 {
        Seq::<char>::empty()
    } else {
        let c = p.last();
        let tail = if c == '\\' {
            seq!['/']
        } else if c == '\'' {
            seq!['\'', '\\', '\'', '\'']
        } else {
            seq![c]
        };
        concat_escape(p.drop_last()) + tail
    }
}

/// The line of the concat list for one file.
pub open spec fn concat_line(p: Seq<char>) -> Seq<char> {
    "file '"@ + concat_escape(p) + "'\n"@
}

/// The concat list for a sequence of files.
pub open spec fn concat_list(files: Seq<Seq<char>>) -> Seq<char>
    decreases files.len(),
{
    if files.len() == 0 {
        Seq::<char>::empty()
    } else {
        concat_list(files.drop_last()) + concat_line(files.last())
    }
}

fn append_escaped(out: &mut String, p: &str)
    ensures
        final(out)@ == old(out)@ + concat_escape(p@),
{
    let v = chars_of(p);
    let ghost start = out@;
    let mut i: usize = 0;
    while i < v.len()
        invariant
            v@ == p@,
            i <= v@.len(),
            out@ == start + concat_escape(v@.take(i as int)),
        decreases v.len() - i,
    {
        let c = v[i];
        assert(v@.take(i + 1).drop_last() == v@.take(i as int));
        assert(v@.take(i + 1).last() == c);
        if c == '\\' {
            push_char(out, '/');
        } else if c == '\'' {
            push_char(out, '\'');
            push_char(out, '\\');
            push_char(out, '\'');
            push_char(out, '\'');
        } else {
            push_char(out, c);
        }
        i = i + 1;
        assert(out@ =~= start + concat_escape(v@.take(i as int)));
    }
    assert(v@.take(v.len() as int) == v@);
}

/// The contents of the FFmpeg concat list for the given files, in order.
pub fn concat_list_content(files: &Vec<String>) -> (r: String)
    ensures
        r@ == concat_list(texts(files@)),
{
    let mut out = String::new();
    let mut i: usize = 0;
    while i < files.len()
        invariant
            i <= files@.len(),
            out@ == concat_list(texts(files@).take(i as int)),
        decreases files.len() - i,
    {
        let ghost before = out@;
        out.append("file '");
        append_escaped(&mut out, files[i].as_str());
        out.append("'\n");
        proof {
            let t = texts(files@);
            assert(t.take(i + 1).drop_last() =~= t.take(i as int));
            assert(t.take(i + 1).last() == files@[i as int]@);
        }
        i = i + 1;
        assert(out@ =~= concat_list(texts(files@).take(i as int)));
    }
    assert(texts(files@).take(files.len() as int) =~= texts(files@));
    out
}

pub open spec fn concat_args_spec(list: Seq<char>, output: Seq<char>) -> Seq<Seq<char>> {
    quiet_args() + seq!["-f"@, "concat"@, "-safe"@, "0"@, "-i"@, list, "-c"@, "copy"@, "-y"@, output]
}

/// The FFmpeg arguments that join the files listed in `list` without
/// re-encoding.
pub fn concat_args(list: &str, output: &str) -> (r: Vec<String>)
    ensures
        texts(r@) == concat_args_spec(list@, output@),
{
    let mut a: Vec<String> = Vec::new();
    push_quiet_args(&mut a);
    push_arg(&mut a, "-f");
    push_arg(&mut a, "concat");
    push_arg(&mut a, "-safe");
    push_arg(&mut a, "0");
    push_arg(&mut a, "-i");
    push_arg(&mut a, list);
    push_arg(&mut a, "-c");
    push_arg(&mut a, "copy");
    push_arg(&mut a, "-y");
    push_arg(&mut a, output);
    assert(texts(a@) =~= concat_args_spec(list@, output@));
    a
}


/// The merge strategy follows the audio detected: both channels are kept
/// exactly when both carry audio, the system audio alone exactly when only
/// it does, the microphone alone exactly when only it does, and the silent
/// stereo file exactly when neither does. With the argument lists above,
/// the microphone file is read exactly when the microphone carried audio.
pub proof fn merge_strategy_follows_detected_audio(loopback_has_audio: bool, mic_has_audio: bool)
    ensures
        (strategy_for(loopback_has_audio, mic_has_audio) == MergeStrategy::DualMono) <==> (
        loopback_has_audio && mic_has_audio),
        (strategy_for(loopback_has_audio, mic_has_audio) == MergeStrategy::LoopbackOnly) <==> (
        loopback_has_audio && !mic_has_audio),
        (strategy_for(loopback_has_audio, mic_has_audio) == MergeStrategy::MicOnly) <==> (
        !loopback_has_audio && mic_has_audio),
        (strategy_for(loopback_has_audio, mic_has_audio) == MergeStrategy::Silent) <==> (
        !loopback_has_audio && !mic_has_audio),
{
}

/// Every duration method is tried once and the size estimate comes last:
/// a WAV file's own header is read first, any other file is asked of
/// FFprobe first (format, then stream) and its header read only after.
pub proof fn duration_methods_order(is_wav: bool)
    ensures
        duration_methods_spec(is_wav).len() == 4,
        duration_methods_spec(is_wav)[3] == DurationMethod::FileSize,
        is_wav ==> duration_methods_spec(is_wav)[0] == DurationMethod::WavHeader,
        !is_wav ==> duration_methods_spec(is_wav)[0] == DurationMethod::FfprobeFormat
            && duration_methods_spec(is_wav)[1] == DurationMethod::FfprobeStream,
        forall|a: int, b: int|
            0 <= a < b < 4 ==> duration_methods_spec(is_wav)[a] != duration_methods_spec(is_wav)[b],
{
}

/// The picked duration is the first positive result: when it is positive
/// some result gives it and no earlier one is positive; when it is 0 no
/// result is positive.
pub proof fn picked_duration_is_first_positive(results: Seq<Option<u64>>)
    ensures
        first_positive(results) > 0 ==> exists|i: int|
            0 <= i < results.len() && results[i] == Some(first_positive(results)) && forall|j: int|
                0 <= j < i ==> !(#[trigger] results[j] matches Some(d) && d > 0),
        first_positive(results) == 0 ==> forall|j: int|
            0 <= j < results.len() ==> !(#[trigger] results[j] matches Some(d) && d > 0),
    decreases results.len(),
{
    if results.len() > 0 {
        let rest = results.drop_first();
        picked_duration_is_first_positive(rest);
        assert forall|j: int| 0 < j < results.len() implies results[j] == rest[j - 1] by {}
        match results[0] {
            Some(d) => {
                if d > 0 {
                    assert(results[0] == Some(first_positive(results)));
                } else {
                    if first_positive(results) > 0 {
                        let i = choose|i: int|
                            0 <= i < rest.len() && rest[i] == Some(first_positive(rest)) && forall|j: int|
                                0 <= j < i ==> !(#[trigger] rest[j] matches Some(d) && d > 0);
                        assert(results[i + 1] == rest[i]);
                        assert forall|j: int| 0 <= j < i + 1 implies !(#[trigger] results[j] matches Some(d) && d > 0) by {
                            if j > 0 {
                                assert(results[j] == rest[j - 1]);
                            }
                        }
                    }
                }
            },
            None => {
                if first_positive(results) > 0 {
                    let i = choose|i: int|
                        0 <= i < rest.len() && rest[i] == Some(first_positive(rest)) && forall|j: int|
                            0 <= j < i ==> !(#[trigger] rest[j] matches Some(d) && d > 0);
                    assert(results[i + 1] == rest[i]);
                    assert forall|j: int| 0 <= j < i + 1 implies !(#[trigger] results[j] matches Some(d) && d > 0) by {
                        if j > 0 {
                            assert(results[j] == rest[j - 1]);
                        }
                    }
                }
            },
        }
    }
}

/// The larger of two sizes.
pub open spec fn larger_of(a: u64, b: u64) -> int {
    if a >= b {
        a as int
    } else {
        b as int
    }
}

/// Merge progress is measured against the longer detected duration when
/// one was detected; otherwise against the whole seconds of 48 kHz stereo
/// 16-bit audio that the larger file holds; otherwise against 5 minutes.
pub proof fn merge_duration_basis_prefers_detection(
    loopback_ms: u64,
    mic_ms: u64,
    loopback_size: u64,
    mic_size: u64,
)
    ensures
        ({
            let r = duration_basis_spec(loopback_ms, mic_ms, loopback_size, mic_size);
            &&& (loopback_ms > 0 || mic_ms > 0) ==> (r matches DurationBasis::Detected(x) && x
                >= loopback_ms && x >= mic_ms && (x == loopback_ms || x == mic_ms))
            &&& (loopback_ms == 0 && mic_ms == 0 && (loopback_size > 0 || mic_size > 0)) ==> (
            r matches DurationBasis::SizeEstimate(e) && (e as int) % 1000 == 0 && (e as int) * 192
                <= larger_of(loopback_size, mic_size) && larger_of(loopback_size, mic_size) < (e as int
                + 1000) * 192)
            &&& (loopback_ms == 0 && mic_ms == 0 && loopback_size == 0 && mic_size == 0) ==> r
                == DurationBasis::Fallback(300000)
        }),
{
    let larger: int = if loopback_size >= mic_size { loopback_size as int } else { mic_size as int };
    if loopback_ms == 0 && mic_ms == 0 && larger > 0 {
        let q = larger / 192000;
        assert(q * 192000 <= larger < (q + 1) * 192000) by (nonlinear_arith)
            requires q == larger / 192000, larger > 0;
        assert(0 <= q <= u64::MAX / 192000) by (nonlinear_arith)
            requires q == larger / 192000, 0 < larger <= u64::MAX;
        assert(((q * 1000) as u64) as int == q * 1000);
        assert((q * 1000) % 1000 == 0) by (nonlinear_arith);
        assert((q * 1000) * 192 == q * 192000) by (nonlinear_arith);
        assert((q * 1000 + 1000) * 192 == (q + 1) * 192000) by (nonlinear_arith);
    }
}

// ---------------------------------------------------------------------------
// What the argument lists read and write
// ---------------------------------------------------------------------------

/// A merge reads the captures its strategy uses and writes `output` in
/// stereo at `sample_rate`:
/// - both channels: the system audio (first input) becomes the left
///   channel and the microphone (second input) the right one;
/// - system audio only: the loopback file, upmixed to two channels;
/// - microphone only: the microphone file, split and panned to both
///   channels;
/// - neither: the (silent) loopback file as stereo.
/// The output is the argument after `-y`, followed only by the progress
/// options when progress is followed.
pub proof fn merge_reads_captures_and_writes_stereo(
    strategy: MergeStrategy,
    loopback: Seq<char>,
    mic: Seq<char>,
    output: Seq<char>,
    sample_rate: u32,
    format: AudioFormat,
    with_progress: bool,
)
    ensures
        ({
            let a = merge_args_spec(strategy, loopback, mic, output, sample_rate, format, with_progress);
            let n = a.len() as int;
            let k: int = if with_progress { 2 } else { 0 };
            &&& n >= 9 + k
            &&& a[0] == "-hide_banner"@ && a[1] == "-loglevel"@ && a[2] == "error"@
            &&& a[3] == "-i"@
            &&& a[n - k - 2] == "-y"@ && a[n - k - 1] == output
            &&& with_progress ==> a[n - 2] == "-progress"@ && a[n - 1] == "pipe:2"@
            &&& match strategy {
                MergeStrategy::DualMono => {
                    &&& a[4] == loopback && a[5] == "-i"@ && a[6] == mic
                    &&& a[7] == "-filter_complex"@
                    &&& a[8] == "[0:a]aformat=channel_layouts=mono[sys];[1:a]aformat=channel_layouts=mono[mic];[sys][mic]amerge=inputs=2,pan=stereo|c0=c0|c1=c1[aout]"@
                    &&& a[11] == "-map"@ && a[12] == "[aout]"@
                    &&& a[13] == "-ar"@ && a[14] == decimal(sample_rate as nat)
                },
                MergeStrategy::LoopbackOnly => {
                    &&& a[4] == loopback
                    &&& a[5] == "-ac"@ && a[6] == "2"@
                    &&& a[7] == "-ar"@ && a[8] == decimal(sample_rate as nat)
                },
                MergeStrategy::MicOnly => {
                    &&& a[4] == mic
                    &&& a[5] == "-filter_complex"@
                    &&& a[6] == "[0:a]aformat=channel_layouts=mono,asplit=2[l][r];[l][r]amerge=inputs=2,pan=stereo|c0=c0|c1=c1[aout]"@
                    &&& a[9] == "-map"@ && a[10] == "[aout]"@
                    &&& a[11] == "-ar"@ && a[12] == decimal(sample_rate as nat)
                },
                MergeStrategy::Silent => {
                    &&& a[4] == loopback
                    &&& a[5] == "-filter_complex"@
                    &&& a[6] == "[0:a]aformat=channel_layouts=stereo[aout]"@
                    &&& a[7] == "-map"@ && a[8] == "[aout]"@
                    &&& a[9] == "-ar"@ && a[10] == decimal(sample_rate as nat)
                },
            }
            &&& (format == AudioFormat::M4a ==> a[n - k - 10] == "-c:a"@ && a[n - k - 9] == "aac"@
                && a[n - k - 8] == "-b:a"@ && a[n - k - 7] == "192k"@)
        }),
{
    let q = quiet_args();
    let i = merge_input_args(strategy, loopback, mic, decimal(sample_rate as nat));
    let e = encoding_args(format);
    let o = seq!["-y"@, output];
    let g = progress_args(with_progress);
    let a = merge_args_spec(strategy, loopback, mic, output, sample_rate, format, with_progress);
    assert(a == q + i + e + o + g);
    assert(q.len() == 3);
    assert(e.len() == if format == AudioFormat::M4a { 8int } else { 0int });
    assert(g.len() == if with_progress { 2int } else { 0int });
    let n = a.len() as int;
    let k: int = if with_progress { 2 } else { 0 };
    assert(a[n - k - 2] == o[0]);
    assert(a[n - k - 1] == o[1]);
    if with_progress {
        assert(a[n - 2] == g[0]);
        assert(a[n - 1] == g[1]);
    }
    if format == AudioFormat::M4a {
        assert(a[n - k - 10] == e[0]);
        assert(a[n - k - 9] == e[1]);
        assert(a[n - k - 8] == e[2]);
        assert(a[n - k - 7] == e[3]);
    }
    assert(a[0] == q[0] && a[1] == q[1] && a[2] == q[2]);
    assert forall|j: int| 0 <= j < i.len() implies a[3 + j] == i[j] by {}
    assert(a[3] == i[0]);
    assert(a[4] == i[1]);
    assert(a[5] == i[2]);
    assert(a[6] == i[3]);
    assert(a[7] == i[4]);
    assert(a[8] == i[5]);
    match strategy {
        MergeStrategy::DualMono => {
            assert(a[9] == i[6]);
            assert(a[10] == i[7]);
            assert(a[11] == i[8]);
            assert(a[12] == i[9]);
            assert(a[13] == i[10]);
            assert(a[14] == i[11]);
        },
        MergeStrategy::LoopbackOnly => {},
        MergeStrategy::MicOnly => {
            assert(a[9] == i[6]);
            assert(a[10] == i[7]);
            assert(a[11] == i[8]);
            assert(a[12] == i[9]);
        },
        MergeStrategy::Silent => {
            assert(a[9] == i[6]);
            assert(a[10] == i[7]);
        },
    }
}

/// A duration query asks FFprobe for the stream's duration when `stream`
/// is set and for the container's otherwise, printed bare (no key, no
/// wrapper), about `path`, the last argument.
pub proof fn ffprobe_asks_for_the_chosen_duration(path: Seq<char>, stream: bool)
    ensures
        ({
            let a = ffprobe_args_spec(path, stream);
            &&& a.len() == 7
            &&& a[2] == "-show_entries"@
            &&& stream ==> a[3] == "stream=duration"@
            &&& !stream ==> a[3] == "format=duration"@
            &&& a[4] == "-of"@ && a[5] == "default=noprint_wrappers=1:nokey=1"@
            &&& a[6] == path
        }),
{
}

/// A compression reads `input` and writes `output` (never the other way
/// round), as AAC at `bitrate_kbps` kbps, `sample_rate` Hz and `channels`
/// channels; the output is the argument after `-y`.
pub proof fn compression_reads_input_writes_output(
    input: Seq<char>,
    output: Seq<char>,
    bitrate_kbps: u32,
    sample_rate: u32,
    channels: u8,
    with_progress: bool,
)
    ensures
        ({
            let a = compress_args_spec(input, output, bitrate_kbps, sample_rate, channels, with_progress);
            &&& a.len() == if with_progress { 21int } else { 19int }
            &&& a[3] == "-i"@ && a[4] == input
            &&& a[5] == "-c:a"@ && a[6] == "aac"@
            &&& a[7] == "-b:a"@ && a[8] == decimal(bitrate_kbps as nat) + "k"@
            &&& a[9] == "-ar"@ && a[10] == decimal(sample_rate as nat)
            &&& a[11] == "-ac"@ && a[12] == decimal(channels as nat)
            &&& a[17] == "-y"@ && a[18] == output
            &&& with_progress ==> a[19] == "-progress"@ && a[20] == "pipe:2"@
        }),
{
    let a = compress_args_spec(input, output, bitrate_kbps, sample_rate, channels, with_progress);
    let m = seq![
        "-i"@,
        input,
        "-c:a"@,
        "aac"@,
        "-b:a"@,
        decimal(bitrate_kbps as nat) + "k"@,
        "-ar"@,
        decimal(sample_rate as nat),
        "-ac"@,
        decimal(channels as nat),
        "-movflags"@,
        "faststart"@,
        "-threads"@,
        "auto"@,
    ];
    let o = seq!["-y"@, output];
    let g = progress_args(with_progress);
    assert(a == quiet_args() + m + o + g);
    assert(a[4] == m[1]);
    assert(a[8] == m[5]);
    assert(a[10] == m[7]);
    assert(a[12] == m[9]);
    assert(a[17] == o[0]);
    assert(a[18] == o[1]);
    if with_progress {
        assert(a[19] == g[0]);
        assert(a[20] == g[1]);
    }
}

/// A conversion reads the WAV file and writes the M4A file as AAC at
/// 192 kbps; the M4A file is the argument after `-y`.
pub proof fn conversion_reads_wav_writes_m4a(wav: Seq<char>, m4a: Seq<char>, with_progress: bool)
    ensures
        ({
            let a = convert_args_spec(wav, m4a, with_progress);
            &&& a.len() == if with_progress { 17int } else { 15int }
            &&& a[3] == "-i"@ && a[4] == wav
            &&& a[5] == "-c:a"@ && a[6] == "aac"@ && a[7] == "-b:a"@ && a[8] == "192k"@
            &&& a[13] == "-y"@ && a[14] == m4a
        }),
{
    let a = convert_args_spec(wav, m4a, with_progress);
    let i = seq!["-i"@, wav];
    let e = aac_args();
    let o = seq!["-y"@, m4a];
    assert(a == quiet_args() + i + e + o + progress_args(with_progress));
    assert(a[4] == i[1]);
    assert(a[5] == e[0] && a[6] == e[1] && a[7] == e[2] && a[8] == e[3]);
    assert(a[13] == o[0]);
    assert(a[14] == o[1]);
}

/// A concatenation reads the list file with the concat demuxer, copies the
/// streams without re-encoding, and writes `output`.
pub proof fn concatenation_reads_list_writes_output(list: Seq<char>, output: Seq<char>)
    ensures
        ({
            let a = concat_args_spec(list, output);
            &&& a.len() == 13
            &&& a[3] == "-f"@ && a[4] == "concat"@
            &&& a[7] == "-i"@ && a[8] == list
            &&& a[9] == "-c"@ && a[10] == "copy"@
            &&& a[11] == "-y"@ && a[12] == output
        }),
{
    let a = concat_args_spec(list, output);
    let m = seq!["-f"@, "concat"@, "-safe"@, "0"@, "-i"@, list, "-c"@, "copy"@, "-y"@, output];
    assert(a == quiet_args() + m);
    assert(a[8] == m[5]);
    assert(a[12] == m[9]);
}

} // verus!
