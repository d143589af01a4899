//! Output formats of the streaming encoders, the FFmpeg pipe command that
//! encodes them, and the PCM byte stream fed into it.

use vstd::prelude::*;
use vstd::string::*;

use crate::args::{push_arg, push_decimal_arg, push_string_arg, texts};
use crate::error::RecorderError;
use crate::text::{append_decimal, decimal, has_infix, owned, str_contains, u64_to_decimal};

verus! {

/// Audio output format of a streaming encoder.
#[derive(Debug, Clone, Copy, PartialEq, Eq, Structural)]
pub enum OutputFormat {
    /// Uncompressed 16-bit PCM WAV.
    Wav,
    /// AAC in an M4A container, bitrate in kbps.
    M4a { bitrate: u32 },
    /// MP3, bitrate in kbps.
    Mp3 { bitrate: u32 },
}

pub open spec fn output_extension(f: OutputFormat) -> Seq<char> {
    match f {
        OutputFormat::Wav => "wav"@,
        OutputFormat::M4a { .. } => "m4a"@,
        OutputFormat::Mp3 { .. } => "mp3"@,
    }
}

pub open spec fn output_name(f: OutputFormat) -> Seq<char> {
    match f {
        OutputFormat::Wav => "WAV (PCM)"@,
        OutputFormat::M4a { bitrate } => "M4A (AAC "@ + decimal(bitrate as nat) + "kbps)"@,
        OutputFormat::Mp3 { bitrate } => "MP3 ("@ + decimal(bitrate as nat) + "kbps)"@,
    }
}

pub open spec fn output_codec_name(f: OutputFormat) -> Seq<char> {
    match f {
        OutputFormat::Wav => "PCM"@,
        OutputFormat::M4a { .. } => "AAC"@,
        OutputFormat::Mp3 { .. } => "MP3"@,
    }
}

pub open spec fn output_bytes_per_second(f: OutputFormat, channels: u32, sample_rate: u32) -> int {
    match f {
        OutputFormat::Wav => sample_rate * channels * 2,
        OutputFormat::M4a { bitrate } => bitrate * 1000 / 8,
        OutputFormat::Mp3 { bitrate } => bitrate * 1000 / 8,
    }
}

impl OutputFormat {
    /// File extension (`wav`, `m4a` or `mp3`).
    pub fn extension(&self) -> (r: &'static str)
        ensures
            r@ == output_extension(*self),
    {
        match self {
            OutputFormat::Wav => "wav",
            OutputFormat::M4a { .. } => "m4a",
            OutputFormat::Mp3 { .. } => "mp3",
        }
    }

    /// Human-readable name, such as `M4A (AAC 192kbps)`.
    pub fn name(&self) -> (r: String)
        ensures
            r@ == output_name(*self),
    {
        match self {
            OutputFormat::Wav => owned("WAV (PCM)"),
            OutputFormat::M4a { bitrate } => {
                let mut s = owned("M4A (AAC ");
                append_decimal(&mut s, *bitrate as u64);
                s.append("kbps)");
                s
            },
            OutputFormat::Mp3 { bitrate } => {
                let mut s = owned("MP3 (");
                append_decimal(&mut s, *bitrate as u64);
                s.append("kbps)");
                s
            },
        }
    }

    /// The text the format displays as: its name.
    pub fn to_string(&self) -> (r: String)
        ensures
            r@ == output_name(*self),
    {
        self.name()
    }

    /// Codec name (`PCM`, `AAC` or `MP3`).
    pub fn codec_name(&self) -> (r: &'static str)
        ensures
            r@ == output_codec_name(*self),
    {
        match self {
            OutputFormat::Wav => "PCM",
            OutputFormat::M4a { .. } => "AAC",
            OutputFormat::Mp3 { .. } => "MP3",
        }
    }

    /// Whether encoding goes through FFmpeg: every format but WAV.
    pub fn requires_ffmpeg(&self) -> (r: bool)
        ensures
            r == !(*self is Wav),
    {
        match self {
            OutputFormat::Wav => false,
            _ => true,
        }
    }

    /// Bytes of output per second of audio: the PCM rate for WAV, the
    /// bitrate for the compressed formats. The WAV product is computed in
    /// 32 bits, so it must fit there.
    pub fn bytes_per_second(&self, channels: u32, sample_rate: u32) -> (r: u64)
        requires
            *self is Wav ==> sample_rate * channels * 2 <= u32::MAX,
        ensures
            r == output_bytes_per_second(*self, channels, sample_rate),
    {
        match self {
            OutputFormat::Wav => {
                assert(sample_rate * channels <= u32::MAX) by (nonlinear_arith)
                    requires
                        sample_rate * channels * 2 <= u32::MAX,
                ;
                (sample_rate * channels * 2) as u64
            },
            OutputFormat::M4a { bitrate } => (*bitrate as u64 * 1000) / 8,
            OutputFormat::Mp3 { bitrate } => (*bitrate as u64 * 1000) / 8,
        }
    }

    /// The default format: M4A at 192 kbps.
    pub fn default() -> (r: Self)
        ensures
            r == (OutputFormat::M4a { bitrate: 192 }),
    {
        OutputFormat::M4a { bitrate: 192 }
    }
}

// ---------------------------------------------------------------------------
// Which encoder a format needs
// ---------------------------------------------------------------------------

/// The encoder that writes a given format.
#[derive(Debug, Clone, Copy, PartialEq, Eq, Structural)]
pub enum EncoderChoice {
    /// The WAV writer.
    Wav,
    /// FFmpeg fed through a pipe; `mp3` selects LAME in an MP3 file,
    /// otherwise AAC in an M4A file.
    Ffmpeg { mp3: bool, bitrate: u32 },
}

/// Selects the encoder for `format`.
pub fn encoder_choice(format: &OutputFormat) -> (r: EncoderChoice)
    ensures
        r == match *format {
            OutputFormat::Wav => EncoderChoice::Wav,
            OutputFormat::M4a { bitrate } => EncoderChoice::Ffmpeg { mp3: false, bitrate },
            OutputFormat::Mp3 { bitrate } => EncoderChoice::Ffmpeg { mp3: true, bitrate },
        },
{
    match format {
        OutputFormat::Wav => EncoderChoice::Wav,
        OutputFormat::M4a { bitrate } => EncoderChoice::Ffmpeg { mp3: false, bitrate: *bitrate },
        OutputFormat::Mp3 { bitrate } => EncoderChoice::Ffmpeg { mp3: true, bitrate: *bitrate },
    }
}

/// The FFmpeg arguments that read 16-bit little-endian PCM from standard
/// input and encode it with `codec` at `bitrate` kbps into `output_path`;
/// an M4A container gets `-movflags +faststart`.
pub open spec fn pipe_args_spec(
    output_path: Seq<char>,
    channels: u32,
    sample_rate: u32,
    codec: Seq<char>,
    bitrate: u32,
    container: Seq<char>,
) -> Seq<Seq<char>> {
    let head = seq![
        "-f"@,
        "s16le"@,
        "-ar"@,
        decimal(sample_rate as nat),
        "-ac"@,
        decimal(channels as nat),
        "-i"@,
        "pipe:0"@,
        "-c:a"@,
        codec,
        "-b:a"@,
        decimal(bitrate as nat) + "k"@,
    ];
    let flags = if container == "m4a"@ {
        seq!["-movflags"@, "+faststart"@]
    } else {
        Seq::<Seq<char>>::empty()
    };
    head + flags + seq!["-y"@, output_path]
}

/// Builds the FFmpeg argument list of a pipe encoder.
pub fn pipe_encoder_args(
    output_path: &str,
    channels: u32,
    sample_rate: u32,
    mp3: bool,
    bitrate: u32,
) -> (r: Vec<String>)
    ensures
        texts(r@) == pipe_args_spec(
            output_path@,
            channels,
            sample_rate,
            if mp3 {
                "libmp3lame"@
            } else {
                "aac"@
            },
            bitrate,
            if mp3 {
                "mp3"@
            } else {
                "m4a"@
            },
        ),
{
    let mut a: Vec<String> = Vec::new();
    push_arg(&mut a, "-f");
    push_arg(&mut a, "s16le");
    push_arg(&mut a, "-ar");
    push_decimal_arg(&mut a, sample_rate as u64);
    push_arg(&mut a, "-ac");
    push_decimal_arg(&mut a, channels as u64);
    push_arg(&mut a, "-i");
    push_arg(&mut a, "pipe:0");
    push_arg(&mut a, "-c:a");
    if mp3 {
        push_arg(&mut a, "libmp3lame");
    } else {
        push_arg(&mut a, "aac");
    }
    push_arg(&mut a, "-b:a");
    let mut b = String::new();
    append_decimal(&mut b, bitrate as u64);
    b.append("k");
    assert(b@ =~= decimal(bitrate as nat) + "k"@);
    push_string_arg(&mut a, b);
    if !mp3 {
        push_arg(&mut a, "-movflags");
        push_arg(&mut a, "+faststart");
    }
    push_arg(&mut a, "-y");
    push_arg(&mut a, output_path);
    proof {
        reveal_strlit("m4a");
        reveal_strlit("mp3");
        let codec = if mp3 { "libmp3lame"@ } else { "aac"@ };
        let container = if mp3 { "mp3"@ } else { "m4a"@ };
        assert(mp3 ==> container != "m4a"@) by {
            if mp3 {
                assert(container[1] != "m4a"@[1]);
            }
        }
        assert(texts(a@) =~= pipe_args_spec(output_path@, channels, sample_rate, codec, bitrate, container));
    }
    a
}

/// A pipe encoder reads 16-bit little-endian PCM at the given rate and
/// channel count from standard input and writes `output_path`, the last
/// argument, right after `-y`; an MP3 file is encoded with LAME and no
/// container flags, an M4A file with AAC and `+faststart`.
pub proof fn pipe_encoder_reads_stdin_writes_output(
    output_path: Seq<char>,
    channels: u32,
    sample_rate: u32,
    mp3: bool,
    bitrate: u32,
)
    ensures
        ({
            let a = pipe_args_spec(
                output_path,
                channels,
                sample_rate,
                if mp3 { "libmp3lame"@ } else { "aac"@ },
                bitrate,
                if mp3 { "mp3"@ } else { "m4a"@ },
            );
            &&& a.len() == if mp3 { 14int } else { 16int }
            &&& a[0] == "-f"@ && a[1] == "s16le"@
            &&& a[2] == "-ar"@ && a[3] == decimal(sample_rate as nat)
            &&& a[4] == "-ac"@ && a[5] == decimal(channels as nat)
            &&& a[6] == "-i"@ && a[7] == "pipe:0"@
            &&& a[8] == "-c:a"@ && a[9] == (if mp3 { "libmp3lame"@ } else { "aac"@ })
            &&& a[10] == "-b:a"@ && a[11] == decimal(bitrate as nat) + "k"@
            &&& !mp3 ==> a[12] == "-movflags"@ && a[13] == "+faststart"@
            &&& a[a.len() - 2] == "-y"@ && a[a.len() - 1] == output_path
        }),
{
    reveal_strlit("m4a");
    reveal_strlit("mp3");
    assert("mp3"@[1] != "m4a"@[1]);
}

/// Extension, codec and encoder go together: WAV is PCM written without
/// FFmpeg; M4A is AAC and MP3 is MP3, both through FFmpeg. A second of WAV
/// takes two bytes per sample and channel; a second of a compressed format
/// takes its bitrate in kbps times 125 bytes, rounded down.
pub proof fn formats_agree(f: OutputFormat, channels: u32, sample_rate: u32)
    ensures
        f is Wav ==> output_extension(f) == "wav"@ && output_codec_name(f) == "PCM"@
            && output_bytes_per_second(f, channels, sample_rate) == 2 * (sample_rate as int)
            * (channels as int),
        f matches OutputFormat::M4a { bitrate } ==> output_extension(f) == "m4a"@
            && output_codec_name(f) == "AAC"@ && output_bytes_per_second(f, channels, sample_rate)
            == bitrate as int * 125,
        f matches OutputFormat::Mp3 { bitrate } ==> output_extension(f) == "mp3"@
            && output_codec_name(f) == "MP3"@ && output_bytes_per_second(f, channels, sample_rate)
            == bitrate as int * 125,
{
    match f {
        OutputFormat::Wav => {
            assert(sample_rate * channels * 2 == 2 * (sample_rate as int) * (channels as int))
                by (nonlinear_arith);
        },
        OutputFormat::M4a { bitrate } => {
            assert(bitrate * 1000 / 8 == bitrate as int * 125) by (nonlinear_arith);
        },
        OutputFormat::Mp3 { bitrate } => {
            assert(bitrate * 1000 / 8 == bitrate as int * 125) by (nonlinear_arith);
        },
    }
}

// ---------------------------------------------------------------------------
// The PCM stream
// ---------------------------------------------------------------------------

/// Low byte of a sample's two's-complement form.
pub open spec fn low_byte(s: i16) -> u8 {
    ((s as u16) & 0xff) as u8
}

/// High byte of a sample's two's-complement form.
pub open spec fn high_byte(s: i16) -> u8 {
    ((s as u16) >> 8) as u8
}

/// Samples as 16-bit little-endian bytes, two per sample.
pub open spec fn pcm_le_bytes(samples: Seq<i16>) -> Seq<u8> {
    Seq::new(
        2 * samples.len(),
        |i: int|
            if i % 2 == 0 {
                low_byte(samples[i / 2])
            } else {
                high_byte(samples[i / 2])
            },
    )
}

/// The sample that two little-endian bytes encode.
pub open spec fn sample_from_le(lo: u8, hi: u8) -> i16 {
    (((hi as u16) << 8) | (lo as u16)) as i16
}

/// Converts samples to the little-endian byte stream that FFmpeg reads as
/// `s16le`.
pub fn pcm_to_le_bytes(samples: &[i16]) -> (r: Vec<u8>)
    requires
        2 * samples@.len() <= usize::MAX,
    ensures
        r@ == pcm_le_bytes(samples@),
{
    let mut r: Vec<u8> = Vec::new();
    let mut i: usize = 0;
    while i < samples.len()
        invariant
            i <= samples@.len(),
            2 * samples@.len() <= usize::MAX,
            r@.len() == 2 * i,
            forall|k: int| 0 <= k < 2 * i ==> r@[k] == pcm_le_bytes(samples@)[k],
        decreases samples.len() - i,
    {
        let s = samples[i];
        let u = s as u16;
        r.push((u & 0xff) as u8);
        r.push((u >> 8) as u8);
        i = i + 1;
    }
    assert(r@ =~= pcm_le_bytes(samples@));
    r
}

/// Decoding the byte stream gives back every sample.
pub proof fn pcm_bytes_roundtrip(samples: Seq<i16>, k: int)
    requires
        0 <= k < samples.len(),
    ensures
        sample_from_le(pcm_le_bytes(samples)[2 * k], pcm_le_bytes(samples)[2 * k + 1]) == samples[k],
{
    let s = samples[k];
    let b = pcm_le_bytes(samples);
    assert(b[2 * k] == low_byte(s));
    assert(b[2 * k + 1] == high_byte(s));
    let u = s as u16;
    assert(((((u >> 8) as u8) as u16) << 8) | (((u & 0xff) as u8) as u16) == u) by (bit_vector);
    assert((u as i16) == s) by (bit_vector)
        requires
            u == s as u16,
    ;
}

/// Estimated size of the compressed output after `bytes_written` bytes of
/// PCM (taken as 16-bit stereo at 48 kHz, 192 000 bytes per second), in
/// whole seconds at `bitrate` kbps. The product wraps at 64 bits, as the
/// unchecked multiplication does in a release build.
pub fn estimated_compressed_size(bitrate: u32, bytes_written: u64) -> (r: u64)
    ensures
        r == ((bitrate * 1000 / 8) * (bytes_written / 192000)) % 0x1_0000_0000_0000_0000,
{
    let bytes_per_sec: u64 = (bitrate as u64 * 1000) / 8;
    let duration_secs: u64 = bytes_written / 192_000u64;
    let r = bytes_per_sec.wrapping_mul(duration_secs);
    r
}

// ---------------------------------------------------------------------------
// Creating an encoder
// ---------------------------------------------------------------------------

/// Writes PCM samples into an encoded file as they are captured.
pub trait StreamingEncoder {
    /// Writes interleaved 16-bit samples.
    fn write_samples(&mut self, samples: &[i16], channels: u32, sample_rate: u32) -> Result<
        (),
        RecorderError,
    >;

    /// Flushes what is left and completes the file.
    fn finish(&mut self) -> Result<(), RecorderError>;

    /// Estimated size of the output so far, where the encoder can tell.
    fn estimated_size(&self) -> Option<u64>;

    /// Whether the encoder can still take samples.
    fn is_healthy(&self) -> bool;
}

/// The layout of the PCM a WAV file holds.
#[derive(Debug, Clone, Copy, PartialEq, Eq, Structural)]
pub struct PcmLayout {
    pub channels: u16,
    pub sample_rate: u32,
    pub bits_per_sample: u16,
}

/// The WAV layout for `channels` and `sample_rate`: 16-bit integer
/// samples; the channel count is kept in 16 bits (higher bits are cut).
pub fn wav_layout(channels: u32, sample_rate: u32) -> (r: PcmLayout)
    ensures
        r.channels == channels as u16,
        r.sample_rate == sample_rate,
        r.bits_per_sample == 16,
{
    PcmLayout { channels: channels as u16, sample_rate, bits_per_sample: 16 }
}

/// How the encoder for a format is set up.
#[derive(Debug)]
pub enum EncoderPlan {
    /// A WAV writer with this layout.
    Wav { layout: PcmLayout },
    /// FFmpeg reading PCM from a pipe, started with these arguments.
    Pipe { args: Vec<String>, bitrate: u32 },
}

/// Sets up the encoder that writes `format` into `path` from PCM with
/// `channels` channels at `sample_rate` Hz.
pub fn create_encoder(format: &OutputFormat, path: &str, channels: u32, sample_rate: u32) -> (r:
    EncoderPlan)
    ensures
        match *format {
            OutputFormat::Wav => r matches EncoderPlan::Wav { layout } && layout == (PcmLayout {
                channels: channels as u16,
                sample_rate,
                bits_per_sample: 16,
            }),
            OutputFormat::M4a { bitrate } => r matches EncoderPlan::Pipe { args, bitrate: b } && b
                == bitrate && texts(args@) == pipe_args_spec(
                path@,
                channels,
                sample_rate,
                "aac"@,
                bitrate,
                "m4a"@,
            ),
            OutputFormat::Mp3 { bitrate } => r matches EncoderPlan::Pipe { args, bitrate: b } && b
                == bitrate && texts(args@) == pipe_args_spec(
                path@,
                channels,
                sample_rate,
                "libmp3lame"@,
                bitrate,
                "mp3"@,
            ),
        },
{
    match encoder_choice(format) {
        EncoderChoice::Wav => EncoderPlan::Wav { layout: wav_layout(channels, sample_rate) },
        EncoderChoice::Ffmpeg { mp3, bitrate } => EncoderPlan::Pipe {
            args: pipe_encoder_args(path, channels, sample_rate, mp3, bitrate),
            bitrate,
        },
    }
}

/// What a pipe encoder keeps track of: the bytes sent so far and whether
/// its FFmpeg process is alive.
pub struct PipeEncoderState {
    pub bitrate: u32,
    pub bytes_written: u64,
    pub healthy: bool,
}

impl PipeEncoderState {
    /// A freshly started encoder at `bitrate` kbps.
    pub fn new(bitrate: u32) -> (r: Self)
        ensures
            r.bitrate == bitrate,
            r.bytes_written == 0,
            r.healthy,
    {
        PipeEncoderState { bitrate, bytes_written: 0, healthy: true }
    }

    /// Checks that samples may be written: refused once the process died.
    pub fn check_writable(&self) -> (r: Result<(), RecorderError>)
        ensures
            self.healthy <==> r is Ok,
            r matches Err(RecorderError::RecordingError(m)) ==> m@
                == "FFmpeg process is not healthy - cannot write samples"@,
            r is Err ==> r matches Err(RecorderError::RecordingError(_)),
    {
        if self.healthy {
            Ok(())
        } else {
            Err(RecorderError::RecordingError(owned("FFmpeg process is not healthy - cannot write samples")))
        }
    }

    /// Counts `n` more bytes sent to FFmpeg.
    pub fn record_written(&mut self, n: u64)
        requires
            old(self).bytes_written + n <= u64::MAX,
        ensures
            final(self).bytes_written == old(self).bytes_written + n,
            final(self).bitrate == old(self).bitrate,
            final(self).healthy == old(self).healthy,
    {
        self.bytes_written = self.bytes_written + n;
    }

    /// The size estimate `estimated_compressed_size` gives so far.
    pub fn estimated_size(&self) -> (r: Option<u64>)
        ensures
            r == Some(
                (((self.bitrate * 1000 / 8) * (self.bytes_written / 192000)) % 0x1_0000_0000_0000_0000) as u64,
            ),
    {
        Some(estimated_compressed_size(self.bitrate, self.bytes_written))
    }

    /// The process died: no more samples are taken.
    pub fn mark_unhealthy(&mut self)
        ensures
            !final(self).healthy,
            final(self).bitrate == old(self).bitrate,
            final(self).bytes_written == old(self).bytes_written,
    {
        self.healthy = false;
    }
}

/// Whether the process list printed by `tasklist` for a process id still
/// shows that process (its number appears in the output).
pub fn process_listed(tasklist_output: &str, pid: u32) -> (r: bool)
    ensures
        r == has_infix(tasklist_output@, decimal(pid as nat)),
{
    let p = u64_to_decimal(pid as u64);
    str_contains(tasklist_output, p.as_str())
}

} // verus!
