//! Decisions of the capture loops: how a device's mix format is read, what
//! each captured packet turns into, and the integer sample conversions.

use vstd::prelude::*;

verus! {

/// The sample layout a capture loop reads a device buffer as.
#[derive(Debug, Clone, Copy, PartialEq, Eq, Structural)]
pub enum SampleFormat {
    Float32,
    Int32,
    Int16,
    Unsupported,
}

/// `WAVE_FORMAT_EXTENSIBLE`.
pub const FORMAT_EXTENSIBLE: u16 = 0xFFFE;

/// `WAVE_FORMAT_IEEE_FLOAT`.
pub const FORMAT_IEEE_FLOAT: u16 = 3;

/// The buffer flag that marks a silent packet (`AUDCLNT_BUFFERFLAGS_SILENT`).
pub const BUFFER_FLAG_SILENT: u32 = 0x2;

/// How the system-audio (loopback) recorder reads its mix format: an
/// extensible format counts as float exactly when it has 32 bits.
pub open spec fn loopback_format_spec(format_tag: u16, bits: u16) -> SampleFormat {
    let is_float = if format_tag == FORMAT_EXTENSIBLE {
        bits == 32
    } else {
        format_tag == FORMAT_IEEE_FLOAT
    };
    if is_float && bits == 32 {
        SampleFormat::Float32
    } else if !is_float && bits == 32 {
        SampleFormat::Int32
    } else if !is_float && bits == 16 {
        SampleFormat::Int16
    } else {
        SampleFormat::Unsupported
    }
}

/// How the microphone recorder reads its mix format: any float format is
/// read as 32-bit float; otherwise only 16-bit integers are read.
pub open spec fn microphone_format_spec(format_tag: u16, bits: u16) -> SampleFormat {
    let is_float = format_tag == FORMAT_IEEE_FLOAT || (format_tag == FORMAT_EXTENSIBLE && bits
        == 32);
    if is_float {
        SampleFormat::Float32
    } else if bits == 16 {
        SampleFormat::Int16
    } else {
        SampleFormat::Unsupported
    }
}

/// How the level monitor reads a mix format: 32-bit float, 32-bit integer,
/// then any 16-bit format as 16-bit integers.
pub open spec fn monitor_format_spec(format_tag: u16, bits: u16) -> SampleFormat {
    let is_float = (format_tag == FORMAT_EXTENSIBLE && bits == 32) || format_tag
        == FORMAT_IEEE_FLOAT;
    if is_float && bits == 32 {
        SampleFormat::Float32
    } else if !is_float && bits == 32 {
        SampleFormat::Int32
    } else if bits == 16 {
        SampleFormat::Int16
    } else {
        SampleFormat::Unsupported
    }
}

/// Sample layout of the loopback recorder for a mix format.
pub fn loopback_sample_format(format_tag: u16, bits: u16) -> (r: SampleFormat)
    ensures
        r == loopback_format_spec(format_tag, bits),
{
    let is_float = if format_tag == FORMAT_EXTENSIBLE {
        bits == 32
    } else {
        format_tag == FORMAT_IEEE_FLOAT
    };
    if is_float && bits == 32 {
        SampleFormat::Float32
    } else if !is_float && bits == 32 {
        SampleFormat::Int32
    } else if !is_float && bits == 16 {
        SampleFormat::Int16
    } else {
        SampleFormat::Unsupported
    }
}

/// Sample layout of the microphone recorder for a mix format.
pub fn microphone_sample_format(format_tag: u16, bits: u16) -> (r: SampleFormat)
    ensures
        r == microphone_format_spec(format_tag, bits),
{
    let is_float = format_tag == FORMAT_IEEE_FLOAT || (format_tag == FORMAT_EXTENSIBLE && bits
        == 32);
    if is_float {
        SampleFormat::Float32
    } else if bits == 16 {
        SampleFormat::Int16
    } else {
        SampleFormat::Unsupported
    }
}

/// Sample layout of the level monitor for a mix format.
pub fn monitor_sample_format(format_tag: u16, bits: u16) -> (r: SampleFormat)
    ensures
        r == monitor_format_spec(format_tag, bits),
{
    let is_float = (format_tag == FORMAT_EXTENSIBLE && bits == 32) || format_tag
        == FORMAT_IEEE_FLOAT;
    if is_float && bits == 32 {
        SampleFormat::Float32
    } else if !is_float && bits == 32 {
        SampleFormat::Int32
    } else if bits == 16 {
        SampleFormat::Int16
    } else {
        SampleFormat::Unsupported
    }
}

/// The three capture paths agree on float formats: a 32-bit format tagged
/// IEEE float (3) or extensible (0xFFFE) is read as 32-bit float by the
/// loopback recorder, the microphone recorder and the level monitor alike,
/// and whatever the loopback recorder reads as float, the microphone
/// recorder and the monitor read as float too. A 16-bit PCM format (1) is
/// read as 16-bit integers by all three.
pub proof fn float_formats_read_alike(format_tag: u16, bits: u16)
    ensures
        (format_tag == 3 || format_tag == 0xFFFE) && bits == 32 ==> {
            &&& loopback_format_spec(format_tag, bits) == SampleFormat::Float32
            &&& microphone_format_spec(format_tag, bits) == SampleFormat::Float32
            &&& monitor_format_spec(format_tag, bits) == SampleFormat::Float32
        },
        loopback_format_spec(format_tag, bits) == SampleFormat::Float32 ==> {
            &&& microphone_format_spec(format_tag, bits) == SampleFormat::Float32
            &&& monitor_format_spec(format_tag, bits) == SampleFormat::Float32
        },
        format_tag == 1 && bits == 16 ==> {
            &&& loopback_format_spec(format_tag, bits) == SampleFormat::Int16
            &&& microphone_format_spec(format_tag, bits) == SampleFormat::Int16
            &&& monitor_format_spec(format_tag, bits) == SampleFormat::Int16
        },
{
}

/// What a recorder writes for one captured packet.
#[derive(Debug, Clone, Copy, PartialEq, Eq, Structural)]
pub enum PacketAction {
    /// Zero samples for the whole packet.
    WriteSilence,
    /// Clamp float samples to [-1, 1], scale by 32767 and write them.
    ConvertFloat,
    /// Keep the high 16 bits of each 32-bit sample.
    ConvertInt32,
    /// Write the 16-bit samples as they are.
    PassInt16,
    /// Write nothing.
    Skip,
}

pub open spec fn is_silent_packet(flags: u32) -> bool {
    flags & BUFFER_FLAG_SILENT != 0
}

/// The loopback recorder writes silence for silent packets and nothing for
/// an unsupported layout.
pub open spec fn loopback_action_spec(flags: u32, format: SampleFormat) -> PacketAction {
    if is_silent_packet(flags) {
        PacketAction::WriteSilence
    } else {
        match format {
            SampleFormat::Float32 => PacketAction::ConvertFloat,
            SampleFormat::Int32 => PacketAction::ConvertInt32,
            SampleFormat::Int16 => PacketAction::PassInt16,
            SampleFormat::Unsupported => PacketAction::Skip,
        }
    }
}

/// The microphone recorder reads only float and 16-bit layouts and writes
/// silence for anything else.
pub open spec fn microphone_action_spec(flags: u32, format: SampleFormat) -> PacketAction {
    if is_silent_packet(flags) {
        PacketAction::WriteSilence
    } else {
        match format {
            SampleFormat::Float32 => PacketAction::ConvertFloat,
            SampleFormat::Int16 => PacketAction::PassInt16,
            _ => PacketAction::WriteSilence,
        }
    }
}

/// What the loopback recorder does with a non-empty packet.
pub fn loopback_packet_action(flags: u32, format: SampleFormat) -> (r: PacketAction)
    ensures
        r == loopback_action_spec(flags, format),
{
    if flags & BUFFER_FLAG_SILENT != 0 {
        PacketAction::WriteSilence
    } else {
        match format {
            SampleFormat::Float32 => PacketAction::ConvertFloat,
            SampleFormat::Int32 => PacketAction::ConvertInt32,
            SampleFormat::Int16 => PacketAction::PassInt16,
            SampleFormat::Unsupported => PacketAction::Skip,
        }
    }
}

/// What the microphone recorder does with a non-empty packet.
pub fn microphone_packet_action(flags: u32, format: SampleFormat) -> (r: PacketAction)
    ensures
        r == microphone_action_spec(flags, format),
{
    if flags & BUFFER_FLAG_SILENT != 0 {
        PacketAction::WriteSilence
    } else {
        match format {
            SampleFormat::Float32 => PacketAction::ConvertFloat,
            SampleFormat::Int16 => PacketAction::PassInt16,
            _ => PacketAction::WriteSilence,
        }
    }
}

/// Both recorders write silence for a packet flagged silent, whatever its
/// layout; otherwise both convert float samples and pass 16-bit samples
/// through, and the loopback recorder narrows 32-bit integer samples. In
/// particular a non-silent packet in the usual shared-mode mix format
/// (extensible or IEEE float, 32 bits) is converted from float by both.
pub proof fn packets_follow_their_layout(flags: u32, format: SampleFormat, format_tag: u16, bits: u16)
    ensures
        flags & 2 != 0 ==> loopback_action_spec(flags, format) == PacketAction::WriteSilence
            && microphone_action_spec(flags, format) == PacketAction::WriteSilence,
        flags & 2 == 0 && format == SampleFormat::Float32 ==> loopback_action_spec(flags, format)
            == PacketAction::ConvertFloat && microphone_action_spec(flags, format)
            == PacketAction::ConvertFloat,
        flags & 2 == 0 && format == SampleFormat::Int16 ==> loopback_action_spec(flags, format)
            == PacketAction::PassInt16 && microphone_action_spec(flags, format)
            == PacketAction::PassInt16,
        flags & 2 == 0 && format == SampleFormat::Int32 ==> loopback_action_spec(flags, format)
            == PacketAction::ConvertInt32,
        flags & 2 == 0 && (format_tag == 3 || format_tag == 0xFFFE) && bits == 32 ==> {
            &&& loopback_action_spec(flags, loopback_format_spec(format_tag, bits))
                == PacketAction::ConvertFloat
            &&& microphone_action_spec(flags, microphone_format_spec(format_tag, bits))
                == PacketAction::ConvertFloat
        },
{
}

/// Number of samples in a packet of `num_frames` frames. The product is
/// computed in 32 bits, so it must fit there.
pub fn packet_sample_count(num_frames: u32, channels: u16) -> (r: usize)
    requires
        num_frames * channels <= u32::MAX,
    ensures
        r == num_frames * channels,
{
    (num_frames * channels as u32) as usize
}

/// A packet's worth of silence.
pub fn silence(num_frames: u32, channels: u16) -> (r: Vec<i16>)
    requires
        num_frames * channels <= u32::MAX,
    ensures
        r@.len() == num_frames * channels,
        forall|k: int| 0 <= k < r@.len() ==> r@[k] == 0,
{
    let n = packet_sample_count(num_frames, channels);
    let mut r: Vec<i16> = Vec::new();
    let mut i: usize = 0;
    while i < n
        invariant
            i <= n,
            r@.len() == i,
            forall|k: int| 0 <= k < r@.len() ==> r@[k] == 0,
        decreases n - i,
    {
        r.push(0i16);
        i = i + 1;
    }
    r
}

/// The 16-bit sample kept of a 32-bit one: its high 16 bits.
pub open spec fn narrow_sample(s: i32) -> i16 {
    (s >> 16) as i16
}

/// Keeps the high 16 bits of each 32-bit sample.
pub fn int32_to_int16(samples: &[i32]) -> (r: Vec<i16>)
    ensures
        r@.len() == samples@.len(),
        forall|k: int| 0 <= k < r@.len() ==> r@[k] == narrow_sample(samples@[k]),
{
    let mut r: Vec<i16> = Vec::new();
    let mut i: usize = 0;
    while i < samples.len()
        invariant
            i <= samples@.len(),
            r@.len() == i,
            forall|k: int| 0 <= k < i ==> r@[k] == narrow_sample(samples@[k]),
        decreases samples.len() - i,
    {
        let s = samples[i];
        r.push((s >> 16) as i16);
        i = i + 1;
    }
    r
}

/// The kept sample is the 32-bit sample divided by 65536, rounded down;
/// the narrowing never wraps.
pub proof fn narrow_sample_is_scaled(s: i32)
    ensures
        narrow_sample(s) as int == (s >> 16) as int,
        -32768 <= (s >> 16) <= 32767,
        (narrow_sample(s) as int) * 65536 <= s as int,
        (s as int) < (narrow_sample(s) as int + 1) * 65536,
{
    assert(-32768 <= (s >> 16) <= 32767) by (bit_vector);
    assert(((s >> 16) as int) * 65536 <= s as int && (s as int) < ((s >> 16) as int + 1) * 65536)
        by (bit_vector);
}

} // verus!
