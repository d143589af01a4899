//! Recording quality presets and compression quality levels.

use vstd::prelude::*;
use vstd::string::*;

use crate::text::{concat3, lowercase_of, owned, str_eq, to_lowercase};

verus! {

/// A recording quality preset.
#[derive(Debug, Clone)]
pub struct RecordingQuality {
    pub name: String,
    pub description: String,
    pub size_per_min: String,
    pub sample_rate: u32,
    pub channels: u16,
}

/// The plain contents of a [`RecordingQuality`].
pub struct QualityView {
    pub name: Seq<char>,
    pub description: Seq<char>,
    pub size_per_min: Seq<char>,
    pub sample_rate: u32,
    pub channels: u16,
}

impl View for RecordingQuality {
    type V = QualityView;

    open spec fn view(&self) -> QualityView {
        QualityView {
            name: self.name@,
            description: self.description@,
            size_per_min: self.size_per_min@,
            sample_rate: self.sample_rate,
            channels: self.channels,
        }
    }
}

pub open spec fn professional_view() -> QualityView {
    QualityView {
        name: "Professional (48kHz Stereo)"@,
        description: "Professional quality for meetings"@,
        size_per_min: "11 MB/min"@,
        sample_rate: 48000,
        channels: 2,
    }
}

pub open spec fn quick_view() -> QualityView {
    QualityView {
        name: "Quick (16kHz Stereo)"@,
        description: "Smaller files, good for voice notes"@,
        size_per_min: "4 MB/min"@,
        sample_rate: 16000,
        channels: 2,
    }
}

pub open spec fn standard_view() -> QualityView {
    QualityView {
        name: "Standard (44.1kHz Stereo)"@,
        description: "CD quality, balanced file size"@,
        size_per_min: "10 MB/min"@,
        sample_rate: 44100,
        channels: 2,
    }
}

pub open spec fn high_view() -> QualityView {
    QualityView {
        name: "High (96kHz Stereo)"@,
        description: "Maximum quality, larger files"@,
        size_per_min: "22 MB/min"@,
        sample_rate: 96000,
        channels: 2,
    }
}

/// The preset that a lowercased preset name selects.
pub open spec fn preset_named(lower: Seq<char>) -> Option<QualityView> {
    if lower == "quick"@ {
        Some(quick_view())
    } else if lower == "standard"@ {
        Some(standard_view())
    } else if lower == "professional"@ {
        Some(professional_view())
    } else if lower == "high"@ {
        Some(high_view())
    } else {
        None
    }
}

/// Each preset name selects its own preset, and only the four names select
/// one: `quick` is 16 kHz, `standard` 44.1 kHz, `professional` 48 kHz and
/// `high` 96 kHz, all stereo; two different names never select presets of
/// the same sample rate.
pub proof fn preset_names_select_their_presets(lower: Seq<char>, other: Seq<char>)
    ensures
        preset_named(lower) is Some <==> (lower == "quick"@ || lower == "standard"@ || lower
            == "professional"@ || lower == "high"@),
        lower == "quick"@ ==> (preset_named(lower) matches Some(v) && v.sample_rate == 16000
            && v.channels == 2 && v.name == "Quick (16kHz Stereo)"@),
        lower == "standard"@ ==> (preset_named(lower) matches Some(v) && v.sample_rate == 44100
            && v.channels == 2 && v.name == "Standard (44.1kHz Stereo)"@),
        lower == "professional"@ ==> (preset_named(lower) matches Some(v) && v.sample_rate == 48000
            && v.channels == 2 && v.name == "Professional (48kHz Stereo)"@),
        lower == "high"@ ==> (preset_named(lower) matches Some(v) && v.sample_rate == 96000
            && v.channels == 2 && v.name == "High (96kHz Stereo)"@),
        lower != other && preset_named(lower) is Some && preset_named(other) is Some
            ==> preset_named(lower)->0.sample_rate != preset_named(other)->0.sample_rate,
{
    reveal_strlit("quick");
    reveal_strlit("standard");
    reveal_strlit("professional");
    reveal_strlit("high");
    assert("quick"@.len() == 5 && "standard"@.len() == 8 && "professional"@.len() == 12
        && "high"@.len() == 4);
}

impl RecordingQuality {
    /// 48 kHz stereo, the default.
    pub fn professional() -> (q: Self)
        ensures
            q@ == professional_view(),
    {
        RecordingQuality {
            name: owned("Professional (48kHz Stereo)"),
            description: owned("Professional quality for meetings"),
            size_per_min: owned("11 MB/min"),
            sample_rate: 48000,
            channels: 2,
        }
    }

    /// 16 kHz stereo.
    pub fn quick() -> (q: Self)
        ensures
            q@ == quick_view(),
    {
        RecordingQuality {
            name: owned("Quick (16kHz Stereo)"),
            description: owned("Smaller files, good for voice notes"),
            size_per_min: owned("4 MB/min"),
            sample_rate: 16000,
            channels: 2,
        }
    }

    /// 44.1 kHz stereo.
    pub fn standard() -> (q: Self)
        ensures
            q@ == standard_view(),
    {
        RecordingQuality {
            name: owned("Standard (44.1kHz Stereo)"),
            description: owned("CD quality, balanced file size"),
            size_per_min: owned("10 MB/min"),
            sample_rate: 44100,
            channels: 2,
        }
    }

    /// 96 kHz stereo.
    pub fn high() -> (q: Self)
        ensures
            q@ == high_view(),
    {
        RecordingQuality {
            name: owned("High (96kHz Stereo)"),
            description: owned("Maximum quality, larger files"),
            size_per_min: owned("22 MB/min"),
            sample_rate: 96000,
            channels: 2,
        }
    }

    /// The preset for an already lowercased name (`quick`, `standard`,
    /// `professional`, `high`).
    pub fn from_lowercase_name(lower: &str) -> (r: Option<Self>)
        ensures
            match preset_named(lower@) {
                Some(v) => r matches Some(q) && q@ == v,
                None => r is None,
            },
    {
        if str_eq(lower, "quick") {
            Some(Self::quick())
        } else if str_eq(lower, "standard") {
            Some(Self::standard())
        } else if str_eq(lower, "professional") {
            Some(Self::professional())
        } else if str_eq(lower, "high") {
            Some(Self::high())
        } else {
            None
        }
    }

    /// The preset a user-given name selects, ignoring case.
    pub fn from_name(name: &str) -> (r: Option<Self>)
        ensures
            match preset_named(lowercase_of(name@)) {
                Some(v) => r matches Some(q) && q@ == v,
                None => r is None,
            },
    {
        let lower = to_lowercase(name);
        Self::from_lowercase_name(lower.as_str())
    }
}

/// The message for a preset name that selects nothing.
pub open spec fn invalid_quality_text(name: Seq<char>) -> Seq<char> {
    "Invalid quality '"@ + name + "'. Options: quick, standard, professional, high"@
}

/// The message given for a preset name that selects nothing.
pub fn invalid_quality_message(name: &str) -> (r: String)
    ensures
        r@ == invalid_quality_text(name@),
{
    concat3("Invalid quality '", name, "'. Options: quick, standard, professional, high")
}

/// Compression levels for making a file small enough for transcription.
#[derive(Debug, Clone, Copy, PartialEq, Eq, Structural)]
pub enum CompressionQuality {
    /// 44.1 kHz stereo, 128 kbps.
    Standard,
    /// 16 kHz mono, 64 kbps.
    Quick,
}

impl CompressionQuality {
    pub open spec fn spec_sample_rate(self) -> u32 {
        match self {
            CompressionQuality::Standard => 44100,
            CompressionQuality::Quick => 16000,
        }
    }

    pub open spec fn spec_channels(self) -> u8 {
        match self {
            CompressionQuality::Standard => 2,
            CompressionQuality::Quick => 1,
        }
    }

    pub open spec fn spec_bitrate_kbps(self) -> u32 {
        match self {
            CompressionQuality::Standard => 128,
            CompressionQuality::Quick => 64,
        }
    }

    pub open spec fn spec_description(self) -> Seq<char> {
        match self {
            CompressionQuality::Standard => "Standard (44.1kHz stereo, 128kbps)"@,
            CompressionQuality::Quick => "Quick (16kHz mono, 64kbps)"@,
        }
    }

    /// Sample rate of this level, in Hz.
    pub fn sample_rate(&self) -> (r: u32)
        ensures
            r == self.spec_sample_rate(),
    {
        match self {
            CompressionQuality::Standard => 44100,
            CompressionQuality::Quick => 16000,
        }
    }

    /// Number of channels of this level.
    pub fn channels(&self) -> (r: u8)
        ensures
            r == self.spec_channels(),
    {
        match self {
            CompressionQuality::Standard => 2,
            CompressionQuality::Quick => 1,
        }
    }

    /// Bitrate of this level, in kbps.
    pub fn bitrate_kbps(&self) -> (r: u32)
        ensures
            r == self.spec_bitrate_kbps(),
    {
        match self {
            CompressionQuality::Standard => 128,
            CompressionQuality::Quick => 64,
        }
    }

    /// A human-readable description of this level.
    pub fn description(&self) -> (r: &'static str)
        ensures
            r@ == self.spec_description(),
    {
        match self {
            CompressionQuality::Standard => "Standard (44.1kHz stereo, 128kbps)",
            CompressionQuality::Quick => "Quick (16kHz mono, 64kbps)",
        }
    }
}

} // verus!
