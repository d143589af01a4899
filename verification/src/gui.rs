//! State of the graphical interface: its panels and settings, and how it
//! follows a running recording.

use vstd::prelude::*;
use vstd::string::*;

use crate::config::RecorderConfig;
use crate::domain::{AudioFormat, RecordingDuration};
use crate::quality::{professional_view, standard_view, RecordingQuality};
use crate::status::RecordingStatus;
use crate::text::{parse_i64, parse_i64_spec, str_eq};

verus! {

/// Colour scheme of the interface.
#[derive(Debug, Clone, Copy, PartialEq, Eq, Structural)]
pub enum Theme {
    Light,
    Dark,
    System,
}

/// The panel on display.
#[derive(Debug, Clone, Copy, PartialEq, Eq, Structural)]
pub enum ActivePanel {
    Record,
    Monitor,
    History,
    Recovery,
    Settings,
}

/// Settings of the interface itself.
#[derive(Debug, Clone, Copy, PartialEq, Eq, Structural)]
pub struct GuiConfig {
    pub theme: Theme,
    pub window_width: u32,
    pub window_height: u32,
}

impl GuiConfig {
    /// The system theme in a 1024 by 768 window.
    pub fn default() -> (r: Self)
        ensures
            r == (GuiConfig { theme: Theme::System, window_width: 1024, window_height: 768 }),
    {
        GuiConfig { theme: Theme::System, window_width: 1024, window_height: 768 }
    }
}

/// The quality presets the settings panel offers.
#[derive(Debug, Clone, Copy, PartialEq, Eq, Structural)]
pub enum QualityPreset {
    Professional,
    Standard,
}

/// The recording quality of a preset.
pub fn preset_quality(p: QualityPreset) -> (r: RecordingQuality)
    ensures
        r@ == match p {
            QualityPreset::Professional => professional_view(),
            QualityPreset::Standard => standard_view(),
        },
{
    match p {
        QualityPreset::Professional => RecordingQuality::professional(),
        QualityPreset::Standard => RecordingQuality::standard(),
    }
}

/// The duration typed in the record panel: a negative number of seconds
/// asks for a manual recording of at most two hours, text that is no
/// number means 30 seconds.
pub open spec fn typed_duration(text: Seq<char>) -> RecordingDuration {
    let secs: i64 = match parse_i64_spec(text) {
        Some(d) => d,
        None => 30,
    };
    if secs < 0 {
        RecordingDuration::Manual { max: 7200 }
    } else {
        RecordingDuration::Fixed(secs as u64)
    }
}

/// Reads the duration typed in the record panel.
pub fn duration_from_text(text: &str) -> (r: RecordingDuration)
    ensures
        r == typed_duration(text@),
{
    let secs: i64 = match parse_i64(text) {
        Some(d) => d,
        None => 30,
    };
    if secs < 0 {
        RecordingDuration::Manual { max: 7200 }
    } else {
        RecordingDuration::Fixed(secs as u64)
    }
}

/// A recording as the interface follows it.
pub struct RecordingState {
    pub session_id: String,
    pub filename: String,
    pub duration: RecordingDuration,
    pub format: AudioFormat,
    pub quality: RecordingQuality,
    pub is_manual: bool,
    pub elapsed: u64,
    pub progress: u8,
    pub device: String,
    pub sample_rate: u32,
    pub channels: u16,
    pub frames_captured: u64,
    pub has_audio: bool,
    pub status: String,
}

impl RecordingState {
    /// A recording that has just started, before any status arrived.
    pub fn started(
        session_id: String,
        filename: String,
        duration: RecordingDuration,
        format: AudioFormat,
        quality: RecordingQuality,
    ) -> (r: Self)
        ensures
            r.session_id == session_id,
            r.filename == filename,
            r.duration == duration,
            r.format == format,
            r.quality == quality,
            r.is_manual == duration is Manual,
            r.elapsed == 0,
            r.progress == 0,
            r.device@ == "Unknown"@,
            r.sample_rate == 0,
            r.channels == 0,
            r.frames_captured == 0,
            !r.has_audio,
            r.status@ == "recording"@,
    {
        let is_manual = match duration {
            RecordingDuration::Manual { .. } => true,
            RecordingDuration::Fixed(_) => false,
        };
        RecordingState {
            session_id,
            filename,
            duration,
            format,
            quality,
            is_manual,
            elapsed: 0,
            progress: 0,
            device: crate::text::owned("Unknown"),
            sample_rate: 0,
            channels: 0,
            frames_captured: 0,
            has_audio: false,
            status: crate::text::owned("recording"),
        }
    }
}

/// Everything the interface shows.
pub struct GuiState {
    pub config: RecorderConfig,
    pub active_panel: ActivePanel,
    pub recording_state: Option<RecordingState>,
    pub gui_config: GuiConfig,
}

/// A recording in this state is over.
pub open spec fn is_finished_status(status: Seq<char>) -> bool {
    status == "completed"@ || status == "stopped"@
}

impl GuiState {
    /// The interface at start: the record panel, no recording.
    pub fn new(config: RecorderConfig) -> (r: Self)
        ensures
            r.config == config,
            r.active_panel == ActivePanel::Record,
            r.recording_state is None,
            r.gui_config == (GuiConfig { theme: Theme::System, window_width: 1024, window_height: 768 }),
    {
        GuiState {
            config,
            active_panel: ActivePanel::Record,
            recording_state: None,
            gui_config: GuiConfig::default(),
        }
    }

    /// A recording was started: follow it on the monitor panel.
    pub fn recording_started(&mut self, state: RecordingState)
        ensures
            final(self).recording_state == Some(state),
            final(self).active_panel == ActivePanel::Monitor,
            final(self).config == old(self).config,
            final(self).gui_config == old(self).gui_config,
    {
        self.recording_state = Some(state);
        self.active_panel = ActivePanel::Monitor;
    }

    /// The recording was stopped: back to the record panel.
    pub fn recording_stopped(&mut self)
        ensures
            final(self).recording_state is None,
            final(self).active_panel == ActivePanel::Record,
            final(self).config == old(self).config,
            final(self).gui_config == old(self).gui_config,
    {
        self.recording_state = None;
        self.active_panel = ActivePanel::Record;
    }

    /// Takes in a status read from the recording's status file. Without a
    /// followed recording nothing changes; a finished recording is no
    /// longer followed and the record panel returns; otherwise the
    /// progress fields are refreshed.
    pub fn apply_status(&mut self, status: &RecordingStatus)
        ensures
            old(self).recording_state is None ==> (final(self).recording_state is None
                && final(self).active_panel == old(self).active_panel),
            old(self).recording_state is Some && is_finished_status(status.status@) ==> (final(self).recording_state is None && final(self).active_panel == ActivePanel::Record),
            old(self).recording_state is Some && !is_finished_status(status.status@) ==> {
                let o = old(self).recording_state->0;
                let n = final(self).recording_state->0;
                &&& final(self).recording_state is Some
                &&& final(self).active_panel == old(self).active_panel
                &&& n.session_id == o.session_id && n.filename == o.filename
                &&& n.duration == o.duration && n.format == o.format
                &&& n.elapsed == status.elapsed && n.progress == status.progress
                &&& n.device@ == status.device@ && n.sample_rate == status.sample_rate
                &&& n.channels == status.channels && n.frames_captured == status.frames_captured
                &&& n.has_audio == status.has_audio && n.status@ == status.status@
            },
            final(self).config == old(self).config,
            final(self).gui_config == old(self).gui_config,
    {
        let finished = str_eq(status.status.as_str(), "completed") || str_eq(
            status.status.as_str(),
            "stopped",
        );
        match self.recording_state.take() {
            None => {},
            Some(mut st) => {
                if finished {
                    self.active_panel = ActivePanel::Record;
                } else {
                    st.elapsed = status.elapsed;
                    st.progress = status.progress;
                    st.device = status.device.clone();
                    st.sample_rate = status.sample_rate;
                    st.channels = status.channels;
                    st.frames_captured = status.frames_captured;
                    st.has_audio = status.has_audio;
                    st.status = status.status.clone();
                    self.recording_state = Some(st);
                }
            },
        }
    }
}

/// What the history panel's recording entry says: session, file, length,
/// progress, and whether it is still recording.
pub struct RecordingInfo {
    pub session_id: String,
    pub filename: String,
    pub duration: u64,
    pub elapsed: u64,
    pub progress: u8,
    pub is_recording: bool,
}

/// Follows the one recording the interface may run at a time.
pub struct RecorderService {
    pub current_recording: Option<RecordingInfo>,
}

impl RecorderService {
    /// No recording.
    pub fn new() -> (r: Self)
        ensures
            r.current_recording is None,
    {
        RecorderService { current_recording: None }
    }

    /// Records that session `session_id` started writing `filename` for
    /// `duration`; refused while another recording runs.
    pub fn start_recording(&mut self, session_id: String, filename: String, duration: RecordingDuration) -> (r:
        Result<(), &'static str>)
        ensures
            old(self).current_recording is Some ==> r == Err::<(), &'static str>(
                "A recording is already in progress",
            ) && final(self).current_recording == old(self).current_recording,
            old(self).current_recording is None ==> r is Ok && final(self).current_recording
                == Some(
                RecordingInfo {
                    session_id,
                    filename,
                    duration: duration.spec_api_value() as u64,
                    elapsed: 0,
                    progress: 0,
                    is_recording: true,
                },
            ),
    {
        if self.current_recording.is_some() {
            return Err("A recording is already in progress");
        }
        self.current_recording = Some(
            RecordingInfo {
                session_id,
                filename,
                duration: duration.to_api_value() as u64,
                elapsed: 0,
                progress: 0,
                is_recording: true,
            },
        );
        Ok(())
    }

    /// The session to send a stop request to; the recording is no longer
    /// followed. Refused when there is none.
    pub fn stop_recording(&mut self) -> (r: Result<String, &'static str>)
        ensures
            match old(self).current_recording {
                Some(info) => r == Ok::<String, &'static str>(info.session_id),
                None => r == Err::<String, &'static str>("No active recording to stop"),
            },
            final(self).current_recording is None,
    {
        match self.current_recording.take() {
            Some(info) => Ok(info.session_id),
            None => Err("No active recording to stop"),
        }
    }

    /// Whether a recording is followed.
    pub fn is_recording(&self) -> (r: bool)
        ensures
            r == self.current_recording is Some,
    {
        self.current_recording.is_some()
    }

    /// Takes in what the status file says: the elapsed seconds and the
    /// progress (cut to 8 bits) when present, and the end of the recording
    /// once its status is `completed`.
    pub fn update_progress(&mut self, elapsed: Option<u64>, progress: Option<u64>, status: Option<&str>)
        ensures
            old(self).current_recording is None ==> final(self).current_recording is None,
            old(self).current_recording matches Some(o) ==> final(self).current_recording matches Some(n) && {
                &&& n.session_id == o.session_id
                &&& n.filename == o.filename
                &&& n.duration == o.duration
                &&& n.elapsed == (match elapsed {
                    Some(e) => e,
                    None => o.elapsed,
                })
                &&& n.progress == (match progress {
                    Some(p) => p as u8,
                    None => o.progress,
                })
                &&& n.is_recording == (match status {
                    Some(st) => if st@ == "completed"@ {
                        false
                    } else {
                        o.is_recording
                    },
                    None => o.is_recording,
                })
            },
    {
        match self.current_recording.take() {
            None => {},
            Some(mut info) => {
                match elapsed {
                    Some(e) => {
                        info.elapsed = e;
                    },
                    None => {},
                }
                match progress {
                    Some(p) => {
                        info.progress = p as u8;
                    },
                    None => {},
                }
                match status {
                    Some(st) => {
                        if str_eq(st, "completed") {
                            info.is_recording = false;
                        }
                    },
                    None => {},
                }
                self.current_recording = Some(info);
            },
        }
    }
}

} // verus!
