use audio_recorder_manager::config::RecorderConfig;
use audio_recorder_manager::gui::RecorderService;
use audio_recorder_manager::transcription::compression_estimate;
use audio_recorder_manager::domain::{AudioFormat, RecordingDuration};
use audio_recorder_manager::gui::{
    duration_from_text, preset_quality, ActivePanel, GuiConfig, GuiState, QualityPreset,
    RecordingState, Theme,
};
use audio_recorder_manager::quality::RecordingQuality;
use audio_recorder_manager::status::{recording_status, ChannelReading};
use audio_recorder_manager::transcription::{
    file_status_url, first_transcript, generate_url, keep_polling, mime_type_for,
    processing_failed, stage_status, transcription_status, upload_url, within_upload_limit,
    TranscriptionConfig, TranscriptionStage,
};

#[test]
fn transcription_defaults() {
    let c = TranscriptionConfig::default();
    assert_eq!(c.model, "gemini-2.5-flash");
    assert!(c.api_key.is_empty());
    assert!(!c.has_api_key());
    assert!(!c.optimize_audio);
    assert!(c.prompt.starts_with("Please process the attached audio file"));
    assert!(c.prompt.ends_with("Your entire response should be a single markdown document."));
}

#[test]
fn transcription_stages() {
    let s = stage_status(TranscriptionStage::Reading);
    assert_eq!((s.step.as_str(), s.step_number, s.total_steps, s.progress), ("reading", 1, 4, 25));
    let s = stage_status(TranscriptionStage::Transcribing);
    assert_eq!((s.step.as_str(), s.progress, s.message.as_str()), ("transcribing", 100, "Generating transcription..."));
    let s = transcription_status(1, 3, "x", "y");
    assert_eq!(s.progress, 33);
}

#[test]
fn mime_types() {
    assert_eq!(mime_type_for(Some("wav")), Some("audio/wav"));
    assert_eq!(mime_type_for(Some("m4a")), Some("audio/mp4"));
    assert_eq!(mime_type_for(Some("mp3")), Some("audio/mpeg"));
    assert_eq!(mime_type_for(Some("flac")), Some("audio/flac"));
    assert_eq!(mime_type_for(Some("WAV")), None);
    assert_eq!(mime_type_for(None), None);
}

#[test]
fn api_addresses() {
    assert_eq!(upload_url("K"), "https://generativelanguage.googleapis.com/upload/v1beta/files?key=K");
    assert_eq!(file_status_url("files/abc", "K"), "https://generativelanguage.googleapis.com/v1beta/files/abc?key=K");
    assert_eq!(
        generate_url("gemini-2.5-flash", "K"),
        "https://generativelanguage.googleapis.com/v1beta/models/gemini-2.5-flash:generateContent?key=K"
    );
}

#[test]
fn polling_and_answers() {
    assert!(keep_polling("PROCESSING", 0));
    assert!(keep_polling("PROCESSING", 59));
    assert!(!keep_polling("PROCESSING", 60));
    assert!(!keep_polling("ACTIVE", 0));
    assert!(processing_failed("FAILED"));
    assert!(!processing_failed("ACTIVE"));
    assert_eq!(first_transcript(&vec![vec!["hello".to_string(), "x".to_string()]]), Some("hello".to_string()));
    assert_eq!(first_transcript(&vec![vec![]]), None);
    assert_eq!(first_transcript(&vec![]), None);
    assert!(within_upload_limit(100 * 1024 * 1024 - 1));
    assert!(!within_upload_limit(100 * 1024 * 1024));
}

#[test]
fn gui_defaults() {
    let g = GuiConfig::default();
    assert_eq!(g.theme, Theme::System);
    assert_eq!((g.window_width, g.window_height), (1024, 768));
    let st = GuiState::new(RecorderConfig::from_storage_dir("s".to_string()));
    assert_eq!(st.active_panel, ActivePanel::Record);
    assert!(st.recording_state.is_none());
    assert_eq!(preset_quality(QualityPreset::Standard).sample_rate, 44100);
}

#[test]
fn typed_durations() {
    assert_eq!(duration_from_text("45"), RecordingDuration::Fixed(45));
    assert_eq!(duration_from_text("-1"), RecordingDuration::Manual { max: 7200 });
    assert_eq!(duration_from_text("abc"), RecordingDuration::Fixed(30));
    assert_eq!(duration_from_text("0"), RecordingDuration::Fixed(0));
}

#[test]
fn gui_follows_recording() {
    let mut st = GuiState::new(RecorderConfig::from_storage_dir("s".to_string()));
    let rs = RecordingState::started(
        "rec-1".to_string(),
        "recording_1.wav".to_string(),
        RecordingDuration::Fixed(60),
        AudioFormat::Wav,
        RecordingQuality::professional(),
    );
    assert!(!rs.is_manual);
    assert_eq!(rs.device, "Unknown");
    st.recording_started(rs);
    assert_eq!(st.active_panel, ActivePanel::Monitor);
    let session = audio_recorder_manager::domain::RecordingSession {
        id: audio_recorder_manager::domain::SessionId::from_string("rec-1".to_string()),
        format: AudioFormat::Wav,
        quality: RecordingQuality::professional(),
        duration: RecordingDuration::Fixed(60),
        started_at: "1".to_string(),
    };
    let mut status = recording_status(&session, 10, 16, 48000, ChannelReading { frames: 5, has_audio: true }, None);
    st.apply_status(&status);
    let r = st.recording_state.as_ref().unwrap();
    assert_eq!((r.elapsed, r.progress, r.frames_captured, r.has_audio), (10, 16, 5, true));
    status.status = "completed".to_string();
    st.apply_status(&status);
    assert!(st.recording_state.is_none());
    assert_eq!(st.active_panel, ActivePanel::Record);
}

#[test]
fn recorder_service_follows_one_recording() {
    let mut s = RecorderService::new();
    assert!(!s.is_recording());
    assert_eq!(s.stop_recording(), Err("No active recording to stop"));
    assert_eq!(s.start_recording("rec-1".to_string(), "recording_1.wav".to_string(), RecordingDuration::Fixed(30)), Ok(()));
    assert_eq!(
        s.start_recording("rec-2".to_string(), "x".to_string(), RecordingDuration::Fixed(30)),
        Err("A recording is already in progress")
    );
    s.update_progress(Some(12), Some(300), Some("recording"));
    let info = s.current_recording.as_ref().unwrap();
    assert_eq!((info.elapsed, info.progress, info.is_recording, info.duration), (12, 44, true, 30));
    s.update_progress(None, None, Some("completed"));
    assert!(!s.current_recording.as_ref().unwrap().is_recording);
    assert_eq!(s.stop_recording(), Ok("rec-1".to_string()));
    assert!(!s.is_recording());
    let mut m = RecorderService::new();
    m.start_recording("rec-3".to_string(), "y".to_string(), RecordingDuration::Manual { max: 7200 }).unwrap();
    assert_eq!(m.current_recording.as_ref().unwrap().duration, u64::MAX);
}

#[test]
fn compression_fit() {
    let e = compression_estimate(500_000_000, 3_600_000, 120_000_000, 30_000_000);
    assert!(!e.standard_would_fit);
    assert!(e.quick_would_fit);
    assert_eq!(e.original_size, 500_000_000);
}
