use audio_recorder_manager::domain::{AudioFormat, RecordingDuration, RecordingSession, SessionId};
use audio_recorder_manager::quality::RecordingQuality;
use audio_recorder_manager::status::{
    analysis_message, cancelled_result, completed_result, decide_tick, device_label,
    latest_active_session, processing_status, recording_progress_text, recording_status,
    ChannelReading, JsonFileObserver, StatusFileEntry, TickDecision,
};

fn session(format: AudioFormat, duration: RecordingDuration) -> RecordingSession {
    RecordingSession {
        id: SessionId::from_timestamp("20250101_120000"),
        format,
        quality: RecordingQuality::professional(),
        duration,
        started_at: "20250101_120000".to_string(),
    }
}

#[test]
fn session_file_names() {
    let s = session(AudioFormat::M4a, RecordingDuration::Fixed(10));
    assert_eq!(s.filename(), "recording_20250101_120000.m4a");
    assert_eq!(s.temp_filename(), "recording_20250101_120000.wav");
    assert_eq!(s.id.as_str(), "rec-20250101_120000");
    let fresh = SessionId::new();
    assert!(fresh.as_str().starts_with("rec-"));
}

#[test]
fn tick_decisions_in_priority_order() {
    assert_eq!(decide_tick(60, 60, true, true), TickDecision::Finish);
    assert_eq!(decide_tick(10, 60, true, true), TickDecision::Cancel);
    assert_eq!(decide_tick(10, 60, false, true), TickDecision::Stop);
    assert_eq!(decide_tick(10, 60, false, false), TickDecision::Continue);
    // a zero-length recording ends at once
    assert_eq!(decide_tick(0, 0, false, false), TickDecision::Finish);
}

#[test]
fn status_while_recording() {
    let s = session(AudioFormat::Wav, RecordingDuration::Manual { max: 7200 });
    let st = recording_status(
        &s,
        12,
        0,
        48000,
        ChannelReading { frames: 576000, has_audio: true },
        Some(ChannelReading { frames: 570000, has_audio: false }),
    );
    assert_eq!(st.session_id, "rec-20250101_120000");
    assert_eq!(st.filename, "recording_20250101_120000.wav");
    assert_eq!(st.duration, 7200);
    assert_eq!(st.elapsed, 12);
    assert_eq!(st.device, "Dual-Channel (System + Microphone)");
    assert_eq!(st.channels, 2);
    assert_eq!(st.status, "recording");
    assert_eq!(st.mic_frames, Some(570000));
    assert_eq!(st.mic_has_audio, Some(false));
    assert_eq!(st.ffmpeg_progress, None);
    assert_eq!(device_label(false), "System Audio Only (WASAPI Loopback)");
}

#[test]
fn progress_line() {
    let line = recording_progress_text(
        50,
        30,
        60,
        ChannelReading { frames: 1440000, has_audio: true },
        Some(ChannelReading { frames: 0, has_audio: false }),
    );
    assert_eq!(
        line,
        "Progress: 50% | Elapsed: 30s / 60s | Loopback: 1440000 frames (Audio) | Mic: 0 frames (Silent)"
    );
    let line = recording_progress_text(5, 3, 60, ChannelReading { frames: 7, has_audio: false }, None);
    assert_eq!(line, "Progress: 5% | Elapsed: 3s / 60s | Loopback: 7 frames (Silent)");
}

#[test]
fn analysis_messages() {
    assert_eq!(analysis_message(true, true), "Detected system audio and microphone");
    assert_eq!(analysis_message(true, false), "Detected system audio only");
    assert_eq!(analysis_message(false, true), "Detected microphone only");
    assert_eq!(analysis_message(false, false), "No audio detected");
}

#[test]
fn final_results() {
    let s = session(AudioFormat::M4a, RecordingDuration::Fixed(30));
    let c = cancelled_result(&s);
    assert_eq!((c.status.as_str(), c.message.as_str()), ("cancelled", "Recording cancelled by user"));
    assert_eq!((c.filename.as_str(), c.file_size_mb.as_str(), c.codec.as_str()), ("", "0 MB", ""));
    assert_eq!(c.format, "m4a");
    assert_eq!(c.duration, 0);
    let d = completed_result(&s, "/rec/recording_20250101_120000.m4a".to_string(), "1.25".to_string());
    assert_eq!(d.status, "completed");
    assert_eq!(d.filename, "recording_20250101_120000.m4a");
    assert_eq!(d.codec, "aac");
    assert_eq!(d.duration, 30);
    assert_eq!(d.message, "Recording converted to M4A successfully");
    let w = session(AudioFormat::Wav, RecordingDuration::Manual { max: 7200 });
    let d = completed_result(&w, "x".to_string(), "0.00".to_string());
    assert_eq!(d.duration, -1);
    assert_eq!(d.message, "Recording completed successfully");
}

#[test]
fn status_file_path() {
    let o = JsonFileObserver::new("/data/status".to_string());
    assert_eq!(o.get_status_file("rec-1"), "/data/status/rec-1.json");
}

#[test]
fn processing_records() {
    let mut p = processing_status("rec-1", "Combining audio streams...", Some(2), Some(4), Some("merging"), None, Some(30));
    assert_eq!(p.status, "processing");
    assert_eq!(p.processing_type.as_deref(), Some("merging"));
    p.update_ffmpeg_progress(40, Some("5.1x".to_string()));
    p.update_ffmpeg_progress(45, None);
    assert_eq!(p.ffmpeg_progress, Some(45));
    assert_eq!(p.processing_speed.as_deref(), Some("5.1x"));
    p.mark_ffmpeg_complete();
    assert_eq!(p.ffmpeg_progress, Some(100));
    assert_eq!(p.step, Some(2));
}

fn st(name: &str, id: &str, status: &str) -> StatusFileEntry {
    StatusFileEntry { name: name.to_string(), parsed: Some((id.to_string(), status.to_string())) }
}

#[test]
fn latest_recording_session() {
    let entries = vec![
        st("rec-1.json", "rec-20250101_100000", "recording"),
        st("rec-2.json", "rec-20250301_100000", "completed"),
        st("rec-3.json", "rec-20250201_100000", "recording"),
        st("rec-4.txt", "rec-20250401_100000", "recording"),
        StatusFileEntry { name: "bad.json".to_string(), parsed: None },
    ];
    assert_eq!(latest_active_session(&entries), Ok("rec-20250201_100000".to_string()));
    let none = vec![st("a.json", "rec-1", "completed")];
    assert_eq!(latest_active_session(&none), Err("No active recording sessions found".to_string()));
}
