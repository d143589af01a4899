use audio_recorder_manager::desktop::{
    deleted_message, is_valid_new_filename, listed_format, not_found_status, recording_format,
    renamed_file_name, signal_response, sort_recordings, start_recording, transcript_file_name,
    transcription_session_id, tray_record_duration, ActiveSessions,
};
use audio_recorder_manager::domain::{AudioFormat, RecordingDuration};
use audio_recorder_manager::dto::RecordingFile;

#[test]
fn start_request_accepted() {
    let s = start_recording(30, "m4a", "Professional", "rec-20250101_000000", "/rec", 7200).ok().unwrap();
    assert_eq!(s.duration, RecordingDuration::Fixed(30));
    assert_eq!(s.format, AudioFormat::M4a);
    assert_eq!(s.quality.sample_rate, 48000);
    let r = s.response;
    assert_eq!(r.status, "success");
    assert_eq!(r.filename.as_deref(), Some("recording_rec-20250101_000000.m4a"));
    assert_eq!(r.file_path.as_deref(), Some("/rec/recording_rec-20250101_000000.m4a"));
    assert_eq!(r.duration, Some(30));
    assert_eq!(r.quality.as_deref(), Some("Professional"));
    assert_eq!(r.message, "Recording started successfully");
    let s = start_recording(-1, "WAV", "quick", "rec-1", "/rec", 600).ok().unwrap();
    assert_eq!(s.duration, RecordingDuration::Manual { max: 600 });
    assert_eq!(s.response.filename.as_deref(), Some("recording_rec-1.WAV"));
}

#[test]
fn start_request_refused() {
    assert_eq!(
        start_recording(0, "m4a", "quick", "rec-1", "/rec", 7200).err().unwrap(),
        "Invalid parameter: Duration must be -1 (manual mode) or a positive number, got: 0"
    );
    assert_eq!(
        start_recording(10, "flac", "quick", "rec-1", "/rec", 7200).err().unwrap(),
        "Invalid parameter: Unsupported audio format 'flac'. Supported formats: wav, m4a"
    );
    assert_eq!(
        start_recording(10, "wav", "ultra", "rec-1", "/rec", 7200).err().unwrap(),
        "Invalid quality 'ultra'. Options: quick, standard, professional, high"
    );
}

#[test]
fn stop_and_cancel_answers() {
    let r = signal_response(Some("rec-1".to_string()), false);
    assert_eq!(r.message, "Recording stopped successfully");
    assert_eq!(r.session_id.as_deref(), Some("rec-1"));
    let r = signal_response(None, true);
    assert_eq!(r.message, "Recording cancelled successfully");
    assert_eq!(r.filename, None);
    let s = not_found_status("rec-2".to_string());
    assert_eq!(s.status, "not_found");
    assert_eq!(s.progress, None);
}

#[test]
fn active_sessions() {
    let mut a = ActiveSessions::new();
    a.add("rec-1".to_string());
    a.add("rec-2".to_string());
    a.add("rec-1".to_string());
    a.remove(Some("rec-1"));
    assert_eq!(a.list(), vec!["rec-2".to_string()]);
    a.add("rec-3".to_string());
    a.remove(Some("rec-9"));
    assert_eq!(a.list(), vec!["rec-2".to_string(), "rec-3".to_string()]);
    a.remove(None);
    assert!(a.list().is_empty());
}

#[test]
fn listed_recordings() {
    assert_eq!(listed_format("recording_1.wav").as_deref(), Some("wav"));
    assert_eq!(listed_format("recording_1.M4A").as_deref(), Some("m4a"));
    assert_eq!(listed_format("rec-1_loopback.wav"), None);
    assert_eq!(listed_format("rec-1_mic.wav"), None);
    assert_eq!(listed_format("status.json"), None);
    assert_eq!(listed_format("song.mp3"), None);
    assert_eq!(listed_format("noext"), None);
}

fn file(name: &str, created: &str) -> RecordingFile {
    RecordingFile {
        filename: name.to_string(),
        path: format!("/rec/{}", name),
        size: 1,
        created: created.to_string(),
        format: "wav".to_string(),
    }
}

#[test]
fn recordings_newest_first() {
    let files = vec![
        file("a.wav", "2025-01-01 10:00:00"),
        file("b.wav", "2025-03-01 10:00:00"),
        file("c.wav", "Unknown"),
        file("d.wav", "2025-03-01 10:00:00"),
    ];
    let sorted = sort_recordings(files);
    let names: Vec<&str> = sorted.iter().map(|f| f.filename.as_str()).collect();
    assert_eq!(names, vec!["c.wav", "b.wav", "d.wav", "a.wav"]);
}

#[test]
fn opened_recording_format() {
    assert_eq!(recording_format("x.WAV"), Ok("wav".to_string()));
    assert_eq!(recording_format("x.txt"), Err("Invalid audio file format"));
    assert_eq!(recording_format("x"), Err("Invalid file format"));
}

#[test]
fn renaming() {
    assert!(is_valid_new_filename("meeting"));
    assert!(!is_valid_new_filename(""));
    assert!(!is_valid_new_filename("a/b"));
    assert!(!is_valid_new_filename("a\\b"));
    assert_eq!(renamed_file_name("meeting", "m4a"), "meeting.m4a");
    assert_eq!(renamed_file_name("meeting.take2", "wav"), "meeting.wav");
    assert_eq!(renamed_file_name("meeting.txt", ""), "meeting");
    assert_eq!(renamed_file_name("..", "wav"), "..");
    assert_eq!(transcript_file_name("recording_1"), "recording_1.md");
    assert_eq!(transcript_file_name("rec.2024"), "rec.md");
}

#[test]
fn small_messages() {
    assert_eq!(deleted_message("/rec/a.wav"), "Successfully deleted: /rec/a.wav");
    assert_eq!(transcription_session_id(1700000000), "transcribe_1700000000");
    assert_eq!(tray_record_duration("record_30s"), Some(30));
    assert_eq!(tray_record_duration("record_1m"), Some(60));
    assert_eq!(tray_record_duration("record_5m"), Some(300));
    assert_eq!(tray_record_duration("record_10m"), Some(600));
    assert_eq!(tray_record_duration("quit"), None);
}
