use audio_recorder_manager::domain::{AudioFormat, RecordingDuration, RecordingSession, SessionId};
use audio_recorder_manager::ffmpeg::duration_found;
use audio_recorder_manager::logging::log_dir_path;
use audio_recorder_manager::quality::RecordingQuality;
use audio_recorder_manager::transcription::transcription_status;

fn is_timestamp(t: &str) -> bool {
    let c: Vec<char> = t.chars().collect();
    let n = c.len();
    n >= 15
        && c[n - 11..n - 7].iter().all(|d| d.is_ascii_digit())
        && c[n - 7] == '_'
        && c[n - 6..].iter().all(|d| d.is_ascii_digit())
}

#[test]
fn session_files_carry_the_identifier_timestamp() {
    let s = RecordingSession::new(AudioFormat::M4a, RecordingQuality::quick(), RecordingDuration::Fixed(30));
    let id = s.id.as_str().to_string();
    assert!(id.starts_with("rec-"));
    let stamp = &id[4..];
    assert!(is_timestamp(stamp));
    assert_eq!(s.started_at, stamp);
    assert_eq!(s.filename(), format!("recording_{}.m4a", stamp));
    assert_eq!(s.temp_filename(), format!("recording_{}.wav", stamp));
}

#[test]
fn new_session_identifier_has_timestamp_shape() {
    let id = SessionId::new();
    assert!(id.as_str().starts_with("rec-"));
    assert!(is_timestamp(&id.as_str()[4..]));
}

#[test]
fn positive_duration_settles_the_search() {
    assert!(duration_found(Some(1500)));
    assert!(!duration_found(Some(0)));
    assert!(!duration_found(None));
}

#[test]
fn log_directory_under_app_data() {
    let p = std::path::PathBuf::from(log_dir_path("data"));
    assert_eq!(p, std::path::Path::new("data").join("audio-recorder-manager").join("logs"));
}

#[test]
fn progress_of_negative_step_rounds_toward_zero() {
    let s = transcription_status(-1, 3, "x", "y");
    assert_eq!(s.progress, -33);
    assert_eq!(transcription_status(2, 3, "x", "y").progress, 66);
}
