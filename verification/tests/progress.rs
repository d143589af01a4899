use audio_recorder_manager::domain::AudioFormat;
use audio_recorder_manager::progress::{
    conversion_progress_event, fallback_eta_secs, merge_progress_event, parse_progress_line,
    remaining_audio_ms, FfmpegProgress, MergeProgressTracker, ProgressEvent,
};

#[test]
fn progress_lines_split_at_first_equals() {
    assert_eq!(parse_progress_line("out_time_ms=6000000"), Some(("out_time_ms".to_string(), "6000000".to_string())));
    assert_eq!(parse_progress_line("speed=12.0x"), Some(("speed".to_string(), "12.0x".to_string())));
    assert_eq!(parse_progress_line("a=b=c"), Some(("a".to_string(), "b=c".to_string())));
    assert_eq!(parse_progress_line("progress"), None);
    let line = "key=value=more";
    let (k, v) = parse_progress_line(line).unwrap();
    assert_eq!(format!("{}={}", k, v), line);
}

#[test]
fn merge_monitor_reads_microseconds() {
    assert_eq!(merge_progress_event("out_time_ms=6000000"), ProgressEvent::OutTime(6000));
    assert_eq!(merge_progress_event("out_time_ms=12=3"), ProgressEvent::OutTime(0));
    assert_eq!(merge_progress_event("out_time_ms=N/A"), ProgressEvent::Ignored);
    assert_eq!(merge_progress_event("speed=4.75x"), ProgressEvent::Speed("4.75x".to_string()));
    assert_eq!(merge_progress_event("frame=10"), ProgressEvent::Ignored);
}

#[test]
fn conversion_monitor_reads_microseconds() {
    assert_eq!(conversion_progress_event("out_time_ms=6000000"), ProgressEvent::OutTime(6000));
    assert_eq!(conversion_progress_event("out_time_ms=12=3"), ProgressEvent::Ignored);
    assert_eq!(conversion_progress_event("speed=1.5x"), ProgressEvent::Speed("1.5x".to_string()));
    assert_eq!(conversion_progress_event("progress=end"), ProgressEvent::Ignored);
    assert_eq!(conversion_progress_event("no equals"), ProgressEvent::Ignored);
}

#[test]
fn progress_accumulates() {
    let mut p = FfmpegProgress::default();
    p.apply(ProgressEvent::Speed("2x".to_string()));
    p.apply(ProgressEvent::OutTime(500));
    p.apply(ProgressEvent::Ignored);
    assert_eq!(p.out_time_ms, 500);
    assert_eq!(p.speed.as_deref(), Some("2x"));
    assert_eq!(p.frame, None);
}

#[test]
fn time_estimates() {
    assert_eq!(remaining_audio_ms(60_000, 15_000), 45_000);
    assert_eq!(remaining_audio_ms(60_000, 75_000), 0);
    assert_eq!(fallback_eta_secs(50_000), 10);
    assert_eq!(fallback_eta_secs(4_999), 0);
}

#[test]
fn merge_tracker_reports_each_once() {
    let mut t = MergeProgressTracker::new();
    let a = t.observe(26, AudioFormat::M4a);
    assert_eq!((a.emit_encoding_stage, a.checkpoint), (false, Some(25)));
    let a = t.observe(27, AudioFormat::M4a);
    assert_eq!((a.emit_encoding_stage, a.checkpoint), (false, None));
    let a = t.observe(31, AudioFormat::M4a);
    assert_eq!((a.emit_encoding_stage, a.checkpoint), (true, None));
    let a = t.observe(52, AudioFormat::M4a);
    assert_eq!((a.emit_encoding_stage, a.checkpoint), (false, Some(50)));
    let a = t.observe(53, AudioFormat::M4a);
    assert_eq!(a.checkpoint, None);
    let a = t.observe(79, AudioFormat::M4a);
    assert_eq!(a.checkpoint, Some(75));
    let a = t.observe(85, AudioFormat::M4a);
    assert_eq!((a.emit_encoding_stage, a.checkpoint), (false, None));
}

#[test]
fn wav_merge_never_shows_encoding() {
    let mut t = MergeProgressTracker::new();
    for p in [10u8, 30, 60, 100] {
        assert!(!t.observe(p, AudioFormat::Wav).emit_encoding_stage);
    }
    // jumping over a checkpoint range skips that checkpoint
    let mut t = MergeProgressTracker::new();
    assert_eq!(t.observe(40, AudioFormat::Wav).checkpoint, None);
}
