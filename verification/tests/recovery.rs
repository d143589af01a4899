use audio_recorder_manager::domain::{loopback_temp_name, mic_temp_name, AudioFormat, SessionId};
use audio_recorder_manager::recovery::{
    find_incomplete_recordings, nothing_to_recover_message, plan_recovery, recovery_output_name,
    recovery_summary, select_for_recovery, session_not_found_message, temp_file_role,
    timestamp_of_session, FileEntry, IncompleteRecording, RecoveryError,
};

fn entry(name: &str) -> FileEntry {
    FileEntry { name: name.to_string(), path: format!("/rec/{}", name) }
}

#[test]
fn temp_files_are_recognised() {
    assert_eq!(temp_file_role("rec-20250101_101010_loopback.wav"), Some(("rec-20250101_101010".to_string(), true)));
    assert_eq!(temp_file_role("rec-20250101_101010_mic.wav"), Some(("rec-20250101_101010".to_string(), false)));
    assert_eq!(temp_file_role("recording_20250101_101010.wav"), None);
    // every trailing repetition of the suffix goes
    assert_eq!(temp_file_role("a_mic.wav_mic.wav"), Some(("a".to_string(), false)));
}

#[test]
fn names_written_by_a_session_are_recognised() {
    let id = SessionId::from_timestamp("20251115_184335");
    let lb = loopback_temp_name(id.as_str());
    let mic = mic_temp_name(id.as_str());
    assert_eq!(temp_file_role(&lb), Some((id.as_str().to_string(), true)));
    assert_eq!(temp_file_role(&mic), Some((id.as_str().to_string(), false)));
}

#[test]
fn timestamp_strips_rec_prefix() {
    assert_eq!(timestamp_of_session("rec-20250101_000000"), "20250101_000000");
    assert_eq!(timestamp_of_session("other"), "other");
    let id = SessionId::from_timestamp("20240202_020202");
    assert_eq!(timestamp_of_session(id.as_str()), "20240202_020202");
}

#[test]
fn sessions_grouped_and_newest_first() {
    let entries = vec![
        entry("rec-20250101_100000_loopback.wav"),
        entry("notes.txt"),
        entry("rec-20250301_100000_mic.wav"),
        entry("rec-20250101_100000_mic.wav"),
        entry("rec-20250201_100000_loopback.wav"),
        entry("rec-20250301_100000_loopback.wav"),
    ];
    let found = find_incomplete_recordings(&entries);
    let ids: Vec<&str> = found.iter().map(|r| r.session_id.as_str()).collect();
    assert_eq!(ids, vec!["rec-20250301_100000", "rec-20250201_100000", "rec-20250101_100000"]);
    assert_eq!(found[0].loopback_file.as_deref(), Some("/rec/rec-20250301_100000_loopback.wav"));
    assert_eq!(found[0].mic_file.as_deref(), Some("/rec/rec-20250301_100000_mic.wav"));
    assert_eq!(found[1].mic_file, None);
    assert_eq!(found[2].timestamp, "20250101_100000");
}

#[test]
fn nothing_found_without_temp_files() {
    let entries = vec![entry("recording_1.wav"), entry("a.json")];
    assert!(find_incomplete_recordings(&entries).is_empty());
    assert_eq!(nothing_to_recover_message(), "No incomplete recordings found");
}

#[test]
fn later_file_of_a_session_wins() {
    let entries = vec![
        FileEntry { name: "s_loopback.wav".to_string(), path: "first".to_string() },
        FileEntry { name: "s_loopback.wav_loopback.wav".to_string(), path: "second".to_string() },
    ];
    let found = find_incomplete_recordings(&entries);
    assert_eq!(found.len(), 1);
    assert_eq!(found[0].loopback_file.as_deref(), Some("second"));
}

fn rec(id: &str, lb: bool, mic: bool) -> IncompleteRecording {
    IncompleteRecording {
        session_id: id.to_string(),
        loopback_file: if lb { Some(format!("/rec/{}_loopback.wav", id)) } else { None },
        mic_file: if mic { Some(format!("/rec/{}_mic.wav", id)) } else { None },
        timestamp: timestamp_of_session(id),
    }
}

#[test]
fn selection_by_session() {
    let all = vec![rec("rec-2", true, false), rec("rec-1", true, true)];
    let one = select_for_recovery(all, Some("rec-1"));
    assert_eq!(one.len(), 1);
    assert_eq!(one[0].session_id, "rec-1");
    let all = vec![rec("rec-2", true, false), rec("rec-1", true, true)];
    assert!(select_for_recovery(all, Some("rec-9")).is_empty());
    let all = vec![rec("rec-2", true, false), rec("rec-1", true, true)];
    assert_eq!(select_for_recovery(all, None).len(), 2);
    assert_eq!(
        session_not_found_message("rec-9"),
        "No incomplete recording found for session: rec-9"
    );
}

#[test]
fn plan_wav_recovery() {
    let r = rec("rec-20250101_101010", true, false);
    assert_eq!(recovery_output_name(&r), "recording_20250101_101010.wav");
    let plan = plan_recovery(&r, None, "/rec", false).ok().unwrap();
    assert_eq!(plan.format, AudioFormat::Wav);
    assert_eq!(plan.output_path, "/rec/recording_20250101_101010.wav");
    assert_eq!(plan.mic_path, "/rec/rec-20250101_101010_mic.wav");
    assert!(plan.loopback_has_audio);
    assert!(!plan.mic_has_audio);
    assert_eq!(plan.m4a_path, None);
    assert_eq!(plan.final_name, "recording_20250101_101010.wav");
    assert_eq!(plan.cleanup, vec!["/rec/rec-20250101_101010_loopback.wav".to_string()]);
    assert_eq!(plan.quality.name, "Professional (48kHz Stereo)");
}

#[test]
fn plan_m4a_recovery() {
    let r = rec("rec-7", true, true);
    let plan = plan_recovery(&r, Some(AudioFormat::M4a), "/rec", false).ok().unwrap();
    assert_eq!(plan.m4a_path.as_deref(), Some("/rec/recording_7.m4a"));
    assert_eq!(plan.final_name, "recording_7.m4a");
    assert!(plan.mic_has_audio);
    assert_eq!(plan.cleanup.len(), 2);
}

#[test]
fn recovery_errors() {
    let r = rec("rec-7", true, true);
    let e = plan_recovery(&r, None, "/rec", true).err().unwrap();
    assert_eq!(e, RecoveryError::OutputExists("recording_7.wav".to_string()));
    assert_eq!(e.to_string(), "Output file already exists: recording_7.wav");
    let r = rec("rec-8", false, true);
    let e = plan_recovery(&r, None, "/rec", false).err().unwrap();
    assert_eq!(e, RecoveryError::NoLoopback);
    assert_eq!(e.to_string(), "No loopback file found for recovery");
}

#[test]
fn summaries() {
    let s = recovery_summary(3, 0);
    assert_eq!((s.status, s.message.as_str()), ("success", "Successfully recovered 3 recording(s)"));
    let s = recovery_summary(1, 2);
    assert_eq!((s.status, s.message.as_str()), ("partial", "Recovered 1 of 3 recording(s)"));
}
