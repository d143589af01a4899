use audio_recorder_manager::cli::{parse_cli, CliCommand, CliError};
use audio_recorder_manager::domain::{AudioFormat, RecordingDuration};

fn line(words: &[&str]) -> Vec<String> {
    words.iter().map(|w| w.to_string()).collect()
}

#[test]
fn no_command_shows_usage() {
    assert!(matches!(parse_cli(&line(&["arm"]), 7200), Ok(CliCommand::Usage)));
    assert!(matches!(parse_cli(&line(&[]), 7200), Ok(CliCommand::Usage)));
}

#[test]
fn record_defaults() {
    match parse_cli(&line(&["arm", "record"]), 7200) {
        Ok(CliCommand::Record { duration, format, quality }) => {
            assert_eq!(duration, RecordingDuration::Fixed(30));
            assert_eq!(format, AudioFormat::Wav);
            assert_eq!(quality.sample_rate, 48000);
            assert_eq!(quality.channels, 2);
        }
        _ => panic!("record expected"),
    }
}

#[test]
fn record_with_all_arguments() {
    match parse_cli(&line(&["arm", "record", "30", "M4A", "Standard"]), 7200) {
        Ok(CliCommand::Record { duration, format, quality }) => {
            assert_eq!(duration, RecordingDuration::Fixed(30));
            assert_eq!(format, AudioFormat::M4a);
            assert_eq!(quality.sample_rate, 44100);
        }
        _ => panic!("record expected"),
    }
    match parse_cli(&line(&["arm", "record", "-1", "wav", "quick"]), 3600) {
        Ok(CliCommand::Record { duration, format, quality }) => {
            assert_eq!(duration, RecordingDuration::Manual { max: 3600 });
            assert_eq!(format, AudioFormat::Wav);
            assert_eq!(quality.sample_rate, 16000);
            assert_eq!(quality.channels, 2);
        }
        _ => panic!("record expected"),
    }
}

#[test]
fn record_refuses_bad_arguments() {
    assert_eq!(
        parse_cli(&line(&["arm", "record", "0"]), 7200).err(),
        Some(CliError::Invalid(
            "Error: Duration must be -1 (manual mode) or a positive number, got: 0".to_string()
        ))
    );
    assert_eq!(
        parse_cli(&line(&["arm", "record", "-5"]), 7200).err(),
        Some(CliError::Invalid(
            "Error: Duration must be -1 (manual mode) or a positive number, got: -5".to_string()
        ))
    );
    assert_eq!(
        parse_cli(&line(&["arm", "record", "ten"]), 7200).err(),
        Some(CliError::Invalid("Error: Invalid duration 'ten'. Must be a number.".to_string()))
    );
    assert_eq!(
        parse_cli(&line(&["arm", "record", "30", "ogg"]), 7200).err(),
        Some(CliError::Invalid(
            "Error: Invalid parameter: Unsupported audio format 'ogg'. Supported formats: wav, m4a"
                .to_string()
        ))
    );
    assert_eq!(
        parse_cli(&line(&["arm", "record", "30", "wav", "ultra"]), 7200).err(),
        Some(CliError::Invalid(
            "Error: Invalid quality 'ultra'. Options: quick, standard, professional, high"
                .to_string()
        ))
    );
}

#[test]
fn status_and_stop() {
    assert!(matches!(parse_cli(&line(&["arm", "status"]), 7200), Ok(CliCommand::Status)));
    match parse_cli(&line(&["arm", "stop"]), 7200) {
        Ok(CliCommand::Stop { session_id }) => assert_eq!(session_id, None),
        _ => panic!("stop expected"),
    }
    match parse_cli(&line(&["arm", "stop", "rec-20250109_120000"]), 7200) {
        Ok(CliCommand::Stop { session_id }) => {
            assert_eq!(session_id, Some("rec-20250109_120000".to_string()))
        }
        _ => panic!("stop expected"),
    }
}

#[test]
fn recover_arguments() {
    match parse_cli(&line(&["arm", "recover"]), 7200) {
        Ok(CliCommand::Recover { session_id, format }) => {
            assert_eq!(session_id, None);
            assert_eq!(format, None);
        }
        _ => panic!("recover expected"),
    }
    match parse_cli(&line(&["arm", "recover", "rec-20250109_120000", "m4a"]), 7200) {
        Ok(CliCommand::Recover { session_id, format }) => {
            assert_eq!(session_id, Some("rec-20250109_120000".to_string()));
            assert_eq!(format, Some(AudioFormat::M4a));
        }
        _ => panic!("recover expected"),
    }
    match parse_cli(&line(&["arm", "recover", "--format", "wav"]), 7200) {
        Ok(CliCommand::Recover { session_id, format }) => {
            assert_eq!(session_id, None);
            assert_eq!(format, Some(AudioFormat::Wav));
        }
        _ => panic!("recover expected"),
    }
    assert_eq!(
        parse_cli(&line(&["arm", "recover", "rec-1", "flac"]), 7200).err(),
        Some(CliError::Invalid(
            "Error: Invalid parameter: Unsupported audio format 'flac'. Supported formats: wav, m4a"
                .to_string()
        ))
    );
}

#[test]
fn unknown_command() {
    assert_eq!(
        parse_cli(&line(&["arm", "play"]), 7200).err(),
        Some(CliError::UnknownCommand("play".to_string()))
    );
}
