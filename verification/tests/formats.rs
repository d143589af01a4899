use audio_recorder_manager::domain::{AudioFormat, RecordingDuration};
use audio_recorder_manager::encoding::{
    create_encoder, encoder_choice, estimated_compressed_size, pcm_to_le_bytes, pipe_encoder_args,
    process_listed, wav_layout, EncoderChoice, EncoderPlan, OutputFormat, PipeEncoderState,
};
use audio_recorder_manager::error::RecorderError;
use audio_recorder_manager::quality::{CompressionQuality, RecordingQuality};

#[test]
fn test_output_format_extension() {
    assert_eq!(OutputFormat::Wav.extension(), "wav");
    assert_eq!(OutputFormat::M4a { bitrate: 192 }.extension(), "m4a");
    assert_eq!(OutputFormat::Mp3 { bitrate: 192 }.extension(), "mp3");
}

#[test]
fn test_output_format_display() {
    assert_eq!(OutputFormat::Wav.to_string(), "WAV (PCM)");
    assert_eq!(OutputFormat::M4a { bitrate: 192 }.to_string(), "M4A (AAC 192kbps)");
    assert_eq!(OutputFormat::Mp3 { bitrate: 320 }.to_string(), "MP3 (320kbps)");
}

#[test]
fn test_output_format_bytes_per_second() {
    // WAV 48kHz stereo 16-bit = 48000 * 2 * 2 = 192000 bytes/sec
    assert_eq!(OutputFormat::Wav.bytes_per_second(2, 48000), 192000);
    // M4A 192kbps = 192 * 1000 / 8 = 24000 bytes/sec
    assert_eq!(OutputFormat::M4a { bitrate: 192 }.bytes_per_second(2, 48000), 24000);
    // MP3 320kbps = 320 * 1000 / 8 = 40000 bytes/sec
    assert_eq!(OutputFormat::Mp3 { bitrate: 320 }.bytes_per_second(2, 48000), 40000);
}

#[test]
fn test_output_format_default() {
    let default = OutputFormat::default();
    assert!(matches!(default, OutputFormat::M4a { bitrate: 192 }));
}

#[test]
fn test_output_format_requires_ffmpeg() {
    assert!(!OutputFormat::Wav.requires_ffmpeg());
    assert!(OutputFormat::M4a { bitrate: 192 }.requires_ffmpeg());
    assert!(OutputFormat::Mp3 { bitrate: 192 }.requires_ffmpeg());
}

#[test]
fn output_format_codec_names() {
    assert_eq!(OutputFormat::Wav.codec_name(), "PCM");
    assert_eq!(OutputFormat::M4a { bitrate: 128 }.codec_name(), "AAC");
    assert_eq!(OutputFormat::Mp3 { bitrate: 128 }.codec_name(), "MP3");
    assert_eq!(OutputFormat::Wav.name(), "WAV (PCM)");
}

#[test]
fn encoder_choice_follows_format() {
    assert_eq!(encoder_choice(&OutputFormat::Wav), EncoderChoice::Wav);
    assert_eq!(
        encoder_choice(&OutputFormat::Mp3 { bitrate: 256 }),
        EncoderChoice::Ffmpeg { mp3: true, bitrate: 256 }
    );
    assert_eq!(
        encoder_choice(&OutputFormat::M4a { bitrate: 96 }),
        EncoderChoice::Ffmpeg { mp3: false, bitrate: 96 }
    );
}

#[test]
fn pipe_arguments_for_m4a_and_mp3() {
    let m4a = pipe_encoder_args("out.m4a", 2, 48000, false, 192);
    assert_eq!(
        m4a,
        vec![
            "-f", "s16le", "-ar", "48000", "-ac", "2", "-i", "pipe:0", "-c:a", "aac", "-b:a", "192k",
            "-movflags", "+faststart", "-y", "out.m4a"
        ]
    );
    let mp3 = pipe_encoder_args("out.mp3", 1, 44100, true, 320);
    assert_eq!(
        mp3,
        vec![
            "-f", "s16le", "-ar", "44100", "-ac", "1", "-i", "pipe:0", "-c:a", "libmp3lame", "-b:a",
            "320k", "-y", "out.mp3"
        ]
    );
}

#[test]
fn create_encoder_plans() {
    match create_encoder(&OutputFormat::Wav, "a.wav", 2, 48000) {
        EncoderPlan::Wav { layout } => {
            assert_eq!(layout.channels, 2);
            assert_eq!(layout.sample_rate, 48000);
            assert_eq!(layout.bits_per_sample, 16);
        }
        _ => panic!("expected a WAV writer"),
    }
    match create_encoder(&OutputFormat::M4a { bitrate: 192 }, "a.m4a", 2, 48000) {
        EncoderPlan::Pipe { args, bitrate } => {
            assert_eq!(bitrate, 192);
            assert_eq!(args[9], "aac");
            assert_eq!(args.last().unwrap(), "a.m4a");
        }
        _ => panic!("expected a pipe encoder"),
    }
}

#[test]
fn wav_layout_cuts_channel_count_to_16_bits() {
    let l = wav_layout(65538, 8000);
    assert_eq!(l.channels, 2);
    assert_eq!(l.sample_rate, 8000);
}

#[test]
fn pcm_bytes_are_little_endian() {
    let bytes = pcm_to_le_bytes(&[1, -1, 0x1234, i16::MIN]);
    assert_eq!(bytes, vec![0x01, 0x00, 0xff, 0xff, 0x34, 0x12, 0x00, 0x80]);
    // decoding gives the samples back
    let back: Vec<i16> = bytes.chunks(2).map(|c| i16::from_le_bytes([c[0], c[1]])).collect();
    assert_eq!(back, vec![1, -1, 0x1234, i16::MIN]);
}

#[test]
fn compressed_size_estimate() {
    // 192 kbps for 10 seconds of PCM (1 920 000 bytes): 24 000 * 10
    assert_eq!(estimated_compressed_size(192, 1_920_000), 240_000);
    // less than one second of PCM counts as zero seconds
    assert_eq!(estimated_compressed_size(192, 191_999), 0);
    let mut st = PipeEncoderState::new(128);
    st.record_written(384_000);
    assert_eq!(st.estimated_size(), Some(32_000));
}

#[test]
fn unhealthy_pipe_refuses_samples() {
    let mut st = PipeEncoderState::new(128);
    assert!(st.check_writable().is_ok());
    st.mark_unhealthy();
    match st.check_writable() {
        Err(RecorderError::RecordingError(m)) => {
            assert_eq!(m, "FFmpeg process is not healthy - cannot write samples")
        }
        _ => panic!("expected an error"),
    }
}

#[test]
fn tasklist_output_lists_process() {
    assert!(process_listed("ffmpeg.exe   4242 Console   1  10,000 K", 4242));
    assert!(!process_listed("INFO: No tasks are running", 4242));
}

#[test]
fn audio_format_names_and_codecs() {
    assert_eq!(AudioFormat::Wav.extension(), "wav");
    assert_eq!(AudioFormat::M4a.extension(), "m4a");
    assert_eq!(AudioFormat::Wav.codec(), "pcm");
    assert_eq!(AudioFormat::M4a.codec(), "aac");
    assert_eq!(AudioFormat::M4a.to_string(), "m4a");
}

#[test]
fn audio_format_parses_any_case() {
    assert!(matches!(AudioFormat::from_str("WAV"), Ok(AudioFormat::Wav)));
    assert!(matches!(AudioFormat::from_str("m4A"), Ok(AudioFormat::M4a)));
    match AudioFormat::from_str("ogg") {
        Err(RecorderError::InvalidParameter(m)) => {
            assert_eq!(m, "Unsupported audio format 'ogg'. Supported formats: wav, m4a")
        }
        _ => panic!("expected an error"),
    }
}

#[test]
fn audio_format_extension_parses_back() {
    for f in [AudioFormat::Wav, AudioFormat::M4a] {
        assert_eq!(AudioFormat::from_str(f.extension()).ok(), Some(f));
    }
}

#[test]
fn recording_duration_from_secs() {
    assert_eq!(RecordingDuration::from_secs(-1, 7200).ok(), Some(RecordingDuration::Manual { max: 7200 }));
    assert_eq!(RecordingDuration::from_secs(30, 7200).ok(), Some(RecordingDuration::Fixed(30)));
    match RecordingDuration::from_secs(0, 7200) {
        Err(e) => assert_eq!(
            e.to_string(),
            "Invalid parameter: Duration must be -1 (manual mode) or a positive number, got: 0"
        ),
        Ok(_) => panic!("expected an error"),
    }
    match RecordingDuration::from_secs(-5, 7200) {
        Err(RecorderError::InvalidParameter(m)) => {
            assert_eq!(m, "Duration must be -1 (manual mode) or a positive number, got: -5")
        }
        _ => panic!("expected an error"),
    }
}

#[test]
fn recording_duration_api_value_roundtrip() {
    for d in [-1i64, 1, 30, 3600] {
        let parsed = RecordingDuration::from_secs(d, 7200).ok().unwrap();
        assert_eq!(parsed.to_api_value(), d);
    }
    assert_eq!(RecordingDuration::Manual { max: 7200 }.effective_duration(), 7200);
    assert_eq!(RecordingDuration::Fixed(45).effective_duration(), 45);
}

#[test]
fn quality_presets() {
    let p = RecordingQuality::professional();
    assert_eq!(p.sample_rate, 48000);
    assert_eq!(p.channels, 2);
    assert_eq!(p.name, "Professional (48kHz Stereo)");
    let q = RecordingQuality::quick();
    assert_eq!(q.sample_rate, 16000);
    assert_eq!(q.channels, 2);
    assert_eq!(q.name, "Quick (16kHz Stereo)");
    assert_eq!(RecordingQuality::standard().sample_rate, 44100);
    assert_eq!(RecordingQuality::high().sample_rate, 96000);
    assert!(RecordingQuality::from_name("HIGH").is_some());
    assert!(RecordingQuality::from_name("ultra").is_none());
}

#[test]
fn compression_quality_settings() {
    let s = CompressionQuality::Standard;
    assert_eq!((s.sample_rate(), s.channels(), s.bitrate_kbps()), (44100, 2, 128));
    assert_eq!(s.description(), "Standard (44.1kHz stereo, 128kbps)");
    let q = CompressionQuality::Quick;
    assert_eq!((q.sample_rate(), q.channels(), q.bitrate_kbps()), (16000, 1, 64));
    assert_eq!(q.description(), "Quick (16kHz mono, 64kbps)");
}

#[test]
fn error_texts() {
    assert_eq!(RecorderError::DeviceError("x".to_string()).to_string(), "Audio device error: x");
    assert_eq!(RecorderError::ConversionError("x".to_string()).to_string(), "Conversion error: x");
    assert_eq!(RecorderError::ConfigError("x".to_string()).to_string(), "Configuration error: x");
    assert_eq!(RecorderError::Io("x".to_string()).to_string(), "IO error: x");
    assert_eq!(RecorderError::Json("x".to_string()).to_string(), "JSON error: x");
    assert_eq!(RecorderError::Other("x".to_string()).to_string(), "x");
    assert_eq!(RecorderError::RecordingError("x".to_string()).to_string(), "Recording error: x");
}
