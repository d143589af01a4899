use audio_recorder_manager::capture::{
    int32_to_int16, loopback_packet_action, loopback_sample_format, microphone_packet_action,
    microphone_sample_format, monitor_sample_format, packet_sample_count, silence, PacketAction,
    SampleFormat,
};
use audio_recorder_manager::domain::AudioFormat;
use audio_recorder_manager::ffmpeg::{
    compress_args, compressed_file_name, concat_args, concat_list_content, convert_args,
    duration_methods, estimate_duration_from_size, ffprobe_duration_args, is_wav_file_extension,
    merge_args, merge_duration_basis, merge_strategy, pick_duration, stage_status,
    total_processing_steps, DurationBasis, DurationMethod, MergeStrategy, ProcessingStage,
};
use audio_recorder_manager::wav::{scan_wav_header, WavScan};

#[test]
fn merge_strategies() {
    assert_eq!(merge_strategy(true, true), MergeStrategy::DualMono);
    assert_eq!(merge_strategy(true, false), MergeStrategy::LoopbackOnly);
    assert_eq!(merge_strategy(false, true), MergeStrategy::MicOnly);
    assert_eq!(merge_strategy(false, false), MergeStrategy::Silent);
}

#[test]
fn merge_arguments() {
    let a = merge_args(MergeStrategy::LoopbackOnly, "l.wav", "m.wav", "o.m4a", 48000, AudioFormat::M4a, true);
    assert_eq!(
        a,
        vec![
            "-hide_banner", "-loglevel", "error", "-i", "l.wav", "-ac", "2", "-ar", "48000", "-c:a", "aac",
            "-b:a", "192k", "-movflags", "faststart", "-threads", "auto", "-y", "o.m4a", "-progress", "pipe:2"
        ]
    );
    let a = merge_args(MergeStrategy::Silent, "l.wav", "m.wav", "o.wav", 44100, AudioFormat::Wav, false);
    assert_eq!(
        a,
        vec![
            "-hide_banner", "-loglevel", "error", "-i", "l.wav", "-filter_complex",
            "[0:a]aformat=channel_layouts=stereo[aout]", "-map", "[aout]", "-ar", "44100", "-y", "o.wav"
        ]
    );
    let a = merge_args(MergeStrategy::MicOnly, "l.wav", "m.wav", "o.wav", 48000, AudioFormat::Wav, false);
    assert_eq!(a[4], "m.wav");
    let a = merge_args(MergeStrategy::DualMono, "l.wav", "m.wav", "o.wav", 48000, AudioFormat::Wav, false);
    assert_eq!(
        a,
        vec![
            "-hide_banner", "-loglevel", "error", "-i", "l.wav", "-i", "m.wav", "-filter_complex",
            "[0:a]aformat=channel_layouts=mono[sys];[1:a]aformat=channel_layouts=mono[mic];[sys][mic]amerge=inputs=2,pan=stereo|c0=c0|c1=c1[aout]",
            "-filter_threads", "auto", "-map", "[aout]", "-ar", "48000", "-y", "o.wav"
        ]
    );
}

#[test]
fn processing_stages() {
    assert_eq!(total_processing_steps(AudioFormat::M4a), 4);
    assert_eq!(total_processing_steps(AudioFormat::Wav), 3);
    let s = stage_status(ProcessingStage::Finalizing, AudioFormat::Wav);
    assert_eq!((s.message, s.step, s.processing_type), ("Saving recording...", 3, "finalizing"));
    let s = stage_status(ProcessingStage::Encoding, AudioFormat::M4a);
    assert_eq!((s.message, s.step, s.processing_type), ("Converting to M4A format...", 3, "encoding"));
}

#[test]
fn duration_choices() {
    assert_eq!(merge_duration_basis(1000, 2000, 0, 0), DurationBasis::Detected(2000));
    assert_eq!(merge_duration_basis(0, 0, 384_000, 10), DurationBasis::SizeEstimate(2000));
    assert_eq!(merge_duration_basis(0, 0, 0, 0), DurationBasis::Fallback(300_000));
    assert_eq!(estimate_duration_from_size(999), None);
    assert_eq!(estimate_duration_from_size(1000), Some(0));
    assert_eq!(estimate_duration_from_size(1_920_000), Some(10_000));
    assert!(is_wav_file_extension("WaV"));
    assert!(!is_wav_file_extension("wave"));
    assert_eq!(duration_methods(true)[0], DurationMethod::WavHeader);
    assert_eq!(duration_methods(false)[0], DurationMethod::FfprobeFormat);
    assert_eq!(pick_duration(&vec![None, Some(0), Some(1500), Some(9)]), 1500);
    assert_eq!(pick_duration(&vec![None, Some(0)]), 0);
}

#[test]
fn other_ffmpeg_arguments() {
    let a = ffprobe_duration_args("x.m4a", true);
    assert_eq!(a[3], "stream=duration");
    assert_eq!(a.last().unwrap(), "x.m4a");
    let c = convert_args("a.wav", "a.m4a", false);
    assert_eq!(c, vec!["-hide_banner", "-loglevel", "error", "-i", "a.wav", "-c:a", "aac", "-b:a", "192k", "-movflags", "faststart", "-threads", "auto", "-y", "a.m4a"]);
    let c = compress_args("in.wav", "out.m4a", 64, 16000, 1, false);
    assert_eq!(&c[7..15], &["-b:a", "64k", "-ar", "16000", "-ac", "1", "-movflags", "faststart"]);
    assert_eq!(compressed_file_name("talk"), "talk_compressed.m4a");
    let k = concat_args("list.txt", "out.m4a");
    assert_eq!(k, vec!["-hide_banner", "-loglevel", "error", "-f", "concat", "-safe", "0", "-i", "list.txt", "-c", "copy", "-y", "out.m4a"]);
}

#[test]
fn concat_list_escapes() {
    let files = vec!["C:\\rec\\a.m4a".to_string(), "/tmp/it's.m4a".to_string()];
    assert_eq!(concat_list_content(&files), "file 'C:/rec/a.m4a'\nfile '/tmp/it'\\''s.m4a'\n");
    assert_eq!(concat_list_content(&vec![]), "");
}

fn wav_bytes(byte_rate: u32, data_size: u32) -> Vec<u8> {
    let mut b = Vec::new();
    b.extend_from_slice(b"RIFF");
    b.extend_from_slice(&(36 + data_size).to_le_bytes());
    b.extend_from_slice(b"WAVE");
    b.extend_from_slice(b"fmt ");
    b.extend_from_slice(&16u32.to_le_bytes());
    b.extend_from_slice(&1u16.to_le_bytes());
    b.extend_from_slice(&2u16.to_le_bytes());
    b.extend_from_slice(&48000u32.to_le_bytes());
    b.extend_from_slice(&byte_rate.to_le_bytes());
    b.extend_from_slice(&4u16.to_le_bytes());
    b.extend_from_slice(&16u16.to_le_bytes());
    b.extend_from_slice(b"data");
    b.extend_from_slice(&data_size.to_le_bytes());
    b
}

#[test]
fn wav_header_scan() {
    let b = wav_bytes(192000, 384000);
    assert_eq!(scan_wav_header(&b, b.len() as u64 + 384000), WavScan::Found { byte_rate: 192000, data_size: 384000 });
    assert_eq!(scan_wav_header(&b[..10], 1000), WavScan::NeedMore { needed: 12 });
    assert_eq!(scan_wav_header(b"RIFX", 4), WavScan::NotRiff);
    assert_eq!(scan_wav_header(b"RIF", 3), WavScan::Truncated);
    let mut not_wave = wav_bytes(1, 1);
    not_wave[8] = b'X';
    assert_eq!(scan_wav_header(&not_wave, not_wave.len() as u64), WavScan::NotWave);
    let silent = wav_bytes(192000, 0);
    assert_eq!(scan_wav_header(&silent, silent.len() as u64), WavScan::NoDuration);
}

#[test]
fn capture_formats() {
    assert_eq!(loopback_sample_format(0xFFFE, 32), SampleFormat::Float32);
    assert_eq!(loopback_sample_format(1, 32), SampleFormat::Int32);
    assert_eq!(loopback_sample_format(1, 16), SampleFormat::Int16);
    assert_eq!(loopback_sample_format(1, 24), SampleFormat::Unsupported);
    assert_eq!(microphone_sample_format(3, 32), SampleFormat::Float32);
    assert_eq!(microphone_sample_format(1, 32), SampleFormat::Unsupported);
    assert_eq!(monitor_sample_format(0xFFFE, 16), SampleFormat::Int16);
}

#[test]
fn capture_packets() {
    assert_eq!(loopback_packet_action(0x2, SampleFormat::Float32), PacketAction::WriteSilence);
    assert_eq!(loopback_packet_action(0, SampleFormat::Unsupported), PacketAction::Skip);
    assert_eq!(microphone_packet_action(0, SampleFormat::Int32), PacketAction::WriteSilence);
    assert_eq!(microphone_packet_action(0, SampleFormat::Int16), PacketAction::PassInt16);
    assert_eq!(packet_sample_count(480, 2), 960);
    assert_eq!(silence(3, 2), vec![0i16; 6]);
    assert_eq!(int32_to_int16(&[0x7fff_0000, -65536, 65535]), vec![0x7fff, -1, 0]);
}
