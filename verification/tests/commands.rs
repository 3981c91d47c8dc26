use audioknife::ai_bridge::check_backend;
use audioknife::audio::format_converter::{FormatError, OutputFormat};
use audioknife::audio::silence_padding::{AudioInfo, SilencePaddingError};
use audioknife::commands::{
    cmd_add_silence_padding, cmd_add_silence_with_format, cmd_batch_silence_padding,
    cmd_check_system_status, cmd_get_audio_info, cmd_get_output_formats, select_output_format,
};

fn info(total_samples: u64) -> AudioInfo {
    AudioInfo { sample_rate: 44100, channels: 2, bits_per_sample: 16, total_samples }
}

#[test]
fn audio_info_is_passed_on_and_errors_are_worded() {
    assert_eq!(cmd_get_audio_info(Ok(info(10))), Ok(info(10)));
    assert_eq!(
        cmd_get_audio_info(Err(SilencePaddingError::ReadError("no RIFF tag found".to_string()))),
        Err("Failed to read audio file: no RIFF tag found".to_string())
    );
}

#[test]
fn padding_is_reported_with_the_seconds_added() {
    let report = cmd_add_silence_padding(Ok(info(308700)), "out.wav".to_string(), "2", "0.5");
    assert!(report.success);
    assert_eq!(report.output_path, Some("out.wav".to_string()));
    assert_eq!(report.message, "Success: Added 2s pre-silence and 0.5s post-silence");
    assert_eq!(report.audio_info, Some(info(308700)));
    assert_eq!(
        report.message,
        format!("Success: Added {}s pre-silence and {}s post-silence", 2.0f64, 0.5f64)
    );
}

#[test]
fn failed_padding_is_reported_in_words() {
    let failure = SilencePaddingError::UnsupportedFormat(
        "Only integer sample format is supported".to_string(),
    );
    let report = cmd_add_silence_padding(Err(failure), "out.wav".to_string(), "2", "0.5");
    assert!(!report.success);
    assert_eq!(report.output_path, None);
    assert_eq!(
        report.message,
        "Unsupported audio format: Only integer sample format is supported"
    );
    assert_eq!(report.audio_info, None);
}

#[test]
fn requested_formats_are_looked_up() {
    assert_eq!(select_output_format("FLAC").unwrap(), OutputFormat::Flac);
    assert_eq!(select_output_format("AAC (192kbps)").unwrap(), OutputFormat::AacMedium);
    match select_output_format("AIFF") {
        Err(report) => {
            assert!(!report.success);
            assert_eq!(report.output_path, None);
            assert_eq!(report.message, "Unsupported format: AIFF");
            assert_eq!(report.audio_info, None);
        }
        Ok(_) => panic!("a format was found for a name that has none"),
    }
}

#[test]
fn conversion_is_reported_with_seconds_and_format() {
    let report = cmd_add_silence_with_format(Ok("out.mp3".to_string()), "1", "0", "MP3 (128kbps)");
    assert!(report.success);
    assert_eq!(report.output_path, Some("out.mp3".to_string()));
    assert_eq!(
        report.message,
        "Success: Added 1s pre-silence, 0s post-silence, converted to MP3 (128kbps)"
    );
    assert_eq!(report.audio_info, None);
    let report = cmd_add_silence_with_format(Err(FormatError::FfmpegNotFound), "1", "0", "wav");
    assert!(!report.success);
    assert_eq!(report.output_path, None);
    assert_eq!(report.message, "FFmpeg not found");
    assert_eq!(report.audio_info, None);
}

#[test]
fn batch_results_keep_the_order_of_the_jobs() {
    let jobs = vec![
        ("a.wav".to_string(), Ok(info(1))),
        ("b.wav".to_string(), Ok(info(2))),
        ("c.wav".to_string(), Err("Failed to read audio file: not found".to_string())),
        ("d.wav".to_string(), Ok(info(4))),
    ];
    let report = cmd_batch_silence_padding(jobs);
    assert_eq!(report.total, 4);
    assert_eq!(report.success_count, 3);
    assert_eq!(report.failed_count, 1);
    assert_eq!(report.results.len(), 4);
    let successes: Vec<bool> = report.results.iter().map(|result| result.success).collect();
    assert_eq!(successes, vec![true, true, false, true]);
    assert_eq!(report.results[0].output_path, Some("a.wav".to_string()));
    assert_eq!(report.results[0].message, "Success");
    assert_eq!(report.results[0].audio_info, Some(info(1)));
    assert_eq!(report.results[1].audio_info, Some(info(2)));
    assert_eq!(report.results[2].output_path, None);
    assert_eq!(report.results[2].message, "Failed to read audio file: not found");
    assert_eq!(report.results[2].audio_info, None);
    assert_eq!(report.results[3].output_path, Some("d.wav".to_string()));
    assert_eq!(report.results[3].audio_info, Some(info(4)));
}

#[test]
fn one_failure_at_any_place_is_one_failure() {
    let count = 7;
    for failing in 0..count {
        let jobs: Vec<(String, Result<AudioInfo, String>)> = (0..count)
            .map(|k| {
                let outcome = if k == failing { Err(format!("job {}", k)) } else { Ok(info(k as u64)) };
                (format!("{}.wav", k), outcome)
            })
            .collect();
        let report = cmd_batch_silence_padding(jobs);
        assert_eq!(report.total, count);
        assert_eq!(report.failed_count, 1);
        assert_eq!(report.success_count, count - 1);
        for (k, result) in report.results.iter().enumerate() {
            assert_eq!(result.success, k != failing);
        }
    }
}

#[test]
fn batch_tally_adds_up() {
    let empty = cmd_batch_silence_padding(Vec::new());
    assert_eq!((empty.total, empty.success_count, empty.failed_count), (0, 0, 0));
    assert!(empty.results.is_empty());
    let all_failed = cmd_batch_silence_padding(vec![
        ("a.wav".to_string(), Err("x".to_string())),
        ("b.wav".to_string(), Err("y".to_string())),
    ]);
    assert_eq!((all_failed.total, all_failed.success_count, all_failed.failed_count), (2, 0, 2));
    let all_well = cmd_batch_silence_padding(vec![("a.wav".to_string(), Ok(info(0)))]);
    assert_eq!((all_well.total, all_well.success_count, all_well.failed_count), (1, 1, 0));
}

#[test]
fn system_status_holds_what_it_was_given() {
    let status = cmd_check_system_status(true, check_backend(Some("Python 3.12")));
    assert!(status.ffmpeg_available);
    assert!(status.backend_status.available);
    assert_eq!(status.backend_status.python_version, Some("Python 3.12".to_string()));
    let status = cmd_check_system_status(false, check_backend(None));
    assert!(!status.ffmpeg_available);
    assert!(!status.backend_status.available);
}

#[test]
fn offered_formats_are_the_formats() {
    let formats = cmd_get_output_formats();
    let names: Vec<&str> = formats.iter().map(|format| format.name.as_str()).collect();
    assert_eq!(
        names,
        vec![
            "WAV", "MP3 (320kbps)", "MP3 (192kbps)", "MP3 (128kbps)", "AAC (256kbps)",
            "AAC (192kbps)", "FLAC", "OGG (192kbps)",
        ]
    );
    let extensions: Vec<&str> = formats.iter().map(|format| format.extension.as_str()).collect();
    assert_eq!(extensions, vec!["wav", "mp3", "mp3", "mp3", "m4a", "m4a", "flac", "ogg"]);
    let descriptions: Vec<&str> =
        formats.iter().map(|format| format.description.as_str()).collect();
    assert_eq!(
        descriptions,
        vec![
            "Lossless, large file size", "High quality compressed", "Standard quality",
            "Smaller file size", "Apple/iOS compatible", "Standard AAC", "Lossless, compressed",
            "Open format",
        ]
    );
}

#[test]
fn every_offered_name_finds_one_format_with_codec_arguments() {
    let expected = [
        OutputFormat::Wav,
        OutputFormat::Mp3High,
        OutputFormat::Mp3Medium,
        OutputFormat::Mp3Low,
        OutputFormat::AacHigh,
        OutputFormat::AacMedium,
        OutputFormat::Flac,
        OutputFormat::Ogg,
    ];
    let formats = cmd_get_output_formats();
    assert_eq!(formats.len(), expected.len());
    for (offered, format) in formats.iter().zip(expected) {
        assert_eq!(OutputFormat::from_name(&offered.name), Some(format));
        assert_eq!(offered.extension, format.extension());
        assert!(!format.ffmpeg_args().is_empty());
    }
}

#[test]
fn audio_items_are_reached_from_the_audio_module() {
    let spec = audioknife::audio::AudioStreamSpec {
        channels: 1,
        sample_rate: 2,
        bits_per_sample: 8,
        sample_format: audioknife::audio::SampleFormat::Int,
    };
    let one_second = audioknife::audio::SilenceDuration::whole_seconds(1);
    assert_eq!(audioknife::audio::generate_silence_samples(&spec, one_second), vec![0, 0]);
    assert_eq!(audioknife::audio::OutputFormat::from_name("ogg").unwrap().extension(), "ogg");
}
