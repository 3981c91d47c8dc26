use audioknife::audio::duration::SilenceDuration;
use audioknife::audio::silence_padding::{
    add_silence_padding, batch_add_silence_padding, check_encodable, check_fits_container,
    count_silence_samples,
    encode_samples, generate_silence_samples, get_audio_info, narrow_sample, read_samples,
    recover_samples, write_samples, AudioInfo, AudioStreamSpec, DecodedAudio, EncodedSample,
    SampleFormat, SilencePaddingError, MAX_EXTENSIBLE_DATA_BYTES, MAX_PLAIN_DATA_BYTES,
};

fn seconds(value: f64) -> SilenceDuration {
    SilenceDuration::from_f64_bits(value.to_bits()).unwrap()
}

fn cd_spec() -> AudioStreamSpec {
    AudioStreamSpec {
        channels: 2,
        sample_rate: 44100,
        bits_per_sample: 16,
        sample_format: SampleFormat::Int,
    }
}

fn spec_with_bits(bits_per_sample: u16) -> AudioStreamSpec {
    AudioStreamSpec { channels: 1, sample_rate: 8000, bits_per_sample, sample_format: SampleFormat::Int }
}

fn values(samples: &[EncodedSample]) -> Vec<i32> {
    samples
        .iter()
        .map(|sample| match *sample {
            EncodedSample::Narrow8(value) => value as i32,
            EncodedSample::Narrow16(value) => value as i32,
            EncodedSample::Wide(value) => value,
        })
        .collect()
}

#[test]
fn test_generate_silence() {
    let spec = AudioStreamSpec {
        channels: 2,
        sample_rate: 44100,
        bits_per_sample: 16,
        sample_format: SampleFormat::Int,
    };

    let silence = generate_silence_samples(&spec, seconds(1.0));
    assert_eq!(silence.len(), 44100 * 2); // 1 second * 2 channels
    assert!(silence.iter().all(|&s| s == 0));
}

#[test]
fn generated_silence_rounds_to_whole_frames() {
    let spec = cd_spec();
    assert_eq!(generate_silence_samples(&spec, seconds(0.5)).len(), 44100);
    assert_eq!(generate_silence_samples(&spec, seconds(0.0)).len(), 0);
    // 0.00001 s is 0.441 of a frame, 0.00002 s is 0.882 of one.
    assert_eq!(generate_silence_samples(&spec, seconds(0.00001)).len(), 0);
    assert_eq!(generate_silence_samples(&spec, seconds(0.00002)).len(), 2);
}

#[test]
fn silence_samples_are_counted_against_a_limit() {
    let spec = cd_spec();
    assert_eq!(count_silence_samples(&spec, seconds(1.0), 88200), Some(88200));
    assert_eq!(count_silence_samples(&spec, seconds(1.0), 88199), None);
    assert_eq!(count_silence_samples(&spec, seconds(1.0e300), u64::MAX), None);
    let no_channels = AudioStreamSpec { channels: 0, ..cd_spec() };
    assert_eq!(count_silence_samples(&no_channels, seconds(1.0e300), 0), Some(0));
}

#[test]
fn padded_example_has_the_stated_length_and_duration() {
    let spec = cd_spec();
    let input: Vec<Option<i32>> = vec![Some(0); 88200];
    let audio = add_silence_padding(&spec, &input, seconds(2.0), seconds(0.5)).unwrap();
    assert_eq!(audio.samples.len(), 308700);
    assert_eq!(audio.info.total_samples, 308700);
    assert_eq!(audio.info.sample_rate, 44100);
    assert_eq!(audio.info.channels, 2);
    assert_eq!(audio.info.bits_per_sample, 16);
    assert_eq!(audio.info.duration_micros(), Some(3_500_000));
    assert!(audio.samples.iter().all(|sample| *sample == EncodedSample::Narrow16(0)));
}

#[test]
fn padded_length_is_the_sum_of_its_parts() {
    let spec = AudioStreamSpec {
        channels: 3,
        sample_rate: 48000,
        bits_per_sample: 24,
        sample_format: SampleFormat::Int,
    };
    let input: Vec<Option<i32>> = (0..30).map(Some).collect();
    let audio = add_silence_padding(&spec, &input, seconds(0.001), seconds(0.0025)).unwrap();
    // 48 frames before and 120 frames after, three samples to the frame.
    assert_eq!(audio.samples.len(), 48 * 3 + 30 + 120 * 3);
    assert_eq!(audio.info.total_samples, 534);
}

#[test]
fn zero_padding_gives_the_stream_back() {
    let spec = cd_spec();
    let samples: Vec<i32> = vec![1, -1, 32767, -32768, 0, 12345];
    let input: Vec<Option<i32>> = samples.iter().map(|s| Some(*s)).collect();
    let audio = add_silence_padding(&spec, &input, seconds(0.0), seconds(0.0)).unwrap();
    assert_eq!(values(&audio.samples), samples);
    assert_eq!(
        audio.info,
        AudioInfo { sample_rate: 44100, channels: 2, bits_per_sample: 16, total_samples: 6 }
    );
    let negative_zero = add_silence_padding(&spec, &input, seconds(-0.0), SilenceDuration::zero());
    assert_eq!(values(&negative_zero.unwrap().samples), samples);
}

#[test]
fn padding_keeps_the_order() {
    let spec = AudioStreamSpec {
        channels: 2,
        sample_rate: 4,
        bits_per_sample: 32,
        sample_format: SampleFormat::Int,
    };
    let input: Vec<Option<i32>> = vec![Some(7), Some(-7), Some(i32::MAX), Some(i32::MIN)];
    let audio = add_silence_padding(&spec, &input, seconds(0.5), seconds(1.0)).unwrap();
    assert_eq!(
        values(&audio.samples),
        vec![0, 0, 0, 0, 7, -7, i32::MAX, i32::MIN, 0, 0, 0, 0, 0, 0, 0, 0]
    );
    assert!(audio.samples.iter().all(|sample| matches!(sample, EncodedSample::Wide(_))));
    assert_eq!(audio.info.duration_micros(), Some(2_000_000));
}

#[test]
fn undecodable_samples_become_silence() {
    let decoded = vec![Some(5), None, Some(-5), None];
    assert_eq!(recover_samples(&decoded), vec![5, 0, -5, 0]);
    assert_eq!(recover_samples(&Vec::new()), Vec::<i32>::new());
    let audio =
        add_silence_padding(&cd_spec(), &decoded, seconds(0.0), seconds(0.0)).unwrap();
    assert_eq!(values(&audio.samples), vec![5, 0, -5, 0]);
}

#[test]
fn samples_are_narrowed_to_the_bit_depth() {
    assert_eq!(narrow_sample(8, 127), EncodedSample::Narrow8(127));
    assert_eq!(narrow_sample(8, -128), EncodedSample::Narrow8(-128));
    assert_eq!(narrow_sample(8, 300), EncodedSample::Narrow8(44));
    assert_eq!(narrow_sample(8, -129), EncodedSample::Narrow8(127));
    assert_eq!(narrow_sample(16, 32767), EncodedSample::Narrow16(32767));
    assert_eq!(narrow_sample(16, 40000), EncodedSample::Narrow16(-25536));
    assert_eq!(narrow_sample(16, -32769), EncodedSample::Narrow16(32767));
    assert_eq!(narrow_sample(24, 8_388_607), EncodedSample::Wide(8_388_607));
    assert_eq!(narrow_sample(24, i32::MAX), EncodedSample::Wide(i32::MAX));
    assert_eq!(narrow_sample(32, i32::MIN), EncodedSample::Wide(i32::MIN));
}

#[test]
fn streams_are_laid_out_sample_for_sample() {
    assert_eq!(
        encode_samples(8, &vec![0, 1, 2, 300, 0]),
        vec![
            EncodedSample::Narrow8(0),
            EncodedSample::Narrow8(1),
            EncodedSample::Narrow8(2),
            EncodedSample::Narrow8(44),
            EncodedSample::Narrow8(0),
        ]
    );
    assert_eq!(encode_samples(16, &Vec::new()), Vec::<EncodedSample>::new());
    assert_eq!(
        encode_samples(24, &vec![-1, 70000]),
        vec![EncodedSample::Wide(-1), EncodedSample::Wide(70000)]
    );
}

#[test]
fn integer_streams_are_read_with_silence_for_damage() {
    let decoded = vec![Some(3), None, Some(-3)];
    assert_eq!(read_samples(&cd_spec(), &decoded).unwrap(), vec![3, 0, -3]);
    assert_eq!(read_samples(&spec_with_bits(12), &decoded).unwrap(), vec![3, 0, -3]);
    let float = AudioStreamSpec { sample_format: SampleFormat::Float, ..cd_spec() };
    match read_samples(&float, &decoded) {
        Err(error) => assert_eq!(
            error.to_string(),
            "Unsupported audio format: Only integer sample format is supported"
        ),
        Ok(_) => panic!("float samples were read as integers"),
    }
}

#[test]
fn writing_narrows_or_refuses() {
    assert_eq!(
        write_samples(&cd_spec(), &vec![1, 40000]).unwrap(),
        vec![EncodedSample::Narrow16(1), EncodedSample::Narrow16(-25536)]
    );
    assert_eq!(
        write_samples(&spec_with_bits(8), &vec![-129]).unwrap(),
        vec![EncodedSample::Narrow8(127)]
    );
    assert_eq!(
        write_samples(&spec_with_bits(32), &vec![i32::MIN]).unwrap(),
        vec![EncodedSample::Wide(i32::MIN)]
    );
    // The format of the samples is a matter of reading: writing does not ask for it.
    let float = AudioStreamSpec { sample_format: SampleFormat::Float, ..cd_spec() };
    assert!(write_samples(&float, &vec![1]).is_ok());
}

#[test]
fn writing_at_an_unsupported_depth_names_the_depth() {
    for (bits, message) in [
        (12u16, "Unsupported audio format: Unsupported bits per sample: 12"),
        (0, "Unsupported audio format: Unsupported bits per sample: 0"),
        (20, "Unsupported audio format: Unsupported bits per sample: 20"),
        (65535, "Unsupported audio format: Unsupported bits per sample: 65535"),
    ] {
        for samples in [Vec::new(), vec![1, 2, 3]] {
            match write_samples(&spec_with_bits(bits), &samples) {
                Err(error) => {
                    assert!(matches!(error, SilencePaddingError::UnsupportedFormat(_)));
                    assert_eq!(error.to_string(), message);
                }
                Ok(_) => panic!("samples were laid out at {} bits", bits),
            }
        }
    }
    // The depth is looked at before the rest of the header.
    let spec = AudioStreamSpec { channels: 0, sample_rate: 0, ..spec_with_bits(12) };
    assert!(matches!(
        write_samples(&spec, &Vec::new()),
        Err(SilencePaddingError::UnsupportedFormat(_))
    ));
}

#[test]
fn writing_what_no_header_states_is_a_write_error() {
    let spec = AudioStreamSpec { sample_rate: 0, ..cd_spec() };
    match write_samples(&spec, &vec![1]) {
        Err(error) => assert_eq!(
            error.to_string(),
            "Failed to write audio file: The stream parameters do not fit a WAV header"
        ),
        Ok(_) => panic!("a stream without a sample rate was laid out"),
    }
}

#[test]
fn batch_pads_each_job_in_its_slot() {
    let files = vec![
        Ok(DecodedAudio { spec: cd_spec(), samples: vec![Some(1), Some(2)] }),
        Err(SilencePaddingError::ReadError("a.wav: no RIFF tag found".to_string())),
        Ok(DecodedAudio { spec: spec_with_bits(12), samples: vec![Some(1)] }),
        Ok(DecodedAudio { spec: spec_with_bits(8), samples: vec![None, Some(300)] }),
    ];
    let results = batch_add_silence_padding(&files, seconds(0.0), seconds(0.00025));
    assert_eq!(results.len(), 4);
    let first = results[0].as_ref().unwrap();
    // A quarter of a millisecond is 11.025 frames at 44100 Hz, and 2 frames at 8000 Hz.
    assert_eq!(values(&first.samples).len(), 2 + 11 * 2);
    assert_eq!(first.info.total_samples, 24);
    assert_eq!(
        results[1].as_ref().unwrap_err(),
        "Failed to read audio file: a.wav: no RIFF tag found"
    );
    assert_eq!(
        results[2].as_ref().unwrap_err(),
        "Unsupported audio format: Unsupported bits per sample: 12"
    );
    let last = results[3].as_ref().unwrap();
    assert_eq!(values(&last.samples), vec![0, 44, 0, 0]);
    assert_eq!(last.info.total_samples, 4);
    assert_eq!(last.info.bits_per_sample, 8);
}

#[test]
fn one_failing_job_leaves_the_others_alone() {
    let count = 5;
    for failing in 0..count {
        let files: Vec<Result<DecodedAudio, SilencePaddingError>> = (0..count)
            .map(|k| {
                if k == failing {
                    Err(SilencePaddingError::ReadError(format!("job {}", k)))
                } else {
                    Ok(DecodedAudio { spec: cd_spec(), samples: vec![Some(k as i32); 2 * k] })
                }
            })
            .collect();
        let results = batch_add_silence_padding(&files, seconds(0.0), seconds(0.0));
        assert_eq!(results.len(), count);
        for (k, result) in results.iter().enumerate() {
            match result {
                Ok(audio) => {
                    assert!(k != failing);
                    assert_eq!(values(&audio.samples), vec![k as i32; 2 * k]);
                }
                Err(message) => {
                    assert_eq!(k, failing);
                    assert_eq!(*message, format!("Failed to read audio file: job {}", k));
                }
            }
        }
    }
    assert!(batch_add_silence_padding(&Vec::new(), seconds(1.0), seconds(1.0)).is_empty());
}

#[test]
fn float_samples_are_refused() {
    let spec = AudioStreamSpec { sample_format: SampleFormat::Float, bits_per_sample: 32, ..cd_spec() };
    let outcome = add_silence_padding(&spec, &vec![Some(1)], seconds(1.0), seconds(1.0));
    match outcome {
        Err(SilencePaddingError::UnsupportedFormat(detail)) => {
            assert_eq!(detail, "Only integer sample format is supported");
        }
        other => panic!("expected an unsupported format, got {:?}", other),
    }
}

#[test]
fn unsupported_bit_depth_is_refused() {
    let outcome = add_silence_padding(&spec_with_bits(12), &vec![Some(1)], seconds(0.0), seconds(0.0));
    match outcome {
        Err(error) => {
            assert!(matches!(error, SilencePaddingError::UnsupportedFormat(_)));
            assert_eq!(
                error.to_string(),
                "Unsupported audio format: Unsupported bits per sample: 12"
            );
        }
        Ok(_) => panic!("a 12-bit stream was padded"),
    }
    for bits in [0u16, 1, 7, 9, 20, 31, 33, 64, 65535] {
        let outcome = add_silence_padding(&spec_with_bits(bits), &Vec::new(), seconds(0.0), seconds(0.0));
        assert!(matches!(outcome, Err(SilencePaddingError::UnsupportedFormat(_))));
    }
    for bits in [8u16, 16, 24, 32] {
        let outcome = add_silence_padding(&spec_with_bits(bits), &Vec::new(), seconds(0.0), seconds(0.0));
        assert!(outcome.is_ok());
    }
}

#[test]
fn streams_that_no_header_can_state_are_refused() {
    let no_rate = AudioStreamSpec { sample_rate: 0, ..cd_spec() };
    let no_channels = AudioStreamSpec { channels: 0, ..cd_spec() };
    let too_fast = AudioStreamSpec { sample_rate: u32::MAX, ..cd_spec() };
    for spec in [no_rate, no_channels, too_fast] {
        assert!(!check_encodable(&spec));
        match add_silence_padding(&spec, &Vec::new(), seconds(0.0), seconds(0.0)) {
            Err(SilencePaddingError::WriteError(detail)) => {
                assert_eq!(detail, "The stream parameters do not fit a WAV header");
            }
            other => panic!("expected a write error, got {:?}", other),
        }
    }
    assert!(check_encodable(&cd_spec()));
    let fastest = AudioStreamSpec { channels: 1, sample_rate: u32::MAX, bits_per_sample: 8, sample_format: SampleFormat::Int };
    assert!(check_encodable(&fastest));
}

#[test]
fn padding_beyond_the_container_is_refused() {
    let spec = cd_spec();
    // 16 bits: two bytes to the sample, so half as many samples as bytes.
    let most = MAX_PLAIN_DATA_BYTES / 2;
    assert_eq!(most, 2_147_483_629);
    assert_eq!(count_silence_samples(&spec, seconds(24347.0), most).is_some(), true);
    let outcome = add_silence_padding(&spec, &vec![Some(1), Some(2)], seconds(24348.0), seconds(0.0));
    match outcome {
        Err(error) => assert_eq!(
            error.to_string(),
            "Failed to write audio file: The audio exceeds the size limit of a WAV file"
        ),
        Ok(_) => panic!("more than a container holds was padded"),
    }
    let outcome = add_silence_padding(&spec, &Vec::new(), seconds(0.0), seconds(1.0e200));
    assert!(matches!(outcome, Err(SilencePaddingError::WriteError(_))));
    // One frame a second: the first duration beyond the container, in whole seconds.
    let slow = AudioStreamSpec { sample_rate: 1, ..cd_spec() };
    let outcome = add_silence_padding(
        &slow,
        &Vec::new(),
        audioknife::audio::SilenceDuration::whole_seconds(1_073_741_815),
        seconds(0.0),
    );
    assert!(matches!(outcome, Err(SilencePaddingError::WriteError(_))));
}

#[test]
fn the_plain_header_leaves_more_room_than_the_extensible_one() {
    assert_eq!(MAX_PLAIN_DATA_BYTES, u32::MAX as u64 - 36);
    assert_eq!(MAX_EXTENSIBLE_DATA_BYTES, u32::MAX as u64 - 60);
    // Stereo at 16 bits takes the plain header.
    assert!(check_fits_container(&cd_spec(), 0));
    assert!(check_fits_container(&cd_spec(), 2_147_483_620));
    assert!(check_fits_container(&cd_spec(), 2_147_483_629));
    assert!(!check_fits_container(&cd_spec(), 2_147_483_630));
    // Mono at 8 bits does too, a byte to the sample.
    assert!(check_fits_container(&spec_with_bits(8), 4_294_967_259));
    assert!(!check_fits_container(&spec_with_bits(8), 4_294_967_260));
    // Three channels, or more than 16 bits, take the extensible header.
    let surround = AudioStreamSpec { channels: 3, ..cd_spec() };
    assert!(check_fits_container(&surround, 2_147_483_617));
    assert!(!check_fits_container(&surround, 2_147_483_618));
    assert!(check_fits_container(&spec_with_bits(24), 1_431_655_745));
    assert!(!check_fits_container(&spec_with_bits(24), 1_431_655_746));
    assert!(check_fits_container(&spec_with_bits(32), 1_073_741_808));
    assert!(!check_fits_container(&spec_with_bits(32), 1_073_741_809));
    let wide_stereo = AudioStreamSpec { bits_per_sample: 24, ..cd_spec() };
    assert!(!check_fits_container(&wide_stereo, 1_431_655_746));
    assert!(!check_fits_container(&cd_spec(), u64::MAX));
}

#[test]
fn audio_info_describes_the_stream() {
    let info = get_audio_info(&cd_spec(), 88200);
    assert_eq!(
        info,
        AudioInfo { sample_rate: 44100, channels: 2, bits_per_sample: 16, total_samples: 88200 }
    );
    assert_eq!(info.duration_micros(), Some(1_000_000));
    let odd = AudioInfo { sample_rate: 3, channels: 1, bits_per_sample: 8, total_samples: 1 };
    assert_eq!(odd.duration_micros(), Some(333_333));
    let still = AudioInfo { sample_rate: 0, channels: 2, bits_per_sample: 8, total_samples: 10 };
    assert_eq!(still.duration_micros(), None);
    let mute = AudioInfo { sample_rate: 8000, channels: 0, bits_per_sample: 8, total_samples: 10 };
    assert_eq!(mute.duration_micros(), None);
    let longest = AudioInfo { sample_rate: 1, channels: 1, bits_per_sample: 8, total_samples: u64::MAX };
    assert_eq!(longest.duration_micros(), Some(u64::MAX as u128 * 1_000_000));
}

#[test]
fn padding_errors_read_as_their_kind_and_detail() {
    assert_eq!(
        SilencePaddingError::ReadError("no such file".to_string()).to_string(),
        "Failed to read audio file: no such file"
    );
    assert_eq!(
        SilencePaddingError::WriteError("disk full".to_string()).to_string(),
        "Failed to write audio file: disk full"
    );
    assert_eq!(
        SilencePaddingError::UnsupportedFormat("float".to_string()).to_string(),
        "Unsupported audio format: float"
    );
    assert_eq!(
        SilencePaddingError::IoError("broken pipe".to_string()).to_string(),
        "IO error: broken pipe"
    );
}

#[test]
fn endless_silence_is_refused_with_a_result() {
    let endless = SilenceDuration::from_seconds_bits(f64::INFINITY.to_bits());
    for (pre, post) in [(endless, seconds(0.0)), (seconds(0.0), endless), (endless, endless)] {
        match add_silence_padding(&cd_spec(), &vec![Some(1), Some(2)], pre, post) {
            Err(error) => assert_eq!(
                error.to_string(),
                "Failed to write audio file: The audio exceeds the size limit of a WAV file"
            ),
            Ok(_) => panic!("silence without end was padded"),
        }
    }
    let nothing = SilenceDuration::from_seconds_bits(f64::NAN.to_bits());
    let below = SilenceDuration::from_seconds_bits((-3.0f64).to_bits());
    let audio = add_silence_padding(&cd_spec(), &vec![Some(1), Some(2)], nothing, below).unwrap();
    assert_eq!(values(&audio.samples), vec![1, 2]);
}
