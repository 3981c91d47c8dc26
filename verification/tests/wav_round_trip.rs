use audioknife::audio::duration::SilenceDuration;
use audioknife::audio::silence_padding::{
    add_silence_padding, AudioStreamSpec, EncodedSample, PaddedAudio, SampleFormat,
};
use std::io::Cursor;

fn seconds(value: f64) -> SilenceDuration {
    SilenceDuration::from_f64_bits(value.to_bits()).unwrap()
}

fn container_spec(spec: &AudioStreamSpec) -> hound::WavSpec {
    hound::WavSpec {
        channels: spec.channels,
        sample_rate: spec.sample_rate,
        bits_per_sample: spec.bits_per_sample,
        sample_format: match spec.sample_format {
            SampleFormat::Int => hound::SampleFormat::Int,
            SampleFormat::Float => hound::SampleFormat::Float,
        },
    }
}

fn stream_spec(spec: hound::WavSpec) -> AudioStreamSpec {
    AudioStreamSpec {
        channels: spec.channels,
        sample_rate: spec.sample_rate,
        bits_per_sample: spec.bits_per_sample,
        sample_format: match spec.sample_format {
            hound::SampleFormat::Int => SampleFormat::Int,
            hound::SampleFormat::Float => SampleFormat::Float,
        },
    }
}

fn write_container(spec: &AudioStreamSpec, samples: &[i32]) -> Vec<u8> {
    let mut bytes = Cursor::new(Vec::new());
    let mut writer = hound::WavWriter::new(&mut bytes, container_spec(spec)).unwrap();
    for sample in samples {
        writer.write_sample(*sample).unwrap();
    }
    writer.finalize().unwrap();
    bytes.into_inner()
}

fn write_padded(audio: &PaddedAudio, spec: &AudioStreamSpec) -> Vec<u8> {
    let mut bytes = Cursor::new(Vec::new());
    let mut writer = hound::WavWriter::new(&mut bytes, container_spec(spec)).unwrap();
    for sample in audio.samples.iter() {
        match *sample {
            EncodedSample::Narrow8(value) => writer.write_sample(value).unwrap(),
            EncodedSample::Narrow16(value) => writer.write_sample(value).unwrap(),
            EncodedSample::Wide(value) => writer.write_sample(value).unwrap(),
        }
    }
    writer.finalize().unwrap();
    bytes.into_inner()
}

fn read_container(bytes: &[u8]) -> (AudioStreamSpec, Vec<Option<i32>>) {
    let mut reader = hound::WavReader::new(bytes).unwrap();
    let spec = stream_spec(reader.spec());
    let samples = reader.samples::<i32>().map(|sample| sample.ok()).collect();
    (spec, samples)
}

fn round_trip(bits_per_sample: u16, channels: u16, frames: &[i32], pre: f64, post: f64) {
    let spec = AudioStreamSpec {
        channels,
        sample_rate: 8000,
        bits_per_sample,
        sample_format: SampleFormat::Int,
    };
    let input = write_container(&spec, frames);
    let (read_spec, decoded) = read_container(&input);
    assert_eq!(read_spec, spec);
    let audio = add_silence_padding(&read_spec, &decoded, seconds(pre), seconds(post)).unwrap();
    let output = write_padded(&audio, &read_spec);
    let (written_spec, written) = read_container(&output);
    assert_eq!(written_spec, spec);
    let before = (pre * 8000.0).round() as usize * channels as usize;
    let after = (post * 8000.0).round() as usize * channels as usize;
    let mut expected: Vec<Option<i32>> = vec![Some(0); before];
    expected.extend(frames.iter().map(|sample| Some(*sample)));
    expected.extend(vec![Some(0); after]);
    assert_eq!(written, expected);
    assert_eq!(audio.info.total_samples as usize, expected.len());
    let reader = hound::WavReader::new(&output[..]).unwrap();
    assert_eq!(reader.len() as u64, audio.info.total_samples);
}

#[test]
fn padded_containers_hold_silence_then_the_input_then_silence() {
    round_trip(16, 2, &[1, -1, 32767, -32768, 100, -100], 0.001, 0.0005);
    round_trip(8, 1, &[127, -128, 0, 5], 0.002, 0.0);
    round_trip(24, 2, &[8_388_607, -8_388_608, 3, -3], 0.0, 0.001);
    round_trip(32, 3, &[i32::MAX, i32::MIN, 0, 1, 2, 3], 0.00025, 0.00025);
}

#[test]
fn unpadded_containers_are_the_same_byte_for_byte() {
    for (bits_per_sample, frames) in [
        (8u16, vec![1, 2, -3, 4]),
        (16, vec![1000, -1000, 7, -7]),
        (24, vec![100_000, -100_000, 0, 1]),
        (32, vec![i32::MAX, i32::MIN, 0, -1]),
    ] {
        let spec = AudioStreamSpec {
            channels: 2,
            sample_rate: 44100,
            bits_per_sample,
            sample_format: SampleFormat::Int,
        };
        let input = write_container(&spec, &frames);
        let (read_spec, decoded) = read_container(&input);
        let audio =
            add_silence_padding(&read_spec, &decoded, seconds(0.0), seconds(0.0)).unwrap();
        assert_eq!(write_padded(&audio, &read_spec), input);
    }
}

#[test]
fn float_containers_are_refused_before_anything_is_written() {
    let spec = hound::WavSpec {
        channels: 1,
        sample_rate: 8000,
        bits_per_sample: 32,
        sample_format: hound::SampleFormat::Float,
    };
    let mut bytes = Cursor::new(Vec::new());
    let mut writer = hound::WavWriter::new(&mut bytes, spec).unwrap();
    writer.write_sample(0.5f32).unwrap();
    writer.finalize().unwrap();
    let (read_spec, decoded) = read_container(&bytes.into_inner());
    assert_eq!(read_spec.sample_format, SampleFormat::Float);
    // Float samples do not decode as integers.
    assert_eq!(decoded, vec![None]);
    assert!(add_silence_padding(&read_spec, &decoded, seconds(1.0), seconds(1.0)).is_err());
}
