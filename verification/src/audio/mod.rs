//! Audio processing: silence padding and format conversion.

pub mod duration;
pub mod format_converter;
pub mod silence_padding;

pub use duration::SilenceDuration;
pub use format_converter::{
    add_silence_and_convert, check_ffmpeg, conversion_result, convert_format, parse_audio_info,
    FormatError, OutputFormat,
};
pub use silence_padding::{
    add_silence_padding, batch_add_silence_padding, generate_silence_samples, get_audio_info,
    read_samples, write_samples, AudioInfo, AudioStreamSpec, DecodedAudio, EncodedSample,
    PaddedAudio, SampleFormat, SilencePaddingError,
};
