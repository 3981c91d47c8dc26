//! Output formats and the command lines that have the external transcoder
//! produce them.

use crate::audio::duration::SilenceDuration;
use crate::json::{
    json_count, json_document, json_items, json_member, json_text, member, parse_document,
};
use crate::strings::{lowercase_of, utf8_text};
use crate::text::{decimal, decimal_text, decimal_u32, parse_u32, push_word, words_of};
use vstd::prelude::*;
use vstd::utf8::{decode_utf8, valid_utf8};

verus! {

/// Why a conversion did not come about.
#[derive(Debug)]
pub enum FormatError {
    FfmpegNotFound,
    ConversionFailed(String),
    UnsupportedFormat(String),
    IoError(String),
}

impl FormatError {
    /// The text of the error: what failed, then the detail it carries.
    pub open spec fn text(self) -> Seq<char> {
        match self {
            FormatError::FfmpegNotFound => "FFmpeg not found"@,
            FormatError::ConversionFailed(detail) => "Conversion failed: "@ + detail@,
            FormatError::UnsupportedFormat(detail) => "Unsupported format: "@ + detail@,
            FormatError::IoError(detail) => "IO error: "@ + detail@,
        }
    }

    /// Renders the error for a reader.
    pub fn to_string(&self) -> (rendered: String)
        ensures
            rendered@ == self.text(),
    {
        match self {
            FormatError::FfmpegNotFound => String::from_str("FFmpeg not found"),
            FormatError::ConversionFailed(detail) => String::from_str(
                "Conversion failed: ",
            ).concat(detail.as_str()),
            FormatError::UnsupportedFormat(detail) => String::from_str(
                "Unsupported format: ",
            ).concat(detail.as_str()),
            FormatError::IoError(detail) => String::from_str("IO error: ").concat(
                detail.as_str(),
            ),
        }
    }
}

/// The formats that the transcoder is asked for.
#[derive(Debug, Clone, Copy, PartialEq, Eq, Structural)]
pub enum OutputFormat {
    Wav,
    /// 320 kbps
    Mp3High,
    /// 192 kbps
    Mp3Medium,
    /// 128 kbps
    Mp3Low,
    /// 256 kbps
    AacHigh,
    /// 192 kbps
    AacMedium,
    Flac,
    /// 192 kbps
    Ogg,
}

/// The texts of a list of string slices, in order.
pub open spec fn texts_of(items: Seq<&'static str>) -> Seq<Seq<char>> {
    Seq::new(items.len(), |i: int| items[i]@)
}

impl OutputFormat {
    /// The file extension of the format.
    pub open spec fn extension_of(self) -> Seq<char> {
        match self {
            OutputFormat::Wav => "wav"@,
            OutputFormat::Mp3High | OutputFormat::Mp3Medium | OutputFormat::Mp3Low => "mp3"@,
            OutputFormat::AacHigh | OutputFormat::AacMedium => "m4a"@,
            OutputFormat::Flac => "flac"@,
            OutputFormat::Ogg => "ogg"@,
        }
    }

    /// The codec of the format, as the transcoder names it.
    pub open spec fn codec_of(self) -> Seq<char> {
        match self {
            OutputFormat::Wav => "pcm_s16le"@,
            OutputFormat::Mp3High | OutputFormat::Mp3Medium | OutputFormat::Mp3Low => "libmp3lame"@,
            OutputFormat::AacHigh | OutputFormat::AacMedium => "aac"@,
            OutputFormat::Flac => "flac"@,
            OutputFormat::Ogg => "libvorbis"@,
        }
    }

    /// The bit rate of a lossy format, as the transcoder takes it.
    pub open spec fn bitrate_of(self) -> Option<Seq<char>> {
        match self {
            OutputFormat::Wav | OutputFormat::Flac => None,
            OutputFormat::Mp3High => Some("320k"@),
            OutputFormat::AacHigh => Some("256k"@),
            OutputFormat::Mp3Medium | OutputFormat::AacMedium | OutputFormat::Ogg => Some(
                "192k"@,
            ),
            OutputFormat::Mp3Low => Some("128k"@),
        }
    }

    /// The codec arguments of the format: the codec, and the bit rate
    /// where the format is lossy.
    pub open spec fn args_of(self) -> Seq<Seq<char>> {
        match self.bitrate_of() {
            None => seq!["-c:a"@, self.codec_of()],
            Some(bitrate) => seq!["-c:a"@, self.codec_of(), "-b:a"@, bitrate],
        }
    }

    /// The format that a name in lower case stands for: each format has
    /// a short name, and each lossy one a second that states its bit
    /// rate.
    pub open spec fn named(lower: Seq<char>) -> Option<OutputFormat> {
        if lower == "wav"@ {
            Some(OutputFormat::Wav)
        } else if lower == "mp3_high"@ || lower == "mp3 (320kbps)"@ {
            Some(OutputFormat::Mp3High)
        } else if lower == "mp3_medium"@ || lower == "mp3 (192kbps)"@ {
            Some(OutputFormat::Mp3Medium)
        } else if lower == "mp3_low"@ || lower == "mp3 (128kbps)"@ {
            Some(OutputFormat::Mp3Low)
        } else if lower == "aac_high"@ || lower == "aac (256kbps)"@ {
            Some(OutputFormat::AacHigh)
        } else if lower == "aac_medium"@ || lower == "aac (192kbps)"@ {
            Some(OutputFormat::AacMedium)
        } else if lower == "flac"@ {
            Some(OutputFormat::Flac)
        } else if lower == "ogg"@ || lower == "ogg (192kbps)"@ {
            Some(OutputFormat::Ogg)
        } else {
            None
        }
    }

    /// The short name of the format.
    pub open spec fn short_name_of(self) -> Seq<char> {
        match self {
            OutputFormat::Wav => "wav"@,
            OutputFormat::Mp3High => "mp3_high"@,
            OutputFormat::Mp3Medium => "mp3_medium"@,
            OutputFormat::Mp3Low => "mp3_low"@,
            OutputFormat::AacHigh => "aac_high"@,
            OutputFormat::AacMedium => "aac_medium"@,
            OutputFormat::Flac => "flac"@,
            OutputFormat::Ogg => "ogg"@,
        }
    }

    /// The name under which the format is offered for choice, in lower
    /// case: it states the bit rate of a lossy format.
    pub open spec fn label_of(self) -> Seq<char> {
        match self {
            OutputFormat::Wav => "wav"@,
            OutputFormat::Mp3High => "mp3 (320kbps)"@,
            OutputFormat::Mp3Medium => "mp3 (192kbps)"@,
            OutputFormat::Mp3Low => "mp3 (128kbps)"@,
            OutputFormat::AacHigh => "aac (256kbps)"@,
            OutputFormat::AacMedium => "aac (192kbps)"@,
            OutputFormat::Flac => "flac"@,
            OutputFormat::Ogg => "ogg (192kbps)"@,
        }
    }

    /// Whether `lower` is one of the names of a format.
    pub open spec fn is_format_name(lower: Seq<char>) -> bool {
        exists|format: OutputFormat|
            lower == #[trigger] format.short_name_of() || lower == format.label_of()
    }

    /// Each name of a format stands for that format and no other, and the
    /// format has codec arguments: the codec at least.
    pub proof fn lemma_names_find_their_format(format: OutputFormat)
        ensures
            Self::named(format.short_name_of()) == Some(format),
            Self::named(format.label_of()) == Some(format),
            format.args_of().len() >= 2,
            format.args_of()[0] == "-c:a"@,
            format.args_of()[1] == format.codec_of(),
    {
        Self::reveal_names();
    }

    /// The lookup finds a format for the names of the formats and for
    /// nothing else.
    pub proof fn lemma_lookup_knows_names_only(lower: Seq<char>)
        ensures
            Self::named(lower) is Some <==> Self::is_format_name(lower),
            Self::named(lower) matches Some(format) ==> lower == format.short_name_of() || lower
                == format.label_of(),
    {
        Self::reveal_names();
        if let Some(format) = Self::named(lower) {
            assert(lower == format.short_name_of() || lower == format.label_of());
        }
        if Self::is_format_name(lower) {
            let format = choose|format: OutputFormat|
                lower == #[trigger] format.short_name_of() || lower == format.label_of();
            Self::lemma_names_find_their_format(format);
        }
    }

    proof fn reveal_names()
        ensures
            "wav"@.len() == 3,
            "flac"@.len() == 4,
            "ogg"@.len() == 3 && "ogg"@[0] == 'o',
            "wav"@[0] == 'w',
            "mp3_high"@.len() == 8 && "mp3_high"@[0] == 'm',
            "aac_high"@.len() == 8 && "aac_high"@[0] == 'a',
            "mp3_medium"@.len() == 10 && "mp3_medium"@[0] == 'm',
            "aac_medium"@.len() == 10 && "aac_medium"@[0] == 'a',
            "mp3_low"@.len() == 7,
            "mp3 (320kbps)"@.len() == 13 && "mp3 (320kbps)"@[0] == 'm' && "mp3 (320kbps)"@[5]
                == '3',
            "mp3 (192kbps)"@.len() == 13 && "mp3 (192kbps)"@[0] == 'm' && "mp3 (192kbps)"@[5]
                == '1' && "mp3 (192kbps)"@[6] == '9',
            "mp3 (128kbps)"@.len() == 13 && "mp3 (128kbps)"@[0] == 'm' && "mp3 (128kbps)"@[5]
                == '1' && "mp3 (128kbps)"@[6] == '2',
            "aac (256kbps)"@.len() == 13 && "aac (256kbps)"@[0] == 'a' && "aac (256kbps)"@[5]
                == '2',
            "aac (192kbps)"@.len() == 13 && "aac (192kbps)"@[0] == 'a' && "aac (192kbps)"@[5]
                == '1',
            "ogg (192kbps)"@.len() == 13 && "ogg (192kbps)"@[0] == 'o',
    {
        reveal_strlit("wav");
        reveal_strlit("flac");
        reveal_strlit("ogg");
        reveal_strlit("mp3_high");
        reveal_strlit("aac_high");
        reveal_strlit("mp3_medium");
        reveal_strlit("aac_medium");
        reveal_strlit("mp3_low");
        reveal_strlit("mp3 (320kbps)");
        reveal_strlit("mp3 (192kbps)");
        reveal_strlit("mp3 (128kbps)");
        reveal_strlit("aac (256kbps)");
        reveal_strlit("aac (192kbps)");
        reveal_strlit("ogg (192kbps)");
    }

    /// Get file extension for the format.
    pub fn extension(&self) -> (extension: &'static str)
        ensures
            extension@ == self.extension_of(),
    {
        match self {
            OutputFormat::Wav => "wav",
            OutputFormat::Mp3High | OutputFormat::Mp3Medium | OutputFormat::Mp3Low => "mp3",
            OutputFormat::AacHigh | OutputFormat::AacMedium => "m4a",
            OutputFormat::Flac => "flac",
            OutputFormat::Ogg => "ogg",
        }
    }

    /// Get the transcoder's codec arguments for the format.
    pub fn ffmpeg_args(&self) -> (args: Vec<&'static str>)
        ensures
            texts_of(args@) == self.args_of(),
    {
        let args = match self {
            OutputFormat::Wav => vec!["-c:a", "pcm_s16le"],
            OutputFormat::Mp3High => vec!["-c:a", "libmp3lame", "-b:a", "320k"],
            OutputFormat::Mp3Medium => vec!["-c:a", "libmp3lame", "-b:a", "192k"],
            OutputFormat::Mp3Low => vec!["-c:a", "libmp3lame", "-b:a", "128k"],
            OutputFormat::AacHigh => vec!["-c:a", "aac", "-b:a", "256k"],
            OutputFormat::AacMedium => vec!["-c:a", "aac", "-b:a", "192k"],
            OutputFormat::Flac => vec!["-c:a", "flac"],
            OutputFormat::Ogg => vec!["-c:a", "libvorbis", "-b:a", "192k"],
        };
        assert(texts_of(args@) =~= self.args_of());
        args
    }

    /// Get the format that a name in lower case stands for.
    pub fn from_lowercase_name(lower: &str) -> (format: Option<Self>)
        ensures
            format == Self::named(lower@),
    {
        if lower.eq("wav") {
            Some(OutputFormat::Wav)
        } else if lower.eq("mp3_high") || lower.eq("mp3 (320kbps)") {
            Some(OutputFormat::Mp3High)
        } else if lower.eq("mp3_medium") || lower.eq("mp3 (192kbps)") {
            Some(OutputFormat::Mp3Medium)
        } else if lower.eq("mp3_low") || lower.eq("mp3 (128kbps)") {
            Some(OutputFormat::Mp3Low)
        } else if lower.eq("aac_high") || lower.eq("aac (256kbps)") {
            Some(OutputFormat::AacHigh)
        } else if lower.eq("aac_medium") || lower.eq("aac (192kbps)") {
            Some(OutputFormat::AacMedium)
        } else if lower.eq("flac") {
            Some(OutputFormat::Flac)
        } else if lower.eq("ogg") || lower.eq("ogg (192kbps)") {
            Some(OutputFormat::Ogg)
        } else {
            None
        }
    }

    /// Get format from string name, whatever the case of its letters.
    pub fn from_name(name: &str) -> (format: Option<Self>)
        ensures
            format == Self::named(lowercase_of(name@)),
    {
        let lower = name.to_lowercase();
        Self::from_lowercase_name(lower.as_str())
    }
}

/// The sample rate and the channel layout that are taken for a stream of
/// which the probe tells nothing.
pub open spec fn default_stream() -> (u32, Seq<char>) {
    (44100, "stereo"@)
}

/// The kind of a stream in a probe report: what stands under
/// `codec_type`, if it is a string.
pub open spec fn stream_kind(stream: serde_json::Value) -> Option<Seq<char>> {
    match json_member(stream, "codec_type"@) {
        Some(kind) => json_text(kind),
        None => None,
    }
}

/// The sample rate of a stream in a probe report: what stands under
/// `sample_rate`, if it is a string that writes a number.
pub open spec fn stream_sample_rate(stream: serde_json::Value) -> Option<u32> {
    match json_member(stream, "sample_rate"@) {
        Some(rate) => match json_text(rate) {
            Some(text) => decimal_u32(text),
            None => None,
        },
        None => None,
    }
}

/// The channel layout of a stream in a probe report: mono where what
/// stands under `channels` counts one channel in its low 32 bits, stereo
/// for any other value, and nothing where nothing stands there.
pub open spec fn stream_layout(stream: serde_json::Value) -> Option<Seq<char>> {
    match json_member(stream, "channels"@) {
        Some(channels) => match json_count(channels) {
            Some(count) => if count % 0x1_0000_0000 == 1 {
                Some("mono"@)
            } else {
                Some("stereo"@)
            },
            None => Some("stereo"@),
        },
        None => None,
    }
}

/// What a stream of kind audio tells: its sample rate and its channel
/// layout, if it states both.
pub open spec fn audio_stream_info(stream: serde_json::Value) -> Option<(u32, Seq<char>)> {
    match (stream_sample_rate(stream), stream_layout(stream)) {
        (Some(rate), Some(layout)) => Some((rate, layout)),
        _ => None,
    }
}

/// What the first audio stream of a list tells. A stream without a kind
/// ends the search with nothing, as does an audio stream that does not
/// state its sample rate and channels.
pub open spec fn first_audio_info(streams: Seq<serde_json::Value>) -> Option<(u32, Seq<char>)>
    decreases streams.len(),
{
    if streams.len() == 0 {
        None
    } else {
        match stream_kind(streams[0]) {
            None => None,
            Some(kind) => if kind == "audio"@ {
                audio_stream_info(streams[0])
            } else {
                first_audio_info(streams.subrange(1, streams.len() as int))
            },
        }
    }
}

/// What a probe report tells of the audio: what the first audio stream
/// in the array under `streams` tells.
pub open spec fn report_info(report: serde_json::Value) -> Option<(u32, Seq<char>)> {
    match json_member(report, "streams"@) {
        Some(streams) => match json_items(streams) {
            Some(items) => first_audio_info(items),
            None => None,
        },
        None => None,
    }
}

/// What the output of the probe tells of the audio: nothing unless it is
/// UTF-8 and the JSON notation of a report.
pub open spec fn probed_info(output: Seq<u8>) -> Option<(u32, Seq<char>)> {
    if !valid_utf8(output) {
        None
    } else {
        match json_document(decode_utf8(output)) {
            Some(report) => report_info(report),
            None => None,
        }
    }
}

/// Sample rate and channel layout with the layout as plain text.
pub open spec fn info_view(info: Option<(u32, String)>) -> Option<(u32, Seq<char>)> {
    match info {
        Some((rate, layout)) => Some((rate, layout@)),
        None => None,
    }
}

/// Reads sample rate and channel layout off one audio stream of a probe
/// report.
fn read_audio_stream(stream: &serde_json::Value) -> (info: Option<(u32, String)>)
    ensures
        info_view(info) == audio_stream_info(*stream),
{
    let rate = match member(stream, "sample_rate") {
        Some(rate) => match rate.as_str() {
            Some(text) => parse_u32(text),
            None => None,
        },
        None => None,
    };
    let sample_rate = match rate {
        Some(sample_rate) => sample_rate,
        None => {
            return None;
        },
    };
    match member(stream, "channels") {
        None => None,
        Some(channels) => {
            let mono = match channels.as_u64() {
                Some(count) => count % 0x1_0000_0000 == 1,
                None => false,
            };
            let layout = if mono {
                "mono"
            } else {
                "stereo"
            };
            Some((sample_rate, String::from_str(layout)))
        },
    }
}

/// Reads sample rate and channel layout off a probe report.
pub fn read_probe_report(report: &serde_json::Value) -> (info: Option<(u32, String)>)
    ensures
        info_view(info) == report_info(*report),
{
    let streams = match member(report, "streams") {
        Some(streams) => match streams.as_array() {
            Some(items) => items,
            None => {
                return None;
            },
        },
        None => {
            return None;
        },
    };
    let mut i: usize = 0;
    assert(streams@.subrange(0, streams@.len() as int) =~= streams@);
    while i < streams.len()
        invariant
            i <= streams.len(),
            report_info(*report) == first_audio_info(
                streams@.subrange(i as int, streams@.len() as int),
            ),
        decreases streams.len() - i,
    {
        let ghost rest = streams@.subrange(i as int, streams@.len() as int);
        assert(rest[0] == streams@[i as int]);
        assert(rest.subrange(1, rest.len() as int) =~= streams@.subrange(
            i + 1,
            streams@.len() as int,
        ));
        let kind = match member(&streams[i], "codec_type") {
            Some(kind) => kind.as_str(),
            None => None,
        };
        match kind {
            None => {
                return None;
            },
            Some(kind) => {
                if kind.eq("audio") {
                    return read_audio_stream(&streams[i]);
                }
            },
        }
        i = i + 1;
    }
    assert(streams@.subrange(i as int, streams@.len() as int) =~= Seq::empty());
    None
}

/// Parse audio info from the JSON output of the stream probe.
pub fn parse_audio_info(json_bytes: &[u8]) -> (info: Option<(u32, String)>)
    ensures
        info_view(info) == probed_info(json_bytes@),
{
    match utf8_text(json_bytes) {
        None => None,
        Some(text) => match parse_document(text) {
            Some(report) => read_probe_report(&report),
            None => None,
        },
    }
}

/// The arguments that name a file as an input of the transcoder.
pub open spec fn file_input(path: Seq<char>) -> Seq<Seq<char>> {
    seq!["-i"@, path]
}

/// The transcoder's source of silence at a sample rate and in a channel
/// layout.
pub open spec fn null_source(sample_rate: u32, layout: Seq<char>) -> Seq<char> {
    "anullsrc=r="@ + decimal(sample_rate as nat) + ":cl="@ + layout
}

/// The arguments that name silence of a duration, from a source of it,
/// as an input of the transcoder.
pub open spec fn silence_input(duration: Seq<char>, source: Seq<char>) -> Seq<Seq<char>> {
    seq!["-f"@, "lavfi"@, "-t"@, duration, "-i"@, source]
}

/// The arguments that have the transcoder play three inputs one after
/// another.
pub open spec fn join_three() -> Seq<Seq<char>> {
    seq!["-filter_complex"@, "[0:a][1:a][2:a]concat=n=3:v=0:a=1"@]
}

/// The arguments that have the transcoder play two inputs one after
/// another.
pub open spec fn join_two() -> Seq<Seq<char>> {
    seq!["-filter_complex"@, "[0:a][1:a]concat=n=2:v=0:a=1"@]
}

/// The inputs of a padded conversion, in playing order: silence before
/// the file where `pre_silence` gives its duration, the file, silence
/// after it where `post_silence` does; and, where there is silence, the
/// instruction to join them.
pub open spec fn padded_inputs(
    input_path: Seq<char>,
    pre_silence: Option<Seq<char>>,
    post_silence: Option<Seq<char>>,
    source: Seq<char>,
) -> Seq<Seq<char>> {
    match (pre_silence, post_silence) {
        (Some(pre), Some(post)) => silence_input(pre, source) + file_input(input_path)
            + silence_input(post, source) + join_three(),
        (Some(pre), None) => silence_input(pre, source) + file_input(input_path) + join_two(),
        (None, Some(post)) => file_input(input_path) + silence_input(post, source) + join_two(),
        (None, None) => file_input(input_path),
    }
}

/// The command line that converts a file: overwrite, the input, the
/// codec arguments of the format, the output.
pub open spec fn conversion_command(
    input_path: Seq<char>,
    output_file: Seq<char>,
    format: OutputFormat,
) -> Seq<Seq<char>> {
    seq!["-y"@] + file_input(input_path) + format.args_of() + seq![output_file]
}

/// The command line that pads a file with silence and converts it:
/// overwrite, the inputs, the codec arguments of the format, the output.
pub open spec fn padded_conversion_command(
    input_path: Seq<char>,
    output_file: Seq<char>,
    pre_silence: Option<Seq<char>>,
    post_silence: Option<Seq<char>>,
    stream: (u32, Seq<char>),
    format: OutputFormat,
) -> Seq<Seq<char>> {
    seq!["-y"@] + padded_inputs(
        input_path,
        pre_silence,
        post_silence,
        null_source(stream.0, stream.1),
    ) + format.args_of() + seq![output_file]
}

/// The silence that is asked for on one side: the seconds as the
/// transcoder reads them, where the duration is above zero, and no
/// silence where it is not.
pub open spec fn asked_silence(duration: SilenceDuration, seconds: Seq<char>) -> Option<
    Seq<char>,
> {
    if duration.mantissa > 0 {
        Some(seconds)
    } else {
        None
    }
}

/// What the probe printed, as plain bytes.
pub open spec fn output_view(probe_output: Option<&[u8]>) -> Option<Seq<u8>> {
    match probe_output {
        Some(output) => Some(output@),
        None => None,
    }
}

/// The sample rate and the channel layout that the silence is made
/// with: what the output of the probe tells of the stream, and the
/// default where the probe failed, be it that it could not be run or
/// that its output tells nothing.
pub open spec fn probed_stream(probe_output: Option<Seq<u8>>) -> (u32, Seq<char>) {
    match probe_output {
        Some(output) => match probed_info(output) {
            Some(stream) => stream,
            None => default_stream(),
        },
        None => default_stream(),
    }
}

fn push_file_input(args: &mut Vec<String>, path: &str)
    ensures
        words_of(final(args)@) == words_of(old(args)@) + file_input(path@),
{
    push_word(args, "-i");
    push_word(args, path);
    assert(words_of(args@) =~= words_of(old(args)@) + file_input(path@));
}

fn push_silence_input(args: &mut Vec<String>, duration: &str, source: &str)
    ensures
        words_of(final(args)@) == words_of(old(args)@) + silence_input(duration@, source@),
{
    push_word(args, "-f");
    push_word(args, "lavfi");
    push_word(args, "-t");
    push_word(args, duration);
    push_word(args, "-i");
    push_word(args, source);
    assert(words_of(args@) =~= words_of(old(args)@) + silence_input(duration@, source@));
}

fn push_codec_and_output(args: &mut Vec<String>, format: OutputFormat, output_file: &str)
    ensures
        words_of(final(args)@) == words_of(old(args)@) + format.args_of() + seq![output_file@],
{
    let codec = format.ffmpeg_args();
    let mut i: usize = 0;
    while i < codec.len()
        invariant
            i <= codec.len(),
            texts_of(codec@) == format.args_of(),
            words_of(args@) == words_of(old(args)@) + format.args_of().subrange(0, i as int),
        decreases codec.len() - i,
    {
        assert(texts_of(codec@)[i as int] == codec@[i as int]@);
        push_word(args, codec[i]);
        i = i + 1;
        assert(words_of(args@) =~= words_of(old(args)@) + format.args_of().subrange(
            0,
            i as int,
        ));
    }
    assert(format.args_of().subrange(0, i as int) =~= format.args_of());
    push_word(args, output_file);
    assert(words_of(args@) =~= words_of(old(args)@) + format.args_of() + seq![output_file@]);
}

/// Check if the transcoder is available: `probe` is whether its version
/// query succeeded, or nothing where the query could not be run.
pub fn check_ffmpeg(probe: Option<bool>) -> (available: bool)
    ensures
        available == (probe == Some(true)),
{
    match probe {
        Some(succeeded) => succeeded,
        None => false,
    }
}

/// Builds the command line that converts `input_path` to `format`.
/// `output_file` is the output path with the extension of the format.
/// Nothing is built where the transcoder is not available.
pub fn convert_format(
    ffmpeg_available: bool,
    input_path: &str,
    output_file: &str,
    format: OutputFormat,
) -> (command: Result<Vec<String>, FormatError>)
    ensures
        match command {
            Ok(args) => ffmpeg_available && words_of(args@) == conversion_command(
                input_path@,
                output_file@,
                format,
            ),
            Err(error) => !ffmpeg_available && error is FfmpegNotFound,
        },
{
    if !ffmpeg_available {
        return Err(FormatError::FfmpegNotFound);
    }
    let mut args: Vec<String> = Vec::new();
    push_word(&mut args, "-y");
    push_file_input(&mut args, input_path);
    push_codec_and_output(&mut args, format, output_file);
    assert(words_of(args@) =~= conversion_command(input_path@, output_file@, format));
    Ok(args)
}

/// Builds the command line that pads `input_path` with silence and
/// converts it to `format` in one run of the transcoder.
///
/// `pre_silence` and `post_silence` are the durations, and `pre_seconds`
/// and `post_seconds` the same in seconds as the transcoder reads them.
/// Silence is put on a side where its duration is above zero.
/// `probe_output` is
/// what the stream probe printed on the input, or nothing where the probe
/// could not be run; where the probe failed either way, the silence is
/// made at 44100 Hz in stereo. `output_file` is the output path with the
/// extension of the format. Nothing is built where the transcoder is not
/// available.
pub fn add_silence_and_convert(
    ffmpeg_available: bool,
    input_path: &str,
    output_file: &str,
    pre_silence: SilenceDuration,
    pre_seconds: &str,
    post_silence: SilenceDuration,
    post_seconds: &str,
    probe_output: Option<&[u8]>,
    format: OutputFormat,
) -> (command: Result<Vec<String>, FormatError>)
    ensures
        match command {
            Ok(args) => ffmpeg_available && words_of(args@) == padded_conversion_command(
                input_path@,
                output_file@,
                asked_silence(pre_silence, pre_seconds@),
                asked_silence(post_silence, post_seconds@),
                probed_stream(output_view(probe_output)),
                format,
            ),
            Err(error) => !ffmpeg_available && error is FfmpegNotFound,
        },
{
    if !ffmpeg_available {
        return Err(FormatError::FfmpegNotFound);
    }
    let probed = match probe_output {
        Some(output) => parse_audio_info(output),
        None => None,
    };
    let (sample_rate, layout) = match probed {
        Some((sample_rate, layout)) => (sample_rate, layout),
        None => (44100, String::from_str("stereo")),
    };
    let source = String::from_str("anullsrc=r=").concat(
        decimal_text(sample_rate as u64).as_str(),
    ).concat(":cl=").concat(layout.as_str());
    assert(source@ == null_source(sample_rate, layout@));
    let ghost inputs = padded_inputs(
        input_path@,
        asked_silence(pre_silence, pre_seconds@),
        asked_silence(post_silence, post_seconds@),
        source@,
    );
    let mut args: Vec<String> = Vec::new();
    push_word(&mut args, "-y");
    let before: Option<&str> = if pre_silence.mantissa > 0 {
        Some(pre_seconds)
    } else {
        None
    };
    let after: Option<&str> = if post_silence.mantissa > 0 {
        Some(post_seconds)
    } else {
        None
    };
    match (before, after) {
        (Some(pre), Some(post)) => {
            push_silence_input(&mut args, pre, source.as_str());
            push_file_input(&mut args, input_path);
            push_silence_input(&mut args, post, source.as_str());
            push_word(&mut args, "-filter_complex");
            push_word(&mut args, "[0:a][1:a][2:a]concat=n=3:v=0:a=1");
        },
        (Some(pre), None) => {
            push_silence_input(&mut args, pre, source.as_str());
            push_file_input(&mut args, input_path);
            push_word(&mut args, "-filter_complex");
            push_word(&mut args, "[0:a][1:a]concat=n=2:v=0:a=1");
        },
        (None, Some(post)) => {
            push_file_input(&mut args, input_path);
            push_silence_input(&mut args, post, source.as_str());
            push_word(&mut args, "-filter_complex");
            push_word(&mut args, "[0:a][1:a]concat=n=2:v=0:a=1");
        },
        (None, None) => {
            push_file_input(&mut args, input_path);
        },
    }
    assert(words_of(args@) =~= seq!["-y"@] + inputs);
    push_codec_and_output(&mut args, format, output_file);
    Ok(args)
}

/// Tells how a run of the transcoder ended: with the output file where
/// it succeeded, and with what it wrote to its error stream where it did
/// not.
pub fn conversion_result(succeeded: bool, output_file: &str, diagnostics: &str) -> (outcome:
    Result<String, FormatError>)
    ensures
        match outcome {
            Ok(path) => succeeded && path@ == output_file@,
            Err(error) => !succeeded && (error matches FormatError::ConversionFailed(detail)
                && detail@ == diagnostics@),
        },
{
    if succeeded {
        Ok(String::from_str(output_file))
    } else {
        Err(FormatError::ConversionFailed(String::from_str(diagnostics)))
    }
}

} // verus!
