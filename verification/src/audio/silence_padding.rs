//! Silence padding of interleaved integer PCM samples.
//!
//! Opening and writing the container is left to the caller. This module
//! takes the header and the decoded samples of the input, and decides
//! everything between the two: whether the stream can be read as integer
//! samples, what a damaged sample counts as, how much silence goes on
//! either side, what the padded stream holds, whether a container can
//! take it, and how each sample is narrowed to the stream's bit depth for
//! writing.
//!
//! What each operation returns is stated by a function of the model:
//! [`read_outcome`] for [`read_samples`], [`write_outcome`] for
//! [`write_samples`], [`padding_outcome`] for [`add_silence_padding`], and
//! [`job_outcome`] for each slot of [`batch_add_silence_padding`]. The
//! laws of padding are proved of those functions further down.

use crate::audio::duration::{lemma_two_to_grows, two_to, SilenceDuration};
use crate::text::{decimal, decimal_text};
use vstd::arithmetic::div_mod::lemma_mod_multiples_vanish;
use vstd::prelude::*;

verus! {

/// Why a stream could not be padded.
#[derive(Debug)]
pub enum SilencePaddingError {
    ReadError(String),
    WriteError(String),
    UnsupportedFormat(String),
    IoError(String),
}

/// A `SilencePaddingError` with its detail as a plain sequence.
pub enum PaddingFault {
    Read(Seq<char>),
    Write(Seq<char>),
    Unsupported(Seq<char>),
    Io(Seq<char>),
}

impl PaddingFault {
    /// The text of the error: what failed, then the detail.
    pub open spec fn text(self) -> Seq<char> {
        match self {
            PaddingFault::Read(detail) => "Failed to read audio file: "@ + detail,
            PaddingFault::Write(detail) => "Failed to write audio file: "@ + detail,
            PaddingFault::Unsupported(detail) => "Unsupported audio format: "@ + detail,
            PaddingFault::Io(detail) => "IO error: "@ + detail,
        }
    }
}

impl View for SilencePaddingError {
    type V = PaddingFault;

    open spec fn view(&self) -> PaddingFault {
        match self {
            SilencePaddingError::ReadError(detail) => PaddingFault::Read(detail@),
            SilencePaddingError::WriteError(detail) => PaddingFault::Write(detail@),
            SilencePaddingError::UnsupportedFormat(detail) => PaddingFault::Unsupported(detail@),
            SilencePaddingError::IoError(detail) => PaddingFault::Io(detail@),
        }
    }
}

impl SilencePaddingError {
    /// Renders the error for a reader.
    pub fn to_string(&self) -> (rendered: String)
        ensures
            rendered@ == self@.text(),
    {
        match self {
            SilencePaddingError::ReadError(detail) => String::from_str(
                "Failed to read audio file: ",
            ).concat(detail.as_str()),
            SilencePaddingError::WriteError(detail) => String::from_str(
                "Failed to write audio file: ",
            ).concat(detail.as_str()),
            SilencePaddingError::UnsupportedFormat(detail) => String::from_str(
                "Unsupported audio format: ",
            ).concat(detail.as_str()),
            SilencePaddingError::IoError(detail) => String::from_str("IO error: ").concat(
                detail.as_str(),
            ),
        }
    }
}

/// Whether a container stores its samples as IEEE floats or as integers.
#[derive(Clone, Copy, Debug, PartialEq, Eq, Structural)]
pub enum SampleFormat {
    Float,
    Int,
}

/// The header fields of a PCM stream.
#[derive(Clone, Copy, Debug, PartialEq, Eq, Structural)]
pub struct AudioStreamSpec {
    pub channels: u16,
    pub sample_rate: u32,
    pub bits_per_sample: u16,
    pub sample_format: SampleFormat,
}

/// What is known of an audio file without looking at its samples.
#[derive(Clone, Copy, Debug, PartialEq, Eq, Structural)]
pub struct AudioInfo {
    pub sample_rate: u32,
    pub channels: u16,
    pub bits_per_sample: u16,
    pub total_samples: u64,
}

impl AudioInfo {
    /// The playing time in microseconds, rounded down: the samples shared
    /// out over the channels and played at the sample rate. A stream
    /// without channels or with no sample rate has no playing time.
    pub open spec fn micros(self) -> Option<nat> {
        if self.sample_rate == 0 || self.channels == 0 {
            None
        } else {
            Some(((self.total_samples * 1_000_000) / (self.sample_rate * self.channels)) as nat)
        }
    }

    /// Computes the playing time in microseconds.
    pub fn duration_micros(&self) -> (duration: Option<u128>)
        ensures
            match duration {
                Some(micros) => self.micros() == Some(micros as nat),
                None => self.micros() is None,
            },
    {
        if self.sample_rate == 0 || self.channels == 0 {
            None
        } else {
            let scaled: u128 = (self.total_samples as u128) * 1_000_000;
            assert(self.sample_rate * self.channels <= 0xFFFF_FFFF * 0xFFFF) by (nonlinear_arith)
                requires
                    self.sample_rate <= 0xFFFF_FFFF,
                    self.channels <= 0xFFFF,
            ;
            assert(self.sample_rate * self.channels >= 1) by (nonlinear_arith)
                requires
                    self.sample_rate >= 1,
                    self.channels >= 1,
            ;
            let per_second: u128 = (self.sample_rate as u128) * (self.channels as u128);
            Some(scaled / per_second)
        }
    }
}

/// A sample as the container takes it at one of its bit depths.
#[derive(Clone, Copy, Debug, PartialEq, Eq, Structural)]
pub enum EncodedSample {
    Narrow8(i8),
    Narrow16(i16),
    Wide(i32),
}

/// The padded stream, ready for writing, and the description of it.
#[derive(Debug)]
pub struct PaddedAudio {
    pub samples: Vec<EncodedSample>,
    pub info: AudioInfo,
}

impl View for PaddedAudio {
    type V = (Seq<EncodedSample>, AudioInfo);

    open spec fn view(&self) -> (Seq<EncodedSample>, AudioInfo) {
        (self.samples@, self.info)
    }
}

/// What was read of an audio file: its header and its samples in order,
/// each as far as it could be decoded.
#[derive(Debug)]
pub struct DecodedAudio {
    pub spec: AudioStreamSpec,
    pub samples: Vec<Option<i32>>,
}

/// The sample data that a container with the plain header holds, in
/// bytes: what the 32-bit size in the header counts beyond the 36 bytes
/// of the header that it counts too.
pub const MAX_PLAIN_DATA_BYTES: u64 = 4_294_967_259;

/// The sample data that a container with the extensible header holds, in
/// bytes: the header takes 60 bytes of what the size counts.
pub const MAX_EXTENSIBLE_DATA_BYTES: u64 = 4_294_967_235;

/// A run of `n` zero-valued samples.
pub open spec fn silence(n: nat) -> Seq<i32> {
    Seq::new(n, |i: int| 0i32)
}

/// The number of samples in the silence of length `duration` for a stream
/// with header `spec`: one per channel for each frame.
pub open spec fn silence_len(spec: AudioStreamSpec, duration: SilenceDuration) -> nat {
    duration.frames_at(spec.sample_rate) * (spec.channels as nat)
}

/// What a decoded sample counts as: itself, or silence where it could not
/// be decoded.
pub open spec fn sample_or_silence(decoded: Option<i32>) -> i32 {
    match decoded {
        Some(sample) => sample,
        None => 0,
    }
}

/// The samples of a stream of which `decoded` is what could be decoded.
pub open spec fn recovered(decoded: Seq<Option<i32>>) -> Seq<i32> {
    Seq::new(decoded.len(), |i: int| sample_or_silence(decoded[i]))
}

/// The stream `samples` between `pre` samples of silence and `post`
/// samples of silence.
pub open spec fn padded(samples: Seq<i32>, pre: nat, post: nat) -> Seq<i32> {
    silence(pre) + samples + silence(post)
}

/// The stream `samples` of a file with header `spec` between the silence
/// of length `pre_silence` and the silence of length `post_silence`.
pub open spec fn padded_stream(
    spec: AudioStreamSpec,
    samples: Seq<i32>,
    pre_silence: SilenceDuration,
    post_silence: SilenceDuration,
) -> Seq<i32> {
    padded(samples, silence_len(spec, pre_silence), silence_len(spec, post_silence))
}

/// Whether the sample count `len` is a whole number of frames.
pub open spec fn is_framed(len: nat, channels: u16) -> bool {
    channels > 0 && len % (channels as nat) == 0
}

/// Whether a container can be written at `bits` bits per sample.
pub open spec fn is_supported_depth(bits: u16) -> bool {
    bits == 8 || bits == 16 || bits == 24 || bits == 32
}

/// The low eight bits of `sample`, read as a signed number.
pub open spec fn wrap8(sample: i32) -> i8 {
    ((sample + 128) % 256 - 128) as i8
}

/// The low sixteen bits of `sample`, read as a signed number.
pub open spec fn wrap16(sample: i32) -> i16 {
    ((sample + 32768) % 65536 - 32768) as i16
}

/// A sample narrowed to `bits` bits per sample: cut to its low bits at 8
/// and 16, whole at 24 and 32.
pub open spec fn narrowed(bits: u16, sample: i32) -> EncodedSample {
    if bits == 8 {
        EncodedSample::Narrow8(wrap8(sample))
    } else if bits == 16 {
        EncodedSample::Narrow16(wrap16(sample))
    } else {
        EncodedSample::Wide(sample)
    }
}

/// Each sample of a stream narrowed to `bits` bits per sample.
pub open spec fn encoded(bits: u16, samples: Seq<i32>) -> Seq<EncodedSample> {
    Seq::new(samples.len(), |i: int| narrowed(bits, samples[i]))
}

/// The number that an encoded sample stands for.
pub open spec fn sample_value(sample: EncodedSample) -> int {
    match sample {
        EncodedSample::Narrow8(value) => value as int,
        EncodedSample::Narrow16(value) => value as int,
        EncodedSample::Wide(value) => value as int,
    }
}

/// Whether `sample` can be written at `bits` bits per sample as it is.
pub open spec fn is_in_range(bits: u16, sample: i32) -> bool {
    if bits == 8 {
        -128 <= sample <= 127
    } else if bits == 16 {
        -32768 <= sample <= 32767
    } else {
        true
    }
}

/// Whether a header can state the stream: some channels, a sample rate
/// above zero, and a byte rate that fits the header's field for it.
pub open spec fn is_encodable(spec: AudioStreamSpec) -> bool {
    &&& spec.channels > 0
    &&& spec.sample_rate > 0
    &&& spec.sample_rate * (spec.bits_per_sample / 8) * spec.channels <= u32::MAX
}

/// Whether the stream is written under the plain header: it is, with
/// one or two channels of at most 16 bits; any other stream takes the
/// extensible header, which is longer.
pub open spec fn takes_plain_header(spec: AudioStreamSpec) -> bool {
    spec.channels <= 2 && spec.bits_per_sample <= 16
}

/// The sample data that a container of the stream holds, in bytes.
pub open spec fn max_data_bytes(spec: AudioStreamSpec) -> nat {
    if takes_plain_header(spec) {
        MAX_PLAIN_DATA_BYTES as nat
    } else {
        MAX_EXTENSIBLE_DATA_BYTES as nat
    }
}

/// Whether `len` samples of the stream fit a container.
pub open spec fn fits_container(spec: AudioStreamSpec, len: nat) -> bool {
    len * (spec.bits_per_sample / 8) <= max_data_bytes(spec)
}

/// The description of a stream with header `spec` that holds `len`
/// samples.
pub open spec fn info_of(spec: AudioStreamSpec, len: nat) -> AudioInfo {
    AudioInfo {
        sample_rate: spec.sample_rate,
        channels: spec.channels,
        bits_per_sample: spec.bits_per_sample,
        total_samples: len as u64,
    }
}

/// What reading a stream gives: its samples, with silence in place of
/// each that could not be decoded; or, where the samples are not
/// integers, an unsupported format.
pub open spec fn read_outcome(spec: AudioStreamSpec, decoded: Seq<Option<i32>>) -> Result<
    Seq<i32>,
    PaddingFault,
> {
    if spec.sample_format == SampleFormat::Int {
        Ok(recovered(decoded))
    } else {
        Err(PaddingFault::Unsupported("Only integer sample format is supported"@))
    }
}

/// What stands against writing a stream at all, whatever its length: a
/// bit depth that is none of 8, 16, 24 and 32, which is an unsupported
/// format that names the depth, or else a header that cannot state the
/// stream.
pub open spec fn header_fault(spec: AudioStreamSpec) -> Option<PaddingFault> {
    if !is_supported_depth(spec.bits_per_sample) {
        Some(
            PaddingFault::Unsupported(
                "Unsupported bits per sample: "@ + decimal(spec.bits_per_sample as nat),
            ),
        )
    } else if !is_encodable(spec) {
        Some(PaddingFault::Write("The stream parameters do not fit a WAV header"@))
    } else {
        None
    }
}

/// What stands against writing a stream of `len` samples: what stands
/// against its header, or else more samples than a container holds.
pub open spec fn write_fault(spec: AudioStreamSpec, len: nat) -> Option<PaddingFault> {
    match header_fault(spec) {
        Some(fault) => Some(fault),
        None => if fits_container(spec, len) {
            None
        } else {
            Some(PaddingFault::Write("The audio exceeds the size limit of a WAV file"@))
        },
    }
}

/// What writing a stream gives: each sample narrowed to the bit depth,
/// unless something stands against writing it.
pub open spec fn write_outcome(spec: AudioStreamSpec, samples: Seq<i32>) -> Result<
    Seq<EncodedSample>,
    PaddingFault,
> {
    match write_fault(spec, samples.len()) {
        Some(fault) => Err(fault),
        None => Ok(encoded(spec.bits_per_sample, samples)),
    }
}

/// What padding a stream gives: the stream is read, put between the
/// silence before and the silence after, and written under the header it
/// came with; the description is that of what was written.
pub open spec fn padding_outcome(
    spec: AudioStreamSpec,
    decoded: Seq<Option<i32>>,
    pre_silence: SilenceDuration,
    post_silence: SilenceDuration,
) -> Result<(Seq<EncodedSample>, AudioInfo), PaddingFault> {
    match read_outcome(spec, decoded) {
        Err(fault) => Err(fault),
        Ok(samples) => {
            let whole = padded_stream(spec, samples, pre_silence, post_silence);
            match write_outcome(spec, whole) {
                Err(fault) => Err(fault),
                Ok(laid_out) => Ok((laid_out, info_of(spec, whole.len()))),
            }
        },
    }
}

/// What a job of a batch gives: the padded stream where the file was
/// read and could be padded, and else the text of the error, be it from
/// the reading or from the padding. Nothing of another job enters.
pub open spec fn job_outcome(
    file: Result<DecodedAudio, SilencePaddingError>,
    pre_silence: SilenceDuration,
    post_silence: SilenceDuration,
) -> Result<(Seq<EncodedSample>, AudioInfo), Seq<char>> {
    match file {
        Err(error) => Err(error@.text()),
        Ok(audio) => match padding_outcome(audio.spec, audio.samples@, pre_silence, post_silence) {
            Ok(padded_audio) => Ok(padded_audio),
            Err(fault) => Err(fault.text()),
        },
    }
}

/// The result of a read with its error as a plain value.
pub open spec fn read_view(outcome: Result<Vec<i32>, SilencePaddingError>) -> Result<
    Seq<i32>,
    PaddingFault,
> {
    match outcome {
        Ok(samples) => Ok(samples@),
        Err(error) => Err(error@),
    }
}

/// The result of a write with its error as a plain value.
pub open spec fn write_view(outcome: Result<Vec<EncodedSample>, SilencePaddingError>) -> Result<
    Seq<EncodedSample>,
    PaddingFault,
> {
    match outcome {
        Ok(samples) => Ok(samples@),
        Err(error) => Err(error@),
    }
}

/// The result of a padding with its parts as plain values.
pub open spec fn padding_view(outcome: Result<PaddedAudio, SilencePaddingError>) -> Result<
    (Seq<EncodedSample>, AudioInfo),
    PaddingFault,
> {
    match outcome {
        Ok(audio) => Ok(audio@),
        Err(error) => Err(error@),
    }
}

/// The result of a job with its parts as plain values.
pub open spec fn job_view(outcome: Result<PaddedAudio, String>) -> Result<
    (Seq<EncodedSample>, AudioInfo),
    Seq<char>,
> {
    match outcome {
        Ok(audio) => Ok(audio@),
        Err(message) => Err(message@),
    }
}

/// Narrowing keeps every sample that is within the range of the bit
/// depth, silence among them.
pub proof fn lemma_narrowing_keeps_in_range(bits: u16, sample: i32)
    requires
        is_in_range(bits, sample),
    ensures
        sample_value(narrowed(bits, sample)) == sample,
        sample_value(narrowed(bits, 0)) == 0,
{
}

/// A duration of zero seconds spans no frame and asks for no silence,
/// whatever power of two it is written with.
pub proof fn lemma_zero_duration_is_empty(spec: AudioStreamSpec, duration: SilenceDuration)
    requires
        duration.mantissa == 0,
    ensures
        duration.frames_at(spec.sample_rate) == 0,
        silence_len(spec, duration) == 0,
{
    assert(0 * spec.sample_rate == 0) by (nonlinear_arith);
    if duration.exponent >= 0 {
        assert(0 * two_to(duration.exponent as nat) == 0) by (nonlinear_arith);
    } else {
        let unit = two_to((-duration.exponent) as nat);
        lemma_two_to_grows(0, (-duration.exponent) as nat);
        assert((2 * 0 + unit as int) / (2 * unit as int) == 0) by (nonlinear_arith)
            requires
                unit >= 1,
        ;
    }
    assert(0 * (spec.channels as nat) == 0) by (nonlinear_arith);
}

/// A padded file holds as many samples as the silence before, the input
/// and the silence after have together, where the silence on a side is
/// the duration times the sample rate, rounded, times the channels. Its
/// description says so, and keeps the header of the input.
pub proof fn lemma_padded_sample_count(
    spec: AudioStreamSpec,
    decoded: Seq<Option<i32>>,
    pre_silence: SilenceDuration,
    post_silence: SilenceDuration,
)
    requires
        padding_outcome(spec, decoded, pre_silence, post_silence) is Ok,
    ensures
        ({
            let (samples, info) = padding_outcome(spec, decoded, pre_silence, post_silence)->Ok_0;
            let total = pre_silence.frames_at(spec.sample_rate) * spec.channels + decoded.len()
                + post_silence.frames_at(spec.sample_rate) * spec.channels;
            &&& samples.len() == total
            &&& info.total_samples == total
            &&& info.sample_rate == spec.sample_rate
            &&& info.channels == spec.channels
            &&& info.bits_per_sample == spec.bits_per_sample
        }),
{
    let whole = padded_stream(spec, recovered(decoded), pre_silence, post_silence);
    assert(fits_container(spec, whole.len()));
    assert(whole.len() * (spec.bits_per_sample / 8) >= whole.len()) by (nonlinear_arith)
        requires
            spec.bits_per_sample / 8 >= 1,
    ;
}

/// Success is owed to a copy: padding with no time on either side
/// succeeds for every stream of integer samples at a supported depth
/// that a header can state and a container holds.
pub proof fn lemma_zero_padding_succeeds(
    spec: AudioStreamSpec,
    decoded: Seq<Option<i32>>,
    pre_silence: SilenceDuration,
    post_silence: SilenceDuration,
)
    requires
        pre_silence.mantissa == 0,
        post_silence.mantissa == 0,
        spec.sample_format == SampleFormat::Int,
        is_supported_depth(spec.bits_per_sample),
        is_encodable(spec),
        fits_container(spec, decoded.len()),
    ensures
        padding_outcome(spec, decoded, pre_silence, post_silence) is Ok,
{
    lemma_zero_duration_is_empty(spec, pre_silence);
    lemma_zero_duration_is_empty(spec, post_silence);
    assert(padded(recovered(decoded), 0, 0) =~= recovered(decoded));
}

/// Silence without end is never written: padding with the endless
/// duration on either side is refused, whatever the stream.
pub proof fn lemma_endless_padding_is_refused(
    spec: AudioStreamSpec,
    decoded: Seq<Option<i32>>,
    other: SilenceDuration,
)
    ensures
        padding_outcome(spec, decoded, SilenceDuration::endless_duration(), other) is Err,
        padding_outcome(spec, decoded, other, SilenceDuration::endless_duration()) is Err,
{
    if spec.sample_format == SampleFormat::Int && header_fault(spec) is None {
        SilenceDuration::lemma_endless_is_beyond_counting(spec.sample_rate);
        let endless = SilenceDuration::endless_duration();
        let frames = endless.frames_at(spec.sample_rate);
        let quiet = silence_len(spec, endless);
        assert(quiet >= 0xFFFF_FFFF_FFFF_FFFF) by (nonlinear_arith)
            requires
                quiet == frames * (spec.channels as nat),
                frames >= 0xFFFF_FFFF_FFFF_FFFF,
                spec.channels >= 1,
        ;
        let width = (spec.bits_per_sample / 8) as nat;
        let before = padded_stream(spec, recovered(decoded), endless, other).len();
        let after = padded_stream(spec, recovered(decoded), other, endless).len();
        assert(before * width >= before) by (nonlinear_arith)
            requires
                width >= 1,
        ;
        assert(after * width >= after) by (nonlinear_arith)
            requires
                width >= 1,
        ;
    }
}

/// Padding with no time on either side gives the stream back: the padded
/// file holds the samples of the input, one for one and in order, under
/// the header of the input. Each sample that is within the range of the
/// bit depth is written with its own value.
pub proof fn lemma_zero_padding_is_identity(
    spec: AudioStreamSpec,
    decoded: Seq<Option<i32>>,
    pre_silence: SilenceDuration,
    post_silence: SilenceDuration,
)
    requires
        pre_silence.mantissa == 0,
        post_silence.mantissa == 0,
        padding_outcome(spec, decoded, pre_silence, post_silence) is Ok,
    ensures
        padded_stream(spec, recovered(decoded), pre_silence, post_silence) == recovered(decoded),
        padding_outcome(spec, decoded, pre_silence, post_silence) == Ok::<
            (Seq<EncodedSample>, AudioInfo),
            PaddingFault,
        >((encoded(spec.bits_per_sample, recovered(decoded)), info_of(spec, decoded.len()))),
        forall|i: int|
            0 <= i < decoded.len() && is_in_range(spec.bits_per_sample, recovered(decoded)[i])
                ==> sample_value(
                #[trigger] encoded(spec.bits_per_sample, recovered(decoded))[i],
            ) == recovered(decoded)[i],
{
    lemma_zero_duration_is_empty(spec, pre_silence);
    lemma_zero_duration_is_empty(spec, post_silence);
    assert(padded(recovered(decoded), 0, 0) =~= recovered(decoded));
}

/// Padding keeps the order: the padded stream opens with `pre` zeros,
/// closes with `post` zeros, and holds the input unchanged between them.
pub proof fn lemma_padding_is_order_exact(samples: Seq<i32>, pre: nat, post: nat)
    ensures
        padded(samples, pre, post).len() == pre + samples.len() + post,
        forall|i: int| 0 <= i < pre ==> #[trigger] padded(samples, pre, post)[i] == 0,
        forall|i: int|
            0 <= i < samples.len() ==> #[trigger] padded(samples, pre, post)[pre + i]
                == samples[i],
        forall|i: int|
            pre + samples.len() <= i < pre + samples.len() + post ==> #[trigger] padded(
                samples,
                pre,
                post,
            )[i] == 0,
{
}

/// A padded file is order-exact as it is written: it opens with as many
/// zeros as the silence before has samples, closes with as many zeros as
/// the silence after has, and holds between them each sample of the
/// input, narrowed to the bit depth.
pub proof fn lemma_padded_file_is_order_exact(
    spec: AudioStreamSpec,
    decoded: Seq<Option<i32>>,
    pre_silence: SilenceDuration,
    post_silence: SilenceDuration,
)
    requires
        padding_outcome(spec, decoded, pre_silence, post_silence) is Ok,
    ensures
        ({
            let samples = padding_outcome(spec, decoded, pre_silence, post_silence)->Ok_0.0;
            let pre = silence_len(spec, pre_silence);
            let post = silence_len(spec, post_silence);
            &&& samples.len() == pre + decoded.len() + post
            &&& forall|i: int| 0 <= i < pre ==> sample_value(#[trigger] samples[i]) == 0
            &&& forall|i: int|
                0 <= i < decoded.len() ==> #[trigger] samples[pre + i] == narrowed(
                    spec.bits_per_sample,
                    sample_or_silence(decoded[i]),
                )
            &&& forall|i: int|
                pre + decoded.len() <= i < samples.len() ==> sample_value(#[trigger] samples[i])
                    == 0
        }),
{
    lemma_padding_is_order_exact(
        recovered(decoded),
        silence_len(spec, pre_silence),
        silence_len(spec, post_silence),
    );
}

/// Padding adds whole frames only: a stream of whole frames stays one.
pub proof fn lemma_padding_keeps_frames(
    spec: AudioStreamSpec,
    samples: Seq<i32>,
    pre_silence: SilenceDuration,
    post_silence: SilenceDuration,
)
    requires
        is_framed(samples.len(), spec.channels),
    ensures
        is_framed(padded_stream(spec, samples, pre_silence, post_silence).len(), spec.channels),
{
    let channels = spec.channels as nat;
    let pre = pre_silence.frames_at(spec.sample_rate);
    let post = post_silence.frames_at(spec.sample_rate);
    assert(pre * channels + samples.len() + post * channels == channels * (pre + post)
        + samples.len()) by (nonlinear_arith);
    lemma_mod_multiples_vanish((pre + post) as int, samples.len() as int, channels as int);
}

/// A bit depth that is not supported is refused as an unsupported format
/// that names the depth, whatever is to be written and however long it
/// is; and with it every padding of integer samples at that depth.
pub proof fn lemma_unsupported_depth_is_refused(
    spec: AudioStreamSpec,
    decoded: Seq<Option<i32>>,
    pre_silence: SilenceDuration,
    post_silence: SilenceDuration,
)
    requires
        !is_supported_depth(spec.bits_per_sample),
    ensures
        forall|samples: Seq<i32>| #[trigger]
            write_outcome(spec, samples) == Err::<Seq<EncodedSample>, PaddingFault>(
                PaddingFault::Unsupported(
                    "Unsupported bits per sample: "@ + decimal(spec.bits_per_sample as nat),
                ),
            ),
        padding_outcome(spec, decoded, pre_silence, post_silence) matches Err(
            PaddingFault::Unsupported(_),
        ),
{
}

/// Describes a stream with header `spec` that holds `total_samples`
/// samples.
pub fn get_audio_info(spec: &AudioStreamSpec, total_samples: u64) -> (info: AudioInfo)
    ensures
        info == info_of(*spec, total_samples as nat),
{
    AudioInfo {
        sample_rate: spec.sample_rate,
        channels: spec.channels,
        bits_per_sample: spec.bits_per_sample,
        total_samples,
    }
}

/// Counts the samples of the silence of length `duration` for a stream
/// with header `spec`, unless they are more than `limit`.
pub fn count_silence_samples(spec: &AudioStreamSpec, duration: SilenceDuration, limit: u64) -> (count:
    Option<u64>)
    ensures
        match count {
            Some(n) => n == silence_len(*spec, duration) && n <= limit,
            None => silence_len(*spec, duration) > limit,
        },
{
    let ghost frames = duration.frames_at(spec.sample_rate);
    if spec.channels == 0 {
        assert(frames * 0 == 0) by (nonlinear_arith);
        return Some(0);
    }
    match duration.frames(spec.sample_rate) {
        None => {
            assert(frames * (spec.channels as nat) >= frames) by (nonlinear_arith)
                requires
                    spec.channels >= 1,
            ;
            None
        },
        Some(counted) => {
            assert(counted * spec.channels <= 0xFFFF_FFFF_FFFF_FFFF * 0xFFFF) by (nonlinear_arith)
                requires
                    counted <= 0xFFFF_FFFF_FFFF_FFFF,
                    spec.channels <= 0xFFFF,
            ;
            let samples: u128 = (counted as u128) * (spec.channels as u128);
            if samples > limit as u128 {
                None
            } else {
                Some(samples as u64)
            }
        },
    }
}

/// Generates the silence of length `duration` for a stream with header
/// `spec`.
pub fn generate_silence_samples(spec: &AudioStreamSpec, duration: SilenceDuration) -> (samples:
    Vec<i32>)
    requires
        silence_len(*spec, duration) <= usize::MAX,
    ensures
        samples@ == silence(silence_len(*spec, duration)),
{
    let count = count_silence_samples(spec, duration, u64::MAX);
    let samples = vec![0i32; count.unwrap() as usize];
    assert(samples@ =~= silence(silence_len(*spec, duration)));
    samples
}

/// Takes each sample that could not be decoded for silence, so that one
/// damaged sample does not cost the rest of a recording.
pub fn recover_samples(decoded: &Vec<Option<i32>>) -> (samples: Vec<i32>)
    ensures
        samples@ == recovered(decoded@),
{
    let mut samples: Vec<i32> = Vec::with_capacity(decoded.len());
    let mut i: usize = 0;
    while i < decoded.len()
        invariant
            i <= decoded.len(),
            samples@ == recovered(decoded@).subrange(0, i as int),
        decreases decoded.len() - i,
    {
        let sample = match decoded[i] {
            Some(sample) => sample,
            None => 0,
        };
        samples.push(sample);
        i = i + 1;
        assert(samples@ =~= recovered(decoded@).subrange(0, i as int));
    }
    assert(samples@ =~= recovered(decoded@));
    samples
}

/// Reads the samples of a stream off what was decoded of it. The samples
/// must be integers. A sample that could not be decoded is read as
/// silence: the loss is not reported.
pub fn read_samples(spec: &AudioStreamSpec, decoded: &Vec<Option<i32>>) -> (outcome: Result<
    Vec<i32>,
    SilencePaddingError,
>)
    ensures
        read_view(outcome) == read_outcome(*spec, decoded@),
{
    if spec.sample_format != SampleFormat::Int {
        return Err(
            SilencePaddingError::UnsupportedFormat(
                String::from_str("Only integer sample format is supported"),
            ),
        );
    }
    Ok(recover_samples(decoded))
}

/// Narrows a sample to `bits` bits per sample.
pub fn narrow_sample(bits: u16, sample: i32) -> (narrow: EncodedSample)
    ensures
        narrow == narrowed(bits, sample),
{
    if bits == 8 {
        assert(sample as i8 == (((sample + 128i32) as int % 256) - 128) as i8) by (bit_vector);
        EncodedSample::Narrow8(#[verifier::truncate] (sample as i8))
    } else if bits == 16 {
        assert(sample as i16 == (((sample + 32768i32) as int % 65536) - 32768) as i16)
            by (bit_vector);
        EncodedSample::Narrow16(#[verifier::truncate] (sample as i16))
    } else {
        EncodedSample::Wide(sample)
    }
}

/// Narrows each sample of a stream to `bits` bits per sample.
pub fn encode_samples(bits: u16, samples: &Vec<i32>) -> (laid_out: Vec<EncodedSample>)
    ensures
        laid_out@ == encoded(bits, samples@),
{
    let mut laid_out: Vec<EncodedSample> = Vec::with_capacity(samples.len());
    let mut i: usize = 0;
    while i < samples.len()
        invariant
            i <= samples.len(),
            laid_out@ == encoded(bits, samples@).subrange(0, i as int),
        decreases samples.len() - i,
    {
        laid_out.push(narrow_sample(bits, samples[i]));
        i = i + 1;
        assert(laid_out@ =~= encoded(bits, samples@).subrange(0, i as int));
    }
    assert(laid_out@ =~= encoded(bits, samples@));
    laid_out
}

/// Whether a header can state the stream.
pub fn check_encodable(spec: &AudioStreamSpec) -> (encodable: bool)
    ensures
        encodable == is_encodable(*spec),
{
    if spec.channels == 0 || spec.sample_rate == 0 {
        return false;
    }
    let width: u64 = (spec.bits_per_sample / 8) as u64;
    assert(spec.sample_rate * width * spec.channels <= 0xFFFF_FFFF * 0x1FFF * 0xFFFF)
        by (nonlinear_arith)
        requires
            spec.sample_rate <= 0xFFFF_FFFF,
            width <= 0x1FFF,
            spec.channels <= 0xFFFF,
    ;
    assert(spec.sample_rate * width <= 0xFFFF_FFFF * 0x1FFF) by (nonlinear_arith)
        requires
            spec.sample_rate <= 0xFFFF_FFFF,
            width <= 0x1FFF,
    ;
    let byte_rate: u64 = (spec.sample_rate as u64) * width * (spec.channels as u64);
    byte_rate <= 0xFFFF_FFFF
}

/// Finds what stands against writing a stream with header `spec`,
/// whatever its length.
fn find_header_fault(spec: &AudioStreamSpec) -> (fault: Option<SilencePaddingError>)
    ensures
        match fault {
            Some(error) => header_fault(*spec) == Some(error@),
            None => header_fault(*spec) is None,
        },
{
    let bits = spec.bits_per_sample;
    if !(bits == 8 || bits == 16 || bits == 24 || bits == 32) {
        let detail = String::from_str("Unsupported bits per sample: ").concat(
            decimal_text(bits as u64).as_str(),
        );
        Some(SilencePaddingError::UnsupportedFormat(detail))
    } else if !check_encodable(spec) {
        Some(
            SilencePaddingError::WriteError(
                String::from_str("The stream parameters do not fit a WAV header"),
            ),
        )
    } else {
        None
    }
}

/// Whether `len` samples of the stream fit a container.
pub fn check_fits_container(spec: &AudioStreamSpec, len: u64) -> (fits: bool)
    ensures
        fits == fits_container(*spec, len as nat),
{
    let width: u64 = (spec.bits_per_sample / 8) as u64;
    let most: u64 = if spec.channels <= 2 && spec.bits_per_sample <= 16 {
        MAX_PLAIN_DATA_BYTES
    } else {
        MAX_EXTENSIBLE_DATA_BYTES
    };
    assert(len * width <= 0xFFFF_FFFF_FFFF_FFFF * 0x1FFF) by (nonlinear_arith)
        requires
            len <= 0xFFFF_FFFF_FFFF_FFFF,
            width <= 0x1FFF,
    ;
    (len as u128) * (width as u128) <= most as u128
}

/// Counts the samples that a container of the stream holds.
fn container_room(spec: &AudioStreamSpec) -> (room: u64)
    requires
        is_supported_depth(spec.bits_per_sample),
    ensures
        forall|len: nat| #[trigger] fits_container(*spec, len) <==> len <= room,
        room <= MAX_PLAIN_DATA_BYTES,
{
    let width: u64 = (spec.bits_per_sample / 8) as u64;
    let most: u64 = if spec.channels <= 2 && spec.bits_per_sample <= 16 {
        MAX_PLAIN_DATA_BYTES
    } else {
        MAX_EXTENSIBLE_DATA_BYTES
    };
    let room: u64 = most / width;
    assert forall|len: nat| #[trigger] fits_container(*spec, len) <==> len <= room by {
        assert(len * (width as nat) <= most <==> len <= most as nat / (width as nat))
            by (nonlinear_arith)
            requires
                width >= 1,
        ;
    }
    room
}

fn too_long() -> (error: SilencePaddingError)
    ensures
        error@ == PaddingFault::Write("The audio exceeds the size limit of a WAV file"@),
{
    SilencePaddingError::WriteError(
        String::from_str("The audio exceeds the size limit of a WAV file"),
    )
}

/// Lays a stream out for writing under the header `spec`: each sample
/// narrowed to the bit depth, in order.
///
/// At 8 and 16 bits a sample is cut to its low bits; at 24 and 32 bits
/// it is passed whole. A bit depth other than these four is refused as an
/// unsupported format, before anything is laid out. A stream that no
/// header can state, or that is longer than a container holds, is
/// refused as not writable.
pub fn write_samples(spec: &AudioStreamSpec, samples: &Vec<i32>) -> (outcome: Result<
    Vec<EncodedSample>,
    SilencePaddingError,
>)
    ensures
        write_view(outcome) == write_outcome(*spec, samples@),
{
    if let Some(fault) = find_header_fault(spec) {
        return Err(fault);
    }
    let room = container_room(spec);
    if samples.len() as u64 > room {
        assert(!fits_container(*spec, samples@.len()));
        return Err(too_long());
    }
    assert(fits_container(*spec, samples@.len()));
    Ok(encode_samples(spec.bits_per_sample, samples))
}

/// Pads a stream with silence on both sides.
///
/// `spec` is the header of the input and `decoded` its samples in order,
/// each as far as it could be decoded. The padded stream keeps the header.
/// It holds the silence of length `pre_silence`, then the input, then the
/// silence of length `post_silence`, in this order. Either duration may
/// be zero. The description that comes with the padded stream counts the
/// samples that it holds.
///
/// The stream is refused where it cannot be read or the padded stream
/// cannot be written: see [`read_samples`] and [`write_samples`].
pub fn add_silence_padding(
    spec: &AudioStreamSpec,
    decoded: &Vec<Option<i32>>,
    pre_silence: SilenceDuration,
    post_silence: SilenceDuration,
) -> (outcome: Result<PaddedAudio, SilencePaddingError>)
    ensures
        padding_view(outcome) == padding_outcome(*spec, decoded@, pre_silence, post_silence),
{
    let input_samples = match read_samples(spec, decoded) {
        Ok(samples) => samples,
        Err(error) => {
            return Err(error);
        },
    };
    let ghost whole = padded_stream(*spec, input_samples@, pre_silence, post_silence);
    if let Some(fault) = find_header_fault(spec) {
        return Err(fault);
    }
    let room = container_room(spec);
    let pre = count_silence_samples(spec, pre_silence, room);
    let post = count_silence_samples(spec, post_silence, room);
    let total: Option<u64> = match (pre, post) {
        (Some(pre), Some(post)) => {
            if input_samples.len() as u64 <= room && pre + input_samples.len() as u64 + post
                <= room {
                Some(pre + input_samples.len() as u64 + post)
            } else {
                None
            }
        },
        _ => None,
    };
    let total_samples = match total {
        Some(total_samples) => total_samples,
        None => {
            assert(!fits_container(*spec, whole.len()));
            return Err(too_long());
        },
    };
    assert(fits_container(*spec, whole.len()));

    let mut input_samples = input_samples;
    let mut post_silence_samples = generate_silence_samples(spec, post_silence);
    let mut output_samples = generate_silence_samples(spec, pre_silence);
    output_samples.append(&mut input_samples);
    output_samples.append(&mut post_silence_samples);
    assert(output_samples@ =~= whole);

    let laid_out = encode_samples(spec.bits_per_sample, &output_samples);
    Ok(PaddedAudio { samples: laid_out, info: get_audio_info(spec, total_samples) })
}

/// Pads each file of a batch with the same silence, one job after
/// another.
///
/// A job is what was read of its file, or the error that the reading
/// ended with. The results stand in the order of the jobs, one for each.
/// A job that fails leaves the text of its error in its slot and has no
/// effect on any other job.
pub fn batch_add_silence_padding(
    files: &Vec<Result<DecodedAudio, SilencePaddingError>>,
    pre_silence: SilenceDuration,
    post_silence: SilenceDuration,
) -> (results: Vec<Result<PaddedAudio, String>>)
    ensures
        results@.len() == files@.len(),
        forall|i: int|
            0 <= i < files@.len() ==> job_view(#[trigger] results@[i]) == job_outcome(
                files@[i],
                pre_silence,
                post_silence,
            ),
{
    let mut results: Vec<Result<PaddedAudio, String>> = Vec::with_capacity(files.len());
    let mut i: usize = 0;
    while i < files.len()
        invariant
            i <= files.len(),
            results@.len() == i,
            forall|j: int|
                0 <= j < i ==> job_view(#[trigger] results@[j]) == job_outcome(
                    files@[j],
                    pre_silence,
                    post_silence,
                ),
        decreases files.len() - i,
    {
        let result = match &files[i] {
            Err(error) => Err(error.to_string()),
            Ok(audio) => match add_silence_padding(
                &audio.spec,
                &audio.samples,
                pre_silence,
                post_silence,
            ) {
                Ok(padded_audio) => Ok(padded_audio),
                Err(error) => Err(error.to_string()),
            },
        };
        results.push(result);
        i = i + 1;
    }
    results
}

} // verus!
