//! The results that the operations hand to their callers: each one a
//! value that tells success or failure in words, whatever happened.

use crate::ai_bridge::BackendStatus;
use crate::audio::format_converter::{FormatError, OutputFormat};
use crate::audio::silence_padding::{AudioInfo, SilencePaddingError};
use crate::strings::lowercase_of;
use vstd::prelude::*;

verus! {

/// Result type for audio processing.
#[derive(Debug)]
pub struct ProcessResult {
    pub success: bool,
    pub output_path: Option<String>,
    pub message: String,
    pub audio_info: Option<AudioInfo>,
}

/// A `ProcessResult` with its texts as plain sequences.
pub struct ProcessResultView {
    pub success: bool,
    pub output_path: Option<Seq<char>>,
    pub message: Seq<char>,
    pub audio_info: Option<AudioInfo>,
}

impl View for ProcessResult {
    type V = ProcessResultView;

    open spec fn view(&self) -> ProcessResultView {
        ProcessResultView {
            success: self.success,
            output_path: match self.output_path {
                Some(path) => Some(path@),
                None => None,
            },
            message: self.message@,
            audio_info: self.audio_info,
        }
    }
}

/// Batch processing result.
#[derive(Debug)]
pub struct BatchProcessResult {
    pub total: usize,
    pub success_count: usize,
    pub failed_count: usize,
    pub results: Vec<ProcessResult>,
}

/// What the system has available.
#[derive(Debug)]
pub struct SystemStatus {
    pub ffmpeg_available: bool,
    pub backend_status: BackendStatus,
}

/// An output format as it is offered for choice.
#[derive(Debug)]
pub struct FormatInfo {
    pub name: String,
    pub extension: String,
    pub description: String,
}

/// The result that reports a failure in the words of `message`.
pub open spec fn failure(message: Seq<char>) -> ProcessResultView {
    ProcessResultView { success: false, output_path: None, message, audio_info: None }
}

/// The words that report a padding: the seconds added before and after.
pub open spec fn padding_message(pre_silence: Seq<char>, post_silence: Seq<char>) -> Seq<char> {
    "Success: Added "@ + pre_silence + "s pre-silence and "@ + post_silence + "s post-silence"@
}

/// The words that report a padding with conversion: the seconds added
/// before and after, and the format.
pub open spec fn conversion_message(
    pre_silence: Seq<char>,
    post_silence: Seq<char>,
    format: Seq<char>,
) -> Seq<char> {
    "Success: Added "@ + pre_silence + "s pre-silence, "@ + post_silence
        + "s post-silence, converted to "@ + format
}

/// The result that reports one job of a batch: the output path and the
/// description of the audio where the job succeeded, its error where it
/// failed.
pub open spec fn job_report(job: (String, Result<AudioInfo, String>)) -> ProcessResultView {
    match job.1 {
        Ok(info) => ProcessResultView {
            success: true,
            output_path: Some(job.0@),
            message: "Success"@,
            audio_info: Some(info),
        },
        Err(error) => failure(error@),
    }
}

/// The number of jobs that succeeded.
pub open spec fn count_succeeded(jobs: Seq<(String, Result<AudioInfo, String>)>) -> nat
    decreases jobs.len(),
{
    if jobs.len() == 0 {
        0
    } else {
        count_succeeded(jobs.drop_last()) + if jobs.last().1 is Ok {
            1nat
        } else {
            0nat
        }
    }
}

/// The jobs that succeeded and the jobs that failed are all the jobs:
/// where `failed` holds the places of the jobs that failed, the count of
/// the jobs that succeeded and the size of `failed` add up to the number
/// of jobs.
pub proof fn lemma_every_failure_counts(
    jobs: Seq<(String, Result<AudioInfo, String>)>,
    failed: Set<int>,
)
    requires
        forall|i: int| #[trigger] failed.contains(i) ==> 0 <= i < jobs.len(),
        forall|i: int| 0 <= i < jobs.len() ==> (#[trigger] jobs[i].1 is Err <==> failed.contains(i)),
    ensures
        failed.finite(),
        count_succeeded(jobs) + failed.len() == jobs.len(),
    decreases jobs.len(),
{
    if jobs.len() == 0 {
        assert(failed =~= Set::empty());
    } else {
        let last = jobs.len() - 1;
        let before = failed.remove(last);
        assert forall|i: int| 0 <= i < jobs.drop_last().len() implies (
        #[trigger] jobs.drop_last()[i].1 is Err <==> before.contains(i)) by {
            assert(jobs.drop_last()[i] == jobs[i]);
        }
        lemma_every_failure_counts(jobs.drop_last(), before);
        if failed.contains(last) {
            assert(failed =~= before.insert(last));
        } else {
            assert(failed =~= before);
        }
    }
}

/// In a batch where one job fails and every other succeeds, the failure
/// stands in the slot of its job, every other slot holds a success, one
/// job is counted as failed and all the others as succeeded.
pub proof fn lemma_single_failure(jobs: Seq<(String, Result<AudioInfo, String>)>, k: int)
    requires
        0 <= k < jobs.len(),
        jobs[k].1 is Err,
        forall|i: int| 0 <= i < jobs.len() && i != k ==> #[trigger] jobs[i].1 is Ok,
    ensures
        count_succeeded(jobs) == jobs.len() - 1,
        !job_report(jobs[k]).success,
        forall|i: int| 0 <= i < jobs.len() && i != k ==> (#[trigger] job_report(jobs[i])).success,
{
    lemma_every_failure_counts(jobs, set![k]);
}

/// Reports the outcome of a query for audio info, an error in words.
pub fn cmd_get_audio_info(outcome: Result<AudioInfo, SilencePaddingError>) -> (report: Result<
    AudioInfo,
    String,
>)
    ensures
        match outcome {
            Ok(info) => report == Ok::<AudioInfo, String>(info),
            Err(error) => report matches Err(message) && message@ == error@.text(),
        },
{
    match outcome {
        Ok(info) => Ok(info),
        Err(error) => Err(error.to_string()),
    }
}

/// Reports the outcome of a silence padding. `pre_silence` and
/// `post_silence` are the seconds asked for, as they print.
pub fn cmd_add_silence_padding(
    outcome: Result<AudioInfo, SilencePaddingError>,
    output_path: String,
    pre_silence: &str,
    post_silence: &str,
) -> (report: ProcessResult)
    ensures
        report@ == match outcome {
            Ok(info) => ProcessResultView {
                success: true,
                output_path: Some(output_path@),
                message: padding_message(pre_silence@, post_silence@),
                audio_info: Some(info),
            },
            Err(error) => failure(error@.text()),
        },
{
    match outcome {
        Ok(info) => {
            let message = String::from_str("Success: Added ").concat(pre_silence).concat(
                "s pre-silence and ",
            ).concat(post_silence).concat("s post-silence");
            ProcessResult {
                success: true,
                output_path: Some(output_path),
                message,
                audio_info: Some(info),
            }
        },
        Err(error) => ProcessResult {
            success: false,
            output_path: None,
            message: error.to_string(),
            audio_info: None,
        },
    }
}

/// Finds the format that a request names, or reports that there is none
/// of that name.
pub fn select_output_format(format: &str) -> (choice: Result<OutputFormat, ProcessResult>)
    ensures
        match choice {
            Ok(found) => OutputFormat::named(lowercase_of(format@)) == Some(found),
            Err(report) => OutputFormat::named(lowercase_of(format@)) is None && report@
                == failure("Unsupported format: "@ + format@),
        },
{
    match OutputFormat::from_name(format) {
        Some(found) => Ok(found),
        None => Err(
            ProcessResult {
                success: false,
                output_path: None,
                message: String::from_str("Unsupported format: ").concat(format),
                audio_info: None,
            },
        ),
    }
}

/// Reports the outcome of a silence padding with conversion to the
/// format that the request named. `pre_silence` and `post_silence` are
/// the seconds asked for, as they print.
pub fn cmd_add_silence_with_format(
    outcome: Result<String, FormatError>,
    pre_silence: &str,
    post_silence: &str,
    format: &str,
) -> (report: ProcessResult)
    ensures
        report@ == match outcome {
            Ok(path) => ProcessResultView {
                success: true,
                output_path: Some(path@),
                message: conversion_message(pre_silence@, post_silence@, format@),
                audio_info: None,
            },
            Err(error) => failure(error.text()),
        },
{
    match outcome {
        Ok(path) => {
            let message = String::from_str("Success: Added ").concat(pre_silence).concat(
                "s pre-silence, ",
            ).concat(post_silence).concat("s post-silence, converted to ").concat(format);
            ProcessResult { success: true, output_path: Some(path), message, audio_info: None }
        },
        Err(error) => ProcessResult {
            success: false,
            output_path: None,
            message: error.to_string(),
            audio_info: None,
        },
    }
}

/// A list of results with their texts as plain sequences, in order.
pub open spec fn reports_of(results: Seq<ProcessResult>) -> Seq<ProcessResultView> {
    Seq::new(results.len(), |i: int| results[i]@)
}

/// The results that report the jobs of a batch: one for each job, in the
/// order of the jobs.
pub open spec fn job_reports(jobs: Seq<(String, Result<AudioInfo, String>)>) -> Seq<
    ProcessResultView,
> {
    Seq::new(jobs.len(), |i: int| job_report(jobs[i]))
}

/// Reports the outcome of a batch. Each job comes as its output path and
/// what became of it. The report holds one result for each job, in the
/// order of the jobs, and the tally of them: a failed job is one that
/// did not succeed.
pub fn cmd_batch_silence_padding(jobs: Vec<(String, Result<AudioInfo, String>)>) -> (report:
    BatchProcessResult)
    ensures
        report.total == jobs@.len(),
        report.success_count == count_succeeded(jobs@),
        report.failed_count == report.total - report.success_count,
        reports_of(report.results@) == job_reports(jobs@),
{
    let ghost all = jobs@;
    let total = jobs.len();
    let mut results: Vec<ProcessResult> = Vec::with_capacity(total);
    let mut success_count: usize = 0;
    let mut i: usize = 0;
    while i < total
        invariant
            i <= total,
            total == jobs@.len(),
            jobs@ == all,
            results@.len() == i,
            success_count == count_succeeded(all.subrange(0, i as int)),
            success_count <= i,
            forall|j: int| 0 <= j < i ==> (#[trigger] results@[j])@ == job_report(all[j]),
        decreases total - i,
    {
        assert(all.subrange(0, i + 1).drop_last() =~= all.subrange(0, i as int));
        let job = &jobs[i];
        let result = match &job.1 {
            Ok(info) => {
                success_count = success_count + 1;
                ProcessResult {
                    success: true,
                    output_path: Some(job.0.clone()),
                    message: String::from_str("Success"),
                    audio_info: Some(*info),
                }
            },
            Err(error) => ProcessResult {
                success: false,
                output_path: None,
                message: error.clone(),
                audio_info: None,
            },
        };
        results.push(result);
        i = i + 1;
    }
    assert(all.subrange(0, total as int) =~= all);
    assert(reports_of(results@) =~= job_reports(all));
    BatchProcessResult {
        total,
        success_count,
        failed_count: total - success_count,
        results,
    }
}

/// Puts together what the system has available.
pub fn cmd_check_system_status(ffmpeg_available: bool, backend_status: BackendStatus) -> (status:
    SystemStatus)
    ensures
        status.ffmpeg_available == ffmpeg_available,
        status.backend_status == backend_status,
{
    SystemStatus { ffmpeg_available, backend_status }
}

/// The formats on offer, in the order in which they are offered.
pub open spec fn offered_formats() -> Seq<OutputFormat> {
    seq![
        OutputFormat::Wav,
        OutputFormat::Mp3High,
        OutputFormat::Mp3Medium,
        OutputFormat::Mp3Low,
        OutputFormat::AacHigh,
        OutputFormat::AacMedium,
        OutputFormat::Flac,
        OutputFormat::Ogg,
    ]
}

/// The name under which a format is offered.
pub open spec fn offered_name(format: OutputFormat) -> Seq<char> {
    match format {
        OutputFormat::Wav => "WAV"@,
        OutputFormat::Mp3High => "MP3 (320kbps)"@,
        OutputFormat::Mp3Medium => "MP3 (192kbps)"@,
        OutputFormat::Mp3Low => "MP3 (128kbps)"@,
        OutputFormat::AacHigh => "AAC (256kbps)"@,
        OutputFormat::AacMedium => "AAC (192kbps)"@,
        OutputFormat::Flac => "FLAC"@,
        OutputFormat::Ogg => "OGG (192kbps)"@,
    }
}

/// What is said of a format where it is offered.
pub open spec fn offered_description(format: OutputFormat) -> Seq<char> {
    match format {
        OutputFormat::Wav => "Lossless, large file size"@,
        OutputFormat::Mp3High => "High quality compressed"@,
        OutputFormat::Mp3Medium => "Standard quality"@,
        OutputFormat::Mp3Low => "Smaller file size"@,
        OutputFormat::AacHigh => "Apple/iOS compatible"@,
        OutputFormat::AacMedium => "Standard AAC"@,
        OutputFormat::Flac => "Lossless, compressed"@,
        OutputFormat::Ogg => "Open format"@,
    }
}

fn describe_format(format: OutputFormat) -> (info: FormatInfo)
    ensures
        info.name@ == offered_name(format),
        info.extension@ == format.extension_of(),
        info.description@ == offered_description(format),
{
    let (name, description) = match format {
        OutputFormat::Wav => ("WAV", "Lossless, large file size"),
        OutputFormat::Mp3High => ("MP3 (320kbps)", "High quality compressed"),
        OutputFormat::Mp3Medium => ("MP3 (192kbps)", "Standard quality"),
        OutputFormat::Mp3Low => ("MP3 (128kbps)", "Smaller file size"),
        OutputFormat::AacHigh => ("AAC (256kbps)", "Apple/iOS compatible"),
        OutputFormat::AacMedium => ("AAC (192kbps)", "Standard AAC"),
        OutputFormat::Flac => ("FLAC", "Lossless, compressed"),
        OutputFormat::Ogg => ("OGG (192kbps)", "Open format"),
    };
    FormatInfo {
        name: String::from_str(name),
        extension: String::from_str(format.extension()),
        description: String::from_str(description),
    }
}

/// Get available output formats: each format once, under the name that
/// it is offered by, with its file extension and a few words on it.
pub fn cmd_get_output_formats() -> (formats: Vec<FormatInfo>)
    ensures
        formats@.len() == offered_formats().len(),
        forall|i: int|
            0 <= i < formats@.len() ==> {
                &&& (#[trigger] formats@[i]).name@ == offered_name(offered_formats()[i])
                &&& formats@[i].extension@ == offered_formats()[i].extension_of()
                &&& formats@[i].description@ == offered_description(offered_formats()[i])
            },
{
    let mut formats: Vec<FormatInfo> = Vec::new();
    formats.push(describe_format(OutputFormat::Wav));
    formats.push(describe_format(OutputFormat::Mp3High));
    formats.push(describe_format(OutputFormat::Mp3Medium));
    formats.push(describe_format(OutputFormat::Mp3Low));
    formats.push(describe_format(OutputFormat::AacHigh));
    formats.push(describe_format(OutputFormat::AacMedium));
    formats.push(describe_format(OutputFormat::Flac));
    formats.push(describe_format(OutputFormat::Ogg));
    formats
}

} // verus!
