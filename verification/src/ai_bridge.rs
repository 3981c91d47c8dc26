//! The AI backend: a Python script that is run as a process of its own.
//! Here is what is decided about it: which models it offers, how it is
//! called, and what its exit means.

use crate::text::{push_word, signed_decimal, signed_decimal_text, trimmed, words_of};
use vstd::prelude::*;

verus! {

/// Why the backend did not deliver.
#[derive(Debug)]
pub enum AiBridgeError {
    BackendNotAvailable,
    ProcessingFailed(String),
    ConnectionError(String),
    IoError(String),
}

impl AiBridgeError {
    /// The text of the error: what failed, then the detail it carries.
    pub open spec fn text(self) -> Seq<char> {
        match self {
            AiBridgeError::BackendNotAvailable => "Python backend not available"@,
            AiBridgeError::ProcessingFailed(detail) => "Processing failed: "@ + detail@,
            AiBridgeError::ConnectionError(detail) => "Connection error: "@ + detail@,
            AiBridgeError::IoError(detail) => "IO error: "@ + detail@,
        }
    }

    /// Renders the error for a reader.
    pub fn to_string(&self) -> (rendered: String)
        ensures
            rendered@ == self.text(),
    {
        match self {
            AiBridgeError::BackendNotAvailable => String::from_str(
                "Python backend not available",
            ),
            AiBridgeError::ProcessingFailed(detail) => String::from_str(
                "Processing failed: ",
            ).concat(detail.as_str()),
            AiBridgeError::ConnectionError(detail) => String::from_str(
                "Connection error: ",
            ).concat(detail.as_str()),
            AiBridgeError::IoError(detail) => String::from_str("IO error: ").concat(
                detail.as_str(),
            ),
        }
    }
}

/// AI processing modes.
#[derive(Debug, Clone, Copy, PartialEq, Eq, Structural)]
pub enum ProcessingMode {
    ResembleDenoise,
    ResembleEnhance,
    Demucs,
    Spleeter2Stems,
    Spleeter4Stems,
    Spleeter5Stems,
    MpSenet,
    MossFormer2,
    VoiceFixer,
    DenoiserOnly,
}

impl ProcessingMode {
    /// The name by which the backend knows the mode.
    pub open spec fn name_of(self) -> Seq<char> {
        match self {
            ProcessingMode::ResembleDenoise => "resemble_denoise"@,
            ProcessingMode::ResembleEnhance => "resemble_enhance"@,
            ProcessingMode::Demucs => "demucs"@,
            ProcessingMode::Spleeter2Stems => "spleeter_2stems"@,
            ProcessingMode::Spleeter4Stems => "spleeter_4stems"@,
            ProcessingMode::Spleeter5Stems => "spleeter_5stems"@,
            ProcessingMode::MpSenet => "mp_senet"@,
            ProcessingMode::MossFormer2 => "mossformer2"@,
            ProcessingMode::VoiceFixer => "voicefixer"@,
            ProcessingMode::DenoiserOnly => "denoiser_only"@,
        }
    }

    /// Get the name by which the backend knows the mode.
    pub fn to_string(&self) -> (name: &'static str)
        ensures
            name@ == self.name_of(),
    {
        match self {
            ProcessingMode::ResembleDenoise => "resemble_denoise",
            ProcessingMode::ResembleEnhance => "resemble_enhance",
            ProcessingMode::Demucs => "demucs",
            ProcessingMode::Spleeter2Stems => "spleeter_2stems",
            ProcessingMode::Spleeter4Stems => "spleeter_4stems",
            ProcessingMode::Spleeter5Stems => "spleeter_5stems",
            ProcessingMode::MpSenet => "mp_senet",
            ProcessingMode::MossFormer2 => "mossformer2",
            ProcessingMode::VoiceFixer => "voicefixer",
            ProcessingMode::DenoiserOnly => "denoiser_only",
        }
    }
}

/// The moments of a run of the backend that are told to whoever watches
/// it.
#[derive(Debug, Clone, Copy, PartialEq, Eq, Structural)]
pub enum ProcessingStage {
    /// Before the script is started.
    Starting,
    /// After the script has ended, however it ended.
    Complete,
}

impl ProcessingStage {
    /// How much of the run lies behind, in hundredths.
    pub open spec fn percent_of(self) -> u8 {
        match self {
            ProcessingStage::Starting => 0,
            ProcessingStage::Complete => 100,
        }
    }

    /// What is said of the run at this moment.
    pub open spec fn message_of(self) -> Seq<char> {
        match self {
            ProcessingStage::Starting => "Starting AI processing..."@,
            ProcessingStage::Complete => "Processing complete"@,
        }
    }

    /// Get how much of the run lies behind, in hundredths.
    pub fn percent(&self) -> (percent: u8)
        ensures
            percent == self.percent_of(),
    {
        match self {
            ProcessingStage::Starting => 0,
            ProcessingStage::Complete => 100,
        }
    }

    /// Get what is said of the run at this moment.
    pub fn message(&self) -> (message: &'static str)
        ensures
            message@ == self.message_of(),
    {
        match self {
            ProcessingStage::Starting => "Starting AI processing...",
            ProcessingStage::Complete => "Processing complete",
        }
    }
}

/// Tells that a run was lost before it ended, with the words of whatever
/// lost it.
pub fn processing_lost(detail: &str) -> (error: AiBridgeError)
    ensures
        error matches AiBridgeError::ProcessingFailed(held) && held@ == detail@,
{
    AiBridgeError::ProcessingFailed(String::from_str(detail))
}

/// AI backend status.
#[derive(Debug, Clone)]
pub struct BackendStatus {
    pub available: bool,
    pub python_version: Option<String>,
    pub available_models: Vec<String>,
}

/// The models that an available backend offers.
pub open spec fn offered_models() -> Seq<Seq<char>> {
    seq![
        "resemble_denoise"@,
        "resemble_enhance"@,
        "demucs"@,
        "spleeter"@,
        "mp_senet"@,
        "mossformer2"@,
    ]
}

/// The arguments with which the interpreter runs the processing script:
/// the script, the input, the output after `-o`, the mode after `-m`.
pub open spec fn processing_command(
    input_path: Seq<char>,
    output_path: Seq<char>,
    mode: ProcessingMode,
    python_script_path: Seq<char>,
) -> Seq<Seq<char>> {
    seq![python_script_path, input_path, "-o"@, output_path, "-m"@, mode.name_of()]
}

/// How an exit code reads in a message: in brackets after `Some`, or
/// `None` where the process ended without one.
pub open spec fn exit_code_text(exit_code: Option<i32>) -> Seq<char> {
    match exit_code {
        Some(code) => "Some("@ + signed_decimal(code as int) + ")"@,
        None => "None"@,
    }
}

/// Tells the status of the backend from a query for the interpreter's
/// version: `version_output` is what a successful query printed, or
/// nothing where the query failed or could not be run. The backend is
/// available exactly where there is such output, and then reports the
/// output without the whitespace around it as its version.
pub fn check_backend(version_output: Option<&str>) -> (status: BackendStatus)
    ensures
        status.available == (version_output is Some),
        match version_output {
            Some(output) => (status.python_version matches Some(version) && version@ == trimmed(
                output@,
            )) && words_of(status.available_models@) == offered_models(),
            None => status.python_version is None && status.available_models@.len() == 0,
        },
{
    match version_output {
        Some(output) => {
            let mut models: Vec<String> = Vec::new();
            push_word(&mut models, "resemble_denoise");
            push_word(&mut models, "resemble_enhance");
            push_word(&mut models, "demucs");
            push_word(&mut models, "spleeter");
            push_word(&mut models, "mp_senet");
            push_word(&mut models, "mossformer2");
            assert(words_of(models@) =~= offered_models());
            BackendStatus {
                available: true,
                python_version: Some(String::from_str(output.trim())),
                available_models: models,
            }
        },
        None => BackendStatus {
            available: false,
            python_version: None,
            available_models: Vec::new(),
        },
    }
}

/// Builds the arguments with which the interpreter runs the processing
/// script on `input_path`.
pub fn process_with_ai(
    input_path: &str,
    output_path: &str,
    mode: ProcessingMode,
    python_script_path: &str,
) -> (args: Vec<String>)
    ensures
        words_of(args@) == processing_command(
            input_path@,
            output_path@,
            mode,
            python_script_path@,
        ),
{
    let mut args: Vec<String> = Vec::new();
    push_word(&mut args, python_script_path);
    push_word(&mut args, input_path);
    push_word(&mut args, "-o");
    push_word(&mut args, output_path);
    push_word(&mut args, "-m");
    push_word(&mut args, mode.to_string());
    assert(words_of(args@) =~= processing_command(
        input_path@,
        output_path@,
        mode,
        python_script_path@,
    ));
    args
}

/// Tells how a run of the processing script ended: with the output path
/// where it succeeded, and with its exit code as a processing failure
/// where it did not.
pub fn processing_result(succeeded: bool, exit_code: Option<i32>, output_path: &str) -> (outcome:
    Result<String, AiBridgeError>)
    ensures
        match outcome {
            Ok(path) => succeeded && path@ == output_path@,
            Err(error) => !succeeded && (error matches AiBridgeError::ProcessingFailed(detail)
                && detail@ == "Process exited with code: "@ + exit_code_text(exit_code)),
        },
{
    if succeeded {
        return Ok(String::from_str(output_path));
    }
    let code = match exit_code {
        Some(code) => String::from_str("Some(").concat(
            signed_decimal_text(code as i64).as_str(),
        ).concat(")"),
        None => String::from_str("None"),
    };
    Err(
        AiBridgeError::ProcessingFailed(
            String::from_str("Process exited with code: ").concat(code.as_str()),
        ),
    )
}

} // verus!
