//! The failures that the segmentation subsystem reports.

use vstd::prelude::*;
use crate::python_env::{MIN_LOCAL_PYTHON_MAJOR, MIN_LOCAL_PYTHON_MINOR};
use crate::text::{
    append_str, decimal, join, join_chars, push_decimal, str_chars, string_from_chars, texts_of,
    trim, trim_chars,
};
use crate::types::LocalSegmentationEngine;

verus! {

/// What is wrong with the shape of a request.
#[derive(Debug, Clone, Copy, PartialEq, Eq, Structural)]
pub enum InvalidInput {
    /// A merge was asked for an empty list of clips.
    NoClips,
    /// Every clip has zero duration once its bounds are clamped.
    NoValidClips,
    /// Neither an audio path nor a list of clips was given.
    MissingAudioSource,
}

/// The transcode step that failed.
#[derive(Debug, Clone, Copy, PartialEq, Eq, Structural)]
pub enum TranscodeStep {
    /// Mixing the clips into one track.
    Merge,
    /// Encoding the audio for upload.
    Encode,
    /// Resampling the audio for a local engine.
    Resample,
}

/// Why an upload counts as failed.
#[derive(Debug, Clone, Copy, PartialEq, Eq, Structural)]
pub enum UploadFailure {
    /// The server answered with a status outside 200..=299.
    Rejected { status: u16 },
    /// The answer is not a JSON list of strings.
    UnreadableResponse,
    /// The answer lists no server-side path.
    NoPath,
}

/// What is wrong with a model data file.
#[derive(Debug, Clone, PartialEq, Eq)]
pub enum DataFileFault {
    /// The file does not exist.
    Missing,
    /// The file is a Git LFS pointer: the real content was never fetched.
    LfsPointer,
    /// The file does not begin like a pickle.
    NotPickle,
    /// The file does not begin like a JSON object or array.
    NotJson,
    /// The file begins like JSON but does not parse.
    InvalidJson { parse_error: String },
    /// The file's name has neither of the known extensions.
    UnsupportedType,
    /// The download was answered with a status outside 200..=299.
    DownloadRejected { status: u16 },
    /// The download brought no bytes.
    DownloadEmpty,
}

/// A fault of a model data file as the contracts see it.
pub enum DataFileFaultView {
    Missing,
    LfsPointer,
    NotPickle,
    NotJson,
    InvalidJson { parse_error: Seq<char> },
    UnsupportedType,
    DownloadRejected { status: u16 },
    DownloadEmpty,
}

impl View for DataFileFault {
    type V = DataFileFaultView;

    open spec fn view(&self) -> DataFileFaultView {
        match self {
            DataFileFault::Missing => DataFileFaultView::Missing,
            DataFileFault::LfsPointer => DataFileFaultView::LfsPointer,
            DataFileFault::NotPickle => DataFileFaultView::NotPickle,
            DataFileFault::NotJson => DataFileFaultView::NotJson,
            DataFileFault::InvalidJson { parse_error } => DataFileFaultView::InvalidJson {
                parse_error: parse_error@,
            },
            DataFileFault::UnsupportedType => DataFileFaultView::UnsupportedType,
            DataFileFault::DownloadRejected { status } => DataFileFaultView::DownloadRejected {
                status: *status,
            },
            DataFileFault::DownloadEmpty => DataFileFaultView::DownloadEmpty,
        }
    }
}

/// What is wrong with an engine's isolated environment.
#[derive(Debug, Clone, PartialEq, Eq)]
pub enum EnvironmentFault {
    /// The outdated environment could not be deleted.
    ReplaceFailed { detail: String },
    /// Creating the environment failed; `detail` is what the tool wrote.
    CreateFailed { detail: String },
    /// The environment was created but holds no interpreter.
    InterpreterMissing,
    /// The new environment's interpreter is older than the minimum.
    VersionTooOld { major: u8, minor: u8 },
    /// The new environment's interpreter did not tell its version.
    VersionUnknown,
}

/// A fault of an environment as the contracts see it.
pub enum EnvironmentFaultView {
    ReplaceFailed { detail: Seq<char> },
    CreateFailed { detail: Seq<char> },
    InterpreterMissing,
    VersionTooOld { major: u8, minor: u8 },
    VersionUnknown,
}

impl View for EnvironmentFault {
    type V = EnvironmentFaultView;

    open spec fn view(&self) -> EnvironmentFaultView {
        match self {
            EnvironmentFault::ReplaceFailed { detail } => EnvironmentFaultView::ReplaceFailed {
                detail: detail@,
            },
            EnvironmentFault::CreateFailed { detail } => EnvironmentFaultView::CreateFailed {
                detail: detail@,
            },
            EnvironmentFault::InterpreterMissing => EnvironmentFaultView::InterpreterMissing,
            EnvironmentFault::VersionTooOld { major, minor } =>
                EnvironmentFaultView::VersionTooOld { major: *major, minor: *minor },
            EnvironmentFault::VersionUnknown => EnvironmentFaultView::VersionUnknown,
        }
    }
}

/// An interpreter found on the system.
#[derive(Debug, Clone, PartialEq, Eq)]
pub struct PythonInterpreter {
    /// The command that started it.
    pub command: String,
    /// The path of the executable, as the interpreter reports it.
    pub executable: String,
    pub major: u8,
    pub minor: u8,
    pub patch: u8,
}

/// An interpreter as the contracts see it.
pub struct InterpreterView {
    pub command: Seq<char>,
    pub executable: Seq<char>,
    pub major: u8,
    pub minor: u8,
    pub patch: u8,
}

impl View for PythonInterpreter {
    type V = InterpreterView;

    open spec fn view(&self) -> InterpreterView {
        InterpreterView {
            command: self.command@,
            executable: self.executable@,
            major: self.major,
            minor: self.minor,
            patch: self.patch,
        }
    }
}

/// The views of a list of interpreters.
pub open spec fn interpreter_views(list: Seq<PythonInterpreter>) -> Seq<InterpreterView> {
    Seq::new(list.len(), |i: int| list[i]@)
}

/// A job parameter that is checked before a job is started.
#[derive(Debug, Clone, Copy, PartialEq, Eq, Structural)]
pub enum Parameter {
    ModelName,
    Device,
}

/// A failure of the segmentation subsystem.
#[derive(Debug, Clone, PartialEq, Eq)]
pub enum SegmentationError {
    /// The request is malformed.
    InvalidInput(InvalidInput),
    /// The audio file of the request does not exist.
    AudioFileNotFound { path: String },
    /// The transcode tool could not be found.
    TranscoderNotFound,
    /// A bundled resource could not be found.
    ResourceNotFound { path: String },
    /// The caller reported something that cannot follow what it was asked.
    UnexpectedEvent,
    /// A job parameter has a value outside its allowed set.
    InvalidParameter { parameter: Parameter, value: String },
    /// The external transcode tool ended with a failure; `diagnostic` is what it
    /// wrote, unchanged.
    TranscodeFailed { step: TranscodeStep, diagnostic: String },
    /// The encoded audio has no bytes.
    EmptyPayload,
    /// The upload did not yield a server-side path.
    UploadFailed(UploadFailure),
    /// The job submission answered without an event id.
    JobSubmitFailed,
    /// The server sent an `error` event.
    RemoteStreamError { message: String },
    /// A record of the event stream holds data that is not JSON.
    MalformedStreamPayload { parse_error: String },
    /// The event stream ended before any payload arrived.
    StreamEndedWithoutResult,
    /// No interpreter on the system is recent enough; `found` lists those that
    /// were found and are too old.
    NoCompatibleInterpreter { min_major: u8, min_minor: u8, found: Vec<PythonInterpreter> },
    /// An engine's isolated environment could not be brought into a usable state.
    EnvironmentCorrupted { engine: LocalSegmentationEngine, cause: EnvironmentFault },
    /// A step of the dependency installation failed; `context` names the step.
    DependencyInstallFailed { context: String, detail: String },
    /// A model data file is missing or not what it should be.
    DataFileInvalid { file: String, fault: DataFileFault },
    /// The engine's environment has no interpreter yet.
    EnvironmentNotInstalled { engine: LocalSegmentationEngine },
    /// The local script reported a failure in its JSON output.
    ScriptReportedError { message: String },
    /// The local script failed and left `output` behind.
    ScriptFailed { output: String },
    /// The local script succeeded but its output is not JSON.
    UnreadableScriptOutput { parse_error: String, stderr: String },
    /// The local script failed and wrote nothing.
    NoOutput,
    /// The multi-aligner engine was asked to run without an access token.
    TokenRequired,
}

/// A failure as the contracts see it: each text by its characters.
pub enum SegmentationErrorView {
    InvalidInput(InvalidInput),
    AudioFileNotFound { path: Seq<char> },
    TranscoderNotFound,
    ResourceNotFound { path: Seq<char> },
    UnexpectedEvent,
    InvalidParameter { parameter: Parameter, value: Seq<char> },
    TranscodeFailed { step: TranscodeStep, diagnostic: Seq<char> },
    EmptyPayload,
    UploadFailed(UploadFailure),
    JobSubmitFailed,
    RemoteStreamError { message: Seq<char> },
    MalformedStreamPayload { parse_error: Seq<char> },
    StreamEndedWithoutResult,
    NoCompatibleInterpreter { min_major: u8, min_minor: u8, found: Seq<InterpreterView> },
    EnvironmentCorrupted { engine: LocalSegmentationEngine, cause: EnvironmentFaultView },
    DependencyInstallFailed { context: Seq<char>, detail: Seq<char> },
    DataFileInvalid { file: Seq<char>, fault: DataFileFaultView },
    EnvironmentNotInstalled { engine: LocalSegmentationEngine },
    ScriptReportedError { message: Seq<char> },
    ScriptFailed { output: Seq<char> },
    UnreadableScriptOutput { parse_error: Seq<char>, stderr: Seq<char> },
    NoOutput,
    TokenRequired,
}

impl View for SegmentationError {
    type V = SegmentationErrorView;

    open spec fn view(&self) -> SegmentationErrorView {
        match self {
            SegmentationError::InvalidInput(kind) => SegmentationErrorView::InvalidInput(*kind),
            SegmentationError::AudioFileNotFound { path } =>
                SegmentationErrorView::AudioFileNotFound { path: path@ },
            SegmentationError::TranscoderNotFound => SegmentationErrorView::TranscoderNotFound,
            SegmentationError::ResourceNotFound { path } =>
                SegmentationErrorView::ResourceNotFound { path: path@ },
            SegmentationError::UnexpectedEvent => SegmentationErrorView::UnexpectedEvent,
            SegmentationError::InvalidParameter { parameter, value } =>
                SegmentationErrorView::InvalidParameter { parameter: *parameter, value: value@ },
            SegmentationError::TranscodeFailed { step, diagnostic } =>
                SegmentationErrorView::TranscodeFailed { step: *step, diagnostic: diagnostic@ },
            SegmentationError::EmptyPayload => SegmentationErrorView::EmptyPayload,
            SegmentationError::UploadFailed(why) => SegmentationErrorView::UploadFailed(*why),
            SegmentationError::JobSubmitFailed => SegmentationErrorView::JobSubmitFailed,
            SegmentationError::RemoteStreamError { message } =>
                SegmentationErrorView::RemoteStreamError { message: message@ },
            SegmentationError::MalformedStreamPayload { parse_error } =>
                SegmentationErrorView::MalformedStreamPayload { parse_error: parse_error@ },
            SegmentationError::StreamEndedWithoutResult =>
                SegmentationErrorView::StreamEndedWithoutResult,
            SegmentationError::NoCompatibleInterpreter { min_major, min_minor, found } =>
                SegmentationErrorView::NoCompatibleInterpreter {
                    min_major: *min_major,
                    min_minor: *min_minor,
                    found: interpreter_views(found@),
                },
            SegmentationError::EnvironmentCorrupted { engine, cause } =>
                SegmentationErrorView::EnvironmentCorrupted { engine: *engine, cause: cause@ },
            SegmentationError::DependencyInstallFailed { context, detail } =>
                SegmentationErrorView::DependencyInstallFailed {
                    context: context@,
                    detail: detail@,
                },
            SegmentationError::DataFileInvalid { file, fault } =>
                SegmentationErrorView::DataFileInvalid { file: file@, fault: fault@ },
            SegmentationError::EnvironmentNotInstalled { engine } =>
                SegmentationErrorView::EnvironmentNotInstalled { engine: *engine },
            SegmentationError::ScriptReportedError { message } =>
                SegmentationErrorView::ScriptReportedError { message: message@ },
            SegmentationError::ScriptFailed { output } => SegmentationErrorView::ScriptFailed {
                output: output@,
            },
            SegmentationError::UnreadableScriptOutput { parse_error, stderr } =>
                SegmentationErrorView::UnreadableScriptOutput {
                    parse_error: parse_error@,
                    stderr: stderr@,
                },
            SegmentationError::NoOutput => SegmentationErrorView::NoOutput,
            SegmentationError::TokenRequired => SegmentationErrorView::TokenRequired,
        }
    }
}

/// The words for an interpreter in a list of those that are too old.
pub open spec fn interpreter_text(p: InterpreterView) -> Seq<char> {
    p.executable + " ("@ + decimal(p.major as nat) + "."@ + decimal(p.minor as nat) + "."@
        + decimal(p.patch as nat) + ")"@
}

/// The words for each interpreter of a list.
pub open spec fn interpreter_texts(found: Seq<InterpreterView>) -> Seq<Seq<char>> {
    Seq::new(found.len(), |i: int| interpreter_text(found[i]))
}

/// The words for the version `major.minor` and later.
pub open spec fn version_text(major: u8, minor: u8) -> Seq<char> {
    decimal(major as nat) + "."@ + decimal(minor as nat) + "+"@
}

/// The message of a fault of the data file `file`.
pub open spec fn data_file_message(file: Seq<char>, fault: DataFileFaultView) -> Seq<char> {
    match fault {
        DataFileFaultView::Missing => "Missing data file: "@ + file,
        DataFileFaultView::LfsPointer => "Data file '"@ + file
            + "' is a Git LFS pointer, not real data."@,
        DataFileFaultView::NotPickle => "Data file '"@ + file + "' is not a valid pickle binary."@,
        DataFileFaultView::NotJson => "Data file '"@ + file + "' does not look like valid JSON."@,
        DataFileFaultView::InvalidJson { parse_error } => "Data file '"@ + file
            + "' is invalid JSON: "@ + parse_error,
        DataFileFaultView::UnsupportedType => "Unsupported Multi-Aligner data file type for '"@
            + file + "'"@,
        DataFileFaultView::DownloadRejected { status } => "Failed to download '"@ + file
            + "': HTTP "@ + decimal(status as nat),
        DataFileFaultView::DownloadEmpty => "Downloaded file for '"@ + file + "' is empty"@,
    }
}

/// The message of a fault of the environment of the engine called `label`.
pub open spec fn environment_message(label: Seq<char>, cause: EnvironmentFaultView) -> Seq<char> {
    match cause {
        EnvironmentFaultView::ReplaceFailed { detail } =>
            "Failed to replace incompatible Python venv for "@ + label + ": "@ + detail,
        EnvironmentFaultView::CreateFailed { detail } => "Failed to create Python venv for "@
            + label + ": "@ + detail,
        EnvironmentFaultView::InterpreterMissing => "Python venv created for "@ + label
            + " but python executable was not found"@,
        EnvironmentFaultView::VersionTooOld { major, minor } => "Python venv for "@ + label
            + " uses Python "@ + decimal(major as nat) + "."@ + decimal(minor as nat) + " but "@
            + version_text(MIN_LOCAL_PYTHON_MAJOR, MIN_LOCAL_PYTHON_MINOR) + " is required."@,
        EnvironmentFaultView::VersionUnknown => "Failed to detect Python version in "@ + label
            + " venv"@,
    }
}

/// The message of a failure, for people.
pub open spec fn message_of(e: SegmentationErrorView) -> Seq<char> {
    match e {
        SegmentationErrorView::InvalidInput(kind) => match kind {
            InvalidInput::NoClips => "No audio clips provided for merge"@,
            InvalidInput::NoValidClips => "No valid audio clips to merge"@,
            InvalidInput::MissingAudioSource =>
                "Audio file not found: missing audioPath/audioClips"@,
        },
        SegmentationErrorView::AudioFileNotFound { path } => "Audio file not found: "@ + path,
        SegmentationErrorView::TranscoderNotFound => "ffmpeg binary not found"@,
        SegmentationErrorView::ResourceNotFound { path } =>
            "Path not found in resources or dev mode: "@ + path,
        SegmentationErrorView::UnexpectedEvent => "Unexpected event for the current phase"@,
        SegmentationErrorView::InvalidParameter { parameter, value } => match parameter {
            Parameter::ModelName => "Invalid model_name '"@ + value
                + "'. Expected 'Base' or 'Large'."@,
            Parameter::Device => "Invalid device '"@ + value + "'. Expected 'GPU' or 'CPU'."@,
        },
        SegmentationErrorView::TranscodeFailed { step, diagnostic } => match step {
            TranscodeStep::Merge => "ffmpeg merge error: "@ + diagnostic,
            TranscodeStep::Encode => "ffmpeg error: "@ + diagnostic,
            TranscodeStep::Resample => "ffmpeg preprocessing error: "@ + diagnostic,
        },
        SegmentationErrorView::EmptyPayload => "Cloud upload payload is empty after preprocessing"@,
        SegmentationErrorView::UploadFailed(why) => match why {
            UploadFailure::Rejected { status } => "Upload request error: HTTP "@ + decimal(
                status as nat,
            ),
            UploadFailure::UnreadableResponse => "Failed to parse upload response"@,
            UploadFailure::NoPath => "Upload response was empty"@,
        },
        SegmentationErrorView::JobSubmitFailed => "Process call did not return an event_id"@,
        SegmentationErrorView::RemoteStreamError { message } =>
            "Cloud segmentation stream error: "@ + message,
        SegmentationErrorView::MalformedStreamPayload { parse_error } =>
            "Failed to parse process stream payload: "@ + parse_error,
        SegmentationErrorView::StreamEndedWithoutResult => "Process stream ended without a result"@,
        SegmentationErrorView::NoCompatibleInterpreter { min_major, min_minor, found } => if found.len()
            == 0 {
            "No usable Python interpreter found. Install Python "@ + version_text(
                min_major,
                min_minor,
            ) + " and ensure it is available in PATH."@
        } else {
            "Python "@ + version_text(min_major, min_minor) + " is required, but found only: "@
                + join(interpreter_texts(found), ", "@)
        },
        SegmentationErrorView::EnvironmentCorrupted { engine, cause } => environment_message(
            engine.label(),
            cause,
        ),
        SegmentationErrorView::DependencyInstallFailed { context, detail } => context + ": "@
            + detail,
        SegmentationErrorView::DataFileInvalid { file, fault } => data_file_message(file, fault),
        SegmentationErrorView::EnvironmentNotInstalled { engine } => engine.label()
            + " local environment is not installed yet. Install dependencies first."@,
        SegmentationErrorView::ScriptReportedError { message } => message,
        SegmentationErrorView::ScriptFailed { output } => "Python script failed: "@ + output,
        SegmentationErrorView::UnreadableScriptOutput { parse_error, stderr } => if trim(
            stderr,
        ).len() == 0 {
            "Failed to parse Python output: "@ + parse_error
        } else {
            "Failed to parse Python output: "@ + parse_error + " (stderr: "@ + stderr + ")"@
        },
        SegmentationErrorView::NoOutput => "Python script failed with no output"@,
        SegmentationErrorView::TokenRequired =>
            "HF token with access to private models (hetchyy/r15_95m, hetchyy/r7) is required for local Multi-Aligner mode."@,
    }
}

fn push_version(out: &mut Vec<char>, major: u8, minor: u8)
    ensures
        final(out)@ == old(out)@ + version_text(major, minor),
{
    push_decimal(out, major as u64);
    append_str(out, ".");
    push_decimal(out, minor as u64);
    append_str(out, "+");
}

fn interpreter_words(p: &PythonInterpreter) -> (r: Vec<char>)
    ensures
        r@ == interpreter_text(p@),
{
    let mut out: Vec<char> = Vec::new();
    append_str(&mut out, p.executable.as_str());
    append_str(&mut out, " (");
    push_decimal(&mut out, p.major as u64);
    append_str(&mut out, ".");
    push_decimal(&mut out, p.minor as u64);
    append_str(&mut out, ".");
    push_decimal(&mut out, p.patch as u64);
    append_str(&mut out, ")");
    out
}

impl DataFileFault {
    /// The message of this fault of the data file `file`.
    pub fn message(&self, file: &str) -> (r: String)
        ensures
            r@ == data_file_message(file@, self@),
    {
        let mut out: Vec<char> = Vec::new();
        match self {
            DataFileFault::Missing => {
                append_str(&mut out, "Missing data file: ");
                append_str(&mut out, file);
            },
            DataFileFault::LfsPointer => {
                append_str(&mut out, "Data file '");
                append_str(&mut out, file);
                append_str(&mut out, "' is a Git LFS pointer, not real data.");
            },
            DataFileFault::NotPickle => {
                append_str(&mut out, "Data file '");
                append_str(&mut out, file);
                append_str(&mut out, "' is not a valid pickle binary.");
            },
            DataFileFault::NotJson => {
                append_str(&mut out, "Data file '");
                append_str(&mut out, file);
                append_str(&mut out, "' does not look like valid JSON.");
            },
            DataFileFault::InvalidJson { parse_error } => {
                append_str(&mut out, "Data file '");
                append_str(&mut out, file);
                append_str(&mut out, "' is invalid JSON: ");
                append_str(&mut out, parse_error.as_str());
            },
            DataFileFault::UnsupportedType => {
                append_str(&mut out, "Unsupported Multi-Aligner data file type for '");
                append_str(&mut out, file);
                append_str(&mut out, "'");
            },
            DataFileFault::DownloadRejected { status } => {
                append_str(&mut out, "Failed to download '");
                append_str(&mut out, file);
                append_str(&mut out, "': HTTP ");
                push_decimal(&mut out, *status as u64);
            },
            DataFileFault::DownloadEmpty => {
                append_str(&mut out, "Downloaded file for '");
                append_str(&mut out, file);
                append_str(&mut out, "' is empty");
            },
        }
        string_from_chars(&out)
    }
}

impl EnvironmentFault {
    /// The message of this fault of the environment of the engine called `label`.
    pub fn message(&self, label: &str) -> (r: String)
        ensures
            r@ == environment_message(label@, self@),
    {
        let mut out: Vec<char> = Vec::new();
        match self {
            EnvironmentFault::ReplaceFailed { detail } => {
                append_str(&mut out, "Failed to replace incompatible Python venv for ");
                append_str(&mut out, label);
                append_str(&mut out, ": ");
                append_str(&mut out, detail.as_str());
            },
            EnvironmentFault::CreateFailed { detail } => {
                append_str(&mut out, "Failed to create Python venv for ");
                append_str(&mut out, label);
                append_str(&mut out, ": ");
                append_str(&mut out, detail.as_str());
            },
            EnvironmentFault::InterpreterMissing => {
                append_str(&mut out, "Python venv created for ");
                append_str(&mut out, label);
                append_str(&mut out, " but python executable was not found");
            },
            EnvironmentFault::VersionTooOld { major, minor } => {
                append_str(&mut out, "Python venv for ");
                append_str(&mut out, label);
                append_str(&mut out, " uses Python ");
                push_decimal(&mut out, *major as u64);
                append_str(&mut out, ".");
                push_decimal(&mut out, *minor as u64);
                append_str(&mut out, " but ");
                push_version(&mut out, MIN_LOCAL_PYTHON_MAJOR, MIN_LOCAL_PYTHON_MINOR);
                append_str(&mut out, " is required.");
            },
            EnvironmentFault::VersionUnknown => {
                append_str(&mut out, "Failed to detect Python version in ");
                append_str(&mut out, label);
                append_str(&mut out, " venv");
            },
        }
        string_from_chars(&out)
    }
}

impl SegmentationError {
    /// The message of this failure, for people.
    pub fn message(&self) -> (r: String)
        ensures
            r@ == message_of(self@),
    {
        let mut out: Vec<char> = Vec::new();
        match self {
            SegmentationError::InvalidInput(kind) => match kind {
                InvalidInput::NoClips => {
                    append_str(&mut out, "No audio clips provided for merge");
                },
                InvalidInput::NoValidClips => {
                    append_str(&mut out, "No valid audio clips to merge");
                },
                InvalidInput::MissingAudioSource => {
                    append_str(&mut out, "Audio file not found: missing audioPath/audioClips");
                },
            },
            SegmentationError::AudioFileNotFound { path } => {
                append_str(&mut out, "Audio file not found: ");
                append_str(&mut out, path.as_str());
            },
            SegmentationError::TranscoderNotFound => {
                append_str(&mut out, "ffmpeg binary not found");
            },
            SegmentationError::ResourceNotFound { path } => {
                append_str(&mut out, "Path not found in resources or dev mode: ");
                append_str(&mut out, path.as_str());
            },
            SegmentationError::UnexpectedEvent => {
                append_str(&mut out, "Unexpected event for the current phase");
            },
            SegmentationError::InvalidParameter { parameter, value } => match parameter {
                Parameter::ModelName => {
                    append_str(&mut out, "Invalid model_name '");
                    append_str(&mut out, value.as_str());
                    append_str(&mut out, "'. Expected 'Base' or 'Large'.");
                },
                Parameter::Device => {
                    append_str(&mut out, "Invalid device '");
                    append_str(&mut out, value.as_str());
                    append_str(&mut out, "'. Expected 'GPU' or 'CPU'.");
                },
            },
            SegmentationError::TranscodeFailed { step, diagnostic } => {
                match step {
                    TranscodeStep::Merge => {
                        append_str(&mut out, "ffmpeg merge error: ");
                    },
                    TranscodeStep::Encode => {
                        append_str(&mut out, "ffmpeg error: ");
                    },
                    TranscodeStep::Resample => {
                        append_str(&mut out, "ffmpeg preprocessing error: ");
                    },
                }
                append_str(&mut out, diagnostic.as_str());
            },
            SegmentationError::EmptyPayload => {
                append_str(&mut out, "Cloud upload payload is empty after preprocessing");
            },
            SegmentationError::UploadFailed(why) => match why {
                UploadFailure::Rejected { status } => {
                    append_str(&mut out, "Upload request error: HTTP ");
                    push_decimal(&mut out, *status as u64);
                },
                UploadFailure::UnreadableResponse => {
                    append_str(&mut out, "Failed to parse upload response");
                },
                UploadFailure::NoPath => {
                    append_str(&mut out, "Upload response was empty");
                },
            },
            SegmentationError::JobSubmitFailed => {
                append_str(&mut out, "Process call did not return an event_id");
            },
            SegmentationError::RemoteStreamError { message } => {
                append_str(&mut out, "Cloud segmentation stream error: ");
                append_str(&mut out, message.as_str());
            },
            SegmentationError::MalformedStreamPayload { parse_error } => {
                append_str(&mut out, "Failed to parse process stream payload: ");
                append_str(&mut out, parse_error.as_str());
            },
            SegmentationError::StreamEndedWithoutResult => {
                append_str(&mut out, "Process stream ended without a result");
            },
            SegmentationError::NoCompatibleInterpreter { min_major, min_minor, found } => {
                if found.len() == 0 {
                    append_str(&mut out, "No usable Python interpreter found. Install Python ");
                    push_version(&mut out, *min_major, *min_minor);
                    append_str(&mut out, " and ensure it is available in PATH.");
                } else {
                    append_str(&mut out, "Python ");
                    push_version(&mut out, *min_major, *min_minor);
                    append_str(&mut out, " is required, but found only: ");
                    let ghost views = interpreter_views(found@);
                    let mut parts: Vec<Vec<char>> = Vec::new();
                    let mut i: usize = 0;
                    while i < found.len()
                        invariant
                            i <= found.len(),
                            views == interpreter_views(found@),
                            texts_of(parts@) == interpreter_texts(views).subrange(0, i as int),
                        decreases found.len() - i,
                    {
                        let ghost before = texts_of(parts@);
                        let words = interpreter_words(&found[i]);
                        parts.push(words);
                        assert(texts_of(parts@) == before.push(interpreter_text(views[i as int])));
                        i += 1;
                    }
                    assert(interpreter_texts(views).subrange(0, found.len() as int)
                        == interpreter_texts(views));
                    let sep = str_chars(", ");
                    let listed = join_chars(&parts, &sep);
                    crate::text::append_chars(&mut out, &listed);
                }
            },
            SegmentationError::EnvironmentCorrupted { engine, cause } => {
                let text = cause.message(engine.as_label());
                append_str(&mut out, text.as_str());
            },
            SegmentationError::DependencyInstallFailed { context, detail } => {
                append_str(&mut out, context.as_str());
                append_str(&mut out, ": ");
                append_str(&mut out, detail.as_str());
            },
            SegmentationError::DataFileInvalid { file, fault } => {
                let text = fault.message(file.as_str());
                append_str(&mut out, text.as_str());
            },
            SegmentationError::EnvironmentNotInstalled { engine } => {
                append_str(&mut out, engine.as_label());
                append_str(
                    &mut out,
                    " local environment is not installed yet. Install dependencies first.",
                );
            },
            SegmentationError::ScriptReportedError { message } => {
                append_str(&mut out, message.as_str());
            },
            SegmentationError::ScriptFailed { output } => {
                append_str(&mut out, "Python script failed: ");
                append_str(&mut out, output.as_str());
            },
            SegmentationError::UnreadableScriptOutput { parse_error, stderr } => {
                append_str(&mut out, "Failed to parse Python output: ");
                append_str(&mut out, parse_error.as_str());
                let chars = str_chars(stderr.as_str());
                if trim_chars(&chars).len() > 0 {
                    append_str(&mut out, " (stderr: ");
                    append_str(&mut out, stderr.as_str());
                    append_str(&mut out, ")");
                }
            },
            SegmentationError::NoOutput => {
                append_str(&mut out, "Python script failed with no output");
            },
            SegmentationError::TokenRequired => {
                append_str(
                    &mut out,
                    "HF token with access to private models (hetchyy/r15_95m, hetchyy/r7) is required for local Multi-Aligner mode.",
                );
            },
        }
        string_from_chars(&out)
    }
}

} // verus!
