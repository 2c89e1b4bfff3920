//! The installation of a local engine's dependencies as a sequence of tasks.
//!
//! The caller runs one task at a time and reports how it ended; this module
//! says which task comes next. Nothing is tried twice, with two exceptions: the
//! accelerated builds of the numerical backend, which are tried one index after
//! the other before the plain build is installed, and a data file that fails
//! validation, which is fetched once and judged again.

use vstd::prelude::*;
use crate::data_files::{content_view, data_file_fault, validate_multi_aligner_data_file};
use crate::error::{
    DataFileFaultView, InterpreterView, PythonInterpreter, SegmentationError, SegmentationErrorView,
};
use crate::text::{
    append_chars, append_str, copy_str, decimal, join, join_chars, push_decimal, push_str_item,
    str_chars, string_from_chars, strings_view, texts_of,
};
use crate::types::LocalSegmentationEngine;
use crate::types::Platform;

verus! {

/// How many package indexes with accelerated builds are tried.
pub const GPU_INDEX_COUNT: usize = 3;

/// The package index with the plain build of the numerical backend.
pub const CPU_INDEX_URL: &'static str = "https://download.pytorch.org/whl/cpu";

/// The one-line program that fails unless acceleration is available.
pub const GPU_CHECK_PROGRAM: &'static str =
    "import torch; assert torch.cuda.is_available(), 'cuda not available'";

/// The tool whose success tells that an accelerator is present.
pub const GPU_DETECT_COMMAND: &'static str = "nvidia-smi";

/// The address of the package index number `index` with accelerated builds,
/// most wanted first.
pub open spec fn gpu_index_url_spec(index: int) -> Seq<char> {
    if index == 0 {
        "https://download.pytorch.org/whl/cu124"@
    } else if index == 1 {
        "https://download.pytorch.org/whl/cu121"@
    } else {
        "https://download.pytorch.org/whl/cu118"@
    }
}

/// The address of the package index number `index` with accelerated builds.
pub fn gpu_index_url(index: usize) -> (r: &'static str)
    ensures
        r@ == gpu_index_url_spec(index as int),
{
    if index == 0 {
        "https://download.pytorch.org/whl/cu124"
    } else if index == 1 {
        "https://download.pytorch.org/whl/cu121"
    } else {
        "https://download.pytorch.org/whl/cu118"
    }
}

/// One task of an installation.
#[derive(Debug, Clone, Copy, PartialEq, Eq, Structural)]
pub enum InstallTask {
    /// Upgrade the packaging tools themselves.
    UpgradePip,
    /// Find out whether an accelerator is present.
    DetectGpu,
    /// Install the accelerated backend from the package index `index`.
    InstallGpuBackend { index: usize },
    /// Check at run time that the backend just installed is accelerated.
    VerifyGpu { index: usize },
    /// Install the plain backend.
    InstallCpuBackend,
    /// Install the backend as the package manager picks it.
    InstallDefaultBackend,
    /// Filter the engine's requirements and install them in one batch.
    InstallRequirements,
    /// Validate the model data files and fetch those that are not valid.
    RepairDataFiles,
    /// Stage a copy of the phonemizer's source that the system can hold.
    StagePhonemizer,
    /// Install the phonemizer from the staged copy.
    InstallStagedPhonemizer,
    /// Install the phonemizer from its archive.
    InstallPhonemizer,
}

/// How a task ended.
#[derive(Debug, PartialEq, Eq)]
pub enum TaskOutcome {
    Succeeded,
    /// The task failed; `detail` is what its process wrote.
    Failed { detail: String },
    /// The task gave up with a failure of its own.
    Aborted { error: SegmentationError },
}

/// An outcome as the contracts see it.
pub enum TaskOutcomeView {
    Succeeded,
    Failed { detail: Seq<char> },
    Aborted { error: SegmentationErrorView },
}

impl View for TaskOutcome {
    type V = TaskOutcomeView;

    open spec fn view(&self) -> TaskOutcomeView {
        match self {
            TaskOutcome::Succeeded => TaskOutcomeView::Succeeded,
            TaskOutcome::Failed { detail } => TaskOutcomeView::Failed { detail: detail@ },
            TaskOutcome::Aborted { error } => TaskOutcomeView::Aborted { error: error@ },
        }
    }
}

/// What comes after a task.
#[derive(Debug, PartialEq, Eq)]
pub enum InstallStep {
    /// The installation goes on with this one.
    Run(InstallTask),
    /// Everything is installed.
    Done,
    /// The installation failed.
    Fail(SegmentationError),
}

/// A step as the contracts see it.
pub enum InstallStepView {
    Run(InstallTask),
    Done,
    Fail(SegmentationErrorView),
}

impl View for InstallStep {
    type V = InstallStepView;

    open spec fn view(&self) -> InstallStepView {
        match self {
            InstallStep::Run(task) => InstallStepView::Run(*task),
            InstallStep::Done => InstallStepView::Done,
            InstallStep::Fail(error) => InstallStepView::Fail(error@),
        }
    }
}

/// The words that name a task in the failure it causes.
pub open spec fn task_context(task: InstallTask) -> Seq<char> {
    match task {
        InstallTask::UpgradePip => "Failed to upgrade pip"@,
        InstallTask::DetectGpu => "Failed to detect an accelerator"@,
        InstallTask::InstallGpuBackend { .. } => "Failed to install CUDA PyTorch"@,
        InstallTask::VerifyGpu { .. } => "Failed to verify CUDA PyTorch"@,
        InstallTask::InstallCpuBackend => "Failed to install CPU PyTorch"@,
        InstallTask::InstallDefaultBackend => "Failed to install PyTorch"@,
        InstallTask::InstallRequirements => "pip install failed"@,
        InstallTask::RepairDataFiles => "Failed to repair Multi-Aligner data files"@,
        InstallTask::StagePhonemizer => "Failed to patch Quranic-Phonemizer source on Windows"@,
        InstallTask::InstallStagedPhonemizer => "Failed to install patched Quranic-Phonemizer"@,
        InstallTask::InstallPhonemizer => "Failed to install Quranic-Phonemizer"@,
    }
}

/// The words that name a task in the failure it causes.
pub fn context_of(task: InstallTask) -> (r: &'static str)
    ensures
        r@ == task_context(task),
{
    match task {
        InstallTask::UpgradePip => "Failed to upgrade pip",
        InstallTask::DetectGpu => "Failed to detect an accelerator",
        InstallTask::InstallGpuBackend { .. } => "Failed to install CUDA PyTorch",
        InstallTask::VerifyGpu { .. } => "Failed to verify CUDA PyTorch",
        InstallTask::InstallCpuBackend => "Failed to install CPU PyTorch",
        InstallTask::InstallDefaultBackend => "Failed to install PyTorch",
        InstallTask::InstallRequirements => "pip install failed",
        InstallTask::RepairDataFiles => "Failed to repair Multi-Aligner data files",
        InstallTask::StagePhonemizer => "Failed to patch Quranic-Phonemizer source on Windows",
        InstallTask::InstallStagedPhonemizer => "Failed to install patched Quranic-Phonemizer",
        InstallTask::InstallPhonemizer => "Failed to install Quranic-Phonemizer",
    }
}

/// The failure of a task with what its process wrote.
pub open spec fn task_failure(task: InstallTask, detail: Seq<char>) -> InstallStepView {
    InstallStepView::Fail(
        SegmentationErrorView::DependencyInstallFailed { context: task_context(task), detail },
    )
}

/// What follows an accelerated attempt that did not work out: the next index,
/// and after the last one the plain build.
pub open spec fn after_failed_attempt(index: usize) -> InstallStepView {
    if index + 1 < GPU_INDEX_COUNT {
        InstallStepView::Run(InstallTask::InstallGpuBackend { index: (index + 1) as usize })
    } else {
        InstallStepView::Run(InstallTask::InstallCpuBackend)
    }
}

/// What follows the install of the engine's requirements.
pub open spec fn after_requirements(engine: LocalSegmentationEngine) -> InstallStepView {
    match engine {
        LocalSegmentationEngine::MultiAligner => InstallStepView::Run(InstallTask::RepairDataFiles),
        LocalSegmentationEngine::LegacyWhisper => InstallStepView::Done,
    }
}

/// The first task of every installation.
pub open spec fn first_task() -> InstallTask {
    InstallTask::UpgradePip
}

/// What comes after `task`, given how it ended.
///
/// The tasks follow each other in a fixed order and the first failure ends the
/// installation, except on the accelerated attempts: an attempt counts only if
/// both its install and its run-time check succeed, a failed attempt leads to
/// the next index, and when none is left, or no accelerator was detected, the
/// plain build is installed and must succeed.
pub open spec fn install_next(
    task: InstallTask,
    engine: LocalSegmentationEngine,
    platform: Platform,
    outcome: TaskOutcomeView,
) -> InstallStepView {
    match outcome {
        TaskOutcomeView::Aborted { error } => InstallStepView::Fail(error),
        TaskOutcomeView::Failed { detail } => match task {
            InstallTask::DetectGpu => InstallStepView::Run(InstallTask::InstallCpuBackend),
            InstallTask::InstallGpuBackend { index } => after_failed_attempt(index),
            InstallTask::VerifyGpu { index } => after_failed_attempt(index),
            _ => task_failure(task, detail),
        },
        TaskOutcomeView::Succeeded => match task {
            InstallTask::UpgradePip => if platform == Platform::Windows {
                InstallStepView::Run(InstallTask::DetectGpu)
            } else {
                InstallStepView::Run(InstallTask::InstallDefaultBackend)
            },
            InstallTask::DetectGpu => InstallStepView::Run(
                InstallTask::InstallGpuBackend { index: 0 },
            ),
            InstallTask::InstallGpuBackend { index } => InstallStepView::Run(
                InstallTask::VerifyGpu { index },
            ),
            InstallTask::VerifyGpu { .. } => InstallStepView::Run(InstallTask::InstallRequirements),
            InstallTask::InstallCpuBackend => InstallStepView::Run(
                InstallTask::InstallRequirements,
            ),
            InstallTask::InstallDefaultBackend => InstallStepView::Run(
                InstallTask::InstallRequirements,
            ),
            InstallTask::InstallRequirements => after_requirements(engine),
            InstallTask::RepairDataFiles => if platform == Platform::Windows {
                InstallStepView::Run(InstallTask::StagePhonemizer)
            } else {
                InstallStepView::Run(InstallTask::InstallPhonemizer)
            },
            InstallTask::StagePhonemizer => InstallStepView::Run(
                InstallTask::InstallStagedPhonemizer,
            ),
            InstallTask::InstallStagedPhonemizer => InstallStepView::Done,
            InstallTask::InstallPhonemizer => InstallStepView::Done,
        },
    }
}

/// How far a task is from the end of the longest installation.
pub open spec fn tasks_ahead(task: InstallTask) -> nat {
    match task {
        InstallTask::UpgradePip => 12,
        InstallTask::DetectGpu => 11,
        InstallTask::InstallGpuBackend { index } => if index == 0 {
            10
        } else if index == 1 {
            8
        } else {
            6
        },
        InstallTask::VerifyGpu { index } => if index == 0 {
            9
        } else if index == 1 {
            7
        } else {
            5
        },
        InstallTask::InstallCpuBackend => 4,
        InstallTask::InstallDefaultBackend => 4,
        InstallTask::InstallRequirements => 3,
        InstallTask::RepairDataFiles => 2,
        InstallTask::StagePhonemizer => 1,
        InstallTask::InstallStagedPhonemizer => 0,
        InstallTask::InstallPhonemizer => 0,
    }
}

/// Every installation ends: each task that follows another is nearer to the
/// end, so no task is ever run twice and at most thirteen are run.
pub proof fn lemma_installation_ends(
    task: InstallTask,
    engine: LocalSegmentationEngine,
    platform: Platform,
    outcome: TaskOutcomeView,
)
    ensures
        install_next(task, engine, platform, outcome) matches InstallStepView::Run(next)
            ==> tasks_ahead(next) < tasks_ahead(task),
{
}

/// An accelerated build counts only once its run-time check has succeeded:
/// no install of one leads straight to the requirements.
pub proof fn lemma_accelerated_build_is_verified(
    index: usize,
    engine: LocalSegmentationEngine,
    platform: Platform,
    outcome: TaskOutcomeView,
)
    ensures
        install_next(InstallTask::InstallGpuBackend { index }, engine, platform, outcome)
            != InstallStepView::Run(InstallTask::InstallRequirements),
        install_next(InstallTask::VerifyGpu { index }, engine, platform, outcome)
            == InstallStepView::Run(InstallTask::InstallRequirements) <==> outcome is Succeeded,
{
}

/// A failed accelerated attempt never ends the installation: it leads to
/// another attempt or to the plain build.
pub proof fn lemma_accelerated_failure_falls_back(
    index: usize,
    engine: LocalSegmentationEngine,
    platform: Platform,
    detail: Seq<char>,
)
    ensures
        install_next(
            InstallTask::InstallGpuBackend { index },
            engine,
            platform,
            TaskOutcomeView::Failed { detail },
        ) is Run,
        install_next(
            InstallTask::VerifyGpu { index },
            engine,
            platform,
            TaskOutcomeView::Failed { detail },
        ) is Run,
        index + 1 >= GPU_INDEX_COUNT ==> install_next(
            InstallTask::VerifyGpu { index },
            engine,
            platform,
            TaskOutcomeView::Failed { detail },
        ) == InstallStepView::Run(InstallTask::InstallCpuBackend),
        install_next(InstallTask::DetectGpu, engine, platform, TaskOutcomeView::Failed { detail })
            == InstallStepView::Run(InstallTask::InstallCpuBackend),
{
}

fn fail_task(task: InstallTask, detail: String) -> (r: InstallStep)
    ensures
        r@ == task_failure(task, detail@),
{
    InstallStep::Fail(
        SegmentationError::DependencyInstallFailed { context: copy_str(context_of(task)), detail },
    )
}

fn next_attempt(index: usize) -> (r: InstallStep)
    ensures
        r@ == after_failed_attempt(index),
{
    if index < GPU_INDEX_COUNT - 1 {
        InstallStep::Run(InstallTask::InstallGpuBackend { index: index + 1 })
    } else {
        InstallStep::Run(InstallTask::InstallCpuBackend)
    }
}

/// The task that every installation begins with.
pub fn start_install() -> (r: InstallTask)
    ensures
        r == first_task(),
{
    InstallTask::UpgradePip
}

/// Says what comes after `task`, given how it ended.
pub fn install_local_segmentation_deps(
    task: InstallTask,
    engine: LocalSegmentationEngine,
    platform: Platform,
    outcome: TaskOutcome,
) -> (r: InstallStep)
    ensures
        r@ == install_next(task, engine, platform, outcome@),
{
    match outcome {
        TaskOutcome::Aborted { error } => InstallStep::Fail(error),
        TaskOutcome::Failed { detail } => match task {
            InstallTask::DetectGpu => InstallStep::Run(InstallTask::InstallCpuBackend),
            InstallTask::InstallGpuBackend { index } => next_attempt(index),
            InstallTask::VerifyGpu { index } => next_attempt(index),
            _ => fail_task(task, detail),
        },
        TaskOutcome::Succeeded => match task {
            InstallTask::UpgradePip => match platform {
                Platform::Windows => InstallStep::Run(InstallTask::DetectGpu),
                _ => InstallStep::Run(InstallTask::InstallDefaultBackend),
            },
            InstallTask::DetectGpu => InstallStep::Run(InstallTask::InstallGpuBackend { index: 0 }),
            InstallTask::InstallGpuBackend { index } => InstallStep::Run(
                InstallTask::VerifyGpu { index },
            ),
            InstallTask::VerifyGpu { .. } => InstallStep::Run(InstallTask::InstallRequirements),
            InstallTask::InstallCpuBackend => InstallStep::Run(InstallTask::InstallRequirements),
            InstallTask::InstallDefaultBackend => InstallStep::Run(
                InstallTask::InstallRequirements,
            ),
            InstallTask::InstallRequirements => match engine {
                LocalSegmentationEngine::MultiAligner => InstallStep::Run(
                    InstallTask::RepairDataFiles,
                ),
                LocalSegmentationEngine::LegacyWhisper => InstallStep::Done,
            },
            InstallTask::RepairDataFiles => match platform {
                Platform::Windows => InstallStep::Run(InstallTask::StagePhonemizer),
                _ => InstallStep::Run(InstallTask::InstallPhonemizer),
            },
            InstallTask::StagePhonemizer => InstallStep::Run(InstallTask::InstallStagedPhonemizer),
            InstallTask::InstallStagedPhonemizer => InstallStep::Done,
            InstallTask::InstallPhonemizer => InstallStep::Done,
        },
    }
}

/// The arguments that install or upgrade the numerical backend, from the
/// package index `index_url` if one is given.
pub open spec fn backend_args(index_url: Option<Seq<char>>) -> Seq<Seq<char>> {
    seq!["-m"@, "pip"@, "install"@, "--upgrade"@, "torch"@, "torchvision"@, "torchaudio"@] + (
    match index_url {
        Some(url) => seq!["--index-url"@, url],
        None => Seq::empty(),
    }) + seq!["--quiet"@]
}

/// The interpreter's arguments for a task that runs the package manager or the
/// interpreter itself. `target` is the file or directory that the task works
/// on: the filtered requirements for `InstallRequirements`, the staged source
/// for `InstallStagedPhonemizer`. A task that runs something else has none.
pub open spec fn task_args(task: InstallTask, target: Seq<char>) -> Option<Seq<Seq<char>>> {
    match task {
        InstallTask::UpgradePip => Some(
            seq![
                "-m"@,
                "pip"@,
                "install"@,
                "--upgrade"@,
                "pip"@,
                "setuptools"@,
                "wheel"@,
                "--quiet"@,
            ],
        ),
        InstallTask::InstallGpuBackend { index } => Some(
            backend_args(Some(gpu_index_url_spec(index as int))),
        ),
        InstallTask::VerifyGpu { .. } => Some(seq!["-c"@, GPU_CHECK_PROGRAM@]),
        InstallTask::InstallCpuBackend => Some(backend_args(Some(CPU_INDEX_URL@))),
        InstallTask::InstallDefaultBackend => Some(backend_args(None)),
        InstallTask::InstallRequirements => Some(
            seq!["-m"@, "pip"@, "install"@, "-r"@, target, "--quiet"@],
        ),
        InstallTask::InstallStagedPhonemizer => Some(
            seq!["-m"@, "pip"@, "install"@, "--upgrade"@, target, "--quiet"@],
        ),
        InstallTask::InstallPhonemizer => Some(
            seq![
                "-m"@,
                "pip"@,
                "install"@,
                "--upgrade"@,
                crate::requirements::PHONEMIZER_ARCHIVE_URL@,
                "--quiet"@,
            ],
        ),
        _ => None,
    }
}

fn backend_install_args(index_url: Option<&str>) -> (r: Vec<String>)
    ensures
        strings_view(r@) == backend_args(
            match index_url {
                Some(u) => Some(u@),
                None => None,
            },
        ),
{
    let mut args: Vec<String> = Vec::new();
    push_str_item(&mut args, "-m");
    push_str_item(&mut args, "pip");
    push_str_item(&mut args, "install");
    push_str_item(&mut args, "--upgrade");
    push_str_item(&mut args, "torch");
    push_str_item(&mut args, "torchvision");
    push_str_item(&mut args, "torchaudio");
    match index_url {
        Some(url) => {
            push_str_item(&mut args, "--index-url");
            push_str_item(&mut args, url);
        },
        None => {},
    }
    push_str_item(&mut args, "--quiet");
    args
}

/// The interpreter's arguments for `task`, if it is one that runs the
/// interpreter.
pub fn args_of(task: InstallTask, target: &str) -> (r: Option<Vec<String>>)
    ensures
        match r {
            Some(args) => task_args(task, target@) == Some(strings_view(args@)),
            None => task_args(task, target@) is None,
        },
{
    match task {
        InstallTask::UpgradePip => {
            let mut args: Vec<String> = Vec::new();
            push_str_item(&mut args, "-m");
            push_str_item(&mut args, "pip");
            push_str_item(&mut args, "install");
            push_str_item(&mut args, "--upgrade");
            push_str_item(&mut args, "pip");
            push_str_item(&mut args, "setuptools");
            push_str_item(&mut args, "wheel");
            push_str_item(&mut args, "--quiet");
            Some(args)
        },
        InstallTask::InstallGpuBackend { index } => Some(
            backend_install_args(Some(gpu_index_url(index))),
        ),
        InstallTask::VerifyGpu { .. } => {
            let mut args: Vec<String> = Vec::new();
            push_str_item(&mut args, "-c");
            push_str_item(&mut args, GPU_CHECK_PROGRAM);
            Some(args)
        },
        InstallTask::InstallCpuBackend => Some(backend_install_args(Some(CPU_INDEX_URL))),
        InstallTask::InstallDefaultBackend => Some(backend_install_args(None)),
        InstallTask::InstallRequirements => {
            let mut args: Vec<String> = Vec::new();
            push_str_item(&mut args, "-m");
            push_str_item(&mut args, "pip");
            push_str_item(&mut args, "install");
            push_str_item(&mut args, "-r");
            push_str_item(&mut args, target);
            push_str_item(&mut args, "--quiet");
            Some(args)
        },
        InstallTask::InstallStagedPhonemizer => {
            let mut args: Vec<String> = Vec::new();
            push_str_item(&mut args, "-m");
            push_str_item(&mut args, "pip");
            push_str_item(&mut args, "install");
            push_str_item(&mut args, "--upgrade");
            push_str_item(&mut args, target);
            push_str_item(&mut args, "--quiet");
            Some(args)
        },
        InstallTask::InstallPhonemizer => {
            let mut args: Vec<String> = Vec::new();
            push_str_item(&mut args, "-m");
            push_str_item(&mut args, "pip");
            push_str_item(&mut args, "install");
            push_str_item(&mut args, "--upgrade");
            push_str_item(&mut args, crate::requirements::PHONEMIZER_ARCHIVE_URL);
            push_str_item(&mut args, "--quiet");
            Some(args)
        },
        _ => None,
    }
}

/// What is announced when a task begins, if anything.
pub open spec fn announcement(task: InstallTask) -> Option<Seq<char>> {
    match task {
        InstallTask::UpgradePip => Some("Upgrading pip..."@),
        InstallTask::DetectGpu => Some("Installing PyTorch (CPU fallback available)..."@),
        InstallTask::InstallGpuBackend { index } => Some(
            "Trying CUDA PyTorch from "@ + gpu_index_url_spec(index as int) + "..."@,
        ),
        InstallTask::VerifyGpu { .. } => None,
        InstallTask::InstallCpuBackend => Some("Installing PyTorch CPU build..."@),
        InstallTask::InstallDefaultBackend => Some("Installing PyTorch..."@),
        InstallTask::InstallRequirements => Some("Installing Python packages..."@),
        InstallTask::RepairDataFiles => Some("Checking Multi-Aligner data files..."@),
        InstallTask::StagePhonemizer => Some("Installing Quranic-Phonemizer dependency..."@),
        InstallTask::InstallStagedPhonemizer => None,
        InstallTask::InstallPhonemizer => Some("Installing Quranic-Phonemizer dependency..."@),
    }
}

/// What is announced when `task` begins.
pub fn announce(task: InstallTask) -> (r: Option<String>)
    ensures
        match r {
            Some(m) => announcement(task) == Some(m@),
            None => announcement(task) is None,
        },
{
    match task {
        InstallTask::UpgradePip => Some(copy_str("Upgrading pip...")),
        InstallTask::DetectGpu => Some(copy_str("Installing PyTorch (CPU fallback available)...")),
        InstallTask::InstallGpuBackend { index } => {
            let mut out: Vec<char> = Vec::new();
            append_str(&mut out, "Trying CUDA PyTorch from ");
            append_str(&mut out, gpu_index_url(index));
            append_str(&mut out, "...");
            Some(string_from_chars(&out))
        },
        InstallTask::VerifyGpu { .. } => None,
        InstallTask::InstallCpuBackend => Some(copy_str("Installing PyTorch CPU build...")),
        InstallTask::InstallDefaultBackend => Some(copy_str("Installing PyTorch...")),
        InstallTask::InstallRequirements => Some(copy_str("Installing Python packages...")),
        InstallTask::RepairDataFiles => Some(copy_str("Checking Multi-Aligner data files...")),
        InstallTask::StagePhonemizer => Some(copy_str("Installing Quranic-Phonemizer dependency...")),
        InstallTask::InstallStagedPhonemizer => None,
        InstallTask::InstallPhonemizer => Some(
            copy_str("Installing Quranic-Phonemizer dependency..."),
        ),
    }
}

/// The message of a finished installation.
pub fn installed_message(engine: LocalSegmentationEngine) -> (r: String)
    ensures
        r@ == engine.label() + " dependencies installed successfully"@,
{
    let mut out: Vec<char> = Vec::new();
    append_str(&mut out, engine.as_label());
    append_str(&mut out, " dependencies installed successfully");
    string_from_chars(&out)
}

/// What to do about a data file.
#[derive(Debug, PartialEq, Eq)]
pub enum FileDecision {
    /// The file is valid.
    Accept,
    /// The file is not valid: fetch it and judge it again.
    Fetch,
    /// The file is not valid although it was just fetched.
    Reject { error: SegmentationError },
}

/// A decision as the contracts see it.
pub enum FileDecisionView {
    Accept,
    Fetch,
    Reject { error: SegmentationErrorView },
}

impl View for FileDecision {
    type V = FileDecisionView;

    open spec fn view(&self) -> FileDecisionView {
        match self {
            FileDecision::Accept => FileDecisionView::Accept,
            FileDecision::Fetch => FileDecisionView::Fetch,
            FileDecision::Reject { error } => FileDecisionView::Reject { error: error@ },
        }
    }
}

/// What to do about the data file `name` with the given content, where
/// `fetched` says whether it was fetched since the installation began.
pub open spec fn file_decision(
    name: Seq<char>,
    content: Option<Seq<u8>>,
    fetched: bool,
) -> FileDecisionView {
    match data_file_fault(name, content) {
        None => FileDecisionView::Accept,
        Some(fault) => if fetched {
            FileDecisionView::Reject {
                error: SegmentationErrorView::DataFileInvalid { file: name, fault },
            }
        } else {
            FileDecisionView::Fetch
        },
    }
}

/// A valid file is accepted whether or not it was fetched, so judging a file
/// again without fetching it in between changes nothing; and a file is fetched
/// at most once.
pub proof fn lemma_revalidation_is_idempotent(name: Seq<char>, content: Option<Seq<u8>>)
    ensures
        file_decision(name, content, false) is Accept <==> file_decision(name, content, true)
            is Accept,
        !(file_decision(name, content, true) is Fetch),
        file_decision(name, content, false) is Accept <==> data_file_fault(name, content) is None,
{
}

/// Decides what to do about the data file `name`.
pub fn ensure_multi_aligner_data_files(name: &str, content: Option<&[u8]>, fetched: bool) -> (r: FileDecision)
    ensures
        r@ == file_decision(name@, content_view(content), fetched),
{
    match validate_multi_aligner_data_file(name, content) {
        Ok(_) => FileDecision::Accept,
        Err(fault) => {
            if fetched {
                FileDecision::Reject {
                    error: SegmentationError::DataFileInvalid { file: copy_str(name), fault },
                }
            } else {
                FileDecision::Fetch
            }
        },
    }
}

/// What a download comes to: a failed one rejects the file.
pub fn download_binary_file(name: &str, status: u16, len: usize) -> (r: Result<
    (),
    SegmentationError,
>)
    ensures
        match r {
            Ok(_) => 200 <= status <= 299 && len > 0,
            Err(e) => e@ == SegmentationErrorView::DataFileInvalid {
                file: name@,
                fault: if !(200 <= status <= 299) {
                    DataFileFaultView::DownloadRejected { status }
                } else {
                    DataFileFaultView::DownloadEmpty
                },
            } && !(200 <= status <= 299 && len > 0),
        },
{
    match crate::data_files::check_download(status, len) {
        Ok(_) => Ok(()),
        Err(fault) => Err(SegmentationError::DataFileInvalid { file: copy_str(name), fault }),
    }
}


/// What is announced once the system interpreter is found.
pub open spec fn using_python(p: InterpreterView) -> Seq<char> {
    "Using Python "@ + decimal(p.major as nat) + "."@ + decimal(p.minor as nat) + "."@ + decimal(
        p.patch as nat,
    ) + " ("@ + p.executable + ")"@
}

/// What is announced once the system interpreter is found.
pub fn using_python_message(p: &PythonInterpreter) -> (r: String)
    ensures
        r@ == using_python(p@),
{
    let mut out: Vec<char> = Vec::new();
    append_str(&mut out, "Using Python ");
    push_decimal(&mut out, p.major as u64);
    append_str(&mut out, ".");
    push_decimal(&mut out, p.minor as u64);
    append_str(&mut out, ".");
    push_decimal(&mut out, p.patch as u64);
    append_str(&mut out, " (");
    append_str(&mut out, p.executable.as_str());
    append_str(&mut out, ")");
    string_from_chars(&out)
}

/// What is announced before an engine's environment is created.
pub fn preparing_message(engine: LocalSegmentationEngine) -> (r: String)
    ensures
        r@ == "Preparing "@ + engine.label() + " local environment..."@,
{
    let mut out: Vec<char> = Vec::new();
    append_str(&mut out, "Preparing ");
    append_str(&mut out, engine.as_label());
    append_str(&mut out, " local environment...");
    string_from_chars(&out)
}

/// What is announced after data files were fetched; nothing when none was.
pub fn repaired_message(names: &Vec<String>) -> (r: Option<String>)
    ensures
        match r {
            Some(m) => names@.len() > 0 && m@ == "Repaired Multi-Aligner data files: "@ + join(
                strings_view(names@),
                ", "@,
            ),
            None => names@.len() == 0,
        },
{
    if names.len() == 0 {
        return None;
    }
    let mut parts: Vec<Vec<char>> = Vec::new();
    let mut i: usize = 0;
    while i < names.len()
        invariant
            i <= names.len(),
            texts_of(parts@) == strings_view(names@).subrange(0, i as int),
        decreases names.len() - i,
    {
        let ghost before = texts_of(parts@);
        parts.push(str_chars(names[i].as_str()));
        assert(texts_of(parts@) == before.push(strings_view(names@)[i as int]));
        i += 1;
    }
    assert(strings_view(names@).subrange(0, names.len() as int) == strings_view(names@));
    let sep = str_chars(", ");
    let listed = join_chars(&parts, &sep);
    let mut out = str_chars("Repaired Multi-Aligner data files: ");
    append_chars(&mut out, &listed);
    Some(string_from_chars(&out))
}

/// What is announced last.
pub const INSTALLED_ANNOUNCEMENT: &'static str = "Local dependencies installed successfully.";

/// The failure of an installation that found no system interpreter: the
/// reason, preceded by what is required.
pub open spec fn interpreter_required(reason: Seq<char>) -> Seq<char> {
    "Python "@ + crate::error::version_text(
        crate::python_env::MIN_LOCAL_PYTHON_MAJOR,
        crate::python_env::MIN_LOCAL_PYTHON_MINOR,
    ) + " is required to install local dependencies: "@ + reason
}

/// The message of an installation that found no system interpreter.
pub fn interpreter_required_message(error: &SegmentationError) -> (r: String)
    ensures
        r@ == interpreter_required(crate::error::message_of(error@)),
{
    let mut out: Vec<char> = Vec::new();
    append_str(&mut out, "Python ");
    push_decimal(&mut out, crate::python_env::MIN_LOCAL_PYTHON_MAJOR as u64);
    append_str(&mut out, ".");
    push_decimal(&mut out, crate::python_env::MIN_LOCAL_PYTHON_MINOR as u64);
    append_str(&mut out, "+");
    append_str(&mut out, " is required to install local dependencies: ");
    let reason = error.message();
    append_str(&mut out, reason.as_str());
    string_from_chars(&out)
}

} // verus!
