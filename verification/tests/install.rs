use quran_segmentation::error::SegmentationError;
use quran_segmentation::error::PythonInterpreter;
use quran_segmentation::install::{
    interpreter_required_message, preparing_message, repaired_message, using_python_message,
    INSTALLED_ANNOUNCEMENT, announce, args_of, context_of, gpu_index_url, install_local_segmentation_deps,
    installed_message, start_install, InstallStep, InstallTask, TaskOutcome,
};
use quran_segmentation::types::Platform;
use quran_segmentation::types::LocalSegmentationEngine;

const LEGACY: LocalSegmentationEngine = LocalSegmentationEngine::LegacyWhisper;
const MULTI: LocalSegmentationEngine = LocalSegmentationEngine::MultiAligner;

fn failed(detail: &str) -> TaskOutcome {
    TaskOutcome::Failed { detail: detail.to_string() }
}

fn walk(engine: LocalSegmentationEngine, platform: Platform, fails: &[InstallTask]) -> (Vec<InstallTask>, InstallStep) {
    let mut task = start_install();
    let mut seen = vec![task];
    loop {
        let outcome = if fails.contains(&task) { failed("nope") } else { TaskOutcome::Succeeded };
        match install_local_segmentation_deps(task, engine, platform, outcome) {
            InstallStep::Run(next) => {
                task = next;
                seen.push(task);
                assert!(seen.len() < 50);
            }
            end => return (seen, end),
        }
    }
}

#[test]
fn the_legacy_engine_on_linux_takes_three_tasks() {
    let (seen, end) = walk(LEGACY, Platform::Other, &[]);
    assert_eq!(seen, vec![InstallTask::UpgradePip, InstallTask::InstallDefaultBackend, InstallTask::InstallRequirements]);
    assert_eq!(end, InstallStep::Done);
}

#[test]
fn the_multi_aligner_on_macos_repairs_data_and_installs_the_phonemizer() {
    let (seen, end) = walk(MULTI, Platform::MacOs, &[]);
    assert_eq!(
        seen,
        vec![
            InstallTask::UpgradePip,
            InstallTask::InstallDefaultBackend,
            InstallTask::InstallRequirements,
            InstallTask::RepairDataFiles,
            InstallTask::InstallPhonemizer,
        ]
    );
    assert_eq!(end, InstallStep::Done);
}

#[test]
fn windows_with_an_accelerator_takes_the_first_index_that_verifies() {
    let (seen, end) = walk(MULTI, Platform::Windows, &[]);
    assert_eq!(
        seen,
        vec![
            InstallTask::UpgradePip,
            InstallTask::DetectGpu,
            InstallTask::InstallGpuBackend { index: 0 },
            InstallTask::VerifyGpu { index: 0 },
            InstallTask::InstallRequirements,
            InstallTask::RepairDataFiles,
            InstallTask::StagePhonemizer,
            InstallTask::InstallStagedPhonemizer,
        ]
    );
    assert_eq!(end, InstallStep::Done);
}

#[test]
fn a_failed_install_or_check_leads_to_the_next_index() {
    let (seen, end) = walk(
        LEGACY,
        Platform::Windows,
        &[InstallTask::InstallGpuBackend { index: 0 }, InstallTask::VerifyGpu { index: 1 }],
    );
    assert_eq!(
        seen,
        vec![
            InstallTask::UpgradePip,
            InstallTask::DetectGpu,
            InstallTask::InstallGpuBackend { index: 0 },
            InstallTask::InstallGpuBackend { index: 1 },
            InstallTask::VerifyGpu { index: 1 },
            InstallTask::InstallGpuBackend { index: 2 },
            InstallTask::VerifyGpu { index: 2 },
            InstallTask::InstallRequirements,
        ]
    );
    assert_eq!(end, InstallStep::Done);
}

#[test]
fn when_every_accelerated_attempt_fails_the_plain_build_is_installed() {
    let (seen, end) = walk(
        LEGACY,
        Platform::Windows,
        &[
            InstallTask::VerifyGpu { index: 0 },
            InstallTask::InstallGpuBackend { index: 1 },
            InstallTask::VerifyGpu { index: 2 },
        ],
    );
    assert_eq!(
        seen,
        vec![
            InstallTask::UpgradePip,
            InstallTask::DetectGpu,
            InstallTask::InstallGpuBackend { index: 0 },
            InstallTask::VerifyGpu { index: 0 },
            InstallTask::InstallGpuBackend { index: 1 },
            InstallTask::InstallGpuBackend { index: 2 },
            InstallTask::VerifyGpu { index: 2 },
            InstallTask::InstallCpuBackend,
            InstallTask::InstallRequirements,
        ]
    );
    assert_eq!(end, InstallStep::Done);
}

#[test]
fn without_an_accelerator_the_plain_build_is_installed_at_once() {
    let (seen, end) = walk(LEGACY, Platform::Windows, &[InstallTask::DetectGpu]);
    assert_eq!(
        seen,
        vec![InstallTask::UpgradePip, InstallTask::DetectGpu, InstallTask::InstallCpuBackend, InstallTask::InstallRequirements]
    );
    assert_eq!(end, InstallStep::Done);
}

#[test]
fn any_other_failure_ends_the_installation_with_its_context() {
    let cases = [
        (InstallTask::UpgradePip, "Failed to upgrade pip"),
        (InstallTask::InstallCpuBackend, "Failed to install CPU PyTorch"),
        (InstallTask::InstallDefaultBackend, "Failed to install PyTorch"),
        (InstallTask::InstallRequirements, "pip install failed"),
        (InstallTask::RepairDataFiles, "Failed to repair Multi-Aligner data files"),
        (InstallTask::StagePhonemizer, "Failed to patch Quranic-Phonemizer source on Windows"),
        (InstallTask::InstallStagedPhonemizer, "Failed to install patched Quranic-Phonemizer"),
        (InstallTask::InstallPhonemizer, "Failed to install Quranic-Phonemizer"),
    ];
    for (task, context) in cases {
        assert_eq!(context_of(task), context);
        let step = install_local_segmentation_deps(task, MULTI, Platform::Windows, failed("exit 1"));
        let expected = SegmentationError::DependencyInstallFailed {
            context: context.to_string(),
            detail: "exit 1".to_string(),
        };
        assert_eq!(expected.message(), format!("{}: exit 1", context));
        assert_eq!(step, InstallStep::Fail(expected));
    }
}

#[test]
fn a_failure_of_a_tasks_own_is_passed_on() {
    let error = SegmentationError::TokenRequired;
    for task in [InstallTask::RepairDataFiles, InstallTask::VerifyGpu { index: 0 }, InstallTask::DetectGpu] {
        assert_eq!(
            install_local_segmentation_deps(task, MULTI, Platform::Other, TaskOutcome::Aborted { error: error.clone() }),
            InstallStep::Fail(error.clone())
        );
    }
}

#[test]
fn an_index_past_the_last_falls_back_too() {
    assert_eq!(
        install_local_segmentation_deps(InstallTask::VerifyGpu { index: usize::MAX }, LEGACY, Platform::Windows, failed("")),
        InstallStep::Run(InstallTask::InstallCpuBackend)
    );
    assert_eq!(
        install_local_segmentation_deps(InstallTask::InstallGpuBackend { index: 2 }, LEGACY, Platform::Windows, failed("")),
        InstallStep::Run(InstallTask::InstallCpuBackend)
    );
}

#[test]
fn package_manager_arguments() {
    assert_eq!(
        args_of(InstallTask::UpgradePip, ""),
        Some(vec!["-m", "pip", "install", "--upgrade", "pip", "setuptools", "wheel", "--quiet"].into_iter().map(String::from).collect())
    );
    assert_eq!(
        args_of(InstallTask::InstallGpuBackend { index: 1 }, "").unwrap(),
        vec!["-m", "pip", "install", "--upgrade", "torch", "torchvision", "torchaudio", "--index-url",
            "https://download.pytorch.org/whl/cu121", "--quiet"]
    );
    assert_eq!(
        args_of(InstallTask::InstallCpuBackend, "").unwrap(),
        vec!["-m", "pip", "install", "--upgrade", "torch", "torchvision", "torchaudio", "--index-url",
            "https://download.pytorch.org/whl/cpu", "--quiet"]
    );
    assert_eq!(
        args_of(InstallTask::InstallDefaultBackend, "").unwrap(),
        vec!["-m", "pip", "install", "--upgrade", "torch", "torchvision", "torchaudio", "--quiet"]
    );
    assert_eq!(
        args_of(InstallTask::VerifyGpu { index: 0 }, "").unwrap(),
        vec!["-c", "import torch; assert torch.cuda.is_available(), 'cuda not available'"]
    );
    assert_eq!(
        args_of(InstallTask::InstallRequirements, "/tmp/r.txt").unwrap(),
        vec!["-m", "pip", "install", "-r", "/tmp/r.txt", "--quiet"]
    );
    assert_eq!(
        args_of(InstallTask::InstallStagedPhonemizer, "C:\\tmp\\qp").unwrap(),
        vec!["-m", "pip", "install", "--upgrade", "C:\\tmp\\qp", "--quiet"]
    );
    assert_eq!(
        args_of(InstallTask::InstallPhonemizer, "").unwrap(),
        vec!["-m", "pip", "install", "--upgrade", "https://github.com/Hetchy/Quranic-Phonemizer/archive/1b6a8cc.zip", "--quiet"]
    );
    assert_eq!(args_of(InstallTask::DetectGpu, ""), None);
    assert_eq!(args_of(InstallTask::RepairDataFiles, ""), None);
    assert_eq!(args_of(InstallTask::StagePhonemizer, ""), None);
}

#[test]
fn index_addresses_and_announcements() {
    assert_eq!(gpu_index_url(0), "https://download.pytorch.org/whl/cu124");
    assert_eq!(gpu_index_url(1), "https://download.pytorch.org/whl/cu121");
    assert_eq!(gpu_index_url(2), "https://download.pytorch.org/whl/cu118");
    assert_eq!(announce(InstallTask::UpgradePip), Some("Upgrading pip...".to_string()));
    assert_eq!(
        announce(InstallTask::InstallGpuBackend { index: 2 }),
        Some("Trying CUDA PyTorch from https://download.pytorch.org/whl/cu118...".to_string())
    );
    assert_eq!(announce(InstallTask::VerifyGpu { index: 0 }), None);
    assert_eq!(announce(InstallTask::InstallStagedPhonemizer), None);
    assert_eq!(announce(InstallTask::RepairDataFiles), Some("Checking Multi-Aligner data files...".to_string()));
    assert_eq!(installed_message(MULTI), "Multi-Aligner dependencies installed successfully");
    assert_eq!(installed_message(LEGACY), "Legacy Whisper dependencies installed successfully");
}

#[test]
fn what_an_installation_announces_around_its_tasks() {
    let found = PythonInterpreter {
        command: "python3".to_string(),
        executable: "/usr/bin/python3.12".to_string(),
        major: 3,
        minor: 12,
        patch: 4,
    };
    assert_eq!(using_python_message(&found), "Using Python 3.12.4 (/usr/bin/python3.12)");
    assert_eq!(preparing_message(MULTI), "Preparing Multi-Aligner local environment...");
    assert_eq!(repaired_message(&Vec::new()), None);
    assert_eq!(
        repaired_message(&vec!["a.pkl".to_string(), "b.json".to_string()]),
        Some("Repaired Multi-Aligner data files: a.pkl, b.json".to_string())
    );
    assert_eq!(INSTALLED_ANNOUNCEMENT, "Local dependencies installed successfully.");
    let none = SegmentationError::NoCompatibleInterpreter { min_major: 3, min_minor: 10, found: Vec::new() };
    assert_eq!(
        interpreter_required_message(&none),
        "Python 3.10+ is required to install local dependencies: No usable Python interpreter found. \
Install Python 3.10+ and ensure it is available in PATH."
    );
}
