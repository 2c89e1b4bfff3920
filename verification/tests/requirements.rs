use quran_segmentation::error::SegmentationError;
use quran_segmentation::process::sanitize_cmd_error;
use quran_segmentation::requirements::{
    filter_requirements, filtered_requirements_file, prepare_multi_requirements_file,
    prepare_windows_safe_quranic_phonemizer_source, requirement_is_kept,
};
use quran_segmentation::types::LocalSegmentationEngine;

#[test]
fn the_repository_dependency_becomes_the_archive() {
    let content = "gradio==5.0\n  git+https://github.com/Hetchy/Quranic-Phonemizer.git@1b6a8cc  \r\nnumpy<2\n";
    assert_eq!(
        prepare_multi_requirements_file(content),
        "gradio==5.0\nhttps://github.com/Hetchy/Quranic-Phonemizer/archive/1b6a8cc.zip\nnumpy<2"
    );
    assert_eq!(prepare_multi_requirements_file(""), "");
    assert_eq!(prepare_multi_requirements_file("a\n\nb"), "a\n\nb");
    assert_eq!(
        prepare_multi_requirements_file("git+https://github.com/hetchy/Quranic-Phonemizer.git@x"),
        "git+https://github.com/hetchy/Quranic-Phonemizer.git@x"
    );
}

#[test]
fn the_filter_drops_what_is_installed_separately() {
    let content = "# core\ntorch==2.3\nTorchaudio\n  torchvision>=0.1\nlibrosa==0.10.2\n\n   \nnumpy<2\n\
git+https://github.com/Hetchy/Quranic-Phonemizer.git@1b6a8cc\n\
https://github.com/Hetchy/Quranic-Phonemizer/archive/1b6a8cc.zip\n  soundfile  \npytorch-lightning\n#torch\n";
    assert_eq!(filter_requirements(content), "librosa==0.10.2\nnumpy<2\n  soundfile  \npytorch-lightning");
    assert_eq!(filter_requirements(""), "");
    assert_eq!(filter_requirements("torch\n# x\n"), "");
}

#[test]
fn single_lines_through_the_filter() {
    let keep = |s: &str| requirement_is_kept(&s.chars().collect());
    assert!(keep("numpy"));
    assert!(keep("a # torch"));
    assert!(!keep("TORCH"));
    assert!(!keep("torchmetrics"));
    assert!(!keep(" #comment"));
    assert!(!keep(""));
    assert!(!keep("x-Quranic-Phonemizer-y"));
    assert!(keep("quranic_phonemizer"));
}

#[test]
fn filtered_file_names() {
    assert_eq!(filtered_requirements_file(LocalSegmentationEngine::LegacyWhisper), "qurancaption_requirements_legacy.txt");
    assert_eq!(filtered_requirements_file(LocalSegmentationEngine::MultiAligner), "qurancaption_requirements_multi.txt");
}

#[test]
fn staging_the_phonemizer_source() {
    assert_eq!(prepare_windows_safe_quranic_phonemizer_source(true, "", "", true), Ok(()));
    assert_eq!(
        prepare_windows_safe_quranic_phonemizer_source(false, "  urlopen error \n", "out", true),
        Err(SegmentationError::DependencyInstallFailed {
            context: "Failed to patch Quranic-Phonemizer source on Windows".to_string(),
            detail: "urlopen error".to_string(),
        })
    );
    assert_eq!(
        prepare_windows_safe_quranic_phonemizer_source(true, "", "", false),
        Err(SegmentationError::DependencyInstallFailed {
            context: "Failed to patch Quranic-Phonemizer source on Windows".to_string(),
            detail: "patched source is incomplete (missing setup.py)".to_string(),
        })
    );
}

#[test]
fn the_readable_failure_text_prefers_standard_error() {
    assert_eq!(sanitize_cmd_error("  err \n", "out"), "err");
    assert_eq!(sanitize_cmd_error(" \n", "  out\n"), "out");
    assert_eq!(sanitize_cmd_error("", ""), "");
}
