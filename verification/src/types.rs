//! The engines and the clip type shared by the segmentation modules.

use vstd::prelude::*;
use crate::text::{append_str, str_eq, string_from_chars};

verus! {

/// Root of the remote aligner's HTTP interface.
pub const QURAN_MULTI_ALIGNER_BASE_URL: &'static str =
    "https://hetchyy-quran-multi-aligner.hf.space/gradio_api";

/// Where the prepared audio is uploaded.
pub const QURAN_MULTI_ALIGNER_UPLOAD_URL: &'static str =
    "https://hetchyy-quran-multi-aligner.hf.space/gradio_api/upload";

/// Where a segmentation job is submitted.
pub const QURAN_MULTI_ALIGNER_PROCESS_CALL_URL: &'static str =
    "https://hetchyy-quran-multi-aligner.hf.space/gradio_api/call/process_audio_session";

/// Where a duration estimate is requested.
pub const QURAN_MULTI_ALIGNER_ESTIMATE_CALL_URL: &'static str =
    "https://hetchyy-quran-multi-aligner.hf.space/gradio_api/call/estimate_duration";

/// One timeline clip to include in a merged recording.
#[derive(Debug, Clone, PartialEq, Eq)]
pub struct SegmentationAudioClip {
    /// Path of the audio file.
    pub path: String,
    /// Where the clip starts on the timeline, in milliseconds.
    pub start_ms: i64,
    /// Where the clip ends on the timeline, in milliseconds.
    pub end_ms: i64,
}

/// The kind of system the application runs on.
#[derive(Debug, Clone, Copy, PartialEq, Eq, Structural)]
pub enum Platform {
    Windows,
    MacOs,
    Other,
}

/// A local inference pipeline.
#[derive(Clone, Copy, Debug, PartialEq, Eq, Structural)]
pub enum LocalSegmentationEngine {
    /// The original Whisper-based engine.
    LegacyWhisper,
    /// The multi-aligner engine.
    MultiAligner,
}

/// The engine that a raw name selects, if any.
pub open spec fn engine_of_raw(raw: Seq<char>) -> Option<LocalSegmentationEngine> {
    if raw == "legacy"@ || raw == "legacy_whisper"@ {
        Some(LocalSegmentationEngine::LegacyWhisper)
    } else if raw == "multi"@ || raw == "multi_aligner"@ {
        Some(LocalSegmentationEngine::MultiAligner)
    } else {
        None
    }
}

/// The message for a raw name that selects no engine.
pub open spec fn unknown_engine_message(raw: Seq<char>) -> Seq<char> {
    "Unknown local segmentation engine '"@ + raw + "'. Expected 'legacy' or 'multi'."@
}

/// The modules that must be importable in the legacy engine's environment.
pub open spec fn legacy_modules() -> Seq<Seq<char>> {
    seq!["torch"@, "transformers"@, "librosa"@, "numpy"@, "soundfile"@]
}

/// The modules that must be importable in the multi-aligner's environment.
pub open spec fn multi_modules() -> Seq<Seq<char>> {
    seq![
        "torch"@,
        "transformers"@,
        "librosa"@,
        "numpy"@,
        "soundfile"@,
        "recitations_segmenter"@,
        "gradio"@,
        "accelerate"@,
        "pyarrow"@,
        "requests"@,
    ]
}

impl LocalSegmentationEngine {
    /// The short technical key of the engine.
    pub open spec fn key(self) -> Seq<char> {
        match self {
            LocalSegmentationEngine::LegacyWhisper => "legacy"@,
            LocalSegmentationEngine::MultiAligner => "multi"@,
        }
    }

    /// The engine's name for people.
    pub open spec fn label(self) -> Seq<char> {
        match self {
            LocalSegmentationEngine::LegacyWhisper => "Legacy Whisper"@,
            LocalSegmentationEngine::MultiAligner => "Multi-Aligner"@,
        }
    }

    /// Where the engine's segmentation script lies among the bundled resources.
    pub open spec fn script_path(self) -> Seq<char> {
        match self {
            LocalSegmentationEngine::LegacyWhisper => "python/local_segmenter.py"@,
            LocalSegmentationEngine::MultiAligner => "python/local_multi_aligner_segmenter.py"@,
        }
    }

    /// Where the engine's requirements list lies among the bundled resources.
    pub open spec fn requirements_path(self) -> Seq<char> {
        match self {
            LocalSegmentationEngine::LegacyWhisper => "python/requirements.txt"@,
            LocalSegmentationEngine::MultiAligner => "python/quran-multi-aligner/requirements.txt"@,
        }
    }

    /// The modules that must be importable for the engine to count as installed.
    pub open spec fn required_modules(self) -> Seq<Seq<char>> {
        match self {
            LocalSegmentationEngine::LegacyWhisper => legacy_modules(),
            LocalSegmentationEngine::MultiAligner => multi_modules(),
        }
    }

    /// Builds the engine from the raw name a caller sent.
    pub fn from_raw(raw: &str) -> (r: Result<LocalSegmentationEngine, String>)
        ensures
            match r {
                Ok(engine) => engine_of_raw(raw@) == Some(engine),
                Err(message) => engine_of_raw(raw@) is None && message@ == unknown_engine_message(
                    raw@,
                ),
            },
    {
        if str_eq(raw, "legacy") || str_eq(raw, "legacy_whisper") {
            Ok(LocalSegmentationEngine::LegacyWhisper)
        } else if str_eq(raw, "multi") || str_eq(raw, "multi_aligner") {
            Ok(LocalSegmentationEngine::MultiAligner)
        } else {
            let mut out: Vec<char> = Vec::new();
            append_str(&mut out, "Unknown local segmentation engine '");
            append_str(&mut out, raw);
            append_str(&mut out, "'. Expected 'legacy' or 'multi'.");
            Err(string_from_chars(&out))
        }
    }

    /// The short technical key of the engine.
    pub fn as_key(&self) -> (r: &'static str)
        ensures
            r@ == self.key(),
    {
        match self {
            LocalSegmentationEngine::LegacyWhisper => "legacy",
            LocalSegmentationEngine::MultiAligner => "multi",
        }
    }

    /// The engine's name for people.
    pub fn as_label(&self) -> (r: &'static str)
        ensures
            r@ == self.label(),
    {
        match self {
            LocalSegmentationEngine::LegacyWhisper => "Legacy Whisper",
            LocalSegmentationEngine::MultiAligner => "Multi-Aligner",
        }
    }

    /// Where the engine's requirements list lies among the bundled resources.
    pub fn requirements_relative_path(&self) -> (r: &'static str)
        ensures
            r@ == self.requirements_path(),
    {
        match self {
            LocalSegmentationEngine::LegacyWhisper => "python/requirements.txt",
            LocalSegmentationEngine::MultiAligner => "python/quran-multi-aligner/requirements.txt",
        }
    }

    /// Where the engine's segmentation script lies among the bundled resources.
    pub fn script_relative_path(&self) -> (r: &'static str)
        ensures
            r@ == self.script_path(),
    {
        match self {
            LocalSegmentationEngine::LegacyWhisper => "python/local_segmenter.py",
            LocalSegmentationEngine::MultiAligner => "python/local_multi_aligner_segmenter.py",
        }
    }

    /// The modules that must be importable for the engine to count as installed.
    pub fn required_import_modules(&self) -> (r: &'static [&'static str])
        ensures
            r@.len() == self.required_modules().len(),
            forall|i: int| 0 <= i < r@.len() ==> r@[i]@ == self.required_modules()[i],
    {
        match self {
            LocalSegmentationEngine::LegacyWhisper => &[
                "torch",
                "transformers",
                "librosa",
                "numpy",
                "soundfile",
            ],
            LocalSegmentationEngine::MultiAligner => &[
                "torch",
                "transformers",
                "librosa",
                "numpy",
                "soundfile",
                "recitations_segmenter",
                "gradio",
                "accelerate",
                "pyarrow",
                "requests",
            ],
        }
    }
}

} // verus!
