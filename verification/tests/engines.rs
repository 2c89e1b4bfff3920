use quran_segmentation::types::{LocalSegmentationEngine, SegmentationAudioClip};

#[test]
fn from_raw_accepts_both_names_of_each_engine() {
    assert_eq!(LocalSegmentationEngine::from_raw("legacy"), Ok(LocalSegmentationEngine::LegacyWhisper));
    assert_eq!(LocalSegmentationEngine::from_raw("legacy_whisper"), Ok(LocalSegmentationEngine::LegacyWhisper));
    assert_eq!(LocalSegmentationEngine::from_raw("multi"), Ok(LocalSegmentationEngine::MultiAligner));
    assert_eq!(LocalSegmentationEngine::from_raw("multi_aligner"), Ok(LocalSegmentationEngine::MultiAligner));
}

#[test]
fn from_raw_rejects_unknown_names_with_the_name_in_the_message() {
    assert_eq!(
        LocalSegmentationEngine::from_raw("Legacy"),
        Err("Unknown local segmentation engine 'Legacy'. Expected 'legacy' or 'multi'.".to_string())
    );
    assert_eq!(
        LocalSegmentationEngine::from_raw(""),
        Err("Unknown local segmentation engine ''. Expected 'legacy' or 'multi'.".to_string())
    );
}

#[test]
fn engine_keys_labels_and_paths() {
    let legacy = LocalSegmentationEngine::LegacyWhisper;
    let multi = LocalSegmentationEngine::MultiAligner;
    assert_eq!(legacy.as_key(), "legacy");
    assert_eq!(multi.as_key(), "multi");
    assert_eq!(legacy.as_label(), "Legacy Whisper");
    assert_eq!(multi.as_label(), "Multi-Aligner");
    assert_eq!(legacy.requirements_relative_path(), "python/requirements.txt");
    assert_eq!(multi.requirements_relative_path(), "python/quran-multi-aligner/requirements.txt");
    assert_eq!(legacy.script_relative_path(), "python/local_segmenter.py");
    assert_eq!(multi.script_relative_path(), "python/local_multi_aligner_segmenter.py");
}

#[test]
fn required_modules_of_each_engine() {
    assert_eq!(
        LocalSegmentationEngine::LegacyWhisper.required_import_modules(),
        &["torch", "transformers", "librosa", "numpy", "soundfile"]
    );
    let multi = LocalSegmentationEngine::MultiAligner.required_import_modules();
    assert_eq!(multi.len(), 10);
    assert_eq!(multi[5], "recitations_segmenter");
    assert_eq!(multi[9], "requests");
}

#[test]
fn every_key_is_a_raw_name_of_its_engine() {
    for engine in [LocalSegmentationEngine::LegacyWhisper, LocalSegmentationEngine::MultiAligner] {
        assert_eq!(LocalSegmentationEngine::from_raw(engine.as_key()), Ok(engine));
    }
}

#[test]
fn clips_compare_by_their_fields() {
    let a = SegmentationAudioClip { path: "a.wav".to_string(), start_ms: 0, end_ms: 10 };
    let b = SegmentationAudioClip { path: "a.wav".to_string(), start_ms: 0, end_ms: 10 };
    assert_eq!(a, b);
}
