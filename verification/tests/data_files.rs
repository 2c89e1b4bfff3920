use quran_segmentation::data_files::{
    check_download, data_file_kind, data_file_url, first_invalid_data_file, has_json_header,
    has_pickle_header, is_lfs_pointer, json_head, required_multi_aligner_data_files,
    validate_json_data_file, validate_multi_aligner_data_file, validate_pickle_data_file,
    DataFileKind,
};
use quran_segmentation::error::{DataFileFault, SegmentationError};
use quran_segmentation::install::{download_binary_file, ensure_multi_aligner_data_files, FileDecision};

const POINTER: &[u8] = b"version https://git-lfs.github.com/spec/v1\noid sha256:abc\nsize 12345\n";

#[test]
fn required_files_and_their_addresses() {
    assert_eq!(
        required_multi_aligner_data_files(),
        &[
            "phoneme_cache.pkl",
            "phoneme_ngram_index_5.pkl",
            "qpc_hafs.json",
            "surah_info.json",
            "digital_khatt_v2_script.json",
            "phoneme_sub_costs.json",
        ]
    );
    assert_eq!(
        data_file_url("qpc_hafs.json"),
        "https://huggingface.co/spaces/hetchyy/Quran-multi-aligner/resolve/main/data/qpc_hafs.json?download=true"
    );
}

#[test]
fn pointer_files_are_recognised_by_their_first_bytes() {
    assert!(is_lfs_pointer(POINTER));
    assert!(is_lfs_pointer(b"version https://git-lfs.github.com/spec/v1"));
    assert!(!is_lfs_pointer(b"version https://git-lfs.github.com/spec/v"));
    assert!(!is_lfs_pointer(b" version https://git-lfs.github.com/spec/v1"));
    assert!(!is_lfs_pointer(b""));
}

#[test]
fn headers() {
    assert!(has_pickle_header(&[0x80, 0x04]));
    assert!(!has_pickle_header(&[0x7f]));
    assert!(!has_pickle_header(&[]));
    assert!(has_json_header(b"{"));
    assert!(has_json_header(b" \n\r\t["));
    assert!(!has_json_header(b""));
    assert!(!has_json_header(b"   "));
    assert!(!has_json_header(b"x{"));
    assert!(!has_json_header(b"\x0b{"));
    assert!(has_json_header(b" \n[1]"));
    let mut late = vec![b' '; 257];
    late.push(b'{');
    assert!(has_json_header(&late));
    let mut far: Vec<u8> = vec![b'\t'; 100_000];
    far.push(b'[');
    assert!(has_json_header(&far));
    far.pop();
    assert!(!has_json_header(&far));
}

#[test]
fn the_head_of_a_json_file_is_its_first_256_bytes() {
    assert_eq!(json_head(b""), b"");
    assert_eq!(json_head(b"{}"), b"{}");
    let bytes: Vec<u8> = (0..=255u8).collect();
    assert_eq!(json_head(&bytes), bytes.as_slice());
    let mut longer = bytes.clone();
    longer.push(7);
    assert_eq!(json_head(&longer), bytes.as_slice());
}

#[test]
fn a_json_file_must_open_within_its_head() {
    let mut last_place = vec![b' '; 255];
    last_place.extend_from_slice(b"{\"a\":1}");
    assert_eq!(validate_json_data_file(Some(&last_place)), Ok(()));
    assert_eq!(validate_multi_aligner_data_file("a.json", Some(&last_place)), Ok(()));
    let mut too_late = vec![b' '; 256];
    too_late.extend_from_slice(b"{\"a\":1}");
    assert!(has_json_header(&too_late));
    assert_eq!(validate_json_data_file(Some(&too_late)), Err(DataFileFault::NotJson));
    assert_eq!(validate_multi_aligner_data_file("a.json", Some(&too_late)), Err(DataFileFault::NotJson));
}

#[test]
fn kinds_go_by_the_extension_without_regard_to_case() {
    assert_eq!(data_file_kind("a.pkl"), Some(DataFileKind::Pickle));
    assert_eq!(data_file_kind("a.b.JSON"), Some(DataFileKind::Json));
    assert_eq!(data_file_kind("a.Pkl"), Some(DataFileKind::Pickle));
    assert_eq!(data_file_kind("pkl"), None);
    assert_eq!(data_file_kind(".json"), None);
    assert_eq!(data_file_kind("a.json."), None);
    assert_eq!(data_file_kind("a.txt"), None);
    assert_eq!(data_file_kind(""), None);
}

#[test]
fn a_pointer_file_is_rejected_as_a_pointer() {
    assert_eq!(validate_multi_aligner_data_file("phoneme_cache.pkl", Some(POINTER)), Err(DataFileFault::LfsPointer));
    assert_eq!(validate_multi_aligner_data_file("qpc_hafs.json", Some(POINTER)), Err(DataFileFault::LfsPointer));
    assert_eq!(validate_pickle_data_file(Some(POINTER)), Err(DataFileFault::LfsPointer));
    assert_eq!(validate_json_data_file(Some(POINTER)), Err(DataFileFault::LfsPointer));
    let message = DataFileFault::LfsPointer.message("qpc_hafs.json");
    assert_eq!(message, "Data file 'qpc_hafs.json' is a Git LFS pointer, not real data.");
}

#[test]
fn json_files_empty_truncated_and_valid_get_distinct_verdicts() {
    assert_eq!(validate_multi_aligner_data_file("a.json", Some(b"")), Err(DataFileFault::NotJson));
    assert_eq!(validate_multi_aligner_data_file("a.json", Some(b"   ")), Err(DataFileFault::NotJson));
    assert_eq!(validate_multi_aligner_data_file("a.json", Some(b"\"text\"")), Err(DataFileFault::NotJson));
    match validate_multi_aligner_data_file("a.json", Some(b"{\"a\": [1, 2")) {
        Err(DataFileFault::InvalidJson { parse_error }) => assert!(parse_error.contains("EOF"), "{}", parse_error),
        other => panic!("expected invalid JSON, got {:?}", other),
    }
    match validate_multi_aligner_data_file("a.json", Some(b"{\"a\": 1} trailing")) {
        Err(DataFileFault::InvalidJson { parse_error }) => assert!(parse_error.contains("trailing"), "{}", parse_error),
        other => panic!("expected invalid JSON, got {:?}", other),
    }
    assert_eq!(validate_multi_aligner_data_file("a.json", Some(b" {\"a\": [1, 2]}\n")), Ok(()));
    assert_eq!(validate_multi_aligner_data_file("a.json", Some(b"[]")), Ok(()));
    let mut bad_utf8 = b"{\"a\":\"".to_vec();
    bad_utf8.push(0xFF);
    bad_utf8.extend_from_slice(b"\"}");
    assert!(matches!(
        validate_multi_aligner_data_file("a.json", Some(&bad_utf8)),
        Err(DataFileFault::InvalidJson { .. })
    ));
}

#[test]
fn pickle_files() {
    assert_eq!(validate_multi_aligner_data_file("a.pkl", Some(&[0x80, 4, 0x95])), Ok(()));
    assert_eq!(validate_multi_aligner_data_file("a.pkl", Some(b"{}")), Err(DataFileFault::NotPickle));
    assert_eq!(validate_multi_aligner_data_file("a.pkl", Some(b"")), Err(DataFileFault::NotPickle));
    assert_eq!(validate_multi_aligner_data_file("a.pkl", None), Err(DataFileFault::Missing));
}

#[test]
fn missing_and_unsupported_files() {
    assert_eq!(validate_multi_aligner_data_file("a.json", None), Err(DataFileFault::Missing));
    assert_eq!(validate_multi_aligner_data_file("a.bin", Some(&[0x80])), Err(DataFileFault::UnsupportedType));
    assert_eq!(validate_multi_aligner_data_file("a.bin", None), Err(DataFileFault::UnsupportedType));
}

#[test]
fn validating_twice_gives_the_same_verdict() {
    let samples: Vec<(&str, Option<&[u8]>)> = vec![
        ("a.json", Some(b"{\"a\":1}")),
        ("a.json", Some(b"{\"a\":")),
        ("a.json", Some(POINTER)),
        ("a.pkl", Some(&[0x80])),
        ("a.pkl", Some(b"text")),
        ("a.pkl", None),
        ("a.zip", Some(b"PK")),
    ];
    for (name, content) in samples {
        let first = validate_multi_aligner_data_file(name, content);
        let second = validate_multi_aligner_data_file(name, content);
        assert_eq!(first, second);
        assert_eq!(
            ensure_multi_aligner_data_files(name, content, false),
            ensure_multi_aligner_data_files(name, content, false)
        );
    }
}

#[test]
fn an_invalid_file_is_fetched_once_then_rejected() {
    assert_eq!(ensure_multi_aligner_data_files("a.json", Some(b"{}"), false), FileDecision::Accept);
    assert_eq!(ensure_multi_aligner_data_files("a.json", Some(b"{}"), true), FileDecision::Accept);
    assert_eq!(ensure_multi_aligner_data_files("a.json", None, false), FileDecision::Fetch);
    assert_eq!(ensure_multi_aligner_data_files("a.json", Some(POINTER), false), FileDecision::Fetch);
    assert_eq!(
        ensure_multi_aligner_data_files("a.json", Some(POINTER), true),
        FileDecision::Reject {
            error: SegmentationError::DataFileInvalid { file: "a.json".to_string(), fault: DataFileFault::LfsPointer }
        }
    );
}

#[test]
fn downloads_must_succeed_and_bring_bytes() {
    assert_eq!(check_download(200, 1), Ok(()));
    assert_eq!(check_download(404, 10), Err(DataFileFault::DownloadRejected { status: 404 }));
    assert_eq!(check_download(200, 0), Err(DataFileFault::DownloadEmpty));
    assert_eq!(download_binary_file("a.pkl", 204, 7), Ok(()));
    assert_eq!(
        download_binary_file("a.pkl", 503, 7),
        Err(SegmentationError::DataFileInvalid {
            file: "a.pkl".to_string(),
            fault: DataFileFault::DownloadRejected { status: 503 },
        })
    );
    assert_eq!(
        download_binary_file("a.pkl", 200, 0),
        Err(SegmentationError::DataFileInvalid { file: "a.pkl".to_string(), fault: DataFileFault::DownloadEmpty })
    );
}

#[test]
fn the_first_invalid_required_file_is_reported() {
    let pickle = Some(vec![0x80u8, 4]);
    let json = Some(b"{}".to_vec());
    let all_good = vec![pickle.clone(), pickle.clone(), json.clone(), json.clone(), json.clone(), json.clone()];
    assert_eq!(first_invalid_data_file(&all_good), None);
    let mut one_bad = all_good.clone();
    one_bad[3] = Some(POINTER.to_vec());
    one_bad[5] = None;
    assert_eq!(
        first_invalid_data_file(&one_bad),
        Some(SegmentationError::DataFileInvalid { file: "surah_info.json".to_string(), fault: DataFileFault::LfsPointer })
    );
    let short = vec![pickle.clone()];
    assert_eq!(
        first_invalid_data_file(&short),
        Some(SegmentationError::DataFileInvalid {
            file: "phoneme_ngram_index_5.pkl".to_string(),
            fault: DataFileFault::Missing,
        })
    );
    let json_as_pickle = vec![json.clone(), pickle.clone(), json.clone(), json.clone(), json.clone(), json.clone()];
    assert_eq!(
        first_invalid_data_file(&json_as_pickle),
        Some(SegmentationError::DataFileInvalid { file: "phoneme_cache.pkl".to_string(), fault: DataFileFault::NotPickle })
    );
}
