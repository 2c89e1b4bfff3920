use quran_segmentation::cloud::{
    cloud_progress, CloudMilestone, ProgressEvent, build_job_request, encode_args, pick_upload_path, read_event_id, read_upload_response,
    stream_url, unwrap_payload, upload_file_name, CloudStep, JobRequest, UploadChunk,
    UploadProgress, UPLOAD_CHUNK_SIZE,
};
use quran_segmentation::error::{Parameter, SegmentationError, UploadFailure};
use quran_segmentation::json::read_json;
use quran_segmentation::params::{has_token, normalize_device, normalize_model};

#[test]
fn step_names() {
    assert_eq!(CloudStep::Prepare.as_str(), "cloud_prepare");
    assert_eq!(CloudStep::Upload.as_str(), "cloud_upload");
    assert_eq!(CloudStep::Process.as_str(), "cloud_process");
    assert_eq!(CloudStep::Complete.as_str(), "cloud_complete");
}

#[test]
fn encode_arguments_are_in_order() {
    assert_eq!(
        encode_args("in put.wav", "/tmp/o.ogg"),
        vec![
            "-y", "-hide_banner", "-loglevel", "error", "-i", "in put.wav", "-c:a", "libopus",
            "-b:a", "64k", "-vbr", "on", "-vn", "/tmp/o.ogg",
        ]
    );
    assert_eq!(upload_file_name(42), "qurancaption-seg-42.ogg");
}

#[test]
fn an_empty_payload_is_refused() {
    assert_eq!(UploadProgress::start(0), Err(SegmentationError::EmptyPayload));
    assert_eq!(UploadProgress::start(1), Ok(UploadProgress { total: 1, sent: 0, last_percent: 0 }));
}

#[test]
fn a_small_payload_is_one_chunk_at_a_hundred_percent() {
    let mut p = UploadProgress::start(1000).unwrap();
    assert_eq!(p.next_chunk(), Some(UploadChunk { start: 0, end: 1000, announce: Some(100) }));
    assert_eq!(p.next_chunk(), None);
    assert_eq!(p, UploadProgress { total: 1000, sent: 1000, last_percent: 100 });
}

#[test]
fn chunks_are_fixed_in_size_and_percentages_exact() {
    let total = 3 * UPLOAD_CHUNK_SIZE + 5;
    let mut p = UploadProgress::start(total).unwrap();
    assert_eq!(p.next_chunk(), Some(UploadChunk { start: 0, end: 262144, announce: Some(33) }));
    assert_eq!(p.next_chunk(), Some(UploadChunk { start: 262144, end: 524288, announce: Some(66) }));
    assert_eq!(p.next_chunk(), Some(UploadChunk { start: 524288, end: 786432, announce: Some(99) }));
    assert_eq!(p.next_chunk(), Some(UploadChunk { start: 786432, end: 786437, announce: Some(100) }));
    assert_eq!(p.next_chunk(), None);
}

#[test]
fn announced_percentages_increase_strictly() {
    let total: u64 = 200 * UPLOAD_CHUNK_SIZE;
    let mut p = UploadProgress::start(total).unwrap();
    let mut announced: Vec<u64> = Vec::new();
    let mut chunks = 0;
    let mut sent = 0;
    while let Some(chunk) = p.next_chunk() {
        assert_eq!(chunk.start, sent);
        assert!(chunk.end > chunk.start && chunk.end - chunk.start <= UPLOAD_CHUNK_SIZE);
        sent = chunk.end;
        chunks += 1;
        if let Some(percent) = chunk.announce {
            assert_eq!(percent, chunk.end * 100 / total);
            announced.push(percent);
        }
    }
    assert_eq!(sent, total);
    assert_eq!(chunks, 200);
    assert_eq!(announced.len(), 100);
    for pair in announced.windows(2) {
        assert!(pair[0] < pair[1]);
    }
    assert_eq!(announced[0], 1);
    assert_eq!(announced[99], 100);
}

#[test]
fn the_chunk_that_ends_the_payload_announces_a_hundred() {
    for total in [1u64, 99, 100, 101, 262143, 262144, 262145, 1_000_000, 26_214_400, 26_214_401] {
        let mut p = UploadProgress::start(total).unwrap();
        let mut last = None;
        while let Some(chunk) = p.next_chunk() {
            assert_eq!(chunk.announce == Some(100), chunk.end == total, "{} at {}", total, chunk.end);
            assert_eq!(p.last_percent, p.sent * 100 / p.total);
            last = Some(chunk);
        }
        assert_eq!(last.unwrap().announce, Some(100));
        assert_eq!(p.last_percent, 100);
    }
}

#[test]
fn a_huge_payload_does_not_overflow() {
    let mut p = UploadProgress { total: u64::MAX, sent: u64::MAX - 10, last_percent: 99 };
    assert_eq!(
        p.next_chunk(),
        Some(UploadChunk { start: u64::MAX - 10, end: u64::MAX, announce: Some(100) })
    );
}

#[test]
fn upload_answers() {
    assert_eq!(read_upload_response(200, "[\"/tmp/gradio/a.ogg\", \"b\"]"), Ok("/tmp/gradio/a.ogg".to_string()));
    assert_eq!(read_upload_response(299, " [\"x\"] "), Ok("x".to_string()));
    assert_eq!(
        read_upload_response(200, "[]"),
        Err(SegmentationError::UploadFailed(UploadFailure::NoPath))
    );
    assert_eq!(
        read_upload_response(200, "{\"path\":\"x\"}"),
        Err(SegmentationError::UploadFailed(UploadFailure::UnreadableResponse))
    );
    assert_eq!(
        read_upload_response(200, "[1]"),
        Err(SegmentationError::UploadFailed(UploadFailure::UnreadableResponse))
    );
    assert_eq!(
        read_upload_response(500, "[\"x\"]"),
        Err(SegmentationError::UploadFailed(UploadFailure::Rejected { status: 500 }))
    );
    assert_eq!(
        read_upload_response(199, "[\"x\"]"),
        Err(SegmentationError::UploadFailed(UploadFailure::Rejected { status: 199 }))
    );
    assert_eq!(
        read_upload_response(300, "[\"x\"]"),
        Err(SegmentationError::UploadFailed(UploadFailure::Rejected { status: 300 }))
    );
    assert_eq!(pick_upload_path(200, Some(vec!["p".to_string()])), Ok("p".to_string()));
    assert_eq!(
        pick_upload_path(200, None),
        Err(SegmentationError::UploadFailed(UploadFailure::UnreadableResponse))
    );
}

#[test]
fn model_names_are_checked_without_regard_to_case() {
    assert_eq!(normalize_model(None), Ok("Base".to_string()));
    assert_eq!(normalize_model(Some("Base")), Ok("Base".to_string()));
    assert_eq!(normalize_model(Some("base")), Ok("Base".to_string()));
    assert_eq!(normalize_model(Some("LARGE")), Ok("Large".to_string()));
    assert_eq!(
        normalize_model(Some("Huge")),
        Err(SegmentationError::InvalidParameter { parameter: Parameter::ModelName, value: "Huge".to_string() })
    );
    assert_eq!(
        normalize_model(Some(" Base")),
        Err(SegmentationError::InvalidParameter { parameter: Parameter::ModelName, value: " Base".to_string() })
    );
    assert_eq!(
        normalize_model(Some("")),
        Err(SegmentationError::InvalidParameter { parameter: Parameter::ModelName, value: "".to_string() })
    );
}

#[test]
fn devices_are_checked_without_regard_to_case() {
    assert_eq!(normalize_device(None), Ok("GPU".to_string()));
    assert_eq!(normalize_device(Some("gpu")), Ok("GPU".to_string()));
    assert_eq!(normalize_device(Some("Cpu")), Ok("CPU".to_string()));
    assert_eq!(
        normalize_device(Some("tpu")),
        Err(SegmentationError::InvalidParameter { parameter: Parameter::Device, value: "TPU".to_string() })
    );
}

#[test]
fn tokens_must_not_be_blank() {
    assert!(has_token(Some("hf_abc")));
    assert!(has_token(Some("  x ")));
    assert!(!has_token(Some("   \t")));
    assert!(!has_token(Some("")));
    assert!(!has_token(None));
}

#[test]
fn a_job_request_has_defaults_and_checked_parameters() {
    assert_eq!(
        build_job_request("/srv/a.ogg", None, None, None, None, None),
        Ok(JobRequest {
            uploaded_path: "/srv/a.ogg".to_string(),
            min_silence_ms: 200,
            min_speech_ms: 1000,
            pad_ms: 100,
            model: "Base".to_string(),
            device: "GPU".to_string(),
        })
    );
    assert_eq!(
        build_job_request("p", Some(0), Some(5), Some(u32::MAX), Some("large"), Some("cpu")),
        Ok(JobRequest {
            uploaded_path: "p".to_string(),
            min_silence_ms: 0,
            min_speech_ms: 5,
            pad_ms: u32::MAX,
            model: "Large".to_string(),
            device: "CPU".to_string(),
        })
    );
}

#[test]
fn a_job_request_fails_fast_on_the_model_then_the_device() {
    assert_eq!(
        build_job_request("p", None, None, None, Some("x"), Some("y")),
        Err(SegmentationError::InvalidParameter { parameter: Parameter::ModelName, value: "x".to_string() })
    );
    assert_eq!(
        build_job_request("p", None, None, None, Some("Base"), Some("y")),
        Err(SegmentationError::InvalidParameter { parameter: Parameter::Device, value: "Y".to_string() })
    );
}

#[test]
fn event_ids() {
    assert_eq!(read_event_id("{\"event_id\":\"abc123\"}"), Ok("abc123".to_string()));
    assert_eq!(read_event_id("{\"event_id\":7}"), Err(SegmentationError::JobSubmitFailed));
    assert_eq!(read_event_id("{}"), Err(SegmentationError::JobSubmitFailed));
    assert_eq!(read_event_id("not json"), Err(SegmentationError::JobSubmitFailed));
    assert_eq!(read_event_id("[\"event_id\"]"), Err(SegmentationError::JobSubmitFailed));
}

#[test]
fn stream_addresses() {
    assert_eq!(
        stream_url("process_audio_session", "abc123"),
        "https://hetchyy-quran-multi-aligner.hf.space/gradio_api/call/process_audio_session/abc123"
    );
    assert_eq!(
        stream_url("estimate_duration", "e"),
        "https://hetchyy-quran-multi-aligner.hf.space/gradio_api/call/estimate_duration/e"
    );
}

#[test]
fn terminal_payloads_are_unwrapped() {
    assert_eq!(unwrap_payload(read_json("[{\"segments\":[]}, 2]").unwrap()), "{\"segments\":[]}");
    assert_eq!(unwrap_payload(read_json("{\"segments\": [ ]}").unwrap()), "{\"segments\":[]}");
    assert_eq!(unwrap_payload(read_json("[]").unwrap()), "[]");
    assert_eq!(unwrap_payload(read_json("\"s\"").unwrap()), "\"s\"");
    assert_eq!(unwrap_payload(read_json("[null]").unwrap()), "null");
}

fn event(step: &str, message: &str, progress: Option<u8>) -> ProgressEvent {
    ProgressEvent { step: step.to_string(), message: message.to_string(), progress }
}

#[test]
fn progress_events_of_the_milestones() {
    assert_eq!(cloud_progress(CloudMilestone::Started), event("cloud_prepare", "Preparing audio for cloud...", Some(0)));
    assert_eq!(
        cloud_progress(CloudMilestone::Prepared),
        event("cloud_prepare", "Audio prepared. Starting upload...", Some(0))
    );
    assert_eq!(
        cloud_progress(CloudMilestone::UploadStarted { total_bytes: 2621440 }),
        event("cloud_upload", "Uploading 2.5 MB to cloud...", Some(0))
    );
    assert_eq!(
        cloud_progress(CloudMilestone::Uploading { total_bytes: 1048576, percent: 42 }),
        event("cloud_upload", "Uploading 1.0 MB to cloud... 42%", Some(42))
    );
    assert_eq!(
        cloud_progress(CloudMilestone::Uploading { total_bytes: 1, percent: 250 }),
        event("cloud_upload", "Uploading 0.0 MB to cloud... 100%", Some(100))
    );
    assert_eq!(
        cloud_progress(CloudMilestone::Uploaded),
        event("cloud_upload", "Cloud upload complete. Starting segmentation...", Some(100))
    );
    assert_eq!(
        cloud_progress(CloudMilestone::JobAccepted),
        event("cloud_process", "Cloud job accepted. Waiting for segmentation results...", Some(100))
    );
    assert_eq!(cloud_progress(CloudMilestone::Completed), event("cloud_complete", "Cloud segmentation completed.", None));
}

#[test]
fn sizes_are_rounded_as_floats_are_printed() {
    let mut samples: Vec<u64> = vec![0, 1, 52428, 52429, 104857, 104858, 262144, 786432, 1048575, 1048576, 1310720, 1835008];
    let mut x: u64 = 3;
    for _ in 0..2000 {
        x = x.wrapping_mul(6364136223846793005).wrapping_add(1442695040888963407);
        samples.push(x % (1 << 40));
        samples.push((x >> 20) % (1 << 24));
    }
    for total_bytes in samples {
        let expected = format!("Uploading {:.1} MB to cloud...", total_bytes as f64 / (1024.0 * 1024.0));
        assert_eq!(cloud_progress(CloudMilestone::UploadStarted { total_bytes }).message, expected, "{}", total_bytes);
    }
}
