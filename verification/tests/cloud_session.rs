use quran_segmentation::audio_merge::AudioInput;
use quran_segmentation::cloud::{
    segment_quran_audio, CloudAction, CloudEvent, CloudMilestone, CloudPhase, CloudRequest,
    CloudTurn, JobRequest, UploadProgress,
};
use quran_segmentation::error::{InvalidInput, Parameter, SegmentationError, TranscodeStep, UploadFailure};
use quran_segmentation::json::read_json;
use quran_segmentation::sse::parse_stream;
use quran_segmentation::types::SegmentationAudioClip;

fn request(audio_path: Option<&str>, clips: Option<Vec<SegmentationAudioClip>>) -> CloudRequest {
    CloudRequest {
        audio_path: audio_path.map(|p| p.to_string()),
        audio_clips: clips,
        min_silence_ms: Some(300),
        min_speech_ms: None,
        pad_ms: None,
        model_name: Some("large".to_string()),
        device: None,
    }
}

fn clip(path: &str, start_ms: i64, end_ms: i64) -> SegmentationAudioClip {
    SegmentationAudioClip { path: path.to_string(), start_ms, end_ms }
}

fn failed(announce: Option<CloudMilestone>, error: SegmentationError) -> CloudTurn {
    CloudTurn { phase: CloudPhase::Failed, announce, action: CloudAction::Fail { error } }
}

#[test]
fn a_remote_segmentation_of_one_file_from_begin_to_result() {
    let req = request(Some("/a.wav"), None);
    let turn = segment_quran_audio(CloudPhase::Start, &req, CloudEvent::Begin);
    assert_eq!(
        turn,
        CloudTurn {
            phase: CloudPhase::ResolvingTool,
            announce: Some(CloudMilestone::Started),
            action: CloudAction::ResolveTool,
        }
    );
    let turn = segment_quran_audio(turn.phase, &req, CloudEvent::ToolResolved { found: true });
    assert_eq!(
        turn,
        CloudTurn {
            phase: CloudPhase::Encoding,
            announce: None,
            action: CloudAction::Encode { input: AudioInput::File { path: "/a.wav".to_string() } },
        }
    );
    let turn = segment_quran_audio(turn.phase, &req, CloudEvent::Transcoded { success: true, stderr: String::new() });
    assert_eq!(
        turn,
        CloudTurn {
            phase: CloudPhase::ReadingPayload,
            announce: Some(CloudMilestone::Prepared),
            action: CloudAction::ReadPayload,
        }
    );
    let turn = segment_quran_audio(turn.phase, &req, CloudEvent::PayloadRead { total_bytes: 4096 });
    assert_eq!(
        turn,
        CloudTurn {
            phase: CloudPhase::Uploading,
            announce: Some(CloudMilestone::UploadStarted { total_bytes: 4096 }),
            action: CloudAction::Upload { progress: UploadProgress { total: 4096, sent: 0, last_percent: 0 } },
        }
    );
    let turn = segment_quran_audio(
        turn.phase,
        &req,
        CloudEvent::Uploaded { status: 200, body: "[\"/srv/up/a.ogg\"]".to_string() },
    );
    assert_eq!(
        turn,
        CloudTurn {
            phase: CloudPhase::Submitting,
            announce: Some(CloudMilestone::Uploaded),
            action: CloudAction::Submit {
                job: JobRequest {
                    uploaded_path: "/srv/up/a.ogg".to_string(),
                    min_silence_ms: 300,
                    min_speech_ms: 1000,
                    pad_ms: 100,
                    model: "Large".to_string(),
                    device: "GPU".to_string(),
                }
            },
        }
    );
    let turn = segment_quran_audio(turn.phase, &req, CloudEvent::Submitted { body: "{\"event_id\":\"e1\"}".to_string() });
    assert_eq!(
        turn,
        CloudTurn {
            phase: CloudPhase::Streaming,
            announce: Some(CloudMilestone::JobAccepted),
            action: CloudAction::Stream {
                url: "https://hetchyy-quran-multi-aligner.hf.space/gradio_api/call/process_audio_session/e1"
                    .to_string(),
            },
        }
    );
    let stream = vec![b"event: complete\ndata: [{\"segments\":[]}]\n\n".to_vec()];
    let turn = segment_quran_audio(turn.phase, &req, CloudEvent::Streamed { outcome: parse_stream(&stream) });
    assert_eq!(
        turn,
        CloudTurn {
            phase: CloudPhase::Done,
            announce: Some(CloudMilestone::Completed),
            action: CloudAction::Finish { result: "{\"segments\":[]}".to_string() },
        }
    );
}

#[test]
fn clips_that_call_for_it_are_merged_before_encoding() {
    let req = request(None, Some(vec![clip("/a.wav", 0, 1000), clip("/b.wav", 1000, 2500)]));
    let turn = segment_quran_audio(CloudPhase::ResolvingTool, &req, CloudEvent::ToolResolved { found: true });
    assert_eq!(turn.phase, CloudPhase::Merging);
    match &turn.action {
        CloudAction::Merge { plan } => {
            assert_eq!(plan.total_end_ms(), 2500);
            assert_eq!(plan.clips().len(), 2);
        }
        other => panic!("expected a merge, got {:?}", other),
    }
    let turn = segment_quran_audio(turn.phase, &req, CloudEvent::Transcoded { success: true, stderr: String::new() });
    assert_eq!(
        turn,
        CloudTurn {
            phase: CloudPhase::Encoding,
            announce: None,
            action: CloudAction::Encode { input: AudioInput::Merged },
        }
    );
}

#[test]
fn every_failure_of_a_remote_segmentation() {
    let req = request(Some("/a.wav"), None);
    assert_eq!(
        segment_quran_audio(CloudPhase::ResolvingTool, &req, CloudEvent::ToolResolved { found: false }),
        failed(None, SegmentationError::TranscoderNotFound)
    );
    assert_eq!(
        segment_quran_audio(CloudPhase::ResolvingTool, &request(None, None), CloudEvent::ToolResolved { found: true }),
        failed(None, SegmentationError::InvalidInput(InvalidInput::MissingAudioSource))
    );
    assert_eq!(
        segment_quran_audio(
            CloudPhase::ResolvingTool,
            &request(None, Some(vec![clip("/a.wav", 5, 5), clip("/b.wav", 9, 1)])),
            CloudEvent::ToolResolved { found: true }
        ),
        failed(None, SegmentationError::InvalidInput(InvalidInput::NoValidClips))
    );
    for phase in [CloudPhase::Merging, CloudPhase::Encoding] {
        assert_eq!(
            segment_quran_audio(phase, &req, CloudEvent::SourceMissing { path: "/gone.wav".to_string() }),
            failed(None, SegmentationError::AudioFileNotFound { path: "/gone.wav".to_string() })
        );
    }
    assert_eq!(
        segment_quran_audio(CloudPhase::Merging, &req, CloudEvent::Transcoded { success: false, stderr: "m".to_string() }),
        failed(None, SegmentationError::TranscodeFailed { step: TranscodeStep::Merge, diagnostic: "m".to_string() })
    );
    assert_eq!(
        segment_quran_audio(CloudPhase::Encoding, &req, CloudEvent::Transcoded { success: false, stderr: "e".to_string() }),
        failed(None, SegmentationError::TranscodeFailed { step: TranscodeStep::Encode, diagnostic: "e".to_string() })
    );
    assert_eq!(
        segment_quran_audio(CloudPhase::ReadingPayload, &req, CloudEvent::PayloadRead { total_bytes: 0 }),
        failed(None, SegmentationError::EmptyPayload)
    );
    assert_eq!(
        segment_quran_audio(CloudPhase::Uploading, &req, CloudEvent::Uploaded { status: 502, body: "[\"x\"]".to_string() }),
        failed(None, SegmentationError::UploadFailed(UploadFailure::Rejected { status: 502 }))
    );
    assert_eq!(
        segment_quran_audio(CloudPhase::Uploading, &req, CloudEvent::Uploaded { status: 200, body: "[]".to_string() }),
        failed(Some(CloudMilestone::Uploaded), SegmentationError::UploadFailed(UploadFailure::NoPath))
    );
    assert_eq!(
        segment_quran_audio(CloudPhase::Uploading, &req, CloudEvent::Uploaded { status: 200, body: "<html>".to_string() }),
        failed(Some(CloudMilestone::Uploaded), SegmentationError::UploadFailed(UploadFailure::UnreadableResponse))
    );
    assert_eq!(
        segment_quran_audio(CloudPhase::Submitting, &req, CloudEvent::Submitted { body: "{}".to_string() }),
        failed(Some(CloudMilestone::JobAccepted), SegmentationError::JobSubmitFailed)
    );
    assert_eq!(
        segment_quran_audio(
            CloudPhase::Streaming,
            &req,
            CloudEvent::Streamed { outcome: Err(SegmentationError::StreamEndedWithoutResult) }
        ),
        failed(None, SegmentationError::StreamEndedWithoutResult)
    );
}

#[test]
fn parameters_are_checked_when_the_job_is_built() {
    let mut req = request(Some("/a.wav"), None);
    req.model_name = Some("huge".to_string());
    req.device = Some("tpu".to_string());
    let turn = segment_quran_audio(CloudPhase::ResolvingTool, &req, CloudEvent::ToolResolved { found: true });
    assert_eq!(turn.phase, CloudPhase::Encoding);
    assert_eq!(
        segment_quran_audio(CloudPhase::Uploading, &req, CloudEvent::Uploaded { status: 200, body: "[\"p\"]".to_string() }),
        failed(
            Some(CloudMilestone::Uploaded),
            SegmentationError::InvalidParameter { parameter: Parameter::ModelName, value: "huge".to_string() }
        )
    );
    req.model_name = None;
    assert_eq!(
        segment_quran_audio(CloudPhase::Uploading, &req, CloudEvent::Uploaded { status: 200, body: "[\"p\"]".to_string() }),
        failed(
            Some(CloudMilestone::Uploaded),
            SegmentationError::InvalidParameter { parameter: Parameter::Device, value: "TPU".to_string() }
        )
    );
}

#[test]
fn a_report_out_of_turn_ends_the_segmentation() {
    let req = request(Some("/a.wav"), None);
    let phases = [
        CloudPhase::Start,
        CloudPhase::ResolvingTool,
        CloudPhase::Merging,
        CloudPhase::Encoding,
        CloudPhase::ReadingPayload,
        CloudPhase::Uploading,
        CloudPhase::Submitting,
        CloudPhase::Done,
        CloudPhase::Failed,
    ];
    for phase in phases {
        let doc = read_json("{}").unwrap();
        assert_eq!(
            segment_quran_audio(phase, &req, CloudEvent::Streamed { outcome: Ok(doc) }),
            failed(None, SegmentationError::UnexpectedEvent)
        );
    }
    assert_eq!(
        segment_quran_audio(CloudPhase::Streaming, &req, CloudEvent::Begin),
        failed(None, SegmentationError::UnexpectedEvent)
    );
}
