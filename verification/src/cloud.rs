//! The remote segmentation client.
//!
//! A remote segmentation is a sequence of turns. The caller does what a turn
//! asks (finds the transcode tool, runs it, uploads, posts, reads the event
//! stream) and reports what it saw; [`segment_quran_audio`] takes the report
//! and says what to do next. The functions before it are the decisions of the
//! single steps: how the audio is encoded and uploaded, what the service's
//! answers mean, and what the terminal payload comes to. The event stream
//! itself is read by [`crate::sse`].

use vstd::prelude::*;
use crate::audio_merge::{
    clips_of, prepare_audio, prepared_audio, AudioInput, AudioInputView, ClipView, MergeDecision,
    MergeDecisionView, MergePlan, MergePlanView,
};
use crate::error::{SegmentationError, SegmentationErrorView, TranscodeStep, UploadFailure};
use crate::json::{
    json_document, parse_value, read_string_list, read_string_member, string_list, string_member,
    JsonDoc, JsonDocView, JsonNode, JsonNodeView,
};
use crate::params::{checked_parameters, normalize_device, normalize_model};
use crate::text::{
    append_str, copy_str, decimal, digit_char, opt_string_view, opt_view, push_decimal,
    push_str_item, string_from_chars, strings_view,
};
use crate::types::SegmentationAudioClip;

verus! {

/// The size of an upload chunk, in bytes.
pub const UPLOAD_CHUNK_SIZE: u64 = 262144;

/// The silence threshold used when a request names none, in milliseconds.
pub const DEFAULT_MIN_SILENCE_MS: u32 = 200;

/// The speech threshold used when a request names none, in milliseconds.
pub const DEFAULT_MIN_SPEECH_MS: u32 = 1000;

/// The padding used when a request names none, in milliseconds.
pub const DEFAULT_PAD_MS: u32 = 100;

/// A phase of a remote segmentation, as named in progress events.
#[derive(Debug, Clone, Copy, PartialEq, Eq, Structural)]
pub enum CloudStep {
    Prepare,
    Upload,
    Process,
    Complete,
}

impl CloudStep {
    /// The step's name in progress events.
    pub fn as_str(&self) -> (r: &'static str)
        ensures
            r@ == step_name(*self),
    {
        match self {
            CloudStep::Prepare => "cloud_prepare",
            CloudStep::Upload => "cloud_upload",
            CloudStep::Process => "cloud_process",
            CloudStep::Complete => "cloud_complete",
        }
    }
}

/// The transcode tool's arguments for encoding `input` as Opus into `output`.
pub open spec fn encode_args_spec(input: Seq<char>, output: Seq<char>) -> Seq<Seq<char>> {
    seq![
        "-y"@,
        "-hide_banner"@,
        "-loglevel"@,
        "error"@,
        "-i"@,
        input,
        "-c:a"@,
        "libopus"@,
        "-b:a"@,
        "64k"@,
        "-vbr"@,
        "on"@,
        "-vn"@,
        output,
    ]
}

/// Builds the transcode tool's arguments for encoding `input` into `output`.
pub fn encode_args(input: &str, output: &str) -> (r: Vec<String>)
    ensures
        strings_view(r@) == encode_args_spec(input@, output@),
{
    let mut args: Vec<String> = Vec::new();
    push_str_item(&mut args, "-y");
    push_str_item(&mut args, "-hide_banner");
    push_str_item(&mut args, "-loglevel");
    push_str_item(&mut args, "error");
    push_str_item(&mut args, "-i");
    push_str_item(&mut args, input);
    push_str_item(&mut args, "-c:a");
    push_str_item(&mut args, "libopus");
    push_str_item(&mut args, "-b:a");
    push_str_item(&mut args, "64k");
    push_str_item(&mut args, "-vbr");
    push_str_item(&mut args, "on");
    push_str_item(&mut args, "-vn");
    push_str_item(&mut args, output);
    args
}

/// The name of the temporary file that holds the encoded audio of a request
/// started at `stamp`.
pub fn upload_file_name(stamp: u64) -> (r: String)
    ensures
        r@ == "qurancaption-seg-"@ + decimal(stamp as nat) + ".ogg"@,
{
    let mut out: Vec<char> = Vec::new();
    append_str(&mut out, "qurancaption-seg-");
    push_decimal(&mut out, stamp);
    append_str(&mut out, ".ogg");
    string_from_chars(&out)
}

/// How far an upload has come.
#[derive(Debug, Clone, Copy, PartialEq, Eq, Structural)]
pub struct UploadProgress {
    /// The size of the payload, in bytes.
    pub total: u64,
    /// How many bytes have been handed out.
    pub sent: u64,
    /// The last whole percentage that was announced.
    pub last_percent: u64,
}

/// The next chunk of an upload.
#[derive(Debug, Clone, Copy, PartialEq, Eq, Structural)]
pub struct UploadChunk {
    /// The chunk is the bytes `start..end` of the payload.
    pub start: u64,
    pub end: u64,
    /// The percentage to announce with this chunk, if it is a new one.
    pub announce: Option<u64>,
}

/// Where the chunk that starts at `sent` ends.
pub open spec fn chunk_end(total: int, sent: int) -> int {
    if sent + UPLOAD_CHUNK_SIZE < total {
        sent + UPLOAD_CHUNK_SIZE
    } else {
        total
    }
}

/// The whole percentage of `total` that `sent` bytes are.
pub open spec fn percent_of(total: int, sent: int) -> int {
    (sent * 100) / total
}

/// The percentage grows with the bytes sent, is below a hundred until all are
/// sent, and is a hundred then.
pub proof fn lemma_percent_of(total: int, sent: int, more: int)
    requires
        0 < total,
        0 <= sent <= more <= total,
    ensures
        0 <= percent_of(total, sent) <= percent_of(total, more) <= 100,
        percent_of(total, total) == 100,
        sent < total ==> percent_of(total, sent) < 100,
{
    assert(0 <= (sent * 100) / total <= (more * 100) / total <= 100) by (nonlinear_arith)
        requires
            0 < total,
            0 <= sent <= more <= total,
    ;
    assert((total * 100) / total == 100) by (nonlinear_arith)
        requires
            0 < total,
    ;
    if sent < total {
        assert((sent * 100) / total < 100) by (nonlinear_arith)
            requires
                0 < total,
                0 <= sent < total,
        ;
    }
}

impl UploadProgress {
    /// Whether this is a state of an upload that began with [`Self::start`]:
    /// the payload is not empty, no more than the payload has been handed out,
    /// and the last percentage announced is what the bytes handed out amount to.
    pub open spec fn valid(&self) -> bool {
        &&& self.total > 0
        &&& self.sent <= self.total
        &&& self.last_percent == percent_of(self.total as int, self.sent as int)
    }

    /// Starts the upload of a payload of `total` bytes. An empty payload is
    /// refused.
    pub fn start(total: u64) -> (r: Result<UploadProgress, SegmentationError>)
        ensures
            match r {
                Ok(p) => total > 0 && p == (UploadProgress { total, sent: 0, last_percent: 0 })
                    && p.valid(),
                Err(e) => total == 0 && e@ == SegmentationErrorView::EmptyPayload,
            },
    {
        if total == 0 {
            Err(SegmentationError::EmptyPayload)
        } else {
            Ok(UploadProgress { total, sent: 0, last_percent: 0 })
        }
    }

    /// Hands out the next chunk, or `None` when every byte has been sent.
    ///
    /// A percentage is announced only when it is greater than the last one
    /// announced, so the announced percentages increase strictly. In an upload
    /// that began with [`Self::start`] the state stays valid, the chunk that
    /// ends the payload announces a hundred percent, and nothing is left to
    /// announce once every byte has been handed out.
    pub fn next_chunk(&mut self) -> (r: Option<UploadChunk>)
        ensures
            final(self).total == old(self).total,
            old(self).valid() ==> final(self).valid(),
            old(self).valid() ==> (r matches Some(chunk) ==> (chunk.end == old(self).total
                <==> chunk.announce == Some(100u64))),
            old(self).valid() && r is None ==> old(self).last_percent == 100,
            final(self).sent <= old(self).total || final(self).sent == old(self).sent,
            match r {
                None => old(self).sent >= old(self).total && *final(self) == *old(self),
                Some(chunk) => {
                    &&& old(self).sent < old(self).total
                    &&& chunk.start == old(self).sent
                    &&& chunk.end == chunk_end(old(self).total as int, old(self).sent as int)
                    &&& chunk.start < chunk.end
                    &&& final(self).sent == chunk.end
                    &&& match chunk.announce {
                        Some(p) => {
                            &&& p == percent_of(old(self).total as int, chunk.end as int)
                            &&& p <= 100
                            &&& p > old(self).last_percent
                            &&& final(self).last_percent == p
                        },
                        None => {
                            &&& percent_of(old(self).total as int, chunk.end as int) <= old(
                                self,
                            ).last_percent
                            &&& final(self).last_percent == old(self).last_percent
                        },
                    }
                },
            },
    {
        if self.sent >= self.total {
            proof {
                if old(self).valid() {
                    lemma_percent_of(self.total as int, self.sent as int, self.sent as int);
                }
            }
            return None;
        }
        let start: u64 = self.sent;
        let end: u64 = if self.total - start > UPLOAD_CHUNK_SIZE {
            start + UPLOAD_CHUNK_SIZE
        } else {
            self.total
        };
        let wide: u128 = ((end as u128) * 100) / (self.total as u128);
        assert(wide <= 100) by (nonlinear_arith)
            requires
                wide == ((end as int) * 100) / (self.total as int),
                0 < end <= self.total,
        ;
        let percent: u64 = wide as u64;
        proof {
            if old(self).valid() {
                lemma_percent_of(self.total as int, start as int, end as int);
                lemma_percent_of(self.total as int, end as int, end as int);
            }
        }
        let announce = if percent > self.last_percent {
            self.last_percent = percent;
            Some(percent)
        } else {
            None
        };
        self.sent = end;
        Some(UploadChunk { start, end, announce })
    }
}

/// The server-side path that an upload's answer gives, where `paths` is the
/// list that its body holds: the first path, from a status in 200..=299.
pub open spec fn picked_path(status: u16, paths: Option<Seq<Seq<char>>>) -> Result<
    Seq<char>,
    UploadFailure,
> {
    if !(200 <= status <= 299) {
        Err(UploadFailure::Rejected { status })
    } else {
        match paths {
            None => Err(UploadFailure::UnreadableResponse),
            Some(list) => if list.len() == 0 {
                Err(UploadFailure::NoPath)
            } else {
                Ok(list[0])
            },
        }
    }
}

/// What the upload's answer comes to, where the body must be a JSON list of
/// strings.
pub open spec fn upload_result(status: u16, body: Seq<char>) -> Result<Seq<char>, UploadFailure> {
    picked_path(status, string_list(body))
}

/// The view of the outcome of reading an upload's answer.
pub open spec fn upload_view(r: Result<String, SegmentationError>) -> Option<
    Result<Seq<char>, UploadFailure>,
> {
    match r {
        Ok(path) => Some(Ok(path@)),
        Err(e) => match e@ {
            SegmentationErrorView::UploadFailed(why) => Some(Err(why)),
            _ => None,
        },
    }
}

/// Picks the server-side path out of the upload's answer, given the paths that
/// its body lists.
pub fn pick_upload_path(status: u16, paths: Option<Vec<String>>) -> (r: Result<
    String,
    SegmentationError,
>)
    ensures
        upload_view(r) == Some(
            picked_path(
                status,
                match paths {
                    Some(list) => Some(strings_view(list@)),
                    None => None,
                },
            ),
        ),
{
    if status < 200 || status > 299 {
        return Err(SegmentationError::UploadFailed(UploadFailure::Rejected { status }));
    }
    match paths {
        None => Err(SegmentationError::UploadFailed(UploadFailure::UnreadableResponse)),
        Some(list) => {
            if list.len() == 0 {
                Err(SegmentationError::UploadFailed(UploadFailure::NoPath))
            } else {
                let mut list = list;
                let path = list.swap_remove(0);
                Ok(path)
            }
        },
    }
}

/// Reads the upload's answer.
pub fn read_upload_response(status: u16, body: &str) -> (r: Result<String, SegmentationError>)
    ensures
        upload_view(r) == Some(upload_result(status, body@)),
{
    if status < 200 || status > 299 {
        return pick_upload_path(status, None);
    }
    let paths = read_string_list(body);
    pick_upload_path(status, paths)
}

/// A job for the remote service: the uploaded file and the checked parameters.
#[derive(Debug, Clone, PartialEq, Eq)]
pub struct JobRequest {
    pub uploaded_path: String,
    pub min_silence_ms: u32,
    pub min_speech_ms: u32,
    pub pad_ms: u32,
    pub model: String,
    pub device: String,
}

/// A job as the contracts see it.
pub struct JobRequestView {
    pub uploaded_path: Seq<char>,
    pub min_silence_ms: u32,
    pub min_speech_ms: u32,
    pub pad_ms: u32,
    pub model: Seq<char>,
    pub device: Seq<char>,
}

impl View for JobRequest {
    type V = JobRequestView;

    open spec fn view(&self) -> JobRequestView {
        JobRequestView {
            uploaded_path: self.uploaded_path@,
            min_silence_ms: self.min_silence_ms,
            min_speech_ms: self.min_speech_ms,
            pad_ms: self.pad_ms,
            model: self.model@,
            device: self.device@,
        }
    }
}

/// The job for an uploaded file, with defaults filled in, or the failure of
/// the first parameter that is not valid. The model is checked before the
/// device.
pub open spec fn job_request(
    uploaded_path: Seq<char>,
    min_silence_ms: Option<u32>,
    min_speech_ms: Option<u32>,
    pad_ms: Option<u32>,
    model_name: Option<Seq<char>>,
    device: Option<Seq<char>>,
) -> Result<JobRequestView, SegmentationErrorView> {
    match checked_parameters(model_name, device) {
        Err(e) => Err(e),
        Ok(checked) => Ok(
            JobRequestView {
                uploaded_path,
                min_silence_ms: or_default(min_silence_ms, DEFAULT_MIN_SILENCE_MS),
                min_speech_ms: or_default(min_speech_ms, DEFAULT_MIN_SPEECH_MS),
                pad_ms: or_default(pad_ms, DEFAULT_PAD_MS),
                model: checked.0,
                device: checked.1,
            },
        ),
    }
}

/// A tuning value, or its default when the request names none.
pub open spec fn or_default(value: Option<u32>, default: u32) -> u32 {
    match value {
        Some(v) => v,
        None => default,
    }
}

/// Checks the parameters of a job and fills in the defaults.
pub fn build_job_request(
    uploaded_path: &str,
    min_silence_ms: Option<u32>,
    min_speech_ms: Option<u32>,
    pad_ms: Option<u32>,
    model_name: Option<&str>,
    device: Option<&str>,
) -> (r: Result<JobRequest, SegmentationError>)
    ensures
        match r {
            Ok(job) => job_request(
                uploaded_path@,
                min_silence_ms,
                min_speech_ms,
                pad_ms,
                opt_view(model_name),
                opt_view(device),
            ) == Ok::<JobRequestView, SegmentationErrorView>(job@),
            Err(e) => job_request(
                uploaded_path@,
                min_silence_ms,
                min_speech_ms,
                pad_ms,
                opt_view(model_name),
                opt_view(device),
            ) == Err::<JobRequestView, SegmentationErrorView>(e@),
        },
{
    let model = normalize_model(model_name)?;
    let device = normalize_device(device)?;
    Ok(
        JobRequest {
            uploaded_path: copy_str(uploaded_path),
            min_silence_ms: match min_silence_ms {
                Some(v) => v,
                None => DEFAULT_MIN_SILENCE_MS,
            },
            min_speech_ms: match min_speech_ms {
                Some(v) => v,
                None => DEFAULT_MIN_SPEECH_MS,
            },
            pad_ms: match pad_ms {
                Some(v) => v,
                None => DEFAULT_PAD_MS,
            },
            model,
            device,
        },
    )
}

/// The event id in the answer to a job submission: the string under the
/// `event_id` key of a JSON object.
pub open spec fn event_id_of(body: Seq<char>) -> Option<Seq<char>> {
    match json_document(body) {
        Ok(doc) => string_member(doc.node, "event_id"@),
        Err(_) => None,
    }
}

/// Reads the event id out of the answer to a job submission.
pub fn read_event_id(body: &str) -> (r: Result<String, SegmentationError>)
    ensures
        match r {
            Ok(id) => event_id_of(body@) == Some(id@),
            Err(e) => event_id_of(body@) is None && e@ == SegmentationErrorView::JobSubmitFailed,
        },
{
    match parse_value(body) {
        Ok(doc) => match read_string_member(&doc.node, "event_id") {
            Some(id) => Ok(id),
            None => Err(SegmentationError::JobSubmitFailed),
        },
        Err(_) => Err(SegmentationError::JobSubmitFailed),
    }
}

/// The address of the event stream of the job `event_id` of `operation`.
pub fn stream_url(operation: &str, event_id: &str) -> (r: String)
    ensures
        r@ == crate::types::QURAN_MULTI_ALIGNER_BASE_URL@ + "/call/"@ + operation@ + "/"@
            + event_id@,
{
    let mut out: Vec<char> = Vec::new();
    append_str(&mut out, crate::types::QURAN_MULTI_ALIGNER_BASE_URL);
    append_str(&mut out, "/call/");
    append_str(&mut out, operation);
    append_str(&mut out, "/");
    append_str(&mut out, event_id);
    string_from_chars(&out)
}

/// The result inside a terminal payload: the first element of an array that
/// has one, else the payload itself. Both are compact JSON text.
pub open spec fn unwrapped(doc: JsonDocView) -> Seq<char> {
    match doc.node {
        JsonNodeView::Array(items) => if items.len() > 0 {
            items[0]
        } else {
            doc.compact
        },
        _ => doc.compact,
    }
}

/// Unwraps a terminal payload into the segmentation result, as JSON text.
pub fn unwrap_payload(doc: JsonDoc) -> (r: String)
    ensures
        r@ == unwrapped(doc@),
{
    match doc.node {
        JsonNode::Array(items) => {
            if items.len() > 0 {
                let mut items = items;
                let item = items.swap_remove(0);
                item
            } else {
                doc.compact
            }
        },
        _ => doc.compact,
    }
}


/// A progress event for the caller's observer.
#[derive(Debug, Clone, PartialEq, Eq)]
pub struct ProgressEvent {
    /// The phase that the event belongs to.
    pub step: String,
    pub message: String,
    /// How far the phase has come, in percent, where that is known.
    pub progress: Option<u8>,
}

/// A progress event as the contracts see it.
pub struct ProgressEventView {
    pub step: Seq<char>,
    pub message: Seq<char>,
    pub progress: Option<u8>,
}

impl View for ProgressEvent {
    type V = ProgressEventView;

    open spec fn view(&self) -> ProgressEventView {
        ProgressEventView { step: self.step@, message: self.message@, progress: self.progress }
    }
}

/// A point of a remote segmentation at which progress is announced.
#[derive(Debug, Clone, Copy, PartialEq, Eq, Structural)]
pub enum CloudMilestone {
    /// The request was taken up.
    Started,
    /// The audio is encoded.
    Prepared,
    /// The upload of `total_bytes` begins.
    UploadStarted { total_bytes: u64 },
    /// The upload of `total_bytes` has reached a new whole percentage.
    Uploading { total_bytes: u64, percent: u64 },
    /// The upload was answered.
    Uploaded,
    /// The job was accepted.
    JobAccepted,
    /// The result has arrived.
    Completed,
}

/// A size in tenths of a mebibyte, rounded to the nearest tenth and to the even
/// one where two are equally near.
pub open spec fn tenths_of_mb(total_bytes: int) -> int {
    let q = (total_bytes * 10) / 1048576;
    let r = (total_bytes * 10) % 1048576;
    if r > 524288 || (r == 524288 && q % 2 == 1) {
        q + 1
    } else {
        q
    }
}

/// A size in mebibytes with one decimal, as in `2.5` for 2621440 bytes.
pub open spec fn megabytes_text(total_bytes: int) -> Seq<char> {
    decimal((tenths_of_mb(total_bytes) / 10) as nat) + seq![
        '.',
        digit_char(tenths_of_mb(total_bytes) % 10),
    ]
}

/// A percentage that does not pass one hundred.
pub open spec fn capped(percent: u64) -> u8 {
    if percent > 100 {
        100u8
    } else {
        percent as u8
    }
}

/// The step of a milestone.
pub open spec fn milestone_step(m: CloudMilestone) -> CloudStep {
    match m {
        CloudMilestone::Started => CloudStep::Prepare,
        CloudMilestone::Prepared => CloudStep::Prepare,
        CloudMilestone::UploadStarted { .. } => CloudStep::Upload,
        CloudMilestone::Uploading { .. } => CloudStep::Upload,
        CloudMilestone::Uploaded => CloudStep::Upload,
        CloudMilestone::JobAccepted => CloudStep::Process,
        CloudMilestone::Completed => CloudStep::Complete,
    }
}

/// The name of a step in progress events.
pub open spec fn step_name(step: CloudStep) -> Seq<char> {
    match step {
        CloudStep::Prepare => "cloud_prepare"@,
        CloudStep::Upload => "cloud_upload"@,
        CloudStep::Process => "cloud_process"@,
        CloudStep::Complete => "cloud_complete"@,
    }
}

/// What is said at a milestone.
pub open spec fn milestone_message(m: CloudMilestone) -> Seq<char> {
    match m {
        CloudMilestone::Started => "Preparing audio for cloud..."@,
        CloudMilestone::Prepared => "Audio prepared. Starting upload..."@,
        CloudMilestone::UploadStarted { total_bytes } => "Uploading "@ + megabytes_text(
            total_bytes as int,
        ) + " MB to cloud..."@,
        CloudMilestone::Uploading { total_bytes, percent } => "Uploading "@ + megabytes_text(
            total_bytes as int,
        ) + " MB to cloud... "@ + decimal(capped(percent) as nat) + "%"@,
        CloudMilestone::Uploaded => "Cloud upload complete. Starting segmentation..."@,
        CloudMilestone::JobAccepted => "Cloud job accepted. Waiting for segmentation results..."@,
        CloudMilestone::Completed => "Cloud segmentation completed."@,
    }
}

/// How far the step of a milestone has come.
pub open spec fn milestone_progress(m: CloudMilestone) -> Option<u8> {
    match m {
        CloudMilestone::Started => Some(0u8),
        CloudMilestone::Prepared => Some(0u8),
        CloudMilestone::UploadStarted { .. } => Some(0u8),
        CloudMilestone::Uploading { percent, .. } => Some(capped(percent)),
        CloudMilestone::Uploaded => Some(100u8),
        CloudMilestone::JobAccepted => Some(100u8),
        CloudMilestone::Completed => None,
    }
}

/// The progress event of a milestone.
pub open spec fn progress_of(m: CloudMilestone) -> ProgressEventView {
    ProgressEventView {
        step: step_name(milestone_step(m)),
        message: milestone_message(m),
        progress: milestone_progress(m),
    }
}

/// No progress event reports more than a hundred percent.
pub proof fn lemma_progress_is_a_percentage(m: CloudMilestone)
    ensures
        progress_of(m).progress matches Some(p) ==> p <= 100,
{
}

fn push_megabytes(out: &mut Vec<char>, total_bytes: u64)
    ensures
        final(out)@ == old(out)@ + megabytes_text(total_bytes as int),
{
    let scaled: u128 = (total_bytes as u128) * 10;
    let q: u128 = scaled / 1048576;
    let r: u128 = scaled % 1048576;
    let tenths: u128 = if r > 524288 || (r == 524288 && q % 2 == 1) {
        q + 1
    } else {
        q
    };
    assert(tenths == tenths_of_mb(total_bytes as int));
    push_decimal(out, (tenths / 10) as u64);
    out.push('.');
    out.push((48u8 + (tenths % 10) as u8) as char);
    assert(out@ == old(out)@ + megabytes_text(total_bytes as int));
}

/// Builds the progress event of a milestone.
pub fn cloud_progress(m: CloudMilestone) -> (r: ProgressEvent)
    ensures
        r@ == progress_of(m),
{
    let mut message: Vec<char> = Vec::new();
    let (step, progress): (CloudStep, Option<u8>) = match m {
        CloudMilestone::Started => {
            append_str(&mut message, "Preparing audio for cloud...");
            (CloudStep::Prepare, Some(0u8))
        },
        CloudMilestone::Prepared => {
            append_str(&mut message, "Audio prepared. Starting upload...");
            (CloudStep::Prepare, Some(0u8))
        },
        CloudMilestone::UploadStarted { total_bytes } => {
            append_str(&mut message, "Uploading ");
            push_megabytes(&mut message, total_bytes);
            append_str(&mut message, " MB to cloud...");
            (CloudStep::Upload, Some(0u8))
        },
        CloudMilestone::Uploading { total_bytes, percent } => {
            let shown: u8 = if percent > 100 {
                100u8
            } else {
                percent as u8
            };
            append_str(&mut message, "Uploading ");
            push_megabytes(&mut message, total_bytes);
            append_str(&mut message, " MB to cloud... ");
            push_decimal(&mut message, shown as u64);
            append_str(&mut message, "%");
            (CloudStep::Upload, Some(shown))
        },
        CloudMilestone::Uploaded => {
            append_str(&mut message, "Cloud upload complete. Starting segmentation...");
            (CloudStep::Upload, Some(100u8))
        },
        CloudMilestone::JobAccepted => {
            append_str(&mut message, "Cloud job accepted. Waiting for segmentation results...");
            (CloudStep::Process, Some(100u8))
        },
        CloudMilestone::Completed => {
            append_str(&mut message, "Cloud segmentation completed.");
            (CloudStep::Complete, None)
        },
    };
    ProgressEvent {
        step: copy_str(step.as_str()),
        message: string_from_chars(&message),
        progress,
    }
}


/// A request for a remote segmentation.
#[derive(Debug, Clone, PartialEq, Eq)]
pub struct CloudRequest {
    pub audio_path: Option<String>,
    pub audio_clips: Option<Vec<SegmentationAudioClip>>,
    pub min_silence_ms: Option<u32>,
    pub min_speech_ms: Option<u32>,
    pub pad_ms: Option<u32>,
    pub model_name: Option<String>,
    pub device: Option<String>,
}

/// A request as the contracts see it.
pub struct CloudRequestView {
    pub audio_path: Option<Seq<char>>,
    pub clips: Seq<ClipView>,
    pub min_silence_ms: Option<u32>,
    pub min_speech_ms: Option<u32>,
    pub pad_ms: Option<u32>,
    pub model_name: Option<Seq<char>>,
    pub device: Option<Seq<char>>,
}

impl View for CloudRequest {
    type V = CloudRequestView;

    open spec fn view(&self) -> CloudRequestView {
        CloudRequestView {
            audio_path: opt_string_view(self.audio_path),
            clips: clips_of(self.audio_clips),
            min_silence_ms: self.min_silence_ms,
            min_speech_ms: self.min_speech_ms,
            pad_ms: self.pad_ms,
            model_name: opt_string_view(self.model_name),
            device: opt_string_view(self.device),
        }
    }
}

/// Where a remote segmentation stands.
#[derive(Debug, Clone, Copy, PartialEq, Eq, Structural)]
pub enum CloudPhase {
    /// Nothing has happened yet.
    Start,
    /// The transcode tool is being looked for.
    ResolvingTool,
    /// The clips are being mixed into one track.
    Merging,
    /// The audio is being encoded for upload.
    Encoding,
    /// The encoded audio is being read.
    ReadingPayload,
    /// The encoded audio is being uploaded.
    Uploading,
    /// The job is being submitted.
    Submitting,
    /// The event stream of the job is being read.
    Streaming,
    /// The result has been handed out.
    Done,
    /// The segmentation has failed.
    Failed,
}

/// What the caller saw when it did what it was asked.
#[derive(Debug, PartialEq, Eq)]
pub enum CloudEvent {
    /// The request was taken up.
    Begin,
    /// The transcode tool was looked for.
    ToolResolved { found: bool },
    /// The file that was to be read does not exist.
    SourceMissing { path: String },
    /// The transcode tool ran to its end; `stderr` is what it wrote there.
    Transcoded { success: bool, stderr: String },
    /// The encoded audio was read.
    PayloadRead { total_bytes: u64 },
    /// The upload was answered.
    Uploaded { status: u16, body: String },
    /// The job submission was answered with success.
    Submitted { body: String },
    /// The event stream ended or gave its terminal payload.
    Streamed { outcome: Result<JsonDoc, SegmentationError> },
}

/// An event as the contracts see it.
pub enum CloudEventView {
    Begin,
    ToolResolved { found: bool },
    SourceMissing { path: Seq<char> },
    Transcoded { success: bool, stderr: Seq<char> },
    PayloadRead { total_bytes: u64 },
    Uploaded { status: u16, body: Seq<char> },
    Submitted { body: Seq<char> },
    Streamed { outcome: Result<JsonDocView, SegmentationErrorView> },
}

impl View for CloudEvent {
    type V = CloudEventView;

    open spec fn view(&self) -> CloudEventView {
        match self {
            CloudEvent::Begin => CloudEventView::Begin,
            CloudEvent::ToolResolved { found } => CloudEventView::ToolResolved { found: *found },
            CloudEvent::SourceMissing { path } => CloudEventView::SourceMissing { path: path@ },
            CloudEvent::Transcoded { success, stderr } => CloudEventView::Transcoded {
                success: *success,
                stderr: stderr@,
            },
            CloudEvent::PayloadRead { total_bytes } => CloudEventView::PayloadRead {
                total_bytes: *total_bytes,
            },
            CloudEvent::Uploaded { status, body } => CloudEventView::Uploaded {
                status: *status,
                body: body@,
            },
            CloudEvent::Submitted { body } => CloudEventView::Submitted { body: body@ },
            CloudEvent::Streamed { outcome } => CloudEventView::Streamed {
                outcome: match outcome {
                    Ok(doc) => Ok(doc@),
                    Err(e) => Err(e@),
                },
            },
        }
    }
}

/// What the caller is asked to do next.
#[derive(Debug, PartialEq, Eq)]
pub enum CloudAction {
    /// Look for the transcode tool.
    ResolveTool,
    /// Mix the clips of the plan into a temporary file.
    Merge { plan: MergePlan },
    /// Encode the input into a temporary file.
    Encode { input: AudioInput },
    /// Read the encoded file.
    ReadPayload,
    /// Upload the encoded audio in chunks, as `progress` hands them out.
    Upload { progress: UploadProgress },
    /// Submit the job.
    Submit { job: JobRequest },
    /// Read the event stream at `url`.
    Stream { url: String },
    /// Hand out the result, which is JSON text.
    Finish { result: String },
    /// Give up.
    Fail { error: SegmentationError },
}

/// An action as the contracts see it.
pub enum CloudActionView {
    ResolveTool,
    Merge { plan: MergePlanView },
    Encode { input: AudioInputView },
    ReadPayload,
    Upload { progress: UploadProgress },
    Submit { job: JobRequestView },
    Stream { url: Seq<char> },
    Finish { result: Seq<char> },
    Fail { error: SegmentationErrorView },
}

impl View for CloudAction {
    type V = CloudActionView;

    open spec fn view(&self) -> CloudActionView {
        match self {
            CloudAction::ResolveTool => CloudActionView::ResolveTool,
            CloudAction::Merge { plan } => CloudActionView::Merge { plan: plan@ },
            CloudAction::Encode { input } => CloudActionView::Encode { input: input@ },
            CloudAction::ReadPayload => CloudActionView::ReadPayload,
            CloudAction::Upload { progress } => CloudActionView::Upload { progress: *progress },
            CloudAction::Submit { job } => CloudActionView::Submit { job: job@ },
            CloudAction::Stream { url } => CloudActionView::Stream { url: url@ },
            CloudAction::Finish { result } => CloudActionView::Finish { result: result@ },
            CloudAction::Fail { error } => CloudActionView::Fail { error: error@ },
        }
    }
}

/// One turn of a remote segmentation: the phase it is in now, the milestone
/// to announce, and what to do next.
#[derive(Debug, PartialEq, Eq)]
pub struct CloudTurn {
    pub phase: CloudPhase,
    pub announce: Option<CloudMilestone>,
    pub action: CloudAction,
}

/// A turn as the contracts see it.
pub struct CloudTurnView {
    pub phase: CloudPhase,
    pub announce: Option<CloudMilestone>,
    pub action: CloudActionView,
}

impl View for CloudTurn {
    type V = CloudTurnView;

    open spec fn view(&self) -> CloudTurnView {
        CloudTurnView { phase: self.phase, announce: self.announce, action: self.action@ }
    }
}

/// The turn that ends a segmentation with a failure.
pub open spec fn failing(
    announce: Option<CloudMilestone>,
    error: SegmentationErrorView,
) -> CloudTurnView {
    CloudTurnView { phase: CloudPhase::Failed, announce, action: CloudActionView::Fail { error } }
}

/// The address of the event stream of a segmentation job.
pub open spec fn process_stream_url(event_id: Seq<char>) -> Seq<char> {
    crate::types::QURAN_MULTI_ALIGNER_BASE_URL@ + "/call/"@ + "process_audio_session"@ + "/"@
        + event_id
}

/// The turn after the transcode tool was found: the audio is chosen.
pub open spec fn after_tool(request: CloudRequestView) -> CloudTurnView {
    match prepared_audio(request.audio_path, request.clips) {
        Err(e) => failing(None, e),
        Ok(MergeDecisionView::Passthrough { path }) => CloudTurnView {
            phase: CloudPhase::Encoding,
            announce: None,
            action: CloudActionView::Encode { input: AudioInputView::File { path } },
        },
        Ok(MergeDecisionView::Merge(plan)) => CloudTurnView {
            phase: CloudPhase::Merging,
            announce: None,
            action: CloudActionView::Merge { plan },
        },
    }
}

/// The turn after the upload was answered: the parameters are checked only
/// now, and a job is submitted for the first server-side path.
pub open spec fn after_upload(
    request: CloudRequestView,
    status: u16,
    body: Seq<char>,
) -> CloudTurnView {
    if !(200 <= status <= 299) {
        failing(None, SegmentationErrorView::UploadFailed(UploadFailure::Rejected { status }))
    } else {
        match upload_result(status, body) {
            Err(why) => failing(
                Some(CloudMilestone::Uploaded),
                SegmentationErrorView::UploadFailed(why),
            ),
            Ok(path) => match job_request(
                path,
                request.min_silence_ms,
                request.min_speech_ms,
                request.pad_ms,
                request.model_name,
                request.device,
            ) {
                Err(e) => failing(Some(CloudMilestone::Uploaded), e),
                Ok(job) => CloudTurnView {
                    phase: CloudPhase::Submitting,
                    announce: Some(CloudMilestone::Uploaded),
                    action: CloudActionView::Submit { job },
                },
            },
        }
    }
}

/// The next turn of a remote segmentation, given what the caller saw.
///
/// The phases follow each other in one order: tool, merge where the clips call
/// for it, encoding, upload, job, event stream, result. The first failure ends
/// the segmentation, and so does a report that does not fit the phase.
pub open spec fn cloud_turn(
    phase: CloudPhase,
    request: CloudRequestView,
    event: CloudEventView,
) -> CloudTurnView {
    match (phase, event) {
        (CloudPhase::Start, CloudEventView::Begin) => CloudTurnView {
            phase: CloudPhase::ResolvingTool,
            announce: Some(CloudMilestone::Started),
            action: CloudActionView::ResolveTool,
        },
        (CloudPhase::ResolvingTool, CloudEventView::ToolResolved { found }) => if found {
            after_tool(request)
        } else {
            failing(None, SegmentationErrorView::TranscoderNotFound)
        },
        (CloudPhase::Merging, CloudEventView::SourceMissing { path }) => failing(
            None,
            SegmentationErrorView::AudioFileNotFound { path },
        ),
        (CloudPhase::Merging, CloudEventView::Transcoded { success, stderr }) => if success {
            CloudTurnView {
                phase: CloudPhase::Encoding,
                announce: None,
                action: CloudActionView::Encode { input: AudioInputView::Merged },
            }
        } else {
            failing(
                None,
                SegmentationErrorView::TranscodeFailed {
                    step: TranscodeStep::Merge,
                    diagnostic: stderr,
                },
            )
        },
        (CloudPhase::Encoding, CloudEventView::SourceMissing { path }) => failing(
            None,
            SegmentationErrorView::AudioFileNotFound { path },
        ),
        (CloudPhase::Encoding, CloudEventView::Transcoded { success, stderr }) => if success {
            CloudTurnView {
                phase: CloudPhase::ReadingPayload,
                announce: Some(CloudMilestone::Prepared),
                action: CloudActionView::ReadPayload,
            }
        } else {
            failing(
                None,
                SegmentationErrorView::TranscodeFailed {
                    step: TranscodeStep::Encode,
                    diagnostic: stderr,
                },
            )
        },
        (CloudPhase::ReadingPayload, CloudEventView::PayloadRead { total_bytes }) => if total_bytes
            == 0 {
            failing(None, SegmentationErrorView::EmptyPayload)
        } else {
            CloudTurnView {
                phase: CloudPhase::Uploading,
                announce: Some(CloudMilestone::UploadStarted { total_bytes }),
                action: CloudActionView::Upload {
                    progress: UploadProgress { total: total_bytes, sent: 0, last_percent: 0 },
                },
            }
        },
        (CloudPhase::Uploading, CloudEventView::Uploaded { status, body }) => after_upload(
            request,
            status,
            body,
        ),
        (CloudPhase::Submitting, CloudEventView::Submitted { body }) => match event_id_of(body) {
            None => failing(
                Some(CloudMilestone::JobAccepted),
                SegmentationErrorView::JobSubmitFailed,
            ),
            Some(id) => CloudTurnView {
                phase: CloudPhase::Streaming,
                announce: Some(CloudMilestone::JobAccepted),
                action: CloudActionView::Stream { url: process_stream_url(id) },
            },
        },
        (CloudPhase::Streaming, CloudEventView::Streamed { outcome }) => match outcome {
            Err(e) => failing(None, e),
            Ok(doc) => CloudTurnView {
                phase: CloudPhase::Done,
                announce: Some(CloudMilestone::Completed),
                action: CloudActionView::Finish { result: unwrapped(doc) },
            },
        },
        _ => failing(None, SegmentationErrorView::UnexpectedEvent),
    }
}

/// How many more turns a phase can take.
pub open spec fn turns_ahead(phase: CloudPhase) -> nat {
    match phase {
        CloudPhase::Start => 8,
        CloudPhase::ResolvingTool => 7,
        CloudPhase::Merging => 6,
        CloudPhase::Encoding => 5,
        CloudPhase::ReadingPayload => 4,
        CloudPhase::Uploading => 3,
        CloudPhase::Submitting => 2,
        CloudPhase::Streaming => 1,
        CloudPhase::Done => 0,
        CloudPhase::Failed => 0,
    }
}

/// A remote segmentation ends after at most eight turns: every turn leads to
/// a later phase, and a turn ends it exactly when it hands out the result or
/// gives up.
pub proof fn lemma_cloud_segmentation_ends(
    phase: CloudPhase,
    request: CloudRequestView,
    event: CloudEventView,
)
    ensures
        turns_ahead(phase) > 0 ==> turns_ahead(cloud_turn(phase, request, event).phase)
            < turns_ahead(phase),
        turns_ahead(cloud_turn(phase, request, event).phase) == 0 <==> (cloud_turn(
            phase,
            request,
            event,
        ).action is Finish || cloud_turn(phase, request, event).action is Fail),
{
}

/// A result is handed out only for the terminal payload of the event stream,
/// and a job is submitted only with parameters that passed their check, for a
/// path that the upload gave.
pub proof fn lemma_cloud_order(phase: CloudPhase, request: CloudRequestView, event: CloudEventView)
    ensures
        cloud_turn(phase, request, event).action matches CloudActionView::Finish { result }
            ==> phase == CloudPhase::Streaming && (event matches CloudEventView::Streamed {
            outcome: Ok(doc),
        } && result == unwrapped(doc)),
        cloud_turn(phase, request, event).action matches CloudActionView::Submit { job } ==> phase
            == CloudPhase::Uploading && checked_parameters(request.model_name, request.device)
            == Ok::<(Seq<char>, Seq<char>), SegmentationErrorView>((job.model, job.device)) && (
        event matches CloudEventView::Uploaded { status, body } && upload_result(status, body)
            == Ok::<Seq<char>, UploadFailure>(job.uploaded_path)),
        cloud_turn(phase, request, event).action matches CloudActionView::Upload { progress }
            ==> progress.valid() && progress.sent == 0,
{
}

fn fail_turn(announce: Option<CloudMilestone>, error: SegmentationError) -> (r: CloudTurn)
    ensures
        r@ == failing(announce, error@),
{
    CloudTurn { phase: CloudPhase::Failed, announce, action: CloudAction::Fail { error } }
}

fn choose_audio(request: &CloudRequest) -> (r: CloudTurn)
    ensures
        r@ == after_tool(request@),
{
    let path: Option<&str> = match &request.audio_path {
        Some(p) => Some(p.as_str()),
        None => None,
    };
    let clips: Option<&Vec<SegmentationAudioClip>> = match &request.audio_clips {
        Some(list) => Some(list),
        None => None,
    };
    match prepare_audio(path, clips) {
        Err(e) => fail_turn(None, e),
        Ok(MergeDecision::Passthrough { path }) => CloudTurn {
            phase: CloudPhase::Encoding,
            announce: None,
            action: CloudAction::Encode { input: AudioInput::File { path } },
        },
        Ok(MergeDecision::Merge(plan)) => CloudTurn {
            phase: CloudPhase::Merging,
            announce: None,
            action: CloudAction::Merge { plan },
        },
    }
}

fn submit_job(request: &CloudRequest, status: u16, body: &str) -> (r: CloudTurn)
    ensures
        r@ == after_upload(request@, status, body@),
{
    if status < 200 || status > 299 {
        return fail_turn(
            None,
            SegmentationError::UploadFailed(UploadFailure::Rejected { status }),
        );
    }
    let path = match read_upload_response(status, body) {
        Ok(path) => path,
        Err(e) => {
            return fail_turn(Some(CloudMilestone::Uploaded), e);
        },
    };
    let model: Option<&str> = match &request.model_name {
        Some(m) => Some(m.as_str()),
        None => None,
    };
    let device: Option<&str> = match &request.device {
        Some(d) => Some(d.as_str()),
        None => None,
    };
    match build_job_request(
        path.as_str(),
        request.min_silence_ms,
        request.min_speech_ms,
        request.pad_ms,
        model,
        device,
    ) {
        Err(e) => fail_turn(Some(CloudMilestone::Uploaded), e),
        Ok(job) => CloudTurn {
            phase: CloudPhase::Submitting,
            announce: Some(CloudMilestone::Uploaded),
            action: CloudAction::Submit { job },
        },
    }
}

/// Takes what the caller saw and says what to do next. A segmentation begins
/// in phase [`CloudPhase::Start`] with the event [`CloudEvent::Begin`].
pub fn segment_quran_audio(phase: CloudPhase, request: &CloudRequest, event: CloudEvent) -> (r: CloudTurn)
    ensures
        r@ == cloud_turn(phase, request@, event@),
{
    match (phase, event) {
        (CloudPhase::Start, CloudEvent::Begin) => CloudTurn {
            phase: CloudPhase::ResolvingTool,
            announce: Some(CloudMilestone::Started),
            action: CloudAction::ResolveTool,
        },
        (CloudPhase::ResolvingTool, CloudEvent::ToolResolved { found }) => {
            if found {
                choose_audio(request)
            } else {
                fail_turn(None, SegmentationError::TranscoderNotFound)
            }
        },
        (CloudPhase::Merging, CloudEvent::SourceMissing { path }) => fail_turn(
            None,
            SegmentationError::AudioFileNotFound { path },
        ),
        (CloudPhase::Merging, CloudEvent::Transcoded { success, stderr }) => {
            if success {
                CloudTurn {
                    phase: CloudPhase::Encoding,
                    announce: None,
                    action: CloudAction::Encode { input: AudioInput::Merged },
                }
            } else {
                fail_turn(
                    None,
                    SegmentationError::TranscodeFailed {
                        step: TranscodeStep::Merge,
                        diagnostic: stderr,
                    },
                )
            }
        },
        (CloudPhase::Encoding, CloudEvent::SourceMissing { path }) => fail_turn(
            None,
            SegmentationError::AudioFileNotFound { path },
        ),
        (CloudPhase::Encoding, CloudEvent::Transcoded { success, stderr }) => {
            if success {
                CloudTurn {
                    phase: CloudPhase::ReadingPayload,
                    announce: Some(CloudMilestone::Prepared),
                    action: CloudAction::ReadPayload,
                }
            } else {
                fail_turn(
                    None,
                    SegmentationError::TranscodeFailed {
                        step: TranscodeStep::Encode,
                        diagnostic: stderr,
                    },
                )
            }
        },
        (CloudPhase::ReadingPayload, CloudEvent::PayloadRead { total_bytes }) => {
            match UploadProgress::start(total_bytes) {
                Err(e) => fail_turn(None, e),
                Ok(progress) => CloudTurn {
                    phase: CloudPhase::Uploading,
                    announce: Some(CloudMilestone::UploadStarted { total_bytes }),
                    action: CloudAction::Upload { progress },
                },
            }
        },
        (CloudPhase::Uploading, CloudEvent::Uploaded { status, body }) => submit_job(
            request,
            status,
            body.as_str(),
        ),
        (CloudPhase::Submitting, CloudEvent::Submitted { body }) => {
            match read_event_id(body.as_str()) {
                Err(e) => fail_turn(Some(CloudMilestone::JobAccepted), e),
                Ok(id) => CloudTurn {
                    phase: CloudPhase::Streaming,
                    announce: Some(CloudMilestone::JobAccepted),
                    action: CloudAction::Stream {
                        url: stream_url("process_audio_session", id.as_str()),
                    },
                },
            }
        },
        (CloudPhase::Streaming, CloudEvent::Streamed { outcome }) => match outcome {
            Err(e) => fail_turn(None, e),
            Ok(doc) => CloudTurn {
                phase: CloudPhase::Done,
                announce: Some(CloudMilestone::Completed),
                action: CloudAction::Finish { result: unwrap_payload(doc) },
            },
        },
        _ => fail_turn(None, SegmentationError::UnexpectedEvent),
    }
}

} // verus!
