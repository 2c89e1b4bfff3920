//! The local process supervisor.
//!
//! A local segmentation is a sequence of turns. The caller does what a turn
//! asks (finds the transcode tool, runs it, runs the engine's script) and
//! reports what it saw; [`run_local_segmentation_script`] takes the report and
//! says what to do next. The functions before it are the decisions of the
//! single steps: the command line of the engine's script, what each line of its
//! standard error means, and what its exit and output come to. While the script
//! runs, the caller drains its standard error line by line into a
//! [`StderrLog`]; reading it only after the exit could block the script on a
//! full pipe.

use vstd::prelude::*;
use crate::audio_merge::{
    clips_of, prepare_audio, prepared_audio, AudioInput, AudioInputView, ClipView, MergeDecision,
    MergeDecisionView, MergePlan, MergePlanView,
};
use crate::error::{SegmentationError, SegmentationErrorView, TranscodeStep};
use crate::json::{
    json_document, node_member, parse_value, read_text_value, text_value, JsonDoc, JsonDocView,
};
use crate::params::{
    checked_parameters, has_token, normalize_device, normalize_model, token_present,
};
use crate::python_env::{apply_hf_token_env, pairs_view, resolve_engine_python_exe, token_env_spec};
use crate::text::{
    append_str, chars_start_with, chars_trim_start_pattern, copy_str, decimal, join, join_chars,
    opt_string_view, opt_view, push_chars_item, push_decimal, push_str_item, starts_with, str_chars,
    string_from_chars, strings_view, texts_of, trim, trim_chars, trim_start_pattern,
};
use crate::types::LocalSegmentationEngine;
use crate::types::SegmentationAudioClip;

verus! {

/// How many diagnostic lines of standard error are kept.
pub const STDERR_LINES_KEPT: usize = 120;

/// The arguments for one tuning flag: the flag and its value, when it is set.
pub open spec fn flag_args(flag: Seq<char>, value: Option<u32>) -> Seq<Seq<char>> {
    match value {
        Some(ms) => seq![flag, decimal(ms as nat)],
        None => Seq::empty(),
    }
}

/// The arguments of the engine's script: the script, the prepared audio, the
/// tuning flags that are set, then the engine's own flags.
pub open spec fn script_args_spec(
    script_path: Seq<char>,
    wav_path: Seq<char>,
    min_silence_ms: Option<u32>,
    min_speech_ms: Option<u32>,
    pad_ms: Option<u32>,
    extra_args: Seq<Seq<char>>,
) -> Seq<Seq<char>> {
    seq![script_path, wav_path] + flag_args("--min-silence-ms"@, min_silence_ms) + flag_args(
        "--min-speech-ms"@,
        min_speech_ms,
    ) + flag_args("--pad-ms"@, pad_ms) + extra_args
}

fn push_flag(args: &mut Vec<String>, flag: &str, value: Option<u32>)
    ensures
        strings_view(final(args)@) == strings_view(old(args)@) + flag_args(flag@, value),
{
    match value {
        Some(ms) => {
            push_str_item(args, flag);
            let mut digits: Vec<char> = Vec::new();
            push_decimal(&mut digits, ms as u64);
            push_chars_item(args, &digits);
        },
        None => {
        },
    }
}

/// Builds the arguments of the engine's script.
pub fn script_args(
    script_path: &str,
    wav_path: &str,
    min_silence_ms: Option<u32>,
    min_speech_ms: Option<u32>,
    pad_ms: Option<u32>,
    extra_args: &Vec<String>,
) -> (r: Vec<String>)
    ensures
        strings_view(r@) == script_args_spec(
            script_path@,
            wav_path@,
            min_silence_ms,
            min_speech_ms,
            pad_ms,
            strings_view(extra_args@),
        ),
{
    let mut args: Vec<String> = Vec::new();
    push_str_item(&mut args, script_path);
    push_str_item(&mut args, wav_path);
    push_flag(&mut args, "--min-silence-ms", min_silence_ms);
    push_flag(&mut args, "--min-speech-ms", min_speech_ms);
    push_flag(&mut args, "--pad-ms", pad_ms);
    let ghost head = strings_view(args@);
    let mut i: usize = 0;
    while i < extra_args.len()
        invariant
            i <= extra_args.len(),
            strings_view(args@) == head + strings_view(extra_args@).subrange(0, i as int),
        decreases extra_args.len() - i,
    {
        push_str_item(&mut args, extra_args[i].as_str());
        i += 1;
    }
    args
}

/// The legacy engine's own flags: the model override, when one is given.
pub fn legacy_extra_args(whisper_model: Option<&str>) -> (r: Vec<String>)
    ensures
        strings_view(r@) == match whisper_model {
            Some(model) => seq!["--whisper-model"@, model@],
            None => Seq::<Seq<char>>::empty(),
        },
{
    let mut args: Vec<String> = Vec::new();
    match whisper_model {
        Some(model) => {
            push_str_item(&mut args, "--whisper-model");
            push_str_item(&mut args, model);
        },
        None => {},
    }
    args
}

/// The multi-aligner's own flags for a valid request.
pub open spec fn multi_flags(model: Seq<char>, device: Seq<char>) -> Seq<Seq<char>> {
    seq!["--model-name"@, model, "--device"@, device]
}

/// Checks a multi-aligner request and builds the engine's own flags.
///
/// The model is checked first, then the device, then the access token, which
/// this engine cannot run without.
pub fn multi_extra_args(
    model_name: Option<&str>,
    device: Option<&str>,
    hf_token: Option<&str>,
) -> (r: Result<Vec<String>, SegmentationError>)
    ensures
        match r {
            Ok(args) => {
                &&& checked_parameters(opt_view(model_name), opt_view(device)) matches Ok(checked)
                &&& token_present(opt_view(hf_token))
                &&& strings_view(args@) == multi_flags(checked.0, checked.1)
            },
            Err(e) => match checked_parameters(opt_view(model_name), opt_view(device)) {
                Err(why) => e@ == why,
                Ok(_) => !token_present(opt_view(hf_token)) && e@
                    == SegmentationErrorView::TokenRequired,
            },
        },
{
    let model = normalize_model(model_name)?;
    let dev = normalize_device(device)?;
    if !has_token(hf_token) {
        return Err(SegmentationError::TokenRequired);
    }
    let mut args: Vec<String> = Vec::new();
    push_str_item(&mut args, "--model-name");
    push_str_item(&mut args, model.as_str());
    push_str_item(&mut args, "--device");
    push_str_item(&mut args, dev.as_str());
    Ok(args)
}

/// The transcode tool's arguments for resampling `input` into `output`: one
/// channel, 16 kHz, 16-bit PCM.
pub open spec fn resample_args_spec(input: Seq<char>, output: Seq<char>) -> Seq<Seq<char>> {
    seq![
        "-y"@,
        "-hide_banner"@,
        "-loglevel"@,
        "error"@,
        "-i"@,
        input,
        "-ac"@,
        "1"@,
        "-ar"@,
        "16000"@,
        "-c:a"@,
        "pcm_s16le"@,
        "-vn"@,
        output,
    ]
}

/// Builds the transcode tool's arguments for resampling `input` into `output`.
pub fn resample_args(input: &str, output: &str) -> (r: Vec<String>)
    ensures
        strings_view(r@) == resample_args_spec(input@, output@),
{
    let mut args: Vec<String> = Vec::new();
    push_str_item(&mut args, "-y");
    push_str_item(&mut args, "-hide_banner");
    push_str_item(&mut args, "-loglevel");
    push_str_item(&mut args, "error");
    push_str_item(&mut args, "-i");
    push_str_item(&mut args, input);
    push_str_item(&mut args, "-ac");
    push_str_item(&mut args, "1");
    push_str_item(&mut args, "-ar");
    push_str_item(&mut args, "16000");
    push_str_item(&mut args, "-c:a");
    push_str_item(&mut args, "pcm_s16le");
    push_str_item(&mut args, "-vn");
    push_str_item(&mut args, output);
    args
}

/// The name of the temporary file that holds the resampled audio of a run
/// started at `stamp`.
pub fn local_wav_name(engine: LocalSegmentationEngine, stamp: u64) -> (r: String)
    ensures
        r@ == "qurancaption-local-"@ + engine.key() + "-"@ + decimal(stamp as nat) + ".wav"@,
{
    let mut out: Vec<char> = Vec::new();
    append_str(&mut out, "qurancaption-local-");
    append_str(&mut out, engine.as_key());
    append_str(&mut out, "-");
    push_decimal(&mut out, stamp);
    append_str(&mut out, ".wav");
    string_from_chars(&out)
}

/// Whether a line of standard error carries a structured status.
pub open spec fn is_status_line(line: Seq<char>) -> bool {
    starts_with(line, "STATUS:"@)
}

/// The status that a status line carries, when what follows the marker is JSON.
pub open spec fn status_payload(line: Seq<char>) -> Option<JsonDocView> {
    match json_document(trim_start_pattern(line, "STATUS:"@)) {
        Ok(doc) => Some(doc),
        Err(_) => None,
    }
}

/// The last `n` lines of `lines`.
pub open spec fn keep_last(lines: Seq<Seq<char>>, n: int) -> Seq<Seq<char>> {
    if lines.len() > n {
        lines.subrange(lines.len() - n, lines.len() as int)
    } else {
        lines
    }
}

/// The diagnostic log after one more line of standard error: status lines and
/// blank lines are not kept, and only the last lines stay.
pub open spec fn logged(log: Seq<Seq<char>>, line: Seq<char>) -> Seq<Seq<char>> {
    if is_status_line(line) || trim(line).len() == 0 {
        log
    } else {
        keep_last(log.push(line), STDERR_LINES_KEPT as int)
    }
}

/// The diagnostic lines among `lines`, in order.
pub open spec fn diagnostics(lines: Seq<Seq<char>>) -> Seq<Seq<char>>
    decreases lines.len(),
{
    if lines.len() == 0 {
        Seq::empty()
    } else if is_status_line(lines.last()) || trim(lines.last()).len() == 0 {
        diagnostics(lines.drop_last())
    } else {
        diagnostics(lines.drop_last()).push(lines.last())
    }
}

/// The log after all of `lines`, starting from `log`.
pub open spec fn logged_all(log: Seq<Seq<char>>, lines: Seq<Seq<char>>) -> Seq<Seq<char>>
    decreases lines.len(),
{
    if lines.len() == 0 {
        log
    } else {
        logged(logged_all(log, lines.drop_last()), lines.last())
    }
}

/// However many lines the process writes, the log holds the last diagnostic
/// lines and never more than the bound.
pub proof fn lemma_log_is_bounded_tail(lines: Seq<Seq<char>>)
    ensures
        logged_all(Seq::empty(), lines) == keep_last(diagnostics(lines), STDERR_LINES_KEPT as int),
        logged_all(Seq::empty(), lines).len() <= STDERR_LINES_KEPT,
    decreases lines.len(),
{
    if lines.len() > 0 {
        lemma_log_is_bounded_tail(lines.drop_last());
    }
}

/// The diagnostic lines of standard error, bounded in number.
#[derive(Debug)]
pub struct StderrLog {
    lines: Vec<String>,
}

impl View for StderrLog {
    type V = Seq<Seq<char>>;

    closed spec fn view(&self) -> Seq<Seq<char>> {
        strings_view(self.lines@)
    }
}

impl StderrLog {
    /// An empty log.
    pub fn new() -> (r: StderrLog)
        ensures
            r@ == Seq::<Seq<char>>::empty(),
    {
        let r = StderrLog { lines: Vec::new() };
        r
    }

    /// Takes one line of standard error. A status line is handed back as the
    /// status it carries, to be forwarded as a progress event; any other line
    /// that is not blank goes to the log.
    pub fn record_line(&mut self, line: &str) -> (status: Option<JsonDoc>)
        ensures
            final(self)@ == logged(old(self)@, line@),
            crate::sse::doc_view(status) == if is_status_line(line@) {
                status_payload(line@)
            } else {
                None
            },
    {
        let chars = str_chars(line);
        let marker = str_chars("STATUS:");
        if chars_start_with(&chars, &marker) {
            let rest = chars_trim_start_pattern(&chars, &marker);
            let text = string_from_chars(&rest);
            return match parse_value(text.as_str()) {
                Ok(doc) => Some(doc),
                Err(_) => None,
            };
        }
        if trim_chars(&chars).len() > 0 {
            let ghost pushed = self@.push(line@);
            self.lines.push(copy_str(line));
            let ghost mut dropped: int = 0;
            while self.lines.len() > STDERR_LINES_KEPT
                invariant
                    0 <= dropped <= pushed.len(),
                    self@ == pushed.subrange(dropped, pushed.len() as int),
                    dropped == 0 || self.lines.len() >= STDERR_LINES_KEPT,
                decreases self.lines.len(),
            {
                let ghost before = self@;
                self.lines.remove(0);
                proof {
                    assert(self@ == before.subrange(1, before.len() as int));
                    dropped = dropped + 1;
                }
            }
        }
        None
    }

    /// How many lines the log holds.
    pub fn len(&self) -> (r: usize)
        ensures
            r == self@.len(),
    {
        self.lines.len()
    }

    /// The lines of the log, joined by line feeds.
    pub fn joined(&self) -> (r: String)
        ensures
            r@ == join(self@, "\n"@),
    {
        let mut parts: Vec<Vec<char>> = Vec::new();
        let mut i: usize = 0;
        while i < self.lines.len()
            invariant
                i <= self.lines.len(),
                texts_of(parts@) == strings_view(self.lines@).subrange(0, i as int),
            decreases self.lines.len() - i,
        {
            let ghost before = texts_of(parts@);
            let part = str_chars(self.lines[i].as_str());
            parts.push(part);
            assert(texts_of(parts@) == before.push(strings_view(self.lines@)[i as int]));
            i += 1;
        }
        assert(strings_view(self.lines@).subrange(0, self.lines.len() as int) == strings_view(
            self.lines@,
        ));
        let mut sep: Vec<char> = Vec::new();
        append_str(&mut sep, "\n");
        let joined = join_chars(&parts, &sep);
        string_from_chars(&joined)
    }
}

/// The failure that a script's JSON output reports: the string under its
/// `error` key, or `Unknown error` when that value is not a string.
pub open spec fn reported_error(doc: JsonDocView) -> Option<Seq<char>> {
    match node_member(doc.node, "error"@) {
        None => None,
        Some(t) => Some(
            match text_value(t) {
                Some(s) => s,
                None => "Unknown error"@,
            },
        ),
    }
}

/// What a finished run comes to, given what its standard output parsed as and
/// the failure that the parsed output reports.
///
/// On success the output must be JSON, and a reported failure is still a
/// failure. On failure a reported failure comes first, then the raw output,
/// then the diagnostics; only when all are blank is there no output.
pub open spec fn judge(
    success: bool,
    parsed: Result<JsonDocView, Seq<char>>,
    reported: Option<Seq<char>>,
    stdout: Seq<char>,
    stderr_text: Seq<char>,
) -> Result<JsonDocView, SegmentationErrorView> {
    if success {
        match parsed {
            Err(e) => Err(
                SegmentationErrorView::UnreadableScriptOutput {
                    parse_error: e,
                    stderr: stderr_text,
                },
            ),
            Ok(doc) => match reported {
                Some(message) => Err(SegmentationErrorView::ScriptReportedError { message }),
                None => Ok(doc),
            },
        }
    } else if parsed is Ok && reported is Some {
        Err(SegmentationErrorView::ScriptReportedError { message: reported->0 })
    } else if trim(stdout).len() > 0 {
        Err(SegmentationErrorView::ScriptFailed { output: stdout })
    } else if trim(stderr_text).len() > 0 {
        Err(SegmentationErrorView::ScriptFailed { output: stderr_text })
    } else {
        Err(SegmentationErrorView::NoOutput)
    }
}

/// What a finished run comes to.
pub open spec fn exit_result(success: bool, stdout: Seq<char>, stderr_text: Seq<char>) -> Result<
    JsonDocView,
    SegmentationErrorView,
> {
    judge(
        success,
        json_document(stdout),
        match json_document(stdout) {
            Ok(doc) => reported_error(doc),
            Err(_) => None,
        },
        stdout,
        stderr_text,
    )
}

/// A run whose output reports a failure is a failure, whether or not the
/// process exited with success.
pub proof fn lemma_reported_error_is_failure(
    success: bool,
    doc: JsonDocView,
    message: Seq<char>,
    stdout: Seq<char>,
    stderr_text: Seq<char>,
)
    ensures
        judge(success, Ok(doc), Some(message), stdout, stderr_text) == Err::<
            JsonDocView,
            SegmentationErrorView,
        >(SegmentationErrorView::ScriptReportedError { message }),
{
}

/// Judges a finished run from what its output parsed as; `reported` is the
/// failure that the parsed output reports.
pub fn judge_exit(
    success: bool,
    parsed: Result<JsonDoc, String>,
    reported: Option<String>,
    stdout: &str,
    stderr_text: &str,
) -> (r: Result<JsonDoc, SegmentationError>)
    ensures
        crate::sse::final_view(r) == judge(
            success,
            match parsed {
                Ok(doc) => Ok(doc@),
                Err(e) => Err(e@),
            },
            match reported {
                Some(m) => Some(m@),
                None => None,
            },
            stdout@,
            stderr_text@,
        ),
{
    if success {
        return match parsed {
            Err(e) => Err(
                SegmentationError::UnreadableScriptOutput {
                    parse_error: e,
                    stderr: copy_str(stderr_text),
                },
            ),
            Ok(doc) => match reported {
                Some(message) => Err(SegmentationError::ScriptReportedError { message }),
                None => Ok(doc),
            },
        };
    }
    match parsed {
        Ok(_) => match reported {
            Some(message) => {
                return Err(SegmentationError::ScriptReportedError { message });
            },
            None => {},
        },
        Err(_) => {},
    }
    let out_chars = str_chars(stdout);
    if trim_chars(&out_chars).len() > 0 {
        return Err(SegmentationError::ScriptFailed { output: copy_str(stdout) });
    }
    let err_chars = str_chars(stderr_text);
    if trim_chars(&err_chars).len() > 0 {
        return Err(SegmentationError::ScriptFailed { output: copy_str(stderr_text) });
    }
    Err(SegmentationError::NoOutput)
}

/// The failure that the document reports, if any.
pub fn read_reported_error(doc: &JsonDoc) -> (r: Option<String>)
    ensures
        match r {
            Some(m) => reported_error(doc@) == Some(m@),
            None => reported_error(doc@) is None,
        },
{
    match doc.node.member("error") {
        None => None,
        Some(t) => match read_text_value(t.as_str()) {
            Some(s) => Some(s),
            None => Some(copy_str("Unknown error")),
        },
    }
}

/// Judges a finished run: `success` is whether the process exited with
/// success, `stdout` its standard output, `log` the diagnostics kept from its
/// standard error.
pub fn interpret_exit(success: bool, stdout: &str, log: &StderrLog) -> (r: Result<
    JsonDoc,
    SegmentationError,
>)
    ensures
        crate::sse::final_view(r) == exit_result(success, stdout@, join(log@, "\n"@)),
{
    let stderr_text = log.joined();
    let parsed = parse_value(stdout);
    let reported = match &parsed {
        Ok(doc) => read_reported_error(doc),
        Err(_) => None,
    };
    judge_exit(success, parsed, reported, stdout, stderr_text.as_str())
}


/// A request for a segmentation by a local engine.
#[derive(Debug, Clone, PartialEq, Eq)]
pub struct LocalRequest {
    pub engine: LocalSegmentationEngine,
    pub audio_path: Option<String>,
    pub audio_clips: Option<Vec<SegmentationAudioClip>>,
    pub min_silence_ms: Option<u32>,
    pub min_speech_ms: Option<u32>,
    pub pad_ms: Option<u32>,
    /// The engine's own flags.
    pub extra_args: Vec<String>,
    /// The access token to hand to the script, if any.
    pub hf_token: Option<String>,
}

/// A request as the contracts see it.
pub struct LocalRequestView {
    pub engine: LocalSegmentationEngine,
    pub audio_path: Option<Seq<char>>,
    pub clips: Seq<ClipView>,
    pub min_silence_ms: Option<u32>,
    pub min_speech_ms: Option<u32>,
    pub pad_ms: Option<u32>,
    pub extra_args: Seq<Seq<char>>,
    pub hf_token: Option<Seq<char>>,
}

impl View for LocalRequest {
    type V = LocalRequestView;

    open spec fn view(&self) -> LocalRequestView {
        LocalRequestView {
            engine: self.engine,
            audio_path: opt_string_view(self.audio_path),
            clips: clips_of(self.audio_clips),
            min_silence_ms: self.min_silence_ms,
            min_speech_ms: self.min_speech_ms,
            pad_ms: self.pad_ms,
            extra_args: strings_view(self.extra_args@),
            hf_token: opt_string_view(self.hf_token),
        }
    }
}

fn as_text(s: &Option<String>) -> (r: Option<&str>)
    ensures
        opt_view(r) == opt_string_view(*s),
{
    match s {
        Some(t) => Some(t.as_str()),
        None => None,
    }
}

/// Builds the request for a segmentation by the legacy engine.
pub fn segment_quran_audio_local(
    audio_path: Option<String>,
    audio_clips: Option<Vec<SegmentationAudioClip>>,
    min_silence_ms: Option<u32>,
    min_speech_ms: Option<u32>,
    pad_ms: Option<u32>,
    whisper_model: Option<String>,
) -> (r: LocalRequest)
    ensures
        r@ == (LocalRequestView {
            engine: LocalSegmentationEngine::LegacyWhisper,
            audio_path: opt_string_view(audio_path),
            clips: clips_of(audio_clips),
            min_silence_ms,
            min_speech_ms,
            pad_ms,
            extra_args: match whisper_model {
                Some(model) => seq!["--whisper-model"@, model@],
                None => Seq::empty(),
            },
            hf_token: None,
        }),
{
    let extra_args = legacy_extra_args(as_text(&whisper_model));
    LocalRequest {
        engine: LocalSegmentationEngine::LegacyWhisper,
        audio_path,
        audio_clips,
        min_silence_ms,
        min_speech_ms,
        pad_ms,
        extra_args,
        hf_token: None,
    }
}

/// Builds the request for a segmentation by the multi-aligner engine, whose
/// model, device and access token are checked first, in that order.
pub fn segment_quran_audio_local_multi(
    audio_path: Option<String>,
    audio_clips: Option<Vec<SegmentationAudioClip>>,
    min_silence_ms: Option<u32>,
    min_speech_ms: Option<u32>,
    pad_ms: Option<u32>,
    model_name: Option<String>,
    device: Option<String>,
    hf_token: Option<String>,
) -> (r: Result<LocalRequest, SegmentationError>)
    ensures
        match r {
            Ok(request) => {
                &&& checked_parameters(
                    opt_string_view(model_name),
                    opt_string_view(device),
                ) matches Ok(checked)
                &&& token_present(opt_string_view(hf_token))
                &&& request@ == (LocalRequestView {
                    engine: LocalSegmentationEngine::MultiAligner,
                    audio_path: opt_string_view(audio_path),
                    clips: clips_of(audio_clips),
                    min_silence_ms,
                    min_speech_ms,
                    pad_ms,
                    extra_args: multi_flags(checked.0, checked.1),
                    hf_token: opt_string_view(hf_token),
                })
            },
            Err(e) => match checked_parameters(
                opt_string_view(model_name),
                opt_string_view(device),
            ) {
                Err(why) => e@ == why,
                Ok(_) => !token_present(opt_string_view(hf_token)) && e@
                    == SegmentationErrorView::TokenRequired,
            },
        },
{
    let extra_args = multi_extra_args(as_text(&model_name), as_text(&device), as_text(&hf_token))?;
    Ok(
        LocalRequest {
            engine: LocalSegmentationEngine::MultiAligner,
            audio_path,
            audio_clips,
            min_silence_ms,
            min_speech_ms,
            pad_ms,
            extra_args,
            hf_token,
        },
    )
}

/// Where a local segmentation stands.
#[derive(Debug, Clone, Copy, PartialEq, Eq, Structural)]
pub enum LocalPhase {
    /// Nothing has happened yet.
    Start,
    /// The transcode tool is being looked for.
    ResolvingTool,
    /// The clips are being mixed into one track.
    Merging,
    /// The audio is being resampled for the engine.
    Resampling,
    /// The engine's interpreter and script are being looked for.
    ResolvingInterpreter,
    /// The engine's script is running.
    Running,
    /// The result has been handed out.
    Done,
    /// The segmentation has failed.
    Failed,
}

/// What the caller saw when it did what it was asked.
#[derive(Debug)]
pub enum LocalEvent {
    /// The request was taken up.
    Begin,
    /// The transcode tool was looked for.
    ToolResolved { found: bool },
    /// The file that was to be read does not exist.
    SourceMissing { path: String },
    /// The transcode tool ran to its end; `stderr` is what it wrote there.
    Transcoded { success: bool, stderr: String },
    /// The interpreter of the engine's environment and the engine's script were
    /// looked for. `wav_path` is where the resampled audio lies.
    InterpreterResolved {
        python_exe: String,
        exists: bool,
        script_path: Option<String>,
        wav_path: String,
    },
    /// The script ran to its end; `log` holds the diagnostics that were drained
    /// from its standard error while it ran.
    Exited { success: bool, stdout: String, log: StderrLog },
}

/// An event as the contracts see it.
pub enum LocalEventView {
    Begin,
    ToolResolved { found: bool },
    SourceMissing { path: Seq<char> },
    Transcoded { success: bool, stderr: Seq<char> },
    InterpreterResolved {
        python_exe: Seq<char>,
        exists: bool,
        script_path: Option<Seq<char>>,
        wav_path: Seq<char>,
    },
    Exited { success: bool, stdout: Seq<char>, log: Seq<Seq<char>> },
}

impl View for LocalEvent {
    type V = LocalEventView;

    open spec fn view(&self) -> LocalEventView {
        match self {
            LocalEvent::Begin => LocalEventView::Begin,
            LocalEvent::ToolResolved { found } => LocalEventView::ToolResolved { found: *found },
            LocalEvent::SourceMissing { path } => LocalEventView::SourceMissing { path: path@ },
            LocalEvent::Transcoded { success, stderr } => LocalEventView::Transcoded {
                success: *success,
                stderr: stderr@,
            },
            LocalEvent::InterpreterResolved { python_exe, exists, script_path, wav_path } =>
                LocalEventView::InterpreterResolved {
                    python_exe: python_exe@,
                    exists: *exists,
                    script_path: opt_string_view(*script_path),
                    wav_path: wav_path@,
                },
            LocalEvent::Exited { success, stdout, log } => LocalEventView::Exited {
                success: *success,
                stdout: stdout@,
                log: log@,
            },
        }
    }
}

/// What the caller is asked to do next.
#[derive(Debug, PartialEq, Eq)]
pub enum LocalAction {
    /// Look for the transcode tool.
    ResolveTool,
    /// Mix the clips of the plan into a temporary file.
    Merge { plan: MergePlan },
    /// Resample the input into a temporary file.
    Resample { input: AudioInput },
    /// Look for the interpreter of the engine's environment and for its script.
    ResolveInterpreter,
    /// Run `program` with these arguments and variables, draining its standard
    /// error while it runs.
    Run { program: String, args: Vec<String>, env: Vec<(String, String)> },
    /// Hand out the result.
    Finish { result: JsonDoc },
    /// Give up.
    Fail { error: SegmentationError },
}

/// An action as the contracts see it.
pub enum LocalActionView {
    ResolveTool,
    Merge { plan: MergePlanView },
    Resample { input: AudioInputView },
    ResolveInterpreter,
    Run { program: Seq<char>, args: Seq<Seq<char>>, env: Seq<(Seq<char>, Seq<char>)> },
    Finish { result: JsonDocView },
    Fail { error: SegmentationErrorView },
}

impl View for LocalAction {
    type V = LocalActionView;

    open spec fn view(&self) -> LocalActionView {
        match self {
            LocalAction::ResolveTool => LocalActionView::ResolveTool,
            LocalAction::Merge { plan } => LocalActionView::Merge { plan: plan@ },
            LocalAction::Resample { input } => LocalActionView::Resample { input: input@ },
            LocalAction::ResolveInterpreter => LocalActionView::ResolveInterpreter,
            LocalAction::Run { program, args, env } => LocalActionView::Run {
                program: program@,
                args: strings_view(args@),
                env: pairs_view(env@),
            },
            LocalAction::Finish { result } => LocalActionView::Finish { result: result@ },
            LocalAction::Fail { error } => LocalActionView::Fail { error: error@ },
        }
    }
}

/// The turn that ends a segmentation with a failure.
pub open spec fn giving_up(error: SegmentationErrorView) -> (LocalPhase, LocalActionView) {
    (LocalPhase::Failed, LocalActionView::Fail { error })
}

/// The variables that carry the request's access token to the script.
pub open spec fn script_env(hf_token: Option<Seq<char>>) -> Seq<(Seq<char>, Seq<char>)> {
    match hf_token {
        Some(token) => token_env_spec(token),
        None => Seq::empty(),
    }
}

/// The next phase of a local segmentation and what to do, given what the
/// caller saw.
///
/// The audio is prepared as for the remote service, then resampled. Only then
/// is the engine's interpreter looked for, and never installed: without it the
/// segmentation fails. The script's exit and output are judged at the end.
pub open spec fn local_turn(
    phase: LocalPhase,
    request: LocalRequestView,
    event: LocalEventView,
) -> (
    LocalPhase,
    LocalActionView,
) {
    match (phase, event) {
        (LocalPhase::Start, LocalEventView::Begin) => (
            LocalPhase::ResolvingTool,
            LocalActionView::ResolveTool,
        ),
        (LocalPhase::ResolvingTool, LocalEventView::ToolResolved { found }) => if !found {
            giving_up(SegmentationErrorView::TranscoderNotFound)
        } else {
            match prepared_audio(request.audio_path, request.clips) {
                Err(e) => giving_up(e),
                Ok(MergeDecisionView::Passthrough { path }) => (
                    LocalPhase::Resampling,
                    LocalActionView::Resample { input: AudioInputView::File { path } },
                ),
                Ok(MergeDecisionView::Merge(plan)) => (
                    LocalPhase::Merging,
                    LocalActionView::Merge { plan },
                ),
            }
        },
        (LocalPhase::Merging, LocalEventView::SourceMissing { path }) => giving_up(
            SegmentationErrorView::AudioFileNotFound { path },
        ),
        (LocalPhase::Merging, LocalEventView::Transcoded { success, stderr }) => if success {
            (LocalPhase::Resampling, LocalActionView::Resample { input: AudioInputView::Merged })
        } else {
            giving_up(
                SegmentationErrorView::TranscodeFailed {
                    step: TranscodeStep::Merge,
                    diagnostic: stderr,
                },
            )
        },
        (LocalPhase::Resampling, LocalEventView::SourceMissing { path }) => giving_up(
            SegmentationErrorView::AudioFileNotFound { path },
        ),
        (LocalPhase::Resampling, LocalEventView::Transcoded { success, stderr }) => if success {
            (LocalPhase::ResolvingInterpreter, LocalActionView::ResolveInterpreter)
        } else {
            giving_up(
                SegmentationErrorView::TranscodeFailed {
                    step: TranscodeStep::Resample,
                    diagnostic: stderr,
                },
            )
        },
        (
            LocalPhase::ResolvingInterpreter,
            LocalEventView::InterpreterResolved { python_exe, exists, script_path, wav_path },
        ) => if !exists {
            giving_up(SegmentationErrorView::EnvironmentNotInstalled { engine: request.engine })
        } else {
            match script_path {
                None => giving_up(
                    SegmentationErrorView::ResourceNotFound {
                        path: request.engine.script_path(),
                    },
                ),
                Some(script) => (
                    LocalPhase::Running,
                    LocalActionView::Run {
                        program: python_exe,
                        args: script_args_spec(
                            script,
                            wav_path,
                            request.min_silence_ms,
                            request.min_speech_ms,
                            request.pad_ms,
                            request.extra_args,
                        ),
                        env: script_env(request.hf_token),
                    },
                ),
            }
        },
        (LocalPhase::Running, LocalEventView::Exited { success, stdout, log }) => match exit_result(
            success,
            stdout,
            join(log, "\n"@),
        ) {
            Err(e) => giving_up(e),
            Ok(doc) => (LocalPhase::Done, LocalActionView::Finish { result: doc }),
        },
        _ => giving_up(SegmentationErrorView::UnexpectedEvent),
    }
}

/// How many more turns a phase can take.
pub open spec fn local_turns_ahead(phase: LocalPhase) -> nat {
    match phase {
        LocalPhase::Start => 6,
        LocalPhase::ResolvingTool => 5,
        LocalPhase::Merging => 4,
        LocalPhase::Resampling => 3,
        LocalPhase::ResolvingInterpreter => 2,
        LocalPhase::Running => 1,
        LocalPhase::Done => 0,
        LocalPhase::Failed => 0,
    }
}

/// A local segmentation ends after at most six turns: every turn leads to a
/// later phase, and a turn ends it exactly when it hands out the result or
/// gives up.
pub proof fn lemma_local_segmentation_ends(
    phase: LocalPhase,
    request: LocalRequestView,
    event: LocalEventView,
)
    ensures
        local_turns_ahead(phase) > 0 ==> local_turns_ahead(local_turn(phase, request, event).0)
            < local_turns_ahead(phase),
        local_turns_ahead(local_turn(phase, request, event).0) == 0 <==> (local_turn(
            phase,
            request,
            event,
        ).1 is Finish || local_turn(phase, request, event).1 is Fail),
{
}

/// The script is run only with an interpreter that exists, and a result is
/// handed out only for a run that was judged a success: one whose output
/// reports a failure never is, whether or not the process exited with success.
pub proof fn lemma_local_order(phase: LocalPhase, request: LocalRequestView, event: LocalEventView)
    ensures
        local_turn(phase, request, event).1 is Run ==> (event
            matches LocalEventView::InterpreterResolved { exists, .. } && exists),
        local_turn(phase, request, event).1 matches LocalActionView::Finish { result } ==> (event
            matches LocalEventView::Exited { success, stdout, log } && success && json_document(
            stdout,
        ) == Ok::<JsonDocView, Seq<char>>(result) && reported_error(result) is None),
{
}

fn give_up(error: SegmentationError) -> (r: (LocalPhase, LocalAction))
    ensures
        (r.0, r.1@) == giving_up(error@),
{
    (LocalPhase::Failed, LocalAction::Fail { error })
}

/// Takes what the caller saw and says what to do next. A segmentation begins
/// in phase [`LocalPhase::Start`] with the event [`LocalEvent::Begin`].
pub fn run_local_segmentation_script(
    phase: LocalPhase,
    request: &LocalRequest,
    event: LocalEvent,
) -> (r: (LocalPhase, LocalAction))
    ensures
        (r.0, r.1@) == local_turn(phase, request@, event@),
{
    match (phase, event) {
        (LocalPhase::Start, LocalEvent::Begin) => (
            LocalPhase::ResolvingTool,
            LocalAction::ResolveTool,
        ),
        (LocalPhase::ResolvingTool, LocalEvent::ToolResolved { found }) => {
            if !found {
                return give_up(SegmentationError::TranscoderNotFound);
            }
            let clips: Option<&Vec<SegmentationAudioClip>> = match &request.audio_clips {
                Some(list) => Some(list),
                None => None,
            };
            match prepare_audio(as_text(&request.audio_path), clips) {
                Err(e) => give_up(e),
                Ok(MergeDecision::Passthrough { path }) => (
                    LocalPhase::Resampling,
                    LocalAction::Resample { input: AudioInput::File { path } },
                ),
                Ok(MergeDecision::Merge(plan)) => (
                    LocalPhase::Merging,
                    LocalAction::Merge { plan },
                ),
            }
        },
        (LocalPhase::Merging, LocalEvent::SourceMissing { path }) => give_up(
            SegmentationError::AudioFileNotFound { path },
        ),
        (LocalPhase::Merging, LocalEvent::Transcoded { success, stderr }) => {
            if success {
                (LocalPhase::Resampling, LocalAction::Resample { input: AudioInput::Merged })
            } else {
                give_up(
                    SegmentationError::TranscodeFailed {
                        step: TranscodeStep::Merge,
                        diagnostic: stderr,
                    },
                )
            }
        },
        (LocalPhase::Resampling, LocalEvent::SourceMissing { path }) => give_up(
            SegmentationError::AudioFileNotFound { path },
        ),
        (LocalPhase::Resampling, LocalEvent::Transcoded { success, stderr }) => {
            if success {
                (LocalPhase::ResolvingInterpreter, LocalAction::ResolveInterpreter)
            } else {
                give_up(
                    SegmentationError::TranscodeFailed {
                        step: TranscodeStep::Resample,
                        diagnostic: stderr,
                    },
                )
            }
        },
        (
            LocalPhase::ResolvingInterpreter,
            LocalEvent::InterpreterResolved { python_exe, exists, script_path, wav_path },
        ) => {
            let program = match resolve_engine_python_exe(
                request.engine,
                python_exe.as_str(),
                exists,
            ) {
                Ok(program) => program,
                Err(e) => {
                    return give_up(e);
                },
            };
            match script_path {
                None => give_up(
                    SegmentationError::ResourceNotFound {
                        path: copy_str(request.engine.script_relative_path()),
                    },
                ),
                Some(script) => {
                    let args = script_args(
                        script.as_str(),
                        wav_path.as_str(),
                        request.min_silence_ms,
                        request.min_speech_ms,
                        request.pad_ms,
                        &request.extra_args,
                    );
                    let env = match &request.hf_token {
                        Some(token) => apply_hf_token_env(token.as_str()),
                        None => Vec::new(),
                    };
                    assert(pairs_view(env@) == script_env(request@.hf_token));
                    (LocalPhase::Running, LocalAction::Run { program, args, env })
                },
            }
        },
        (LocalPhase::Running, LocalEvent::Exited { success, stdout, log }) => {
            match interpret_exit(success, stdout.as_str(), &log) {
                Err(e) => give_up(e),
                Ok(doc) => (LocalPhase::Done, LocalAction::Finish { result: doc }),
            }
        },
        _ => give_up(SegmentationError::UnexpectedEvent),
    }
}

} // verus!
