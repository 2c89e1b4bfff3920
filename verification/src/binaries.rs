//! Finding the external tools: what each attempt to run a candidate means, and
//! what the attempts together come to. Looking at the disk and running the
//! candidates is the caller's part.

use vstd::prelude::*;
use crate::text::{
    append_chars, append_str, chars_contain, chars_eq, chars_to_ascii_lower, contains, copy_str,
    lines, opt_string_view, slice_chars, split_lines, str_chars, string_from_chars, to_ascii_lower,
    trim, trim_chars,
};
use crate::types::Platform;

verus! {

/// One attempt to resolve a tool.
#[derive(Clone, Debug, PartialEq, Eq)]
pub struct BinaryResolutionAttempt {
    /// The path or name that was tried.
    pub candidate: String,
    /// Where the candidate came from.
    pub source: String,
    /// What came of the attempt.
    pub outcome: String,
    /// More about a failed attempt.
    pub detail: Option<String>,
}

/// Why a tool could not be resolved.
#[derive(Clone, Debug, PartialEq, Eq)]
pub struct BinaryResolveError {
    /// A stable code for the kind of failure.
    pub code: String,
    /// The main diagnostic.
    pub details: String,
    /// Every attempt that was made.
    pub attempts: Vec<BinaryResolutionAttempt>,
}

/// Everything known about the resolution of a tool.
#[derive(Clone, Debug, PartialEq, Eq)]
pub struct BinaryResolveDebugInfo {
    /// The tool's logical name.
    pub name: String,
    /// The resolved path, on success.
    pub resolved_path: Option<String>,
    /// The failure's code, on failure.
    pub error_code: Option<String>,
    /// The failure's diagnostic, on failure.
    pub error_details: Option<String>,
    /// Every attempt that was made.
    pub attempts: Vec<BinaryResolutionAttempt>,
}

/// The diagnosis of one tool.
#[derive(Clone, Debug, PartialEq, Eq)]
pub struct BinaryDiagnosticResult {
    pub name: String,
    pub resolved_path: Option<String>,
    pub error_code: Option<String>,
    pub error_details: Option<String>,
    pub attempts: Vec<BinaryResolutionAttempt>,
    /// The first line that the tool prints about its version.
    pub version_output: Option<String>,
}

/// An attempt as the contracts see it.
pub struct AttemptView {
    pub candidate: Seq<char>,
    pub source: Seq<char>,
    pub outcome: Seq<char>,
    pub detail: Option<Seq<char>>,
}

impl View for BinaryResolutionAttempt {
    type V = AttemptView;

    open spec fn view(&self) -> AttemptView {
        AttemptView {
            candidate: self.candidate@,
            source: self.source@,
            outcome: self.outcome@,
            detail: opt_string_view(self.detail),
        }
    }
}

/// The views of a list of attempts.
pub open spec fn attempt_views(attempts: Seq<BinaryResolutionAttempt>) -> Seq<AttemptView> {
    Seq::new(attempts.len(), |i: int| attempts[i]@)
}

/// The file name of the tool `base` on a system.
pub fn exe_name(base: &str, platform: Platform) -> (r: String)
    ensures
        r@ == if platform == Platform::Windows {
            base@ + ".exe"@
        } else {
            base@
        },
{
    let mut out = str_chars(base);
    match platform {
        Platform::Windows => {
            append_str(&mut out, ".exe");
        },
        _ => {},
    }
    string_from_chars(&out)
}

/// The first line of `ls` that is not blank, trimmed.
pub open spec fn first_non_blank(ls: Seq<Seq<char>>) -> Option<Seq<char>>
    decreases ls.len(),
{
    if ls.len() == 0 {
        None
    } else if trim(ls[0]).len() > 0 {
        Some(trim(ls[0]))
    } else {
        first_non_blank(ls.drop_first())
    }
}

/// The first line of `text` that is not blank, trimmed; the trimmed text when
/// every line is blank.
pub open spec fn first_line(text: Seq<char>) -> Seq<char> {
    match first_non_blank(lines(text)) {
        Some(l) => l,
        None => trim(text),
    }
}

/// The first line of `text` that is not blank.
pub fn first_non_empty_line(text: &str) -> (r: String)
    ensures
        r@ == first_line(text@),
{
    let chars = str_chars(text);
    let ls = split_lines(&chars);
    let ghost all = lines(text@);
    let mut i: usize = 0;
    assert(all.subrange(0, all.len() as int) == all);
    while i < ls.len()
        invariant
            i <= ls.len(),
            all == lines(text@),
            ls@.len() == all.len(),
            forall|k: int| 0 <= k < ls@.len() ==> ls@[k]@ == all[k],
            first_non_blank(all) == first_non_blank(all.subrange(i as int, all.len() as int)),
        decreases ls.len() - i,
    {
        let ghost rest = all.subrange(i as int, all.len() as int);
        let trimmed = trim_chars(&ls[i]);
        if trimmed.len() > 0 {
            return string_from_chars(&trimmed);
        }
        assert(rest.drop_first() == all.subrange(i + 1, all.len() as int));
        i += 1;
    }
    let trimmed = trim_chars(&chars);
    string_from_chars(&trimmed)
}

/// Why a process could not be started.
#[derive(Clone, Copy, Debug, PartialEq, Eq, Structural)]
pub enum SpawnErrorKind {
    NotFound,
    PermissionDenied,
    Other,
}

/// Whether a message says that a file is no program for this machine.
pub open spec fn says_not_executable(message: Seq<char>) -> bool {
    let lower = to_ascii_lower(message);
    contains(lower, "exec format error"@) || contains(lower, "bad cpu type"@) || contains(
        lower,
        "cannot execute"@,
    )
}

/// The outcome and detail of an attempt whose process could not be started.
pub open spec fn spawn_failure(kind: SpawnErrorKind, message: Seq<char>) -> (Seq<char>, Seq<char>) {
    match kind {
        SpawnErrorKind::NotFound => ("missing"@, "Binary not found"@),
        SpawnErrorKind::PermissionDenied => (
            "not_executable"@,
            "Permission denied while executing binary"@,
        ),
        SpawnErrorKind::Other => if says_not_executable(message) {
            ("not_executable"@, message)
        } else {
            ("exec_failed"@, message)
        },
    }
}

/// Classifies a failure to start a process.
pub fn classify_spawn_error(kind: SpawnErrorKind, message: &str) -> (r: (&'static str, String))
    ensures
        (r.0@, r.1@) == spawn_failure(kind, message@),
{
    match kind {
        SpawnErrorKind::NotFound => ("missing", copy_str("Binary not found")),
        SpawnErrorKind::PermissionDenied => (
            "not_executable",
            copy_str("Permission denied while executing binary"),
        ),
        SpawnErrorKind::Other => {
            let chars = str_chars(message);
            let lower = chars_to_ascii_lower(&chars);
            let a = str_chars("exec format error");
            let b = str_chars("bad cpu type");
            let c = str_chars("cannot execute");
            if chars_contain(&lower, &a) || chars_contain(&lower, &b) || chars_contain(&lower, &c) {
                ("not_executable", copy_str(message))
            } else {
                ("exec_failed", copy_str(message))
            }
        },
    }
}

/// `s` without the ending `suffix`, or `s` itself when it does not end so.
pub open spec fn without_suffix(s: Seq<char>, suffix: Seq<char>) -> Seq<char> {
    if suffix.len() <= s.len() && s.subrange(s.len() - suffix.len(), s.len() as int) == suffix {
        s.subrange(0, s.len() - suffix.len())
    } else {
        s
    }
}

/// The name of a tool without `.exe`, in lower case.
pub open spec fn plain_name(binary_name: Seq<char>) -> Seq<char> {
    to_ascii_lower(without_suffix(binary_name, ".exe"@))
}

/// The arguments that make a tool print its version.
pub fn probe_args_for(binary_name: &str) -> (r: &'static [&'static str])
    ensures
        r@.len() == 1,
        r@[0]@ == if plain_name(binary_name@) == "yt-dlp"@ {
            "--version"@
        } else {
            "-version"@
        },
{
    let chars = str_chars(binary_name);
    let suffix = str_chars(".exe");
    let mut stem = slice_chars(&chars, 0, chars.len());
    assert(stem@ == chars@);
    if suffix.len() <= chars.len() {
        let tail = slice_chars(&chars, chars.len() - suffix.len(), chars.len());
        if chars_eq(&tail, &suffix) {
            stem = slice_chars(&chars, 0, chars.len() - suffix.len());
        }
    }
    let lower = chars_to_ascii_lower(&stem);
    let wanted = str_chars("yt-dlp");
    if chars_eq(&lower, &wanted) {
        &["--version"]
    } else {
        &["-version"]
    }
}

/// What came of running a candidate with the arguments that print its version.
#[derive(Clone, Debug, PartialEq, Eq)]
pub enum ProbeOutcome {
    /// The process ran to its end.
    Ran { success: bool, stdout: String, stderr: String },
    /// The process could not be started.
    SpawnFailed { kind: SpawnErrorKind, message: String },
}

/// A probe's outcome as the contracts see it.
pub enum ProbeOutcomeView {
    Ran { success: bool, stdout: Seq<char>, stderr: Seq<char> },
    SpawnFailed { kind: SpawnErrorKind, message: Seq<char> },
}

impl View for ProbeOutcome {
    type V = ProbeOutcomeView;

    open spec fn view(&self) -> ProbeOutcomeView {
        match self {
            ProbeOutcome::Ran { success, stdout, stderr } => ProbeOutcomeView::Ran {
                success: *success,
                stdout: stdout@,
                stderr: stderr@,
            },
            ProbeOutcome::SpawnFailed { kind, message } => ProbeOutcomeView::SpawnFailed {
                kind: *kind,
                message: message@,
            },
        }
    }
}

/// The outcome and detail of a probe; `None` when the candidate ran and
/// succeeded.
pub open spec fn probe_failure(probe: ProbeOutcomeView) -> Option<(Seq<char>, Seq<char>)> {
    match probe {
        ProbeOutcomeView::Ran { success, stdout, stderr } => if success {
            None
        } else if first_line(stderr).len() > 0 {
            Some(("exec_failed"@, first_line(stderr)))
        } else if first_line(stdout).len() > 0 {
            Some(("exec_failed"@, first_line(stdout)))
        } else {
            Some(("exec_failed"@, "Binary returned non-zero exit status"@))
        },
        ProbeOutcomeView::SpawnFailed { kind, message } => Some(spawn_failure(kind, message)),
    }
}

/// Judges whether a candidate can be run, from what came of running it.
pub fn test_binary_version(probe: &ProbeOutcome) -> (r: Result<(), (String, String)>)
    ensures
        match r {
            Ok(_) => probe_failure(probe@) is None,
            Err(why) => probe_failure(probe@) == Some((why.0@, why.1@)),
        },
{
    match probe {
        ProbeOutcome::Ran { success, stdout, stderr } => {
            if *success {
                return Ok(());
            }
            let mut detail = first_non_empty_line(stderr.as_str());
            if detail.as_str().is_empty() {
                detail = first_non_empty_line(stdout.as_str());
            }
            if detail.as_str().is_empty() {
                detail = copy_str("Binary returned non-zero exit status");
            }
            Err((copy_str("exec_failed"), detail))
        },
        ProbeOutcome::SpawnFailed { kind, message } => {
            let (outcome, detail) = classify_spawn_error(*kind, message.as_str());
            Err((copy_str(outcome), detail))
        },
    }
}

/// Where a candidate came from.
#[derive(Clone, Copy, Debug, PartialEq, Eq, Structural)]
pub enum CandidateSource {
    /// A bundled file or a well-known place on the system.
    KnownPath,
    /// A bare command, left to the system's search path.
    SystemPath,
}

/// The name of a source in an attempt's record.
pub open spec fn source_name(source: CandidateSource) -> Seq<char> {
    match source {
        CandidateSource::KnownPath => "bundled_or_known_path"@,
        CandidateSource::SystemPath => "system_path"@,
    }
}

/// The record of an attempt: a candidate that does not exist is `missing`, one
/// that ran and succeeded is `ok`, and any other carries the probe's failure.
pub open spec fn attempt_record(
    candidate: Seq<char>,
    source: CandidateSource,
    probe: Option<ProbeOutcomeView>,
) -> AttemptView {
    match probe {
        None => AttemptView {
            candidate,
            source: source_name(source),
            outcome: "missing"@,
            detail: None,
        },
        Some(p) => match probe_failure(p) {
            None => AttemptView {
                candidate,
                source: source_name(source),
                outcome: "ok"@,
                detail: None,
            },
            Some(why) => AttemptView {
                candidate,
                source: source_name(source),
                outcome: why.0,
                detail: Some(why.1),
            },
        },
    }
}

/// Records one attempt. `probe` is `None` for a candidate path that does not
/// exist and was therefore not run.
pub fn record_attempt(candidate: &str, source: CandidateSource, probe: Option<&ProbeOutcome>) -> (r: BinaryResolutionAttempt)
    ensures
        r@ == attempt_record(
            candidate@,
            source,
            match probe {
                Some(p) => Some(p@),
                None => None,
            },
        ),
{
    let source_text = match source {
        CandidateSource::KnownPath => copy_str("bundled_or_known_path"),
        CandidateSource::SystemPath => copy_str("system_path"),
    };
    match probe {
        None => BinaryResolutionAttempt {
            candidate: copy_str(candidate),
            source: source_text,
            outcome: copy_str("missing"),
            detail: None,
        },
        Some(p) => match test_binary_version(p) {
            Ok(_) => BinaryResolutionAttempt {
                candidate: copy_str(candidate),
                source: source_text,
                outcome: copy_str("ok"),
                detail: None,
            },
            Err(why) => BinaryResolutionAttempt {
                candidate: copy_str(candidate),
                source: source_text,
                outcome: why.0,
                detail: Some(why.1),
            },
        },
    }
}

/// The index of the first attempt that succeeded, or the number of attempts.
pub open spec fn first_ok(attempts: Seq<AttemptView>) -> int
    decreases attempts.len(),
{
    if attempts.len() == 0 || attempts[0].outcome == "ok"@ {
        0
    } else {
        1 + first_ok(attempts.drop_first())
    }
}

/// Whether some attempt had the given outcome.
pub open spec fn has_outcome(attempts: Seq<AttemptView>, outcome: Seq<char>) -> bool {
    exists|i: int| 0 <= i < attempts.len() && (#[trigger] attempts[i]).outcome == outcome
}

/// The detail of the first attempt that carries one.
pub open spec fn first_detail(attempts: Seq<AttemptView>) -> Option<Seq<char>>
    decreases attempts.len(),
{
    if attempts.len() == 0 {
        None
    } else if attempts[0].detail is Some {
        attempts[0].detail
    } else {
        first_detail(attempts.drop_first())
    }
}

/// The code for a resolution in which no attempt succeeded.
pub open spec fn failure_code(attempts: Seq<AttemptView>) -> Seq<char> {
    if has_outcome(attempts, "not_executable"@) {
        "BINARY_NOT_EXECUTABLE"@
    } else if has_outcome(attempts, "exec_failed"@) {
        "BINARY_EXEC_FAILED"@
    } else {
        "BINARY_NOT_FOUND"@
    }
}

/// The diagnostic for a resolution in which no attempt succeeded.
pub open spec fn failure_details(name: Seq<char>, attempts: Seq<AttemptView>) -> Seq<char> {
    match first_detail(attempts) {
        Some(d) => d,
        None => "No usable binary found for "@ + name,
    }
}

/// A resolution's failure as the contracts see it.
pub struct ResolveErrorView {
    pub code: Seq<char>,
    pub details: Seq<char>,
    pub attempts: Seq<AttemptView>,
}

impl View for BinaryResolveError {
    type V = ResolveErrorView;

    open spec fn view(&self) -> ResolveErrorView {
        ResolveErrorView {
            code: self.code@,
            details: self.details@,
            attempts: attempt_views(self.attempts@),
        }
    }
}

/// What a list of attempts, in the order in which they were made, comes to:
/// the candidate of the first that succeeded, with the attempts up to it, or a
/// failure with all of them.
pub open spec fn resolution(name: Seq<char>, attempts: Seq<AttemptView>) -> Result<
    (Seq<char>, Seq<AttemptView>),
    ResolveErrorView,
> {
    let k = first_ok(attempts);
    if 0 <= k < attempts.len() {
        Ok((attempts[k].candidate, attempts.subrange(0, k + 1)))
    } else {
        Err(
            ResolveErrorView {
                code: failure_code(attempts),
                details: failure_details(name, attempts),
                attempts,
            },
        )
    }
}

proof fn lemma_first_ok_is(attempts: Seq<AttemptView>, k: int)
    requires
        0 <= k <= attempts.len(),
        forall|j: int| 0 <= j < k ==> (#[trigger] attempts[j]).outcome != "ok"@,
        k < attempts.len() ==> attempts[k].outcome == "ok"@,
    ensures
        first_ok(attempts) == k,
    decreases attempts.len(),
{
    if !(attempts.len() == 0 || attempts[0].outcome == "ok"@) {
        let rest = attempts.drop_first();
        assert forall|j: int| 0 <= j < k - 1 implies (#[trigger] rest[j]).outcome != "ok"@ by {
            assert(rest[j] == attempts[j + 1]);
        }
        lemma_first_ok_is(rest, k - 1);
    }
}

/// Whether `text` is the given word.
fn is_word(text: &String, word: &str) -> (r: bool)
    ensures
        r == (text@ == word@),
{
    let a = str_chars(text.as_str());
    let b = str_chars(word);
    chars_eq(&a, &b)
}

/// A copy of an attempt's record.
pub fn copy_attempt(a: &BinaryResolutionAttempt) -> (r: BinaryResolutionAttempt)
    ensures
        r@ == a@,
{
    BinaryResolutionAttempt {
        candidate: a.candidate.clone(),
        source: a.source.clone(),
        outcome: a.outcome.clone(),
        detail: match &a.detail {
            Some(d) => Some(d.clone()),
            None => None,
        },
    }
}

/// Resolves a tool from the attempts that were made, in order.
pub fn resolve_binary_with_attempts(name: &str, attempts: Vec<BinaryResolutionAttempt>) -> (r: Result<(String, Vec<BinaryResolutionAttempt>), BinaryResolveError>)
    ensures
        match r {
            Ok(found) => resolution(name@, attempt_views(attempts@)) == Ok::<
                (Seq<char>, Seq<AttemptView>),
                ResolveErrorView,
            >((found.0@, attempt_views(found.1@))),
            Err(e) => resolution(name@, attempt_views(attempts@)) == Err::<
                (Seq<char>, Seq<AttemptView>),
                ResolveErrorView,
            >(e@),
        },
{
    let ghost views = attempt_views(attempts@);
    let mut made: Vec<BinaryResolutionAttempt> = Vec::new();
    let mut not_executable = false;
    let mut exec_failed = false;
    let mut detail: Option<String> = None;
    let mut i: usize = 0;
    assert(views.subrange(0, views.len() as int) == views);
    while i < attempts.len()
        invariant
            i <= attempts.len(),
            views == attempt_views(attempts@),
            attempt_views(made@) == views.subrange(0, i as int),
            forall|j: int| 0 <= j < i ==> (#[trigger] views[j]).outcome != "ok"@,
            not_executable == has_outcome(views.subrange(0, i as int), "not_executable"@),
            exec_failed == has_outcome(views.subrange(0, i as int), "exec_failed"@),
            match detail {
                Some(d) => first_detail(views) == Some(d@),
                None => first_detail(views) == first_detail(
                    views.subrange(i as int, views.len() as int),
                ),
            },
        decreases attempts.len() - i,
    {
        let a = &attempts[i];
        let ghost before = attempt_views(made@);
        assert(views[i as int] == a@);
        made.push(copy_attempt(a));
        assert(attempt_views(made@) == before.push(a@));
        assert(views.subrange(0, i + 1) == views.subrange(0, i as int).push(views[i as int]));
        if is_word(&a.outcome, "ok") {
            proof {
                lemma_first_ok_is(views, i as int);
            }
            return Ok((a.candidate.clone(), made));
        }
        proof {
            let head = views.subrange(0, i as int);
            let now = views.subrange(0, i + 1);
            assert forall|w: Seq<char>|
                has_outcome(now, w) == (has_outcome(head, w) || views[i as int].outcome == w) by {
                if has_outcome(now, w) {
                    let m = choose|m: int| 0 <= m < now.len() && (#[trigger] now[m]).outcome == w;
                    if m < i {
                        assert(head[m].outcome == w);
                    }
                }
                if has_outcome(head, w) {
                    let m = choose|m: int| 0 <= m < head.len() && (#[trigger] head[m]).outcome == w;
                    assert(now[m].outcome == w);
                }
            }
        }
        if is_word(&a.outcome, "not_executable") {
            not_executable = true;
        }
        if is_word(&a.outcome, "exec_failed") {
            exec_failed = true;
        }
        let ghost rest = views.subrange(i as int, views.len() as int);
        assert(rest.drop_first() == views.subrange(i + 1, views.len() as int));
        if detail.is_none() {
            match &a.detail {
                Some(d) => {
                    detail = Some(d.clone());
                },
                None => {},
            }
        }
        i += 1;
    }
    proof {
        lemma_first_ok_is(views, views.len() as int);
    }
    let details = match detail {
        Some(d) => d,
        None => {
            let mut out: Vec<char> = Vec::new();
            append_str(&mut out, "No usable binary found for ");
            append_str(&mut out, name);
            string_from_chars(&out)
        },
    };
    let code = if not_executable {
        copy_str("BINARY_NOT_EXECUTABLE")
    } else if exec_failed {
        copy_str("BINARY_EXEC_FAILED")
    } else {
        copy_str("BINARY_NOT_FOUND")
    };
    Err(BinaryResolveError { code, details, attempts: made })
}

/// The path of a tool, or why it could not be resolved.
pub fn resolve_binary_detailed(name: &str, attempts: Vec<BinaryResolutionAttempt>) -> (r: Result<
    String,
    BinaryResolveError,
>)
    ensures
        match r {
            Ok(path) => resolution(name@, attempt_views(attempts@)) matches Ok(found) && found.0
                == path@,
            Err(e) => resolution(name@, attempt_views(attempts@)) == Err::<
                (Seq<char>, Seq<AttemptView>),
                ResolveErrorView,
            >(e@),
        },
{
    match resolve_binary_with_attempts(name, attempts) {
        Ok(found) => Ok(found.0),
        Err(e) => Err(e),
    }
}

/// The path of a tool, when it could be resolved.
pub fn resolve_binary(name: &str, attempts: Vec<BinaryResolutionAttempt>) -> (r: Option<String>)
    ensures
        match r {
            Some(path) => resolution(name@, attempt_views(attempts@)) matches Ok(found) && found.0
                == path@,
            None => resolution(name@, attempt_views(attempts@)) is Err,
        },
{
    match resolve_binary_detailed(name, attempts) {
        Ok(path) => Some(path),
        Err(_) => None,
    }
}

/// Everything known about the resolution of a tool.
pub fn resolve_binary_debug(name: &str, attempts: Vec<BinaryResolutionAttempt>) -> (r: BinaryResolveDebugInfo)
    ensures
        r.name@ == name@,
        match resolution(name@, attempt_views(attempts@)) {
            Ok(found) => {
                &&& opt_string_view(r.resolved_path) == Some(found.0)
                &&& r.error_code is None
                &&& r.error_details is None
                &&& attempt_views(r.attempts@) == found.1
            },
            Err(e) => {
                &&& r.resolved_path is None
                &&& opt_string_view(r.error_code) == Some(e.code)
                &&& opt_string_view(r.error_details) == Some(e.details)
                &&& attempt_views(r.attempts@) == e.attempts
            },
        },
{
    match resolve_binary_with_attempts(name, attempts) {
        Ok(found) => BinaryResolveDebugInfo {
            name: copy_str(name),
            resolved_path: Some(found.0),
            error_code: None,
            error_details: None,
            attempts: found.1,
        },
        Err(e) => BinaryResolveDebugInfo {
            name: copy_str(name),
            resolved_path: None,
            error_code: Some(e.code),
            error_details: Some(e.details),
            attempts: e.attempts,
        },
    }
}

/// The message for a probe tool that could not be resolved.
pub open spec fn ffprobe_message(code: Seq<char>, details: Seq<char>) -> Seq<char> {
    if code == "BINARY_NOT_FOUND"@ {
        "FFPROBE_NOT_FOUND"@
    } else if code == "BINARY_NOT_EXECUTABLE"@ {
        "FFPROBE_NOT_EXECUTABLE: "@ + details
    } else {
        "FFPROBE_EXEC_FAILED:"@ + details
    }
}

/// Turns a failed resolution of the probe tool into the message that callers
/// match on.
pub fn map_ffprobe_resolve_error(err: BinaryResolveError) -> (r: String)
    ensures
        r@ == ffprobe_message(err.code@, err.details@),
{
    let mut out: Vec<char> = Vec::new();
    if is_word(&err.code, "BINARY_NOT_FOUND") {
        append_str(&mut out, "FFPROBE_NOT_FOUND");
    } else if is_word(&err.code, "BINARY_NOT_EXECUTABLE") {
        append_str(&mut out, "FFPROBE_NOT_EXECUTABLE: ");
        append_str(&mut out, err.details.as_str());
    } else {
        append_str(&mut out, "FFPROBE_EXEC_FAILED:");
        append_str(&mut out, err.details.as_str());
    }
    string_from_chars(&out)
}

/// Formats a failed run of the probe tool with the prefix that callers match on.
pub fn format_ffprobe_exec_failed(details: &str) -> (r: String)
    ensures
        r@ == "FFPROBE_EXEC_FAILED:"@ + trim(details@),
{
    let chars = str_chars(details);
    let trimmed = trim_chars(&chars);
    let mut out: Vec<char> = Vec::new();
    append_str(&mut out, "FFPROBE_EXEC_FAILED:");
    append_chars(&mut out, &trimmed);
    string_from_chars(&out)
}

} // verus!
